//! Source versions: semantic versions held as plain values.

use vstd::prelude::*;

use crate::text::{chars_of, decimal, decimal_text};

verus! {

/// A semantic version.
#[derive(Debug, PartialEq, Eq)]
pub struct SourceVersion {
    pub major: u64,
    pub minor: u64,
    pub patch: u64,
    /// The pre-release identifiers, empty for a release.
    pub pre: String,
    /// The build metadata, empty where there is none.
    pub build: String,
}

/// What a [`SourceVersion`] holds.
pub struct SourceVersionView {
    pub major: u64,
    pub minor: u64,
    pub patch: u64,
    pub pre: Seq<char>,
    pub build: Seq<char>,
}

impl DeepView for SourceVersion {
    type V = SourceVersionView;

    open spec fn deep_view(&self) -> SourceVersionView {
        SourceVersionView {
            major: self.major,
            minor: self.minor,
            patch: self.patch,
            pre: self.pre@,
            build: self.build@,
        }
    }
}

impl Clone for SourceVersion {
    fn clone(&self) -> (copy: Self)
        ensures
            copy.deep_view() == self.deep_view(),
    {
        let copy = SourceVersion {
            major: self.major,
            minor: self.minor,
            patch: self.patch,
            pre: self.pre.clone(),
            build: self.build.clone(),
        };
        copy
    }
}

impl SourceVersionView {
    /// Major, minor and patch number with dots between them.
    pub open spec fn numbers(self) -> Seq<char> {
        decimal(self.major as nat) + "."@ + decimal(self.minor as nat) + "."@ + decimal(
            self.patch as nat,
        )
    }

    /// The numbers, then the pre-release after `mark`, then the build metadata after a plus sign.
    pub open spec fn marked(self, mark: Seq<char>) -> Seq<char> {
        let release = if self.pre.len() == 0 {
            self.numbers()
        } else {
            self.numbers() + mark + self.pre
        };
        if self.build.len() == 0 {
            release
        } else {
            release + "+"@ + self.build
        }
    }

    /// The version as semantic versions are written.
    pub open spec fn text(self) -> Seq<char> {
        self.marked("-"@)
    }

    /// The version as Linux package systems write it: a pre-release follows a tilde.
    pub open spec fn linux_text(self) -> Seq<char> {
        self.marked("~"@)
    }
}

/// What `semver::Version::parse` makes of a text: the version it reads, or nothing
/// where it refuses the text.
pub uninterp spec fn parsed_version(text: Seq<char>) -> Option<SourceVersionView>;

/// The error of `semver::Version::parse`.
#[verifier::external_type_specification]
#[verifier::external_body]
pub struct ExSemverError(semver::Error);

/// `semver::Version::parse`. What it returns depends on the text alone. A text that it
/// accepts is exactly how the version it reads is written: no other spelling of a
/// number, no white space and no other separator is accepted.
#[verifier::external_body]
fn semver_parse(text: &str) -> (version: Result<SourceVersion, semver::Error>)
    ensures
        match version {
            Ok(version) => parsed_version(text@) == Some(version.deep_view())
                && version.deep_view().text() == text@,
            Err(_) => parsed_version(text@) is None,
        },
{
    let version = semver::Version::parse(text)?;
    Ok(
        SourceVersion {
            major: version.major,
            minor: version.minor,
            patch: version.patch,
            pre: version.pre.as_str().to_owned(),
            build: version.build.as_str().to_owned(),
        },
    )
}

/// A text that is no semantic version.
#[derive(Debug, PartialEq, Eq)]
pub enum ParseSourceVersionError {
    /// Reported as `{text} is not a semantic version`.
    Invalid { text: String },
}

/// What a [`ParseSourceVersionError`] holds.
pub enum ParseSourceVersionErrorView {
    Invalid { text: Seq<char> },
}

impl DeepView for ParseSourceVersionError {
    type V = ParseSourceVersionErrorView;

    open spec fn deep_view(&self) -> ParseSourceVersionErrorView {
        match self {
            ParseSourceVersionError::Invalid { text } => ParseSourceVersionErrorView::Invalid {
                text: text@,
            },
        }
    }
}

impl ParseSourceVersionErrorView {
    /// The message of the error.
    pub open spec fn message(self) -> Seq<char> {
        match self {
            ParseSourceVersionErrorView::Invalid { text } => text + " is not a semantic version"@,
        }
    }
}

impl ParseSourceVersionError {
    /// The message of the error.
    pub fn to_string(&self) -> (text: String)
        ensures
            text@ == self.deep_view().message(),
    {
        match self {
            ParseSourceVersionError::Invalid { text } => {
                let mut text = text.as_str().to_owned();
                text.append(" is not a semantic version");
                text
            },
        }
    }
}

impl SourceVersion {
    /// Reads a semantic version.
    pub fn parse(text: &str) -> (version: Result<Self, ParseSourceVersionError>)
        ensures
            match version {
                Ok(version) => parsed_version(text@) == Some(version.deep_view())
                    && version.deep_view().text() == text@,
                Err(error) => parsed_version(text@) is None && error.deep_view() == (
                ParseSourceVersionErrorView::Invalid { text: text@ }),
            },
    {
        match semver_parse(text) {
            Ok(version) => Ok(version),
            Err(_) => Err(ParseSourceVersionError::Invalid { text: text.to_owned() }),
        }
    }

    /// The numbers, then the pre-release after `mark`, then the build metadata.
    fn marked(&self, mark: &str) -> (text: String)
        ensures
            text@ == self.deep_view().marked(mark@),
    {
        let mut text = decimal_text(self.major);
        text.append(".");
        text.append(decimal_text(self.minor).as_str());
        text.append(".");
        text.append(decimal_text(self.patch).as_str());
        if !self.pre.as_str().is_empty() {
            text.append(mark);
            text.append(self.pre.as_str());
        }
        if !self.build.as_str().is_empty() {
            text.append("+");
            text.append(self.build.as_str());
        }
        text
    }

    /// The version as semantic versions are written.
    pub fn to_string(&self) -> (text: String)
        ensures
            text@ == self.deep_view().text(),
    {
        self.marked("-")
    }

    /// The version as Linux package systems write it.
    pub fn linux_text(&self) -> (text: String)
        ensures
            text@ == self.deep_view().linux_text(),
    {
        self.marked("~")
    }

    /// Whether the pre-release is a bare number, as a package revision is.
    pub fn has_revision(&self) -> (found: bool)
        ensures
            found == is_revision(self.deep_view().pre),
    {
        let chars = chars_of(self.pre.as_str());
        if chars.len() == 0 {
            return false;
        }
        let mut i: usize = 0;
        while i < chars.len()
            invariant
                i <= chars@.len(),
                forall|j: int| 0 <= j < i ==> is_digit(#[trigger] chars@[j]),
                chars@ == self.pre@,
                chars@.len() > 0,
            decreases chars@.len() - i,
        {
            if !('0' <= chars[i] && chars[i] <= '9') {
                assert(!is_digit(chars@[i as int]));
                return false;
            }
            i = i + 1;
        }
        true
    }
}

/// A decimal digit.
pub open spec fn is_digit(c: char) -> bool {
    '0' <= c && c <= '9'
}

/// A non-empty run of decimal digits.
pub open spec fn is_revision(text: Seq<char>) -> bool {
    text.len() > 0 && forall|i: int| 0 <= i < text.len() ==> is_digit(#[trigger] text[i])
}

} // verus!
