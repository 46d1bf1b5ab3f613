//! Homebrew formulas.

use vstd::prelude::*;

use crate::manifest::{PackageArtifact, PackageArtifactView, PackageManifest, PackageManifestView};
use crate::model::{deep, outcome};
use crate::package::{PackageId, ResolvedPackageMetadata, ResolvedPackageMetadataView};
use crate::publish::{below_prefix, PublicBaseUrl};
use crate::system::PackageSystem;
use crate::template::{
    all_features, extend_with_features, extended, feature_variables, manifest_features,
    package_template_variables, package_variables,
};
use crate::text::{chars_of, join, joined, same_text, to_upper_case, upper_case};
use crate::textmap::TextMap;

verus! {

broadcast use crate::model::group_deep;

/// Why there are no variables for a Homebrew formula.
#[derive(Debug, PartialEq, Eq)]
pub enum BrewTemplateVariableError {
    /// Reported as `brew formula requires brew package manifest`.
    WrongKind,
    /// Reported as `brew package artifact is missing archive name`.
    MissingArchiveName { target: String },
    /// Reported as `unsupported brew target {target}`.
    UnsupportedTarget { target: String },
}

/// What a [`BrewTemplateVariableError`] holds.
pub enum BrewTemplateVariableErrorView {
    WrongKind,
    MissingArchiveName { target: Seq<char> },
    UnsupportedTarget { target: Seq<char> },
}

impl DeepView for BrewTemplateVariableError {
    type V = BrewTemplateVariableErrorView;

    open spec fn deep_view(&self) -> BrewTemplateVariableErrorView {
        match self {
            BrewTemplateVariableError::WrongKind => BrewTemplateVariableErrorView::WrongKind,
            BrewTemplateVariableError::MissingArchiveName { target } => BrewTemplateVariableErrorView::MissingArchiveName {
                target: target@,
            },
            BrewTemplateVariableError::UnsupportedTarget { target } => BrewTemplateVariableErrorView::UnsupportedTarget {
                target: target@,
            },
        }
    }
}

impl BrewTemplateVariableErrorView {
    /// The message of the error.
    pub open spec fn message(self) -> Seq<char> {
        match self {
            BrewTemplateVariableErrorView::WrongKind => "brew formula requires brew package manifest"@,
            BrewTemplateVariableErrorView::MissingArchiveName { .. } => "brew package artifact is missing archive name"@,
            BrewTemplateVariableErrorView::UnsupportedTarget { target } => "unsupported brew target "@ + target,
        }
    }
}

impl BrewTemplateVariableError {
    /// The message of the error.
    pub fn to_string(&self) -> (text: String)
        ensures
            text@ == self.deep_view().message(),
    {
        match self {
            BrewTemplateVariableError::WrongKind => "brew formula requires brew package manifest".to_owned(),
            BrewTemplateVariableError::MissingArchiveName { .. } => "brew package artifact is missing archive name".to_owned(),
            BrewTemplateVariableError::UnsupportedTarget { target } => {
                let mut text = "unsupported brew target ".to_owned();
                text.append(target.as_str());
                text
            },
        }
    }
}

/// A character that separates the words of a package name.
pub open spec fn separates_words(c: char) -> bool {
    c == '-' || c == '_' || c == '.'
}

/// The class name of a package from `from` on: the words without their separators, the
/// first character of each in upper case. `starts` says whether a word starts.
pub open spec fn class_name_from(package: Seq<char>, from: int, starts: bool, done: Seq<char>) -> Seq<
    char,
>
    decreases package.len() - from,
{
    if from < 0 || from >= package.len() {
        done
    } else if separates_words(package[from]) {
        class_name_from(package, from + 1, true, done)
    } else if starts {
        class_name_from(package, from + 1, false, done + upper_case(package[from]))
    } else {
        class_name_from(package, from + 1, false, done.push(package[from]))
    }
}

/// The name of the Ruby class of a formula.
pub open spec fn class_name(package: Seq<char>) -> Seq<char> {
    class_name_from(package, 0, true, Seq::empty())
}

/// The name of the Ruby class of a formula.
pub fn formula_class_name(package: &str) -> (name: String)
    ensures
        name@ == class_name(package@),
{
    let chars = chars_of(package);
    let mut name = String::new();
    let mut starts = true;
    let mut i: usize = 0;
    while i < chars.len()
        invariant
            i <= chars@.len(),
            chars@ == package@,
            class_name(package@) == class_name_from(package@, i as int, starts, name@),
        decreases chars@.len() - i,
    {
        let c = chars[i];
        if c == '-' || c == '_' || c == '.' {
            starts = true;
        } else if starts {
            name.append(to_upper_case(c).as_str());
            starts = false;
        } else {
            name.push(c);
        }
        i = i + 1;
    }
    name
}

/// The block of a formula for a target.
pub open spec fn on_block(target: Seq<char>) -> Option<Seq<char>> {
    if target == "aarch64-apple-darwin"@ {
        Some("on_arm"@)
    } else if target == "x86_64-apple-darwin"@ {
        Some("on_intel"@)
    } else {
        None
    }
}

/// The part of a formula that tells where an artifact is downloaded.
pub open spec fn url_block(artifact: PackageArtifactView, base_url: Seq<char>) -> Result<
    Seq<char>,
    BrewTemplateVariableErrorView,
> {
    match (artifact.archive_name, on_block(artifact.target)) {
        (None, _) => Err(
            BrewTemplateVariableErrorView::MissingArchiveName { target: artifact.target },
        ),
        (Some(_), None) => Err(
            BrewTemplateVariableErrorView::UnsupportedTarget { target: artifact.target },
        ),
        (Some(archive_name), Some(block)) => Ok(
            "  "@ + block + " do\n    url \""@ + below_prefix(base_url, archive_name)
                + "\"\n    sha256 \""@ + artifact.sha256 + "\"\n  end"@,
        ),
    }
}

/// The parts for the artifacts from `from` on, after those already `found`.
pub open spec fn url_blocks(
    artifacts: Seq<PackageArtifactView>,
    base_url: Seq<char>,
    from: int,
    found: Seq<Seq<char>>,
) -> Result<Seq<Seq<char>>, BrewTemplateVariableErrorView>
    decreases artifacts.len() - from,
{
    if from < 0 || from >= artifacts.len() {
        Ok(found)
    } else {
        match url_block(artifacts[from], base_url) {
            Err(error) => Err(error),
            Ok(block) => url_blocks(artifacts, base_url, from + 1, found.push(block)),
        }
    }
}

/// The part of a formula that tells where the artifacts are downloaded.
pub open spec fn url_section(manifest: PackageManifestView, base_url: Seq<char>) -> Result<
    Seq<char>,
    BrewTemplateVariableErrorView,
> {
    match url_blocks(manifest.artifacts, base_url, 0, Seq::empty()) {
        Err(error) => Err(error),
        Ok(blocks) => Ok(joined(blocks, "\n\n"@)),
    }
}

fn formula_url(artifact: &PackageArtifact, public_base_url: &PublicBaseUrl) -> (block: Result<
    String,
    BrewTemplateVariableError,
>)
    ensures
        outcome(block) == url_block(artifact.deep_view(), public_base_url.deep_view()),
{
    let archive_name = match &artifact.archive_name {
        Some(name) => name,
        None => {
            return Err(
                BrewTemplateVariableError::MissingArchiveName { target: artifact.target.clone() },
            );
        },
    };
    let block = if same_text(artifact.target.as_str(), "aarch64-apple-darwin") {
        "on_arm"
    } else if same_text(artifact.target.as_str(), "x86_64-apple-darwin") {
        "on_intel"
    } else {
        return Err(
            BrewTemplateVariableError::UnsupportedTarget { target: artifact.target.clone() },
        );
    };
    let mut text = "  ".to_owned();
    text.append(block);
    text.append(" do\n    url \"");
    text.append(public_base_url.join(archive_name.as_str()).as_str());
    text.append("\"\n    sha256 \"");
    text.append(artifact.sha256.as_str());
    text.append("\"\n  end");
    Ok(text)
}

/// The part of a formula that tells where the artifacts are downloaded.
pub fn formula_urls(manifest: &PackageManifest, public_base_url: &PublicBaseUrl) -> (section: Result<
    String,
    BrewTemplateVariableError,
>)
    ensures
        outcome(section) == url_section(manifest.deep_view(), public_base_url.deep_view()),
{
    let mut blocks: Vec<String> = Vec::new();
    let mut i: usize = 0;
    while i < manifest.artifacts.len()
        invariant
            i <= manifest.artifacts@.len(),
            url_blocks(
                deep(manifest.artifacts@),
                public_base_url.deep_view(),
                0,
                Seq::empty(),
            ) == url_blocks(
                deep(manifest.artifacts@),
                public_base_url.deep_view(),
                i as int,
                deep(blocks@),
            ),
        decreases manifest.artifacts@.len() - i,
    {
        assert(deep(manifest.artifacts@)[i as int] == manifest.artifacts@[i as int].deep_view());
        match formula_url(&manifest.artifacts[i], public_base_url) {
            Ok(block) => {
                blocks.push(block);
            },
            Err(error) => {
                return Err(error);
            },
        }
        i = i + 1;
    }
    Ok(join(&blocks, "\n\n"))
}

/// The line that installs the session helper, which builds with SSH or PAM have.
pub open spec fn session_install(manifest: PackageManifestView) -> Seq<char> {
    let features = all_features(manifest.artifacts);
    if features.contains("sshd"@) || features.contains("pam"@) {
        "    libexec.install \"pishoo-ssh-session\"\n"@
    } else {
        Seq::empty()
    }
}

/// The line that installs the session helper, where the build has one.
pub fn ssh_session_install(manifest: &PackageManifest) -> (line: String)
    ensures
        line@ == session_install(manifest.deep_view()),
{
    let features = manifest_features(manifest);
    if features.contains("sshd") || features.contains("pam") {
        "    libexec.install \"pishoo-ssh-session\"\n".to_owned()
    } else {
        String::new()
    }
}

/// The variables of a Homebrew formula.
pub open spec fn brew_variables(
    package_id: Seq<char>,
    metadata: ResolvedPackageMetadataView,
    manifest: PackageManifestView,
    base_url: Seq<char>,
) -> Result<Map<Seq<char>, Seq<char>>, BrewTemplateVariableErrorView> {
    if !(manifest.kind is Brew) {
        Err(BrewTemplateVariableErrorView::WrongKind)
    } else {
        match url_section(manifest, base_url) {
            Err(error) => Err(error),
            Ok(urls) => Ok(
                extended(
                    package_variables(package_id, metadata).insert(
                        "brew.class"@,
                        class_name(package_id),
                    ).insert("brew.urls"@, urls).insert(
                        "homebrew.class"@,
                        class_name(package_id),
                    ).insert("homebrew.urls"@, urls).insert(
                        "homebrew.ssh_session_install"@,
                        session_install(manifest),
                    ),
                    feature_variables(manifest),
                ),
            ),
        }
    }
}

/// The variables of a Homebrew formula.
pub fn brew_template_variables(
    package_id: &PackageId,
    metadata: &ResolvedPackageMetadata,
    manifest: &PackageManifest,
    public_base_url: &PublicBaseUrl,
) -> (variables: Result<TextMap<String, String>, BrewTemplateVariableError>)
    ensures
        outcome(variables) == brew_variables(
            package_id.deep_view(),
            metadata.deep_view(),
            manifest.deep_view(),
            public_base_url.deep_view(),
        ),
{
    match manifest.kind {
        PackageSystem::Brew => {},
        _ => {
            return Err(BrewTemplateVariableError::WrongKind);
        },
    }
    let mut variables = package_template_variables(package_id, metadata);
    variables.insert("brew.class".to_owned(), formula_class_name(package_id.as_str()));
    let urls = match formula_urls(manifest, public_base_url) {
        Ok(urls) => urls,
        Err(error) => {
            return Err(error);
        },
    };
    variables.insert("brew.urls".to_owned(), urls.clone());
    variables.insert("homebrew.class".to_owned(), formula_class_name(package_id.as_str()));
    variables.insert("homebrew.urls".to_owned(), urls);
    variables.insert("homebrew.ssh_session_install".to_owned(), ssh_session_install(manifest));
    extend_with_features(&mut variables, manifest);
    Ok(variables)
}

} // verus!
