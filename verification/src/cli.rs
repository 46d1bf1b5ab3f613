//! Command requests: what the words of a command line ask for.

use vstd::prelude::*;

use crate::contract::{has_destination, some_branch, ReleaseContract};
use crate::model::{deep, fault_of, outcome, outcomes};
use crate::path::{file_name, path_file_name};
use crate::sibling::{
    container_overlay_plan, overlay_plan, ContainerOverlayPlan, ContainerOverlayPlanError,
    ContainerOverlayPlanErrorView, ContainerOverlayPlanView, PatchOverride, PatchOverrideView,
    PatchSource, PatchSourceView, SiblingSource, SiblingSourceView,
};
use crate::system::{
    system_name, system_named, PackageSystem, RequestedTarget, RequestedTargetView,
};
use crate::text::{cut_first, has_prefix, same_text, split_once, starts_with};

verus! {

broadcast use crate::model::group_deep;

/// A word of a command line.
#[derive(Debug, PartialEq, Eq)]
pub enum CommandToken {
    /// A word that is text.
    Text(String),
    /// A word that is not valid text.
    Raw(Vec<u8>),
}

/// What a [`CommandToken`] holds.
pub enum CommandTokenView {
    Text(Seq<char>),
    Raw(Seq<u8>),
}

impl DeepView for CommandToken {
    type V = CommandTokenView;

    open spec fn deep_view(&self) -> CommandTokenView {
        match self {
            CommandToken::Text(value) => CommandTokenView::Text(value@),
            CommandToken::Raw(value) => CommandTokenView::Raw(deep(value@)),
        }
    }
}

impl Clone for CommandToken {
    fn clone(&self) -> (copy: Self)
        ensures
            copy.deep_view() == self.deep_view(),
    {
        match self {
            CommandToken::Text(value) => CommandToken::Text(value.clone()),
            CommandToken::Raw(value) => CommandToken::Raw(value.clone()),
        }
    }
}

/// What a command line asks for.
#[derive(Debug, PartialEq, Eq)]
pub enum XtaskCommandRequest {
    Package(PackageCommandRequest),
    Publish(PublishCommandRequest),
    Show(ShowCommandRequest),
}

/// What a [`XtaskCommandRequest`] holds.
pub enum XtaskCommandRequestView {
    Package(PackageCommandRequestView),
    Publish(PublishCommandRequestView),
    Show(ShowCommandRequestView),
}

impl DeepView for XtaskCommandRequest {
    type V = XtaskCommandRequestView;

    open spec fn deep_view(&self) -> XtaskCommandRequestView {
        match self {
            XtaskCommandRequest::Package(value) => XtaskCommandRequestView::Package(value.deep_view()),
            XtaskCommandRequest::Publish(value) => XtaskCommandRequestView::Publish(value.deep_view()),
            XtaskCommandRequest::Show(value) => XtaskCommandRequestView::Show(value.deep_view()),
        }
    }
}

impl Clone for XtaskCommandRequest {
    fn clone(&self) -> (copy: Self)
        ensures
            copy.deep_view() == self.deep_view(),
    {
        match self {
            XtaskCommandRequest::Package(value) => XtaskCommandRequest::Package(value.clone()),
            XtaskCommandRequest::Publish(value) => XtaskCommandRequest::Publish(value.clone()),
            XtaskCommandRequest::Show(value) => XtaskCommandRequest::Show(value.clone()),
        }
    }
}

/// What is to be published.
#[derive(Debug, PartialEq, Eq)]
pub enum PublishCommandRequest {
    S3(S3PublishCommandRequest),
}

/// What a [`PublishCommandRequest`] holds.
pub enum PublishCommandRequestView {
    S3(S3PublishCommandRequestView),
}

impl DeepView for PublishCommandRequest {
    type V = PublishCommandRequestView;

    open spec fn deep_view(&self) -> PublishCommandRequestView {
        match self {
            PublishCommandRequest::S3(value) => PublishCommandRequestView::S3(value.deep_view()),
        }
    }
}

impl Clone for PublishCommandRequest {
    fn clone(&self) -> (copy: Self)
        ensures
            copy.deep_view() == self.deep_view(),
    {
        match self {
            PublishCommandRequest::S3(value) => PublishCommandRequest::S3(value.clone()),
        }
    }
}

/// What is to be shown.
#[derive(Debug, PartialEq, Eq)]
pub enum ShowCommandRequest {
    S3Destination(ShowS3DestinationRequest),
}

/// What a [`ShowCommandRequest`] holds.
pub enum ShowCommandRequestView {
    S3Destination(ShowS3DestinationRequestView),
}

impl DeepView for ShowCommandRequest {
    type V = ShowCommandRequestView;

    open spec fn deep_view(&self) -> ShowCommandRequestView {
        match self {
            ShowCommandRequest::S3Destination(value) => ShowCommandRequestView::S3Destination(value.deep_view()),
        }
    }
}

impl Clone for ShowCommandRequest {
    fn clone(&self) -> (copy: Self)
        ensures
            copy.deep_view() == self.deep_view(),
    {
        match self {
            ShowCommandRequest::S3Destination(value) => ShowCommandRequest::S3Destination(value.clone()),
        }
    }
}

/// A request for the destination of a package system.
#[derive(Debug, PartialEq, Eq)]
pub struct ShowS3DestinationRequest {
    pub system: PackageSystem,
    pub github_output: bool,
}

/// What a [`ShowS3DestinationRequest`] holds.
pub struct ShowS3DestinationRequestView {
    pub system: PackageSystem,
    pub github_output: bool,
}

impl DeepView for ShowS3DestinationRequest {
    type V = ShowS3DestinationRequestView;

    open spec fn deep_view(&self) -> ShowS3DestinationRequestView {
        ShowS3DestinationRequestView {
            system: self.system,
            github_output: self.github_output,
        }
    }
}

impl Clone for ShowS3DestinationRequest {
    fn clone(&self) -> (copy: Self)
        ensures
            copy.deep_view() == self.deep_view(),
    {
        let copy = ShowS3DestinationRequest {
            system: self.system,
            github_output: self.github_output,
        };
        copy
    }
}

/// The words for one package system.
#[derive(Debug, PartialEq, Eq)]
pub struct PackageSystemSection {
    pub system: PackageSystem,
    pub args: Vec<CommandToken>,
}

/// What a [`PackageSystemSection`] holds.
pub struct PackageSystemSectionView {
    pub system: PackageSystem,
    pub args: Seq<CommandTokenView>,
}

impl DeepView for PackageSystemSection {
    type V = PackageSystemSectionView;

    open spec fn deep_view(&self) -> PackageSystemSectionView {
        PackageSystemSectionView {
            system: self.system,
            args: deep(self.args@),
        }
    }
}

impl Clone for PackageSystemSection {
    fn clone(&self) -> (copy: Self)
        ensures
            copy.deep_view() == self.deep_view(),
    {
        let copy = PackageSystemSection {
            system: self.system,
            args: self.args.clone(),
        };
        assert(deep(copy.args@) =~= deep(self.args@));
        copy
    }
}

/// A request for the builds of one package system.
#[derive(Debug, PartialEq, Eq)]
pub struct PackageBuildRequest {
    pub system: PackageSystem,
    pub args: PackageSectionArgs,
}

/// What a [`PackageBuildRequest`] holds.
pub struct PackageBuildRequestView {
    pub system: PackageSystem,
    pub args: PackageSectionArgsView,
}

impl DeepView for PackageBuildRequest {
    type V = PackageBuildRequestView;

    open spec fn deep_view(&self) -> PackageBuildRequestView {
        PackageBuildRequestView {
            system: self.system,
            args: self.args.deep_view(),
        }
    }
}

impl Clone for PackageBuildRequest {
    fn clone(&self) -> (copy: Self)
        ensures
            copy.deep_view() == self.deep_view(),
    {
        let copy = PackageBuildRequest {
            system: self.system,
            args: self.args.clone(),
        };
        copy
    }
}

/// A request for builds.
#[derive(Debug, PartialEq, Eq)]
pub struct PackageCommandRequest {
    pub overwrite_manifest: bool,
    pub builds: Vec<PackageBuildRequest>,
}

/// What a [`PackageCommandRequest`] holds.
pub struct PackageCommandRequestView {
    pub overwrite_manifest: bool,
    pub builds: Seq<PackageBuildRequestView>,
}

impl DeepView for PackageCommandRequest {
    type V = PackageCommandRequestView;

    open spec fn deep_view(&self) -> PackageCommandRequestView {
        PackageCommandRequestView {
            overwrite_manifest: self.overwrite_manifest,
            builds: deep(self.builds@),
        }
    }
}

impl Clone for PackageCommandRequest {
    fn clone(&self) -> (copy: Self)
        ensures
            copy.deep_view() == self.deep_view(),
    {
        let copy = PackageCommandRequest {
            overwrite_manifest: self.overwrite_manifest,
            builds: self.builds.clone(),
        };
        assert(deep(copy.builds@) =~= deep(self.builds@));
        copy
    }
}

/// A request for publications.
#[derive(Debug, PartialEq, Eq)]
pub struct S3PublishCommandRequest {
    pub dry_run: bool,
    pub systems: Vec<PackageSystem>,
}

/// What a [`S3PublishCommandRequest`] holds.
pub struct S3PublishCommandRequestView {
    pub dry_run: bool,
    pub systems: Seq<PackageSystem>,
}

impl DeepView for S3PublishCommandRequest {
    type V = S3PublishCommandRequestView;

    open spec fn deep_view(&self) -> S3PublishCommandRequestView {
        S3PublishCommandRequestView {
            dry_run: self.dry_run,
            systems: deep(self.systems@),
        }
    }
}

impl Clone for S3PublishCommandRequest {
    fn clone(&self) -> (copy: Self)
        ensures
            copy.deep_view() == self.deep_view(),
    {
        let copy = S3PublishCommandRequest {
            dry_run: self.dry_run,
            systems: self.systems.clone(),
        };
        assert(deep(copy.systems@) =~= deep(self.systems@));
        copy
    }
}

/// The options of a section as they were given.
#[derive(Debug, PartialEq, Eq)]
pub struct PackageSectionOptions {
    pub targets: Vec<RequestedTarget>,
    pub features: Vec<String>,
    pub siblings: Vec<CommandToken>,
    /// Three words for each replaced dependency: its source, its package, and the sibling
    /// with the path inside it.
    pub patches: Vec<String>,
    pub debug: bool,
}

/// What a [`PackageSectionOptions`] holds.
pub struct PackageSectionOptionsView {
    pub targets: Seq<RequestedTargetView>,
    pub features: Seq<Seq<char>>,
    pub siblings: Seq<CommandTokenView>,
    pub patches: Seq<Seq<char>>,
    pub debug: bool,
}

impl DeepView for PackageSectionOptions {
    type V = PackageSectionOptionsView;

    open spec fn deep_view(&self) -> PackageSectionOptionsView {
        PackageSectionOptionsView {
            targets: deep(self.targets@),
            features: deep(self.features@),
            siblings: deep(self.siblings@),
            patches: deep(self.patches@),
            debug: self.debug,
        }
    }
}

impl Clone for PackageSectionOptions {
    fn clone(&self) -> (copy: Self)
        ensures
            copy.deep_view() == self.deep_view(),
    {
        let copy = PackageSectionOptions {
            targets: self.targets.clone(),
            features: self.features.clone(),
            siblings: self.siblings.clone(),
            patches: self.patches.clone(),
            debug: self.debug,
        };
        assert(deep(copy.targets@) =~= deep(self.targets@));
        assert(deep(copy.features@) =~= deep(self.features@));
        assert(deep(copy.siblings@) =~= deep(self.siblings@));
        assert(deep(copy.patches@) =~= deep(self.patches@));
        copy
    }
}

/// What reading the options of a section gave.
#[derive(Debug, PartialEq, Eq)]
pub enum SectionReading {
    Options(PackageSectionOptions),
    /// The words are no options of a section.
    Refused { reason: String },
}

/// What a [`SectionReading`] holds.
pub enum SectionReadingView {
    Options(PackageSectionOptionsView),
    Refused { reason: Seq<char> },
}

impl DeepView for SectionReading {
    type V = SectionReadingView;

    open spec fn deep_view(&self) -> SectionReadingView {
        match self {
            SectionReading::Options(value) => SectionReadingView::Options(value.deep_view()),
            SectionReading::Refused { reason } => SectionReadingView::Refused { reason: reason@ },
        }
    }
}

impl Clone for SectionReading {
    fn clone(&self) -> (copy: Self)
        ensures
            copy.deep_view() == self.deep_view(),
    {
        match self {
            SectionReading::Options(value) => SectionReading::Options(value.clone()),
            SectionReading::Refused { reason } => SectionReading::Refused { reason: reason.clone() },
        }
    }
}

/// What the builds of one package system are given.
#[derive(Debug, PartialEq, Eq)]
pub struct PackageSectionArgs {
    pub targets: Vec<RequestedTarget>,
    pub features: Vec<String>,
    pub siblings: Vec<CommandToken>,
    pub sibling_sources: Vec<SiblingSource>,
    pub patches: Vec<PatchOverride>,
    pub debug: bool,
}

/// What a [`PackageSectionArgs`] holds.
pub struct PackageSectionArgsView {
    pub targets: Seq<RequestedTargetView>,
    pub features: Seq<Seq<char>>,
    pub siblings: Seq<CommandTokenView>,
    pub sibling_sources: Seq<SiblingSourceView>,
    pub patches: Seq<PatchOverrideView>,
    pub debug: bool,
}

impl DeepView for PackageSectionArgs {
    type V = PackageSectionArgsView;

    open spec fn deep_view(&self) -> PackageSectionArgsView {
        PackageSectionArgsView {
            targets: deep(self.targets@),
            features: deep(self.features@),
            siblings: deep(self.siblings@),
            sibling_sources: deep(self.sibling_sources@),
            patches: deep(self.patches@),
            debug: self.debug,
        }
    }
}

impl Clone for PackageSectionArgs {
    fn clone(&self) -> (copy: Self)
        ensures
            copy.deep_view() == self.deep_view(),
    {
        let copy = PackageSectionArgs {
            targets: self.targets.clone(),
            features: self.features.clone(),
            siblings: self.siblings.clone(),
            sibling_sources: self.sibling_sources.clone(),
            patches: self.patches.clone(),
            debug: self.debug,
        };
        assert(deep(copy.targets@) =~= deep(self.targets@));
        assert(deep(copy.features@) =~= deep(self.features@));
        assert(deep(copy.siblings@) =~= deep(self.siblings@));
        assert(deep(copy.sibling_sources@) =~= deep(self.sibling_sources@));
        assert(deep(copy.patches@) =~= deep(self.patches@));
        copy
    }
}

// ---------------------------------------------------------------------------
// Sections
// ---------------------------------------------------------------------------
/// Why words do not fall into sections.
#[derive(Debug, PartialEq, Eq)]
pub enum ParsePackageSystemSectionsError {
    /// Reported as `at least one package system is required`.
    Empty,
    /// Reported as `package system name must be utf-8`.
    PackageSystemNotUtf8,
    /// Reported as `expected a package system before argument {argument}`.
    ExpectedPackageSystem { argument: String },
    /// Reported as `unknown package system {value}`.
    UnknownPackageSystem { value: String },
}

/// What a [`ParsePackageSystemSectionsError`] holds.
pub enum ParsePackageSystemSectionsErrorView {
    Empty,
    PackageSystemNotUtf8,
    ExpectedPackageSystem { argument: Seq<char> },
    UnknownPackageSystem { value: Seq<char> },
}

impl DeepView for ParsePackageSystemSectionsError {
    type V = ParsePackageSystemSectionsErrorView;

    open spec fn deep_view(&self) -> ParsePackageSystemSectionsErrorView {
        match self {
            ParsePackageSystemSectionsError::Empty => ParsePackageSystemSectionsErrorView::Empty,
            ParsePackageSystemSectionsError::PackageSystemNotUtf8 => ParsePackageSystemSectionsErrorView::PackageSystemNotUtf8,
            ParsePackageSystemSectionsError::ExpectedPackageSystem { argument } => ParsePackageSystemSectionsErrorView::ExpectedPackageSystem {
                argument: argument@,
            },
            ParsePackageSystemSectionsError::UnknownPackageSystem { value } => ParsePackageSystemSectionsErrorView::UnknownPackageSystem {
                value: value@,
            },
        }
    }
}

impl ParsePackageSystemSectionsErrorView {
    /// The message of the error.
    pub open spec fn message(self) -> Seq<char> {
        match self {
            ParsePackageSystemSectionsErrorView::Empty => "at least one package system is required"@,
            ParsePackageSystemSectionsErrorView::PackageSystemNotUtf8 => "package system name must be utf-8"@,
            ParsePackageSystemSectionsErrorView::ExpectedPackageSystem { argument } => "expected a package system before argument "@ + argument,
            ParsePackageSystemSectionsErrorView::UnknownPackageSystem { value } => "unknown package system "@ + value,
        }
    }
}

impl ParsePackageSystemSectionsError {
    /// The message of the error.
    pub fn to_string(&self) -> (text: String)
        ensures
            text@ == self.deep_view().message(),
    {
        match self {
            ParsePackageSystemSectionsError::Empty => "at least one package system is required".to_owned(),
            ParsePackageSystemSectionsError::PackageSystemNotUtf8 => "package system name must be utf-8".to_owned(),
            ParsePackageSystemSectionsError::ExpectedPackageSystem { argument } => {
                let mut text = "expected a package system before argument ".to_owned();
                text.append(argument.as_str());
                text
            },
            ParsePackageSystemSectionsError::UnknownPackageSystem { value } => {
                let mut text = "unknown package system ".to_owned();
                text.append(value.as_str());
                text
            },
        }
    }
}

/// Why a word that names no package system cannot be the first one.
pub open spec fn first_word_fault(token: CommandTokenView) -> ParsePackageSystemSectionsErrorView {
    match token {
        CommandTokenView::Raw(_) => ParsePackageSystemSectionsErrorView::PackageSystemNotUtf8,
        CommandTokenView::Text(value) => if has_prefix(value, "-"@) {
            ParsePackageSystemSectionsErrorView::ExpectedPackageSystem { argument: value }
        } else {
            ParsePackageSystemSectionsErrorView::UnknownPackageSystem { value }
        },
    }
}

/// The package system that a word names.
pub open spec fn token_system(token: CommandTokenView) -> Option<PackageSystem> {
    match token {
        CommandTokenView::Raw(_) => None,
        CommandTokenView::Text(value) => system_named(value),
    }
}

/// `sections`, with a word added to the last one.
pub open spec fn with_argument(
    sections: Seq<PackageSystemSectionView>,
    token: CommandTokenView,
) -> Seq<PackageSystemSectionView> {
    sections.drop_last().push(
        PackageSystemSectionView { args: sections.last().args.push(token), ..sections.last() },
    )
}

/// The sections of the words from `from` on, after those already `found`. A word that
/// names a package system opens a section; every other one belongs to the open section.
pub open spec fn sections_from(
    tokens: Seq<CommandTokenView>,
    from: int,
    found: Seq<PackageSystemSectionView>,
) -> Result<Seq<PackageSystemSectionView>, ParsePackageSystemSectionsErrorView>
    decreases tokens.len() - from,
{
    if from < 0 || from >= tokens.len() {
        if found.len() == 0 {
            Err(ParsePackageSystemSectionsErrorView::Empty)
        } else {
            Ok(found)
        }
    } else {
        match token_system(tokens[from]) {
            Some(system) => sections_from(
                tokens,
                from + 1,
                found.push(PackageSystemSectionView { system, args: Seq::empty() }),
            ),
            None => if found.len() == 0 {
                Err(first_word_fault(tokens[from]))
            } else {
                sections_from(tokens, from + 1, with_argument(found, tokens[from]))
            },
        }
    }
}

/// The sections of a command line.
pub open spec fn sections_of(tokens: Seq<CommandTokenView>) -> Result<
    Seq<PackageSystemSectionView>,
    ParsePackageSystemSectionsErrorView,
> {
    sections_from(tokens, 0, Seq::empty())
}

/// Adds a word to the last section.
fn add_argument(sections: &mut Vec<PackageSystemSection>, token: CommandToken)
    requires
        old(sections)@.len() > 0,
    ensures
        deep(final(sections)@) == with_argument(deep(old(sections)@), token.deep_view()),
        final(sections)@.len() == old(sections)@.len(),
{
    let ghost before = sections@;
    match sections.pop() {
        Some(section) => {
            let system = section.system;
            let mut args = section.args;
            args.push(token);
            let grown = PackageSystemSection { system, args };
            sections.push(grown);
            proof {
                assert(deep(before).last() == before.last().deep_view());
                assert(grown.deep_view().args =~= deep(before).last().args.push(token.deep_view()));
                assert(deep(before.drop_last()) =~= deep(before).drop_last());
                assert(deep(sections@) =~= with_argument(deep(before), token.deep_view()));
            }
        },
        None => {},
    }
}

/// The sections of a command line: the name of a package system, then what is meant for it.
pub fn parse_package_system_sections(tokens: &Vec<CommandToken>) -> (sections: Result<
    Vec<PackageSystemSection>,
    ParsePackageSystemSectionsError,
>)
    ensures
        outcomes(sections) == sections_of(deep(tokens@)),
{
    let mut sections: Vec<PackageSystemSection> = Vec::new();
    let mut i: usize = 0;
    while i < tokens.len()
        invariant
            i <= tokens@.len(),
            sections_of(deep(tokens@)) == sections_from(
                deep(tokens@),
                i as int,
                deep(sections@),
            ),
        decreases tokens@.len() - i,
    {
        let token = &tokens[i];
        assert(deep(tokens@)[i as int] == token.deep_view());
        match token {
            CommandToken::Raw(_) => {
                if sections.len() == 0 {
                    return Err(ParsePackageSystemSectionsError::PackageSystemNotUtf8);
                }
                add_argument(&mut sections, token.clone());
            },
            CommandToken::Text(value) => match PackageSystem::from_str(value.as_str()) {
                Ok(system) => {
                    let section = PackageSystemSection { system, args: Vec::new() };
                    assert(section.deep_view().args =~= Seq::empty());
                    sections.push(section);
                },
                Err(_) => {
                    if sections.len() == 0 {
                        return if starts_with(value.as_str(), "-") {
                            Err(
                                ParsePackageSystemSectionsError::ExpectedPackageSystem {
                                    argument: value.clone(),
                                },
                            )
                        } else {
                            Err(
                                ParsePackageSystemSectionsError::UnknownPackageSystem {
                                    value: value.clone(),
                                },
                            )
                        };
                    }
                    add_argument(&mut sections, token.clone());
                },
            },
        }
        i = i + 1;
    }
    if sections.len() == 0 {
        return Err(ParsePackageSystemSectionsError::Empty);
    }
    Ok(sections)
}

// ---------------------------------------------------------------------------
// Options of a section
// ---------------------------------------------------------------------------
/// What is wrong with the options of a section.
#[derive(Debug, PartialEq, Eq)]
pub enum ParsePackageSectionArgsError {
    /// Reported as `failed to parse package section arguments`.
    Clap { reason: String },
    /// Reported as `package section option must be utf-8`.
    OptionNotUtf8,
    /// Reported as `package section option {option} requires a value`.
    MissingOptionValue { option: String },
    /// Reported as `package section option {option} value must be utf-8`.
    OptionValueNotUtf8 { option: String },
    /// Reported as `package section requires at least one target`.
    MissingTarget,
    /// Reported as `package section target must not be empty`.
    EmptyTarget,
    /// Reported as `package section feature must not be empty`.
    EmptyFeature,
    /// Reported as `package section sibling source must be name=path`.
    InvalidSiblingSource { value: String },
    /// Reported as `package section patch override is invalid`.
    InvalidPatchOverride,
    /// Reported as `package section patch path must identify a sibling source`.
    InvalidPatchPath,
    /// Reported as `unknown package section option {option}`.
    UnknownOption { option: String },
    /// Reported as `unexpected package section argument {argument}`.
    UnexpectedArgument { argument: String },
}

/// What a [`ParsePackageSectionArgsError`] holds.
pub enum ParsePackageSectionArgsErrorView {
    Clap { reason: Seq<char> },
    OptionNotUtf8,
    MissingOptionValue { option: Seq<char> },
    OptionValueNotUtf8 { option: Seq<char> },
    MissingTarget,
    EmptyTarget,
    EmptyFeature,
    InvalidSiblingSource { value: Seq<char> },
    InvalidPatchOverride,
    InvalidPatchPath,
    UnknownOption { option: Seq<char> },
    UnexpectedArgument { argument: Seq<char> },
}

impl DeepView for ParsePackageSectionArgsError {
    type V = ParsePackageSectionArgsErrorView;

    open spec fn deep_view(&self) -> ParsePackageSectionArgsErrorView {
        match self {
            ParsePackageSectionArgsError::Clap { reason } => ParsePackageSectionArgsErrorView::Clap {
                reason: reason@,
            },
            ParsePackageSectionArgsError::OptionNotUtf8 => ParsePackageSectionArgsErrorView::OptionNotUtf8,
            ParsePackageSectionArgsError::MissingOptionValue { option } => ParsePackageSectionArgsErrorView::MissingOptionValue {
                option: option@,
            },
            ParsePackageSectionArgsError::OptionValueNotUtf8 { option } => ParsePackageSectionArgsErrorView::OptionValueNotUtf8 {
                option: option@,
            },
            ParsePackageSectionArgsError::MissingTarget => ParsePackageSectionArgsErrorView::MissingTarget,
            ParsePackageSectionArgsError::EmptyTarget => ParsePackageSectionArgsErrorView::EmptyTarget,
            ParsePackageSectionArgsError::EmptyFeature => ParsePackageSectionArgsErrorView::EmptyFeature,
            ParsePackageSectionArgsError::InvalidSiblingSource { value } => ParsePackageSectionArgsErrorView::InvalidSiblingSource {
                value: value@,
            },
            ParsePackageSectionArgsError::InvalidPatchOverride => ParsePackageSectionArgsErrorView::InvalidPatchOverride,
            ParsePackageSectionArgsError::InvalidPatchPath => ParsePackageSectionArgsErrorView::InvalidPatchPath,
            ParsePackageSectionArgsError::UnknownOption { option } => ParsePackageSectionArgsErrorView::UnknownOption {
                option: option@,
            },
            ParsePackageSectionArgsError::UnexpectedArgument { argument } => ParsePackageSectionArgsErrorView::UnexpectedArgument {
                argument: argument@,
            },
        }
    }
}

impl ParsePackageSectionArgsErrorView {
    /// The message of the error.
    pub open spec fn message(self) -> Seq<char> {
        match self {
            ParsePackageSectionArgsErrorView::Clap { .. } => "failed to parse package section arguments"@,
            ParsePackageSectionArgsErrorView::OptionNotUtf8 => "package section option must be utf-8"@,
            ParsePackageSectionArgsErrorView::MissingOptionValue { option } => "package section option "@ + option + " requires a value"@,
            ParsePackageSectionArgsErrorView::OptionValueNotUtf8 { option } => "package section option "@ + option + " value must be utf-8"@,
            ParsePackageSectionArgsErrorView::MissingTarget => "package section requires at least one target"@,
            ParsePackageSectionArgsErrorView::EmptyTarget => "package section target must not be empty"@,
            ParsePackageSectionArgsErrorView::EmptyFeature => "package section feature must not be empty"@,
            ParsePackageSectionArgsErrorView::InvalidSiblingSource { .. } => "package section sibling source must be name=path"@,
            ParsePackageSectionArgsErrorView::InvalidPatchOverride => "package section patch override is invalid"@,
            ParsePackageSectionArgsErrorView::InvalidPatchPath => "package section patch path must identify a sibling source"@,
            ParsePackageSectionArgsErrorView::UnknownOption { option } => "unknown package section option "@ + option,
            ParsePackageSectionArgsErrorView::UnexpectedArgument { argument } => "unexpected package section argument "@ + argument,
        }
    }
}

impl ParsePackageSectionArgsError {
    /// The message of the error.
    pub fn to_string(&self) -> (text: String)
        ensures
            text@ == self.deep_view().message(),
    {
        match self {
            ParsePackageSectionArgsError::Clap { .. } => "failed to parse package section arguments".to_owned(),
            ParsePackageSectionArgsError::OptionNotUtf8 => "package section option must be utf-8".to_owned(),
            ParsePackageSectionArgsError::MissingOptionValue { option } => {
                let mut text = "package section option ".to_owned();
                text.append(option.as_str());
                text.append(" requires a value");
                text
            },
            ParsePackageSectionArgsError::OptionValueNotUtf8 { option } => {
                let mut text = "package section option ".to_owned();
                text.append(option.as_str());
                text.append(" value must be utf-8");
                text
            },
            ParsePackageSectionArgsError::MissingTarget => "package section requires at least one target".to_owned(),
            ParsePackageSectionArgsError::EmptyTarget => "package section target must not be empty".to_owned(),
            ParsePackageSectionArgsError::EmptyFeature => "package section feature must not be empty".to_owned(),
            ParsePackageSectionArgsError::InvalidSiblingSource { .. } => "package section sibling source must be name=path".to_owned(),
            ParsePackageSectionArgsError::InvalidPatchOverride => "package section patch override is invalid".to_owned(),
            ParsePackageSectionArgsError::InvalidPatchPath => "package section patch path must identify a sibling source".to_owned(),
            ParsePackageSectionArgsError::UnknownOption { option } => {
                let mut text = "unknown package section option ".to_owned();
                text.append(option.as_str());
                text
            },
            ParsePackageSectionArgsError::UnexpectedArgument { argument } => {
                let mut text = "unexpected package section argument ".to_owned();
                text.append(argument.as_str());
                text
            },
        }
    }
}

/// The target that a word stands for.
pub open spec fn requested_target(value: Seq<char>) -> Result<
    RequestedTargetView,
    ParsePackageSectionArgsErrorView,
> {
    if value.len() == 0 {
        Err(ParsePackageSectionArgsErrorView::EmptyTarget)
    } else if value == "common"@ {
        Ok(RequestedTargetView::Common)
    } else {
        Ok(RequestedTargetView::Triple(value))
    }
}

/// The target that a word stands for.
pub fn parse_requested_target(value: &str) -> (target: Result<
    RequestedTarget,
    ParsePackageSectionArgsError,
>)
    ensures
        outcome(target) == requested_target(value@),
{
    if value.is_empty() {
        return Err(ParsePackageSectionArgsError::EmptyTarget);
    }
    if same_text(value, "common") {
        return Ok(RequestedTarget::Common);
    }
    Ok(RequestedTarget::Triple(value.to_owned()))
}

/// A feature, which must not be empty.
pub fn parse_feature(value: &str) -> (feature: Result<String, String>)
    ensures
        outcome(feature) == (if value@.len() == 0 {
            Err::<Seq<char>, Seq<char>>("feature must not be empty"@)
        } else {
            Ok(value@)
        }),
{
    if value.is_empty() {
        return Err("feature must not be empty".to_owned());
    }
    Ok(value.to_owned())
}

/// The package system that a word names, or a message.
pub fn parse_package_system(value: &str) -> (system: Result<PackageSystem, String>)
    ensures
        outcome(system) == (match system_named(value@) {
            Some(system) => Ok::<PackageSystem, Seq<char>>(system),
            None => Err("unknown package system "@ + value@),
        }),
{
    match PackageSystem::from_str(value) {
        Ok(system) => Ok(system),
        Err(error) => Err(error.to_string()),
    }
}

/// The sibling that a word stands for: `name=path`, or a path whose last component is the
/// name. A word that is not text stands for none.
pub open spec fn sibling_source(token: CommandTokenView) -> Result<
    Option<SiblingSourceView>,
    ParsePackageSectionArgsErrorView,
> {
    match token {
        CommandTokenView::Raw(_) => Ok(None),
        CommandTokenView::Text(value) => match cut_first(value, '=') {
            None => match path_file_name(value) {
                None => Err(ParsePackageSectionArgsErrorView::InvalidSiblingSource { value }),
                Some(name) => Ok(Some(SiblingSourceView { name, host_path: value })),
            },
            Some((name, path)) => if name.len() == 0 || path.len() == 0 {
                Err(ParsePackageSectionArgsErrorView::InvalidSiblingSource { value })
            } else {
                Ok(Some(SiblingSourceView { name, host_path: path }))
            },
        },
    }
}

/// The sibling that a word stands for.
pub fn parse_sibling_source(token: &CommandToken) -> (source: Result<
    Option<SiblingSource>,
    ParsePackageSectionArgsError,
>)
    ensures
        outcome(source) == sibling_source(token.deep_view()),
{
    let value = match token {
        CommandToken::Raw(_) => {
            return Ok(None);
        },
        CommandToken::Text(value) => value,
    };
    match split_once(value.as_str(), '=') {
        None => match file_name(value.as_str()) {
            None => Err(
                ParsePackageSectionArgsError::InvalidSiblingSource { value: value.clone() },
            ),
            Some(name) => Ok(Some(SiblingSource { name, host_path: value.clone() })),
        },
        Some((name, path)) => {
            if name.as_str().is_empty() || path.as_str().is_empty() {
                return Err(
                    ParsePackageSectionArgsError::InvalidSiblingSource { value: value.clone() },
                );
            }
            Ok(Some(SiblingSource { name, host_path: path }))
        },
    }
}

/// A sibling and the path inside it, which is the sibling itself where none is given.
pub open spec fn sibling_path(value: Seq<char>) -> Option<(Seq<char>, Seq<char>)> {
    match cut_first(value, '/') {
        None => if value.len() == 0 {
            None
        } else {
            Some((value, "."@))
        },
        Some((sibling, relative)) => if sibling.len() == 0 || relative.len() == 0 {
            None
        } else {
            Some((sibling, relative))
        },
    }
}

/// The replaced dependency that three words stand for.
pub open spec fn patch_override(source: Seq<char>, package: Seq<char>, path: Seq<char>) -> Result<
    PatchOverrideView,
    ParsePackageSectionArgsErrorView,
> {
    if source.len() == 0 || package.len() == 0 || path.len() == 0 {
        Err(ParsePackageSectionArgsErrorView::InvalidPatchOverride)
    } else {
        match sibling_path(path) {
            None => Err(ParsePackageSectionArgsErrorView::InvalidPatchPath),
            Some((sibling, relative_path)) => Ok(
                PatchOverrideView {
                    source: if source == "crates-io"@ {
                        PatchSourceView::CratesIo
                    } else {
                        PatchSourceView::Git(source)
                    },
                    package,
                    sibling,
                    relative_path,
                },
            ),
        }
    }
}

fn split_sibling_path(value: &str) -> (parts: Option<(String, String)>)
    ensures
        parts.deep_view() == sibling_path(value@),
{
    match split_once(value, '/') {
        None => {
            if value.is_empty() {
                return None;
            }
            Some((value.to_owned(), ".".to_owned()))
        },
        Some((sibling, relative)) => {
            if sibling.as_str().is_empty() || relative.as_str().is_empty() {
                return None;
            }
            Some((sibling, relative))
        },
    }
}

/// The replaced dependency that three words stand for.
pub fn parse_patch_override(source: &str, package: &str, sibling_path: &str) -> (patch: Result<
    PatchOverride,
    ParsePackageSectionArgsError,
>)
    ensures
        outcome(patch) == patch_override(source@, package@, sibling_path@),
{
    if source.is_empty() || package.is_empty() || sibling_path.is_empty() {
        return Err(ParsePackageSectionArgsError::InvalidPatchOverride);
    }
    let (sibling, relative_path) = match split_sibling_path(sibling_path) {
        Some(parts) => parts,
        None => {
            return Err(ParsePackageSectionArgsError::InvalidPatchPath);
        },
    };
    Ok(
        PatchOverride {
            source: if same_text(source, "crates-io") {
                PatchSource::CratesIo
            } else {
                PatchSource::Git(source.to_owned())
            },
            package: package.to_owned(),
            sibling,
            relative_path,
        },
    )
}

/// The siblings of the words from `from` on, after those already `found`.
pub open spec fn sibling_sources(
    tokens: Seq<CommandTokenView>,
    from: int,
    found: Seq<SiblingSourceView>,
) -> Result<Seq<SiblingSourceView>, ParsePackageSectionArgsErrorView>
    decreases tokens.len() - from,
{
    if from < 0 || from >= tokens.len() {
        Ok(found)
    } else {
        match sibling_source(tokens[from]) {
            Err(error) => Err(error),
            Ok(None) => sibling_sources(tokens, from + 1, found),
            Ok(Some(source)) => sibling_sources(tokens, from + 1, found.push(source)),
        }
    }
}

/// The replaced dependencies of the words from `from` on, three words each, after those
/// already `found`.
pub open spec fn patch_overrides(
    words: Seq<Seq<char>>,
    from: int,
    found: Seq<PatchOverrideView>,
) -> Result<Seq<PatchOverrideView>, ParsePackageSectionArgsErrorView>
    decreases words.len() - from,
{
    if from < 0 || from + 3 > words.len() {
        Ok(found)
    } else {
        match patch_override(words[from], words[from + 1], words[from + 2]) {
            Err(error) => Err(error),
            Ok(patch) => patch_overrides(words, from + 3, found.push(patch)),
        }
    }
}

/// What the builds are given, from the options of a section.
pub open spec fn section_args(options: PackageSectionOptionsView) -> Result<
    PackageSectionArgsView,
    ParsePackageSectionArgsErrorView,
> {
    match (
        sibling_sources(options.siblings, 0, Seq::empty()),
        patch_overrides(options.patches, 0, Seq::empty()),
    ) {
        (Err(error), _) => Err(error),
        (Ok(_), Err(error)) => Err(error),
        (Ok(sibling_sources), Ok(patches)) => Ok(
            PackageSectionArgsView {
                targets: options.targets,
                features: options.features,
                siblings: options.siblings,
                sibling_sources,
                patches,
                debug: options.debug,
            },
        ),
    }
}

fn read_siblings(tokens: &Vec<CommandToken>) -> (sources: Result<
    Vec<SiblingSource>,
    ParsePackageSectionArgsError,
>)
    ensures
        outcomes(sources) == sibling_sources(deep(tokens@), 0, Seq::empty()),
{
    let mut sources: Vec<SiblingSource> = Vec::new();
    let mut i: usize = 0;
    while i < tokens.len()
        invariant
            i <= tokens@.len(),
            sibling_sources(deep(tokens@), 0, Seq::empty()) == sibling_sources(
                deep(tokens@),
                i as int,
                deep(sources@),
            ),
        decreases tokens@.len() - i,
    {
        assert(deep(tokens@)[i as int] == tokens@[i as int].deep_view());
        match parse_sibling_source(&tokens[i]) {
            Ok(Some(source)) => {
                sources.push(source);
            },
            Ok(None) => {},
            Err(error) => {
                return Err(error);
            },
        }
        i = i + 1;
    }
    Ok(sources)
}

fn read_patches(words: &Vec<String>) -> (patches: Result<
    Vec<PatchOverride>,
    ParsePackageSectionArgsError,
>)
    ensures
        outcomes(patches) == patch_overrides(deep(words@), 0, Seq::empty()),
{
    let mut patches: Vec<PatchOverride> = Vec::new();
    let mut i: usize = 0;
    while i < words.len() && words.len() - i >= 3
        invariant
            i <= words@.len(),
            patch_overrides(deep(words@), 0, Seq::empty()) == patch_overrides(
                deep(words@),
                i as int,
                deep(patches@),
            ),
        decreases words@.len() - i,
    {
        assert(deep(words@)[i as int] == words@[i as int]@);
        assert(deep(words@)[i + 1] == words@[i + 1]@);
        assert(deep(words@)[i + 2] == words@[i + 2]@);
        match parse_patch_override(words[i].as_str(), words[i + 1].as_str(), words[i + 2].as_str()) {
            Ok(patch) => {
                patches.push(patch);
            },
            Err(error) => {
                return Err(error);
            },
        }
        i = i + 3;
    }
    Ok(patches)
}

/// What the builds are given, from the options of a section.
pub fn package_section_args(options: PackageSectionOptions) -> (args: Result<
    PackageSectionArgs,
    ParsePackageSectionArgsError,
>)
    ensures
        outcome(args) == section_args(options.deep_view()),
{
    let sibling_sources = match read_siblings(&options.siblings) {
        Ok(sources) => sources,
        Err(error) => {
            return Err(error);
        },
    };
    let patches = match read_patches(&options.patches) {
        Ok(patches) => patches,
        Err(error) => {
            return Err(error);
        },
    };
    Ok(
        PackageSectionArgs {
            targets: options.targets,
            features: options.features,
            siblings: options.siblings,
            sibling_sources,
            patches,
            debug: options.debug,
        },
    )
}

/// Why the siblings of a section cannot be laid over a container.
#[derive(Debug, PartialEq, Eq)]
pub enum PackageSectionOverlayError {
    /// Reported as `failed to plan package section source overlay`.
    Container { source: ContainerOverlayPlanError },
}

/// What a [`PackageSectionOverlayError`] holds.
pub enum PackageSectionOverlayErrorView {
    Container { source: ContainerOverlayPlanErrorView },
}

impl DeepView for PackageSectionOverlayError {
    type V = PackageSectionOverlayErrorView;

    open spec fn deep_view(&self) -> PackageSectionOverlayErrorView {
        match self {
            PackageSectionOverlayError::Container { source } => PackageSectionOverlayErrorView::Container {
                source: source.deep_view(),
            },
        }
    }
}

impl PackageSectionOverlayErrorView {
    /// The message of the error.
    pub open spec fn message(self) -> Seq<char> {
        match self {
            PackageSectionOverlayErrorView::Container { .. } => "failed to plan package section source overlay"@,
        }
    }
}

impl PackageSectionOverlayError {
    /// The message of the error.
    pub fn to_string(&self) -> (text: String)
        ensures
            text@ == self.deep_view().message(),
    {
        match self {
            PackageSectionOverlayError::Container { .. } => "failed to plan package section source overlay".to_owned(),
        }
    }
}

/// The overlay of `siblings` and `patches`.
pub open spec fn section_overlay(
    siblings: Seq<SiblingSourceView>,
    patches: Seq<PatchOverrideView>,
) -> Result<Option<ContainerOverlayPlanView>, PackageSectionOverlayErrorView> {
    match overlay_plan(siblings, patches) {
        Ok(plan) => Ok(Some(plan)),
        Err(source) => Err(PackageSectionOverlayErrorView::Container { source }),
    }
}

/// The overlay of a section: none where it names neither siblings nor replacements.
pub open spec fn own_overlay(args: PackageSectionArgsView) -> Result<
    Option<ContainerOverlayPlanView>,
    PackageSectionOverlayErrorView,
> {
    if args.sibling_sources.len() == 0 && args.patches.len() == 0 {
        Ok(None)
    } else {
        section_overlay(args.sibling_sources, args.patches)
    }
}

/// The overlay of a section with the primary source before its siblings.
pub open spec fn primary_overlay(args: PackageSectionArgsView, primary: SiblingSourceView) -> Result<
    Option<ContainerOverlayPlanView>,
    PackageSectionOverlayErrorView,
> {
    section_overlay(seq![primary] + args.sibling_sources, args.patches)
}

impl PackageSectionArgs {
    /// The overlay of the section.
    pub fn container_overlay_plan(&self) -> (plan: Result<
        Option<ContainerOverlayPlan>,
        PackageSectionOverlayError,
    >)
        ensures
            outcome(plan) == own_overlay(self.deep_view()),
    {
        if self.sibling_sources.len() == 0 && self.patches.len() == 0 {
            return Ok(None);
        }
        match container_overlay_plan(&self.sibling_sources, &self.patches) {
            Ok(plan) => Ok(Some(plan)),
            Err(source) => Err(PackageSectionOverlayError::Container { source }),
        }
    }

    /// The overlay of the section with the primary source before its siblings.
    pub fn container_overlay_plan_with_primary(&self, primary: SiblingSource) -> (plan: Result<
        Option<ContainerOverlayPlan>,
        PackageSectionOverlayError,
    >)
        ensures
            outcome(plan) == primary_overlay(self.deep_view(), primary.deep_view()),
    {
        let mut sources: Vec<SiblingSource> = Vec::new();
        sources.push(primary);
        let mut rest = self.sibling_sources.clone();
        assert(deep(rest@) =~= deep(self.sibling_sources@));
        let ghost tail = rest@;
        sources.append(&mut rest);
        assert(sources@ =~= seq![primary] + tail);
        assert(deep(sources@) =~= seq![primary.deep_view()] + deep(self.sibling_sources@));
        match container_overlay_plan(&sources, &self.patches) {
            Ok(plan) => Ok(Some(plan)),
            Err(source) => Err(PackageSectionOverlayError::Container { source }),
        }
    }
}

// ---------------------------------------------------------------------------
// Build requests
// ---------------------------------------------------------------------------
/// Why a command line asks for no builds.
#[allow(inconsistent_fields)]
#[derive(Debug, PartialEq, Eq)]
pub enum ParsePackageBuildRequestsError {
    /// Reported as `failed to parse package systems`.
    PackageSystems { source: ParsePackageSystemSectionsError },
    /// Reported as `package system {system} is not defined by any package branch`.
    UndefinedPackageSystem { system: PackageSystem },
    /// Reported as `failed to parse {system} package section`.
    SectionArgs { source: ParsePackageSectionArgsError, system: PackageSystem },
}

/// What a [`ParsePackageBuildRequestsError`] holds.
#[allow(inconsistent_fields)]
pub enum ParsePackageBuildRequestsErrorView {
    PackageSystems { source: ParsePackageSystemSectionsErrorView },
    UndefinedPackageSystem { system: PackageSystem },
    SectionArgs { source: ParsePackageSectionArgsErrorView, system: PackageSystem },
}

impl DeepView for ParsePackageBuildRequestsError {
    type V = ParsePackageBuildRequestsErrorView;

    open spec fn deep_view(&self) -> ParsePackageBuildRequestsErrorView {
        match self {
            ParsePackageBuildRequestsError::PackageSystems { source } => ParsePackageBuildRequestsErrorView::PackageSystems {
                source: source.deep_view(),
            },
            ParsePackageBuildRequestsError::UndefinedPackageSystem { system } => ParsePackageBuildRequestsErrorView::UndefinedPackageSystem {
                system: *system,
            },
            ParsePackageBuildRequestsError::SectionArgs { source, system } => ParsePackageBuildRequestsErrorView::SectionArgs {
                source: source.deep_view(),
                system: *system,
            },
        }
    }
}

impl ParsePackageBuildRequestsErrorView {
    /// The message of the error.
    pub open spec fn message(self) -> Seq<char> {
        match self {
            ParsePackageBuildRequestsErrorView::PackageSystems { .. } => "failed to parse package systems"@,
            ParsePackageBuildRequestsErrorView::UndefinedPackageSystem { system } => "package system "@ + system_name(system) + " is not defined by any package branch"@,
            ParsePackageBuildRequestsErrorView::SectionArgs { system, .. } => "failed to parse "@ + system_name(system) + " package section"@,
        }
    }
}

impl ParsePackageBuildRequestsError {
    /// The message of the error.
    pub fn to_string(&self) -> (text: String)
        ensures
            text@ == self.deep_view().message(),
    {
        match self {
            ParsePackageBuildRequestsError::PackageSystems { .. } => "failed to parse package systems".to_owned(),
            ParsePackageBuildRequestsError::UndefinedPackageSystem { system } => {
                let mut text = "package system ".to_owned();
                text.append(system.as_str());
                text.append(" is not defined by any package branch");
                text
            },
            ParsePackageBuildRequestsError::SectionArgs { system, .. } => {
                let mut text = "failed to parse ".to_owned();
                text.append(system.as_str());
                text.append(" package section");
                text
            },
        }
    }
}

/// Why a command line is no package command.
#[derive(Debug, PartialEq, Eq)]
pub enum ParsePackageCommandRequestError {
    /// Reported as `failed to parse package command arguments`.
    Clap { reason: String },
    /// Reported as `package command option must be utf-8`.
    OptionNotUtf8,
    /// Reported as `unknown package command option {option}`.
    UnknownOption { option: String },
    /// Reported as `unexpected package command argument {argument}`.
    UnexpectedArgument { argument: String },
    /// Reported as `failed to parse package build requests`.
    BuildRequests { source: ParsePackageBuildRequestsError },
}

/// What a [`ParsePackageCommandRequestError`] holds.
pub enum ParsePackageCommandRequestErrorView {
    Clap { reason: Seq<char> },
    OptionNotUtf8,
    UnknownOption { option: Seq<char> },
    UnexpectedArgument { argument: Seq<char> },
    BuildRequests { source: ParsePackageBuildRequestsErrorView },
}

impl DeepView for ParsePackageCommandRequestError {
    type V = ParsePackageCommandRequestErrorView;

    open spec fn deep_view(&self) -> ParsePackageCommandRequestErrorView {
        match self {
            ParsePackageCommandRequestError::Clap { reason } => ParsePackageCommandRequestErrorView::Clap {
                reason: reason@,
            },
            ParsePackageCommandRequestError::OptionNotUtf8 => ParsePackageCommandRequestErrorView::OptionNotUtf8,
            ParsePackageCommandRequestError::UnknownOption { option } => ParsePackageCommandRequestErrorView::UnknownOption {
                option: option@,
            },
            ParsePackageCommandRequestError::UnexpectedArgument { argument } => ParsePackageCommandRequestErrorView::UnexpectedArgument {
                argument: argument@,
            },
            ParsePackageCommandRequestError::BuildRequests { source } => ParsePackageCommandRequestErrorView::BuildRequests {
                source: source.deep_view(),
            },
        }
    }
}

impl ParsePackageCommandRequestErrorView {
    /// The message of the error.
    pub open spec fn message(self) -> Seq<char> {
        match self {
            ParsePackageCommandRequestErrorView::Clap { .. } => "failed to parse package command arguments"@,
            ParsePackageCommandRequestErrorView::OptionNotUtf8 => "package command option must be utf-8"@,
            ParsePackageCommandRequestErrorView::UnknownOption { option } => "unknown package command option "@ + option,
            ParsePackageCommandRequestErrorView::UnexpectedArgument { argument } => "unexpected package command argument "@ + argument,
            ParsePackageCommandRequestErrorView::BuildRequests { .. } => "failed to parse package build requests"@,
        }
    }
}

impl ParsePackageCommandRequestError {
    /// The message of the error.
    pub fn to_string(&self) -> (text: String)
        ensures
            text@ == self.deep_view().message(),
    {
        match self {
            ParsePackageCommandRequestError::Clap { .. } => "failed to parse package command arguments".to_owned(),
            ParsePackageCommandRequestError::OptionNotUtf8 => "package command option must be utf-8".to_owned(),
            ParsePackageCommandRequestError::UnknownOption { option } => {
                let mut text = "unknown package command option ".to_owned();
                text.append(option.as_str());
                text
            },
            ParsePackageCommandRequestError::UnexpectedArgument { argument } => {
                let mut text = "unexpected package command argument ".to_owned();
                text.append(argument.as_str());
                text
            },
            ParsePackageCommandRequestError::BuildRequests { .. } => "failed to parse package build requests".to_owned(),
        }
    }
}

/// What the builds of a section are given, from what reading its options gave.
pub open spec fn reading_args(reading: SectionReadingView) -> Result<
    PackageSectionArgsView,
    ParsePackageSectionArgsErrorView,
> {
    match reading {
        SectionReadingView::Refused { reason } => Err(
            ParsePackageSectionArgsErrorView::Clap { reason },
        ),
        SectionReadingView::Options(options) => section_args(options),
    }
}

/// The requests of the sections from `from` on, after those already `found`.
pub open spec fn requests_from(
    contract: ReleaseContract,
    sections: Seq<PackageSystemSectionView>,
    readings: Seq<SectionReadingView>,
    from: int,
    found: Seq<PackageBuildRequestView>,
) -> Result<Seq<PackageBuildRequestView>, ParsePackageBuildRequestsErrorView>
    decreases sections.len() - from,
{
    if from < 0 || from >= sections.len() {
        Ok(found)
    } else {
        let system = sections[from].system;
        if !some_branch(contract, system) {
            Err(ParsePackageBuildRequestsErrorView::UndefinedPackageSystem { system })
        } else {
            match reading_args(readings[from]) {
                Err(source) => Err(
                    ParsePackageBuildRequestsErrorView::SectionArgs { source, system },
                ),
                Ok(args) => requests_from(
                    contract,
                    sections,
                    readings,
                    from + 1,
                    found.push(PackageBuildRequestView { system, args }),
                ),
            }
        }
    }
}

/// The builds that a command line asks for, where `readings` holds what reading the
/// options of each section gave.
pub open spec fn build_requests(
    contract: ReleaseContract,
    tokens: Seq<CommandTokenView>,
    readings: Seq<SectionReadingView>,
) -> Result<Seq<PackageBuildRequestView>, ParsePackageBuildRequestsErrorView> {
    match sections_of(tokens) {
        Err(source) => Err(ParsePackageBuildRequestsErrorView::PackageSystems { source }),
        Ok(sections) => requests_from(contract, sections, readings, 0, Seq::empty()),
    }
}

/// What the builds are given, from what reading the words of a section gave.
pub fn parse_package_section_args(reading: &SectionReading) -> (args: Result<
    PackageSectionArgs,
    ParsePackageSectionArgsError,
>)
    ensures
        outcome(args) == reading_args(reading.deep_view()),
{
    match reading {
        SectionReading::Refused { reason } => Err(
            ParsePackageSectionArgsError::Clap { reason: reason.clone() },
        ),
        SectionReading::Options(options) => package_section_args(options.clone()),
    }
}

/// The builds that a command line asks for. `readings` holds, for each section in turn,
/// what reading its options gave.
pub fn parse_package_build_requests(
    contract: &ReleaseContract,
    tokens: &Vec<CommandToken>,
    readings: &Vec<SectionReading>,
) -> (requests: Result<Vec<PackageBuildRequest>, ParsePackageBuildRequestsError>)
    requires
        sections_of(deep(tokens@)) matches Ok(sections) ==> sections.len() == readings@.len(),
    ensures
        outcomes(requests) == build_requests(*contract, deep(tokens@), deep(readings@)),
{
    let sections = match parse_package_system_sections(tokens) {
        Ok(sections) => sections,
        Err(source) => {
            return Err(ParsePackageBuildRequestsError::PackageSystems { source });
        },
    };
    assert(deep(sections@).len() == sections@.len());
    let mut requests: Vec<PackageBuildRequest> = Vec::new();
    let mut i: usize = 0;
    while i < sections.len()
        invariant
            i <= sections@.len() == readings@.len(),
            build_requests(*contract, deep(tokens@), deep(readings@)) == requests_from(
                *contract,
                deep(sections@),
                deep(readings@),
                i as int,
                deep(requests@),
            ),
        decreases sections@.len() - i,
    {
        let system = sections[i].system;
        assert(deep(sections@)[i as int] == sections@[i as int].deep_view());
        assert(deep(readings@)[i as int] == readings@[i as int].deep_view());
        if !contract.has_branch(system) {
            return Err(ParsePackageBuildRequestsError::UndefinedPackageSystem { system });
        }
        match parse_package_section_args(&readings[i]) {
            Ok(args) => {
                requests.push(PackageBuildRequest { system, args });
            },
            Err(source) => {
                return Err(ParsePackageBuildRequestsError::SectionArgs { source, system });
            },
        }
        i = i + 1;
    }
    Ok(requests)
}

/// The package command that a command line asks for.
pub fn package_command_request(
    contract: &ReleaseContract,
    overwrite_manifest: bool,
    targets: &Vec<CommandToken>,
    readings: &Vec<SectionReading>,
) -> (request: Result<PackageCommandRequest, ParsePackageCommandRequestError>)
    requires
        sections_of(deep(targets@)) matches Ok(sections) ==> sections.len() == readings@.len(),
    ensures
        outcome(request) == (match build_requests(*contract, deep(targets@), deep(readings@)) {
            Ok(builds) => Ok(PackageCommandRequestView { overwrite_manifest, builds }),
            Err(source) => Err(ParsePackageCommandRequestErrorView::BuildRequests { source }),
        }),
{
    match parse_package_build_requests(contract, targets, readings) {
        Ok(builds) => Ok(PackageCommandRequest { overwrite_manifest, builds }),
        Err(source) => Err(ParsePackageCommandRequestError::BuildRequests { source }),
    }
}

// ---------------------------------------------------------------------------
// Publish and show requests
// ---------------------------------------------------------------------------
/// Why a command line asks for no publications.
#[derive(Debug, PartialEq, Eq)]
pub enum ParseS3PublishRequestsError {
    /// Reported as `failed to parse package systems`.
    PackageSystems { source: ParsePackageSystemSectionsError },
    /// Reported as `destination s3 {system} branch is not defined`.
    UndefinedDestinationBranch { system: PackageSystem },
    /// Reported as `destination s3 {system} branch does not accept target-local arguments`.
    TargetLocalArguments { system: PackageSystem },
    /// Reported as `package system {system} is not defined by any package branch`.
    UndefinedPackageSystem { system: PackageSystem },
}

/// What a [`ParseS3PublishRequestsError`] holds.
pub enum ParseS3PublishRequestsErrorView {
    PackageSystems { source: ParsePackageSystemSectionsErrorView },
    UndefinedDestinationBranch { system: PackageSystem },
    TargetLocalArguments { system: PackageSystem },
    UndefinedPackageSystem { system: PackageSystem },
}

impl DeepView for ParseS3PublishRequestsError {
    type V = ParseS3PublishRequestsErrorView;

    open spec fn deep_view(&self) -> ParseS3PublishRequestsErrorView {
        match self {
            ParseS3PublishRequestsError::PackageSystems { source } => ParseS3PublishRequestsErrorView::PackageSystems {
                source: source.deep_view(),
            },
            ParseS3PublishRequestsError::UndefinedDestinationBranch { system } => ParseS3PublishRequestsErrorView::UndefinedDestinationBranch {
                system: *system,
            },
            ParseS3PublishRequestsError::TargetLocalArguments { system } => ParseS3PublishRequestsErrorView::TargetLocalArguments {
                system: *system,
            },
            ParseS3PublishRequestsError::UndefinedPackageSystem { system } => ParseS3PublishRequestsErrorView::UndefinedPackageSystem {
                system: *system,
            },
        }
    }
}

impl ParseS3PublishRequestsErrorView {
    /// The message of the error.
    pub open spec fn message(self) -> Seq<char> {
        match self {
            ParseS3PublishRequestsErrorView::PackageSystems { .. } => "failed to parse package systems"@,
            ParseS3PublishRequestsErrorView::UndefinedDestinationBranch { system } => "destination s3 "@ + system_name(system) + " branch is not defined"@,
            ParseS3PublishRequestsErrorView::TargetLocalArguments { system } => "destination s3 "@ + system_name(system) + " branch does not accept target-local arguments"@,
            ParseS3PublishRequestsErrorView::UndefinedPackageSystem { system } => "package system "@ + system_name(system) + " is not defined by any package branch"@,
        }
    }
}

impl ParseS3PublishRequestsError {
    /// The message of the error.
    pub fn to_string(&self) -> (text: String)
        ensures
            text@ == self.deep_view().message(),
    {
        match self {
            ParseS3PublishRequestsError::PackageSystems { .. } => "failed to parse package systems".to_owned(),
            ParseS3PublishRequestsError::UndefinedDestinationBranch { system } => {
                let mut text = "destination s3 ".to_owned();
                text.append(system.as_str());
                text.append(" branch is not defined");
                text
            },
            ParseS3PublishRequestsError::TargetLocalArguments { system } => {
                let mut text = "destination s3 ".to_owned();
                text.append(system.as_str());
                text.append(" branch does not accept target-local arguments");
                text
            },
            ParseS3PublishRequestsError::UndefinedPackageSystem { system } => {
                let mut text = "package system ".to_owned();
                text.append(system.as_str());
                text.append(" is not defined by any package branch");
                text
            },
        }
    }
}

/// Why a command line is no publish command.
#[derive(Debug, PartialEq, Eq)]
pub enum ParseS3PublishCommandRequestError {
    /// Reported as `failed to parse s3 publish command arguments`.
    Clap { reason: String },
    /// Reported as `s3 publish command option must be utf-8`.
    OptionNotUtf8,
    /// Reported as `unknown s3 publish command option {option}`.
    UnknownOption { option: String },
    /// Reported as `failed to parse s3 publish requests`.
    PublishRequests { source: ParseS3PublishRequestsError },
}

/// What a [`ParseS3PublishCommandRequestError`] holds.
pub enum ParseS3PublishCommandRequestErrorView {
    Clap { reason: Seq<char> },
    OptionNotUtf8,
    UnknownOption { option: Seq<char> },
    PublishRequests { source: ParseS3PublishRequestsErrorView },
}

impl DeepView for ParseS3PublishCommandRequestError {
    type V = ParseS3PublishCommandRequestErrorView;

    open spec fn deep_view(&self) -> ParseS3PublishCommandRequestErrorView {
        match self {
            ParseS3PublishCommandRequestError::Clap { reason } => ParseS3PublishCommandRequestErrorView::Clap {
                reason: reason@,
            },
            ParseS3PublishCommandRequestError::OptionNotUtf8 => ParseS3PublishCommandRequestErrorView::OptionNotUtf8,
            ParseS3PublishCommandRequestError::UnknownOption { option } => ParseS3PublishCommandRequestErrorView::UnknownOption {
                option: option@,
            },
            ParseS3PublishCommandRequestError::PublishRequests { source } => ParseS3PublishCommandRequestErrorView::PublishRequests {
                source: source.deep_view(),
            },
        }
    }
}

impl ParseS3PublishCommandRequestErrorView {
    /// The message of the error.
    pub open spec fn message(self) -> Seq<char> {
        match self {
            ParseS3PublishCommandRequestErrorView::Clap { .. } => "failed to parse s3 publish command arguments"@,
            ParseS3PublishCommandRequestErrorView::OptionNotUtf8 => "s3 publish command option must be utf-8"@,
            ParseS3PublishCommandRequestErrorView::UnknownOption { option } => "unknown s3 publish command option "@ + option,
            ParseS3PublishCommandRequestErrorView::PublishRequests { .. } => "failed to parse s3 publish requests"@,
        }
    }
}

impl ParseS3PublishCommandRequestError {
    /// The message of the error.
    pub fn to_string(&self) -> (text: String)
        ensures
            text@ == self.deep_view().message(),
    {
        match self {
            ParseS3PublishCommandRequestError::Clap { .. } => "failed to parse s3 publish command arguments".to_owned(),
            ParseS3PublishCommandRequestError::OptionNotUtf8 => "s3 publish command option must be utf-8".to_owned(),
            ParseS3PublishCommandRequestError::UnknownOption { option } => {
                let mut text = "unknown s3 publish command option ".to_owned();
                text.append(option.as_str());
                text
            },
            ParseS3PublishCommandRequestError::PublishRequests { .. } => "failed to parse s3 publish requests".to_owned(),
        }
    }
}

/// Why a command line is no show command.
#[derive(Debug, PartialEq, Eq)]
pub enum ParseShowCommandRequestError {
    /// Reported as `destination s3 {system} branch is missing`.
    UndefinedDestinationBranch { system: PackageSystem },
}

/// What a [`ParseShowCommandRequestError`] holds.
pub enum ParseShowCommandRequestErrorView {
    UndefinedDestinationBranch { system: PackageSystem },
}

impl DeepView for ParseShowCommandRequestError {
    type V = ParseShowCommandRequestErrorView;

    open spec fn deep_view(&self) -> ParseShowCommandRequestErrorView {
        match self {
            ParseShowCommandRequestError::UndefinedDestinationBranch { system } => ParseShowCommandRequestErrorView::UndefinedDestinationBranch {
                system: *system,
            },
        }
    }
}

impl ParseShowCommandRequestErrorView {
    /// The message of the error.
    pub open spec fn message(self) -> Seq<char> {
        match self {
            ParseShowCommandRequestErrorView::UndefinedDestinationBranch { system } => "destination s3 "@ + system_name(system) + " branch is missing"@,
        }
    }
}

impl ParseShowCommandRequestError {
    /// The message of the error.
    pub fn to_string(&self) -> (text: String)
        ensures
            text@ == self.deep_view().message(),
    {
        match self {
            ParseShowCommandRequestError::UndefinedDestinationBranch { system } => {
                let mut text = "destination s3 ".to_owned();
                text.append(system.as_str());
                text.append(" branch is missing");
                text
            },
        }
    }
}

/// Why a command line is no command.
#[allow(inconsistent_fields)]
#[derive(Debug, PartialEq, Eq)]
pub enum ParseXtaskCommandRequestError {
    /// Reported as `failed to parse command line`.
    Clap { reason: String },
    /// Reported as `failed to parse package command`.
    Package { source: ParsePackageCommandRequestError },
    /// Reported as `failed to parse publish command`.
    Publish { source: ParseS3PublishCommandRequestError },
    /// Reported as `failed to parse show command`.
    Show { source: ParseShowCommandRequestError },
}

/// What a [`ParseXtaskCommandRequestError`] holds.
#[allow(inconsistent_fields)]
pub enum ParseXtaskCommandRequestErrorView {
    Clap { reason: Seq<char> },
    Package { source: ParsePackageCommandRequestErrorView },
    Publish { source: ParseS3PublishCommandRequestErrorView },
    Show { source: ParseShowCommandRequestErrorView },
}

impl DeepView for ParseXtaskCommandRequestError {
    type V = ParseXtaskCommandRequestErrorView;

    open spec fn deep_view(&self) -> ParseXtaskCommandRequestErrorView {
        match self {
            ParseXtaskCommandRequestError::Clap { reason } => ParseXtaskCommandRequestErrorView::Clap {
                reason: reason@,
            },
            ParseXtaskCommandRequestError::Package { source } => ParseXtaskCommandRequestErrorView::Package {
                source: source.deep_view(),
            },
            ParseXtaskCommandRequestError::Publish { source } => ParseXtaskCommandRequestErrorView::Publish {
                source: source.deep_view(),
            },
            ParseXtaskCommandRequestError::Show { source } => ParseXtaskCommandRequestErrorView::Show {
                source: source.deep_view(),
            },
        }
    }
}

impl ParseXtaskCommandRequestErrorView {
    /// The message of the error.
    pub open spec fn message(self) -> Seq<char> {
        match self {
            ParseXtaskCommandRequestErrorView::Clap { .. } => "failed to parse command line"@,
            ParseXtaskCommandRequestErrorView::Package { .. } => "failed to parse package command"@,
            ParseXtaskCommandRequestErrorView::Publish { .. } => "failed to parse publish command"@,
            ParseXtaskCommandRequestErrorView::Show { .. } => "failed to parse show command"@,
        }
    }
}

impl ParseXtaskCommandRequestError {
    /// The message of the error.
    pub fn to_string(&self) -> (text: String)
        ensures
            text@ == self.deep_view().message(),
    {
        match self {
            ParseXtaskCommandRequestError::Clap { .. } => "failed to parse command line".to_owned(),
            ParseXtaskCommandRequestError::Package { .. } => "failed to parse package command".to_owned(),
            ParseXtaskCommandRequestError::Publish { .. } => "failed to parse publish command".to_owned(),
            ParseXtaskCommandRequestError::Show { .. } => "failed to parse show command".to_owned(),
        }
    }
}

/// A package system can be published where it has a destination and a package.
pub open spec fn publish_fault(contract: ReleaseContract, system: PackageSystem) -> Option<
    ParseS3PublishRequestsErrorView,
> {
    if !has_destination(contract, system) {
        Some(ParseS3PublishRequestsErrorView::UndefinedDestinationBranch { system })
    } else if !some_branch(contract, system) {
        Some(ParseS3PublishRequestsErrorView::UndefinedPackageSystem { system })
    } else {
        None
    }
}

/// The package systems of the sections from `from` on, after those already `found`.
pub open spec fn publish_systems(
    contract: ReleaseContract,
    sections: Seq<PackageSystemSectionView>,
    from: int,
    found: Seq<PackageSystem>,
) -> Result<Seq<PackageSystem>, ParseS3PublishRequestsErrorView>
    decreases sections.len() - from,
{
    if from < 0 || from >= sections.len() {
        Ok(found)
    } else {
        let system = sections[from].system;
        if sections[from].args.len() > 0 {
            Err(ParseS3PublishRequestsErrorView::TargetLocalArguments { system })
        } else {
            match publish_fault(contract, system) {
                Some(error) => Err(error),
                None => publish_systems(contract, sections, from + 1, found.push(system)),
            }
        }
    }
}

/// The package systems that a command line asks to publish.
pub open spec fn publish_requests(contract: ReleaseContract, tokens: Seq<CommandTokenView>) -> Result<
    Seq<PackageSystem>,
    ParseS3PublishRequestsErrorView,
> {
    match sections_of(tokens) {
        Err(source) => Err(ParseS3PublishRequestsErrorView::PackageSystems { source }),
        Ok(sections) => publish_systems(contract, sections, 0, Seq::empty()),
    }
}

/// The first package system, from `from` on, that cannot be published.
pub open spec fn systems_fault(
    contract: ReleaseContract,
    systems: Seq<PackageSystem>,
    from: int,
) -> Option<ParseS3PublishRequestsErrorView>
    decreases systems.len() - from,
{
    if from < 0 || from >= systems.len() {
        None
    } else {
        match publish_fault(contract, systems[from]) {
            Some(error) => Some(error),
            None => systems_fault(contract, systems, from + 1),
        }
    }
}

fn check_publishable(contract: &ReleaseContract, system: PackageSystem) -> (checked: Result<
    (),
    ParseS3PublishRequestsError,
>)
    ensures
        fault_of(checked) == publish_fault(*contract, system),
{
    if !contract.publishes(system) {
        return Err(ParseS3PublishRequestsError::UndefinedDestinationBranch { system });
    }
    if !contract.has_branch(system) {
        return Err(ParseS3PublishRequestsError::UndefinedPackageSystem { system });
    }
    Ok(())
}

/// The package systems that a command line asks to publish.
pub fn parse_s3_publish_requests(
    contract: &ReleaseContract,
    tokens: &Vec<CommandToken>,
) -> (systems: Result<Vec<PackageSystem>, ParseS3PublishRequestsError>)
    ensures
        outcomes(systems) == publish_requests(*contract, deep(tokens@)),
{
    let sections = match parse_package_system_sections(tokens) {
        Ok(sections) => sections,
        Err(source) => {
            return Err(ParseS3PublishRequestsError::PackageSystems { source });
        },
    };
    let mut systems: Vec<PackageSystem> = Vec::new();
    let mut i: usize = 0;
    while i < sections.len()
        invariant
            i <= sections@.len(),
            publish_requests(*contract, deep(tokens@)) == publish_systems(
                *contract,
                deep(sections@),
                i as int,
                deep(systems@),
            ),
        decreases sections@.len() - i,
    {
        let section = &sections[i];
        assert(deep(sections@)[i as int] == section.deep_view());
        if section.args.len() > 0 {
            return Err(
                ParseS3PublishRequestsError::TargetLocalArguments { system: section.system },
            );
        }
        if let Err(error) = check_publishable(contract, section.system) {
            return Err(error);
        }
        systems.push(section.system);
        i = i + 1;
    }
    Ok(systems)
}

/// The publish command for some package systems.
pub fn s3_publish_command_request(
    contract: &ReleaseContract,
    dry_run: bool,
    systems: Vec<PackageSystem>,
) -> (request: Result<S3PublishCommandRequest, ParseS3PublishCommandRequestError>)
    ensures
        outcome(request) == (match systems_fault(*contract, systems@, 0) {
            Some(source) => Err(ParseS3PublishCommandRequestErrorView::PublishRequests { source }),
            None => Ok(S3PublishCommandRequestView { dry_run, systems: systems@ }),
        }),
{
    let mut i: usize = 0;
    while i < systems.len()
        invariant
            i <= systems@.len(),
            systems_fault(*contract, systems@, 0) == systems_fault(
                *contract,
                systems@,
                i as int,
            ),
        decreases systems@.len() - i,
    {
        if let Err(source) = check_publishable(contract, systems[i]) {
            return Err(ParseS3PublishCommandRequestError::PublishRequests { source });
        }
        i = i + 1;
    }
    assert(deep(systems@) =~= systems@);
    Ok(S3PublishCommandRequest { dry_run, systems })
}

/// The show command for the destination of a package system.
pub fn show_command_request(
    contract: &ReleaseContract,
    system: PackageSystem,
    github_output: bool,
) -> (request: Result<ShowCommandRequest, ParseShowCommandRequestError>)
    ensures
        outcome(request) == (if has_destination(*contract, system) {
            Ok(
                ShowCommandRequestView::S3Destination(
                    ShowS3DestinationRequestView { system, github_output },
                ),
            )
        } else {
            Err(ParseShowCommandRequestErrorView::UndefinedDestinationBranch { system })
        }),
{
    if !contract.publishes(system) {
        return Err(ParseShowCommandRequestError::UndefinedDestinationBranch { system });
    }
    Ok(ShowCommandRequest::S3Destination(ShowS3DestinationRequest { system, github_output }))
}

// ---------------------------------------------------------------------------
// Command lines
// ---------------------------------------------------------------------------
/// What reading the words of a package command gave.
#[derive(Debug, PartialEq, Eq)]
pub enum PackageCommandReading {
    Words { overwrite_manifest: bool, targets: Vec<CommandToken>, readings: Vec<SectionReading> },
    /// The words are no package command.
    Refused { reason: String },
}

/// What a [`PackageCommandReading`] holds.
pub enum PackageCommandReadingView {
    Words { overwrite_manifest: bool, targets: Seq<CommandTokenView>, readings: Seq<SectionReadingView> },
    Refused { reason: Seq<char> },
}

impl DeepView for PackageCommandReading {
    type V = PackageCommandReadingView;

    open spec fn deep_view(&self) -> PackageCommandReadingView {
        match self {
            PackageCommandReading::Words { overwrite_manifest, targets, readings } => PackageCommandReadingView::Words {
                overwrite_manifest: *overwrite_manifest,
                targets: deep(targets@),
                readings: deep(readings@),
            },
            PackageCommandReading::Refused { reason } => PackageCommandReadingView::Refused {
                reason: reason@,
            },
        }
    }
}

impl Clone for PackageCommandReading {
    fn clone(&self) -> (copy: Self)
        ensures
            copy.deep_view() == self.deep_view(),
    {
        match self {
            PackageCommandReading::Words { overwrite_manifest, targets, readings } => PackageCommandReading::Words { overwrite_manifest: *overwrite_manifest, targets: targets.clone(), readings: readings.clone() },
            PackageCommandReading::Refused { reason } => PackageCommandReading::Refused { reason: reason.clone() },
        }
    }
}

/// Whether every section of a package command was read.
pub open spec fn reads_every_section(reading: PackageCommandReadingView) -> bool {
    reading matches PackageCommandReadingView::Words { targets, readings, .. } ==> (sections_of(
        targets,
    ) matches Ok(sections) ==> sections.len() == readings.len())
}

/// The package command that was read.
pub open spec fn read_package_command(
    contract: ReleaseContract,
    reading: PackageCommandReadingView,
) -> Result<PackageCommandRequestView, ParsePackageCommandRequestErrorView> {
    match reading {
        PackageCommandReadingView::Refused { reason } => Err(
            ParsePackageCommandRequestErrorView::Clap { reason },
        ),
        PackageCommandReadingView::Words { overwrite_manifest, targets, readings } => {
            match build_requests(contract, targets, readings) {
                Ok(builds) => Ok(PackageCommandRequestView { overwrite_manifest, builds }),
                Err(source) => Err(ParsePackageCommandRequestErrorView::BuildRequests { source }),
            }
        },
    }
}

/// The package command that was read.
pub fn parse_package_command_request(
    contract: &ReleaseContract,
    reading: &PackageCommandReading,
) -> (request: Result<PackageCommandRequest, ParsePackageCommandRequestError>)
    requires
        reads_every_section(reading.deep_view()),
    ensures
        outcome(request) == read_package_command(*contract, reading.deep_view()),
{
    match reading {
        PackageCommandReading::Refused { reason } => Err(
            ParsePackageCommandRequestError::Clap { reason: reason.clone() },
        ),
        PackageCommandReading::Words {
            overwrite_manifest,
            targets,
            readings,
        } => package_command_request(contract, *overwrite_manifest, targets, readings),
    }
}

/// What reading the words of a publish command gave.
#[derive(Debug, PartialEq, Eq)]
pub enum S3PublishCommandReading {
    Words { dry_run: bool, systems: Vec<PackageSystem> },
    /// The words are no publish command.
    Refused { reason: String },
}

/// What a [`S3PublishCommandReading`] holds.
pub enum S3PublishCommandReadingView {
    Words { dry_run: bool, systems: Seq<PackageSystem> },
    Refused { reason: Seq<char> },
}

impl DeepView for S3PublishCommandReading {
    type V = S3PublishCommandReadingView;

    open spec fn deep_view(&self) -> S3PublishCommandReadingView {
        match self {
            S3PublishCommandReading::Words { dry_run, systems } => S3PublishCommandReadingView::Words {
                dry_run: *dry_run,
                systems: deep(systems@),
            },
            S3PublishCommandReading::Refused { reason } => S3PublishCommandReadingView::Refused {
                reason: reason@,
            },
        }
    }
}

impl Clone for S3PublishCommandReading {
    fn clone(&self) -> (copy: Self)
        ensures
            copy.deep_view() == self.deep_view(),
    {
        match self {
            S3PublishCommandReading::Words { dry_run, systems } => S3PublishCommandReading::Words { dry_run: *dry_run, systems: systems.clone() },
            S3PublishCommandReading::Refused { reason } => S3PublishCommandReading::Refused { reason: reason.clone() },
        }
    }
}

/// The publish command that was read.
pub open spec fn read_publish_command(
    contract: ReleaseContract,
    reading: S3PublishCommandReadingView,
) -> Result<S3PublishCommandRequestView, ParseS3PublishCommandRequestErrorView> {
    match reading {
        S3PublishCommandReadingView::Refused { reason } => Err(
            ParseS3PublishCommandRequestErrorView::Clap { reason },
        ),
        S3PublishCommandReadingView::Words { dry_run, systems } => match systems_fault(
            contract,
            systems,
            0,
        ) {
            Some(source) => Err(ParseS3PublishCommandRequestErrorView::PublishRequests { source }),
            None => Ok(S3PublishCommandRequestView { dry_run, systems }),
        },
    }
}

/// The publish command that was read.
pub fn parse_s3_publish_command_request(
    contract: &ReleaseContract,
    reading: &S3PublishCommandReading,
) -> (request: Result<S3PublishCommandRequest, ParseS3PublishCommandRequestError>)
    ensures
        outcome(request) == read_publish_command(*contract, reading.deep_view()),
{
    match reading {
        S3PublishCommandReading::Refused { reason } => Err(
            ParseS3PublishCommandRequestError::Clap { reason: reason.clone() },
        ),
        S3PublishCommandReading::Words { dry_run, systems } => {
            let named = systems.clone();
            assert(deep(systems@) =~= systems@);
            assert(named@ =~= systems@);
            s3_publish_command_request(contract, *dry_run, named)
        },
    }
}

/// What reading a command line gave.
#[derive(Debug, PartialEq, Eq)]
pub enum XtaskCommandReading {
    Package(PackageCommandReading),
    Publish(S3PublishCommandReading),
    Show { system: PackageSystem, github_output: bool },
    /// The words are no command.
    Refused { reason: String },
}

/// What a [`XtaskCommandReading`] holds.
pub enum XtaskCommandReadingView {
    Package(PackageCommandReadingView),
    Publish(S3PublishCommandReadingView),
    Show { system: PackageSystem, github_output: bool },
    Refused { reason: Seq<char> },
}

impl DeepView for XtaskCommandReading {
    type V = XtaskCommandReadingView;

    open spec fn deep_view(&self) -> XtaskCommandReadingView {
        match self {
            XtaskCommandReading::Package(value) => XtaskCommandReadingView::Package(value.deep_view()),
            XtaskCommandReading::Publish(value) => XtaskCommandReadingView::Publish(value.deep_view()),
            XtaskCommandReading::Show { system, github_output } => XtaskCommandReadingView::Show {
                system: *system,
                github_output: *github_output,
            },
            XtaskCommandReading::Refused { reason } => XtaskCommandReadingView::Refused {
                reason: reason@,
            },
        }
    }
}

impl Clone for XtaskCommandReading {
    fn clone(&self) -> (copy: Self)
        ensures
            copy.deep_view() == self.deep_view(),
    {
        match self {
            XtaskCommandReading::Package(value) => XtaskCommandReading::Package(value.clone()),
            XtaskCommandReading::Publish(value) => XtaskCommandReading::Publish(value.clone()),
            XtaskCommandReading::Show { system, github_output } => XtaskCommandReading::Show { system: *system, github_output: *github_output },
            XtaskCommandReading::Refused { reason } => XtaskCommandReading::Refused { reason: reason.clone() },
        }
    }
}

/// The command that was read.
pub open spec fn read_command(contract: ReleaseContract, reading: XtaskCommandReadingView) -> Result<
    XtaskCommandRequestView,
    ParseXtaskCommandRequestErrorView,
> {
    match reading {
        XtaskCommandReadingView::Refused { reason } => Err(
            ParseXtaskCommandRequestErrorView::Clap { reason },
        ),
        XtaskCommandReadingView::Package(reading) => match read_package_command(
            contract,
            reading,
        ) {
            Ok(request) => Ok(XtaskCommandRequestView::Package(request)),
            Err(source) => Err(ParseXtaskCommandRequestErrorView::Package { source }),
        },
        XtaskCommandReadingView::Publish(reading) => match read_publish_command(
            contract,
            reading,
        ) {
            Ok(request) => Ok(
                XtaskCommandRequestView::Publish(PublishCommandRequestView::S3(request)),
            ),
            Err(source) => Err(ParseXtaskCommandRequestErrorView::Publish { source }),
        },
        XtaskCommandReadingView::Show { system, github_output } => if has_destination(
            contract,
            system,
        ) {
            Ok(
                XtaskCommandRequestView::Show(
                    ShowCommandRequestView::S3Destination(
                        ShowS3DestinationRequestView { system, github_output },
                    ),
                ),
            )
        } else {
            Err(
                ParseXtaskCommandRequestErrorView::Show {
                    source: ParseShowCommandRequestErrorView::UndefinedDestinationBranch { system },
                },
            )
        },
    }
}

/// The command that was read.
pub fn parse_xtask_command_request(contract: &ReleaseContract, reading: &XtaskCommandReading) -> (
request: Result<XtaskCommandRequest, ParseXtaskCommandRequestError>)
    requires
        reading.deep_view() matches XtaskCommandReadingView::Package(command)
            ==> reads_every_section(command),
    ensures
        outcome(request) == read_command(*contract, reading.deep_view()),
{
    match reading {
        XtaskCommandReading::Refused { reason } => Err(
            ParseXtaskCommandRequestError::Clap { reason: reason.clone() },
        ),
        XtaskCommandReading::Package(reading) => match parse_package_command_request(
            contract,
            reading,
        ) {
            Ok(request) => Ok(XtaskCommandRequest::Package(request)),
            Err(source) => Err(ParseXtaskCommandRequestError::Package { source }),
        },
        XtaskCommandReading::Publish(reading) => match parse_s3_publish_command_request(
            contract,
            reading,
        ) {
            Ok(request) => Ok(XtaskCommandRequest::Publish(PublishCommandRequest::S3(request))),
            Err(source) => Err(ParseXtaskCommandRequestError::Publish { source }),
        },
        XtaskCommandReading::Show { system, github_output } => match show_command_request(
            contract,
            *system,
            *github_output,
        ) {
            Ok(request) => Ok(XtaskCommandRequest::Show(request)),
            Err(source) => Err(ParseXtaskCommandRequestError::Show { source }),
        },
    }
}

} // verus!
