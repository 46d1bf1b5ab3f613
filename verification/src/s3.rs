//! Publishing to S3: which objects are written, under which conditions and in which order.

use core::cmp::Ordering;

use vstd::prelude::*;

use crate::brew::{
    brew_template_variables, brew_variables, BrewTemplateVariableError,
    BrewTemplateVariableErrorView,
};
use crate::channel::{channel_name, ReleaseChannel};
use crate::contract::{branch_of, package_of, template_of, ReleaseContract};
use crate::manifest::{PackageArtifact, PackageArtifactView, PackageManifest, PackageManifestView};
use crate::model::{deep, fault_of, outcome, outcomes};
use crate::package::{
    is_package_id, metadata_of, resolve_metadata, CargoMetadata, CargoMetadataView, PackageId,
    ParsePackageIdError, ParsePackageIdErrorView, ResolvePackageMetadataError,
    ResolvePackageMetadataErrorView, ResolvedPackageMetadata, ResolvedPackageMetadataView,
};
use crate::path::{below, join_path, parts, path_below, path_join, path_to_slash};
use crate::publish::{
    below_prefix, compares_all, compares_as, entries_not_local, entry_names, immutable_upload, index_entries,
    key_below, linux_payload_key, linux_repository_upload_order,
    mutable_entry_names, payload_key, payloads_not_local, plan_immutable_upload, plan_versioned_immutable_payload,
    publish_upload_order, publishable_by_indexes, publishable_by_keys,
    publishable_deb_payloads_from_manifest_and_packages,
    publishable_linux_payloads_from_manifest_and_remote_keys, read_rpm_architecture,
    remote_deb_package_entries_from_packages, retained_entries, retained_payloads,
    rpm_file_architecture, strip_remote_prefix, upload_rank, versioned_payload_plan,
    ImmutableCollisionError, ImmutableCollisionErrorView, LinuxPackagePayload,
    LinuxPackagePayloadView, LinuxPayloadKeyError, LinuxPayloadKeyErrorView,
    MutableEntryNamesError, MutableEntryNamesErrorView,
    PublishableDebPayloadsFromManifestAndPackagesError,
    PublishableDebPayloadsFromManifestAndPackagesErrorView,
    PublishableLinuxPayloadsFromManifestAndRemoteKeysError,
    PublishableLinuxPayloadsFromManifestAndRemoteKeysErrorView, PublicBaseUrl,
    RemoteDebPackageEntriesFromPackagesError, RemoteDebPackageEntriesFromPackagesErrorView,
    RemoteDebPackageEntry, RemoteDebPackageEntryView, RemotePayloadState, RemotePayloadStateView,
    RemotePrefix, ResolveS3PublishTargetError,
    ResolveS3PublishTargetErrorView, S3PublishTarget, S3PublishTargetView, UploadCondition, UploadConditionView,
};
use crate::scoop::{
    scoop_template_variables, scoop_variables, RenderScoopJsonError, RenderScoopJsonErrorView,
};
use crate::system::{system_name, PackageSystem};
use crate::template::{
    render_template, rendered, RenderTemplateError, RenderTemplateErrorView,
};
use crate::text::{
    chars_of, contains, contains_text, ends_with, has_suffix, is_space, is_whitespace, joined,
    less_text, pieces, replace_char, replaced, same_text, split, text_lt, to_upper_case,
    upper_case,
};
use crate::textmap::TextMap;

verus! {

broadcast use crate::model::group_deep;

// ---------------------------------------------------------------------------
// Comparing versions
// ---------------------------------------------------------------------------
/// A Debian version.
#[derive(Debug, PartialEq, Eq)]
pub struct DebVersion {
    pub epoch: Option<u32>,
    pub upstream_version: String,
    pub debian_revision: Option<String>,
}

/// What a [`DebVersion`] holds.
pub struct DebVersionView {
    pub epoch: Option<u32>,
    pub upstream_version: Seq<char>,
    pub debian_revision: Option<Seq<char>>,
}

impl DeepView for DebVersion {
    type V = DebVersionView;

    open spec fn deep_view(&self) -> DebVersionView {
        DebVersionView {
            epoch: self.epoch.deep_view(),
            upstream_version: self.upstream_version@,
            debian_revision: self.debian_revision.deep_view(),
        }
    }
}

impl Clone for DebVersion {
    fn clone(&self) -> (copy: Self)
        ensures
            copy.deep_view() == self.deep_view(),
    {
        let copy = DebVersion {
            epoch: self.epoch.clone(),
            upstream_version: self.upstream_version.clone(),
            debian_revision: self.debian_revision.clone(),
        };
        copy
    }
}

/// What `debversion::Version` reads from a text, or nothing where it refuses the text.
pub uninterp spec fn parsed_deb_version(text: Seq<char>) -> Option<DebVersionView>;

/// How `debversion::Version` orders two versions.
pub uninterp spec fn deb_order(left: DebVersionView, right: DebVersionView) -> Ordering;

/// The error of reading a `debversion::Version`.
#[verifier::external_type_specification]
#[verifier::external_body]
pub struct ExDebVersionError(debversion::ParseError);

/// A text of ASCII characters alone.
pub open spec fn is_ascii_text(text: Seq<char>) -> bool {
    forall|i: int| 0 <= i < text.len() ==> (#[trigger] text[i]) < '\u{80}'
}

/// A Debian version whose parts are ASCII texts.
pub open spec fn is_ascii_version(version: DebVersionView) -> bool {
    is_ascii_text(version.upstream_version) && (version.debian_revision matches Some(revision)
        ==> is_ascii_text(revision))
}

/// `debversion::Version` as it implements `FromStr`. What it reads depends on the text
/// alone, and the parts of a version that it reads hold ASCII characters alone.
#[verifier::external_body]
fn parse_deb_version(text: &str) -> (version: Result<DebVersion, debversion::ParseError>)
    ensures
        match version {
            Ok(version) => parsed_deb_version(text@) == Some(version.deep_view())
                && is_ascii_version(version.deep_view()),
            Err(_) => parsed_deb_version(text@) is None,
        },
{
    let version = text.parse::<debversion::Version>()?;
    Ok(
        DebVersion {
            epoch: version.epoch,
            upstream_version: version.upstream_version,
            debian_revision: version.debian_revision,
        },
    )
}

/// `debversion::Version` as it implements `Ord`. It cuts texts at positions that it counts
/// in characters, so the parts hold ASCII characters alone. The order depends on the parts
/// alone.
#[verifier::external_body]
fn order_deb_versions(left: DebVersion, right: DebVersion) -> (order: Ordering)
    requires
        is_ascii_version(left.deep_view()),
        is_ascii_version(right.deep_view()),
    ensures
        order == deb_order(left.deep_view(), right.deep_view()),
{
    let left = debversion::Version {
        epoch: left.epoch,
        upstream_version: left.upstream_version,
        debian_revision: left.debian_revision,
    };
    left.cmp(
        &debversion::Version {
            epoch: right.epoch,
            upstream_version: right.upstream_version,
            debian_revision: right.debian_revision,
        },
    )
}

/// How `rpm_version::rpm_evr_compare` orders two texts.
pub uninterp spec fn rpm_order(left: Seq<char>, right: Seq<char>) -> Ordering;

/// `rpm_version::rpm_evr_compare`, which reads two texts as epoch, version and release and
/// orders them as RPM does. It accepts every text, and the order depends on the texts
/// alone.
#[verifier::external_body]
fn order_rpm_versions(left: &str, right: &str) -> (order: Ordering)
    ensures
        order == rpm_order(left@, right@),
{
    rpm_version::rpm_evr_compare(left, right)
}

/// Why two Debian versions cannot be compared.
#[derive(Debug, Clone, Copy, PartialEq, Eq, Structural)]
pub enum CompareDebVersionError {
    /// One of the texts is no Debian version.
    Parse,
}

impl CompareDebVersionError {
    /// The message of the error.
    pub fn to_string(&self) -> (text: String)
        ensures
            text@ == "failed to parse deb version"@,
    {
        "failed to parse deb version".to_owned()
    }
}

/// Why two RPM versions cannot be compared: there is no reason.
#[derive(Debug, Clone, Copy, PartialEq, Eq, Structural)]
pub struct CompareRpmVersionError {}

/// The order of two texts as Debian versions.
pub open spec fn deb_compared(left: Seq<char>, right: Seq<char>) -> Result<
    Ordering,
    CompareDebVersionError,
> {
    match (parsed_deb_version(left), parsed_deb_version(right)) {
        (Some(left), Some(right)) => Ok(deb_order(left, right)),
        _ => Err(CompareDebVersionError::Parse),
    }
}

/// The order of two texts as RPM versions.
pub open spec fn rpm_compared(left: Seq<char>, right: Seq<char>) -> Result<
    Ordering,
    CompareRpmVersionError,
> {
    Ok(rpm_order(left, right))
}

/// Compares two texts as Debian versions.
pub fn compare_deb_versions(left: &str, right: &str) -> (answer: Result<
    Ordering,
    CompareDebVersionError,
>)
    ensures
        answer == deb_compared(left@, right@),
{
    let left = match parse_deb_version(left) {
        Ok(version) => version,
        Err(_) => {
            return Err(CompareDebVersionError::Parse);
        },
    };
    let right = match parse_deb_version(right) {
        Ok(version) => version,
        Err(_) => {
            return Err(CompareDebVersionError::Parse);
        },
    };
    Ok(order_deb_versions(left, right))
}

/// Compares two texts as RPM versions.
pub fn compare_rpm_versions(left: &str, right: &str) -> (answer: Result<
    Ordering,
    CompareRpmVersionError,
>)
    ensures
        answer == rpm_compared(left@, right@),
{
    Ok(order_rpm_versions(left, right))
}

// ---------------------------------------------------------------------------
// Answers of the service
// ---------------------------------------------------------------------------
/// A character with ASCII upper case letters turned into lower case.
pub open spec fn lower_char(c: char) -> char {
    if 'A' <= c && c <= 'Z' {
        ((c as u8) + 32) as char
    } else {
        c
    }
}

/// A text with ASCII upper case letters turned into lower case.
pub open spec fn lowered(text: Seq<char>) -> Seq<char> {
    text.map_values(|c: char| lower_char(c))
}

/// A text with ASCII upper case letters turned into lower case.
fn to_ascii_lowercase(text: &str) -> (lower: String)
    ensures
        lower@ == lowered(text@),
{
    let chars = chars_of(text);
    let mut lower = String::new();
    let mut i: usize = 0;
    assert(lower@ =~= lowered(text@).take(0));
    while i < chars.len()
        invariant
            i <= chars@.len(),
            chars@ == text@,
            lower@ == lowered(text@).take(i as int),
        decreases chars@.len() - i,
    {
        let c = chars[i];
        let kept = if 'A' <= c && c <= 'Z' {
            ((c as u8) + 32) as char
        } else {
            c
        };
        lower.push(kept);
        assert(lowered(text@).take(i + 1) =~= lowered(text@).take(i as int).push(kept));
        i = i + 1;
    }
    assert(lowered(text@).take(i as int) =~= lowered(text@));
    lower
}

/// A message that speaks of a missing object, not of a missing bucket.
pub open spec fn speaks_of_missing_object(message: Seq<char>) -> bool {
    let message = lowered(message);
    &&& !contains_text(message, "bucket"@)
    &&& (contains_text(message, "key"@) || contains_text(message, "object"@) || contains_text(
        message,
        "not found"@,
    ))
}

/// An answer that says that an object is missing.
pub open spec fn says_object_missing(
    code: Option<Seq<char>>,
    message: Option<Seq<char>>,
    status: Option<u16>,
) -> bool {
    &&& (status is None || status == Some(404u16))
    &&& (code == Some("NoSuchKey"@) || (code == Some("NotFound"@) && (message matches Some(text)
        ==> speaks_of_missing_object(text))))
}

fn classify_not_found_message_as_object_missing(message: &str) -> (missing: bool)
    ensures
        missing == speaks_of_missing_object(message@),
{
    let message = to_ascii_lowercase(message);
    if contains(message.as_str(), "bucket") {
        return false;
    }
    contains(message.as_str(), "key") || contains(message.as_str(), "object") || contains(
        message.as_str(),
        "not found",
    )
}

/// Whether an answer of the service says that an object is missing.
pub fn classify_missing_object(
    code: Option<&str>,
    message: Option<&str>,
    status: Option<u16>,
) -> (missing: bool)
    ensures
        missing == says_object_missing(code.deep_view(), message.deep_view(), status),
{
    match status {
        None => {},
        Some(status) => {
            if status != 404 {
                return false;
            }
        },
    }
    let code = match code {
        Some(code) => code,
        None => {
            return false;
        },
    };
    if same_text(code, "NoSuchKey") {
        return true;
    }
    if !same_text(code, "NotFound") {
        return false;
    }
    match message {
        Some(message) => classify_not_found_message_as_object_missing(message),
        None => true,
    }
}

/// Whether an answer of the service says that the condition of an upload did not hold.
pub fn is_precondition_failed_code(code: Option<&str>) -> (failed: bool)
    ensures
        failed == (code.deep_view() == Some("PreconditionFailed"@) || code.deep_view() == Some(
            "ConditionalRequestConflict"@,
        )),
{
    match code {
        Some(code) => same_text(code, "PreconditionFailed") || same_text(
            code,
            "ConditionalRequestConflict",
        ),
        None => false,
    }
}

// ---------------------------------------------------------------------------
// Uploads
// ---------------------------------------------------------------------------
/// A file that is uploaded.
#[derive(Debug, PartialEq, Eq)]
pub struct PlannedUpload {
    pub path: String,
    pub key: String,
    /// Whether the object announces packages and is replaced.
    pub entry: bool,
    pub condition: Option<UploadCondition>,
}

/// What a [`PlannedUpload`] holds.
pub struct PlannedUploadView {
    pub path: Seq<char>,
    pub key: Seq<char>,
    pub entry: bool,
    pub condition: Option<UploadConditionView>,
}

impl DeepView for PlannedUpload {
    type V = PlannedUploadView;

    open spec fn deep_view(&self) -> PlannedUploadView {
        PlannedUploadView {
            path: self.path@,
            key: self.key@,
            entry: self.entry,
            condition: self.condition.deep_view(),
        }
    }
}

impl Clone for PlannedUpload {
    fn clone(&self) -> (copy: Self)
        ensures
            copy.deep_view() == self.deep_view(),
    {
        let copy = PlannedUpload {
            path: self.path.clone(),
            key: self.key.clone(),
            entry: self.entry,
            condition: self.condition.clone(),
        };
        copy
    }
}

/// Why something cannot be published.
#[allow(inconsistent_fields)]
#[derive(Debug, PartialEq, Eq)]
pub enum S3PublishError {
    /// Reported as `invalid package id`.
    InvalidPackageId { source: ParsePackageIdError },
    /// Reported as `failed to resolve package metadata`.
    ResolveMetadata { source: ResolvePackageMetadataError },
    /// Reported as `failed to resolve s3 publish target`.
    ResolveTarget { source: ResolveS3PublishTargetError },
    /// Reported as `failed to build brew template variables`.
    BuildBrewTemplateVariables { source: BrewTemplateVariableError },
    /// Reported as `failed to build scoop template variables`.
    BuildScoopTemplateVariables { source: RenderScoopJsonError },
    /// Reported as `failed to render package metadata template`.
    RenderTemplate { source: RenderTemplateError },
    /// Reported as `failed to resolve mutable entry names`.
    MutableEntryNames { source: MutableEntryNamesError },
    /// Reported as `package artifact is missing archive name`.
    MissingArchiveName,
    /// Reported as `package artifact sha256 does not match manifest`.
    ArtifactSha256Mismatch { path: String },
    /// Reported as `package is missing from release contract`.
    MissingPackage { package: String },
    /// Reported as `package system branch is missing from release contract`.
    MissingBranch { package: String, system: PackageSystem },
    /// Reported as `package system branch is missing manifest_template`.
    MissingManifestTemplate { package: String, system: PackageSystem },
    /// Reported as `failed to select publishable deb payloads`.
    SelectPublishableDebPayloads { source: PublishableDebPayloadsFromManifestAndPackagesError<CompareDebVersionError> },
    /// Reported as `failed to parse remote deb package entries`.
    ParseRemoteDebEntries { source: RemoteDebPackageEntriesFromPackagesError },
    /// Reported as `remote rpm payload key has unexpected layout`.
    RemoteRpmPayloadKeyLayout,
    /// Reported as `failed to infer rpm architecture`.
    InferRpmArchitecture,
    /// Reported as `failed to select publishable rpm payloads`.
    SelectPublishableRpmPayloads { source: PublishableLinuxPayloadsFromManifestAndRemoteKeysError<CompareRpmVersionError> },
    /// Reported as `failed to resolve remote rpm payload key`.
    ResolveRpmPayloadKey { source: LinuxPayloadKeyError },
    /// Reported as `unsupported repository system`.
    UnsupportedRepositorySystem,
    /// Reported as `failed to make repository path relative`.
    RepositoryPathRelative,
    /// Reported as `remote package artifact collision`.
    ImmutableCollision { source: ImmutableCollisionError },
    /// Reported as `metadata upload is missing remote baseline`.
    MissingMetadataUploadBaseline,
    /// Reported as `remote object is missing ETag`.
    MissingRemoteEtag { key: String },
}

/// What a [`S3PublishError`] holds.
#[allow(inconsistent_fields)]
pub enum S3PublishErrorView {
    InvalidPackageId { source: ParsePackageIdErrorView },
    ResolveMetadata { source: ResolvePackageMetadataErrorView },
    ResolveTarget { source: ResolveS3PublishTargetErrorView },
    BuildBrewTemplateVariables { source: BrewTemplateVariableErrorView },
    BuildScoopTemplateVariables { source: RenderScoopJsonErrorView },
    RenderTemplate { source: RenderTemplateErrorView },
    MutableEntryNames { source: MutableEntryNamesErrorView },
    MissingArchiveName,
    ArtifactSha256Mismatch { path: Seq<char> },
    MissingPackage { package: Seq<char> },
    MissingBranch { package: Seq<char>, system: PackageSystem },
    MissingManifestTemplate { package: Seq<char>, system: PackageSystem },
    SelectPublishableDebPayloads { source: PublishableDebPayloadsFromManifestAndPackagesErrorView<CompareDebVersionError> },
    ParseRemoteDebEntries { source: RemoteDebPackageEntriesFromPackagesErrorView },
    RemoteRpmPayloadKeyLayout,
    InferRpmArchitecture,
    SelectPublishableRpmPayloads { source: PublishableLinuxPayloadsFromManifestAndRemoteKeysErrorView<CompareRpmVersionError> },
    ResolveRpmPayloadKey { source: LinuxPayloadKeyErrorView },
    UnsupportedRepositorySystem,
    RepositoryPathRelative,
    ImmutableCollision { source: ImmutableCollisionErrorView },
    MissingMetadataUploadBaseline,
    MissingRemoteEtag { key: Seq<char> },
}

impl DeepView for S3PublishError {
    type V = S3PublishErrorView;

    open spec fn deep_view(&self) -> S3PublishErrorView {
        match self {
            S3PublishError::InvalidPackageId { source } => S3PublishErrorView::InvalidPackageId {
                source: source.deep_view(),
            },
            S3PublishError::ResolveMetadata { source } => S3PublishErrorView::ResolveMetadata {
                source: source.deep_view(),
            },
            S3PublishError::ResolveTarget { source } => S3PublishErrorView::ResolveTarget {
                source: source.deep_view(),
            },
            S3PublishError::BuildBrewTemplateVariables { source } => S3PublishErrorView::BuildBrewTemplateVariables {
                source: source.deep_view(),
            },
            S3PublishError::BuildScoopTemplateVariables { source } => S3PublishErrorView::BuildScoopTemplateVariables {
                source: source.deep_view(),
            },
            S3PublishError::RenderTemplate { source } => S3PublishErrorView::RenderTemplate {
                source: source.deep_view(),
            },
            S3PublishError::MutableEntryNames { source } => S3PublishErrorView::MutableEntryNames {
                source: source.deep_view(),
            },
            S3PublishError::MissingArchiveName => S3PublishErrorView::MissingArchiveName,
            S3PublishError::ArtifactSha256Mismatch { path } => S3PublishErrorView::ArtifactSha256Mismatch {
                path: path@,
            },
            S3PublishError::MissingPackage { package } => S3PublishErrorView::MissingPackage {
                package: package@,
            },
            S3PublishError::MissingBranch { package, system } => S3PublishErrorView::MissingBranch {
                package: package@,
                system: *system,
            },
            S3PublishError::MissingManifestTemplate { package, system } => S3PublishErrorView::MissingManifestTemplate {
                package: package@,
                system: *system,
            },
            S3PublishError::SelectPublishableDebPayloads { source } => S3PublishErrorView::SelectPublishableDebPayloads {
                source: source.deep_view(),
            },
            S3PublishError::ParseRemoteDebEntries { source } => S3PublishErrorView::ParseRemoteDebEntries {
                source: source.deep_view(),
            },
            S3PublishError::RemoteRpmPayloadKeyLayout => S3PublishErrorView::RemoteRpmPayloadKeyLayout,
            S3PublishError::InferRpmArchitecture => S3PublishErrorView::InferRpmArchitecture,
            S3PublishError::SelectPublishableRpmPayloads { source } => S3PublishErrorView::SelectPublishableRpmPayloads {
                source: source.deep_view(),
            },
            S3PublishError::ResolveRpmPayloadKey { source } => S3PublishErrorView::ResolveRpmPayloadKey {
                source: source.deep_view(),
            },
            S3PublishError::UnsupportedRepositorySystem => S3PublishErrorView::UnsupportedRepositorySystem,
            S3PublishError::RepositoryPathRelative => S3PublishErrorView::RepositoryPathRelative,
            S3PublishError::ImmutableCollision { source } => S3PublishErrorView::ImmutableCollision {
                source: source.deep_view(),
            },
            S3PublishError::MissingMetadataUploadBaseline => S3PublishErrorView::MissingMetadataUploadBaseline,
            S3PublishError::MissingRemoteEtag { key } => S3PublishErrorView::MissingRemoteEtag {
                key: key@,
            },
        }
    }
}

impl S3PublishErrorView {
    /// The message of the error.
    pub open spec fn message(self) -> Seq<char> {
        match self {
            S3PublishErrorView::InvalidPackageId { .. } => "invalid package id"@,
            S3PublishErrorView::ResolveMetadata { .. } => "failed to resolve package metadata"@,
            S3PublishErrorView::ResolveTarget { .. } => "failed to resolve s3 publish target"@,
            S3PublishErrorView::BuildBrewTemplateVariables { .. } => "failed to build brew template variables"@,
            S3PublishErrorView::BuildScoopTemplateVariables { .. } => "failed to build scoop template variables"@,
            S3PublishErrorView::RenderTemplate { .. } => "failed to render package metadata template"@,
            S3PublishErrorView::MutableEntryNames { .. } => "failed to resolve mutable entry names"@,
            S3PublishErrorView::MissingArchiveName => "package artifact is missing archive name"@,
            S3PublishErrorView::ArtifactSha256Mismatch { .. } => "package artifact sha256 does not match manifest"@,
            S3PublishErrorView::MissingPackage { .. } => "package is missing from release contract"@,
            S3PublishErrorView::MissingBranch { .. } => "package system branch is missing from release contract"@,
            S3PublishErrorView::MissingManifestTemplate { .. } => "package system branch is missing manifest_template"@,
            S3PublishErrorView::SelectPublishableDebPayloads { .. } => "failed to select publishable deb payloads"@,
            S3PublishErrorView::ParseRemoteDebEntries { .. } => "failed to parse remote deb package entries"@,
            S3PublishErrorView::RemoteRpmPayloadKeyLayout => "remote rpm payload key has unexpected layout"@,
            S3PublishErrorView::InferRpmArchitecture => "failed to infer rpm architecture"@,
            S3PublishErrorView::SelectPublishableRpmPayloads { .. } => "failed to select publishable rpm payloads"@,
            S3PublishErrorView::ResolveRpmPayloadKey { .. } => "failed to resolve remote rpm payload key"@,
            S3PublishErrorView::UnsupportedRepositorySystem => "unsupported repository system"@,
            S3PublishErrorView::RepositoryPathRelative => "failed to make repository path relative"@,
            S3PublishErrorView::ImmutableCollision { .. } => "remote package artifact collision"@,
            S3PublishErrorView::MissingMetadataUploadBaseline => "metadata upload is missing remote baseline"@,
            S3PublishErrorView::MissingRemoteEtag { .. } => "remote object is missing ETag"@,
        }
    }
}

impl S3PublishError {
    /// The message of the error.
    pub fn to_string(&self) -> (text: String)
        ensures
            text@ == self.deep_view().message(),
    {
        match self {
            S3PublishError::InvalidPackageId { .. } => "invalid package id".to_owned(),
            S3PublishError::ResolveMetadata { .. } => "failed to resolve package metadata".to_owned(),
            S3PublishError::ResolveTarget { .. } => "failed to resolve s3 publish target".to_owned(),
            S3PublishError::BuildBrewTemplateVariables { .. } => "failed to build brew template variables".to_owned(),
            S3PublishError::BuildScoopTemplateVariables { .. } => "failed to build scoop template variables".to_owned(),
            S3PublishError::RenderTemplate { .. } => "failed to render package metadata template".to_owned(),
            S3PublishError::MutableEntryNames { .. } => "failed to resolve mutable entry names".to_owned(),
            S3PublishError::MissingArchiveName => "package artifact is missing archive name".to_owned(),
            S3PublishError::ArtifactSha256Mismatch { .. } => "package artifact sha256 does not match manifest".to_owned(),
            S3PublishError::MissingPackage { .. } => "package is missing from release contract".to_owned(),
            S3PublishError::MissingBranch { .. } => "package system branch is missing from release contract".to_owned(),
            S3PublishError::MissingManifestTemplate { .. } => "package system branch is missing manifest_template".to_owned(),
            S3PublishError::SelectPublishableDebPayloads { .. } => "failed to select publishable deb payloads".to_owned(),
            S3PublishError::ParseRemoteDebEntries { .. } => "failed to parse remote deb package entries".to_owned(),
            S3PublishError::RemoteRpmPayloadKeyLayout => "remote rpm payload key has unexpected layout".to_owned(),
            S3PublishError::InferRpmArchitecture => "failed to infer rpm architecture".to_owned(),
            S3PublishError::SelectPublishableRpmPayloads { .. } => "failed to select publishable rpm payloads".to_owned(),
            S3PublishError::ResolveRpmPayloadKey { .. } => "failed to resolve remote rpm payload key".to_owned(),
            S3PublishError::UnsupportedRepositorySystem => "unsupported repository system".to_owned(),
            S3PublishError::RepositoryPathRelative => "failed to make repository path relative".to_owned(),
            S3PublishError::ImmutableCollision { .. } => "remote package artifact collision".to_owned(),
            S3PublishError::MissingMetadataUploadBaseline => "metadata upload is missing remote baseline".to_owned(),
            S3PublishError::MissingRemoteEtag { .. } => "remote object is missing ETag".to_owned(),
        }
    }
}

/// The condition under which an entry replaces what is stored under its key: that there is
/// still nothing, or still the object with the tag that was read. An object without a tag
/// cannot be replaced.
pub fn remote_upload_condition(key: &str, found: bool, etag: Option<&str>) -> (condition: Result<
    UploadCondition,
    S3PublishError,
>)
    ensures
        outcome(condition) == if !found {
            Ok::<UploadConditionView, S3PublishErrorView>(UploadConditionView::IfMissing)
        } else {
            match etag.deep_view() {
                Some(etag) => Ok(UploadConditionView::IfMatch(etag)),
                None => Err(S3PublishErrorView::MissingRemoteEtag { key: key@ }),
            }
        },
{
    if !found {
        return Ok(UploadCondition::IfMissing);
    }
    match etag {
        Some(etag) => Ok(UploadCondition::IfMatch(etag.to_owned())),
        None => Err(S3PublishError::MissingRemoteEtag { key: key.to_owned() }),
    }
}

/// The extension of the packages of a Linux repository.
pub open spec fn repository_extension(system: PackageSystem) -> Option<Seq<char>> {
    match system {
        PackageSystem::Deb => Some("deb"@),
        PackageSystem::Rpm => Some("rpm"@),
        _ => None,
    }
}

/// The upload of a file of a repository: everything but packages is an entry.
pub open spec fn repository_upload(
    repository: Seq<char>,
    prefix: Seq<char>,
    extension: Seq<char>,
    file: Seq<char>,
) -> Result<PlannedUploadView, S3PublishErrorView> {
    match path_below(file, repository) {
        None => Err(S3PublishErrorView::RepositoryPathRelative),
        Some(rest) => {
            let relative = joined(parts(rest), "/"@);
            Ok(
                PlannedUploadView {
                    path: file,
                    key: below_prefix(prefix, relative),
                    entry: !has_suffix(relative, extension),
                    condition: None,
                },
            )
        },
    }
}

/// The uploads of the files from `from` on, after those already `found`.
pub open spec fn file_uploads(
    repository: Seq<char>,
    prefix: Seq<char>,
    extension: Seq<char>,
    files: Seq<Seq<char>>,
    from: int,
    found: Seq<PlannedUploadView>,
) -> Result<Seq<PlannedUploadView>, S3PublishErrorView>
    decreases files.len() - from,
{
    if from < 0 || from >= files.len() {
        Ok(found)
    } else {
        match repository_upload(repository, prefix, extension, files[from]) {
            Err(error) => Err(error),
            Ok(upload) => file_uploads(
                repository,
                prefix,
                extension,
                files,
                from + 1,
                found.push(upload),
            ),
        }
    }
}

fn upload_of(repository: &str, prefix: &RemotePrefix, extension: &str, file: &str) -> (upload: Result<
    PlannedUpload,
    S3PublishError,
>)
    ensures
        outcome(upload) == repository_upload(
            repository@,
            prefix.deep_view(),
            extension@,
            file@,
        ),
{
    let rest = match below(file, repository) {
        Some(rest) => rest,
        None => {
            return Err(S3PublishError::RepositoryPathRelative);
        },
    };
    let relative = path_to_slash(rest.as_str());
    Ok(
        PlannedUpload {
            path: file.to_owned(),
            key: prefix.join(relative.as_str()),
            entry: !ends_with(relative.as_str(), extension),
            condition: None,
        },
    )
}

/// The uploads of the files of a Linux repository.
pub fn repository_uploads(
    repository: &str,
    prefix: &RemotePrefix,
    system: PackageSystem,
    files: &Vec<String>,
) -> (uploads: Result<Vec<PlannedUpload>, S3PublishError>)
    ensures
        outcomes(uploads) == (match repository_extension(system) {
            None => Err(S3PublishErrorView::UnsupportedRepositorySystem),
            Some(extension) => file_uploads(
                repository@,
                prefix.deep_view(),
                extension,
                deep(files@),
                0,
                Seq::empty(),
            ),
        }),
{
    let extension = match system {
        PackageSystem::Deb => "deb",
        PackageSystem::Rpm => "rpm",
        PackageSystem::Brew | PackageSystem::Scoop => {
            return Err(S3PublishError::UnsupportedRepositorySystem);
        },
    };
    let mut uploads: Vec<PlannedUpload> = Vec::new();
    let mut i: usize = 0;
    while i < files.len()
        invariant
            i <= files@.len(),
            repository_extension(system) == Some(extension@),
            file_uploads(
                repository@,
                prefix.deep_view(),
                extension@,
                deep(files@),
                0,
                Seq::empty(),
            ) == file_uploads(
                repository@,
                prefix.deep_view(),
                extension@,
                deep(files@),
                i as int,
                deep(uploads@),
            ),
        decreases files@.len() - i,
    {
        assert(deep(files@)[i as int] == files@[i as int]@);
        match upload_of(repository, prefix, extension, files[i].as_str()) {
            Ok(upload) => {
                uploads.push(upload);
            },
            Err(error) => {
                return Err(error);
            },
        }
        i = i + 1;
    }
    Ok(uploads)
}

/// The upload of a package, where one is to be made: `actual_sha256` is the hash of its
/// file, `remote` what stands at its key.
pub fn plan_repository_upload(
    upload: PlannedUpload,
    actual_sha256: &str,
    remote: RemotePayloadState,
) -> (planned: Result<Option<PlannedUpload>, S3PublishError>)
    ensures
        outcome(planned) == (match immutable_upload(
            upload.key@,
            actual_sha256@,
            remote.deep_view(),
        ) {
            Err(source) => Err(S3PublishErrorView::ImmutableCollision { source }),
            Ok(None) => Ok(None),
            Ok(Some(condition)) => Ok(
                Some(
                    PlannedUploadView { condition: Some(condition), ..upload.deep_view() },
                ),
            ),
        }),
{
    match plan_immutable_upload(upload.key.as_str(), actual_sha256, remote) {
        Err(source) => Err(S3PublishError::ImmutableCollision { source }),
        Ok(None) => Ok(None),
        Ok(Some(condition)) => Ok(
            Some(
                PlannedUpload {
                    path: upload.path,
                    key: upload.key,
                    entry: upload.entry,
                    condition: Some(condition),
                },
            ),
        ),
    }
}

/// The uploads from `from` on with the conditions of the entries, after those already
/// `done`.
pub open spec fn with_entry_conditions(
    uploads: Seq<PlannedUploadView>,
    conditions: Map<Seq<char>, UploadConditionView>,
    from: int,
    done: Seq<PlannedUploadView>,
) -> Result<Seq<PlannedUploadView>, S3PublishErrorView>
    decreases uploads.len() - from,
{
    if from < 0 || from >= uploads.len() {
        Ok(done)
    } else {
        let upload = uploads[from];
        if !upload.entry {
            with_entry_conditions(uploads, conditions, from + 1, done.push(upload))
        } else if conditions.contains_key(upload.key) {
            with_entry_conditions(
                uploads,
                conditions,
                from + 1,
                done.push(PlannedUploadView { condition: Some(conditions[upload.key]), ..upload }),
            )
        } else {
            Err(S3PublishErrorView::MissingMetadataUploadBaseline)
        }
    }
}

/// Gives each entry the condition that was found for its key.
pub fn apply_entry_conditions(
    uploads: &Vec<PlannedUpload>,
    conditions: &TextMap<String, UploadCondition>,
) -> (result: Result<Vec<PlannedUpload>, S3PublishError>)
    ensures
        outcomes(result) == with_entry_conditions(
            deep(uploads@),
            conditions.deep_view(),
            0,
            Seq::empty(),
        ),
{
    let mut done: Vec<PlannedUpload> = Vec::new();
    let mut i: usize = 0;
    while i < uploads.len()
        invariant
            i <= uploads@.len(),
            with_entry_conditions(deep(uploads@), conditions.deep_view(), 0, Seq::empty())
                == with_entry_conditions(
                deep(uploads@),
                conditions.deep_view(),
                i as int,
                deep(done@),
            ),
        decreases uploads@.len() - i,
    {
        assert(deep(uploads@)[i as int] == uploads@[i as int].deep_view());
        let mut upload = uploads[i].clone();
        if upload.entry {
            match conditions.value(upload.key.as_str()) {
                Some(condition) => {
                    upload.condition = Some(condition.clone());
                },
                None => {
                    return Err(S3PublishError::MissingMetadataUploadBaseline);
                },
            }
        }
        done.push(upload);
        i = i + 1;
    }
    Ok(done)
}

// ---------------------------------------------------------------------------
// Upload order
// ---------------------------------------------------------------------------
/// An upload with its rank.
pub struct RankedUpload {
    pub rank: u8,
    pub upload: PlannedUploadView,
}

/// By rank, and among equal ranks by key, one upload comes before the other.
pub open spec fn comes_before(left: RankedUpload, right: RankedUpload) -> bool {
    left.rank < right.rank || (left.rank == right.rank && text_lt(
        left.upload.key,
        right.upload.key,
    ))
}

/// How many of the first `count` uploads of an ordered sequence come no later than `item`.
pub open spec fn insertion_place(ordered: Seq<RankedUpload>, item: RankedUpload, count: int) -> int
    decreases count,
{
    if count <= 0 {
        0
    } else if comes_before(item, ordered[count - 1]) {
        insertion_place(ordered, item, count - 1)
    } else {
        count
    }
}

/// The uploads in the order of rank and key; uploads that are equal in both keep their
/// order.
pub open spec fn in_order(uploads: Seq<RankedUpload>) -> Seq<RankedUpload>
    decreases uploads.len(),
{
    if uploads.len() == 0 {
        Seq::empty()
    } else {
        let ordered = in_order(uploads.drop_last());
        ordered.insert(
            insertion_place(ordered, uploads.last(), ordered.len() as int),
            uploads.last(),
        )
    }
}

/// The rank of an upload in a Linux repository.
pub open spec fn repository_rank(system: PackageSystem, key: Seq<char>) -> u8 {
    match upload_rank(system, key) {
        Ok(rank) => rank,
        Err(_) => 2,
    }
}

/// The rank of an upload in a publication: entries come last.
pub open spec fn publication_rank(entry: bool) -> u8 {
    if entry {
        1
    } else {
        0
    }
}

/// The uploads with the ranks that they have in a Linux repository.
pub open spec fn repository_ranked(system: PackageSystem, uploads: Seq<PlannedUploadView>) -> Seq<
    RankedUpload,
> {
    uploads.map_values(
        |upload: PlannedUploadView|
            RankedUpload { rank: repository_rank(system, upload.key), upload },
    )
}

/// The uploads with the ranks that they have in a publication.
pub open spec fn publication_ranked(uploads: Seq<PlannedUploadView>) -> Seq<RankedUpload> {
    uploads.map_values(
        |upload: PlannedUploadView| RankedUpload { rank: publication_rank(upload.entry), upload },
    )
}

/// The uploads without their ranks.
pub open spec fn unranked(uploads: Seq<RankedUpload>) -> Seq<PlannedUploadView> {
    uploads.map_values(|ranked: RankedUpload| ranked.upload)
}

/// The uploads that `ranks` and `uploads` hold side by side.
spec fn side_by_side(ranks: Seq<u8>, uploads: Seq<PlannedUpload>) -> Seq<RankedUpload> {
    Seq::new(
        uploads.len(),
        |i: int| RankedUpload { rank: ranks[i], upload: uploads[i].deep_view() },
    )
}

/// Orders uploads by rank and key.
fn order_uploads(uploads: &Vec<PlannedUpload>, ranks: &Vec<u8>) -> (ordered: Vec<PlannedUpload>)
    requires
        uploads@.len() == ranks@.len(),
    ensures
        deep(ordered@) == unranked(in_order(side_by_side(ranks@, uploads@))),
{
    let ghost all = side_by_side(ranks@, uploads@);
    let mut ordered: Vec<PlannedUpload> = Vec::new();
    let mut ordered_ranks: Vec<u8> = Vec::new();
    let mut i: usize = 0;
    assert(all.take(0) =~= Seq::empty());
    assert(side_by_side(ordered_ranks@, ordered@) =~= Seq::empty());
    while i < uploads.len()
        invariant
            i <= uploads@.len() == ranks@.len(),
            all == side_by_side(ranks@, uploads@),
            ordered@.len() == ordered_ranks@.len(),
            side_by_side(ordered_ranks@, ordered@) == in_order(all.take(i as int)),
        decreases uploads@.len() - i,
    {
        let ghost before = side_by_side(ordered_ranks@, ordered@);
        let ghost item = all[i as int];
        let rank = ranks[i];
        let mut place: usize = ordered.len();
        while place > 0 && (rank < ordered_ranks[place - 1] || (rank == ordered_ranks[place - 1]
            && less_text(uploads[i].key.as_str(), ordered[place - 1].key.as_str())))
            invariant
                place <= ordered@.len() == ordered_ranks@.len(),
                i < uploads@.len() == ranks@.len(),
                rank == ranks@[i as int],
                all == side_by_side(ranks@, uploads@),
                item == all[i as int],
                before == side_by_side(ordered_ranks@, ordered@),
                insertion_place(before, item, before.len() as int) == insertion_place(
                    before,
                    item,
                    place as int,
                ),
            decreases place,
        {
            place = place - 1;
        }
        ordered.insert(place, uploads[i].clone());
        ordered_ranks.insert(place, rank);
        proof {
            assert(all.take(i + 1).drop_last() =~= all.take(i as int));
            assert(all.take(i + 1).last() == item);
            assert(side_by_side(ordered_ranks@, ordered@) =~= before.insert(place as int, item));
        }
        i = i + 1;
    }
    assert(all.take(i as int) =~= all);
    assert(deep(ordered@) =~= unranked(side_by_side(ordered_ranks@, ordered@)));
    ordered
}

/// The uploads of a Linux repository, packages first and the files that announce them last.
pub fn order_repository_uploads(system: PackageSystem, uploads: &Vec<PlannedUpload>) -> (ordered:
    Vec<PlannedUpload>)
    ensures
        deep(ordered@) == unranked(in_order(repository_ranked(system, deep(uploads@)))),
{
    let mut ranks: Vec<u8> = Vec::new();
    let mut i: usize = 0;
    while i < uploads.len()
        invariant
            i <= uploads@.len(),
            ranks@.len() == i,
            forall|j: int|
                0 <= j < i ==> #[trigger] ranks@[j] == repository_rank(system, uploads@[j].key@),
        decreases uploads@.len() - i,
    {
        let rank = match linux_repository_upload_order(system, uploads[i].key.as_str()) {
            Ok(rank) => rank,
            Err(_) => 2,
        };
        ranks.push(rank);
        i = i + 1;
    }
    assert(side_by_side(ranks@, uploads@) =~= repository_ranked(system, deep(uploads@)));
    order_uploads(uploads, &ranks)
}

/// The uploads of a publication, entries last.
pub fn order_publish_uploads(uploads: &Vec<PlannedUpload>) -> (ordered: Vec<PlannedUpload>)
    ensures
        deep(ordered@) == unranked(in_order(publication_ranked(deep(uploads@)))),
{
    let mut ranks: Vec<u8> = Vec::new();
    let mut i: usize = 0;
    while i < uploads.len()
        invariant
            i <= uploads@.len(),
            ranks@.len() == i,
            forall|j: int|
                0 <= j < i ==> #[trigger] ranks@[j] == publication_rank(uploads@[j].entry),
        decreases uploads@.len() - i,
    {
        ranks.push(publish_upload_order(uploads[i].entry));
        i = i + 1;
    }
    assert(side_by_side(ranks@, uploads@) =~= publication_ranked(deep(uploads@)));
    order_uploads(uploads, &ranks)
}

// ---------------------------------------------------------------------------
// Debian repositories
// ---------------------------------------------------------------------------
/// The components of a Debian repository.
pub open spec fn apt_components() -> Seq<Seq<char>> {
    seq!["main"@, "contrib"@, "non-free"@]
}

/// The architectures of a Debian repository.
pub open spec fn apt_architectures() -> Seq<Seq<char>> {
    seq!["amd64"@, "arm64"@, "armhf"@, "i386"@]
}

/// The component of the index at `at`.
pub open spec fn component_at(at: int) -> Seq<char> {
    apt_components()[at / 4]
}

/// The architecture of the index at `at`.
pub open spec fn architecture_at(at: int) -> Seq<char> {
    apt_architectures()[at % 4]
}

fn apt_component(at: usize) -> (name: &'static str)
    requires
        at < 12,
    ensures
        name@ == component_at(at as int),
{
    if at < 4 {
        "main"
    } else if at < 8 {
        "contrib"
    } else {
        "non-free"
    }
}

fn apt_architecture(at: usize) -> (name: &'static str)
    requires
        at < 12,
    ensures
        name@ == architecture_at(at as int),
{
    let column: usize = at % 4;
    if column == 0 {
        "amd64"
    } else if column == 1 {
        "arm64"
    } else if column == 2 {
        "armhf"
    } else {
        "i386"
    }
}

/// The directory of an index of a suite.
pub open spec fn index_directory(suite: Seq<char>, at: int) -> Seq<char> {
    "dists/"@ + suite + "/"@ + component_at(at) + "/binary-"@ + architecture_at(at)
}

fn index_base(suite: &str, at: usize) -> (directory: String)
    requires
        at < 12,
    ensures
        directory@ == index_directory(suite@, at as int),
{
    let mut directory = "dists/".to_owned();
    directory.append(suite);
    directory.append("/");
    directory.append(apt_component(at));
    directory.append("/binary-");
    directory.append(apt_architecture(at));
    directory
}

/// The keys of the first `count` `Packages` indexes of a suite.
pub open spec fn index_keys(prefix: Seq<char>, suite: Seq<char>, count: int) -> Seq<Seq<char>>
    decreases count,
{
    if count <= 0 {
        Seq::empty()
    } else {
        index_keys(prefix, suite, count - 1).push(
            below_prefix(prefix, index_directory(suite, count - 1) + "/Packages"@),
        )
    }
}

/// The keys of the `Packages` indexes of a suite: one for each component and architecture.
pub fn deb_packages_keys(prefix: &RemotePrefix, suite: &str) -> (keys: Vec<String>)
    ensures
        deep(keys@) == index_keys(prefix.deep_view(), suite@, 12),
{
    let mut keys: Vec<String> = Vec::new();
    let mut at: usize = 0;
    while at < 12
        invariant
            at <= 12,
            deep(keys@) == index_keys(prefix.deep_view(), suite@, at as int),
        decreases 12 - at,
    {
        let mut relative = index_base(suite, at);
        relative.append("/Packages");
        keys.push(prefix.join(relative.as_str()));
        at = at + 1;
    }
    keys
}

/// The metadata of a suite: its release files, then those of the first `count` indexes.
pub open spec fn suite_metadata(suite: Seq<char>, count: int) -> Seq<Seq<char>>
    decreases count,
{
    if count <= 0 {
        seq![
            "dists/"@ + suite + "/Release"@,
            "dists/"@ + suite + "/Release.gpg"@,
            "dists/"@ + suite + "/InRelease"@,
        ]
    } else {
        let directory = index_directory(suite, count - 1);
        suite_metadata(suite, count - 1).push(directory + "/Packages"@).push(
            directory + "/Packages.gz"@,
        ).push(directory + "/Release"@)
    }
}

fn suite_file(suite: &str, name: &str) -> (path: String)
    ensures
        path@ == "dists/"@ + suite@ + name@,
{
    let mut path = "dists/".to_owned();
    path.append(suite);
    path.append(name);
    path
}

fn index_file(suite: &str, at: usize, name: &str) -> (path: String)
    requires
        at < 12,
    ensures
        path@ == index_directory(suite@, at as int) + name@,
{
    let mut path = index_base(suite, at);
    path.append(name);
    path
}

/// The metadata of a suite, as paths below the prefix.
pub fn deb_entry_metadata_relative_paths(suite: &str) -> (paths: Vec<String>)
    ensures
        deep(paths@) == suite_metadata(suite@, 12),
{
    let mut paths: Vec<String> = Vec::new();
    paths.push(suite_file(suite, "/Release"));
    paths.push(suite_file(suite, "/Release.gpg"));
    paths.push(suite_file(suite, "/InRelease"));
    assert(deep(paths@) =~= suite_metadata(suite@, 0));
    let mut at: usize = 0;
    while at < 12
        invariant
            at <= 12,
            deep(paths@) == suite_metadata(suite@, at as int),
        decreases 12 - at,
    {
        paths.push(index_file(suite, at, "/Packages"));
        paths.push(index_file(suite, at, "/Packages.gz"));
        paths.push(index_file(suite, at, "/Release"));
        at = at + 1;
    }
    paths
}

/// A text as one word of a shell command: in single quotes, each single quote inside
/// written as a quoted one between two quoted parts.
pub open spec fn shell_word(value: Seq<char>) -> Seq<char> {
    "'"@ + replaced(value, '\'', "'\\''"@) + "'"@
}

/// A text as one word of a shell command.
pub fn shell_quote(value: &str) -> (word: String)
    ensures
        word@ == shell_word(value@),
{
    let mut word = "'".to_owned();
    word.append(replace_char(value, '\'', "'\\''").as_str());
    word.append("'");
    word
}

/// A fingerprint without white space and in upper case.
pub open spec fn normal_fingerprint(value: Seq<char>) -> Seq<char>
    decreases value.len(),
{
    if value.len() == 0 {
        Seq::empty()
    } else if is_space(value.last()) {
        normal_fingerprint(value.drop_last())
    } else {
        normal_fingerprint(value.drop_last()) + upper_case(value.last())
    }
}

/// A fingerprint without white space and in upper case.
pub fn normalize_fingerprint(value: &str) -> (fingerprint: String)
    ensures
        fingerprint@ == normal_fingerprint(value@),
{
    let chars = chars_of(value);
    let mut fingerprint = String::new();
    let mut i: usize = 0;
    assert(chars@.take(0) =~= Seq::empty());
    while i < chars.len()
        invariant
            i <= chars@.len(),
            fingerprint@ == normal_fingerprint(chars@.take(i as int)),
        decreases chars@.len() - i,
    {
        assert(chars@.take(i + 1).drop_last() =~= chars@.take(i as int));
        if !is_whitespace(chars[i]) {
            fingerprint.append(to_upper_case(chars[i]).as_str());
        }
        i = i + 1;
    }
    assert(chars@.take(i as int) =~= chars@);
    fingerprint
}

/// The commands that write one index.
pub open spec fn index_commands(suite: Seq<char>, at: int) -> Seq<char> {
    let base = index_directory(suite, at);
    let component = component_at(at);
    let architecture = architecture_at(at);
    "mkdir -p "@ + base + "\nmkdir -p pool/"@ + component
        + "\ndpkg-scanpackages --multiversion --arch "@ + architecture + " pool/"@ + component
        + " /dev/null > "@ + base + "/Packages\ngzip -n -c "@ + base + "/Packages > "@ + base
        + "/Packages.gz\nprintf 'Archive: "@ + suite + "\\nComponent: "@ + component
        + "\\nArchitecture: "@ + architecture + "\\n' > "@ + base + "/Release\n"@
}

/// The preparation, then the commands that write the first `count` indexes.
pub open spec fn indexing_commands(suite: Seq<char>, count: int) -> Seq<char>
    decreases count,
{
    if count <= 0 {
        "set -eu\nexport DEBIAN_FRONTEND=noninteractive\napt-get update -qq\napt-get install --assume-yes -qq dpkg-dev apt-utils gnupg gzip\ncd /apt-repository\n"@
    } else {
        indexing_commands(suite, count - 1) + index_commands(suite, count - 1)
    }
}

/// The commands that write the release file.
pub open spec fn release_commands(suite: Seq<char>) -> Seq<char> {
    "mkdir -p dists/"@ + suite + "\napt-ftparchive -o "@ + shell_word(
        "APT::FTPArchive::Release::Origin=genmeta"@,
    ) + " -o "@ + shell_word("APT::FTPArchive::Release::Label=genmeta"@) + " -o "@ + shell_word(
        "APT::FTPArchive::Release::Suite=stable"@,
    ) + " -o "@ + shell_word("APT::FTPArchive::Release::Codename="@ + suite) + " -o "@ + shell_word(
        "APT::FTPArchive::Release::Version=2025"@,
    ) + " -o "@ + shell_word("APT::FTPArchive::Release::Architectures=amd64 arm64 armhf i386"@)
        + " -o "@ + shell_word("APT::FTPArchive::Release::Components=main contrib non-free"@)
        + " -o "@ + shell_word(
        "APT::FTPArchive::Release::Description=Genmeta Package Archives"@,
    ) + " release "@ + shell_word("dists/"@ + suite) + " > "@ + shell_word(
        "dists/"@ + suite + "/Release"@,
    ) + "\n"@
}

/// The commands that sign the release file.
pub open spec fn signing_commands(suite: Seq<char>, fingerprint: Seq<char>, passphrase: Seq<char>) -> Seq<
    char,
> {
    "rm -rf /tmp/xtask-apt-gpg\nmkdir -m 700 /tmp/xtask-apt-gpg\ngpg --batch --homedir /tmp/xtask-apt-gpg --import /apt-secrets/key.asc\nactual=\"$(gpg --batch --homedir /tmp/xtask-apt-gpg --with-colons --fingerprint "@
        + fingerprint
        + " | awk -F: '$1 == \"fpr\" { print toupper($10); exit }')\"\nif [ \"$actual\" != "@
        + fingerprint
        + " ]; then echo 'gpg fingerprint did not match imported key' >&2; exit 1; fi\ngpg --batch --yes --homedir /tmp/xtask-apt-gpg --pinentry-mode loopback --default-key "@
        + fingerprint + passphrase + " --detach-sign --armor -o dists/"@ + suite
        + "/Release.gpg dists/"@ + suite
        + "/Release\ngpg --batch --yes --homedir /tmp/xtask-apt-gpg --pinentry-mode loopback --default-key "@
        + fingerprint + passphrase + " --clearsign -o dists/"@ + suite + "/InRelease dists/"@
        + suite + "/Release\n"@
}

/// The script that writes and signs the metadata of a Debian repository.
pub open spec fn metadata_script(suite: Seq<char>, fingerprint: Seq<char>, has_passphrase: bool) -> Seq<
    char,
> {
    indexing_commands(suite, 12) + release_commands(suite) + signing_commands(
        suite,
        shell_word(normal_fingerprint(fingerprint)),
        if has_passphrase {
            " --passphrase-file /apt-secrets/passphrase"@
        } else {
            ""@
        },
    )
}

fn write_index(suite: &str, at: usize) -> (commands: String)
    requires
        at < 12,
    ensures
        commands@ == index_commands(suite@, at as int),
{
    let base = index_base(suite, at);
    let component = apt_component(at);
    let architecture = apt_architecture(at);
    let mut commands = "mkdir -p ".to_owned();
    commands.append(base.as_str());
    commands.append("\nmkdir -p pool/");
    commands.append(component);
    commands.append("\ndpkg-scanpackages --multiversion --arch ");
    commands.append(architecture);
    commands.append(" pool/");
    commands.append(component);
    commands.append(" /dev/null > ");
    commands.append(base.as_str());
    commands.append("/Packages\ngzip -n -c ");
    commands.append(base.as_str());
    commands.append("/Packages > ");
    commands.append(base.as_str());
    commands.append("/Packages.gz\nprintf 'Archive: ");
    commands.append(suite);
    commands.append("\\nComponent: ");
    commands.append(component);
    commands.append("\\nArchitecture: ");
    commands.append(architecture);
    commands.append("\\n' > ");
    commands.append(base.as_str());
    commands.append("/Release\n");
    commands
}

fn write_release(suite: &str) -> (commands: String)
    ensures
        commands@ == release_commands(suite@),
{
    let mut codename = "APT::FTPArchive::Release::Codename=".to_owned();
    codename.append(suite);
    let mut directory = "dists/".to_owned();
    directory.append(suite);
    let mut commands = "mkdir -p dists/".to_owned();
    commands.append(suite);
    commands.append("\napt-ftparchive -o ");
    commands.append(shell_quote("APT::FTPArchive::Release::Origin=genmeta").as_str());
    commands.append(" -o ");
    commands.append(shell_quote("APT::FTPArchive::Release::Label=genmeta").as_str());
    commands.append(" -o ");
    commands.append(shell_quote("APT::FTPArchive::Release::Suite=stable").as_str());
    commands.append(" -o ");
    commands.append(shell_quote(codename.as_str()).as_str());
    commands.append(" -o ");
    commands.append(shell_quote("APT::FTPArchive::Release::Version=2025").as_str());
    commands.append(" -o ");
    commands.append(
        shell_quote("APT::FTPArchive::Release::Architectures=amd64 arm64 armhf i386").as_str(),
    );
    commands.append(" -o ");
    commands.append(
        shell_quote("APT::FTPArchive::Release::Components=main contrib non-free").as_str(),
    );
    commands.append(" -o ");
    commands.append(
        shell_quote("APT::FTPArchive::Release::Description=Genmeta Package Archives").as_str(),
    );
    commands.append(" release ");
    commands.append(shell_quote(directory.as_str()).as_str());
    commands.append(" > ");
    commands.append(shell_quote(suite_file(suite, "/Release").as_str()).as_str());
    commands.append("\n");
    commands
}

fn write_signing(suite: &str, fingerprint: &str, passphrase: &str) -> (commands: String)
    ensures
        commands@ == signing_commands(suite@, fingerprint@, passphrase@),
{
    let mut commands =
        "rm -rf /tmp/xtask-apt-gpg\nmkdir -m 700 /tmp/xtask-apt-gpg\ngpg --batch --homedir /tmp/xtask-apt-gpg --import /apt-secrets/key.asc\nactual=\"$(gpg --batch --homedir /tmp/xtask-apt-gpg --with-colons --fingerprint ".to_owned();
    commands.append(fingerprint);
    commands.append(
        " | awk -F: '$1 == \"fpr\" { print toupper($10); exit }')\"\nif [ \"$actual\" != ",
    );
    commands.append(fingerprint);
    commands.append(
        " ]; then echo 'gpg fingerprint did not match imported key' >&2; exit 1; fi\ngpg --batch --yes --homedir /tmp/xtask-apt-gpg --pinentry-mode loopback --default-key ",
    );
    commands.append(fingerprint);
    commands.append(passphrase);
    commands.append(" --detach-sign --armor -o dists/");
    commands.append(suite);
    commands.append("/Release.gpg dists/");
    commands.append(suite);
    commands.append(
        "/Release\ngpg --batch --yes --homedir /tmp/xtask-apt-gpg --pinentry-mode loopback --default-key ",
    );
    commands.append(fingerprint);
    commands.append(passphrase);
    commands.append(" --clearsign -o dists/");
    commands.append(suite);
    commands.append("/InRelease dists/");
    commands.append(suite);
    commands.append("/Release\n");
    commands
}

/// The script that writes and signs the metadata of a Debian repository.
pub fn deb_metadata_script(suite: &str, fingerprint: &str, has_passphrase: bool) -> (script: String)
    ensures
        script@ == metadata_script(suite@, fingerprint@, has_passphrase),
{
    let mut script =
        "set -eu\nexport DEBIAN_FRONTEND=noninteractive\napt-get update -qq\napt-get install --assume-yes -qq dpkg-dev apt-utils gnupg gzip\ncd /apt-repository\n".to_owned();
    let mut at: usize = 0;
    while at < 12
        invariant
            at <= 12,
            script@ == indexing_commands(suite@, at as int),
        decreases 12 - at,
    {
        script.append(write_index(suite, at).as_str());
        at = at + 1;
    }
    script.append(write_release(suite).as_str());
    let quoted = shell_quote(normalize_fingerprint(fingerprint).as_str());
    let passphrase = if has_passphrase {
        " --passphrase-file /apt-secrets/passphrase"
    } else {
        ""
    };
    script.append(write_signing(suite, quoted.as_str(), passphrase).as_str());
    script
}

/// The words of a command that runs a container which sees `mount` and runs `script` in a
/// shell.
pub open spec fn container_words(mounts: Seq<Seq<char>>, image: Seq<char>, script: Seq<char>) -> Seq<
    Seq<char>,
> {
    seq!["run"@, "--rm"@] + mount_words(mounts) + seq![image, "/bin/sh"@, "-lc"@, script]
}

/// The words that mount directories in a container.
pub open spec fn mount_words(mounts: Seq<Seq<char>>) -> Seq<Seq<char>>
    decreases mounts.len(),
{
    if mounts.len() == 0 {
        Seq::empty()
    } else {
        mount_words(mounts.drop_last()).push("--volume"@).push(mounts.last())
    }
}

fn suffixed(text: &str, suffix: &str) -> (result: String)
    ensures
        result@ == text@ + suffix@,
{
    let mut result = text.to_owned();
    result.append(suffix);
    result
}

/// The words of the Docker command that writes and signs the metadata of a Debian
/// repository.
pub fn deb_metadata_command(repository: &str, secrets: &str, script: &str) -> (words: Vec<String>)
    ensures
        deep(words@) == container_words(
            seq![repository@ + ":/apt-repository"@, secrets@ + ":/apt-secrets:ro"@],
            "debian:bookworm"@,
            script@,
        ),
{
    proof {
        reveal_with_fuel(mount_words, 3);
    }
    let mut words: Vec<String> = Vec::new();
    words.push("run".to_owned());
    words.push("--rm".to_owned());
    words.push("--volume".to_owned());
    words.push(suffixed(repository, ":/apt-repository"));
    words.push("--volume".to_owned());
    words.push(suffixed(secrets, ":/apt-secrets:ro"));
    words.push("debian:bookworm".to_owned());
    words.push("/bin/sh".to_owned());
    words.push("-lc".to_owned());
    words.push(script.to_owned());
    proof {
        let mounts = seq![repository@ + ":/apt-repository"@, secrets@ + ":/apt-secrets:ro"@];
        assert(mounts.drop_last() =~= seq![repository@ + ":/apt-repository"@]);
        assert(mounts.drop_last().drop_last() =~= Seq::empty());
        assert(deep(words@) =~= container_words(mounts, "debian:bookworm"@, script@));
    }
    words
}

/// The words of the Docker command that writes the metadata of an RPM repository.
pub fn rpm_repository_command(repository: &str) -> (words: Vec<String>)
    ensures
        deep(words@) == container_words(
            seq![repository@ + ":/rpm-repository"@],
            "fedora:40"@,
            "set -euo pipefail; dnf -y -q install createrepo_c; cd /rpm-repository; createrepo_c ."@,
        ),
{
    proof {
        reveal_with_fuel(mount_words, 2);
    }
    let mut words: Vec<String> = Vec::new();
    words.push("run".to_owned());
    words.push("--rm".to_owned());
    words.push("--volume".to_owned());
    words.push(suffixed(repository, ":/rpm-repository"));
    words.push("fedora:40".to_owned());
    words.push("/bin/sh".to_owned());
    words.push("-lc".to_owned());
    words.push(
        "set -euo pipefail; dnf -y -q install createrepo_c; cd /rpm-repository; createrepo_c .".to_owned(),
    );
    proof {
        let mounts = seq![repository@ + ":/rpm-repository"@];
        assert(mounts.drop_last() =~= Seq::empty());
        assert(deep(words@) =~= container_words(
            mounts,
            "fedora:40"@,
            "set -euo pipefail; dnf -y -q install createrepo_c; cd /rpm-repository; createrepo_c ."@,
        ));
    }
    words
}

// ---------------------------------------------------------------------------
// What a Linux repository is made of
// ---------------------------------------------------------------------------
/// What a Debian repository is made of: packages that are new, and the packages of its
/// indexes, which stay.
#[derive(Debug, PartialEq, Eq)]
pub struct DebRepositoryPlan {
    pub local: Vec<LinuxPackagePayload>,
    pub retained: Vec<RemoteDebPackageEntry>,
}

/// What a [`DebRepositoryPlan`] holds.
pub struct DebRepositoryPlanView {
    pub local: Seq<LinuxPackagePayloadView>,
    pub retained: Seq<RemoteDebPackageEntryView>,
}

impl DeepView for DebRepositoryPlan {
    type V = DebRepositoryPlanView;

    open spec fn deep_view(&self) -> DebRepositoryPlanView {
        DebRepositoryPlanView {
            local: deep(self.local@),
            retained: deep(self.retained@),
        }
    }
}

/// What an RPM repository is made of: packages that are new, and the packages that are
/// stored, which stay.
#[derive(Debug, PartialEq, Eq)]
pub struct RpmRepositoryPlan {
    pub local: Vec<LinuxPackagePayload>,
    pub retained: Vec<LinuxPackagePayload>,
}

/// What a [`RpmRepositoryPlan`] holds.
pub struct RpmRepositoryPlanView {
    pub local: Seq<LinuxPackagePayloadView>,
    pub retained: Seq<LinuxPackagePayloadView>,
}

impl DeepView for RpmRepositoryPlan {
    type V = RpmRepositoryPlanView;

    open spec fn deep_view(&self) -> RpmRepositoryPlanView {
        RpmRepositoryPlanView {
            local: deep(self.local@),
            retained: deep(self.retained@),
        }
    }
}

/// The order of Debian versions.
pub open spec fn deb_ordering() -> spec_fn(Seq<char>, Seq<char>) -> Result<
    Ordering,
    CompareDebVersionError,
> {
    |left: Seq<char>, right: Seq<char>| deb_compared(left, right)
}

/// The order of RPM versions.
pub open spec fn rpm_ordering() -> spec_fn(Seq<char>, Seq<char>) -> Result<
    Ordering,
    CompareRpmVersionError,
> {
    |left: Seq<char>, right: Seq<char>| rpm_compared(left, right)
}

/// The entries of the indexes from `from` on, after those already `found`.
pub open spec fn indexed_entries(
    contents: Seq<Seq<char>>,
    from: int,
    found: Seq<RemoteDebPackageEntryView>,
) -> Result<Seq<RemoteDebPackageEntryView>, RemoteDebPackageEntriesFromPackagesErrorView>
    decreases contents.len() - from,
{
    if from < 0 || from >= contents.len() {
        Ok(found)
    } else {
        match index_entries(contents[from]) {
            Err(error) => Err(error),
            Ok(entries) => indexed_entries(contents, from + 1, found + entries),
        }
    }
}

/// What a Debian repository is made of, from the manifest and the published indexes: the
/// payloads that are newer than what is published, and every entry of the indexes that they
/// do not replace.
pub open spec fn deb_repository(manifest: PackageManifestView, contents: Seq<Seq<char>>) -> Result<
    DebRepositoryPlanView,
    S3PublishErrorView,
> {
    match publishable_by_indexes(deb_ordering(), manifest, contents) {
        Err(source) => Err(S3PublishErrorView::SelectPublishableDebPayloads { source }),
        Ok(local) => match indexed_entries(contents, 0, Seq::empty()) {
            Err(source) => Err(S3PublishErrorView::ParseRemoteDebEntries { source }),
            Ok(entries) => Ok(
                DebRepositoryPlanView { local, retained: retained_entries(local, entries) },
            ),
        },
    }
}

fn entries_in_indexes(contents: &Vec<String>) -> (result: Result<
    Vec<RemoteDebPackageEntry>,
    RemoteDebPackageEntriesFromPackagesError,
>)
    ensures
        outcomes(result) == indexed_entries(deep(contents@), 0, Seq::empty()),
{
    let mut all: Vec<RemoteDebPackageEntry> = Vec::new();
    let mut i: usize = 0;
    while i < contents.len()
        invariant
            i <= contents@.len(),
            indexed_entries(deep(contents@), 0, Seq::empty()) == indexed_entries(
                deep(contents@),
                i as int,
                deep(all@),
            ),
        decreases contents@.len() - i,
    {
        assert(deep(contents@)[i as int] == contents@[i as int]@);
        match remote_deb_package_entries_from_packages(contents[i].as_str()) {
            Ok(entries) => {
                let ghost before = all@;
                let ghost found = entries@;
                let mut entries = entries;
                all.append(&mut entries);
                assert(all@ == before + found);
                assert(deep(all@) =~= deep(before) + deep(found));
            },
            Err(error) => {
                return Err(error);
            },
        }
        i = i + 1;
    }
    Ok(all)
}

/// What a Debian repository is made of, from the manifest and the published `Packages`
/// indexes.
pub fn plan_deb_repository(manifest: &PackageManifest, remote_packages: &Vec<String>) -> (plan:
    Result<DebRepositoryPlan, S3PublishError>)
    ensures
        outcome(plan) == deb_repository(manifest.deep_view(), deep(remote_packages@)),
{
    assert(compares_all::<CompareDebVersionError, _>(compare_deb_versions));
    assert(compares_as(compare_deb_versions, deb_ordering()));
    let local = match publishable_deb_payloads_from_manifest_and_packages(
        manifest,
        remote_packages,
        compare_deb_versions,
    ) {
        Ok(local) => local,
        Err(source) => {
            return Err(S3PublishError::SelectPublishableDebPayloads { source });
        },
    };
    let entries = match entries_in_indexes(remote_packages) {
        Ok(entries) => entries,
        Err(source) => {
            return Err(S3PublishError::ParseRemoteDebEntries { source });
        },
    };
    let retained = entries_not_local(&local, &entries);
    Ok(DebRepositoryPlan { local, retained })
}

/// The keys of RPM packages.
pub open spec fn rpm_keys(keys: Seq<Seq<char>>) -> Seq<Seq<char>>
    decreases keys.len(),
{
    if keys.len() == 0 {
        Seq::empty()
    } else if has_suffix(keys.last(), ".rpm"@) {
        rpm_keys(keys.drop_last()).push(keys.last())
    } else {
        rpm_keys(keys.drop_last())
    }
}

/// The payload that the key of an RPM package stands for. A key outside the prefix is
/// taken as it stands.
pub open spec fn rpm_key_payload(prefix: Seq<char>, key: Seq<char>) -> Result<
    LinuxPackagePayloadView,
    S3PublishErrorView,
> {
    let relative = match key_below(prefix, key) {
        Some(relative) => relative,
        None => key,
    };
    let names = pieces(relative, "/"@);
    if names.len() < 3 {
        Err(S3PublishErrorView::RemoteRpmPayloadKeyLayout)
    } else {
        match rpm_file_architecture(names.last()) {
            None => Err(S3PublishErrorView::InferRpmArchitecture),
            Some(architecture) => Ok(
                LinuxPackagePayloadView {
                    package: names[0],
                    version: names[1],
                    architecture,
                    archive_name: names.last(),
                    path: relative,
                },
            ),
        }
    }
}

/// The payloads of the keys from `from` on, after those already `found`.
pub open spec fn rpm_key_payloads(
    prefix: Seq<char>,
    keys: Seq<Seq<char>>,
    from: int,
    found: Seq<LinuxPackagePayloadView>,
) -> Result<Seq<LinuxPackagePayloadView>, S3PublishErrorView>
    decreases keys.len() - from,
{
    if from < 0 || from >= keys.len() {
        Ok(found)
    } else {
        match rpm_key_payload(prefix, keys[from]) {
            Err(error) => Err(error),
            Ok(payload) => rpm_key_payloads(prefix, keys, from + 1, found.push(payload)),
        }
    }
}

/// What an RPM repository is made of, from the manifest and the published keys: the payloads
/// that are newer than what is published, and every stored package that they do not replace.
pub open spec fn rpm_repository(
    manifest: PackageManifestView,
    prefix: Seq<char>,
    keys: Seq<Seq<char>>,
) -> Result<RpmRepositoryPlanView, S3PublishErrorView> {
    match publishable_by_keys(rpm_ordering(), manifest, prefix, rpm_keys(keys)) {
        Err(source) => Err(S3PublishErrorView::SelectPublishableRpmPayloads { source }),
        Ok(local) => match rpm_key_payloads(prefix, rpm_keys(keys), 0, Seq::empty()) {
            Err(error) => Err(error),
            Ok(remote) => Ok(
                RpmRepositoryPlanView { local, retained: retained_payloads(local, remote) },
            ),
        },
    }
}

fn select_rpm_keys(keys: &Vec<String>) -> (selected: Vec<String>)
    ensures
        deep(selected@) == rpm_keys(deep(keys@)),
{
    let ghost all = deep(keys@);
    let mut selected: Vec<String> = Vec::new();
    let mut i: usize = 0;
    assert(all.take(0) =~= Seq::empty());
    while i < keys.len()
        invariant
            i <= keys@.len(),
            all == deep(keys@),
            deep(selected@) == rpm_keys(all.take(i as int)),
        decreases keys@.len() - i,
    {
        assert(all[i as int] == keys@[i as int]@);
        assert(all.take(i + 1).drop_last() =~= all.take(i as int));
        if ends_with(keys[i].as_str(), ".rpm") {
            selected.push(keys[i].clone());
        }
        i = i + 1;
    }
    assert(all.take(i as int) =~= all);
    selected
}

/// The payload that the key of an RPM package stands for.
pub fn remote_rpm_payload_to_linux_payload(prefix: &RemotePrefix, key: &str) -> (payload: Result<
    LinuxPackagePayload,
    S3PublishError,
>)
    ensures
        outcome(payload) == rpm_key_payload(prefix.deep_view(), key@),
{
    let relative = match strip_remote_prefix(prefix, key) {
        Some(relative) => relative,
        None => key.to_owned(),
    };
    proof {
        reveal_strlit("/");
    }
    let names = split(relative.as_str(), "/");
    assert(deep(names@).len() == names@.len());
    if names.len() < 3 {
        return Err(S3PublishError::RemoteRpmPayloadKeyLayout);
    }
    assert(deep(names@)[0] == names@[0]@ && deep(names@)[1] == names@[1]@ && deep(names@).last()
        == names@.last()@);
    let archive_name = names[names.len() - 1].clone();
    match read_rpm_architecture(archive_name.as_str()) {
        None => Err(S3PublishError::InferRpmArchitecture),
        Some(architecture) => Ok(
            LinuxPackagePayload {
                package: names[0].clone(),
                version: names[1].clone(),
                architecture,
                archive_name,
                path: relative,
            },
        ),
    }
}

fn payloads_of_keys(prefix: &RemotePrefix, keys: &Vec<String>) -> (payloads: Result<
    Vec<LinuxPackagePayload>,
    S3PublishError,
>)
    ensures
        outcomes(payloads) == rpm_key_payloads(
            prefix.deep_view(),
            deep(keys@),
            0,
            Seq::empty(),
        ),
{
    let mut payloads: Vec<LinuxPackagePayload> = Vec::new();
    let mut i: usize = 0;
    while i < keys.len()
        invariant
            i <= keys@.len(),
            rpm_key_payloads(prefix.deep_view(), deep(keys@), 0, Seq::empty())
                == rpm_key_payloads(
                prefix.deep_view(),
                deep(keys@),
                i as int,
                deep(payloads@),
            ),
        decreases keys@.len() - i,
    {
        assert(deep(keys@)[i as int] == keys@[i as int]@);
        match remote_rpm_payload_to_linux_payload(prefix, keys[i].as_str()) {
            Ok(payload) => {
                payloads.push(payload);
            },
            Err(error) => {
                return Err(error);
            },
        }
        i = i + 1;
    }
    Ok(payloads)
}

/// What an RPM repository is made of, from the manifest and the published keys.
pub fn plan_rpm_repository(
    manifest: &PackageManifest,
    prefix: &RemotePrefix,
    remote_keys: &Vec<String>,
) -> (plan: Result<RpmRepositoryPlan, S3PublishError>)
    ensures
        outcome(plan) == rpm_repository(
            manifest.deep_view(),
            prefix.deep_view(),
            deep(remote_keys@),
        ),
{
    let keys = select_rpm_keys(remote_keys);
    assert(compares_all::<CompareRpmVersionError, _>(compare_rpm_versions));
    assert(compares_as(compare_rpm_versions, rpm_ordering()));
    let local = match publishable_linux_payloads_from_manifest_and_remote_keys(
        manifest,
        prefix,
        &keys,
        compare_rpm_versions,
    ) {
        Ok(local) => local,
        Err(source) => {
            return Err(S3PublishError::SelectPublishableRpmPayloads { source });
        },
    };
    let remote = match payloads_of_keys(prefix, &keys) {
        Ok(remote) => remote,
        Err(error) => {
            return Err(error);
        },
    };
    let retained = payloads_not_local(&local, &remote);
    Ok(RpmRepositoryPlan { local, retained })
}

/// The first character of a text, or an underscore.
pub open spec fn pool_letter(package: Seq<char>) -> char {
    if package.len() == 0 {
        '_'
    } else {
        package[0]
    }
}

/// The path of a package in the pool of a Debian repository.
pub open spec fn pool_file(package: Seq<char>, filename: Seq<char>) -> Seq<char> {
    path_join(
        path_join(
            path_join(path_join("pool"@, "main"@), seq![pool_letter(package)]),
            package,
        ),
        filename,
    )
}

/// The path of a package in the pool of a Debian repository.
pub fn pool_path(package: &str, filename: &str) -> (path: String)
    ensures
        path@ == pool_file(package@, filename@),
{
    let chars = chars_of(package);
    let letter = if chars.len() == 0 {
        '_'
    } else {
        chars[0]
    };
    let mut first = String::new();
    first.push(letter);
    assert(first@ =~= seq![pool_letter(package@)]);
    let main = join_path("pool", "main");
    let lettered = join_path(main.as_str(), first.as_str());
    let directory = join_path(lettered.as_str(), package);
    join_path(directory.as_str(), filename)
}

/// A file of the host that is copied into a repository.
#[derive(Debug, PartialEq, Eq)]
pub struct FileCopy {
    pub source: String,
    pub destination: String,
}

/// What a [`FileCopy`] holds.
pub struct FileCopyView {
    pub source: Seq<char>,
    pub destination: Seq<char>,
}

impl DeepView for FileCopy {
    type V = FileCopyView;

    open spec fn deep_view(&self) -> FileCopyView {
        FileCopyView {
            source: self.source@,
            destination: self.destination@,
        }
    }
}

impl Clone for FileCopy {
    fn clone(&self) -> (copy: Self)
        ensures
            copy.deep_view() == self.deep_view(),
    {
        let copy = FileCopy {
            source: self.source.clone(),
            destination: self.destination.clone(),
        };
        copy
    }
}

/// An object that is downloaded into a repository.
#[derive(Debug, PartialEq, Eq)]
pub struct ObjectDownload {
    pub key: String,
    pub destination: String,
}

/// What a [`ObjectDownload`] holds.
pub struct ObjectDownloadView {
    pub key: Seq<char>,
    pub destination: Seq<char>,
}

impl DeepView for ObjectDownload {
    type V = ObjectDownloadView;

    open spec fn deep_view(&self) -> ObjectDownloadView {
        ObjectDownloadView {
            key: self.key@,
            destination: self.destination@,
        }
    }
}

impl Clone for ObjectDownload {
    fn clone(&self) -> (copy: Self)
        ensures
            copy.deep_view() == self.deep_view(),
    {
        let copy = ObjectDownload {
            key: self.key.clone(),
            destination: self.destination.clone(),
        };
        copy
    }
}

/// Where a new Debian package is copied from and to.
pub open spec fn deb_copy(
    repository: Seq<char>,
    target_dir: Seq<char>,
    payload: LinuxPackagePayloadView,
) -> FileCopyView {
    FileCopyView {
        source: path_join(target_dir, payload.path),
        destination: path_join(repository, pool_file(payload.package, payload.archive_name)),
    }
}

/// Where a Debian package that stays is downloaded from and to.
pub open spec fn deb_download(
    repository: Seq<char>,
    prefix: Seq<char>,
    entry: RemoteDebPackageEntryView,
) -> ObjectDownloadView {
    ObjectDownloadView {
        key: below_prefix(prefix, entry.filename),
        destination: path_join(repository, entry.filename),
    }
}

/// The path of an RPM package in a repository.
pub open spec fn rpm_file(repository: Seq<char>, payload: LinuxPackagePayloadView) -> Seq<char> {
    path_join(
        path_join(path_join(repository, payload.package), payload.version),
        payload.archive_name,
    )
}

/// The copies of the new packages of a Debian repository.
pub fn deb_repository_copies(
    repository: &str,
    target_dir: &str,
    local: &Vec<LinuxPackagePayload>,
) -> (copies: Vec<FileCopy>)
    ensures
        deep(copies@) == deep(local@).map_values(
            |payload: LinuxPackagePayloadView| deb_copy(repository@, target_dir@, payload),
        ),
{
    let ghost all = deep(local@).map_values(
        |payload: LinuxPackagePayloadView| deb_copy(repository@, target_dir@, payload),
    );
    let mut copies: Vec<FileCopy> = Vec::new();
    let mut i: usize = 0;
    while i < local.len()
        invariant
            i <= local@.len(),
            all == deep(local@).map_values(
                |payload: LinuxPackagePayloadView| deb_copy(repository@, target_dir@, payload),
            ),
            deep(copies@) == all.take(i as int),
        decreases local@.len() - i,
    {
        let payload = &local[i];
        let copy = FileCopy {
            source: join_path(target_dir, payload.path.as_str()),
            destination: join_path(
                repository,
                pool_path(payload.package.as_str(), payload.archive_name.as_str()).as_str(),
            ),
        };
        assert(all[i as int] == copy.deep_view());
        assert(all.take(i + 1) =~= all.take(i as int).push(copy.deep_view()));
        copies.push(copy);
        i = i + 1;
    }
    assert(all.take(i as int) =~= all);
    copies
}

/// The downloads of the packages of a Debian repository that stay.
pub fn deb_repository_downloads(
    repository: &str,
    prefix: &RemotePrefix,
    retained: &Vec<RemoteDebPackageEntry>,
) -> (downloads: Vec<ObjectDownload>)
    ensures
        deep(downloads@) == deep(retained@).map_values(
            |entry: RemoteDebPackageEntryView|
                deb_download(repository@, prefix.deep_view(), entry),
        ),
{
    let ghost all = deep(retained@).map_values(
        |entry: RemoteDebPackageEntryView| deb_download(repository@, prefix.deep_view(), entry),
    );
    let mut downloads: Vec<ObjectDownload> = Vec::new();
    let mut i: usize = 0;
    while i < retained.len()
        invariant
            i <= retained@.len(),
            all == deep(retained@).map_values(
                |entry: RemoteDebPackageEntryView|
                    deb_download(repository@, prefix.deep_view(), entry),
            ),
            deep(downloads@) == all.take(i as int),
        decreases retained@.len() - i,
    {
        let entry = &retained[i];
        let download = ObjectDownload {
            key: prefix.join(entry.filename.as_str()),
            destination: join_path(repository, entry.filename.as_str()),
        };
        assert(all[i as int] == download.deep_view());
        assert(all.take(i + 1) =~= all.take(i as int).push(download.deep_view()));
        downloads.push(download);
        i = i + 1;
    }
    assert(all.take(i as int) =~= all);
    downloads
}

fn rpm_path(repository: &str, payload: &LinuxPackagePayload) -> (path: String)
    ensures
        path@ == rpm_file(repository@, payload.deep_view()),
{
    let package = join_path(repository, payload.package.as_str());
    let version = join_path(package.as_str(), payload.version.as_str());
    join_path(version.as_str(), payload.archive_name.as_str())
}

/// The copies of the new packages of an RPM repository.
pub fn rpm_repository_copies(
    repository: &str,
    target_dir: &str,
    local: &Vec<LinuxPackagePayload>,
) -> (copies: Vec<FileCopy>)
    ensures
        deep(copies@) == deep(local@).map_values(
            |payload: LinuxPackagePayloadView|
                FileCopyView {
                    source: path_join(target_dir@, payload.path),
                    destination: rpm_file(repository@, payload),
                },
        ),
{
    let ghost all = deep(local@).map_values(
        |payload: LinuxPackagePayloadView|
            FileCopyView {
                source: path_join(target_dir@, payload.path),
                destination: rpm_file(repository@, payload),
            },
    );
    let mut copies: Vec<FileCopy> = Vec::new();
    let mut i: usize = 0;
    while i < local.len()
        invariant
            i <= local@.len(),
            all == deep(local@).map_values(
                |payload: LinuxPackagePayloadView|
                    FileCopyView {
                        source: path_join(target_dir@, payload.path),
                        destination: rpm_file(repository@, payload),
                    },
            ),
            deep(copies@) == all.take(i as int),
        decreases local@.len() - i,
    {
        let payload = &local[i];
        let copy = FileCopy {
            source: join_path(target_dir, payload.path.as_str()),
            destination: rpm_path(repository, payload),
        };
        assert(all[i as int] == copy.deep_view());
        assert(all.take(i + 1) =~= all.take(i as int).push(copy.deep_view()));
        copies.push(copy);
        i = i + 1;
    }
    assert(all.take(i as int) =~= all);
    copies
}

/// The downloads of the RPM packages from `from` on, after those already `found`.
pub open spec fn rpm_downloads(
    repository: Seq<char>,
    prefix: Seq<char>,
    retained: Seq<LinuxPackagePayloadView>,
    from: int,
    found: Seq<ObjectDownloadView>,
) -> Result<Seq<ObjectDownloadView>, S3PublishErrorView>
    decreases retained.len() - from,
{
    if from < 0 || from >= retained.len() {
        Ok(found)
    } else {
        match payload_key(prefix, PackageSystem::Rpm, retained[from]) {
            Err(source) => Err(S3PublishErrorView::ResolveRpmPayloadKey { source }),
            Ok(key) => rpm_downloads(
                repository,
                prefix,
                retained,
                from + 1,
                found.push(
                    ObjectDownloadView { key, destination: rpm_file(repository, retained[from]) },
                ),
            ),
        }
    }
}

/// The downloads of the packages of an RPM repository that stay.
pub fn rpm_repository_downloads(
    repository: &str,
    prefix: &RemotePrefix,
    retained: &Vec<LinuxPackagePayload>,
) -> (result: Result<Vec<ObjectDownload>, S3PublishError>)
    ensures
        outcomes(result) == rpm_downloads(
            repository@,
            prefix.deep_view(),
            deep(retained@),
            0,
            Seq::empty(),
        ),
{
    let mut downloads: Vec<ObjectDownload> = Vec::new();
    let mut i: usize = 0;
    while i < retained.len()
        invariant
            i <= retained@.len(),
            rpm_downloads(repository@, prefix.deep_view(), deep(retained@), 0, Seq::empty())
                == rpm_downloads(
                repository@,
                prefix.deep_view(),
                deep(retained@),
                i as int,
                deep(downloads@),
            ),
        decreases retained@.len() - i,
    {
        assert(deep(retained@)[i as int] == retained@[i as int].deep_view());
        match linux_payload_key(prefix, PackageSystem::Rpm, &retained[i]) {
            Ok(key) => {
                downloads.push(
                    ObjectDownload { key, destination: rpm_path(repository, &retained[i]) },
                );
            },
            Err(source) => {
                return Err(S3PublishError::ResolveRpmPayloadKey { source });
            },
        }
        i = i + 1;
    }
    Ok(downloads)
}

// ---------------------------------------------------------------------------
// Archives and announcements of Homebrew and Scoop
// ---------------------------------------------------------------------------
/// The key of the archive of an artifact.
pub fn versioned_archive_key(prefix: &RemotePrefix, artifact: &PackageArtifact) -> (key: Result<
    String,
    S3PublishError,
>)
    ensures
        outcome(key) == (match artifact.deep_view().archive_name {
            Some(name) => Ok(below_prefix(prefix.deep_view(), name)),
            None => Err(S3PublishErrorView::MissingArchiveName),
        }),
{
    match &artifact.archive_name {
        Some(name) => Ok(prefix.join(name.as_str())),
        None => Err(S3PublishError::MissingArchiveName),
    }
}

/// Checks that the file of an artifact is the one of the manifest.
pub fn check_archive_sha256(artifact: &PackageArtifact, actual_sha256: &str) -> (checked: Result<
    (),
    S3PublishError,
>)
    ensures
        fault_of(checked) == (if actual_sha256@ == artifact.sha256@ {
            None
        } else {
            Some(S3PublishErrorView::ArtifactSha256Mismatch { path: artifact.path@ })
        }),
{
    if !same_text(actual_sha256, artifact.sha256.as_str()) {
        return Err(S3PublishError::ArtifactSha256Mismatch { path: artifact.path.clone() });
    }
    Ok(())
}

/// What becomes of the archive of an artifact.
#[derive(Debug, PartialEq, Eq)]
pub struct VersionedArchivePlan {
    /// The artifact with the hash that announcements state.
    pub artifact: PackageArtifact,
    pub upload: Option<PlannedUpload>,
    /// Where the archive is published already: whether it is the local one.
    pub remote_matches_local: Option<bool>,
}

/// What a [`VersionedArchivePlan`] holds.
pub struct VersionedArchivePlanView {
    pub artifact: PackageArtifactView,
    pub upload: Option<PlannedUploadView>,
    pub remote_matches_local: Option<bool>,
}

impl DeepView for VersionedArchivePlan {
    type V = VersionedArchivePlanView;

    open spec fn deep_view(&self) -> VersionedArchivePlanView {
        VersionedArchivePlanView {
            artifact: self.artifact.deep_view(),
            upload: self.upload.deep_view(),
            remote_matches_local: self.remote_matches_local.deep_view(),
        }
    }
}

/// What becomes of an archive: it is uploaded where nothing stands at its key, and is else
/// announced as it stands there.
pub open spec fn archive_plan(
    target_dir: Seq<char>,
    key: Seq<char>,
    artifact: PackageArtifactView,
    actual_sha256: Seq<char>,
    remote: RemotePayloadStateView,
) -> VersionedArchivePlanView {
    let plan = versioned_payload_plan(actual_sha256, remote);
    VersionedArchivePlanView {
        artifact: PackageArtifactView { sha256: plan.metadata_sha256, ..artifact },
        upload: match plan.upload_condition {
            Some(condition) => Some(
                PlannedUploadView {
                    path: path_join(target_dir, artifact.path),
                    key,
                    entry: false,
                    condition: Some(condition),
                },
            ),
            None => None,
        },
        remote_matches_local: plan.remote_sha256_matches_local,
    }
}

/// What becomes of the archive of an artifact at `key`.
pub fn plan_versioned_archive(
    target_dir: &str,
    key: &str,
    artifact: &PackageArtifact,
    actual_sha256: &str,
    remote: RemotePayloadState,
) -> (plan: VersionedArchivePlan)
    ensures
        plan.deep_view() == archive_plan(
            target_dir@,
            key@,
            artifact.deep_view(),
            actual_sha256@,
            remote.deep_view(),
        ),
{
    let plan = plan_versioned_immutable_payload(key, actual_sha256, remote);
    let mut announced = artifact.clone();
    announced.sha256 = plan.metadata_sha256().to_owned();
    let upload = match plan.upload_condition() {
        Some(condition) => Some(
            PlannedUpload {
                path: join_path(target_dir, artifact.path.as_str()),
                key: key.to_owned(),
                entry: false,
                condition: Some(condition),
            },
        ),
        None => None,
    };
    let remote_matches_local = if plan.reuses_remote_payload() {
        Some(plan.remote_sha256_matches_local())
    } else {
        None
    };
    VersionedArchivePlan { artifact: announced, upload, remote_matches_local }
}

/// The path of the template that announces a package.
pub open spec fn template_path(
    root: Seq<char>,
    contract: ReleaseContract,
    package: Seq<char>,
    system: PackageSystem,
) -> Result<Seq<char>, S3PublishErrorView> {
    match package_of(contract, package) {
        None => Err(S3PublishErrorView::MissingPackage { package }),
        Some(found) => match branch_of(found, system) {
            None => Err(S3PublishErrorView::MissingBranch { package, system }),
            Some(branch) => match template_of(branch) {
                None => Err(S3PublishErrorView::MissingManifestTemplate { package, system }),
                Some(template) => Ok(path_join(root, template)),
            },
        },
    }
}

/// The path of the template that announces a package.
pub fn manifest_template_path(
    root: &str,
    contract: &ReleaseContract,
    package_id: &PackageId,
    system: PackageSystem,
) -> (path: Result<String, S3PublishError>)
    ensures
        outcome(path) == template_path(root@, *contract, package_id.deep_view(), system),
{
    let found = match contract.package(package_id.as_str()) {
        Some(found) => found,
        None => {
            return Err(
                S3PublishError::MissingPackage { package: package_id.as_str().to_owned() },
            );
        },
    };
    let branch = match found.branch(system) {
        Some(branch) => branch,
        None => {
            return Err(
                S3PublishError::MissingBranch { package: package_id.as_str().to_owned(), system },
            );
        },
    };
    match branch.manifest_template() {
        Some(template) => Ok(join_path(root, template.as_str())),
        None => Err(
            S3PublishError::MissingManifestTemplate {
                package: package_id.as_str().to_owned(),
                system,
            },
        ),
    }
}

/// The package of a manifest with its metadata.
pub open spec fn manifest_package(
    root: Seq<char>,
    contract: ReleaseContract,
    package: Seq<char>,
    cargo: Map<Seq<char>, CargoMetadataView>,
) -> Result<(Seq<char>, ResolvedPackageMetadataView), S3PublishErrorView> {
    if package.len() == 0 {
        Err(S3PublishErrorView::InvalidPackageId { source: ParsePackageIdErrorView::Empty })
    } else if !is_package_id(package) {
        Err(
            S3PublishErrorView::InvalidPackageId {
                source: ParsePackageIdErrorView::Invalid { value: package },
            },
        )
    } else {
        match metadata_of(contract, package, root, cargo) {
            Err(source) => Err(S3PublishErrorView::ResolveMetadata { source }),
            Ok(metadata) => Ok((package, metadata)),
        }
    }
}

/// The package of a manifest with its metadata.
pub fn manifest_package_metadata(
    root: &str,
    contract: &ReleaseContract,
    manifest: &PackageManifest,
    cargo: &TextMap<String, CargoMetadata>,
) -> (package: Result<(PackageId, ResolvedPackageMetadata), S3PublishError>)
    ensures
        outcome(package) == manifest_package(
            root@,
            *contract,
            manifest.package@,
            cargo.deep_view(),
        ),
{
    let package_id = match PackageId::new(manifest.package.as_str()) {
        Ok(package_id) => package_id,
        Err(source) => {
            return Err(S3PublishError::InvalidPackageId { source });
        },
    };
    match resolve_metadata(contract, package_id.as_str(), root, cargo) {
        Ok(metadata) => Ok((package_id, metadata)),
        Err(source) => Err(S3PublishError::ResolveMetadata { source }),
    }
}

/// A template filled with variables.
pub open spec fn announcement(
    template: Seq<char>,
    variables: Map<Seq<char>, Seq<char>>,
) -> Result<Seq<char>, S3PublishErrorView> {
    match rendered(template, variables) {
        Ok(text) => Ok(text),
        Err(source) => Err(S3PublishErrorView::RenderTemplate { source }),
    }
}

/// The Homebrew formula of a package.
pub fn render_brew_formula(
    package_id: &PackageId,
    metadata: &ResolvedPackageMetadata,
    manifest: &PackageManifest,
    public_base_url: &PublicBaseUrl,
    template: &str,
) -> (formula: Result<String, S3PublishError>)
    ensures
        outcome(formula) == (match brew_variables(
            package_id.deep_view(),
            metadata.deep_view(),
            manifest.deep_view(),
            public_base_url.deep_view(),
        ) {
            Err(source) => Err(S3PublishErrorView::BuildBrewTemplateVariables { source }),
            Ok(variables) => announcement(template@, variables),
        }),
{
    let variables = match brew_template_variables(package_id, metadata, manifest, public_base_url) {
        Ok(variables) => variables,
        Err(source) => {
            return Err(S3PublishError::BuildBrewTemplateVariables { source });
        },
    };
    match render_template(template, &variables) {
        Ok(text) => Ok(text),
        Err(source) => Err(S3PublishError::RenderTemplate { source }),
    }
}

/// The Scoop manifest of a package, from a template.
pub fn render_scoop_manifest(
    package_id: &PackageId,
    metadata: &ResolvedPackageMetadata,
    manifest: &PackageManifest,
    public_base_url: &PublicBaseUrl,
    bin: &Vec<String>,
    template: &str,
) -> (json: Result<String, S3PublishError>)
    ensures
        outcome(json) == (match scoop_variables(
            package_id.deep_view(),
            metadata.deep_view(),
            manifest.deep_view(),
            public_base_url.deep_view(),
            deep(bin@),
        ) {
            Err(source) => Err(S3PublishErrorView::BuildScoopTemplateVariables { source }),
            Ok(variables) => announcement(template@, variables),
        }),
{
    let variables = match scoop_template_variables(
        package_id,
        metadata,
        manifest,
        public_base_url,
        bin,
    ) {
        Ok(variables) => variables,
        Err(source) => {
            return Err(S3PublishError::BuildScoopTemplateVariables { source });
        },
    };
    match render_template(template, &variables) {
        Ok(text) => Ok(text),
        Err(source) => Err(S3PublishError::RenderTemplate { source }),
    }
}

/// The directory in which the announcements of a package system are written.
pub open spec fn announcement_directory(target_dir: Seq<char>, system: PackageSystem) -> Seq<char> {
    path_join(path_join(target_dir, "common"@), system_name(system))
}

/// The directory in which the announcements of a package system are written.
pub fn publish_directory(target_dir: &str, system: PackageSystem) -> (path: String)
    ensures
        path@ == announcement_directory(target_dir@, system),
{
    join_path(join_path(target_dir, "common").as_str(), system.as_str())
}

/// The upload of an announcement.
pub open spec fn announcement_upload(directory: Seq<char>, prefix: Seq<char>, name: Seq<char>) -> PlannedUploadView {
    PlannedUploadView {
        path: path_join(directory, name),
        key: below_prefix(prefix, name),
        entry: true,
        condition: None,
    }
}

/// The uploads that announce a package: as the latest version, and as this version.
pub fn announcement_uploads(
    target_dir: &str,
    prefix: &RemotePrefix,
    package_id: &PackageId,
    system: PackageSystem,
    metadata: &ResolvedPackageMetadata,
) -> (uploads: Result<Vec<PlannedUpload>, S3PublishError>)
    ensures
        outcomes(uploads) == (match entry_names(
            package_id.deep_view(),
            system,
            metadata.deep_view().source_version,
        ) {
            Err(source) => Err(S3PublishErrorView::MutableEntryNames { source }),
            Ok(names) => Ok(
                seq![
                    announcement_upload(
                        announcement_directory(target_dir@, system),
                        prefix.deep_view(),
                        names.latest,
                    ),
                    announcement_upload(
                        announcement_directory(target_dir@, system),
                        prefix.deep_view(),
                        names.versioned,
                    ),
                ],
            ),
        }),
{
    let names = match mutable_entry_names(package_id, system, &metadata.source_version) {
        Ok(names) => names,
        Err(source) => {
            return Err(S3PublishError::MutableEntryNames { source });
        },
    };
    let directory = publish_directory(target_dir, system);
    let mut uploads: Vec<PlannedUpload> = Vec::new();
    uploads.push(
        PlannedUpload {
            path: join_path(directory.as_str(), names.latest.as_str()),
            key: prefix.join(names.latest.as_str()),
            entry: true,
            condition: None,
        },
    );
    uploads.push(
        PlannedUpload {
            path: join_path(directory.as_str(), names.versioned.as_str()),
            key: prefix.join(names.versioned.as_str()),
            entry: true,
            condition: None,
        },
    );
    assert(deep(uploads@) =~= seq![
        announcement_upload(directory@, prefix.deep_view(), names.latest@),
        announcement_upload(directory@, prefix.deep_view(), names.versioned@),
    ]);
    Ok(uploads)
}

/// What a publication is told about its target.
pub open spec fn summary(target: S3PublishTargetView) -> Seq<char> {
    match target {
        S3PublishTargetView::Brew(target) => "prefix="@ + target.prefix + " tap="@
            + target.tap.repository,
        S3PublishTargetView::Scoop(target) => "prefix="@ + target.prefix + " bucket="@
            + target.bucket.repository,
        S3PublishTargetView::Deb(target) => "prefix="@ + target.prefix + " suite="@ + target.suite,
        S3PublishTargetView::Rpm(target) => "prefix="@ + target.prefix,
    }
}

/// What a publication is told about its target.
pub fn target_summary(target: &S3PublishTarget) -> (text: String)
    ensures
        text@ == summary(target.deep_view()),
{
    let mut text = "prefix=".to_owned();
    match target {
        S3PublishTarget::Brew(target) => {
            text.append(target.prefix.as_str());
            text.append(" tap=");
            text.append(target.tap.repository.as_str());
        },
        S3PublishTarget::Scoop(target) => {
            text.append(target.prefix.as_str());
            text.append(" bucket=");
            text.append(target.bucket.repository.as_str());
        },
        S3PublishTarget::Deb(target) => {
            text.append(target.prefix.as_str());
            text.append(" suite=");
            text.append(target.suite.as_str());
        },
        S3PublishTarget::Rpm(target) => {
            text.append(target.prefix.as_str());
        },
    }
    text
}

/// What is told about a target, one setting each.
pub open spec fn target_settings(target: S3PublishTargetView) -> Seq<Seq<char>> {
    match target {
        S3PublishTargetView::Brew(target) => seq![
            "prefix="@ + target.prefix,
            "tap="@ + target.tap.repository,
        ],
        S3PublishTargetView::Scoop(target) => seq![
            "prefix="@ + target.prefix,
            "bucket="@ + target.bucket.repository,
        ],
        S3PublishTargetView::Deb(target) => seq![
            "prefix="@ + target.prefix,
            "suite="@ + target.suite,
        ],
        S3PublishTargetView::Rpm(target) => seq!["prefix="@ + target.prefix],
    }
}

/// The lines that show where a channel is published: one for each setting, or one for all of
/// them.
pub fn destination_lines(channel: ReleaseChannel, target: &S3PublishTarget, one_each: bool) -> (lines:
    Vec<String>)
    ensures
        deep(lines@) == if one_each {
            seq!["channel="@ + channel_name(channel)] + target_settings(target.deep_view())
        } else {
            seq!["channel="@ + channel_name(channel) + " "@ + summary(target.deep_view())]
        },
{
    let mut lines: Vec<String> = Vec::new();
    let mut first = suffixed("channel=", channel.as_str());
    if !one_each {
        first.append(" ");
        first.append(target_summary(target).as_str());
        lines.push(first);
        assert(deep(lines@) =~= seq![
            "channel="@ + channel_name(channel) + " "@ + summary(target.deep_view()),
        ]);
        return lines;
    }
    lines.push(first);
    match target {
        S3PublishTarget::Brew(target) => {
            lines.push(suffixed("prefix=", target.prefix.as_str()));
            lines.push(suffixed("tap=", target.tap.repository.as_str()));
        },
        S3PublishTarget::Scoop(target) => {
            lines.push(suffixed("prefix=", target.prefix.as_str()));
            lines.push(suffixed("bucket=", target.bucket.repository.as_str()));
        },
        S3PublishTarget::Deb(target) => {
            lines.push(suffixed("prefix=", target.prefix.as_str()));
            lines.push(suffixed("suite=", target.suite.as_str()));
        },
        S3PublishTarget::Rpm(target) => {
            lines.push(suffixed("prefix=", target.prefix.as_str()));
        },
    }
    assert(deep(lines@) =~= seq!["channel="@ + channel_name(channel)] + target_settings(
        target.deep_view(),
    ));
    lines
}

} // verus!
