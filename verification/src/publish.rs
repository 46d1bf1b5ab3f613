//! What is published where: payloads, object keys, upload order and publish targets.

use core::cmp::Ordering;

use vstd::prelude::*;

use crate::channel::ReleaseChannel;
use crate::contract::{
    has_destination, DebSigning, EnvRef, GitIndexDestination, ReleaseContract,
    S3BrewChannelDestination, S3DebChannelDestination, S3RpmChannelDestination,
    S3ScoopChannelDestination,
};
use crate::manifest::{PackageArtifact, PackageArtifactView, PackageManifest, PackageManifestView};
use crate::model::{deep, outcome, outcomes};
use crate::package::PackageId;
use crate::system::{is_linux_system, system_name, PackageSystem};
use crate::text::{
    after_prefix, before_suffix, char_is, chars_of, contains, contains_text, cut_first, cut_last,
    ends_with, has_prefix, has_suffix, lines, pieces, rsplit_once, same_text, split, split_once,
    starts_with, strip_prefix, strip_suffix, text_lines, trim, trim_end_matches, trim_matches,
    trimmed, trimmed_end, trimmed_space,
};
use crate::textmap::{TextMap, TextSet};
use crate::version::{SourceVersion, SourceVersionView};

verus! {

broadcast use crate::model::group_deep;

// ---------------------------------------------------------------------------
// Decisions about single payloads
// ---------------------------------------------------------------------------
/// Whether anything has been published at the remote place.
#[derive(Debug, Clone, Copy, PartialEq, Eq, Structural)]
pub enum RemotePublishSurface {
    Missing,
    Present,
}

/// What an automated publication does.
#[derive(Debug, PartialEq, Eq)]
pub enum AutomatedPublishDecision<T> {
    /// Somebody has to publish for the first time by hand.
    ManualInitialPublicationRequired,
    /// The payloads are published.
    Publish { payloads: Vec<T> },
}

/// Automation publishes only where something has been published before.
pub fn plan_automated_publish<T>(
    surface: RemotePublishSurface,
    payloads: Vec<T>,
) -> (decision: AutomatedPublishDecision<T>)
    ensures
        decision == (match surface {
            RemotePublishSurface::Missing => AutomatedPublishDecision::<
                T,
            >::ManualInitialPublicationRequired,
            RemotePublishSurface::Present => AutomatedPublishDecision::<T>::Publish { payloads },
        }),
{
    match surface {
        RemotePublishSurface::Missing => AutomatedPublishDecision::ManualInitialPublicationRequired,
        RemotePublishSurface::Present => AutomatedPublishDecision::Publish { payloads },
    }
}

/// What stands at the remote place of a payload.
#[derive(Debug, PartialEq, Eq)]
pub enum RemotePayloadState {
    Missing,
    Present { sha256: String },
}

/// What a [`RemotePayloadState`] holds.
pub enum RemotePayloadStateView {
    Missing,
    Present { sha256: Seq<char> },
}

impl DeepView for RemotePayloadState {
    type V = RemotePayloadStateView;

    open spec fn deep_view(&self) -> RemotePayloadStateView {
        match self {
            RemotePayloadState::Missing => RemotePayloadStateView::Missing,
            RemotePayloadState::Present { sha256 } => RemotePayloadStateView::Present {
                sha256: sha256@,
            },
        }
    }
}

impl Clone for RemotePayloadState {
    fn clone(&self) -> (copy: Self)
        ensures
            copy.deep_view() == self.deep_view(),
    {
        match self {
            RemotePayloadState::Missing => RemotePayloadState::Missing,
            RemotePayloadState::Present { sha256 } => RemotePayloadState::Present { sha256: sha256.clone() },
        }
    }
}

/// What must hold at the remote place for an upload to take effect.
#[derive(Debug, PartialEq, Eq)]
pub enum UploadCondition {
    /// Nothing stands there.
    IfMissing,
    /// The object with this tag stands there.
    IfMatch(String),
}

/// What a [`UploadCondition`] holds.
pub enum UploadConditionView {
    IfMissing,
    IfMatch(Seq<char>),
}

impl DeepView for UploadCondition {
    type V = UploadConditionView;

    open spec fn deep_view(&self) -> UploadConditionView {
        match self {
            UploadCondition::IfMissing => UploadConditionView::IfMissing,
            UploadCondition::IfMatch(value) => UploadConditionView::IfMatch(value@),
        }
    }
}

impl Clone for UploadCondition {
    fn clone(&self) -> (copy: Self)
        ensures
            copy.deep_view() == self.deep_view(),
    {
        match self {
            UploadCondition::IfMissing => UploadCondition::IfMissing,
            UploadCondition::IfMatch(value) => UploadCondition::IfMatch(value.clone()),
        }
    }
}

/// How a payload that never changes once published is handled.
#[derive(Debug, PartialEq, Eq)]
pub struct VersionedImmutablePayloadPlan {
    metadata_sha256: String,
    upload_condition: Option<UploadCondition>,
    remote_sha256_matches_local: Option<bool>,
}

/// What a [`VersionedImmutablePayloadPlan`] holds.
pub struct VersionedImmutablePayloadPlanView {
    pub metadata_sha256: Seq<char>,
    pub upload_condition: Option<UploadConditionView>,
    pub remote_sha256_matches_local: Option<bool>,
}

impl DeepView for VersionedImmutablePayloadPlan {
    type V = VersionedImmutablePayloadPlanView;

    closed spec fn deep_view(&self) -> VersionedImmutablePayloadPlanView {
        VersionedImmutablePayloadPlanView {
            metadata_sha256: self.metadata_sha256@,
            upload_condition: self.upload_condition.deep_view(),
            remote_sha256_matches_local: self.remote_sha256_matches_local.deep_view(),
        }
    }
}

impl Clone for VersionedImmutablePayloadPlan {
    fn clone(&self) -> (copy: Self)
        ensures
            copy.deep_view() == self.deep_view(),
    {
        let copy = VersionedImmutablePayloadPlan {
            metadata_sha256: self.metadata_sha256.clone(),
            upload_condition: self.upload_condition.clone(),
            remote_sha256_matches_local: self.remote_sha256_matches_local.clone(),
        };
        copy
    }
}

impl VersionedImmutablePayloadPlan {
    /// The hash that the metadata state for the payload.
    pub fn metadata_sha256(&self) -> (sha256: &str)
        ensures
            sha256@ == self.deep_view().metadata_sha256,
    {
        self.metadata_sha256.as_str()
    }

    /// The condition of the upload, where there is one to make.
    pub fn upload_condition(&self) -> (condition: Option<UploadCondition>)
        ensures
            condition.deep_view() == self.deep_view().upload_condition,
    {
        self.upload_condition.clone()
    }

    /// Whether the payload that is already there is kept.
    pub fn reuses_remote_payload(&self) -> (reuses: bool)
        ensures
            reuses == self.deep_view().remote_sha256_matches_local is Some,
    {
        self.remote_sha256_matches_local.is_some()
    }

    /// Whether the payload that is already there has the hash of the local one.
    pub fn remote_sha256_matches_local(&self) -> (matches: bool)
        ensures
            matches == (self.deep_view().remote_sha256_matches_local == Some(true)),
    {
        match self.remote_sha256_matches_local {
            Some(matches) => matches,
            None => false,
        }
    }
}

/// A payload that must not change would change.
#[derive(Debug, PartialEq, Eq)]
pub enum ImmutableCollisionError {
    /// Reported as `remote immutable payload {payload_path} already exists with different sha256 {sha256}`.
    DifferentHash { payload_path: String, sha256: String },
}

/// What a [`ImmutableCollisionError`] holds.
pub enum ImmutableCollisionErrorView {
    DifferentHash { payload_path: Seq<char>, sha256: Seq<char> },
}

impl DeepView for ImmutableCollisionError {
    type V = ImmutableCollisionErrorView;

    open spec fn deep_view(&self) -> ImmutableCollisionErrorView {
        match self {
            ImmutableCollisionError::DifferentHash { payload_path, sha256 } => ImmutableCollisionErrorView::DifferentHash {
                payload_path: payload_path@,
                sha256: sha256@,
            },
        }
    }
}

impl ImmutableCollisionErrorView {
    /// The message of the error.
    pub open spec fn message(self) -> Seq<char> {
        match self {
            ImmutableCollisionErrorView::DifferentHash { payload_path, sha256 } => "remote immutable payload "@ + payload_path + " already exists with different sha256 "@ + sha256,
        }
    }
}

impl ImmutableCollisionError {
    /// The message of the error.
    pub fn to_string(&self) -> (text: String)
        ensures
            text@ == self.deep_view().message(),
    {
        match self {
            ImmutableCollisionError::DifferentHash { payload_path, sha256 } => {
                let mut text = "remote immutable payload ".to_owned();
                text.append(payload_path.as_str());
                text.append(" already exists with different sha256 ");
                text.append(sha256.as_str());
                text
            },
        }
    }
}

/// An upload is owed only where nothing stands; another hash there is a collision.
pub open spec fn immutable_upload(
    payload_path: Seq<char>,
    actual_sha256: Seq<char>,
    remote: RemotePayloadStateView,
) -> Result<Option<UploadConditionView>, ImmutableCollisionErrorView> {
    match remote {
        RemotePayloadStateView::Missing => Ok(Some(UploadConditionView::IfMissing)),
        RemotePayloadStateView::Present { sha256 } => if sha256 == actual_sha256 {
            Ok(None)
        } else {
            Err(ImmutableCollisionErrorView::DifferentHash { payload_path, sha256 })
        },
    }
}

/// Decides on the upload of a payload that must not change.
pub fn plan_immutable_upload(
    payload_path: &str,
    actual_sha256: &str,
    remote: RemotePayloadState,
) -> (plan: Result<Option<UploadCondition>, ImmutableCollisionError>)
    ensures
        outcome(plan) == immutable_upload(payload_path@, actual_sha256@, remote.deep_view()),
{
    match remote {
        RemotePayloadState::Missing => Ok(Some(UploadCondition::IfMissing)),
        RemotePayloadState::Present { sha256 } => {
            if same_text(sha256.as_str(), actual_sha256) {
                Ok(None)
            } else {
                Err(
                    ImmutableCollisionError::DifferentHash {
                        payload_path: payload_path.to_owned(),
                        sha256,
                    },
                )
            }
        },
    }
}

/// A payload is uploaded where nothing stands; else the one there is kept, and the
/// metadata state its hash.
pub open spec fn versioned_payload_plan(
    actual_sha256: Seq<char>,
    remote: RemotePayloadStateView,
) -> VersionedImmutablePayloadPlanView {
    match remote {
        RemotePayloadStateView::Missing => VersionedImmutablePayloadPlanView {
            metadata_sha256: actual_sha256,
            upload_condition: Some(UploadConditionView::IfMissing),
            remote_sha256_matches_local: None,
        },
        RemotePayloadStateView::Present { sha256 } => VersionedImmutablePayloadPlanView {
            metadata_sha256: sha256,
            upload_condition: None,
            remote_sha256_matches_local: Some(sha256 == actual_sha256),
        },
    }
}

/// Decides on a payload that is never replaced once published.
pub fn plan_versioned_immutable_payload(
    _payload_path: &str,
    actual_sha256: &str,
    remote: RemotePayloadState,
) -> (plan: VersionedImmutablePayloadPlan)
    ensures
        plan.deep_view() == versioned_payload_plan(actual_sha256@, remote.deep_view()),
{
    match remote {
        RemotePayloadState::Missing => VersionedImmutablePayloadPlan {
            metadata_sha256: actual_sha256.to_owned(),
            upload_condition: Some(UploadCondition::IfMissing),
            remote_sha256_matches_local: None,
        },
        RemotePayloadState::Present { sha256 } => {
            let matches_local = same_text(sha256.as_str(), actual_sha256);
            VersionedImmutablePayloadPlan {
                metadata_sha256: sha256,
                upload_condition: None,
                remote_sha256_matches_local: Some(matches_local),
            }
        },
    }
}

/// What stands at the remote place never changes: an upload is planned only where
/// nothing stands, and only under the condition that still nothing stands there.
pub proof fn lemma_published_payloads_never_change(
    payload_path: Seq<char>,
    actual_sha256: Seq<char>,
    remote: RemotePayloadStateView,
)
    ensures
        immutable_upload(payload_path, actual_sha256, remote) matches Ok(Some(condition))
            ==> remote is Missing && condition is IfMissing,
        versioned_payload_plan(actual_sha256, remote).upload_condition matches Some(condition)
            ==> remote is Missing && condition is IfMissing,
        remote matches RemotePayloadStateView::Present { sha256 } ==> versioned_payload_plan(
            actual_sha256,
            remote,
        ).metadata_sha256 == sha256,
{
}

// ---------------------------------------------------------------------------
// Remote prefixes and public addresses
// ---------------------------------------------------------------------------
/// The prefix of the object keys of a destination: not empty, no slash at its ends.
#[derive(Debug, PartialEq, Eq)]
pub struct RemotePrefix(String);

impl DeepView for RemotePrefix {
    type V = Seq<char>;

    closed spec fn deep_view(&self) -> Seq<char> {
        self.0@
    }
}

impl Clone for RemotePrefix {
    fn clone(&self) -> (copy: Self)
        ensures
            copy.deep_view() == self.deep_view(),
    {
        RemotePrefix(self.0.clone())
    }
}

/// A text that is no remote prefix.
#[derive(Debug, PartialEq, Eq)]
pub enum RemotePrefixError {
    /// Reported as `remote prefix must not be empty`.
    EmptyPrefix,
}

/// What a [`RemotePrefixError`] holds.
pub enum RemotePrefixErrorView {
    EmptyPrefix,
}

impl DeepView for RemotePrefixError {
    type V = RemotePrefixErrorView;

    open spec fn deep_view(&self) -> RemotePrefixErrorView {
        match self {
            RemotePrefixError::EmptyPrefix => RemotePrefixErrorView::EmptyPrefix,
        }
    }
}

impl RemotePrefixErrorView {
    /// The message of the error.
    pub open spec fn message(self) -> Seq<char> {
        match self {
            RemotePrefixErrorView::EmptyPrefix => "remote prefix must not be empty"@,
        }
    }
}

impl RemotePrefixError {
    /// The message of the error.
    pub fn to_string(&self) -> (text: String)
        ensures
            text@ == self.deep_view().message(),
    {
        match self {
            RemotePrefixError::EmptyPrefix => "remote prefix must not be empty".to_owned(),
        }
    }
}

/// The remote prefix that a text stands for.
pub open spec fn remote_prefix(value: Seq<char>) -> Result<Seq<char>, RemotePrefixErrorView> {
    let inner = trimmed(value, char_is('/'));
    if inner.len() == 0 {
        Err(RemotePrefixErrorView::EmptyPrefix)
    } else {
        Ok(inner)
    }
}

/// The key of `relative` below a prefix, or its address below a base address.
pub open spec fn below_prefix(prefix: Seq<char>, relative: Seq<char>) -> Seq<char> {
    prefix + "/"@ + relative
}

impl RemotePrefix {
    /// The prefix that a text stands for.
    pub fn parse(value: &str) -> (prefix: Result<Self, RemotePrefixError>)
        ensures
            outcome(prefix) == remote_prefix(value@),
    {
        let inner = trim_matches(value, '/');
        if inner.as_str().is_empty() {
            return Err(RemotePrefixError::EmptyPrefix);
        }
        Ok(RemotePrefix(inner))
    }

    /// The text of the prefix.
    pub fn as_str(&self) -> (text: &str)
        ensures
            text@ == self.deep_view(),
    {
        self.0.as_str()
    }

    /// The key of `relative` below the prefix.
    pub fn join(&self, relative: &str) -> (key: String)
        ensures
            key@ == below_prefix(self.deep_view(), relative@),
    {
        let mut key = self.0.clone();
        key.append("/");
        key.append(relative);
        key
    }
}

/// The address under which published archives can be downloaded, without slashes at its
/// end.
#[derive(Debug, PartialEq, Eq)]
pub struct PublicBaseUrl(String);

impl DeepView for PublicBaseUrl {
    type V = Seq<char>;

    closed spec fn deep_view(&self) -> Seq<char> {
        self.0@
    }
}

impl Clone for PublicBaseUrl {
    fn clone(&self) -> (copy: Self)
        ensures
            copy.deep_view() == self.deep_view(),
    {
        PublicBaseUrl(self.0.clone())
    }
}

/// A text that is no base address.
#[derive(Debug, PartialEq, Eq)]
pub enum PublicBaseUrlError {
    /// Reported as `public base url must not be empty`.
    EmptyPublicBaseUrl,
}

/// What a [`PublicBaseUrlError`] holds.
pub enum PublicBaseUrlErrorView {
    EmptyPublicBaseUrl,
}

impl DeepView for PublicBaseUrlError {
    type V = PublicBaseUrlErrorView;

    open spec fn deep_view(&self) -> PublicBaseUrlErrorView {
        match self {
            PublicBaseUrlError::EmptyPublicBaseUrl => PublicBaseUrlErrorView::EmptyPublicBaseUrl,
        }
    }
}

impl PublicBaseUrlErrorView {
    /// The message of the error.
    pub open spec fn message(self) -> Seq<char> {
        match self {
            PublicBaseUrlErrorView::EmptyPublicBaseUrl => "public base url must not be empty"@,
        }
    }
}

impl PublicBaseUrlError {
    /// The message of the error.
    pub fn to_string(&self) -> (text: String)
        ensures
            text@ == self.deep_view().message(),
    {
        match self {
            PublicBaseUrlError::EmptyPublicBaseUrl => "public base url must not be empty".to_owned(),
        }
    }
}

/// The base address that a text stands for.
pub open spec fn public_base_url(value: Seq<char>) -> Result<Seq<char>, PublicBaseUrlErrorView> {
    let inner = trimmed_end(value, char_is('/'));
    if inner.len() == 0 {
        Err(PublicBaseUrlErrorView::EmptyPublicBaseUrl)
    } else {
        Ok(inner)
    }
}

impl PublicBaseUrl {
    /// The base address that a text stands for.
    pub fn parse(value: &str) -> (url: Result<Self, PublicBaseUrlError>)
        ensures
            outcome(url) == public_base_url(value@),
    {
        let inner = trim_end_matches(value, '/');
        if inner.as_str().is_empty() {
            return Err(PublicBaseUrlError::EmptyPublicBaseUrl);
        }
        Ok(PublicBaseUrl(inner))
    }

    /// The text of the address.
    pub fn as_str(&self) -> (text: &str)
        ensures
            text@ == self.deep_view(),
    {
        self.0.as_str()
    }

    /// The address of `relative` below the base address.
    pub fn join(&self, relative: &str) -> (url: String)
        ensures
            url@ == below_prefix(self.deep_view(), relative@),
    {
        let mut url = self.0.clone();
        url.append("/");
        url.append(relative);
        url
    }
}

// ---------------------------------------------------------------------------
// Remote Debian package indexes
// ---------------------------------------------------------------------------
/// A published version of a Linux package.
#[derive(Debug, PartialEq, Eq)]
pub struct LinuxPackageVersion {
    pub package: String,
    pub version: String,
    pub architecture: String,
}

/// What a [`LinuxPackageVersion`] holds.
pub struct LinuxPackageVersionView {
    pub package: Seq<char>,
    pub version: Seq<char>,
    pub architecture: Seq<char>,
}

impl DeepView for LinuxPackageVersion {
    type V = LinuxPackageVersionView;

    open spec fn deep_view(&self) -> LinuxPackageVersionView {
        LinuxPackageVersionView {
            package: self.package@,
            version: self.version@,
            architecture: self.architecture@,
        }
    }
}

impl Clone for LinuxPackageVersion {
    fn clone(&self) -> (copy: Self)
        ensures
            copy.deep_view() == self.deep_view(),
    {
        let copy = LinuxPackageVersion {
            package: self.package.clone(),
            version: self.version.clone(),
            architecture: self.architecture.clone(),
        };
        copy
    }
}

/// A published Debian package and where it lies below the prefix.
#[derive(Debug, PartialEq, Eq)]
pub struct RemoteDebPackageEntry {
    pub version: LinuxPackageVersion,
    pub filename: String,
}

/// What a [`RemoteDebPackageEntry`] holds.
pub struct RemoteDebPackageEntryView {
    pub version: LinuxPackageVersionView,
    pub filename: Seq<char>,
}

impl DeepView for RemoteDebPackageEntry {
    type V = RemoteDebPackageEntryView;

    open spec fn deep_view(&self) -> RemoteDebPackageEntryView {
        RemoteDebPackageEntryView {
            version: self.version.deep_view(),
            filename: self.filename@,
        }
    }
}

impl Clone for RemoteDebPackageEntry {
    fn clone(&self) -> (copy: Self)
        ensures
            copy.deep_view() == self.deep_view(),
    {
        let copy = RemoteDebPackageEntry {
            version: self.version.clone(),
            filename: self.filename.clone(),
        };
        copy
    }
}

/// Why a `Packages` index cannot be read.
#[derive(Debug, PartialEq, Eq)]
pub enum RemoteDebPackageEntriesFromPackagesError {
    /// Reported as `remote deb package stanza is missing {field}`.
    MissingField { field: &'static str },
}

/// What a [`RemoteDebPackageEntriesFromPackagesError`] holds.
pub enum RemoteDebPackageEntriesFromPackagesErrorView {
    MissingField { field: Seq<char> },
}

impl DeepView for RemoteDebPackageEntriesFromPackagesError {
    type V = RemoteDebPackageEntriesFromPackagesErrorView;

    open spec fn deep_view(&self) -> RemoteDebPackageEntriesFromPackagesErrorView {
        match self {
            RemoteDebPackageEntriesFromPackagesError::MissingField { field } => RemoteDebPackageEntriesFromPackagesErrorView::MissingField {
                field: field@,
            },
        }
    }
}

impl RemoteDebPackageEntriesFromPackagesErrorView {
    /// The message of the error.
    pub open spec fn message(self) -> Seq<char> {
        match self {
            RemoteDebPackageEntriesFromPackagesErrorView::MissingField { field } => "remote deb package stanza is missing "@ + field,
        }
    }
}

impl RemoteDebPackageEntriesFromPackagesError {
    /// The message of the error.
    pub fn to_string(&self) -> (text: String)
        ensures
            text@ == self.deep_view().message(),
    {
        match self {
            RemoteDebPackageEntriesFromPackagesError::MissingField { field } => {
                let mut text = "remote deb package stanza is missing ".to_owned();
                text.append(field);
                text
            },
        }
    }
}

/// The value of the first line, from `from` on, that begins with `prefix`.
pub open spec fn line_value(stanza: Seq<Seq<char>>, prefix: Seq<char>, from: int) -> Option<Seq<char>>
    decreases stanza.len() - from,
{
    if from < 0 || from >= stanza.len() {
        None
    } else {
        match after_prefix(stanza[from], prefix) {
            Some(rest) => Some(trimmed_space(rest)),
            None => line_value(stanza, prefix, from + 1),
        }
    }
}

/// The value of a field of a stanza: what follows its name and a colon on the first line
/// that begins so, without surrounding white space.
pub open spec fn field_value(stanza: Seq<char>, name: Seq<char>) -> Option<Seq<char>> {
    line_value(text_lines(stanza), name + ":"@, 0)
}

/// The value of a field of a stanza.
pub fn stanza_field(stanza: &str, name: &str) -> (value: Option<String>)
    ensures
        value.deep_view() == field_value(stanza@, name@),
{
    let mut prefix = name.to_owned();
    prefix.append(":");
    let all = lines(stanza);
    let mut i: usize = 0;
    while i < all.len()
        invariant
            i <= all@.len(),
            deep(all@) == text_lines(stanza@),
            prefix@ == name@ + ":"@,
            field_value(stanza@, name@) == line_value(deep(all@), prefix@, i as int),
        decreases all@.len() - i,
    {
        assert(deep(all@)[i as int] == all@[i as int]@);
        if let Some(rest) = strip_prefix(all[i].as_str(), prefix.as_str()) {
            return Some(trim(rest.as_str()));
        }
        i = i + 1;
    }
    None
}

/// The entry of one stanza, which needs a package, a version, an architecture and a file
/// name.
pub open spec fn stanza_entry(stanza: Seq<char>) -> Result<
    RemoteDebPackageEntryView,
    RemoteDebPackageEntriesFromPackagesErrorView,
> {
    match (
        field_value(stanza, "Package"@),
        field_value(stanza, "Version"@),
        field_value(stanza, "Architecture"@),
        field_value(stanza, "Filename"@),
    ) {
        (None, _, _, _) => Err(
            RemoteDebPackageEntriesFromPackagesErrorView::MissingField { field: "Package"@ },
        ),
        (Some(_), None, _, _) => Err(
            RemoteDebPackageEntriesFromPackagesErrorView::MissingField { field: "Version"@ },
        ),
        (Some(_), Some(_), None, _) => Err(
            RemoteDebPackageEntriesFromPackagesErrorView::MissingField { field: "Architecture"@ },
        ),
        (Some(_), Some(_), Some(_), None) => Err(
            RemoteDebPackageEntriesFromPackagesErrorView::MissingField { field: "Filename"@ },
        ),
        (Some(package), Some(version), Some(architecture), Some(filename)) => Ok(
            RemoteDebPackageEntryView {
                version: LinuxPackageVersionView { package, version, architecture },
                filename,
            },
        ),
    }
}

/// The entries of the stanzas from `from` on, after those already `found`. Stanzas that
/// hold only white space are passed over.
pub open spec fn stanza_entries(
    stanzas: Seq<Seq<char>>,
    from: int,
    found: Seq<RemoteDebPackageEntryView>,
) -> Result<Seq<RemoteDebPackageEntryView>, RemoteDebPackageEntriesFromPackagesErrorView>
    decreases stanzas.len() - from,
{
    if from < 0 || from >= stanzas.len() {
        Ok(found)
    } else {
        let stanza = trimmed_space(stanzas[from]);
        if stanza.len() == 0 {
            stanza_entries(stanzas, from + 1, found)
        } else {
            match stanza_entry(stanza) {
                Ok(entry) => stanza_entries(stanzas, from + 1, found.push(entry)),
                Err(error) => Err(error),
            }
        }
    }
}

/// The entries of a `Packages` index, whose stanzas are separated by empty lines.
pub open spec fn index_entries(content: Seq<char>) -> Result<
    Seq<RemoteDebPackageEntryView>,
    RemoteDebPackageEntriesFromPackagesErrorView,
> {
    stanza_entries(pieces(content, "\n\n"@), 0, Seq::empty())
}

fn required_field(stanza: &str, field: &'static str) -> (value: Result<
    String,
    RemoteDebPackageEntriesFromPackagesError,
>)
    ensures
        outcome(value) == (match field_value(stanza@, field@) {
            Some(text) => Ok(text),
            None => Err(RemoteDebPackageEntriesFromPackagesErrorView::MissingField { field: field@ }),
        }),
{
    match stanza_field(stanza, field) {
        Some(value) => Ok(value),
        None => Err(RemoteDebPackageEntriesFromPackagesError::MissingField { field }),
    }
}

fn read_stanza(stanza: &str) -> (entry: Result<
    RemoteDebPackageEntry,
    RemoteDebPackageEntriesFromPackagesError,
>)
    ensures
        outcome(entry) == stanza_entry(stanza@),
{
    let package = match required_field(stanza, "Package") {
        Ok(value) => value,
        Err(error) => {
            return Err(error);
        },
    };
    let version = match required_field(stanza, "Version") {
        Ok(value) => value,
        Err(error) => {
            return Err(error);
        },
    };
    let architecture = match required_field(stanza, "Architecture") {
        Ok(value) => value,
        Err(error) => {
            return Err(error);
        },
    };
    let filename = match required_field(stanza, "Filename") {
        Ok(value) => value,
        Err(error) => {
            return Err(error);
        },
    };
    Ok(
        RemoteDebPackageEntry {
            version: LinuxPackageVersion { package, version, architecture },
            filename,
        },
    )
}

/// The entries of a `Packages` index.
pub fn remote_deb_package_entries_from_packages(content: &str) -> (entries: Result<
    Vec<RemoteDebPackageEntry>,
    RemoteDebPackageEntriesFromPackagesError,
>)
    ensures
        outcomes(entries) == index_entries(content@),
{
    proof {
        reveal_strlit("\n\n");
    }
    let stanzas = split(content, "\n\n");
    let mut entries: Vec<RemoteDebPackageEntry> = Vec::new();
    let mut i: usize = 0;
    while i < stanzas.len()
        invariant
            i <= stanzas@.len(),
            deep(stanzas@) == pieces(content@, "\n\n"@),
            index_entries(content@) == stanza_entries(
                deep(stanzas@),
                i as int,
                deep(entries@),
            ),
        decreases stanzas@.len() - i,
    {
        assert(deep(stanzas@)[i as int] == stanzas@[i as int]@);
        let stanza = trim(stanzas[i].as_str());
        if !stanza.as_str().is_empty() {
            match read_stanza(stanza.as_str()) {
                Ok(entry) => {
                    entries.push(entry);
                },
                Err(error) => {
                    return Err(error);
                },
            }
        }
        i = i + 1;
    }
    Ok(entries)
}

// ---------------------------------------------------------------------------
// Object keys of Linux payloads
// ---------------------------------------------------------------------------
/// A Linux package file to be published.
#[derive(Debug, PartialEq, Eq)]
pub struct LinuxPackagePayload {
    pub package: String,
    pub version: String,
    pub architecture: String,
    pub archive_name: String,
    pub path: String,
}

/// What a [`LinuxPackagePayload`] holds.
pub struct LinuxPackagePayloadView {
    pub package: Seq<char>,
    pub version: Seq<char>,
    pub architecture: Seq<char>,
    pub archive_name: Seq<char>,
    pub path: Seq<char>,
}

impl DeepView for LinuxPackagePayload {
    type V = LinuxPackagePayloadView;

    open spec fn deep_view(&self) -> LinuxPackagePayloadView {
        LinuxPackagePayloadView {
            package: self.package@,
            version: self.version@,
            architecture: self.architecture@,
            archive_name: self.archive_name@,
            path: self.path@,
        }
    }
}

impl Clone for LinuxPackagePayload {
    fn clone(&self) -> (copy: Self)
        ensures
            copy.deep_view() == self.deep_view(),
    {
        let copy = LinuxPackagePayload {
            package: self.package.clone(),
            version: self.version.clone(),
            architecture: self.architecture.clone(),
            archive_name: self.archive_name.clone(),
            path: self.path.clone(),
        };
        copy
    }
}

/// Why a payload has no object key.
#[derive(Debug, PartialEq, Eq)]
pub enum LinuxPayloadKeyError {
    /// Reported as `{system} package payload keys are not linux package keys`.
    UnsupportedSystem { system: PackageSystem },
    /// Reported as `{system} package payload has empty package name`.
    EmptyPackageName { system: PackageSystem },
}

/// What a [`LinuxPayloadKeyError`] holds.
pub enum LinuxPayloadKeyErrorView {
    UnsupportedSystem { system: PackageSystem },
    EmptyPackageName { system: PackageSystem },
}

impl DeepView for LinuxPayloadKeyError {
    type V = LinuxPayloadKeyErrorView;

    open spec fn deep_view(&self) -> LinuxPayloadKeyErrorView {
        match self {
            LinuxPayloadKeyError::UnsupportedSystem { system } => LinuxPayloadKeyErrorView::UnsupportedSystem {
                system: *system,
            },
            LinuxPayloadKeyError::EmptyPackageName { system } => LinuxPayloadKeyErrorView::EmptyPackageName {
                system: *system,
            },
        }
    }
}

impl LinuxPayloadKeyErrorView {
    /// The message of the error.
    pub open spec fn message(self) -> Seq<char> {
        match self {
            LinuxPayloadKeyErrorView::UnsupportedSystem { system } => system_name(system) + " package payload keys are not linux package keys"@,
            LinuxPayloadKeyErrorView::EmptyPackageName { system } => system_name(system) + " package payload has empty package name"@,
        }
    }
}

impl LinuxPayloadKeyError {
    /// The message of the error.
    pub fn to_string(&self) -> (text: String)
        ensures
            text@ == self.deep_view().message(),
    {
        match self {
            LinuxPayloadKeyError::UnsupportedSystem { system } => {
                let mut text = system.as_str().to_owned();
                text.append(" package payload keys are not linux package keys");
                text
            },
            LinuxPayloadKeyError::EmptyPackageName { system } => {
                let mut text = system.as_str().to_owned();
                text.append(" package payload has empty package name");
                text
            },
        }
    }
}

/// The object key of a payload: Debian packages lie in a pool, RPM packages by package
/// and version.
pub open spec fn payload_key(
    prefix: Seq<char>,
    system: PackageSystem,
    payload: LinuxPackagePayloadView,
) -> Result<Seq<char>, LinuxPayloadKeyErrorView> {
    match system {
        PackageSystem::Deb => if payload.package.len() == 0 {
            Err(LinuxPayloadKeyErrorView::EmptyPackageName { system })
        } else {
            Ok(
                below_prefix(
                    prefix,
                    "pool/main/"@.push(payload.package[0]) + "/"@ + payload.package + "/"@
                        + payload.archive_name,
                ),
            )
        },
        PackageSystem::Rpm => Ok(
            below_prefix(
                prefix,
                payload.package + "/"@ + payload.version + "/"@ + payload.archive_name,
            ),
        ),
        PackageSystem::Brew | PackageSystem::Scoop => Err(
            LinuxPayloadKeyErrorView::UnsupportedSystem { system },
        ),
    }
}

/// The object key of a payload.
pub fn linux_payload_key(
    prefix: &RemotePrefix,
    system: PackageSystem,
    payload: &LinuxPackagePayload,
) -> (key: Result<String, LinuxPayloadKeyError>)
    ensures
        outcome(key) == payload_key(prefix.deep_view(), system, payload.deep_view()),
{
    match system {
        PackageSystem::Deb => {
            let chars = chars_of(payload.package.as_str());
            if chars.len() == 0 {
                return Err(
                    LinuxPayloadKeyError::EmptyPackageName { system: PackageSystem::Deb },
                );
            }
            let mut relative = "pool/main/".to_owned();
            relative.push(chars[0]);
            relative.append("/");
            relative.append(payload.package.as_str());
            relative.append("/");
            relative.append(payload.archive_name.as_str());
            Ok(prefix.join(relative.as_str()))
        },
        PackageSystem::Rpm => {
            let mut relative = payload.package.clone();
            relative.append("/");
            relative.append(payload.version.as_str());
            relative.append("/");
            relative.append(payload.archive_name.as_str());
            Ok(prefix.join(relative.as_str()))
        },
        PackageSystem::Brew | PackageSystem::Scoop => Err(
            LinuxPayloadKeyError::UnsupportedSystem { system },
        ),
    }
}

/// Why an object key names no Debian payload.
#[derive(Debug, PartialEq, Eq)]
pub enum RemoteDebPayloadVersionFromKeyError {
    /// Reported as `remote deb payload key {key} has unexpected layout`.
    UnexpectedLayout { key: String },
    /// Reported as `remote deb payload key {key} is missing deb filename`.
    MissingDebFilename { key: String },
}

/// What a [`RemoteDebPayloadVersionFromKeyError`] holds.
pub enum RemoteDebPayloadVersionFromKeyErrorView {
    UnexpectedLayout { key: Seq<char> },
    MissingDebFilename { key: Seq<char> },
}

impl DeepView for RemoteDebPayloadVersionFromKeyError {
    type V = RemoteDebPayloadVersionFromKeyErrorView;

    open spec fn deep_view(&self) -> RemoteDebPayloadVersionFromKeyErrorView {
        match self {
            RemoteDebPayloadVersionFromKeyError::UnexpectedLayout { key } => RemoteDebPayloadVersionFromKeyErrorView::UnexpectedLayout {
                key: key@,
            },
            RemoteDebPayloadVersionFromKeyError::MissingDebFilename { key } => RemoteDebPayloadVersionFromKeyErrorView::MissingDebFilename {
                key: key@,
            },
        }
    }
}

impl RemoteDebPayloadVersionFromKeyErrorView {
    /// The message of the error.
    pub open spec fn message(self) -> Seq<char> {
        match self {
            RemoteDebPayloadVersionFromKeyErrorView::UnexpectedLayout { key } => "remote deb payload key "@ + key + " has unexpected layout"@,
            RemoteDebPayloadVersionFromKeyErrorView::MissingDebFilename { key } => "remote deb payload key "@ + key + " is missing deb filename"@,
        }
    }
}

impl RemoteDebPayloadVersionFromKeyError {
    /// The message of the error.
    pub fn to_string(&self) -> (text: String)
        ensures
            text@ == self.deep_view().message(),
    {
        match self {
            RemoteDebPayloadVersionFromKeyError::UnexpectedLayout { key } => {
                let mut text = "remote deb payload key ".to_owned();
                text.append(key.as_str());
                text.append(" has unexpected layout");
                text
            },
            RemoteDebPayloadVersionFromKeyError::MissingDebFilename { key } => {
                let mut text = "remote deb payload key ".to_owned();
                text.append(key.as_str());
                text.append(" is missing deb filename");
                text
            },
        }
    }
}

/// Why an object key names no RPM payload.
#[derive(Debug, PartialEq, Eq)]
pub enum RemoteRpmPayloadVersionFromKeyError {
    /// Reported as `remote rpm payload key {key} has unexpected layout`.
    UnexpectedLayout { key: String },
    /// Reported as `remote rpm payload key {key} is missing rpm filename`.
    MissingRpmFilename { key: String },
}

/// What a [`RemoteRpmPayloadVersionFromKeyError`] holds.
pub enum RemoteRpmPayloadVersionFromKeyErrorView {
    UnexpectedLayout { key: Seq<char> },
    MissingRpmFilename { key: Seq<char> },
}

impl DeepView for RemoteRpmPayloadVersionFromKeyError {
    type V = RemoteRpmPayloadVersionFromKeyErrorView;

    open spec fn deep_view(&self) -> RemoteRpmPayloadVersionFromKeyErrorView {
        match self {
            RemoteRpmPayloadVersionFromKeyError::UnexpectedLayout { key } => RemoteRpmPayloadVersionFromKeyErrorView::UnexpectedLayout {
                key: key@,
            },
            RemoteRpmPayloadVersionFromKeyError::MissingRpmFilename { key } => RemoteRpmPayloadVersionFromKeyErrorView::MissingRpmFilename {
                key: key@,
            },
        }
    }
}

impl RemoteRpmPayloadVersionFromKeyErrorView {
    /// The message of the error.
    pub open spec fn message(self) -> Seq<char> {
        match self {
            RemoteRpmPayloadVersionFromKeyErrorView::UnexpectedLayout { key } => "remote rpm payload key "@ + key + " has unexpected layout"@,
            RemoteRpmPayloadVersionFromKeyErrorView::MissingRpmFilename { key } => "remote rpm payload key "@ + key + " is missing rpm filename"@,
        }
    }
}

impl RemoteRpmPayloadVersionFromKeyError {
    /// The message of the error.
    pub fn to_string(&self) -> (text: String)
        ensures
            text@ == self.deep_view().message(),
    {
        match self {
            RemoteRpmPayloadVersionFromKeyError::UnexpectedLayout { key } => {
                let mut text = "remote rpm payload key ".to_owned();
                text.append(key.as_str());
                text.append(" has unexpected layout");
                text
            },
            RemoteRpmPayloadVersionFromKeyError::MissingRpmFilename { key } => {
                let mut text = "remote rpm payload key ".to_owned();
                text.append(key.as_str());
                text.append(" is missing rpm filename");
                text
            },
        }
    }
}

/// What follows the prefix and a slash in a key.
pub open spec fn key_below(prefix: Seq<char>, key: Seq<char>) -> Option<Seq<char>> {
    match after_prefix(key, prefix) {
        Some(rest) => after_prefix(rest, "/"@),
        None => None,
    }
}

/// Package, version and architecture of a Debian file name, which has the form
/// `package_version_architecture.deb`.
pub open spec fn deb_file_version(name: Seq<char>) -> Option<LinuxPackageVersionView> {
    match before_suffix(name, ".deb"@) {
        None => None,
        Some(stem) => match cut_last(stem, '_') {
            None => None,
            Some((rest, architecture)) => match cut_first(rest, '_') {
                None => None,
                Some((package, version)) => Some(
                    LinuxPackageVersionView { package, version, architecture },
                ),
            },
        },
    }
}

/// The version that the key of a Debian payload names.
pub open spec fn deb_key_version(prefix: Seq<char>, key: Seq<char>) -> Result<
    LinuxPackageVersionView,
    RemoteDebPayloadVersionFromKeyErrorView,
> {
    match key_below(prefix, key) {
        None => Err(RemoteDebPayloadVersionFromKeyErrorView::UnexpectedLayout { key }),
        Some(relative) => {
            let parts = pieces(relative, "/"@);
            if parts.len() != 5 || parts[0] != "pool"@ || parts[1] != "main"@ {
                Err(RemoteDebPayloadVersionFromKeyErrorView::UnexpectedLayout { key })
            } else {
                match deb_file_version(parts[4]) {
                    Some(version) => Ok(version),
                    None => Err(RemoteDebPayloadVersionFromKeyErrorView::MissingDebFilename { key }),
                }
            }
        },
    }
}

/// The architecture of an RPM file name, which ends in `.architecture.rpm`.
pub open spec fn rpm_file_architecture(name: Seq<char>) -> Option<Seq<char>> {
    match before_suffix(name, ".rpm"@) {
        None => None,
        Some(stem) => match cut_last(stem, '.') {
            None => None,
            Some((_, architecture)) => Some(architecture),
        },
    }
}

/// The version that the key of an RPM payload names.
pub open spec fn rpm_key_version(prefix: Seq<char>, key: Seq<char>) -> Result<
    LinuxPackageVersionView,
    RemoteRpmPayloadVersionFromKeyErrorView,
> {
    match key_below(prefix, key) {
        None => Err(RemoteRpmPayloadVersionFromKeyErrorView::UnexpectedLayout { key }),
        Some(relative) => {
            let parts = pieces(relative, "/"@);
            if parts.len() < 3 {
                Err(RemoteRpmPayloadVersionFromKeyErrorView::UnexpectedLayout { key })
            } else {
                match rpm_file_architecture(parts.last()) {
                    Some(architecture) => Ok(
                        LinuxPackageVersionView {
                            package: parts[0],
                            version: parts[1],
                            architecture,
                        },
                    ),
                    None => Err(RemoteRpmPayloadVersionFromKeyErrorView::MissingRpmFilename { key }),
                }
            }
        },
    }
}

/// What follows the prefix and a slash in a key.
pub(crate) fn strip_remote_prefix(prefix: &RemotePrefix, key: &str) -> (rest: Option<String>)
    ensures
        rest.deep_view() == key_below(prefix.deep_view(), key@),
{
    match strip_prefix(key, prefix.as_str()) {
        Some(rest) => strip_prefix(rest.as_str(), "/"),
        None => None,
    }
}

fn read_deb_file_name(name: &str) -> (version: Option<LinuxPackageVersion>)
    ensures
        version.deep_view() == deb_file_version(name@),
{
    let stem = match strip_suffix(name, ".deb") {
        Some(stem) => stem,
        None => {
            return None;
        },
    };
    let (rest, architecture) = match rsplit_once(stem.as_str(), '_') {
        Some(cut) => cut,
        None => {
            return None;
        },
    };
    match split_once(rest.as_str(), '_') {
        Some((package, version)) => Some(LinuxPackageVersion { package, version, architecture }),
        None => None,
    }
}

/// The version that the key of a Debian payload names.
pub fn remote_deb_payload_version_from_key(prefix: &RemotePrefix, key: &str) -> (version: Result<
    LinuxPackageVersion,
    RemoteDebPayloadVersionFromKeyError,
>)
    ensures
        outcome(version) == deb_key_version(prefix.deep_view(), key@),
{
    let relative = match strip_remote_prefix(prefix, key) {
        Some(relative) => relative,
        None => {
            return Err(
                RemoteDebPayloadVersionFromKeyError::UnexpectedLayout { key: key.to_owned() },
            );
        },
    };
    proof {
        reveal_strlit("/");
    }
    let parts = split(relative.as_str(), "/");
    let ghost all = pieces(relative@, "/"@);
    assert(deep(parts@).len() == parts@.len());
    if parts.len() != 5 {
        return Err(RemoteDebPayloadVersionFromKeyError::UnexpectedLayout { key: key.to_owned() });
    }
    assert(deep(parts@)[0] == parts@[0]@ && deep(parts@)[1] == parts@[1]@ && deep(parts@)[4]
        == parts@[4]@);
    if !same_text(parts[0].as_str(), "pool") || !same_text(parts[1].as_str(), "main") {
        return Err(RemoteDebPayloadVersionFromKeyError::UnexpectedLayout { key: key.to_owned() });
    }
    match read_deb_file_name(parts[4].as_str()) {
        Some(version) => Ok(version),
        None => Err(
            RemoteDebPayloadVersionFromKeyError::MissingDebFilename { key: key.to_owned() },
        ),
    }
}

/// The architecture of an RPM file name.
pub(crate) fn read_rpm_architecture(name: &str) -> (architecture: Option<String>)
    ensures
        architecture.deep_view() == rpm_file_architecture(name@),
{
    match strip_suffix(name, ".rpm") {
        Some(stem) => match rsplit_once(stem.as_str(), '.') {
            Some((_, architecture)) => Some(architecture),
            None => None,
        },
        None => None,
    }
}

/// The version that the key of an RPM payload names.
pub fn remote_rpm_payload_version_from_key(prefix: &RemotePrefix, key: &str) -> (version: Result<
    LinuxPackageVersion,
    RemoteRpmPayloadVersionFromKeyError,
>)
    ensures
        outcome(version) == rpm_key_version(prefix.deep_view(), key@),
{
    let relative = match strip_remote_prefix(prefix, key) {
        Some(relative) => relative,
        None => {
            return Err(
                RemoteRpmPayloadVersionFromKeyError::UnexpectedLayout { key: key.to_owned() },
            );
        },
    };
    proof {
        reveal_strlit("/");
    }
    let parts = split(relative.as_str(), "/");
    assert(deep(parts@).len() == parts@.len());
    if parts.len() < 3 {
        return Err(RemoteRpmPayloadVersionFromKeyError::UnexpectedLayout { key: key.to_owned() });
    }
    assert(deep(parts@)[0] == parts@[0]@ && deep(parts@)[1] == parts@[1]@ && deep(parts@).last()
        == parts@.last()@);
    match read_rpm_architecture(parts[parts.len() - 1].as_str()) {
        Some(architecture) => Ok(
            LinuxPackageVersion {
                package: parts[0].clone(),
                version: parts[1].clone(),
                architecture,
            },
        ),
        None => Err(
            RemoteRpmPayloadVersionFromKeyError::MissingRpmFilename { key: key.to_owned() },
        ),
    }
}

/// Why remote keys give no Debian entries.
#[derive(Debug, PartialEq, Eq)]
pub enum RemoteDebPackageEntriesFromKeysError {
    /// Reported as `failed to parse remote deb payload version`.
    Version { source: RemoteDebPayloadVersionFromKeyError },
    /// Reported as `remote deb payload key {key} has unexpected layout`.
    UnexpectedLayout { key: String },
}

/// What a [`RemoteDebPackageEntriesFromKeysError`] holds.
pub enum RemoteDebPackageEntriesFromKeysErrorView {
    Version { source: RemoteDebPayloadVersionFromKeyErrorView },
    UnexpectedLayout { key: Seq<char> },
}

impl DeepView for RemoteDebPackageEntriesFromKeysError {
    type V = RemoteDebPackageEntriesFromKeysErrorView;

    open spec fn deep_view(&self) -> RemoteDebPackageEntriesFromKeysErrorView {
        match self {
            RemoteDebPackageEntriesFromKeysError::Version { source } => RemoteDebPackageEntriesFromKeysErrorView::Version {
                source: source.deep_view(),
            },
            RemoteDebPackageEntriesFromKeysError::UnexpectedLayout { key } => RemoteDebPackageEntriesFromKeysErrorView::UnexpectedLayout {
                key: key@,
            },
        }
    }
}

impl RemoteDebPackageEntriesFromKeysErrorView {
    /// The message of the error.
    pub open spec fn message(self) -> Seq<char> {
        match self {
            RemoteDebPackageEntriesFromKeysErrorView::Version { .. } => "failed to parse remote deb payload version"@,
            RemoteDebPackageEntriesFromKeysErrorView::UnexpectedLayout { key } => "remote deb payload key "@ + key + " has unexpected layout"@,
        }
    }
}

impl RemoteDebPackageEntriesFromKeysError {
    /// The message of the error.
    pub fn to_string(&self) -> (text: String)
        ensures
            text@ == self.deep_view().message(),
    {
        match self {
            RemoteDebPackageEntriesFromKeysError::Version { .. } => "failed to parse remote deb payload version".to_owned(),
            RemoteDebPackageEntriesFromKeysError::UnexpectedLayout { key } => {
                let mut text = "remote deb payload key ".to_owned();
                text.append(key.as_str());
                text.append(" has unexpected layout");
                text
            },
        }
    }
}

/// The entries of the keys from `from` on, after those already `found`.
pub open spec fn key_entries(
    prefix: Seq<char>,
    keys: Seq<Seq<char>>,
    from: int,
    found: Seq<RemoteDebPackageEntryView>,
) -> Result<Seq<RemoteDebPackageEntryView>, RemoteDebPackageEntriesFromKeysErrorView>
    decreases keys.len() - from,
{
    if from < 0 || from >= keys.len() {
        Ok(found)
    } else {
        match deb_key_version(prefix, keys[from]) {
            Err(source) => Err(RemoteDebPackageEntriesFromKeysErrorView::Version { source }),
            Ok(version) => match key_below(prefix, keys[from]) {
                None => Err(
                    RemoteDebPackageEntriesFromKeysErrorView::UnexpectedLayout { key: keys[from] },
                ),
                Some(filename) => key_entries(
                    prefix,
                    keys,
                    from + 1,
                    found.push(RemoteDebPackageEntryView { version, filename }),
                ),
            },
        }
    }
}

/// The entries that the keys of Debian payloads name.
pub fn remote_deb_package_entries_from_keys(
    prefix: &RemotePrefix,
    keys: &Vec<String>,
) -> (entries: Result<Vec<RemoteDebPackageEntry>, RemoteDebPackageEntriesFromKeysError>)
    ensures
        outcomes(entries) == key_entries(prefix.deep_view(), deep(keys@), 0, Seq::empty()),
{
    let mut entries: Vec<RemoteDebPackageEntry> = Vec::new();
    let mut i: usize = 0;
    while i < keys.len()
        invariant
            i <= keys@.len(),
            key_entries(prefix.deep_view(), deep(keys@), 0, Seq::empty()) == key_entries(
                prefix.deep_view(),
                deep(keys@),
                i as int,
                deep(entries@),
            ),
        decreases keys@.len() - i,
    {
        let key = keys[i].as_str();
        assert(deep(keys@)[i as int] == key@);
        let version = match remote_deb_payload_version_from_key(prefix, key) {
            Ok(version) => version,
            Err(source) => {
                return Err(RemoteDebPackageEntriesFromKeysError::Version { source });
            },
        };
        match strip_remote_prefix(prefix, key) {
            Some(filename) => {
                entries.push(RemoteDebPackageEntry { version, filename });
            },
            None => {
                return Err(
                    RemoteDebPackageEntriesFromKeysError::UnexpectedLayout { key: key.to_owned() },
                );
            },
        }
        i = i + 1;
    }
    Ok(entries)
}

/// Why remote keys give no Linux package versions.
#[allow(inconsistent_fields)]
#[derive(Debug, PartialEq, Eq)]
pub enum RemoteLinuxPayloadVersionsFromKeysError {
    /// Reported as `{system} package systems do not define linux payload versions`.
    UnsupportedSystem { system: PackageSystem },
    /// Reported as `failed to parse remote deb payload version`.
    Deb { source: RemoteDebPayloadVersionFromKeyError },
    /// Reported as `failed to parse remote rpm payload version`.
    Rpm { source: RemoteRpmPayloadVersionFromKeyError },
}

/// What a [`RemoteLinuxPayloadVersionsFromKeysError`] holds.
#[allow(inconsistent_fields)]
pub enum RemoteLinuxPayloadVersionsFromKeysErrorView {
    UnsupportedSystem { system: PackageSystem },
    Deb { source: RemoteDebPayloadVersionFromKeyErrorView },
    Rpm { source: RemoteRpmPayloadVersionFromKeyErrorView },
}

impl DeepView for RemoteLinuxPayloadVersionsFromKeysError {
    type V = RemoteLinuxPayloadVersionsFromKeysErrorView;

    open spec fn deep_view(&self) -> RemoteLinuxPayloadVersionsFromKeysErrorView {
        match self {
            RemoteLinuxPayloadVersionsFromKeysError::UnsupportedSystem { system } => RemoteLinuxPayloadVersionsFromKeysErrorView::UnsupportedSystem {
                system: *system,
            },
            RemoteLinuxPayloadVersionsFromKeysError::Deb { source } => RemoteLinuxPayloadVersionsFromKeysErrorView::Deb {
                source: source.deep_view(),
            },
            RemoteLinuxPayloadVersionsFromKeysError::Rpm { source } => RemoteLinuxPayloadVersionsFromKeysErrorView::Rpm {
                source: source.deep_view(),
            },
        }
    }
}

impl RemoteLinuxPayloadVersionsFromKeysErrorView {
    /// The message of the error.
    pub open spec fn message(self) -> Seq<char> {
        match self {
            RemoteLinuxPayloadVersionsFromKeysErrorView::UnsupportedSystem { system } => system_name(system) + " package systems do not define linux payload versions"@,
            RemoteLinuxPayloadVersionsFromKeysErrorView::Deb { .. } => "failed to parse remote deb payload version"@,
            RemoteLinuxPayloadVersionsFromKeysErrorView::Rpm { .. } => "failed to parse remote rpm payload version"@,
        }
    }
}

impl RemoteLinuxPayloadVersionsFromKeysError {
    /// The message of the error.
    pub fn to_string(&self) -> (text: String)
        ensures
            text@ == self.deep_view().message(),
    {
        match self {
            RemoteLinuxPayloadVersionsFromKeysError::UnsupportedSystem { system } => {
                let mut text = system.as_str().to_owned();
                text.append(" package systems do not define linux payload versions");
                text
            },
            RemoteLinuxPayloadVersionsFromKeysError::Deb { .. } => "failed to parse remote deb payload version".to_owned(),
            RemoteLinuxPayloadVersionsFromKeysError::Rpm { .. } => "failed to parse remote rpm payload version".to_owned(),
        }
    }
}

/// The version that the key of a Linux payload names.
pub open spec fn key_version(system: PackageSystem, prefix: Seq<char>, key: Seq<char>) -> Result<
    LinuxPackageVersionView,
    RemoteLinuxPayloadVersionsFromKeysErrorView,
> {
    match system {
        PackageSystem::Deb => match deb_key_version(prefix, key) {
            Ok(version) => Ok(version),
            Err(source) => Err(RemoteLinuxPayloadVersionsFromKeysErrorView::Deb { source }),
        },
        PackageSystem::Rpm => match rpm_key_version(prefix, key) {
            Ok(version) => Ok(version),
            Err(source) => Err(RemoteLinuxPayloadVersionsFromKeysErrorView::Rpm { source }),
        },
        _ => Err(RemoteLinuxPayloadVersionsFromKeysErrorView::UnsupportedSystem { system }),
    }
}

/// The versions of the keys from `from` on, after those already `found`.
pub open spec fn key_versions(
    system: PackageSystem,
    prefix: Seq<char>,
    keys: Seq<Seq<char>>,
    from: int,
    found: Seq<LinuxPackageVersionView>,
) -> Result<Seq<LinuxPackageVersionView>, RemoteLinuxPayloadVersionsFromKeysErrorView>
    decreases keys.len() - from,
{
    if from < 0 || from >= keys.len() {
        Ok(found)
    } else {
        match key_version(system, prefix, keys[from]) {
            Err(error) => Err(error),
            Ok(version) => key_versions(system, prefix, keys, from + 1, found.push(version)),
        }
    }
}

/// The versions that remote keys name.
pub open spec fn remote_versions(
    system: PackageSystem,
    prefix: Seq<char>,
    keys: Seq<Seq<char>>,
) -> Result<Seq<LinuxPackageVersionView>, RemoteLinuxPayloadVersionsFromKeysErrorView> {
    if is_linux_system(system) {
        key_versions(system, prefix, keys, 0, Seq::empty())
    } else {
        Err(RemoteLinuxPayloadVersionsFromKeysErrorView::UnsupportedSystem { system })
    }
}

fn remote_version_from_key(system: PackageSystem, prefix: &RemotePrefix, key: &str) -> (version:
    Result<LinuxPackageVersion, RemoteLinuxPayloadVersionsFromKeysError>)
    ensures
        outcome(version) == key_version(system, prefix.deep_view(), key@),
{
    match system {
        PackageSystem::Deb => match remote_deb_payload_version_from_key(prefix, key) {
            Ok(version) => Ok(version),
            Err(source) => Err(RemoteLinuxPayloadVersionsFromKeysError::Deb { source }),
        },
        PackageSystem::Rpm => match remote_rpm_payload_version_from_key(prefix, key) {
            Ok(version) => Ok(version),
            Err(source) => Err(RemoteLinuxPayloadVersionsFromKeysError::Rpm { source }),
        },
        PackageSystem::Brew | PackageSystem::Scoop => Err(
            RemoteLinuxPayloadVersionsFromKeysError::UnsupportedSystem { system },
        ),
    }
}

/// The versions that remote keys name.
pub fn remote_linux_payload_versions_from_keys(
    system: PackageSystem,
    prefix: &RemotePrefix,
    keys: &Vec<String>,
) -> (versions: Result<Vec<LinuxPackageVersion>, RemoteLinuxPayloadVersionsFromKeysError>)
    ensures
        outcomes(versions) == remote_versions(system, prefix.deep_view(), deep(keys@)),
{
    if !system.is_linux() {
        return Err(RemoteLinuxPayloadVersionsFromKeysError::UnsupportedSystem { system });
    }
    let mut versions: Vec<LinuxPackageVersion> = Vec::new();
    let mut i: usize = 0;
    while i < keys.len()
        invariant
            i <= keys@.len(),
            key_versions(system, prefix.deep_view(), deep(keys@), 0, Seq::empty())
                == key_versions(
                system,
                prefix.deep_view(),
                deep(keys@),
                i as int,
                deep(versions@),
            ),
            is_linux_system(system),
        decreases keys@.len() - i,
    {
        let key = keys[i].as_str();
        assert(deep(keys@)[i as int] == key@);
        match remote_version_from_key(system, prefix, key) {
            Ok(version) => {
                versions.push(version);
            },
            Err(error) => {
                return Err(error);
            },
        }
        i = i + 1;
    }
    Ok(versions)
}

// ---------------------------------------------------------------------------
// Payloads of a manifest
// ---------------------------------------------------------------------------
/// Why a manifest gives no Linux payloads.
#[derive(Debug, PartialEq, Eq)]
pub enum LinuxPackagePayloadsFromManifestError {
    /// Reported as `{system} package manifest does not contain linux package payloads`.
    WrongKind { system: PackageSystem },
    /// Reported as `linux package artifact is missing package name`.
    MissingPackageName,
    /// Reported as `linux package artifact is missing package version`.
    MissingPackageVersion,
    /// Reported as `linux package artifact is missing architecture`.
    MissingArchitecture,
    /// Reported as `linux package artifact is missing archive name`.
    MissingArchiveName,
}

/// What a [`LinuxPackagePayloadsFromManifestError`] holds.
pub enum LinuxPackagePayloadsFromManifestErrorView {
    WrongKind { system: PackageSystem },
    MissingPackageName,
    MissingPackageVersion,
    MissingArchitecture,
    MissingArchiveName,
}

impl DeepView for LinuxPackagePayloadsFromManifestError {
    type V = LinuxPackagePayloadsFromManifestErrorView;

    open spec fn deep_view(&self) -> LinuxPackagePayloadsFromManifestErrorView {
        match self {
            LinuxPackagePayloadsFromManifestError::WrongKind { system } => LinuxPackagePayloadsFromManifestErrorView::WrongKind {
                system: *system,
            },
            LinuxPackagePayloadsFromManifestError::MissingPackageName => LinuxPackagePayloadsFromManifestErrorView::MissingPackageName,
            LinuxPackagePayloadsFromManifestError::MissingPackageVersion => LinuxPackagePayloadsFromManifestErrorView::MissingPackageVersion,
            LinuxPackagePayloadsFromManifestError::MissingArchitecture => LinuxPackagePayloadsFromManifestErrorView::MissingArchitecture,
            LinuxPackagePayloadsFromManifestError::MissingArchiveName => LinuxPackagePayloadsFromManifestErrorView::MissingArchiveName,
        }
    }
}

impl LinuxPackagePayloadsFromManifestErrorView {
    /// The message of the error.
    pub open spec fn message(self) -> Seq<char> {
        match self {
            LinuxPackagePayloadsFromManifestErrorView::WrongKind { system } => system_name(system) + " package manifest does not contain linux package payloads"@,
            LinuxPackagePayloadsFromManifestErrorView::MissingPackageName => "linux package artifact is missing package name"@,
            LinuxPackagePayloadsFromManifestErrorView::MissingPackageVersion => "linux package artifact is missing package version"@,
            LinuxPackagePayloadsFromManifestErrorView::MissingArchitecture => "linux package artifact is missing architecture"@,
            LinuxPackagePayloadsFromManifestErrorView::MissingArchiveName => "linux package artifact is missing archive name"@,
        }
    }
}

impl LinuxPackagePayloadsFromManifestError {
    /// The message of the error.
    pub fn to_string(&self) -> (text: String)
        ensures
            text@ == self.deep_view().message(),
    {
        match self {
            LinuxPackagePayloadsFromManifestError::WrongKind { system } => {
                let mut text = system.as_str().to_owned();
                text.append(" package manifest does not contain linux package payloads");
                text
            },
            LinuxPackagePayloadsFromManifestError::MissingPackageName => "linux package artifact is missing package name".to_owned(),
            LinuxPackagePayloadsFromManifestError::MissingPackageVersion => "linux package artifact is missing package version".to_owned(),
            LinuxPackagePayloadsFromManifestError::MissingArchitecture => "linux package artifact is missing architecture".to_owned(),
            LinuxPackagePayloadsFromManifestError::MissingArchiveName => "linux package artifact is missing archive name".to_owned(),
        }
    }
}

/// The payload of one artifact of a Linux manifest.
pub open spec fn artifact_payload(artifact: PackageArtifactView) -> Result<
    LinuxPackagePayloadView,
    LinuxPackagePayloadsFromManifestErrorView,
> {
    match (
        artifact.package_name,
        artifact.package_version,
        artifact.architecture,
        artifact.archive_name,
    ) {
        (None, _, _, _) => Err(LinuxPackagePayloadsFromManifestErrorView::MissingPackageName),
        (Some(_), None, _, _) => Err(
            LinuxPackagePayloadsFromManifestErrorView::MissingPackageVersion,
        ),
        (Some(_), Some(_), None, _) => Err(
            LinuxPackagePayloadsFromManifestErrorView::MissingArchitecture,
        ),
        (Some(_), Some(_), Some(_), None) => Err(
            LinuxPackagePayloadsFromManifestErrorView::MissingArchiveName,
        ),
        (Some(package), Some(version), Some(architecture), Some(archive_name)) => Ok(
            LinuxPackagePayloadView {
                package,
                version,
                architecture,
                archive_name,
                path: artifact.path,
            },
        ),
    }
}

/// The payloads of the artifacts from `from` on, after those already `found`.
pub open spec fn artifact_payloads(
    artifacts: Seq<PackageArtifactView>,
    from: int,
    found: Seq<LinuxPackagePayloadView>,
) -> Result<Seq<LinuxPackagePayloadView>, LinuxPackagePayloadsFromManifestErrorView>
    decreases artifacts.len() - from,
{
    if from < 0 || from >= artifacts.len() {
        Ok(found)
    } else {
        match artifact_payload(artifacts[from]) {
            Err(error) => Err(error),
            Ok(payload) => artifact_payloads(artifacts, from + 1, found.push(payload)),
        }
    }
}

/// The payloads of a Linux manifest.
pub open spec fn manifest_payloads(manifest: PackageManifestView) -> Result<
    Seq<LinuxPackagePayloadView>,
    LinuxPackagePayloadsFromManifestErrorView,
> {
    if is_linux_system(manifest.kind) {
        artifact_payloads(manifest.artifacts, 0, Seq::empty())
    } else {
        Err(LinuxPackagePayloadsFromManifestErrorView::WrongKind { system: manifest.kind })
    }
}

fn payload_of(artifact: &PackageArtifact) -> (payload: Result<
    LinuxPackagePayload,
    LinuxPackagePayloadsFromManifestError,
>)
    ensures
        outcome(payload) == artifact_payload(artifact.deep_view()),
{
    let package = match &artifact.package_name {
        Some(text) => text.clone(),
        None => {
            return Err(LinuxPackagePayloadsFromManifestError::MissingPackageName);
        },
    };
    let version = match &artifact.package_version {
        Some(text) => text.clone(),
        None => {
            return Err(LinuxPackagePayloadsFromManifestError::MissingPackageVersion);
        },
    };
    let architecture = match &artifact.architecture {
        Some(text) => text.clone(),
        None => {
            return Err(LinuxPackagePayloadsFromManifestError::MissingArchitecture);
        },
    };
    let archive_name = match &artifact.archive_name {
        Some(text) => text.clone(),
        None => {
            return Err(LinuxPackagePayloadsFromManifestError::MissingArchiveName);
        },
    };
    Ok(
        LinuxPackagePayload {
            package,
            version,
            architecture,
            archive_name,
            path: artifact.path.clone(),
        },
    )
}

/// The payloads of a Linux manifest.
pub fn linux_package_payloads_from_manifest(manifest: &PackageManifest) -> (payloads: Result<
    Vec<LinuxPackagePayload>,
    LinuxPackagePayloadsFromManifestError,
>)
    ensures
        outcomes(payloads) == manifest_payloads(manifest.deep_view()),
{
    if !manifest.kind.is_linux() {
        return Err(LinuxPackagePayloadsFromManifestError::WrongKind { system: manifest.kind });
    }
    let mut payloads: Vec<LinuxPackagePayload> = Vec::new();
    let mut i: usize = 0;
    while i < manifest.artifacts.len()
        invariant
            i <= manifest.artifacts@.len(),
            is_linux_system(manifest.kind),
            manifest_payloads(manifest.deep_view()) == artifact_payloads(
                deep(manifest.artifacts@),
                i as int,
                deep(payloads@),
            ),
        decreases manifest.artifacts@.len() - i,
    {
        assert(deep(manifest.artifacts@)[i as int] == manifest.artifacts@[i as int].deep_view());
        match payload_of(&manifest.artifacts[i]) {
            Ok(payload) => {
                payloads.push(payload);
            },
            Err(error) => {
                return Err(error);
            },
        }
        i = i + 1;
    }
    Ok(payloads)
}

// ---------------------------------------------------------------------------
// Upload order
// ---------------------------------------------------------------------------
/// A package system without Linux repository.
#[derive(Debug, PartialEq, Eq)]
pub enum LinuxRepositoryUploadOrderError {
    /// Reported as `{system} repositories do not define linux metadata upload order`.
    UnsupportedSystem { system: PackageSystem },
}

/// What a [`LinuxRepositoryUploadOrderError`] holds.
pub enum LinuxRepositoryUploadOrderErrorView {
    UnsupportedSystem { system: PackageSystem },
}

impl DeepView for LinuxRepositoryUploadOrderError {
    type V = LinuxRepositoryUploadOrderErrorView;

    open spec fn deep_view(&self) -> LinuxRepositoryUploadOrderErrorView {
        match self {
            LinuxRepositoryUploadOrderError::UnsupportedSystem { system } => LinuxRepositoryUploadOrderErrorView::UnsupportedSystem {
                system: *system,
            },
        }
    }
}

impl LinuxRepositoryUploadOrderErrorView {
    /// The message of the error.
    pub open spec fn message(self) -> Seq<char> {
        match self {
            LinuxRepositoryUploadOrderErrorView::UnsupportedSystem { system } => system_name(system) + " repositories do not define linux metadata upload order"@,
        }
    }
}

impl LinuxRepositoryUploadOrderError {
    /// The message of the error.
    pub fn to_string(&self) -> (text: String)
        ensures
            text@ == self.deep_view().message(),
    {
        match self {
            LinuxRepositoryUploadOrderError::UnsupportedSystem { system } => {
                let mut text = system.as_str().to_owned();
                text.append(" repositories do not define linux metadata upload order");
                text
            },
        }
    }
}

/// The rank of a key of a Debian repository: packages, then the indexes of the
/// architectures, then other metadata, then the signatures.
pub open spec fn deb_upload_rank(key: Seq<char>) -> u8 {
    if contains_text(key, "/pool/"@) || has_prefix(key, "pool/"@) {
        0
    } else if contains_text(key, "/binary-"@) {
        1
    } else if has_suffix(key, "InRelease"@) {
        4
    } else if has_suffix(key, "Release.gpg"@) {
        3
    } else {
        2
    }
}

/// The rank of a key of an RPM repository: packages, then metadata, then their index.
pub open spec fn rpm_upload_rank(key: Seq<char>) -> u8 {
    if has_suffix(key, ".rpm"@) {
        0
    } else if has_suffix(key, "repodata/repomd.xml"@) {
        4
    } else {
        2
    }
}

/// The rank of a key of a Linux repository.
pub open spec fn upload_rank(system: PackageSystem, key: Seq<char>) -> Result<
    u8,
    LinuxRepositoryUploadOrderErrorView,
> {
    match system {
        PackageSystem::Deb => Ok(deb_upload_rank(key)),
        PackageSystem::Rpm => Ok(rpm_upload_rank(key)),
        _ => Err(LinuxRepositoryUploadOrderErrorView::UnsupportedSystem { system }),
    }
}

fn deb_repository_upload_order(key: &str) -> (rank: u8)
    ensures
        rank == deb_upload_rank(key@),
{
    if contains(key, "/pool/") || starts_with(key, "pool/") {
        return 0;
    }
    if contains(key, "/binary-") {
        return 1;
    }
    if ends_with(key, "InRelease") {
        return 4;
    }
    if ends_with(key, "Release.gpg") {
        return 3;
    }
    2
}

fn rpm_repository_upload_order(key: &str) -> (rank: u8)
    ensures
        rank == rpm_upload_rank(key@),
{
    if ends_with(key, ".rpm") {
        return 0;
    }
    if ends_with(key, "repodata/repomd.xml") {
        return 4;
    }
    2
}

/// The rank of a key in the order in which a Linux repository is uploaded.
pub fn linux_repository_upload_order(system: PackageSystem, key: &str) -> (rank: Result<
    u8,
    LinuxRepositoryUploadOrderError,
>)
    ensures
        outcome(rank) == upload_rank(system, key@),
{
    match system {
        PackageSystem::Deb => Ok(deb_repository_upload_order(key)),
        PackageSystem::Rpm => Ok(rpm_repository_upload_order(key)),
        PackageSystem::Brew | PackageSystem::Scoop => Err(
            LinuxRepositoryUploadOrderError::UnsupportedSystem { system },
        ),
    }
}

/// Packages come before entries in the order in which objects are uploaded.
pub fn publish_upload_order(entry: bool) -> (rank: u8)
    ensures
        rank == (if entry {
            1u8
        } else {
            0u8
        }),
{
    if entry {
        1
    } else {
        0
    }
}

// ---------------------------------------------------------------------------
// What is newer than what is published
// ---------------------------------------------------------------------------
/// `order` says what the comparison `compare` returns.
pub open spec fn compares_as<E, F: Fn(&str, &str) -> Result<Ordering, E>>(
    compare: F,
    order: spec_fn(Seq<char>, Seq<char>) -> Result<Ordering, E>,
) -> bool {
    forall|left: &str, right: &str, answer: Result<Ordering, E>|
        #[trigger] call_ensures(compare, (left, right), answer) ==> answer == order(left@, right@)
}

/// The comparison can be made of all texts.
pub open spec fn compares_all<E, F: Fn(&str, &str) -> Result<Ordering, E>>(compare: F) -> bool {
    forall|left: &str, right: &str| #[trigger] call_requires(compare, (left, right))
}

/// The package and the architecture of a version.
pub open spec fn version_key(version: LinuxPackageVersionView) -> (Seq<char>, Seq<char>) {
    (version.package, version.architecture)
}

/// The package and the architecture of a payload.
pub open spec fn payload_place(payload: LinuxPackagePayloadView) -> (Seq<char>, Seq<char>) {
    (payload.package, payload.architecture)
}

/// The latest version of each package and architecture among the versions from `from` on
/// and those in `latest`.
pub open spec fn latest_versions<E>(
    order: spec_fn(Seq<char>, Seq<char>) -> Result<Ordering, E>,
    versions: Seq<LinuxPackageVersionView>,
    from: int,
    latest: Map<(Seq<char>, Seq<char>), Seq<char>>,
) -> Result<Map<(Seq<char>, Seq<char>), Seq<char>>, E>
    decreases versions.len() - from,
{
    if from < 0 || from >= versions.len() {
        Ok(latest)
    } else {
        let key = version_key(versions[from]);
        let version = versions[from].version;
        if !latest.contains_key(key) {
            latest_versions(order, versions, from + 1, latest.insert(key, version))
        } else {
            match order(version, latest[key]) {
                Err(error) => Err(error),
                Ok(Ordering::Greater) => latest_versions(
                    order,
                    versions,
                    from + 1,
                    latest.insert(key, version),
                ),
                Ok(_) => latest_versions(order, versions, from + 1, latest),
            }
        }
    }
}

/// The payloads from `from` on that are newer than the latest version, after those
/// already `chosen`.
pub open spec fn newer_payloads<E>(
    order: spec_fn(Seq<char>, Seq<char>) -> Result<Ordering, E>,
    latest: Map<(Seq<char>, Seq<char>), Seq<char>>,
    payloads: Seq<LinuxPackagePayloadView>,
    from: int,
    chosen: Seq<LinuxPackagePayloadView>,
) -> Result<Seq<LinuxPackagePayloadView>, E>
    decreases payloads.len() - from,
{
    if from < 0 || from >= payloads.len() {
        Ok(chosen)
    } else {
        let payload = payloads[from];
        if !latest.contains_key(payload_place(payload)) {
            newer_payloads(order, latest, payloads, from + 1, chosen.push(payload))
        } else {
            match order(payload.version, latest[payload_place(payload)]) {
                Err(error) => Err(error),
                Ok(Ordering::Greater) => newer_payloads(
                    order,
                    latest,
                    payloads,
                    from + 1,
                    chosen.push(payload),
                ),
                Ok(_) => newer_payloads(order, latest, payloads, from + 1, chosen),
            }
        }
    }
}

/// The payloads that are newer than every published version of their package and
/// architecture.
pub open spec fn publishable_payloads<E>(
    order: spec_fn(Seq<char>, Seq<char>) -> Result<Ordering, E>,
    payloads: Seq<LinuxPackagePayloadView>,
    published: Seq<LinuxPackageVersionView>,
) -> Result<Seq<LinuxPackagePayloadView>, E> {
    match latest_versions(order, published, 0, Map::empty()) {
        Err(error) => Err(error),
        Ok(latest) => newer_payloads(order, latest, payloads, 0, Seq::empty()),
    }
}

/// `compare` may answer `answer` when it is asked about two texts.
pub open spec fn may_answer<E, F: Fn(&str, &str) -> Result<Ordering, E>>(
    compare: F,
    left: Seq<char>,
    right: Seq<char>,
    answer: Result<Ordering, E>,
) -> bool {
    exists|first: &str, second: &str|
        first@ == left && second@ == right && #[trigger] call_ensures(
            compare,
            (first, second),
            answer,
        )
}

/// Some version of the package and architecture of a payload is published.
pub open spec fn is_published(
    published: Seq<LinuxPackageVersionView>,
    payload: LinuxPackagePayloadView,
) -> bool {
    exists|j: int|
        0 <= j < published.len() && version_key(#[trigger] published[j]) == payload_place(payload)
}

/// The comparison of a payload with some published version of its package and architecture
/// may tell whether it is newer as `newer` says.
pub open spec fn may_be_newer<E, F: Fn(&str, &str) -> Result<Ordering, E>>(
    compare: F,
    published: Seq<LinuxPackageVersionView>,
    payload: LinuxPackagePayloadView,
    newer: bool,
) -> bool {
    exists|j: int, answer: Ordering|
        0 <= j < published.len() && version_key(#[trigger] published[j]) == payload_place(payload)
            && #[trigger] may_answer(
            compare,
            payload.version,
            published[j].version,
            Ok::<Ordering, E>(answer),
        ) && newer == (answer is Greater)
}

/// Those items that are marked, in their order.
pub open spec fn marked_items<T>(items: Seq<T>, marks: Seq<bool>) -> Seq<T>
    decreases items.len(),
{
    if items.len() == 0 || marks.len() != items.len() {
        Seq::empty()
    } else if marks.last() {
        marked_items(items.drop_last(), marks.drop_last()).push(items.last())
    } else {
        marked_items(items.drop_last(), marks.drop_last())
    }
}

/// The marks of payloads are right: one of which nothing is published is marked, and any
/// other one is marked where a comparison found it newer, and not marked where a comparison
/// did not.
pub open spec fn marks_newer<E, F: Fn(&str, &str) -> Result<Ordering, E>>(
    compare: F,
    payloads: Seq<LinuxPackagePayloadView>,
    published: Seq<LinuxPackageVersionView>,
    marks: Seq<bool>,
) -> bool {
    &&& marks.len() == payloads.len()
    &&& forall|i: int|
        0 <= i < payloads.len() ==> if is_published(published, #[trigger] payloads[i]) {
            may_be_newer(compare, published, payloads[i], marks[i])
        } else {
            marks[i]
        }
}

/// Whatever `compare` does, it may lead to this choice among payloads: some of them, in
/// their order, with every one of which nothing is published.
pub open spec fn may_choose<E, F: Fn(&str, &str) -> Result<Ordering, E>>(
    compare: F,
    payloads: Seq<LinuxPackagePayloadView>,
    published: Seq<LinuxPackageVersionView>,
    chosen: Seq<LinuxPackagePayloadView>,
) -> bool {
    exists|marks: Seq<bool>|
        chosen == marked_items(payloads, marks) && #[trigger] marks_newer(
            compare,
            payloads,
            published,
            marks,
        )
}

/// A text is the version of a payload or a published version, of this package and
/// architecture.
pub open spec fn is_version_at(
    payloads: Seq<LinuxPackagePayloadView>,
    published: Seq<LinuxPackageVersionView>,
    place: (Seq<char>, Seq<char>),
    text: Seq<char>,
) -> bool {
    ||| exists|i: int|
        0 <= i < payloads.len() && payload_place(#[trigger] payloads[i]) == place
            && payloads[i].version == text
    ||| exists|i: int|
        0 <= i < published.len() && version_key(#[trigger] published[i]) == place
            && published[i].version == text
}

/// `compare` may refuse, with this error, to compare a version with a published version of
/// the same package and architecture.
pub open spec fn may_refuse<E, F: Fn(&str, &str) -> Result<Ordering, E>>(
    compare: F,
    payloads: Seq<LinuxPackagePayloadView>,
    published: Seq<LinuxPackageVersionView>,
    error: E,
) -> bool {
    exists|left: Seq<char>, j: int|
        0 <= j < published.len() && #[trigger] may_answer(
            compare,
            left,
            published[j].version,
            Err::<Ordering, E>(error),
        ) && is_version_at(payloads, published, version_key(published[j]), left)
}

/// Whatever `compare` does, this may come of selecting payloads: a choice among them or
/// what `compare` refuses with, and all of them where nothing is published.
pub open spec fn may_come_of<E, F: Fn(&str, &str) -> Result<Ordering, E>>(
    compare: F,
    payloads: Seq<LinuxPackagePayloadView>,
    published: Seq<LinuxPackageVersionView>,
    selected: Result<Seq<LinuxPackagePayloadView>, E>,
) -> bool {
    &&& match selected {
        Ok(chosen) => may_choose(compare, payloads, published, chosen),
        Err(error) => may_refuse(compare, payloads, published, error),
    }
    &&& published.len() == 0 ==> selected == Ok::<Seq<LinuxPackagePayloadView>, E>(payloads)
}

proof fn lemma_all_marked<T>(items: Seq<T>, marks: Seq<bool>)
    requires
        marks.len() == items.len(),
        forall|i: int| 0 <= i < marks.len() ==> #[trigger] marks[i],
    ensures
        marked_items(items, marks) == items,
    decreases items.len(),
{
    if items.len() > 0 {
        lemma_all_marked(items.drop_last(), marks.drop_last());
        assert(items.drop_last().push(items.last()) =~= items);
    } else {
        assert(marked_items(items, marks) =~= items);
    }
}

/// What a result of fallible selections holds.
pub open spec fn chosen_outcome<T: DeepView, E>(result: Result<Vec<T>, E>) -> Result<Seq<T::V>, E> {
    match result {
        Ok(values) => Ok(deep(values@)),
        Err(error) => Err(error),
    }
}

/// `places` points, for each key of `latest` and no other, once into `versions`, at the
/// version that `latest` gives.
spec fn points_at_latest(
    versions: Seq<LinuxPackageVersion>,
    places: Seq<usize>,
    latest: Map<(Seq<char>, Seq<char>), Seq<char>>,
) -> bool {
    &&& forall|k: int|
        0 <= k < places.len() ==> 0 <= #[trigger] places[k] < versions.len() && latest.contains_key(
            version_key(versions[places[k] + 0].deep_view()),
        ) && latest[version_key(versions[places[k] + 0].deep_view())] == versions[places[k]
            + 0].version@
    &&& forall|key: (Seq<char>, Seq<char>)| #[trigger]
        latest.contains_key(key) ==> exists|k: int|
            0 <= k < places.len() && version_key(versions[#[trigger] places[k] + 0].deep_view())
                == key
    &&& forall|k: int, l: int|
        0 <= k < l < places.len() ==> version_key(
            versions[#[trigger] places[k] + 0].deep_view(),
        ) != version_key(versions[#[trigger] places[l] + 0].deep_view())
}

/// The place in `places` of the latest version of a package and architecture.
fn latest_place(
    versions: &[LinuxPackageVersion],
    places: &Vec<usize>,
    package: &str,
    architecture: &str,
    Ghost(latest): Ghost<Map<(Seq<char>, Seq<char>), Seq<char>>>,
) -> (place: Option<usize>)
    requires
        points_at_latest(versions@, places@, latest),
    ensures
        match place {
            Some(k) => k < places@.len() && latest.contains_key((package@, architecture@))
                && version_key(versions@[places@[k as int] as int].deep_view()) == (
                package@,
                architecture@,
            ),
            None => !latest.contains_key((package@, architecture@)),
        },
{
    let mut k: usize = 0;
    while k < places.len()
        invariant
            k <= places@.len(),
            points_at_latest(versions@, places@, latest),
            forall|l: int|
                0 <= l < k ==> version_key(versions@[#[trigger] places@[l] + 0].deep_view()) != (
                package@,
                architecture@,
            ),
        decreases places@.len() - k,
    {
        let at: usize = places[k];
        assert(0 <= places@[k as int] < versions@.len());
        if same_text(versions[at].package.as_str(), package) && same_text(
            versions[at].architecture.as_str(),
            architecture,
        ) {
            assert(latest.contains_key(version_key(versions@[places@[k as int] + 0].deep_view())));
            return Some(k);
        }
        k = k + 1;
    }
    None
}

/// Whether `left` is newer than `right`.
fn is_newer<E, F: Fn(&str, &str) -> Result<Ordering, E>>(
    compare: &F,
    left: &str,
    right: &str,
) -> (newer: Result<bool, E>)
    requires
        compares_all(*compare),
    ensures
        forall|order: spec_fn(Seq<char>, Seq<char>) -> Result<Ordering, E>| #[trigger]
            compares_as(*compare, order) ==> newer == (match order(left@, right@) {
                Ok(answer) => Ok::<bool, E>(answer is Greater),
                Err(error) => Err(error),
            }),
        match newer {
            Ok(newer) => exists|answer: Ordering| #[trigger]
                may_answer(*compare, left@, right@, Ok::<Ordering, E>(answer)) && newer == (
                answer is Greater),
            Err(error) => may_answer(*compare, left@, right@, Err::<Ordering, E>(error)),
        },
{
    let answer = compare(left, right);
    assert(may_answer(*compare, left@, right@, answer));
    match answer {
        Ok(Ordering::Greater) => Ok(true),
        Ok(_) => Ok(false),
        Err(error) => Err(error),
    }
}

/// Points at the latest of the versions of each package and architecture.
fn find_latest<E, F: Fn(&str, &str) -> Result<Ordering, E>>(
    versions: &[LinuxPackageVersion],
    compare: &F,
) -> (found: Result<(Vec<usize>, Ghost<Map<(Seq<char>, Seq<char>), Seq<char>>>), E>)
    requires
        compares_all(*compare),
    ensures
        forall|order: spec_fn(Seq<char>, Seq<char>) -> Result<Ordering, E>| #[trigger]
            compares_as(*compare, order) ==> latest_versions(
                order,
                deep(versions@),
                0,
                Map::empty(),
            ) == (match found {
                Ok(pair) => Ok::<Map<(Seq<char>, Seq<char>), Seq<char>>, E>(pair.1@),
                Err(error) => Err(error),
            }),
        found matches Ok(pair) ==> points_at_latest(versions@, pair.0@, pair.1@) && forall|j: int|
            0 <= j < versions@.len() ==> pair.1@.contains_key(
                version_key(#[trigger] deep(versions@)[j]),
            ),
        found matches Err(error) ==> forall|payloads: Seq<LinuxPackagePayloadView>| #[trigger]
            may_refuse(*compare, payloads, deep(versions@), error),
{
    let mut places: Vec<usize> = Vec::new();
    let ghost mut latest: Map<(Seq<char>, Seq<char>), Seq<char>> = Map::empty();
    let ghost mut n: int = 0;
    let mut i: usize = 0;
    while i < versions.len()
        invariant
            n == i,
            n <= versions@.len(),
            compares_all(*compare),
            points_at_latest(versions@, places@, latest),
            forall|j: int|
                0 <= j < n ==> latest.contains_key(version_key(#[trigger] deep(versions@)[j])),
            forall|order: spec_fn(Seq<char>, Seq<char>) -> Result<Ordering, E>| #[trigger]
                compares_as(*compare, order) ==> latest_versions(
                    order,
                    deep(versions@),
                    0,
                    Map::empty(),
                ) == latest_versions(order, deep(versions@), n, latest),
        decreases versions@.len() - i,
    {
        let version = &versions[i];
        assert(deep(versions@)[n] == versions@[n].deep_view());
        let ghost key = version_key(version.deep_view());
        let ghost before = places@;
        match latest_place(
            versions,
            &places,
            version.package.as_str(),
            version.architecture.as_str(),
            Ghost(latest),
        ) {
            None => {
                places.push(i);
                proof {
                    lemma_point_at_new(versions@, before, latest, i);
                    latest = latest.insert(key, version.version@);
                }
            },
            Some(k) => {
                let current: usize = places[k];
                let ghost published = deep(versions@)[current + 0];
                assert(published == versions@[current + 0].deep_view());
                match is_newer(
                    compare,
                    version.version.as_str(),
                    versions[current].version.as_str(),
                ) {
                    Err(error) => {
                        assert(may_answer(
                            *compare,
                            version.version@,
                            published.version,
                            Err::<Ordering, E>(error),
                        ));
                        proof {
                            let all = deep(versions@);
                            assert forall|payloads: Seq<LinuxPackagePayloadView>| #[trigger]
                                may_refuse(*compare, payloads, all, error) by {
                                assert(version_key(all[n]) == version_key(published));
                                assert(is_version_at(
                                    payloads,
                                    all,
                                    version_key(all[current + 0]),
                                    version.version@,
                                ));
                                assert(may_answer(
                                    *compare,
                                    version.version@,
                                    all[current + 0].version,
                                    Err::<Ordering, E>(error),
                                ));
                            }
                        }
                        return Err(error);
                    },
                    Ok(newer) => {
                        if newer {
                            places.set(k, i);
                            proof {
                                lemma_point_at_newer(versions@, before, latest, k, i);
                                latest = latest.insert(key, version.version@);
                            }
                        }
                    },
                }
            },
        }
        proof {
            n = n + 1;
        }
        i = i + 1;
    }
    Ok((places, Ghost(latest)))
}

proof fn lemma_point_at_new(
    versions: Seq<LinuxPackageVersion>,
    places: Seq<usize>,
    latest: Map<(Seq<char>, Seq<char>), Seq<char>>,
    i: usize,
)
    requires
        points_at_latest(versions, places, latest),
        i < versions.len(),
        !latest.contains_key(version_key(versions[i + 0].deep_view())),
    ensures
        points_at_latest(
            versions,
            places.push(i),
            latest.insert(version_key(versions[i + 0].deep_view()), versions[i + 0].version@),
        ),
{
    let key = version_key(versions[i + 0].deep_view());
    let added = places.push(i);
    let grown = latest.insert(key, versions[i + 0].version@);
    assert forall|other: (Seq<char>, Seq<char>)| #[trigger]
        grown.contains_key(other) implies exists|k: int|
        0 <= k < added.len() && version_key(versions[#[trigger] added[k] + 0].deep_view()) == other by {
        if other == key {
            assert(added[added.len() - 1] == i);
        } else {
            assert(latest.contains_key(other));
            let k = choose|k: int|
                0 <= k < places.len() && version_key(versions[#[trigger] places[k] + 0].deep_view())
                    == other;
            assert(added[k] == places[k]);
        }
    }
    assert forall|k: int, l: int| 0 <= k < l < added.len() implies version_key(
        versions[#[trigger] added[k] + 0].deep_view(),
    ) != version_key(versions[#[trigger] added[l] + 0].deep_view()) by {
        assert(added[k] == places[k]);
        if l < places.len() {
            assert(added[l] == places[l]);
        }
    }
    assert forall|k: int| 0 <= k < added.len() implies 0 <= #[trigger] added[k] < versions.len()
        && grown.contains_key(version_key(versions[added[k] + 0].deep_view())) && grown[version_key(
        versions[added[k] + 0].deep_view(),
    )] == versions[added[k] + 0].version@ by {
        if k < places.len() {
            assert(added[k] == places[k]);
            assert(latest.contains_key(version_key(versions[places[k] + 0].deep_view())));
        }
    }
}

proof fn lemma_point_at_newer(
    versions: Seq<LinuxPackageVersion>,
    places: Seq<usize>,
    latest: Map<(Seq<char>, Seq<char>), Seq<char>>,
    at: usize,
    i: usize,
)
    requires
        points_at_latest(versions, places, latest),
        i < versions.len(),
        at < places.len(),
        version_key(versions[i + 0].deep_view()) == version_key(
            versions[places[at + 0] + 0].deep_view(),
        ),
    ensures
        points_at_latest(
            versions,
            places.update(at + 0, i),
            latest.insert(version_key(versions[i + 0].deep_view()), versions[i + 0].version@),
        ),
{
    let key = version_key(versions[i + 0].deep_view());
    let moved = places.update(at + 0, i);
    let grown = latest.insert(key, versions[i + 0].version@);
    assert forall|other: (Seq<char>, Seq<char>)| #[trigger]
        grown.contains_key(other) implies exists|k: int|
        0 <= k < moved.len() && version_key(versions[#[trigger] moved[k] + 0].deep_view()) == other by {
        if other == key {
            assert(moved[at + 0] == i);
        } else {
            assert(latest.contains_key(other));
            let k = choose|k: int|
                0 <= k < places.len() && version_key(versions[#[trigger] places[k] + 0].deep_view())
                    == other;
            assert(k != at);
            assert(moved[k] == places[k]);
        }
    }
    assert forall|k: int, l: int| 0 <= k < l < moved.len() implies version_key(
        versions[#[trigger] moved[k] + 0].deep_view(),
    ) != version_key(versions[#[trigger] moved[l] + 0].deep_view()) by {
        assert(version_key(versions[places[k] + 0].deep_view()) != version_key(
            versions[places[l] + 0].deep_view(),
        ));
        assert(version_key(versions[moved[k] + 0].deep_view()) == version_key(
            versions[places[k] + 0].deep_view(),
        ));
        assert(version_key(versions[moved[l] + 0].deep_view()) == version_key(
            versions[places[l] + 0].deep_view(),
        ));
    }
    assert forall|k: int| 0 <= k < moved.len() implies 0 <= #[trigger] moved[k] < versions.len()
        && grown.contains_key(version_key(versions[moved[k] + 0].deep_view())) && grown[version_key(
        versions[moved[k] + 0].deep_view(),
    )] == versions[moved[k] + 0].version@ by {
        if k != at {
            assert(moved[k] == places[k]);
            assert(latest.contains_key(version_key(versions[places[k] + 0].deep_view())));
            if k < at {
                assert(version_key(versions[places[k] + 0].deep_view()) != version_key(
                    versions[places[at + 0] + 0].deep_view(),
                ));
            } else {
                assert(version_key(versions[places[at + 0] + 0].deep_view()) != version_key(
                    versions[places[k] + 0].deep_view(),
                ));
            }
        }
    }
}

/// The payloads that are newer than every published version of their package and
/// architecture, as `compare_versions` orders versions.
pub fn select_publishable_linux_payloads<E, F: Fn(&str, &str) -> Result<Ordering, E>>(
    payloads: Vec<LinuxPackagePayload>,
    remote_versions: &[LinuxPackageVersion],
    compare_versions: F,
) -> (selected: Result<Vec<LinuxPackagePayload>, E>)
    requires
        compares_all(compare_versions),
    ensures
        forall|order: spec_fn(Seq<char>, Seq<char>) -> Result<Ordering, E>| #[trigger]
            compares_as(compare_versions, order) ==> chosen_outcome(selected)
                == publishable_payloads(order, deep(payloads@), deep(remote_versions@)),
        may_come_of(
            compare_versions,
            deep(payloads@),
            deep(remote_versions@),
            chosen_outcome(selected),
        ),
{
    let (places, latest) = match find_latest(remote_versions, &compare_versions) {
        Ok(found) => found,
        Err(error) => {
            return Err(error);
        },
    };
    let mut selected: Vec<LinuxPackagePayload> = Vec::new();
    let ghost all = deep(payloads@);
    let ghost published = deep(remote_versions@);
    let ghost mut marks: Seq<bool> = Seq::empty();
    let ghost mut n: int = 0;
    let mut i: usize = 0;
    assert(all.take(0) =~= Seq::empty());
    while i < payloads.len()
        invariant
            n == i,
            n <= payloads@.len(),
            compares_all(compare_versions),
            points_at_latest(remote_versions@, places@, latest@),
            all == deep(payloads@),
            published == deep(remote_versions@),
            forall|j: int|
                0 <= j < published.len() ==> latest@.contains_key(
                    version_key(#[trigger] published[j]),
                ),
            marks_newer(compare_versions, all.take(n), published, marks),
            deep(selected@) == marked_items(all.take(n), marks),
            forall|order: spec_fn(Seq<char>, Seq<char>) -> Result<Ordering, E>| #[trigger]
                compares_as(compare_versions, order) ==> publishable_payloads(
                    order,
                    deep(payloads@),
                    deep(remote_versions@),
                ) == newer_payloads(order, latest@, deep(payloads@), n, deep(selected@)),
        decreases payloads@.len() - i,
    {
        let payload = &payloads[i];
        assert(deep(payloads@)[n] == payloads@[n].deep_view());
        let ghost before = marks;
        let should_publish = match latest_place(
            remote_versions,
            &places,
            payload.package.as_str(),
            payload.architecture.as_str(),
            latest,
        ) {
            None => true,
            Some(k) => {
                let current: usize = places[k];
                assert(published[current + 0] == remote_versions@[current + 0].deep_view());
                match is_newer(
                    &compare_versions,
                    payload.version.as_str(),
                    remote_versions[current].version.as_str(),
                ) {
                    Ok(newer) => {
                        proof {
                            let answer = choose|answer: Ordering| #[trigger]
                                may_answer(
                                    compare_versions,
                                    payload.version@,
                                    published[current + 0].version,
                                    Ok::<Ordering, E>(answer),
                                ) && newer == (answer is Greater);
                            assert(may_answer(
                                compare_versions,
                                all[n].version,
                                published[current + 0].version,
                                Ok::<Ordering, E>(answer),
                            ));
                        }
                        assert(may_be_newer(compare_versions, published, all[n], newer));
                        newer
                    },
                    Err(error) => {
                        assert(may_answer(
                            compare_versions,
                            payload.version@,
                            published[current + 0].version,
                            Err::<Ordering, E>(error),
                        ));
                        assert(payload_place(all[n]) == version_key(published[current + 0]));
                        assert(is_version_at(
                            all,
                            published,
                            version_key(published[current + 0]),
                            payload.version@,
                        ));
                        return Err(error);
                    },
                }
            },
        };
        if should_publish {
            selected.push(payload.clone());
        }
        proof {
            marks = before.push(should_publish);
            assert(all.take(n + 1).drop_last() =~= all.take(n));
            assert(marks.drop_last() =~= before);
            assert forall|j: int| 0 <= j < n + 1 implies if is_published(
                published,
                #[trigger] all.take(n + 1)[j],
            ) {
                may_be_newer(compare_versions, published, all.take(n + 1)[j], marks[j])
            } else {
                marks[j]
            } by {
                if j < n {
                    assert(all.take(n)[j] == all[j]);
                }
            }
            n = n + 1;
        }
        i = i + 1;
    }
    proof {
        assert(all.take(n) =~= all);
        if published.len() == 0 {
            assert forall|j: int| 0 <= j < marks.len() implies #[trigger] marks[j] by {
                assert(!is_published(published, all[j]));
            }
            lemma_all_marked(all, marks);
        }
    }
    Ok(selected)
}

/// Why the publishable payloads of a Linux manifest cannot be told.
#[allow(inconsistent_fields)]
#[derive(Debug, PartialEq, Eq)]
pub enum PublishableLinuxPayloadsFromManifestAndRemoteKeysError<E> {
    /// Reported as `failed to read linux package payloads from manifest`.
    LocalPayloads { source: LinuxPackagePayloadsFromManifestError },
    /// Reported as `failed to read remote linux payload versions`.
    RemoteVersions { source: RemoteLinuxPayloadVersionsFromKeysError },
    /// Reported as `failed to select publishable linux payloads`.
    CompareVersions { source: E },
}

/// What a [`PublishableLinuxPayloadsFromManifestAndRemoteKeysError`] holds.
#[allow(inconsistent_fields)]
pub enum PublishableLinuxPayloadsFromManifestAndRemoteKeysErrorView<E> {
    LocalPayloads { source: LinuxPackagePayloadsFromManifestErrorView },
    RemoteVersions { source: RemoteLinuxPayloadVersionsFromKeysErrorView },
    CompareVersions { source: E },
}

impl<E> DeepView for PublishableLinuxPayloadsFromManifestAndRemoteKeysError<E> {
    type V = PublishableLinuxPayloadsFromManifestAndRemoteKeysErrorView<E>;

    open spec fn deep_view(&self) -> PublishableLinuxPayloadsFromManifestAndRemoteKeysErrorView<E> {
        match self {
            PublishableLinuxPayloadsFromManifestAndRemoteKeysError::LocalPayloads { source } => PublishableLinuxPayloadsFromManifestAndRemoteKeysErrorView::LocalPayloads {
                source: source.deep_view(),
            },
            PublishableLinuxPayloadsFromManifestAndRemoteKeysError::RemoteVersions { source } => PublishableLinuxPayloadsFromManifestAndRemoteKeysErrorView::RemoteVersions {
                source: source.deep_view(),
            },
            PublishableLinuxPayloadsFromManifestAndRemoteKeysError::CompareVersions { source } => PublishableLinuxPayloadsFromManifestAndRemoteKeysErrorView::CompareVersions { source: *source },
        }
    }
}

impl<E> PublishableLinuxPayloadsFromManifestAndRemoteKeysErrorView<E> {
    /// The message of the error.
    pub open spec fn message(self) -> Seq<char> {
        match self {
            PublishableLinuxPayloadsFromManifestAndRemoteKeysErrorView::LocalPayloads { .. } => "failed to read linux package payloads from manifest"@,
            PublishableLinuxPayloadsFromManifestAndRemoteKeysErrorView::RemoteVersions { .. } => "failed to read remote linux payload versions"@,
            PublishableLinuxPayloadsFromManifestAndRemoteKeysErrorView::CompareVersions { .. } => "failed to select publishable linux payloads"@,
        }
    }
}

impl<E> PublishableLinuxPayloadsFromManifestAndRemoteKeysError<E> {
    /// The message of the error.
    pub fn to_string(&self) -> (text: String)
        ensures
            text@ == self.deep_view().message(),
    {
        match self {
            PublishableLinuxPayloadsFromManifestAndRemoteKeysError::LocalPayloads { .. } => "failed to read linux package payloads from manifest".to_owned(),
            PublishableLinuxPayloadsFromManifestAndRemoteKeysError::RemoteVersions { .. } => "failed to read remote linux payload versions".to_owned(),
            PublishableLinuxPayloadsFromManifestAndRemoteKeysError::CompareVersions { .. } => "failed to select publishable linux payloads".to_owned(),
        }
    }
}

/// The publishable payloads of a Linux manifest, where `keys` are the keys of what is
/// published.
pub open spec fn publishable_by_keys<E>(
    order: spec_fn(Seq<char>, Seq<char>) -> Result<Ordering, E>,
    manifest: PackageManifestView,
    prefix: Seq<char>,
    keys: Seq<Seq<char>>,
) -> Result<
    Seq<LinuxPackagePayloadView>,
    PublishableLinuxPayloadsFromManifestAndRemoteKeysErrorView<E>,
> {
    match manifest_payloads(manifest) {
        Err(source) => Err(
            PublishableLinuxPayloadsFromManifestAndRemoteKeysErrorView::LocalPayloads { source },
        ),
        Ok(payloads) => match remote_versions(manifest.kind, prefix, keys) {
            Err(source) => Err(
                PublishableLinuxPayloadsFromManifestAndRemoteKeysErrorView::RemoteVersions {
                    source,
                },
            ),
            Ok(published) => match publishable_payloads(order, payloads, published) {
                Err(source) => Err(
                    PublishableLinuxPayloadsFromManifestAndRemoteKeysErrorView::CompareVersions {
                        source,
                    },
                ),
                Ok(chosen) => Ok(chosen),
            },
        },
    }
}

/// Whatever `compare` does, this may come of selecting the payloads of a Linux manifest by
/// the keys of what is published: manifests and keys are refused for themselves, and all
/// payloads are publishable where nothing is published.
pub open spec fn may_come_of_keys<E, F: Fn(&str, &str) -> Result<Ordering, E>>(
    compare: F,
    manifest: PackageManifestView,
    prefix: Seq<char>,
    keys: Seq<Seq<char>>,
    selected: Result<Seq<LinuxPackagePayloadView>, PublishableLinuxPayloadsFromManifestAndRemoteKeysErrorView<E>>,
) -> bool {
    match manifest_payloads(manifest) {
        Err(source) => selected == Err::<Seq<LinuxPackagePayloadView>, PublishableLinuxPayloadsFromManifestAndRemoteKeysErrorView<E>>(
            PublishableLinuxPayloadsFromManifestAndRemoteKeysErrorView::LocalPayloads { source },
        ),
        Ok(payloads) => match remote_versions(manifest.kind, prefix, keys) {
            Err(source) => selected == Err::<Seq<LinuxPackagePayloadView>, PublishableLinuxPayloadsFromManifestAndRemoteKeysErrorView<E>>(
                PublishableLinuxPayloadsFromManifestAndRemoteKeysErrorView::RemoteVersions { source },
            ),
            Ok(published) => match selected {
                Err(PublishableLinuxPayloadsFromManifestAndRemoteKeysErrorView::CompareVersions { source }) => may_come_of(
                    compare,
                    payloads,
                    published,
                    Err(source),
                ),
                Err(_) => false,
                Ok(chosen) => may_come_of(compare, payloads, published, Ok(chosen)),
            },
        },
    }
}

/// The publishable payloads of a Linux manifest, by the keys of what is published.
pub fn publishable_linux_payloads_from_manifest_and_remote_keys<
    E,
    F: Fn(&str, &str) -> Result<Ordering, E>,
>(
    manifest: &PackageManifest,
    prefix: &RemotePrefix,
    remote_keys: &Vec<String>,
    compare_versions: F,
) -> (selected: Result<
    Vec<LinuxPackagePayload>,
    PublishableLinuxPayloadsFromManifestAndRemoteKeysError<E>,
>)
    requires
        compares_all(compare_versions),
    ensures
        forall|order: spec_fn(Seq<char>, Seq<char>) -> Result<Ordering, E>| #[trigger]
            compares_as(compare_versions, order) ==> outcomes(selected) == publishable_by_keys(
                order,
                manifest.deep_view(),
                prefix.deep_view(),
                deep(remote_keys@),
            ),
        may_come_of_keys(
            compare_versions,
            manifest.deep_view(),
            prefix.deep_view(),
            deep(remote_keys@),
            outcomes(selected),
        ),
{
    let payloads = match linux_package_payloads_from_manifest(manifest) {
        Ok(payloads) => payloads,
        Err(source) => {
            return Err(
                PublishableLinuxPayloadsFromManifestAndRemoteKeysError::LocalPayloads { source },
            );
        },
    };
    let published = match remote_linux_payload_versions_from_keys(
        manifest.kind,
        prefix,
        remote_keys,
    ) {
        Ok(published) => published,
        Err(source) => {
            return Err(
                PublishableLinuxPayloadsFromManifestAndRemoteKeysError::RemoteVersions { source },
            );
        },
    };
    match select_publishable_linux_payloads(payloads, published.as_slice(), compare_versions) {
        Ok(selected) => Ok(selected),
        Err(source) => Err(
            PublishableLinuxPayloadsFromManifestAndRemoteKeysError::CompareVersions { source },
        ),
    }
}

/// The versions of entries.
pub open spec fn entry_versions(entries: Seq<RemoteDebPackageEntryView>) -> Seq<
    LinuxPackageVersionView,
> {
    entries.map_values(|entry: RemoteDebPackageEntryView| entry.version)
}

/// The versions in the indexes from `from` on, after those already `found`.
pub open spec fn index_versions(
    contents: Seq<Seq<char>>,
    from: int,
    found: Seq<LinuxPackageVersionView>,
) -> Result<Seq<LinuxPackageVersionView>, RemoteDebPackageEntriesFromPackagesErrorView>
    decreases contents.len() - from,
{
    if from < 0 || from >= contents.len() {
        Ok(found)
    } else {
        match index_entries(contents[from]) {
            Err(error) => Err(error),
            Ok(entries) => index_versions(contents, from + 1, found + entry_versions(entries)),
        }
    }
}

/// Appends the versions of entries.
fn append_versions(versions: &mut Vec<LinuxPackageVersion>, entries: &Vec<RemoteDebPackageEntry>)
    ensures
        deep(final(versions)@) == deep(old(versions)@) + entry_versions(deep(entries@)),
{
    let ghost start = deep(versions@);
    let ghost all = entry_versions(deep(entries@));
    let mut i: usize = 0;
    assert(start + all.take(0) =~= start);
    while i < entries.len()
        invariant
            i <= entries@.len(),
            all == entry_versions(deep(entries@)),
            deep(versions@) == start + all.take(i as int),
        decreases entries@.len() - i,
    {
        let version = entries[i].version.clone();
        versions.push(version);
        assert(all[i as int] == version.deep_view());
        assert((start + all.take(i as int)).push(version.deep_view()) =~= start + all.take(i + 1));
        i = i + 1;
    }
    assert(all.take(i as int) =~= all);
}

fn versions_in_indexes(contents: &Vec<String>) -> (versions: Result<
    Vec<LinuxPackageVersion>,
    RemoteDebPackageEntriesFromPackagesError,
>)
    ensures
        outcomes(versions) == index_versions(deep(contents@), 0, Seq::empty()),
{
    let mut versions: Vec<LinuxPackageVersion> = Vec::new();
    let mut i: usize = 0;
    while i < contents.len()
        invariant
            i <= contents@.len(),
            index_versions(deep(contents@), 0, Seq::empty()) == index_versions(
                deep(contents@),
                i as int,
                deep(versions@),
            ),
        decreases contents@.len() - i,
    {
        assert(deep(contents@)[i as int] == contents@[i as int]@);
        match remote_deb_package_entries_from_packages(contents[i].as_str()) {
            Ok(entries) => {
                append_versions(&mut versions, &entries);
            },
            Err(error) => {
                return Err(error);
            },
        }
        i = i + 1;
    }
    Ok(versions)
}

/// Why the publishable payloads of a Debian manifest cannot be told.
#[allow(inconsistent_fields)]
#[derive(Debug, PartialEq, Eq)]
pub enum PublishableDebPayloadsFromManifestAndPackagesError<E> {
    /// Reported as `{system} package manifest is not a deb package manifest`.
    WrongKind { system: PackageSystem },
    /// Reported as `failed to read deb package payloads from manifest`.
    LocalPayloads { source: LinuxPackagePayloadsFromManifestError },
    /// Reported as `failed to read remote deb package entries`.
    RemotePackages { source: RemoteDebPackageEntriesFromPackagesError },
    /// Reported as `failed to select publishable deb payloads`.
    CompareVersions { source: E },
}

/// What a [`PublishableDebPayloadsFromManifestAndPackagesError`] holds.
#[allow(inconsistent_fields)]
pub enum PublishableDebPayloadsFromManifestAndPackagesErrorView<E> {
    WrongKind { system: PackageSystem },
    LocalPayloads { source: LinuxPackagePayloadsFromManifestErrorView },
    RemotePackages { source: RemoteDebPackageEntriesFromPackagesErrorView },
    CompareVersions { source: E },
}

impl<E> DeepView for PublishableDebPayloadsFromManifestAndPackagesError<E> {
    type V = PublishableDebPayloadsFromManifestAndPackagesErrorView<E>;

    open spec fn deep_view(&self) -> PublishableDebPayloadsFromManifestAndPackagesErrorView<E> {
        match self {
            PublishableDebPayloadsFromManifestAndPackagesError::WrongKind { system } => PublishableDebPayloadsFromManifestAndPackagesErrorView::WrongKind { system: *system },
            PublishableDebPayloadsFromManifestAndPackagesError::LocalPayloads { source } => PublishableDebPayloadsFromManifestAndPackagesErrorView::LocalPayloads {
                source: source.deep_view(),
            },
            PublishableDebPayloadsFromManifestAndPackagesError::RemotePackages { source } => PublishableDebPayloadsFromManifestAndPackagesErrorView::RemotePackages {
                source: source.deep_view(),
            },
            PublishableDebPayloadsFromManifestAndPackagesError::CompareVersions { source } => PublishableDebPayloadsFromManifestAndPackagesErrorView::CompareVersions { source: *source },
        }
    }
}

impl<E> PublishableDebPayloadsFromManifestAndPackagesErrorView<E> {
    /// The message of the error.
    pub open spec fn message(self) -> Seq<char> {
        match self {
            PublishableDebPayloadsFromManifestAndPackagesErrorView::WrongKind { system } => system_name(system) + " package manifest is not a deb package manifest"@,
            PublishableDebPayloadsFromManifestAndPackagesErrorView::LocalPayloads { .. } => "failed to read deb package payloads from manifest"@,
            PublishableDebPayloadsFromManifestAndPackagesErrorView::RemotePackages { .. } => "failed to read remote deb package entries"@,
            PublishableDebPayloadsFromManifestAndPackagesErrorView::CompareVersions { .. } => "failed to select publishable deb payloads"@,
        }
    }
}

impl<E> PublishableDebPayloadsFromManifestAndPackagesError<E> {
    /// The message of the error.
    pub fn to_string(&self) -> (text: String)
        ensures
            text@ == self.deep_view().message(),
    {
        match self {
            PublishableDebPayloadsFromManifestAndPackagesError::WrongKind { system } => {
                let mut text = system.as_str().to_owned();
                text.append(" package manifest is not a deb package manifest");
                text
            },
            PublishableDebPayloadsFromManifestAndPackagesError::LocalPayloads { .. } => "failed to read deb package payloads from manifest".to_owned(),
            PublishableDebPayloadsFromManifestAndPackagesError::RemotePackages { .. } => "failed to read remote deb package entries".to_owned(),
            PublishableDebPayloadsFromManifestAndPackagesError::CompareVersions { .. } => "failed to select publishable deb payloads".to_owned(),
        }
    }
}

/// The publishable payloads of a Debian manifest, where `contents` are the published
/// `Packages` indexes.
pub open spec fn publishable_by_indexes<E>(
    order: spec_fn(Seq<char>, Seq<char>) -> Result<Ordering, E>,
    manifest: PackageManifestView,
    contents: Seq<Seq<char>>,
) -> Result<
    Seq<LinuxPackagePayloadView>,
    PublishableDebPayloadsFromManifestAndPackagesErrorView<E>,
> {
    if !(manifest.kind is Deb) {
        Err(
            PublishableDebPayloadsFromManifestAndPackagesErrorView::WrongKind {
                system: manifest.kind,
            },
        )
    } else {
        match manifest_payloads(manifest) {
            Err(source) => Err(
                PublishableDebPayloadsFromManifestAndPackagesErrorView::LocalPayloads { source },
            ),
            Ok(payloads) => match index_versions(contents, 0, Seq::empty()) {
                Err(source) => Err(
                    PublishableDebPayloadsFromManifestAndPackagesErrorView::RemotePackages {
                        source,
                    },
                ),
                Ok(published) => match publishable_payloads(order, payloads, published) {
                    Err(source) => Err(
                        PublishableDebPayloadsFromManifestAndPackagesErrorView::CompareVersions {
                            source,
                        },
                    ),
                    Ok(chosen) => Ok(chosen),
                },
            },
        }
    }
}

/// Whatever `compare` does, this may come of selecting the payloads of a Debian manifest by
/// the published `Packages` indexes: manifests and indexes are refused for themselves, and
/// all payloads are publishable where nothing is published.
pub open spec fn may_come_of_indexes<E, F: Fn(&str, &str) -> Result<Ordering, E>>(
    compare: F,
    manifest: PackageManifestView,
    contents: Seq<Seq<char>>,
    selected: Result<Seq<LinuxPackagePayloadView>, PublishableDebPayloadsFromManifestAndPackagesErrorView<E>>,
) -> bool {
    if !(manifest.kind is Deb) {
        selected == Err::<Seq<LinuxPackagePayloadView>, PublishableDebPayloadsFromManifestAndPackagesErrorView<E>>(
            PublishableDebPayloadsFromManifestAndPackagesErrorView::WrongKind { system: manifest.kind },
        )
    } else {
        match manifest_payloads(manifest) {
            Err(source) => selected == Err::<Seq<LinuxPackagePayloadView>, PublishableDebPayloadsFromManifestAndPackagesErrorView<E>>(
                PublishableDebPayloadsFromManifestAndPackagesErrorView::LocalPayloads { source },
            ),
            Ok(payloads) => match index_versions(contents, 0, Seq::empty()) {
                Err(source) => selected == Err::<Seq<LinuxPackagePayloadView>, PublishableDebPayloadsFromManifestAndPackagesErrorView<E>>(
                    PublishableDebPayloadsFromManifestAndPackagesErrorView::RemotePackages { source },
                ),
                Ok(published) => match selected {
                    Err(PublishableDebPayloadsFromManifestAndPackagesErrorView::CompareVersions { source }) => may_come_of(
                        compare,
                        payloads,
                        published,
                        Err(source),
                    ),
                    Err(_) => false,
                    Ok(chosen) => may_come_of(compare, payloads, published, Ok(chosen)),
                },
            },
        }
    }
}

/// The publishable payloads of a Debian manifest, by the published `Packages` indexes.
pub fn publishable_deb_payloads_from_manifest_and_packages<
    E,
    F: Fn(&str, &str) -> Result<Ordering, E>,
>(
    manifest: &PackageManifest,
    packages_contents: &Vec<String>,
    compare_versions: F,
) -> (selected: Result<
    Vec<LinuxPackagePayload>,
    PublishableDebPayloadsFromManifestAndPackagesError<E>,
>)
    requires
        compares_all(compare_versions),
    ensures
        forall|order: spec_fn(Seq<char>, Seq<char>) -> Result<Ordering, E>| #[trigger]
            compares_as(compare_versions, order) ==> outcomes(selected) == publishable_by_indexes(
                order,
                manifest.deep_view(),
                deep(packages_contents@),
            ),
        may_come_of_indexes(
            compare_versions,
            manifest.deep_view(),
            deep(packages_contents@),
            outcomes(selected),
        ),
{
    match manifest.kind {
        PackageSystem::Deb => {},
        system => {
            return Err(PublishableDebPayloadsFromManifestAndPackagesError::WrongKind { system });
        },
    }
    let payloads = match linux_package_payloads_from_manifest(manifest) {
        Ok(payloads) => payloads,
        Err(source) => {
            return Err(
                PublishableDebPayloadsFromManifestAndPackagesError::LocalPayloads { source },
            );
        },
    };
    let published = match versions_in_indexes(packages_contents) {
        Ok(published) => published,
        Err(source) => {
            return Err(
                PublishableDebPayloadsFromManifestAndPackagesError::RemotePackages { source },
            );
        },
    };
    match select_publishable_linux_payloads(payloads, published.as_slice(), compare_versions) {
        Ok(selected) => Ok(selected),
        Err(source) => Err(
            PublishableDebPayloadsFromManifestAndPackagesError::CompareVersions { source },
        ),
    }
}

/// Why the publishable payloads of a Debian manifest cannot be told.
#[allow(inconsistent_fields)]
#[derive(Debug, PartialEq, Eq)]
pub enum PublishableDebPayloadsFromManifestPackagesAndRemoteKeysError<E> {
    /// Reported as `{system} package manifest is not a deb package manifest`.
    WrongKind { system: PackageSystem },
    /// Reported as `failed to read deb package payloads from manifest`.
    LocalPayloads { source: LinuxPackagePayloadsFromManifestError },
    /// Reported as `failed to read remote deb package entries`.
    RemotePackages { source: RemoteDebPackageEntriesFromPackagesError },
    /// Reported as `failed to read remote deb package payload keys`.
    RemoteKeys { source: RemoteDebPackageEntriesFromKeysError },
    /// Reported as `failed to select publishable deb payloads`.
    CompareVersions { source: E },
}

/// What a [`PublishableDebPayloadsFromManifestPackagesAndRemoteKeysError`] holds.
#[allow(inconsistent_fields)]
pub enum PublishableDebPayloadsFromManifestPackagesAndRemoteKeysErrorView<E> {
    WrongKind { system: PackageSystem },
    LocalPayloads { source: LinuxPackagePayloadsFromManifestErrorView },
    RemotePackages { source: RemoteDebPackageEntriesFromPackagesErrorView },
    RemoteKeys { source: RemoteDebPackageEntriesFromKeysErrorView },
    CompareVersions { source: E },
}

impl<E> DeepView for PublishableDebPayloadsFromManifestPackagesAndRemoteKeysError<E> {
    type V = PublishableDebPayloadsFromManifestPackagesAndRemoteKeysErrorView<E>;

    open spec fn deep_view(&self) -> PublishableDebPayloadsFromManifestPackagesAndRemoteKeysErrorView<E> {
        match self {
            PublishableDebPayloadsFromManifestPackagesAndRemoteKeysError::WrongKind { system } => PublishableDebPayloadsFromManifestPackagesAndRemoteKeysErrorView::WrongKind { system: *system },
            PublishableDebPayloadsFromManifestPackagesAndRemoteKeysError::LocalPayloads { source } => PublishableDebPayloadsFromManifestPackagesAndRemoteKeysErrorView::LocalPayloads {
                source: source.deep_view(),
            },
            PublishableDebPayloadsFromManifestPackagesAndRemoteKeysError::RemotePackages { source } => PublishableDebPayloadsFromManifestPackagesAndRemoteKeysErrorView::RemotePackages {
                source: source.deep_view(),
            },
            PublishableDebPayloadsFromManifestPackagesAndRemoteKeysError::RemoteKeys { source } => PublishableDebPayloadsFromManifestPackagesAndRemoteKeysErrorView::RemoteKeys {
                source: source.deep_view(),
            },
            PublishableDebPayloadsFromManifestPackagesAndRemoteKeysError::CompareVersions { source } => PublishableDebPayloadsFromManifestPackagesAndRemoteKeysErrorView::CompareVersions { source: *source },
        }
    }
}

impl<E> PublishableDebPayloadsFromManifestPackagesAndRemoteKeysErrorView<E> {
    /// The message of the error.
    pub open spec fn message(self) -> Seq<char> {
        match self {
            PublishableDebPayloadsFromManifestPackagesAndRemoteKeysErrorView::WrongKind { system } => system_name(system) + " package manifest is not a deb package manifest"@,
            PublishableDebPayloadsFromManifestPackagesAndRemoteKeysErrorView::LocalPayloads { .. } => "failed to read deb package payloads from manifest"@,
            PublishableDebPayloadsFromManifestPackagesAndRemoteKeysErrorView::RemotePackages { .. } => "failed to read remote deb package entries"@,
            PublishableDebPayloadsFromManifestPackagesAndRemoteKeysErrorView::RemoteKeys { .. } => "failed to read remote deb package payload keys"@,
            PublishableDebPayloadsFromManifestPackagesAndRemoteKeysErrorView::CompareVersions { .. } => "failed to select publishable deb payloads"@,
        }
    }
}

impl<E> PublishableDebPayloadsFromManifestPackagesAndRemoteKeysError<E> {
    /// The message of the error.
    pub fn to_string(&self) -> (text: String)
        ensures
            text@ == self.deep_view().message(),
    {
        match self {
            PublishableDebPayloadsFromManifestPackagesAndRemoteKeysError::WrongKind { system } => {
                let mut text = system.as_str().to_owned();
                text.append(" package manifest is not a deb package manifest");
                text
            },
            PublishableDebPayloadsFromManifestPackagesAndRemoteKeysError::LocalPayloads { .. } => "failed to read deb package payloads from manifest".to_owned(),
            PublishableDebPayloadsFromManifestPackagesAndRemoteKeysError::RemotePackages { .. } => "failed to read remote deb package entries".to_owned(),
            PublishableDebPayloadsFromManifestPackagesAndRemoteKeysError::RemoteKeys { .. } => "failed to read remote deb package payload keys".to_owned(),
            PublishableDebPayloadsFromManifestPackagesAndRemoteKeysError::CompareVersions { .. } => "failed to select publishable deb payloads".to_owned(),
        }
    }
}

/// The publishable payloads of a Debian manifest, where `contents` are the published
/// `Packages` indexes and `keys` the keys of published payloads.
pub open spec fn publishable_by_indexes_and_keys<E>(
    order: spec_fn(Seq<char>, Seq<char>) -> Result<Ordering, E>,
    manifest: PackageManifestView,
    contents: Seq<Seq<char>>,
    prefix: Seq<char>,
    keys: Seq<Seq<char>>,
) -> Result<
    Seq<LinuxPackagePayloadView>,
    PublishableDebPayloadsFromManifestPackagesAndRemoteKeysErrorView<E>,
> {
    if !(manifest.kind is Deb) {
        Err(
            PublishableDebPayloadsFromManifestPackagesAndRemoteKeysErrorView::WrongKind {
                system: manifest.kind,
            },
        )
    } else {
        match manifest_payloads(manifest) {
            Err(source) => Err(
                PublishableDebPayloadsFromManifestPackagesAndRemoteKeysErrorView::LocalPayloads {
                    source,
                },
            ),
            Ok(payloads) => match index_versions(contents, 0, Seq::empty()) {
                Err(source) => Err(
                    PublishableDebPayloadsFromManifestPackagesAndRemoteKeysErrorView::RemotePackages {
                        source,
                    },
                ),
                Ok(indexed) => match key_entries(prefix, keys, 0, Seq::empty()) {
                    Err(source) => Err(
                        PublishableDebPayloadsFromManifestPackagesAndRemoteKeysErrorView::RemoteKeys {
                            source,
                        },
                    ),
                    Ok(entries) => match publishable_payloads(
                        order,
                        payloads,
                        indexed + entry_versions(entries),
                    ) {
                        Err(source) => Err(
                            PublishableDebPayloadsFromManifestPackagesAndRemoteKeysErrorView::CompareVersions {
                                source,
                            },
                        ),
                        Ok(chosen) => Ok(chosen),
                    },
                },
            },
        }
    }
}

/// Whatever `compare` does, this may come of selecting the payloads of a Debian manifest by
/// the published `Packages` indexes and the keys of published payloads: manifests, indexes
/// and keys are refused for themselves, and all payloads are publishable where nothing is
/// published.
pub open spec fn may_come_of_indexes_and_keys<E, F: Fn(&str, &str) -> Result<Ordering, E>>(
    compare: F,
    manifest: PackageManifestView,
    contents: Seq<Seq<char>>,
    prefix: Seq<char>,
    keys: Seq<Seq<char>>,
    selected: Result<Seq<LinuxPackagePayloadView>, PublishableDebPayloadsFromManifestPackagesAndRemoteKeysErrorView<E>>,
) -> bool {
    if !(manifest.kind is Deb) {
        selected == Err::<Seq<LinuxPackagePayloadView>, PublishableDebPayloadsFromManifestPackagesAndRemoteKeysErrorView<E>>(
            PublishableDebPayloadsFromManifestPackagesAndRemoteKeysErrorView::WrongKind { system: manifest.kind },
        )
    } else {
        match manifest_payloads(manifest) {
            Err(source) => selected == Err::<Seq<LinuxPackagePayloadView>, PublishableDebPayloadsFromManifestPackagesAndRemoteKeysErrorView<E>>(
                PublishableDebPayloadsFromManifestPackagesAndRemoteKeysErrorView::LocalPayloads { source },
            ),
            Ok(payloads) => match index_versions(contents, 0, Seq::empty()) {
                Err(source) => selected == Err::<Seq<LinuxPackagePayloadView>, PublishableDebPayloadsFromManifestPackagesAndRemoteKeysErrorView<E>>(
                    PublishableDebPayloadsFromManifestPackagesAndRemoteKeysErrorView::RemotePackages { source },
                ),
                Ok(indexed) => match key_entries(prefix, keys, 0, Seq::empty()) {
                    Err(source) => selected == Err::<Seq<LinuxPackagePayloadView>, PublishableDebPayloadsFromManifestPackagesAndRemoteKeysErrorView<E>>(
                        PublishableDebPayloadsFromManifestPackagesAndRemoteKeysErrorView::RemoteKeys { source },
                    ),
                    Ok(entries) => {
                        let published = indexed + entry_versions(entries);
                        match selected {
                            Err(PublishableDebPayloadsFromManifestPackagesAndRemoteKeysErrorView::CompareVersions { source }) => may_come_of(
                                compare,
                                payloads,
                                published,
                                Err(source),
                            ),
                            Err(_) => false,
                            Ok(chosen) => may_come_of(compare, payloads, published, Ok(chosen)),
                        }
                    },
                },
            },
        }
    }
}

/// The publishable payloads of a Debian manifest, by the published `Packages` indexes and
/// the keys of published payloads.
pub fn publishable_deb_payloads_from_manifest_packages_and_remote_keys<
    E,
    F: Fn(&str, &str) -> Result<Ordering, E>,
>(
    manifest: &PackageManifest,
    packages_contents: &Vec<String>,
    prefix: &RemotePrefix,
    remote_keys: &Vec<String>,
    compare_versions: F,
) -> (selected: Result<
    Vec<LinuxPackagePayload>,
    PublishableDebPayloadsFromManifestPackagesAndRemoteKeysError<E>,
>)
    requires
        compares_all(compare_versions),
    ensures
        forall|order: spec_fn(Seq<char>, Seq<char>) -> Result<Ordering, E>| #[trigger]
            compares_as(compare_versions, order) ==> outcomes(selected)
                == publishable_by_indexes_and_keys(
                order,
                manifest.deep_view(),
                deep(packages_contents@),
                prefix.deep_view(),
                deep(remote_keys@),
            ),
        may_come_of_indexes_and_keys(
            compare_versions,
            manifest.deep_view(),
            deep(packages_contents@),
            prefix.deep_view(),
            deep(remote_keys@),
            outcomes(selected),
        ),
{
    match manifest.kind {
        PackageSystem::Deb => {},
        system => {
            return Err(
                PublishableDebPayloadsFromManifestPackagesAndRemoteKeysError::WrongKind { system },
            );
        },
    }
    let payloads = match linux_package_payloads_from_manifest(manifest) {
        Ok(payloads) => payloads,
        Err(source) => {
            return Err(
                PublishableDebPayloadsFromManifestPackagesAndRemoteKeysError::LocalPayloads {
                    source,
                },
            );
        },
    };
    let mut published = match versions_in_indexes(packages_contents) {
        Ok(published) => published,
        Err(source) => {
            return Err(
                PublishableDebPayloadsFromManifestPackagesAndRemoteKeysError::RemotePackages {
                    source,
                },
            );
        },
    };
    let entries = match remote_deb_package_entries_from_keys(prefix, remote_keys) {
        Ok(entries) => entries,
        Err(source) => {
            return Err(
                PublishableDebPayloadsFromManifestPackagesAndRemoteKeysError::RemoteKeys {
                    source,
                },
            );
        },
    };
    append_versions(&mut published, &entries);
    match select_publishable_linux_payloads(payloads, published.as_slice(), compare_versions) {
        Ok(selected) => Ok(selected),
        Err(source) => Err(
            PublishableDebPayloadsFromManifestPackagesAndRemoteKeysError::CompareVersions {
                source,
            },
        ),
    }
}

// ---------------------------------------------------------------------------
// What stays published
// ---------------------------------------------------------------------------
/// Why it cannot be told which remote payloads stay.
#[derive(Debug, PartialEq, Eq)]
pub enum RetainedRemoteLinuxPackagePayloadsError {
    /// Reported as `failed to read linux package payloads from manifest`.
    LocalPayloads { source: LinuxPackagePayloadsFromManifestError },
}

/// What a [`RetainedRemoteLinuxPackagePayloadsError`] holds.
pub enum RetainedRemoteLinuxPackagePayloadsErrorView {
    LocalPayloads { source: LinuxPackagePayloadsFromManifestErrorView },
}

impl DeepView for RetainedRemoteLinuxPackagePayloadsError {
    type V = RetainedRemoteLinuxPackagePayloadsErrorView;

    open spec fn deep_view(&self) -> RetainedRemoteLinuxPackagePayloadsErrorView {
        match self {
            RetainedRemoteLinuxPackagePayloadsError::LocalPayloads { source } => RetainedRemoteLinuxPackagePayloadsErrorView::LocalPayloads {
                source: source.deep_view(),
            },
        }
    }
}

impl RetainedRemoteLinuxPackagePayloadsErrorView {
    /// The message of the error.
    pub open spec fn message(self) -> Seq<char> {
        match self {
            RetainedRemoteLinuxPackagePayloadsErrorView::LocalPayloads { .. } => "failed to read linux package payloads from manifest"@,
        }
    }
}

impl RetainedRemoteLinuxPackagePayloadsError {
    /// The message of the error.
    pub fn to_string(&self) -> (text: String)
        ensures
            text@ == self.deep_view().message(),
    {
        match self {
            RetainedRemoteLinuxPackagePayloadsError::LocalPayloads { .. } => "failed to read linux package payloads from manifest".to_owned(),
        }
    }
}

/// Why it cannot be told which remote entries stay.
#[derive(Debug, PartialEq, Eq)]
pub enum RetainedRemoteDebPackageEntriesError {
    /// Reported as `{system} package manifest is not a deb package manifest`.
    WrongKind { system: PackageSystem },
    /// Reported as `failed to read deb package payloads from manifest`.
    LocalPayloads { source: LinuxPackagePayloadsFromManifestError },
}

/// What a [`RetainedRemoteDebPackageEntriesError`] holds.
pub enum RetainedRemoteDebPackageEntriesErrorView {
    WrongKind { system: PackageSystem },
    LocalPayloads { source: LinuxPackagePayloadsFromManifestErrorView },
}

impl DeepView for RetainedRemoteDebPackageEntriesError {
    type V = RetainedRemoteDebPackageEntriesErrorView;

    open spec fn deep_view(&self) -> RetainedRemoteDebPackageEntriesErrorView {
        match self {
            RetainedRemoteDebPackageEntriesError::WrongKind { system } => RetainedRemoteDebPackageEntriesErrorView::WrongKind {
                system: *system,
            },
            RetainedRemoteDebPackageEntriesError::LocalPayloads { source } => RetainedRemoteDebPackageEntriesErrorView::LocalPayloads {
                source: source.deep_view(),
            },
        }
    }
}

impl RetainedRemoteDebPackageEntriesErrorView {
    /// The message of the error.
    pub open spec fn message(self) -> Seq<char> {
        match self {
            RetainedRemoteDebPackageEntriesErrorView::WrongKind { system } => system_name(system) + " package manifest is not a deb package manifest"@,
            RetainedRemoteDebPackageEntriesErrorView::LocalPayloads { .. } => "failed to read deb package payloads from manifest"@,
        }
    }
}

impl RetainedRemoteDebPackageEntriesError {
    /// The message of the error.
    pub fn to_string(&self) -> (text: String)
        ensures
            text@ == self.deep_view().message(),
    {
        match self {
            RetainedRemoteDebPackageEntriesError::WrongKind { system } => {
                let mut text = system.as_str().to_owned();
                text.append(" package manifest is not a deb package manifest");
                text
            },
            RetainedRemoteDebPackageEntriesError::LocalPayloads { .. } => "failed to read deb package payloads from manifest".to_owned(),
        }
    }
}

/// The payload has this package, version and architecture.
pub open spec fn has_version(
    payload: LinuxPackagePayloadView,
    version: LinuxPackageVersionView,
) -> bool {
    payload.package == version.package && payload.version == version.version
        && payload.architecture == version.architecture
}

/// Some payload has this package, version and architecture.
pub open spec fn is_local(
    payloads: Seq<LinuxPackagePayloadView>,
    version: LinuxPackageVersionView,
) -> bool {
    exists|i: int| 0 <= i < payloads.len() && has_version(#[trigger] payloads[i], version)
}

/// The version of a payload.
pub open spec fn payload_version(payload: LinuxPackagePayloadView) -> LinuxPackageVersionView {
    LinuxPackageVersionView {
        package: payload.package,
        version: payload.version,
        architecture: payload.architecture,
    }
}

/// The remote payloads whose version no local payload has.
pub open spec fn retained_payloads(
    local: Seq<LinuxPackagePayloadView>,
    remote: Seq<LinuxPackagePayloadView>,
) -> Seq<LinuxPackagePayloadView>
    decreases remote.len(),
{
    if remote.len() == 0 {
        Seq::empty()
    } else if is_local(local, payload_version(remote.last())) {
        retained_payloads(local, remote.drop_last())
    } else {
        retained_payloads(local, remote.drop_last()).push(remote.last())
    }
}

/// The remote entries whose version no local payload has.
pub open spec fn retained_entries(
    local: Seq<LinuxPackagePayloadView>,
    remote: Seq<RemoteDebPackageEntryView>,
) -> Seq<RemoteDebPackageEntryView>
    decreases remote.len(),
{
    if remote.len() == 0 {
        Seq::empty()
    } else if is_local(local, remote.last().version) {
        retained_entries(local, remote.drop_last())
    } else {
        retained_entries(local, remote.drop_last()).push(remote.last())
    }
}

fn holds_version(
    payloads: &Vec<LinuxPackagePayload>,
    package: &str,
    version: &str,
    architecture: &str,
) -> (found: bool)
    ensures
        found == is_local(
            deep(payloads@),
            LinuxPackageVersionView {
                package: package@,
                version: version@,
                architecture: architecture@,
            },
        ),
{
    let ghost wanted = LinuxPackageVersionView {
        package: package@,
        version: version@,
        architecture: architecture@,
    };
    let mut i: usize = 0;
    while i < payloads.len()
        invariant
            i <= payloads@.len(),
            wanted == (LinuxPackageVersionView {
                package: package@,
                version: version@,
                architecture: architecture@,
            }),
            forall|j: int| 0 <= j < i ==> !has_version(#[trigger] deep(payloads@)[j], wanted),
        decreases payloads@.len() - i,
    {
        let payload = &payloads[i];
        assert(deep(payloads@)[i as int] == payload.deep_view());
        if same_text(payload.package.as_str(), package) && same_text(
            payload.version.as_str(),
            version,
        ) && same_text(payload.architecture.as_str(), architecture) {
            assert(has_version(deep(payloads@)[i as int], wanted));
            return true;
        }
        i = i + 1;
    }
    false
}

/// The remote payloads whose version no local payload has.
pub(crate) fn payloads_not_local(
    local: &Vec<LinuxPackagePayload>,
    remote_payloads: &Vec<LinuxPackagePayload>,
) -> (retained: Vec<LinuxPackagePayload>)
    ensures
        deep(retained@) == retained_payloads(deep(local@), deep(remote_payloads@)),
{
    let mut retained: Vec<LinuxPackagePayload> = Vec::new();
    let ghost remote = deep(remote_payloads@);
    let mut i: usize = 0;
    assert(remote.take(0) =~= Seq::empty());
    while i < remote_payloads.len()
        invariant
            i <= remote_payloads@.len(),
            remote == deep(remote_payloads@),
            deep(retained@) == retained_payloads(deep(local@), remote.take(i as int)),
        decreases remote_payloads@.len() - i,
    {
        let payload = &remote_payloads[i];
        assert(remote[i as int] == payload.deep_view());
        assert(remote.take(i + 1).drop_last() =~= remote.take(i as int));
        assert(payload_version(payload.deep_view()) == (LinuxPackageVersionView {
            package: payload.package@,
            version: payload.version@,
            architecture: payload.architecture@,
        }));
        if !holds_version(
            local,
            payload.package.as_str(),
            payload.version.as_str(),
            payload.architecture.as_str(),
        ) {
            retained.push(payload.clone());
        }
        i = i + 1;
    }
    assert(remote.take(i as int) =~= remote);
    retained
}

/// The remote payloads whose version the manifest does not hold.
pub fn retained_remote_linux_package_payloads(
    manifest: &PackageManifest,
    remote_payloads: Vec<LinuxPackagePayload>,
) -> (retained: Result<Vec<LinuxPackagePayload>, RetainedRemoteLinuxPackagePayloadsError>)
    ensures
        outcomes(retained) == (match manifest_payloads(manifest.deep_view()) {
            Err(source) => Err(RetainedRemoteLinuxPackagePayloadsErrorView::LocalPayloads { source }),
            Ok(local) => Ok(retained_payloads(local, deep(remote_payloads@))),
        }),
{
    let local = match linux_package_payloads_from_manifest(manifest) {
        Ok(local) => local,
        Err(source) => {
            return Err(RetainedRemoteLinuxPackagePayloadsError::LocalPayloads { source });
        },
    };
    Ok(payloads_not_local(&local, &remote_payloads))
}

/// The remote entries whose version no local payload has.
pub(crate) fn entries_not_local(
    local: &Vec<LinuxPackagePayload>,
    remote_entries: &Vec<RemoteDebPackageEntry>,
) -> (retained: Vec<RemoteDebPackageEntry>)
    ensures
        deep(retained@) == retained_entries(deep(local@), deep(remote_entries@)),
{
    let mut retained: Vec<RemoteDebPackageEntry> = Vec::new();
    let ghost remote = deep(remote_entries@);
    let mut i: usize = 0;
    assert(remote.take(0) =~= Seq::empty());
    while i < remote_entries.len()
        invariant
            i <= remote_entries@.len(),
            remote == deep(remote_entries@),
            deep(retained@) == retained_entries(deep(local@), remote.take(i as int)),
        decreases remote_entries@.len() - i,
    {
        let entry = &remote_entries[i];
        assert(remote[i as int] == entry.deep_view());
        assert(remote.take(i + 1).drop_last() =~= remote.take(i as int));
        assert(entry.deep_view().version == (LinuxPackageVersionView {
            package: entry.version.package@,
            version: entry.version.version@,
            architecture: entry.version.architecture@,
        }));
        if !holds_version(
            local,
            entry.version.package.as_str(),
            entry.version.version.as_str(),
            entry.version.architecture.as_str(),
        ) {
            retained.push(entry.clone());
        }
        i = i + 1;
    }
    assert(remote.take(i as int) =~= remote);
    retained
}

/// The remote entries whose version the manifest does not hold.
pub fn retained_remote_deb_package_entries(
    manifest: &PackageManifest,
    remote_entries: Vec<RemoteDebPackageEntry>,
) -> (retained: Result<Vec<RemoteDebPackageEntry>, RetainedRemoteDebPackageEntriesError>)
    ensures
        outcomes(retained) == (if !(manifest.kind is Deb) {
            Err(RetainedRemoteDebPackageEntriesErrorView::WrongKind { system: manifest.kind })
        } else {
            match manifest_payloads(manifest.deep_view()) {
                Err(source) => Err(
                    RetainedRemoteDebPackageEntriesErrorView::LocalPayloads { source },
                ),
                Ok(local) => Ok(retained_entries(local, deep(remote_entries@))),
            }
        }),
{
    match manifest.kind {
        PackageSystem::Deb => {},
        system => {
            return Err(RetainedRemoteDebPackageEntriesError::WrongKind { system });
        },
    }
    let local = match linux_package_payloads_from_manifest(manifest) {
        Ok(local) => local,
        Err(source) => {
            return Err(RetainedRemoteDebPackageEntriesError::LocalPayloads { source });
        },
    };
    Ok(entries_not_local(&local, &remote_entries))
}

// ---------------------------------------------------------------------------
// Mutable entries
// ---------------------------------------------------------------------------
/// The file names under which a package is announced.
#[derive(Debug, PartialEq, Eq)]
pub struct MutableEntryNames {
    pub latest: String,
    pub versioned: String,
}

/// What a [`MutableEntryNames`] holds.
pub struct MutableEntryNamesView {
    pub latest: Seq<char>,
    pub versioned: Seq<char>,
}

impl DeepView for MutableEntryNames {
    type V = MutableEntryNamesView;

    open spec fn deep_view(&self) -> MutableEntryNamesView {
        MutableEntryNamesView {
            latest: self.latest@,
            versioned: self.versioned@,
        }
    }
}

impl Clone for MutableEntryNames {
    fn clone(&self) -> (copy: Self)
        ensures
            copy.deep_view() == self.deep_view(),
    {
        let copy = MutableEntryNames {
            latest: self.latest.clone(),
            versioned: self.versioned.clone(),
        };
        copy
    }
}

/// The object keys under which a package is announced.
#[derive(Debug, PartialEq, Eq)]
pub struct MutableEntryRemoteKeys {
    pub latest: String,
    pub versioned: String,
}

/// What a [`MutableEntryRemoteKeys`] holds.
pub struct MutableEntryRemoteKeysView {
    pub latest: Seq<char>,
    pub versioned: Seq<char>,
}

impl DeepView for MutableEntryRemoteKeys {
    type V = MutableEntryRemoteKeysView;

    open spec fn deep_view(&self) -> MutableEntryRemoteKeysView {
        MutableEntryRemoteKeysView {
            latest: self.latest@,
            versioned: self.versioned@,
        }
    }
}

impl Clone for MutableEntryRemoteKeys {
    fn clone(&self) -> (copy: Self)
        ensures
            copy.deep_view() == self.deep_view(),
    {
        let copy = MutableEntryRemoteKeys {
            latest: self.latest.clone(),
            versioned: self.versioned.clone(),
        };
        copy
    }
}

/// A package system without announcements.
#[derive(Debug, PartialEq, Eq)]
pub enum MutableEntryNamesError {
    /// Reported as `{system} does not define per-package mutable entry files`.
    UnsupportedSystem { system: PackageSystem },
}

/// What a [`MutableEntryNamesError`] holds.
pub enum MutableEntryNamesErrorView {
    UnsupportedSystem { system: PackageSystem },
}

impl DeepView for MutableEntryNamesError {
    type V = MutableEntryNamesErrorView;

    open spec fn deep_view(&self) -> MutableEntryNamesErrorView {
        match self {
            MutableEntryNamesError::UnsupportedSystem { system } => MutableEntryNamesErrorView::UnsupportedSystem {
                system: *system,
            },
        }
    }
}

impl MutableEntryNamesErrorView {
    /// The message of the error.
    pub open spec fn message(self) -> Seq<char> {
        match self {
            MutableEntryNamesErrorView::UnsupportedSystem { system } => system_name(system) + " does not define per-package mutable entry files"@,
        }
    }
}

impl MutableEntryNamesError {
    /// The message of the error.
    pub fn to_string(&self) -> (text: String)
        ensures
            text@ == self.deep_view().message(),
    {
        match self {
            MutableEntryNamesError::UnsupportedSystem { system } => {
                let mut text = system.as_str().to_owned();
                text.append(" does not define per-package mutable entry files");
                text
            },
        }
    }
}

/// Why there are no keys for announcements.
#[derive(Debug, PartialEq, Eq)]
pub enum MutableEntryRemoteKeysError {
    /// Reported as `failed to resolve mutable entry names`.
    EntryNames { source: MutableEntryNamesError },
}

/// What a [`MutableEntryRemoteKeysError`] holds.
pub enum MutableEntryRemoteKeysErrorView {
    EntryNames { source: MutableEntryNamesErrorView },
}

impl DeepView for MutableEntryRemoteKeysError {
    type V = MutableEntryRemoteKeysErrorView;

    open spec fn deep_view(&self) -> MutableEntryRemoteKeysErrorView {
        match self {
            MutableEntryRemoteKeysError::EntryNames { source } => MutableEntryRemoteKeysErrorView::EntryNames {
                source: source.deep_view(),
            },
        }
    }
}

impl MutableEntryRemoteKeysErrorView {
    /// The message of the error.
    pub open spec fn message(self) -> Seq<char> {
        match self {
            MutableEntryRemoteKeysErrorView::EntryNames { .. } => "failed to resolve mutable entry names"@,
        }
    }
}

impl MutableEntryRemoteKeysError {
    /// The message of the error.
    pub fn to_string(&self) -> (text: String)
        ensures
            text@ == self.deep_view().message(),
    {
        match self {
            MutableEntryRemoteKeysError::EntryNames { .. } => "failed to resolve mutable entry names".to_owned(),
        }
    }
}

/// The names under which a package is announced: one for the latest version and one for
/// this version.
pub open spec fn entry_names(
    package_id: Seq<char>,
    system: PackageSystem,
    version: SourceVersionView,
) -> Result<MutableEntryNamesView, MutableEntryNamesErrorView> {
    match system {
        PackageSystem::Brew => Ok(
            MutableEntryNamesView {
                latest: package_id + ".rb"@,
                versioned: package_id + "-"@ + version.text() + ".rb"@,
            },
        ),
        PackageSystem::Scoop => Ok(
            MutableEntryNamesView {
                latest: package_id + ".json"@,
                versioned: package_id + "-"@ + version.text() + ".json"@,
            },
        ),
        _ => Err(MutableEntryNamesErrorView::UnsupportedSystem { system }),
    }
}

/// The names under which a package is announced.
pub fn mutable_entry_names(
    package_id: &PackageId,
    system: PackageSystem,
    source_version: &SourceVersion,
) -> (names: Result<MutableEntryNames, MutableEntryNamesError>)
    ensures
        outcome(names) == entry_names(
            package_id.deep_view(),
            system,
            source_version.deep_view(),
        ),
{
    let extension = match system {
        PackageSystem::Brew => ".rb",
        PackageSystem::Scoop => ".json",
        PackageSystem::Deb | PackageSystem::Rpm => {
            return Err(MutableEntryNamesError::UnsupportedSystem { system });
        },
    };
    let mut latest = package_id.as_str().to_owned();
    latest.append(extension);
    let mut versioned = package_id.as_str().to_owned();
    versioned.append("-");
    versioned.append(source_version.to_string().as_str());
    versioned.append(extension);
    Ok(MutableEntryNames { latest, versioned })
}

/// The keys under which a package is announced.
pub fn mutable_entry_remote_keys(
    prefix: &RemotePrefix,
    package_id: &PackageId,
    system: PackageSystem,
    source_version: &SourceVersion,
) -> (keys: Result<MutableEntryRemoteKeys, MutableEntryRemoteKeysError>)
    ensures
        outcome(keys) == (match entry_names(
            package_id.deep_view(),
            system,
            source_version.deep_view(),
        ) {
            Err(source) => Err(MutableEntryRemoteKeysErrorView::EntryNames { source }),
            Ok(names) => Ok(
                MutableEntryRemoteKeysView {
                    latest: below_prefix(prefix.deep_view(), names.latest),
                    versioned: below_prefix(prefix.deep_view(), names.versioned),
                },
            ),
        }),
{
    match mutable_entry_names(package_id, system, source_version) {
        Err(source) => Err(MutableEntryRemoteKeysError::EntryNames { source }),
        Ok(names) => Ok(
            MutableEntryRemoteKeys {
                latest: prefix.join(names.latest.as_str()),
                versioned: prefix.join(names.versioned.as_str()),
            },
        ),
    }
}

/// An upload. Entries are replaced; everything else is uploaded once.
#[derive(Debug, PartialEq, Eq)]
pub struct PublishUploadPlan {
    pub key: String,
    pub entry: bool,
    pub condition: Option<UploadCondition>,
}

/// What a [`PublishUploadPlan`] holds.
pub struct PublishUploadPlanView {
    pub key: Seq<char>,
    pub entry: bool,
    pub condition: Option<UploadConditionView>,
}

impl DeepView for PublishUploadPlan {
    type V = PublishUploadPlanView;

    open spec fn deep_view(&self) -> PublishUploadPlanView {
        PublishUploadPlanView {
            key: self.key@,
            entry: self.entry,
            condition: self.condition.deep_view(),
        }
    }
}

impl Clone for PublishUploadPlan {
    fn clone(&self) -> (copy: Self)
        ensures
            copy.deep_view() == self.deep_view(),
    {
        let copy = PublishUploadPlan {
            key: self.key.clone(),
            entry: self.entry,
            condition: self.condition.clone(),
        };
        copy
    }
}

/// An entry whose remote state was not looked at.
#[derive(Debug, PartialEq, Eq)]
pub enum ApplyMutableEntryConditionsError {
    /// Reported as `mutable entry upload {key} is missing remote baseline condition`.
    MissingBaseline { key: String },
}

/// What a [`ApplyMutableEntryConditionsError`] holds.
pub enum ApplyMutableEntryConditionsErrorView {
    MissingBaseline { key: Seq<char> },
}

impl DeepView for ApplyMutableEntryConditionsError {
    type V = ApplyMutableEntryConditionsErrorView;

    open spec fn deep_view(&self) -> ApplyMutableEntryConditionsErrorView {
        match self {
            ApplyMutableEntryConditionsError::MissingBaseline { key } => ApplyMutableEntryConditionsErrorView::MissingBaseline {
                key: key@,
            },
        }
    }
}

impl ApplyMutableEntryConditionsErrorView {
    /// The message of the error.
    pub open spec fn message(self) -> Seq<char> {
        match self {
            ApplyMutableEntryConditionsErrorView::MissingBaseline { key } => "mutable entry upload "@ + key + " is missing remote baseline condition"@,
        }
    }
}

impl ApplyMutableEntryConditionsError {
    /// The message of the error.
    pub fn to_string(&self) -> (text: String)
        ensures
            text@ == self.deep_view().message(),
    {
        match self {
            ApplyMutableEntryConditionsError::MissingBaseline { key } => {
                let mut text = "mutable entry upload ".to_owned();
                text.append(key.as_str());
                text.append(" is missing remote baseline condition");
                text
            },
        }
    }
}

/// The uploads from `from` on with the conditions of the entries, after those already
/// `done`.
pub open spec fn conditioned_uploads(
    uploads: Seq<PublishUploadPlanView>,
    conditions: Map<Seq<char>, UploadConditionView>,
    from: int,
    done: Seq<PublishUploadPlanView>,
) -> Result<Seq<PublishUploadPlanView>, ApplyMutableEntryConditionsErrorView>
    decreases uploads.len() - from,
{
    if from < 0 || from >= uploads.len() {
        Ok(done)
    } else {
        let upload = uploads[from];
        if !upload.entry {
            conditioned_uploads(uploads, conditions, from + 1, done.push(upload))
        } else if conditions.contains_key(upload.key) {
            conditioned_uploads(
                uploads,
                conditions,
                from + 1,
                done.push(
                    PublishUploadPlanView { condition: Some(conditions[upload.key]), ..upload },
                ),
            )
        } else {
            Err(ApplyMutableEntryConditionsErrorView::MissingBaseline { key: upload.key })
        }
    }
}

/// Gives each entry the condition that was found for its key.
pub fn apply_mutable_entry_conditions(
    uploads: Vec<PublishUploadPlan>,
    conditions: &TextMap<String, UploadCondition>,
) -> (result: Result<Vec<PublishUploadPlan>, ApplyMutableEntryConditionsError>)
    ensures
        outcomes(result) == conditioned_uploads(
            deep(uploads@),
            conditions.deep_view(),
            0,
            Seq::empty(),
        ),
{
    let mut done: Vec<PublishUploadPlan> = Vec::new();
    let mut i: usize = 0;
    while i < uploads.len()
        invariant
            i <= uploads@.len(),
            conditioned_uploads(deep(uploads@), conditions.deep_view(), 0, Seq::empty())
                == conditioned_uploads(
                deep(uploads@),
                conditions.deep_view(),
                i as int,
                deep(done@),
            ),
        decreases uploads@.len() - i,
    {
        assert(deep(uploads@)[i as int] == uploads@[i as int].deep_view());
        let mut upload = uploads[i].clone();
        if upload.entry {
            match conditions.value(upload.key.as_str()) {
                Some(condition) => {
                    upload.condition = Some(condition.clone());
                },
                None => {
                    return Err(
                        ApplyMutableEntryConditionsError::MissingBaseline { key: upload.key },
                    );
                },
            }
        }
        done.push(upload);
        i = i + 1;
    }
    Ok(done)
}

// ---------------------------------------------------------------------------
// Publish targets
// ---------------------------------------------------------------------------
/// What every publication to S3 needs.
#[derive(Debug, PartialEq, Eq)]
pub struct S3CommonPublishTarget {
    pub bucket: String,
    pub endpoint_url: String,
    pub access_key_id: String,
    pub secret_access_key: String,
}

/// What a [`S3CommonPublishTarget`] holds.
pub struct S3CommonPublishTargetView {
    pub bucket: Seq<char>,
    pub endpoint_url: Seq<char>,
    pub access_key_id: Seq<char>,
    pub secret_access_key: Seq<char>,
}

impl DeepView for S3CommonPublishTarget {
    type V = S3CommonPublishTargetView;

    open spec fn deep_view(&self) -> S3CommonPublishTargetView {
        S3CommonPublishTargetView {
            bucket: self.bucket@,
            endpoint_url: self.endpoint_url@,
            access_key_id: self.access_key_id@,
            secret_access_key: self.secret_access_key@,
        }
    }
}

impl Clone for S3CommonPublishTarget {
    fn clone(&self) -> (copy: Self)
        ensures
            copy.deep_view() == self.deep_view(),
    {
        let copy = S3CommonPublishTarget {
            bucket: self.bucket.clone(),
            endpoint_url: self.endpoint_url.clone(),
            access_key_id: self.access_key_id.clone(),
            secret_access_key: self.secret_access_key.clone(),
        };
        copy
    }
}

/// Where a package system publishes.
#[derive(Debug, PartialEq, Eq)]
pub enum S3PublishTarget {
    Brew(S3BrewPublishTarget),
    Scoop(S3ScoopPublishTarget),
    Deb(S3DebPublishTarget),
    Rpm(S3RpmPublishTarget),
}

/// What a [`S3PublishTarget`] holds.
pub enum S3PublishTargetView {
    Brew(S3BrewPublishTargetView),
    Scoop(S3ScoopPublishTargetView),
    Deb(S3DebPublishTargetView),
    Rpm(S3RpmPublishTargetView),
}

impl DeepView for S3PublishTarget {
    type V = S3PublishTargetView;

    open spec fn deep_view(&self) -> S3PublishTargetView {
        match self {
            S3PublishTarget::Brew(value) => S3PublishTargetView::Brew(value.deep_view()),
            S3PublishTarget::Scoop(value) => S3PublishTargetView::Scoop(value.deep_view()),
            S3PublishTarget::Deb(value) => S3PublishTargetView::Deb(value.deep_view()),
            S3PublishTarget::Rpm(value) => S3PublishTargetView::Rpm(value.deep_view()),
        }
    }
}

impl Clone for S3PublishTarget {
    fn clone(&self) -> (copy: Self)
        ensures
            copy.deep_view() == self.deep_view(),
    {
        match self {
            S3PublishTarget::Brew(value) => S3PublishTarget::Brew(value.clone()),
            S3PublishTarget::Scoop(value) => S3PublishTarget::Scoop(value.clone()),
            S3PublishTarget::Deb(value) => S3PublishTarget::Deb(value.clone()),
            S3PublishTarget::Rpm(value) => S3PublishTarget::Rpm(value.clone()),
        }
    }
}

/// Where Homebrew archives go.
#[derive(Debug, PartialEq, Eq)]
pub struct S3BrewPublishTarget {
    pub common: S3CommonPublishTarget,
    pub prefix: RemotePrefix,
    pub public_base_url: PublicBaseUrl,
    pub tap: TapPublishTarget,
}

/// What a [`S3BrewPublishTarget`] holds.
pub struct S3BrewPublishTargetView {
    pub common: S3CommonPublishTargetView,
    pub prefix: Seq<char>,
    pub public_base_url: Seq<char>,
    pub tap: GitIndexPublishTargetView,
}

impl DeepView for S3BrewPublishTarget {
    type V = S3BrewPublishTargetView;

    open spec fn deep_view(&self) -> S3BrewPublishTargetView {
        S3BrewPublishTargetView {
            common: self.common.deep_view(),
            prefix: self.prefix.deep_view(),
            public_base_url: self.public_base_url.deep_view(),
            tap: self.tap.deep_view(),
        }
    }
}

impl Clone for S3BrewPublishTarget {
    fn clone(&self) -> (copy: Self)
        ensures
            copy.deep_view() == self.deep_view(),
    {
        let copy = S3BrewPublishTarget {
            common: self.common.clone(),
            prefix: self.prefix.clone(),
            public_base_url: self.public_base_url.clone(),
            tap: self.tap.clone(),
        };
        copy
    }
}

/// A Git repository that indexes packages, with the token to change it.
#[derive(Debug, PartialEq, Eq)]
pub struct GitIndexPublishTarget {
    pub repository: String,
    pub base_branch: String,
    pub token: String,
}

/// What a [`GitIndexPublishTarget`] holds.
pub struct GitIndexPublishTargetView {
    pub repository: Seq<char>,
    pub base_branch: Seq<char>,
    pub token: Seq<char>,
}

impl DeepView for GitIndexPublishTarget {
    type V = GitIndexPublishTargetView;

    open spec fn deep_view(&self) -> GitIndexPublishTargetView {
        GitIndexPublishTargetView {
            repository: self.repository@,
            base_branch: self.base_branch@,
            token: self.token@,
        }
    }
}

impl Clone for GitIndexPublishTarget {
    fn clone(&self) -> (copy: Self)
        ensures
            copy.deep_view() == self.deep_view(),
    {
        let copy = GitIndexPublishTarget {
            repository: self.repository.clone(),
            base_branch: self.base_branch.clone(),
            token: self.token.clone(),
        };
        copy
    }
}

/// A Homebrew tap.
pub type TapPublishTarget = GitIndexPublishTarget;

/// Where Scoop archives go.
#[derive(Debug, PartialEq, Eq)]
pub struct S3ScoopPublishTarget {
    pub common: S3CommonPublishTarget,
    pub prefix: RemotePrefix,
    pub public_base_url: PublicBaseUrl,
    pub bucket: GitIndexPublishTarget,
}

/// What a [`S3ScoopPublishTarget`] holds.
pub struct S3ScoopPublishTargetView {
    pub common: S3CommonPublishTargetView,
    pub prefix: Seq<char>,
    pub public_base_url: Seq<char>,
    pub bucket: GitIndexPublishTargetView,
}

impl DeepView for S3ScoopPublishTarget {
    type V = S3ScoopPublishTargetView;

    open spec fn deep_view(&self) -> S3ScoopPublishTargetView {
        S3ScoopPublishTargetView {
            common: self.common.deep_view(),
            prefix: self.prefix.deep_view(),
            public_base_url: self.public_base_url.deep_view(),
            bucket: self.bucket.deep_view(),
        }
    }
}

impl Clone for S3ScoopPublishTarget {
    fn clone(&self) -> (copy: Self)
        ensures
            copy.deep_view() == self.deep_view(),
    {
        let copy = S3ScoopPublishTarget {
            common: self.common.clone(),
            prefix: self.prefix.clone(),
            public_base_url: self.public_base_url.clone(),
            bucket: self.bucket.clone(),
        };
        copy
    }
}

/// Where Debian packages go, and how the repository is signed.
#[derive(Debug, PartialEq, Eq)]
pub struct S3DebPublishTarget {
    pub common: S3CommonPublishTarget,
    pub prefix: RemotePrefix,
    pub suite: String,
    pub signing_key: String,
    pub signing_passphrase: Option<String>,
    pub fingerprint: String,
}

/// What a [`S3DebPublishTarget`] holds.
pub struct S3DebPublishTargetView {
    pub common: S3CommonPublishTargetView,
    pub prefix: Seq<char>,
    pub suite: Seq<char>,
    pub signing_key: Seq<char>,
    pub signing_passphrase: Option<Seq<char>>,
    pub fingerprint: Seq<char>,
}

impl DeepView for S3DebPublishTarget {
    type V = S3DebPublishTargetView;

    open spec fn deep_view(&self) -> S3DebPublishTargetView {
        S3DebPublishTargetView {
            common: self.common.deep_view(),
            prefix: self.prefix.deep_view(),
            suite: self.suite@,
            signing_key: self.signing_key@,
            signing_passphrase: self.signing_passphrase.deep_view(),
            fingerprint: self.fingerprint@,
        }
    }
}

impl Clone for S3DebPublishTarget {
    fn clone(&self) -> (copy: Self)
        ensures
            copy.deep_view() == self.deep_view(),
    {
        let copy = S3DebPublishTarget {
            common: self.common.clone(),
            prefix: self.prefix.clone(),
            suite: self.suite.clone(),
            signing_key: self.signing_key.clone(),
            signing_passphrase: self.signing_passphrase.clone(),
            fingerprint: self.fingerprint.clone(),
        };
        copy
    }
}

/// Where RPM packages go.
#[derive(Debug, PartialEq, Eq)]
pub struct S3RpmPublishTarget {
    pub common: S3CommonPublishTarget,
    pub prefix: RemotePrefix,
}

/// What a [`S3RpmPublishTarget`] holds.
pub struct S3RpmPublishTargetView {
    pub common: S3CommonPublishTargetView,
    pub prefix: Seq<char>,
}

impl DeepView for S3RpmPublishTarget {
    type V = S3RpmPublishTargetView;

    open spec fn deep_view(&self) -> S3RpmPublishTargetView {
        S3RpmPublishTargetView {
            common: self.common.deep_view(),
            prefix: self.prefix.deep_view(),
        }
    }
}

impl Clone for S3RpmPublishTarget {
    fn clone(&self) -> (copy: Self)
        ensures
            copy.deep_view() == self.deep_view(),
    {
        let copy = S3RpmPublishTarget {
            common: self.common.clone(),
            prefix: self.prefix.clone(),
        };
        copy
    }
}

/// What a target has in common with all others.
pub open spec fn common_of(target: S3PublishTargetView) -> S3CommonPublishTargetView {
    match target {
        S3PublishTargetView::Brew(target) => target.common,
        S3PublishTargetView::Scoop(target) => target.common,
        S3PublishTargetView::Deb(target) => target.common,
        S3PublishTargetView::Rpm(target) => target.common,
    }
}

impl S3PublishTarget {
    /// What the target has in common with all others.
    pub fn common(&self) -> (common: &S3CommonPublishTarget)
        ensures
            common.deep_view() == common_of(self.deep_view()),
    {
        match self {
            S3PublishTarget::Brew(target) => &target.common,
            S3PublishTarget::Scoop(target) => &target.common,
            S3PublishTarget::Deb(target) => &target.common,
            S3PublishTarget::Rpm(target) => &target.common,
        }
    }

    /// The bucket of the target.
    pub fn bucket(&self) -> (bucket: &str)
        ensures
            bucket@ == common_of(self.deep_view()).bucket,
    {
        self.common().bucket.as_str()
    }

    /// The endpoint of the target.
    pub fn endpoint_url(&self) -> (url: &str)
        ensures
            url@ == common_of(self.deep_view()).endpoint_url,
    {
        self.common().endpoint_url.as_str()
    }
}

/// A package system without destination.
#[derive(Debug, PartialEq, Eq)]
pub enum S3PublishEnvNamesError {
    /// Reported as `destination s3 {system} branch is missing`.
    MissingBranch { system: PackageSystem },
}

/// What a [`S3PublishEnvNamesError`] holds.
pub enum S3PublishEnvNamesErrorView {
    MissingBranch { system: PackageSystem },
}

impl DeepView for S3PublishEnvNamesError {
    type V = S3PublishEnvNamesErrorView;

    open spec fn deep_view(&self) -> S3PublishEnvNamesErrorView {
        match self {
            S3PublishEnvNamesError::MissingBranch { system } => S3PublishEnvNamesErrorView::MissingBranch {
                system: *system,
            },
        }
    }
}

impl S3PublishEnvNamesErrorView {
    /// The message of the error.
    pub open spec fn message(self) -> Seq<char> {
        match self {
            S3PublishEnvNamesErrorView::MissingBranch { system } => "destination s3 "@ + system_name(system) + " branch is missing"@,
        }
    }
}

impl S3PublishEnvNamesError {
    /// The message of the error.
    pub fn to_string(&self) -> (text: String)
        ensures
            text@ == self.deep_view().message(),
    {
        match self {
            S3PublishEnvNamesError::MissingBranch { system } => {
                let mut text = "destination s3 ".to_owned();
                text.append(system.as_str());
                text.append(" branch is missing");
                text
            },
        }
    }
}

/// The environment variables that publishing for a package system reads.
pub open spec fn publish_env_names(contract: ReleaseContract, system: PackageSystem) -> Result<
    Set<Seq<char>>,
    S3PublishEnvNamesErrorView,
> {
    let s3 = contract.destination.s3;
    let common = Set::empty().insert(s3.endpoint.env@).insert(s3.access_key_id.env@).insert(
        s3.secret_access_key.env@,
    );
    if !has_destination(contract, system) {
        Err(S3PublishEnvNamesErrorView::MissingBranch { system })
    } else {
        Ok(
            match system {
                PackageSystem::Brew => common.insert(s3.brew->0.stable.tap.token.env@).insert(
                    s3.brew->0.preview.tap.token.env@,
                ),
                PackageSystem::Scoop => common.insert(s3.scoop->0.stable.bucket.token.env@).insert(
                    s3.scoop->0.preview.bucket.token.env@,
                ),
                PackageSystem::Deb => common.insert(s3.deb->0.signing.key.env@).insert(
                    s3.deb->0.signing.passphrase.env@,
                ).insert(s3.deb->0.signing.fingerprint.env@),
                PackageSystem::Rpm => common,
            },
        )
    }
}

/// The environment variables that publishing for a package system reads.
pub fn s3_publish_env_names(contract: &ReleaseContract, system: PackageSystem) -> (names: Result<
    TextSet,
    S3PublishEnvNamesError,
>)
    ensures
        outcome(names) == publish_env_names(*contract, system),
{
    let s3 = &contract.destination.s3;
    let mut names = TextSet::new();
    names.insert(s3.endpoint.env.clone());
    names.insert(s3.access_key_id.env.clone());
    names.insert(s3.secret_access_key.env.clone());
    match system {
        PackageSystem::Brew => match &s3.brew {
            Some(branch) => {
                names.insert(branch.stable.tap.token.env.clone());
                names.insert(branch.preview.tap.token.env.clone());
            },
            None => {
                return Err(S3PublishEnvNamesError::MissingBranch { system });
            },
        },
        PackageSystem::Scoop => match &s3.scoop {
            Some(branch) => {
                names.insert(branch.stable.bucket.token.env.clone());
                names.insert(branch.preview.bucket.token.env.clone());
            },
            None => {
                return Err(S3PublishEnvNamesError::MissingBranch { system });
            },
        },
        PackageSystem::Deb => match &s3.deb {
            Some(branch) => {
                names.insert(branch.signing.key.env.clone());
                names.insert(branch.signing.passphrase.env.clone());
                names.insert(branch.signing.fingerprint.env.clone());
            },
            None => {
                return Err(S3PublishEnvNamesError::MissingBranch { system });
            },
        },
        PackageSystem::Rpm => {
            if s3.rpm.is_none() {
                return Err(S3PublishEnvNamesError::MissingBranch { system });
            }
        },
    }
    Ok(names)
}

/// Why a publish target cannot be resolved.
#[allow(inconsistent_fields)]
#[derive(Debug, PartialEq, Eq)]
pub enum ResolveS3PublishTargetError {
    /// Reported as `destination s3 {system} branch missing`.
    MissingBranch { system: PackageSystem },
    /// Reported as `missing required release environment variable {name}`.
    MissingEnv { name: String },
    /// Reported as `release environment variable {name} must not be empty`.
    EmptyEnv { name: String },
    /// Reported as `invalid remote prefix`.
    RemotePrefix { source: RemotePrefixError },
    /// Reported as `invalid public base url`.
    PublicBaseUrl { source: PublicBaseUrlError },
}

/// What a [`ResolveS3PublishTargetError`] holds.
#[allow(inconsistent_fields)]
pub enum ResolveS3PublishTargetErrorView {
    MissingBranch { system: PackageSystem },
    MissingEnv { name: Seq<char> },
    EmptyEnv { name: Seq<char> },
    RemotePrefix { source: RemotePrefixErrorView },
    PublicBaseUrl { source: PublicBaseUrlErrorView },
}

impl DeepView for ResolveS3PublishTargetError {
    type V = ResolveS3PublishTargetErrorView;

    open spec fn deep_view(&self) -> ResolveS3PublishTargetErrorView {
        match self {
            ResolveS3PublishTargetError::MissingBranch { system } => ResolveS3PublishTargetErrorView::MissingBranch {
                system: *system,
            },
            ResolveS3PublishTargetError::MissingEnv { name } => ResolveS3PublishTargetErrorView::MissingEnv {
                name: name@,
            },
            ResolveS3PublishTargetError::EmptyEnv { name } => ResolveS3PublishTargetErrorView::EmptyEnv {
                name: name@,
            },
            ResolveS3PublishTargetError::RemotePrefix { source } => ResolveS3PublishTargetErrorView::RemotePrefix {
                source: source.deep_view(),
            },
            ResolveS3PublishTargetError::PublicBaseUrl { source } => ResolveS3PublishTargetErrorView::PublicBaseUrl {
                source: source.deep_view(),
            },
        }
    }
}

impl ResolveS3PublishTargetErrorView {
    /// The message of the error.
    pub open spec fn message(self) -> Seq<char> {
        match self {
            ResolveS3PublishTargetErrorView::MissingBranch { system } => "destination s3 "@ + system_name(system) + " branch missing"@,
            ResolveS3PublishTargetErrorView::MissingEnv { name } => "missing required release environment variable "@ + name,
            ResolveS3PublishTargetErrorView::EmptyEnv { name } => "release environment variable "@ + name + " must not be empty"@,
            ResolveS3PublishTargetErrorView::RemotePrefix { .. } => "invalid remote prefix"@,
            ResolveS3PublishTargetErrorView::PublicBaseUrl { .. } => "invalid public base url"@,
        }
    }
}

impl ResolveS3PublishTargetError {
    /// The message of the error.
    pub fn to_string(&self) -> (text: String)
        ensures
            text@ == self.deep_view().message(),
    {
        match self {
            ResolveS3PublishTargetError::MissingBranch { system } => {
                let mut text = "destination s3 ".to_owned();
                text.append(system.as_str());
                text.append(" branch missing");
                text
            },
            ResolveS3PublishTargetError::MissingEnv { name } => {
                let mut text = "missing required release environment variable ".to_owned();
                text.append(name.as_str());
                text
            },
            ResolveS3PublishTargetError::EmptyEnv { name } => {
                let mut text = "release environment variable ".to_owned();
                text.append(name.as_str());
                text.append(" must not be empty");
                text
            },
            ResolveS3PublishTargetError::RemotePrefix { .. } => "invalid remote prefix".to_owned(),
            ResolveS3PublishTargetError::PublicBaseUrl { .. } => "invalid public base url".to_owned(),
        }
    }
}

/// The value of a variable that must be set and not be empty.
pub open spec fn env_value(values: Map<Seq<char>, Seq<char>>, name: Seq<char>) -> Result<
    Seq<char>,
    ResolveS3PublishTargetErrorView,
> {
    if !values.contains_key(name) {
        Err(ResolveS3PublishTargetErrorView::MissingEnv { name })
    } else if values[name].len() == 0 {
        Err(ResolveS3PublishTargetErrorView::EmptyEnv { name })
    } else {
        Ok(values[name])
    }
}

/// The value of a variable that must not be empty where it is set.
pub open spec fn optional_env_value(values: Map<Seq<char>, Seq<char>>, name: Seq<char>) -> Result<
    Option<Seq<char>>,
    ResolveS3PublishTargetErrorView,
> {
    if !values.contains_key(name) {
        Ok(None)
    } else {
        match env_value(values, name) {
            Ok(value) => Ok(Some(value)),
            Err(error) => Err(error),
        }
    }
}

/// What every publication to S3 needs, from the contract and the environment.
pub open spec fn common_target(contract: ReleaseContract, values: Map<Seq<char>, Seq<char>>) -> Result<
    S3CommonPublishTargetView,
    ResolveS3PublishTargetErrorView,
> {
    let s3 = contract.destination.s3;
    match (
        env_value(values, s3.endpoint.env@),
        env_value(values, s3.access_key_id.env@),
        env_value(values, s3.secret_access_key.env@),
    ) {
        (Err(error), _, _) => Err(error),
        (Ok(_), Err(error), _) => Err(error),
        (Ok(_), Ok(_), Err(error)) => Err(error),
        (Ok(endpoint_url), Ok(access_key_id), Ok(secret_access_key)) => Ok(
            S3CommonPublishTargetView {
                bucket: s3.bucket@,
                endpoint_url,
                access_key_id,
                secret_access_key,
            },
        ),
    }
}

/// A prefix of the contract.
pub open spec fn target_prefix(value: Seq<char>) -> Result<
    Seq<char>,
    ResolveS3PublishTargetErrorView,
> {
    match remote_prefix(value) {
        Ok(prefix) => Ok(prefix),
        Err(source) => Err(ResolveS3PublishTargetErrorView::RemotePrefix { source }),
    }
}

/// A base address of the contract.
pub open spec fn target_url(value: Seq<char>) -> Result<Seq<char>, ResolveS3PublishTargetErrorView> {
    match public_base_url(value) {
        Ok(url) => Ok(url),
        Err(source) => Err(ResolveS3PublishTargetErrorView::PublicBaseUrl { source }),
    }
}

/// An index repository with the token from the environment.
pub open spec fn index_target(
    index: GitIndexDestination,
    values: Map<Seq<char>, Seq<char>>,
) -> Result<GitIndexPublishTargetView, ResolveS3PublishTargetErrorView> {
    match env_value(values, index.token.env@) {
        Ok(token) => Ok(
            GitIndexPublishTargetView {
                repository: index.repository@,
                base_branch: index.base_branch@,
                token,
            },
        ),
        Err(error) => Err(error),
    }
}

/// Where the Homebrew archives of a channel go.
pub open spec fn brew_target(
    common: S3CommonPublishTargetView,
    destination: S3BrewChannelDestination,
    values: Map<Seq<char>, Seq<char>>,
) -> Result<S3PublishTargetView, ResolveS3PublishTargetErrorView> {
    match (
        target_prefix(destination.prefix@),
        target_url(destination.public_base_url@),
        index_target(destination.tap, values),
    ) {
        (Err(error), _, _) => Err(error),
        (Ok(_), Err(error), _) => Err(error),
        (Ok(_), Ok(_), Err(error)) => Err(error),
        (Ok(prefix), Ok(public_base_url), Ok(tap)) => Ok(
            S3PublishTargetView::Brew(
                S3BrewPublishTargetView { common, prefix, public_base_url, tap },
            ),
        ),
    }
}

/// Where the Scoop archives of a channel go.
pub open spec fn scoop_target(
    common: S3CommonPublishTargetView,
    destination: S3ScoopChannelDestination,
    values: Map<Seq<char>, Seq<char>>,
) -> Result<S3PublishTargetView, ResolveS3PublishTargetErrorView> {
    match (
        target_prefix(destination.prefix@),
        target_url(destination.public_base_url@),
        index_target(destination.bucket, values),
    ) {
        (Err(error), _, _) => Err(error),
        (Ok(_), Err(error), _) => Err(error),
        (Ok(_), Ok(_), Err(error)) => Err(error),
        (Ok(prefix), Ok(public_base_url), Ok(bucket)) => Ok(
            S3PublishTargetView::Scoop(
                S3ScoopPublishTargetView { common, prefix, public_base_url, bucket },
            ),
        ),
    }
}

/// Where the Debian packages of a channel go. The passphrase may be unset.
pub open spec fn deb_target(
    common: S3CommonPublishTargetView,
    destination: S3DebChannelDestination,
    signing: DebSigning,
    values: Map<Seq<char>, Seq<char>>,
) -> Result<S3PublishTargetView, ResolveS3PublishTargetErrorView> {
    match (
        target_prefix(destination.prefix@),
        env_value(values, signing.key.env@),
        optional_env_value(values, signing.passphrase.env@),
        env_value(values, signing.fingerprint.env@),
    ) {
        (Err(error), _, _, _) => Err(error),
        (Ok(_), Err(error), _, _) => Err(error),
        (Ok(_), Ok(_), Err(error), _) => Err(error),
        (Ok(_), Ok(_), Ok(_), Err(error)) => Err(error),
        (Ok(prefix), Ok(signing_key), Ok(signing_passphrase), Ok(fingerprint)) => Ok(
            S3PublishTargetView::Deb(
                S3DebPublishTargetView {
                    common,
                    prefix,
                    suite: destination.suite@,
                    signing_key,
                    signing_passphrase,
                    fingerprint,
                },
            ),
        ),
    }
}

/// Where the RPM packages of a channel go.
pub open spec fn rpm_target(
    common: S3CommonPublishTargetView,
    destination: S3RpmChannelDestination,
) -> Result<S3PublishTargetView, ResolveS3PublishTargetErrorView> {
    match target_prefix(destination.prefix@) {
        Ok(prefix) => Ok(S3PublishTargetView::Rpm(S3RpmPublishTargetView { common, prefix })),
        Err(error) => Err(error),
    }
}

/// What one of the two channels has.
pub open spec fn of_channel<T>(channel: ReleaseChannel, stable: T, preview: T) -> T {
    match channel {
        ReleaseChannel::Stable => stable,
        ReleaseChannel::Preview => preview,
    }
}

/// Where a package system publishes versions of a channel.
pub open spec fn publish_target(
    contract: ReleaseContract,
    system: PackageSystem,
    channel: ReleaseChannel,
    values: Map<Seq<char>, Seq<char>>,
) -> Result<S3PublishTargetView, ResolveS3PublishTargetErrorView> {
    let s3 = contract.destination.s3;
    match common_target(contract, values) {
        Err(error) => Err(error),
        Ok(common) => if !has_destination(contract, system) {
            Err(ResolveS3PublishTargetErrorView::MissingBranch { system })
        } else {
            match system {
                PackageSystem::Brew => brew_target(
                    common,
                    of_channel(channel, s3.brew->0.stable, s3.brew->0.preview),
                    values,
                ),
                PackageSystem::Scoop => scoop_target(
                    common,
                    of_channel(channel, s3.scoop->0.stable, s3.scoop->0.preview),
                    values,
                ),
                PackageSystem::Deb => deb_target(
                    common,
                    of_channel(channel, s3.deb->0.stable, s3.deb->0.preview),
                    s3.deb->0.signing,
                    values,
                ),
                PackageSystem::Rpm => rpm_target(
                    common,
                    of_channel(channel, s3.rpm->0.stable, s3.rpm->0.preview),
                ),
            }
        },
    }
}

fn resolve_env_ref(reference: &EnvRef, values: &TextMap<String, String>) -> (value: Result<
    String,
    ResolveS3PublishTargetError,
>)
    ensures
        outcome(value) == env_value(values.deep_view(), reference.env@),
{
    match values.value(reference.env.as_str()) {
        None => Err(ResolveS3PublishTargetError::MissingEnv { name: reference.env.clone() }),
        Some(value) => {
            if value.as_str().is_empty() {
                return Err(ResolveS3PublishTargetError::EmptyEnv { name: reference.env.clone() });
            }
            Ok(value.clone())
        },
    }
}

fn resolve_optional_env_ref(reference: &EnvRef, values: &TextMap<String, String>) -> (value: Result<
    Option<String>,
    ResolveS3PublishTargetError,
>)
    ensures
        outcome(value) == optional_env_value(values.deep_view(), reference.env@),
{
    match values.value(reference.env.as_str()) {
        None => Ok(None),
        Some(value) => {
            if value.as_str().is_empty() {
                return Err(ResolveS3PublishTargetError::EmptyEnv { name: reference.env.clone() });
            }
            Ok(Some(value.clone()))
        },
    }
}

fn resolve_s3_common(contract: &ReleaseContract, values: &TextMap<String, String>) -> (common:
    Result<S3CommonPublishTarget, ResolveS3PublishTargetError>)
    ensures
        outcome(common) == common_target(*contract, values.deep_view()),
{
    let s3 = &contract.destination.s3;
    let endpoint_url = match resolve_env_ref(&s3.endpoint, values) {
        Ok(value) => value,
        Err(error) => {
            return Err(error);
        },
    };
    let access_key_id = match resolve_env_ref(&s3.access_key_id, values) {
        Ok(value) => value,
        Err(error) => {
            return Err(error);
        },
    };
    let secret_access_key = match resolve_env_ref(&s3.secret_access_key, values) {
        Ok(value) => value,
        Err(error) => {
            return Err(error);
        },
    };
    Ok(
        S3CommonPublishTarget {
            bucket: s3.bucket.clone(),
            endpoint_url,
            access_key_id,
            secret_access_key,
        },
    )
}

fn resolve_prefix(value: &str) -> (prefix: Result<RemotePrefix, ResolveS3PublishTargetError>)
    ensures
        outcome(prefix) == target_prefix(value@),
{
    match RemotePrefix::parse(value) {
        Ok(prefix) => Ok(prefix),
        Err(source) => Err(ResolveS3PublishTargetError::RemotePrefix { source }),
    }
}

fn resolve_public_base_url(value: &str) -> (url: Result<PublicBaseUrl, ResolveS3PublishTargetError>)
    ensures
        outcome(url) == target_url(value@),
{
    match PublicBaseUrl::parse(value) {
        Ok(url) => Ok(url),
        Err(source) => Err(ResolveS3PublishTargetError::PublicBaseUrl { source }),
    }
}

fn resolve_index(index: &GitIndexDestination, values: &TextMap<String, String>) -> (target: Result<
    GitIndexPublishTarget,
    ResolveS3PublishTargetError,
>)
    ensures
        outcome(target) == index_target(*index, values.deep_view()),
{
    match resolve_env_ref(&index.token, values) {
        Ok(token) => Ok(
            GitIndexPublishTarget {
                repository: index.repository.clone(),
                base_branch: index.base_branch.clone(),
                token,
            },
        ),
        Err(error) => Err(error),
    }
}

fn resolve_brew(
    common: S3CommonPublishTarget,
    destination: &S3BrewChannelDestination,
    values: &TextMap<String, String>,
) -> (target: Result<S3PublishTarget, ResolveS3PublishTargetError>)
    ensures
        outcome(target) == brew_target(common.deep_view(), *destination, values.deep_view()),
{
    let prefix = match resolve_prefix(destination.prefix.as_str()) {
        Ok(prefix) => prefix,
        Err(error) => {
            return Err(error);
        },
    };
    let public_base_url = match resolve_public_base_url(destination.public_base_url.as_str()) {
        Ok(url) => url,
        Err(error) => {
            return Err(error);
        },
    };
    match resolve_index(&destination.tap, values) {
        Ok(tap) => Ok(
            S3PublishTarget::Brew(S3BrewPublishTarget { common, prefix, public_base_url, tap }),
        ),
        Err(error) => Err(error),
    }
}

fn resolve_scoop(
    common: S3CommonPublishTarget,
    destination: &S3ScoopChannelDestination,
    values: &TextMap<String, String>,
) -> (target: Result<S3PublishTarget, ResolveS3PublishTargetError>)
    ensures
        outcome(target) == scoop_target(common.deep_view(), *destination, values.deep_view()),
{
    let prefix = match resolve_prefix(destination.prefix.as_str()) {
        Ok(prefix) => prefix,
        Err(error) => {
            return Err(error);
        },
    };
    let public_base_url = match resolve_public_base_url(destination.public_base_url.as_str()) {
        Ok(url) => url,
        Err(error) => {
            return Err(error);
        },
    };
    match resolve_index(&destination.bucket, values) {
        Ok(bucket) => Ok(
            S3PublishTarget::Scoop(
                S3ScoopPublishTarget { common, prefix, public_base_url, bucket },
            ),
        ),
        Err(error) => Err(error),
    }
}

fn resolve_deb(
    common: S3CommonPublishTarget,
    destination: &S3DebChannelDestination,
    signing: &DebSigning,
    values: &TextMap<String, String>,
) -> (target: Result<S3PublishTarget, ResolveS3PublishTargetError>)
    ensures
        outcome(target) == deb_target(
            common.deep_view(),
            *destination,
            *signing,
            values.deep_view(),
        ),
{
    let prefix = match resolve_prefix(destination.prefix.as_str()) {
        Ok(prefix) => prefix,
        Err(error) => {
            return Err(error);
        },
    };
    let signing_key = match resolve_env_ref(&signing.key, values) {
        Ok(value) => value,
        Err(error) => {
            return Err(error);
        },
    };
    let signing_passphrase = match resolve_optional_env_ref(&signing.passphrase, values) {
        Ok(value) => value,
        Err(error) => {
            return Err(error);
        },
    };
    let fingerprint = match resolve_env_ref(&signing.fingerprint, values) {
        Ok(value) => value,
        Err(error) => {
            return Err(error);
        },
    };
    Ok(
        S3PublishTarget::Deb(
            S3DebPublishTarget {
                common,
                prefix,
                suite: destination.suite.clone(),
                signing_key,
                signing_passphrase,
                fingerprint,
            },
        ),
    )
}

fn resolve_rpm(common: S3CommonPublishTarget, destination: &S3RpmChannelDestination) -> (target:
    Result<S3PublishTarget, ResolveS3PublishTargetError>)
    ensures
        outcome(target) == rpm_target(common.deep_view(), *destination),
{
    match resolve_prefix(destination.prefix.as_str()) {
        Ok(prefix) => Ok(S3PublishTarget::Rpm(S3RpmPublishTarget { common, prefix })),
        Err(error) => Err(error),
    }
}

/// Where a package system publishes versions of a channel, with the secrets from the
/// environment.
pub fn resolve_s3_publish_target(
    contract: &ReleaseContract,
    system: PackageSystem,
    channel: ReleaseChannel,
    values: &TextMap<String, String>,
) -> (target: Result<S3PublishTarget, ResolveS3PublishTargetError>)
    ensures
        outcome(target) == publish_target(*contract, system, channel, values.deep_view()),
{
    let common = match resolve_s3_common(contract, values) {
        Ok(common) => common,
        Err(error) => {
            return Err(error);
        },
    };
    match system {
        PackageSystem::Brew => match &contract.destination.s3.brew {
            Some(branch) => match channel {
                ReleaseChannel::Stable => resolve_brew(common, &branch.stable, values),
                ReleaseChannel::Preview => resolve_brew(common, &branch.preview, values),
            },
            None => Err(ResolveS3PublishTargetError::MissingBranch { system }),
        },
        PackageSystem::Scoop => match &contract.destination.s3.scoop {
            Some(branch) => match channel {
                ReleaseChannel::Stable => resolve_scoop(common, &branch.stable, values),
                ReleaseChannel::Preview => resolve_scoop(common, &branch.preview, values),
            },
            None => Err(ResolveS3PublishTargetError::MissingBranch { system }),
        },
        PackageSystem::Deb => match &contract.destination.s3.deb {
            Some(branch) => match channel {
                ReleaseChannel::Stable => resolve_deb(
                    common,
                    &branch.stable,
                    &branch.signing,
                    values,
                ),
                ReleaseChannel::Preview => resolve_deb(
                    common,
                    &branch.preview,
                    &branch.signing,
                    values,
                ),
            },
            None => Err(ResolveS3PublishTargetError::MissingBranch { system }),
        },
        PackageSystem::Rpm => match &contract.destination.s3.rpm {
            Some(branch) => match channel {
                ReleaseChannel::Stable => resolve_rpm(common, &branch.stable),
                ReleaseChannel::Preview => resolve_rpm(common, &branch.preview),
            },
            None => Err(ResolveS3PublishTargetError::MissingBranch { system }),
        },
    }
}

} // verus!
