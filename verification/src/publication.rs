//! A publication, step by step: what is asked of the storage and of the host, and what is
//! done with the answers.

use vstd::prelude::*;

use crate::brew::brew_variables;
use crate::channel::{channel_name, channel_of, ReleaseChannel};
use crate::contract::{package_of, ReleaseContract};
use crate::manifest::{
    artifact_path, PackageArtifact, PackageArtifactView, PackageManifest, PackageManifestView,
};
use crate::model::{deep, outcome};
use crate::package::{
    CargoMetadata, CargoMetadataView, PackageId, ResolvedPackageMetadata,
    ResolvedPackageMetadataView,
};
use crate::path::path_join;
use crate::publish::{
    below_prefix, entry_names, immutable_upload, publish_target, resolve_s3_publish_target,
    LinuxPackagePayloadView, RemoteDebPackageEntryView, RemotePayloadState, RemotePayloadStateView, RemotePrefix, S3PublishTarget,
    S3PublishTargetView, UploadCondition, UploadConditionView,
};
use crate::s3::{
    announcement, announcement_directory, announcement_upload, announcement_uploads,
    apply_entry_conditions, archive_plan, check_archive_sha256, container_words, deb_copy,
    deb_download, deb_entry_metadata_relative_paths, deb_metadata_command, deb_metadata_script,
    deb_packages_keys, deb_repository, deb_repository_copies, deb_repository_downloads,
    file_uploads, in_order, index_keys, manifest_package, manifest_package_metadata,
    manifest_template_path, metadata_script, order_publish_uploads, order_repository_uploads,
    plan_deb_repository, plan_repository_upload, plan_rpm_repository, plan_versioned_archive,
    publication_ranked, publish_directory, render_brew_formula, render_scoop_manifest,
    repository_extension, repository_ranked, repository_uploads, rpm_downloads, rpm_file,
    rpm_repository, rpm_repository_command, rpm_repository_copies, rpm_repository_downloads,
    suite_metadata, summary, target_summary, template_path, unranked, versioned_archive_key,
    with_entry_conditions, DebRepositoryPlan, DebRepositoryPlanView, FileCopy, FileCopyView,
    ObjectDownload, ObjectDownloadView, PlannedUpload, PlannedUploadView, RpmRepositoryPlan,
    RpmRepositoryPlanView, S3PublishError, S3PublishErrorView,
};
use crate::scoop::scoop_variables;
use crate::system::{system_name, PackageSystem};
use crate::textmap::TextMap;

verus! {

broadcast use crate::model::group_deep;

// ---------------------------------------------------------------------------
// What a publication is about
// ---------------------------------------------------------------------------
/// What is published, and where: this stays while the publication goes on.
#[derive(Debug, PartialEq, Eq)]
pub struct Publication {
    /// Whether uploads are only named.
    pub dry_run: bool,
    pub root: String,
    pub target_dir: String,
    pub package_id: PackageId,
    pub metadata: ResolvedPackageMetadata,
    pub manifest: PackageManifest,
    pub target: S3PublishTarget,
}

/// What a [`Publication`] holds.
pub struct PublicationView {
    pub dry_run: bool,
    pub root: Seq<char>,
    pub target_dir: Seq<char>,
    pub package_id: Seq<char>,
    pub metadata: ResolvedPackageMetadataView,
    pub manifest: PackageManifestView,
    pub target: S3PublishTargetView,
}

impl DeepView for Publication {
    type V = PublicationView;

    open spec fn deep_view(&self) -> PublicationView {
        PublicationView {
            dry_run: self.dry_run,
            root: self.root@,
            target_dir: self.target_dir@,
            package_id: self.package_id.deep_view(),
            metadata: self.metadata.deep_view(),
            manifest: self.manifest.deep_view(),
            target: self.target.deep_view(),
        }
    }
}

/// The publication of a manifest: its package is resolved, and the version of the package
/// decides on the channel.
pub open spec fn publication_of(
    contract: ReleaseContract,
    root: Seq<char>,
    target_dir: Seq<char>,
    cargo: Map<Seq<char>, CargoMetadataView>,
    values: Map<Seq<char>, Seq<char>>,
    manifest: PackageManifestView,
    dry_run: bool,
) -> Result<PublicationView, S3PublishErrorView> {
    match manifest_package(root, contract, manifest.package, cargo) {
        Err(error) => Err(error),
        Ok((package_id, metadata)) => match publish_target(
            contract,
            manifest.kind,
            channel_of(metadata.source_version),
            values,
        ) {
            Err(source) => Err(S3PublishErrorView::ResolveTarget { source }),
            Ok(target) => Ok(
                PublicationView {
                    dry_run,
                    root,
                    target_dir,
                    package_id,
                    metadata,
                    manifest,
                    target,
                },
            ),
        },
    }
}

/// Begins the publication of a manifest, with `values` as the environment.
pub fn begin_publication(
    contract: &ReleaseContract,
    root: &str,
    target_dir: &str,
    cargo: &TextMap<String, CargoMetadata>,
    values: &TextMap<String, String>,
    manifest: PackageManifest,
    dry_run: bool,
) -> (publication: Result<Publication, S3PublishError>)
    ensures
        outcome(publication) == publication_of(
            *contract,
            root@,
            target_dir@,
            cargo.deep_view(),
            values.deep_view(),
            manifest.deep_view(),
            dry_run,
        ),
{
    match manifest_package_metadata(root, contract, &manifest, cargo) {
        Err(error) => Err(error),
        Ok((package_id, metadata)) => {
            let channel = ReleaseChannel::from_version(&metadata.source_version);
            match resolve_s3_publish_target(contract, manifest.kind, channel, values) {
                Err(source) => Err(S3PublishError::ResolveTarget { source }),
                Ok(target) => Ok(
                    Publication {
                        dry_run,
                        root: root.to_owned(),
                        target_dir: target_dir.to_owned(),
                        package_id,
                        metadata,
                        manifest,
                        target,
                    },
                ),
            }
        },
    }
}

/// The line that announces a publication.
pub open spec fn publication_line(publication: PublicationView) -> Seq<char> {
    "publish s3 "@ + system_name(publication.manifest.kind) + " channel="@ + channel_name(
        channel_of(publication.metadata.source_version),
    ) + " target="@ + summary(publication.target)
}

/// The line that announces a publication.
pub fn publication_notice(publication: &Publication) -> (line: String)
    ensures
        line@ == publication_line(publication.deep_view()),
{
    let mut line = "publish s3 ".to_owned();
    line.append(publication.manifest.kind.as_str());
    line.append(" channel=");
    line.append(ReleaseChannel::from_version(&publication.metadata.source_version).as_str());
    line.append(" target=");
    line.append(target_summary(&publication.target).as_str());
    line
}

/// The prefix that a target publishes below.
pub open spec fn prefix_of(target: S3PublishTargetView) -> Seq<char> {
    match target {
        S3PublishTargetView::Brew(target) => target.prefix,
        S3PublishTargetView::Scoop(target) => target.prefix,
        S3PublishTargetView::Deb(target) => target.prefix,
        S3PublishTargetView::Rpm(target) => target.prefix,
    }
}

fn target_prefix(target: &S3PublishTarget) -> (prefix: &RemotePrefix)
    ensures
        prefix.deep_view() == prefix_of(target.deep_view()),
{
    match target {
        S3PublishTarget::Brew(target) => &target.prefix,
        S3PublishTarget::Scoop(target) => &target.prefix,
        S3PublishTarget::Deb(target) => &target.prefix,
        S3PublishTarget::Rpm(target) => &target.prefix,
    }
}

/// The package system that a target serves.
pub open spec fn target_system_of(target: S3PublishTargetView) -> PackageSystem {
    match target {
        S3PublishTargetView::Brew(_) => PackageSystem::Brew,
        S3PublishTargetView::Scoop(_) => PackageSystem::Scoop,
        S3PublishTargetView::Deb(_) => PackageSystem::Deb,
        S3PublishTargetView::Rpm(_) => PackageSystem::Rpm,
    }
}

fn target_system(target: &S3PublishTarget) -> (system: PackageSystem)
    ensures
        system == target_system_of(target.deep_view()),
{
    match target {
        S3PublishTarget::Brew(_) => PackageSystem::Brew,
        S3PublishTarget::Scoop(_) => PackageSystem::Scoop,
        S3PublishTarget::Deb(_) => PackageSystem::Deb,
        S3PublishTarget::Rpm(_) => PackageSystem::Rpm,
    }
}

// ---------------------------------------------------------------------------
// Stages, actions and events
// ---------------------------------------------------------------------------
/// How far a publication has come: what it waits for, and what it has gathered.
#[allow(inconsistent_fields)]
#[derive(Debug, PartialEq, Eq)]
pub enum PublicationStage {
    /// Waits for the hash of the next archive.
    Hashing { artifacts: Vec<PackageArtifact>, uploads: Vec<PlannedUpload>, key: String },
    /// Waits for what stands at the key of the next archive.
    Locating { artifacts: Vec<PackageArtifact>, uploads: Vec<PlannedUpload>, key: String, sha256: String },
    /// Waits for the template of the announcements.
    Describing { artifacts: Vec<PackageArtifact>, uploads: Vec<PlannedUpload> },
    /// Waits until the announcements are written.
    Announcing { uploads: Vec<PlannedUpload> },
    /// Waits for the package indexes of a Debian repository.
    Indexing,
    /// Waits for the conditions of the metadata of a Debian repository.
    Conditioning { plan: DebRepositoryPlan },
    /// Waits for the directory of a Debian repository.
    OpeningDeb { plan: DebRepositoryPlan, conditions: TextMap<String, UploadCondition> },
    /// Waits for the keys of an RPM repository.
    Listing,
    /// Waits for the directory of an RPM repository.
    OpeningRpm { plan: RpmRepositoryPlan },
    /// Waits until a repository holds its packages.
    Filling { directory: String, conditions: Option<TextMap<String, UploadCondition>> },
    /// Waits for the directory of the signing secrets.
    Protecting { directory: String, conditions: Option<TextMap<String, UploadCondition>> },
    /// Waits until a repository holds its metadata.
    Sealing { directory: String, conditions: Option<TextMap<String, UploadCondition>> },
    /// Waits for the files of a repository.
    Walking { directory: String, conditions: Option<TextMap<String, UploadCondition>> },
    /// Waits for the hash of a package of a repository, and for what stands at its key.
    Inspecting { upload: PlannedUpload, pending: Vec<PlannedUpload>, planned: Vec<PlannedUpload>, conditions: Option<TextMap<String, UploadCondition>> },
    /// Waits until an upload is done.
    Uploading { waiting: Vec<PlannedUpload> },
    /// Waits for nothing.
    Finished,
}

/// What a [`PublicationStage`] holds.
#[allow(inconsistent_fields)]
pub enum PublicationStageView {
    Hashing { artifacts: Seq<PackageArtifactView>, uploads: Seq<PlannedUploadView>, key: Seq<char> },
    Locating { artifacts: Seq<PackageArtifactView>, uploads: Seq<PlannedUploadView>, key: Seq<char>, sha256: Seq<char> },
    Describing { artifacts: Seq<PackageArtifactView>, uploads: Seq<PlannedUploadView> },
    Announcing { uploads: Seq<PlannedUploadView> },
    Indexing,
    Conditioning { plan: DebRepositoryPlanView },
    OpeningDeb { plan: DebRepositoryPlanView, conditions: Map<Seq<char>, UploadConditionView> },
    Listing,
    OpeningRpm { plan: RpmRepositoryPlanView },
    Filling { directory: Seq<char>, conditions: Option<Map<Seq<char>, UploadConditionView>> },
    Protecting { directory: Seq<char>, conditions: Option<Map<Seq<char>, UploadConditionView>> },
    Sealing { directory: Seq<char>, conditions: Option<Map<Seq<char>, UploadConditionView>> },
    Walking { directory: Seq<char>, conditions: Option<Map<Seq<char>, UploadConditionView>> },
    Inspecting { upload: PlannedUploadView, pending: Seq<PlannedUploadView>, planned: Seq<PlannedUploadView>, conditions: Option<Map<Seq<char>, UploadConditionView>> },
    Uploading { waiting: Seq<PlannedUploadView> },
    Finished,
}

impl DeepView for PublicationStage {
    type V = PublicationStageView;

    open spec fn deep_view(&self) -> PublicationStageView {
        match self {
            PublicationStage::Hashing { artifacts, uploads, key } => PublicationStageView::Hashing {
                artifacts: deep(artifacts@),
                uploads: deep(uploads@),
                key: key@,
            },
            PublicationStage::Locating { artifacts, uploads, key, sha256 } => PublicationStageView::Locating {
                artifacts: deep(artifacts@),
                uploads: deep(uploads@),
                key: key@,
                sha256: sha256@,
            },
            PublicationStage::Describing { artifacts, uploads } => PublicationStageView::Describing {
                artifacts: deep(artifacts@),
                uploads: deep(uploads@),
            },
            PublicationStage::Announcing { uploads } => PublicationStageView::Announcing {
                uploads: deep(uploads@),
            },
            PublicationStage::Indexing => PublicationStageView::Indexing,
            PublicationStage::Conditioning { plan } => PublicationStageView::Conditioning {
                plan: plan.deep_view(),
            },
            PublicationStage::OpeningDeb { plan, conditions } => PublicationStageView::OpeningDeb {
                plan: plan.deep_view(),
                conditions: conditions.deep_view(),
            },
            PublicationStage::Listing => PublicationStageView::Listing,
            PublicationStage::OpeningRpm { plan } => PublicationStageView::OpeningRpm {
                plan: plan.deep_view(),
            },
            PublicationStage::Filling { directory, conditions } => PublicationStageView::Filling {
                directory: directory@,
                conditions: conditions.deep_view(),
            },
            PublicationStage::Protecting { directory, conditions } => PublicationStageView::Protecting {
                directory: directory@,
                conditions: conditions.deep_view(),
            },
            PublicationStage::Sealing { directory, conditions } => PublicationStageView::Sealing {
                directory: directory@,
                conditions: conditions.deep_view(),
            },
            PublicationStage::Walking { directory, conditions } => PublicationStageView::Walking {
                directory: directory@,
                conditions: conditions.deep_view(),
            },
            PublicationStage::Inspecting { upload, pending, planned, conditions } => PublicationStageView::Inspecting {
                upload: upload.deep_view(),
                pending: deep(pending@),
                planned: deep(planned@),
                conditions: conditions.deep_view(),
            },
            PublicationStage::Uploading { waiting } => PublicationStageView::Uploading {
                waiting: deep(waiting@),
            },
            PublicationStage::Finished => PublicationStageView::Finished,
        }
    }
}

/// What a publication asks for.
#[derive(Debug, PartialEq, Eq)]
pub enum PublicationAction {
    /// The hash of a file.
    HashFile { path: String },
    /// What stands at a key.
    InspectObject { key: String },
    /// The text of a template.
    ReadTemplate { path: String },
    /// That files of a directory hold a text.
    WriteAnnouncements { directory: String, paths: Vec<String>, text: String },
    /// The texts of those objects that exist.
    FetchIndexes { keys: Vec<String> },
    /// For each key the condition that an upload to it is made under.
    InspectEntries { keys: Vec<String> },
    /// The keys below a prefix.
    ListObjects { prefix: String },
    /// An empty directory.
    CreateRepository,
    /// That files are copied and objects downloaded.
    FillRepository { copies: Vec<FileCopy>, downloads: Vec<ObjectDownload> },
    /// A directory with the signing key and the passphrase.
    WriteSecrets { signing_key: String, signing_passphrase: Option<String> },
    /// That Docker runs with these words.
    RunContainer { words: Vec<String> },
    /// The files below a directory.
    WalkRepository { directory: String },
    /// The hash of a file, and what stands at a key.
    InspectPayload { path: String, key: String },
    /// That a file is uploaded.
    Upload { upload: PlannedUpload },
    /// That an upload is named, and not made.
    Report { upload: PlannedUpload },
    /// Nothing more.
    Finish,
}

/// What a [`PublicationAction`] holds.
pub enum PublicationActionView {
    HashFile { path: Seq<char> },
    InspectObject { key: Seq<char> },
    ReadTemplate { path: Seq<char> },
    WriteAnnouncements { directory: Seq<char>, paths: Seq<Seq<char>>, text: Seq<char> },
    FetchIndexes { keys: Seq<Seq<char>> },
    InspectEntries { keys: Seq<Seq<char>> },
    ListObjects { prefix: Seq<char> },
    CreateRepository,
    FillRepository { copies: Seq<FileCopyView>, downloads: Seq<ObjectDownloadView> },
    WriteSecrets { signing_key: Seq<char>, signing_passphrase: Option<Seq<char>> },
    RunContainer { words: Seq<Seq<char>> },
    WalkRepository { directory: Seq<char> },
    InspectPayload { path: Seq<char>, key: Seq<char> },
    Upload { upload: PlannedUploadView },
    Report { upload: PlannedUploadView },
    Finish,
}

impl DeepView for PublicationAction {
    type V = PublicationActionView;

    open spec fn deep_view(&self) -> PublicationActionView {
        match self {
            PublicationAction::HashFile { path } => PublicationActionView::HashFile { path: path@ },
            PublicationAction::InspectObject { key } => PublicationActionView::InspectObject {
                key: key@,
            },
            PublicationAction::ReadTemplate { path } => PublicationActionView::ReadTemplate {
                path: path@,
            },
            PublicationAction::WriteAnnouncements { directory, paths, text } => PublicationActionView::WriteAnnouncements {
                directory: directory@,
                paths: deep(paths@),
                text: text@,
            },
            PublicationAction::FetchIndexes { keys } => PublicationActionView::FetchIndexes {
                keys: deep(keys@),
            },
            PublicationAction::InspectEntries { keys } => PublicationActionView::InspectEntries {
                keys: deep(keys@),
            },
            PublicationAction::ListObjects { prefix } => PublicationActionView::ListObjects {
                prefix: prefix@,
            },
            PublicationAction::CreateRepository => PublicationActionView::CreateRepository,
            PublicationAction::FillRepository { copies, downloads } => PublicationActionView::FillRepository {
                copies: deep(copies@),
                downloads: deep(downloads@),
            },
            PublicationAction::WriteSecrets { signing_key, signing_passphrase } => PublicationActionView::WriteSecrets {
                signing_key: signing_key@,
                signing_passphrase: signing_passphrase.deep_view(),
            },
            PublicationAction::RunContainer { words } => PublicationActionView::RunContainer {
                words: deep(words@),
            },
            PublicationAction::WalkRepository { directory } => PublicationActionView::WalkRepository {
                directory: directory@,
            },
            PublicationAction::InspectPayload { path, key } => PublicationActionView::InspectPayload {
                path: path@,
                key: key@,
            },
            PublicationAction::Upload { upload } => PublicationActionView::Upload {
                upload: upload.deep_view(),
            },
            PublicationAction::Report { upload } => PublicationActionView::Report {
                upload: upload.deep_view(),
            },
            PublicationAction::Finish => PublicationActionView::Finish,
        }
    }
}

/// What comes back of an action.
#[derive(Debug, PartialEq, Eq)]
pub enum PublicationEvent {
    Hashed { sha256: String },
    Located { remote: RemotePayloadState },
    Text { text: String },
    Done,
    Indexes { contents: Vec<String> },
    Conditions { conditions: TextMap<String, UploadCondition> },
    Keys { keys: Vec<String> },
    Directory { path: String },
    Files { paths: Vec<String> },
    Payload { sha256: String, remote: RemotePayloadState },
}

/// What a [`PublicationEvent`] holds.
pub enum PublicationEventView {
    Hashed { sha256: Seq<char> },
    Located { remote: RemotePayloadStateView },
    Text { text: Seq<char> },
    Done,
    Indexes { contents: Seq<Seq<char>> },
    Conditions { conditions: Map<Seq<char>, UploadConditionView> },
    Keys { keys: Seq<Seq<char>> },
    Directory { path: Seq<char> },
    Files { paths: Seq<Seq<char>> },
    Payload { sha256: Seq<char>, remote: RemotePayloadStateView },
}

impl DeepView for PublicationEvent {
    type V = PublicationEventView;

    open spec fn deep_view(&self) -> PublicationEventView {
        match self {
            PublicationEvent::Hashed { sha256 } => PublicationEventView::Hashed { sha256: sha256@ },
            PublicationEvent::Located { remote } => PublicationEventView::Located {
                remote: remote.deep_view(),
            },
            PublicationEvent::Text { text } => PublicationEventView::Text { text: text@ },
            PublicationEvent::Done => PublicationEventView::Done,
            PublicationEvent::Indexes { contents } => PublicationEventView::Indexes {
                contents: deep(contents@),
            },
            PublicationEvent::Conditions { conditions } => PublicationEventView::Conditions {
                conditions: conditions.deep_view(),
            },
            PublicationEvent::Keys { keys } => PublicationEventView::Keys { keys: deep(keys@) },
            PublicationEvent::Directory { path } => PublicationEventView::Directory { path: path@ },
            PublicationEvent::Files { paths } => PublicationEventView::Files {
                paths: deep(paths@),
            },
            PublicationEvent::Payload { sha256, remote } => PublicationEventView::Payload {
                sha256: sha256@,
                remote: remote.deep_view(),
            },
        }
    }
}

/// Where a publication stands and what it asks for next.
#[derive(Debug, PartialEq, Eq)]
pub struct PublicationStep {
    pub stage: PublicationStage,
    pub action: PublicationAction,
    /// What is worth telling of the step before.
    pub notice: Option<String>,
}

/// What a [`PublicationStep`] holds.
pub struct PublicationStepView {
    pub stage: PublicationStageView,
    pub action: PublicationActionView,
    pub notice: Option<Seq<char>>,
}

impl DeepView for PublicationStep {
    type V = PublicationStepView;

    open spec fn deep_view(&self) -> PublicationStepView {
        PublicationStepView {
            stage: self.stage.deep_view(),
            action: self.action.deep_view(),
            notice: self.notice.deep_view(),
        }
    }
}

/// Why a publication does not go on.
#[derive(Debug, PartialEq, Eq)]
pub enum PublicationError {
    /// Reported as `failed to run s3 publish command`.
    Refused { source: S3PublishError },
    /// Reported as `publication does not wait for this event`.
    UnexpectedEvent,
}

/// What a [`PublicationError`] holds.
pub enum PublicationErrorView {
    Refused { source: S3PublishErrorView },
    UnexpectedEvent,
}

impl DeepView for PublicationError {
    type V = PublicationErrorView;

    open spec fn deep_view(&self) -> PublicationErrorView {
        match self {
            PublicationError::Refused { source } => PublicationErrorView::Refused {
                source: source.deep_view(),
            },
            PublicationError::UnexpectedEvent => PublicationErrorView::UnexpectedEvent,
        }
    }
}

impl PublicationErrorView {
    /// The message of the error.
    pub open spec fn message(self) -> Seq<char> {
        match self {
            PublicationErrorView::Refused { .. } => "failed to run s3 publish command"@,
            PublicationErrorView::UnexpectedEvent => "publication does not wait for this event"@,
        }
    }
}

impl PublicationError {
    /// The message of the error.
    pub fn to_string(&self) -> (text: String)
        ensures
            text@ == self.deep_view().message(),
    {
        match self {
            PublicationError::Refused { .. } => "failed to run s3 publish command".to_owned(),
            PublicationError::UnexpectedEvent => "publication does not wait for this event".to_owned(),
        }
    }
}

fn step(stage: PublicationStage, action: PublicationAction, notice: Option<String>) -> (step: Result<
    PublicationStep,
    PublicationError,
>)
    ensures
        outcome(step) == taken(stage.deep_view(), action.deep_view(), notice.deep_view()),
{
    Ok(PublicationStep { stage, action, notice })
}

/// The step to a stage with an action.
pub open spec fn taken(
    stage: PublicationStageView,
    action: PublicationActionView,
    notice: Option<Seq<char>>,
) -> Result<PublicationStepView, PublicationErrorView> {
    Ok(PublicationStepView { stage, action, notice })
}

/// A refusal.
pub open spec fn declined(source: S3PublishErrorView) -> Result<
    PublicationStepView,
    PublicationErrorView,
> {
    Err(PublicationErrorView::Refused { source })
}

fn refused(source: S3PublishError) -> (step: Result<PublicationStep, PublicationError>)
    ensures
        outcome(step) == declined(source.deep_view()),
{
    Err(PublicationError::Refused { source })
}

/// What is told of a payload that stands in the storage already.
pub open spec fn payload_notice(key: Seq<char>, same: bool) -> Seq<char> {
    if same {
        "remote immutable package artifact already has matching sha256: "@ + key
    } else {
        "remote immutable package artifact already exists with different sha256; reusing remote payload for metadata: "@
            + key
    }
}

fn notice_text(key: &str, same: bool) -> (text: String)
    ensures
        text@ == payload_notice(key@, same),
{
    let mut text = if same {
        "remote immutable package artifact already has matching sha256: ".to_owned()
    } else {
        "remote immutable package artifact already exists with different sha256; reusing remote payload for metadata: ".to_owned()
    };
    text.append(key);
    text
}

// ---------------------------------------------------------------------------
// Uploads
// ---------------------------------------------------------------------------
/// The next upload of those that wait, in a dry run only named.
pub open spec fn next_upload(
    dry_run: bool,
    waiting: Seq<PlannedUploadView>,
    notice: Option<Seq<char>>,
) -> Result<PublicationStepView, PublicationErrorView> {
    if waiting.len() == 0 {
        taken(PublicationStageView::Finished, PublicationActionView::Finish, notice)
    } else {
        taken(
            PublicationStageView::Uploading { waiting: waiting.drop_first() },
            if dry_run {
                PublicationActionView::Report { upload: waiting[0] }
            } else {
                PublicationActionView::Upload { upload: waiting[0] }
            },
            notice,
        )
    }
}

fn take_upload(dry_run: bool, waiting: Vec<PlannedUpload>, notice: Option<String>) -> (next: Result<
    PublicationStep,
    PublicationError,
>)
    ensures
        outcome(next) == next_upload(dry_run, deep(waiting@), notice.deep_view()),
{
    if waiting.len() == 0 {
        return step(PublicationStage::Finished, PublicationAction::Finish, notice);
    }
    let mut waiting = waiting;
    let ghost all = deep(waiting@);
    let upload = waiting.remove(0);
    assert(deep(waiting@) =~= all.drop_first());
    let action = if dry_run {
        PublicationAction::Report { upload }
    } else {
        PublicationAction::Upload { upload }
    };
    step(PublicationStage::Uploading { waiting }, action, notice)
}

/// The order in which uploads are made: packages first, announcements last.
pub open spec fn upload_order(uploads: Seq<PlannedUploadView>) -> Seq<PlannedUploadView> {
    unranked(in_order(publication_ranked(uploads)))
}


// ---------------------------------------------------------------------------
// Archives
// ---------------------------------------------------------------------------
/// What is asked once the archives of `artifacts` are planned: the hash of the next one, or
/// the template of the announcements.
pub open spec fn next_archive(
    publication: PublicationView,
    contract: ReleaseContract,
    artifacts: Seq<PackageArtifactView>,
    uploads: Seq<PlannedUploadView>,
    notice: Option<Seq<char>>,
) -> Result<PublicationStepView, PublicationErrorView> {
    let all = publication.manifest.artifacts;
    if artifacts.len() >= all.len() {
        match template_path(
            publication.root,
            contract,
            publication.package_id,
            target_system_of(publication.target),
        ) {
            Err(source) => declined(source),
            Ok(path) => taken(
                PublicationStageView::Describing { artifacts, uploads },
                PublicationActionView::ReadTemplate { path },
                notice,
            ),
        }
    } else {
        let artifact = all[artifacts.len() as int];
        match artifact.archive_name {
            None => declined(S3PublishErrorView::MissingArchiveName),
            Some(name) => taken(
                PublicationStageView::Hashing {
                    artifacts,
                    uploads,
                    key: below_prefix(prefix_of(publication.target), name),
                },
                PublicationActionView::HashFile {
                    path: path_join(publication.target_dir, artifact.path),
                },
                notice,
            ),
        }
    }
}

fn ask_archive(
    publication: &Publication,
    contract: &ReleaseContract,
    artifacts: Vec<PackageArtifact>,
    uploads: Vec<PlannedUpload>,
    notice: Option<String>,
) -> (next: Result<PublicationStep, PublicationError>)
    ensures
        outcome(next) == next_archive(
            publication.deep_view(),
            *contract,
            deep(artifacts@),
            deep(uploads@),
            notice.deep_view(),
        ),
{
    let place: usize = artifacts.len();
    if place >= publication.manifest.artifacts.len() {
        return match manifest_template_path(
            publication.root.as_str(),
            contract,
            &publication.package_id,
            target_system(&publication.target),
        ) {
            Err(source) => refused(source),
            Ok(path) => step(
                PublicationStage::Describing { artifacts, uploads },
                PublicationAction::ReadTemplate { path },
                notice,
            ),
        };
    }
    let artifact = &publication.manifest.artifacts[place];
    assert(artifact.deep_view() == publication.deep_view().manifest.artifacts[place as int]);
    match versioned_archive_key(target_prefix(&publication.target), artifact) {
        Err(source) => refused(source),
        Ok(key) => step(
            PublicationStage::Hashing { artifacts, uploads, key },
            PublicationAction::HashFile {
                path: artifact_path(publication.target_dir.as_str(), artifact),
            },
            notice,
        ),
    }
}

/// What is asked once the next archive is hashed: what stands at its key, unless the file
/// is not the one of the manifest.
pub open spec fn archive_hashed(
    publication: PublicationView,
    artifacts: Seq<PackageArtifactView>,
    uploads: Seq<PlannedUploadView>,
    key: Seq<char>,
    sha256: Seq<char>,
) -> Result<PublicationStepView, PublicationErrorView> {
    let all = publication.manifest.artifacts;
    if artifacts.len() >= all.len() {
        Err(PublicationErrorView::UnexpectedEvent)
    } else if all[artifacts.len() as int].sha256 != sha256 {
        declined(
            S3PublishErrorView::ArtifactSha256Mismatch { path: all[artifacts.len() as int].path },
        )
    } else {
        taken(
            PublicationStageView::Locating { artifacts, uploads, key, sha256 },
            PublicationActionView::InspectObject { key },
            None,
        )
    }
}

fn locate_archive(
    publication: &Publication,
    artifacts: Vec<PackageArtifact>,
    uploads: Vec<PlannedUpload>,
    key: String,
    sha256: String,
) -> (next: Result<PublicationStep, PublicationError>)
    ensures
        outcome(next) == archive_hashed(
            publication.deep_view(),
            deep(artifacts@),
            deep(uploads@),
            key@,
            sha256@,
        ),
{
    let place: usize = artifacts.len();
    if place >= publication.manifest.artifacts.len() {
        return Err(PublicationError::UnexpectedEvent);
    }
    let artifact = &publication.manifest.artifacts[place];
    assert(artifact.deep_view() == publication.deep_view().manifest.artifacts[place as int]);
    match check_archive_sha256(artifact, sha256.as_str()) {
        Err(source) => refused(source),
        Ok(_) => {
            let object = key.clone();
            step(
                PublicationStage::Locating { artifacts, uploads, key, sha256 },
                PublicationAction::InspectObject { key: object },
                None,
            )
        },
    }
}

/// What follows once it is known what stands at the key of the next archive: the archive is
/// uploaded where nothing stands there, and is announced as it stands there else.
pub open spec fn archive_located(
    publication: PublicationView,
    contract: ReleaseContract,
    artifacts: Seq<PackageArtifactView>,
    uploads: Seq<PlannedUploadView>,
    key: Seq<char>,
    sha256: Seq<char>,
    remote: RemotePayloadStateView,
) -> Result<PublicationStepView, PublicationErrorView> {
    let all = publication.manifest.artifacts;
    if artifacts.len() >= all.len() {
        Err(PublicationErrorView::UnexpectedEvent)
    } else {
        let plan = archive_plan(
            publication.target_dir,
            key,
            all[artifacts.len() as int],
            sha256,
            remote,
        );
        next_archive(
            publication,
            contract,
            artifacts.push(plan.artifact),
            match plan.upload {
                Some(upload) => uploads.push(upload),
                None => uploads,
            },
            match plan.upload {
                Some(_) => None,
                None => Some(payload_notice(key, plan.remote_matches_local == Some(true))),
            },
        )
    }
}

fn plan_archive(
    publication: &Publication,
    contract: &ReleaseContract,
    artifacts: Vec<PackageArtifact>,
    uploads: Vec<PlannedUpload>,
    key: String,
    sha256: String,
    remote: RemotePayloadState,
) -> (next: Result<PublicationStep, PublicationError>)
    ensures
        outcome(next) == archive_located(
            publication.deep_view(),
            *contract,
            deep(artifacts@),
            deep(uploads@),
            key@,
            sha256@,
            remote.deep_view(),
        ),
{
    let place: usize = artifacts.len();
    if place >= publication.manifest.artifacts.len() {
        return Err(PublicationError::UnexpectedEvent);
    }
    let artifact = &publication.manifest.artifacts[place];
    assert(artifact.deep_view() == publication.deep_view().manifest.artifacts[place as int]);
    let plan = plan_versioned_archive(
        publication.target_dir.as_str(),
        key.as_str(),
        artifact,
        sha256.as_str(),
        remote,
    );
    let mut artifacts = artifacts;
    let mut uploads = uploads;
    artifacts.push(plan.artifact);
    let notice = match plan.upload {
        Some(upload) => {
            uploads.push(upload);
            None
        },
        None => {
            let same = match plan.remote_matches_local {
                Some(same) => same,
                None => false,
            };
            Some(notice_text(key.as_str(), same))
        },
    };
    ask_archive(publication, contract, artifacts, uploads, notice)
}

/// What Scoop puts on the path, as the branch of the contract states it.
pub open spec fn bin_of(contract: ReleaseContract, package: Seq<char>) -> Seq<Seq<char>> {
    match package_of(contract, package) {
        None => Seq::empty(),
        Some(found) => match found.scoop {
            None => Seq::empty(),
            Some(branch) => deep(branch.bin@),
        },
    }
}

fn branch_bin(contract: &ReleaseContract, package: &str) -> (bin: Vec<String>)
    ensures
        deep(bin@) == bin_of(*contract, package@),
{
    match contract.package(package) {
        None => Vec::new(),
        Some(found) => match &found.scoop {
            None => Vec::new(),
            Some(branch) => {
                let bin = branch.bin.clone();
                assert(deep(bin@) =~= deep(branch.bin@));
                bin
            },
        },
    }
}

/// A text that could not be made refuses the publication.
pub open spec fn text_or_refusal(text: Result<Seq<char>, S3PublishErrorView>) -> Result<
    Seq<char>,
    PublicationErrorView,
> {
    match text {
        Err(source) => Err(PublicationErrorView::Refused { source }),
        Ok(text) => Ok(text),
    }
}

/// The text that announces a package: its formula, or its application manifest.
pub open spec fn announcement_text(
    publication: PublicationView,
    contract: ReleaseContract,
    artifacts: Seq<PackageArtifactView>,
    template: Seq<char>,
) -> Result<Seq<char>, PublicationErrorView> {
    let manifest = PackageManifestView { artifacts, ..publication.manifest };
    match publication.target {
        S3PublishTargetView::Brew(target) => text_or_refusal(
            match brew_variables(
                publication.package_id,
                publication.metadata,
                manifest,
                target.public_base_url,
            ) {
                Err(source) => Err(S3PublishErrorView::BuildBrewTemplateVariables { source }),
                Ok(variables) => announcement(template, variables),
            },
        ),
        S3PublishTargetView::Scoop(target) => text_or_refusal(
            match scoop_variables(
                publication.package_id,
                publication.metadata,
                manifest,
                target.public_base_url,
                bin_of(contract, publication.package_id),
            ) {
                Err(source) => Err(S3PublishErrorView::BuildScoopTemplateVariables { source }),
                Ok(variables) => announcement(template, variables),
            },
        ),
        _ => Err(PublicationErrorView::UnexpectedEvent),
    }
}

fn render_announcement(
    publication: &Publication,
    contract: &ReleaseContract,
    artifacts: Vec<PackageArtifact>,
    template: &str,
) -> (text: Result<String, PublicationError>)
    ensures
        outcome(text) == announcement_text(
            publication.deep_view(),
            *contract,
            deep(artifacts@),
            template@,
        ),
{
    let mut manifest = publication.manifest.clone();
    manifest.artifacts = artifacts;
    let text = match &publication.target {
        S3PublishTarget::Brew(target) => render_brew_formula(
            &publication.package_id,
            &publication.metadata,
            &manifest,
            &target.public_base_url,
            template,
        ),
        S3PublishTarget::Scoop(target) => render_scoop_manifest(
            &publication.package_id,
            &publication.metadata,
            &manifest,
            &target.public_base_url,
            &branch_bin(contract, publication.package_id.as_str()),
            template,
        ),
        _ => {
            return Err(PublicationError::UnexpectedEvent);
        },
    };
    match text {
        Err(source) => Err(PublicationError::Refused { source }),
        Ok(text) => Ok(text),
    }
}

/// The uploads that announce the package of a publication: as the latest version, and as
/// this version.
pub open spec fn announcements(publication: PublicationView) -> Result<
    Seq<PlannedUploadView>,
    S3PublishErrorView,
> {
    let system = target_system_of(publication.target);
    let directory = announcement_directory(publication.target_dir, system);
    let prefix = prefix_of(publication.target);
    match entry_names(publication.package_id, system, publication.metadata.source_version) {
        Err(source) => Err(S3PublishErrorView::MutableEntryNames { source }),
        Ok(names) => Ok(
            seq![
                announcement_upload(directory, prefix, names.latest),
                announcement_upload(directory, prefix, names.versioned),
            ],
        ),
    }
}

/// The files of uploads.
pub open spec fn paths_of(uploads: Seq<PlannedUploadView>) -> Seq<Seq<char>> {
    uploads.map_values(|upload: PlannedUploadView| upload.path)
}

fn upload_paths(uploads: &Vec<PlannedUpload>) -> (paths: Vec<String>)
    ensures
        deep(paths@) == paths_of(deep(uploads@)),
{
    let mut paths: Vec<String> = Vec::new();
    let mut i: usize = 0;
    while i < uploads.len()
        invariant
            i <= uploads.len(),
            deep(paths@) == paths_of(deep(uploads@)).take(i as int),
        decreases uploads.len() - i,
    {
        paths.push(uploads[i].path.clone());
        i += 1;
        assert(deep(paths@) =~= paths_of(deep(uploads@)).take(i as int));
    }
    assert(paths_of(deep(uploads@)).take(i as int) =~= paths_of(deep(uploads@)));
    paths
}

/// What follows once the template of the announcements is read: they are written.
pub open spec fn template_read(
    publication: PublicationView,
    contract: ReleaseContract,
    artifacts: Seq<PackageArtifactView>,
    uploads: Seq<PlannedUploadView>,
    template: Seq<char>,
) -> Result<PublicationStepView, PublicationErrorView> {
    match announcement_text(publication, contract, artifacts, template) {
        Err(error) => Err(error),
        Ok(text) => match announcements(publication) {
            Err(source) => declined(source),
            Ok(announcements) => taken(
                PublicationStageView::Announcing { uploads: uploads + announcements },
                PublicationActionView::WriteAnnouncements {
                    directory: announcement_directory(
                        publication.target_dir,
                        target_system_of(publication.target),
                    ),
                    paths: paths_of(announcements),
                    text,
                },
                None,
            ),
        },
    }
}

fn announce(
    publication: &Publication,
    contract: &ReleaseContract,
    artifacts: Vec<PackageArtifact>,
    uploads: Vec<PlannedUpload>,
    template: &str,
) -> (next: Result<PublicationStep, PublicationError>)
    ensures
        outcome(next) == template_read(
            publication.deep_view(),
            *contract,
            deep(artifacts@),
            deep(uploads@),
            template@,
        ),
{
    let system = target_system(&publication.target);
    let text = match render_announcement(publication, contract, artifacts, template) {
        Err(error) => {
            return Err(error);
        },
        Ok(text) => text,
    };
    match announcement_uploads(
        publication.target_dir.as_str(),
        target_prefix(&publication.target),
        &publication.package_id,
        system,
        &publication.metadata,
    ) {
        Err(source) => refused(source),
        Ok(announcements) => {
            let paths = upload_paths(&announcements);
            let ghost before = deep(uploads@);
            let ghost announced = deep(announcements@);
            let mut uploads = uploads;
            let mut announcements = announcements;
            uploads.append(&mut announcements);
            assert(deep(uploads@) =~= before + announced);
            step(
                PublicationStage::Announcing { uploads },
                PublicationAction::WriteAnnouncements {
                    directory: publish_directory(publication.target_dir.as_str(), system),
                    paths,
                    text,
                },
                None,
            )
        },
    }
}

// ---------------------------------------------------------------------------
// Repositories
// ---------------------------------------------------------------------------
/// The keys of the metadata of a Debian repository.
pub open spec fn entry_keys(prefix: Seq<char>, suite: Seq<char>) -> Seq<Seq<char>> {
    suite_metadata(suite, 12).map_values(|path: Seq<char>| below_prefix(prefix, path))
}

fn deb_entry_keys(prefix: &RemotePrefix, suite: &str) -> (keys: Vec<String>)
    ensures
        deep(keys@) == entry_keys(prefix.deep_view(), suite@),
{
    let paths = deb_entry_metadata_relative_paths(suite);
    let ghost all = entry_keys(prefix.deep_view(), suite@);
    let mut keys: Vec<String> = Vec::new();
    let mut i: usize = 0;
    while i < paths.len()
        invariant
            i <= paths.len(),
            all == deep(paths@).map_values(|path: Seq<char>| below_prefix(prefix.deep_view(), path)),
            deep(keys@) == all.take(i as int),
        decreases paths.len() - i,
    {
        keys.push(prefix.join(paths[i].as_str()));
        i += 1;
        assert(deep(keys@) =~= all.take(i as int));
    }
    assert(all.take(i as int) =~= all);
    keys
}

/// What follows once the package indexes of a Debian repository are read.
pub open spec fn indexes_read(publication: PublicationView, contents: Seq<Seq<char>>) -> Result<
    PublicationStepView,
    PublicationErrorView,
> {
    match publication.target {
        S3PublishTargetView::Deb(target) => match deb_repository(publication.manifest, contents) {
            Err(source) => declined(source),
            Ok(plan) => taken(
                PublicationStageView::Conditioning { plan },
                PublicationActionView::InspectEntries {
                    keys: entry_keys(target.prefix, target.suite),
                },
                None,
            ),
        },
        _ => Err(PublicationErrorView::UnexpectedEvent),
    }
}

fn plan_deb(publication: &Publication, contents: &Vec<String>) -> (next: Result<
    PublicationStep,
    PublicationError,
>)
    ensures
        outcome(next) == indexes_read(publication.deep_view(), deep(contents@)),
{
    match &publication.target {
        S3PublishTarget::Deb(target) => match plan_deb_repository(
            &publication.manifest,
            contents,
        ) {
            Err(source) => refused(source),
            Ok(plan) => step(
                PublicationStage::Conditioning { plan },
                PublicationAction::InspectEntries {
                    keys: deb_entry_keys(&target.prefix, target.suite.as_str()),
                },
                None,
            ),
        },
        _ => Err(PublicationError::UnexpectedEvent),
    }
}

/// What follows once a Debian repository has its directory: its packages are gathered.
pub open spec fn deb_opened(
    publication: PublicationView,
    plan: DebRepositoryPlanView,
    conditions: Map<Seq<char>, UploadConditionView>,
    directory: Seq<char>,
) -> Result<PublicationStepView, PublicationErrorView> {
    match publication.target {
        S3PublishTargetView::Deb(target) => taken(
            PublicationStageView::Filling { directory, conditions: Some(conditions) },
            PublicationActionView::FillRepository {
                copies: plan.local.map_values(
                    |payload: LinuxPackagePayloadView|
                        deb_copy(directory, publication.target_dir, payload),
                ),
                downloads: plan.retained.map_values(
                    |entry: RemoteDebPackageEntryView|
                        deb_download(directory, target.prefix, entry),
                ),
            },
            None,
        ),
        _ => Err(PublicationErrorView::UnexpectedEvent),
    }
}

fn fill_deb(
    publication: &Publication,
    plan: DebRepositoryPlan,
    conditions: TextMap<String, UploadCondition>,
    directory: String,
) -> (next: Result<PublicationStep, PublicationError>)
    ensures
        outcome(next) == deb_opened(
            publication.deep_view(),
            plan.deep_view(),
            conditions.deep_view(),
            directory@,
        ),
{
    match &publication.target {
        S3PublishTarget::Deb(target) => {
            let copies = deb_repository_copies(
                directory.as_str(),
                publication.target_dir.as_str(),
                &plan.local,
            );
            let downloads = deb_repository_downloads(
                directory.as_str(),
                &target.prefix,
                &plan.retained,
            );
            step(
                PublicationStage::Filling { directory, conditions: Some(conditions) },
                PublicationAction::FillRepository { copies, downloads },
                None,
            )
        },
        _ => Err(PublicationError::UnexpectedEvent),
    }
}

/// What follows once the keys of an RPM repository are known.
pub open spec fn keys_listed(publication: PublicationView, keys: Seq<Seq<char>>) -> Result<
    PublicationStepView,
    PublicationErrorView,
> {
    match publication.target {
        S3PublishTargetView::Rpm(target) => match rpm_repository(
            publication.manifest,
            target.prefix,
            keys,
        ) {
            Err(source) => declined(source),
            Ok(plan) => taken(
                PublicationStageView::OpeningRpm { plan },
                PublicationActionView::CreateRepository,
                None,
            ),
        },
        _ => Err(PublicationErrorView::UnexpectedEvent),
    }
}

fn plan_rpm(publication: &Publication, keys: &Vec<String>) -> (next: Result<
    PublicationStep,
    PublicationError,
>)
    ensures
        outcome(next) == keys_listed(publication.deep_view(), deep(keys@)),
{
    match &publication.target {
        S3PublishTarget::Rpm(target) => match plan_rpm_repository(
            &publication.manifest,
            &target.prefix,
            keys,
        ) {
            Err(source) => refused(source),
            Ok(plan) => step(
                PublicationStage::OpeningRpm { plan },
                PublicationAction::CreateRepository,
                None,
            ),
        },
        _ => Err(PublicationError::UnexpectedEvent),
    }
}

/// What follows once an RPM repository has its directory: its packages are gathered.
pub open spec fn rpm_opened(
    publication: PublicationView,
    plan: RpmRepositoryPlanView,
    directory: Seq<char>,
) -> Result<PublicationStepView, PublicationErrorView> {
    match publication.target {
        S3PublishTargetView::Rpm(target) => match rpm_downloads(
            directory,
            target.prefix,
            plan.retained,
            0,
            Seq::empty(),
        ) {
            Err(source) => declined(source),
            Ok(downloads) => taken(
                PublicationStageView::Filling { directory, conditions: None },
                PublicationActionView::FillRepository {
                    copies: plan.local.map_values(
                        |payload: LinuxPackagePayloadView|
                            FileCopyView {
                                source: path_join(publication.target_dir, payload.path),
                                destination: rpm_file(directory, payload),
                            },
                    ),
                    downloads,
                },
                None,
            ),
        },
        _ => Err(PublicationErrorView::UnexpectedEvent),
    }
}

fn fill_rpm(publication: &Publication, plan: RpmRepositoryPlan, directory: String) -> (next: Result<
    PublicationStep,
    PublicationError,
>)
    ensures
        outcome(next) == rpm_opened(publication.deep_view(), plan.deep_view(), directory@),
{
    match &publication.target {
        S3PublishTarget::Rpm(target) => match rpm_repository_downloads(
            directory.as_str(),
            &target.prefix,
            &plan.retained,
        ) {
            Err(source) => refused(source),
            Ok(downloads) => {
                let copies = rpm_repository_copies(
                    directory.as_str(),
                    publication.target_dir.as_str(),
                    &plan.local,
                );
                step(
                    PublicationStage::Filling { directory, conditions: None },
                    PublicationAction::FillRepository { copies, downloads },
                    None,
                )
            },
        },
        _ => Err(PublicationError::UnexpectedEvent),
    }
}

/// What follows once a repository holds its packages: its metadata is made, for Debian
/// with the signing secrets.
pub open spec fn repository_filled(
    publication: PublicationView,
    directory: Seq<char>,
    conditions: Option<Map<Seq<char>, UploadConditionView>>,
) -> Result<PublicationStepView, PublicationErrorView> {
    match publication.target {
        S3PublishTargetView::Deb(target) => taken(
            PublicationStageView::Protecting { directory, conditions },
            PublicationActionView::WriteSecrets {
                signing_key: target.signing_key,
                signing_passphrase: target.signing_passphrase,
            },
            None,
        ),
        S3PublishTargetView::Rpm(_) => taken(
            PublicationStageView::Sealing { directory, conditions },
            PublicationActionView::RunContainer {
                words: container_words(
                    seq![directory + ":/rpm-repository"@],
                    "fedora:40"@,
                    "set -euo pipefail; dnf -y -q install createrepo_c; cd /rpm-repository; createrepo_c ."@,
                ),
            },
            None,
        ),
        _ => Err(PublicationErrorView::UnexpectedEvent),
    }
}

fn seal(
    publication: &Publication,
    directory: String,
    conditions: Option<TextMap<String, UploadCondition>>,
) -> (next: Result<PublicationStep, PublicationError>)
    ensures
        outcome(next) == repository_filled(
            publication.deep_view(),
            directory@,
            conditions.deep_view(),
        ),
{
    match &publication.target {
        S3PublishTarget::Deb(target) => step(
            PublicationStage::Protecting { directory, conditions },
            PublicationAction::WriteSecrets {
                signing_key: target.signing_key.clone(),
                signing_passphrase: target.signing_passphrase.clone(),
            },
            None,
        ),
        S3PublishTarget::Rpm(_) => {
            let words = rpm_repository_command(directory.as_str());
            step(
                PublicationStage::Sealing { directory, conditions },
                PublicationAction::RunContainer { words },
                None,
            )
        },
        _ => Err(PublicationError::UnexpectedEvent),
    }
}

/// What follows once the signing secrets have their directory: the metadata of a Debian
/// repository is made and signed.
pub open spec fn secrets_written(
    publication: PublicationView,
    directory: Seq<char>,
    conditions: Option<Map<Seq<char>, UploadConditionView>>,
    secrets: Seq<char>,
) -> Result<PublicationStepView, PublicationErrorView> {
    match publication.target {
        S3PublishTargetView::Deb(target) => taken(
            PublicationStageView::Sealing { directory, conditions },
            PublicationActionView::RunContainer {
                words: container_words(
                    seq![directory + ":/apt-repository"@, secrets + ":/apt-secrets:ro"@],
                    "debian:bookworm"@,
                    metadata_script(
                        target.suite,
                        target.fingerprint,
                        target.signing_passphrase is Some,
                    ),
                ),
            },
            None,
        ),
        _ => Err(PublicationErrorView::UnexpectedEvent),
    }
}

fn sign(
    publication: &Publication,
    directory: String,
    conditions: Option<TextMap<String, UploadCondition>>,
    secrets: &str,
) -> (next: Result<PublicationStep, PublicationError>)
    ensures
        outcome(next) == secrets_written(
            publication.deep_view(),
            directory@,
            conditions.deep_view(),
            secrets@,
        ),
{
    match &publication.target {
        S3PublishTarget::Deb(target) => {
            let script = deb_metadata_script(
                target.suite.as_str(),
                target.fingerprint.as_str(),
                target.signing_passphrase.is_some(),
            );
            let words = deb_metadata_command(directory.as_str(), secrets, script.as_str());
            step(
                PublicationStage::Sealing { directory, conditions },
                PublicationAction::RunContainer { words },
                None,
            )
        },
        _ => Err(PublicationError::UnexpectedEvent),
    }
}

/// The order in which the files of a repository are uploaded.
pub open spec fn repository_order(system: PackageSystem, uploads: Seq<PlannedUploadView>) -> Seq<
    PlannedUploadView,
> {
    upload_order(unranked(in_order(repository_ranked(system, uploads))))
}

/// What follows once every package of a repository is inspected: metadata is uploaded under
/// the conditions that were read, where any were.
pub open spec fn repository_inspected(
    publication: PublicationView,
    planned: Seq<PlannedUploadView>,
    conditions: Option<Map<Seq<char>, UploadConditionView>>,
    notice: Option<Seq<char>>,
) -> Result<PublicationStepView, PublicationErrorView> {
    let system = target_system_of(publication.target);
    match conditions {
        None => next_upload(publication.dry_run, repository_order(system, planned), notice),
        Some(conditions) => match with_entry_conditions(planned, conditions, 0, Seq::empty()) {
            Err(source) => declined(source),
            Ok(uploads) => next_upload(
                publication.dry_run,
                repository_order(system, uploads),
                notice,
            ),
        },
    }
}

fn upload_repository(
    publication: &Publication,
    planned: Vec<PlannedUpload>,
    conditions: Option<TextMap<String, UploadCondition>>,
    notice: Option<String>,
) -> (next: Result<PublicationStep, PublicationError>)
    ensures
        outcome(next) == repository_inspected(
            publication.deep_view(),
            deep(planned@),
            conditions.deep_view(),
            notice.deep_view(),
        ),
{
    let uploads = match conditions {
        None => planned,
        Some(conditions) => match apply_entry_conditions(&planned, &conditions) {
            Err(source) => {
                return refused(source);
            },
            Ok(uploads) => uploads,
        },
    };
    let ordered = order_repository_uploads(target_system(&publication.target), &uploads);
    take_upload(publication.dry_run, order_publish_uploads(&ordered), notice)
}

/// What is asked next about the files of a repository: metadata is planned as it is, a
/// package is inspected first.
pub open spec fn next_inspection(
    publication: PublicationView,
    pending: Seq<PlannedUploadView>,
    planned: Seq<PlannedUploadView>,
    conditions: Option<Map<Seq<char>, UploadConditionView>>,
    notice: Option<Seq<char>>,
) -> Result<PublicationStepView, PublicationErrorView>
    decreases pending.len(),
{
    if pending.len() == 0 {
        repository_inspected(publication, planned, conditions, notice)
    } else if pending[0].entry {
        next_inspection(
            publication,
            pending.drop_first(),
            planned.push(pending[0]),
            conditions,
            notice,
        )
    } else {
        taken(
            PublicationStageView::Inspecting {
                upload: pending[0],
                pending: pending.drop_first(),
                planned,
                conditions,
            },
            PublicationActionView::InspectPayload { path: pending[0].path, key: pending[0].key },
            notice,
        )
    }
}

fn inspect(
    publication: &Publication,
    pending: Vec<PlannedUpload>,
    planned: Vec<PlannedUpload>,
    conditions: Option<TextMap<String, UploadCondition>>,
    notice: Option<String>,
) -> (next: Result<PublicationStep, PublicationError>)
    ensures
        outcome(next) == next_inspection(
            publication.deep_view(),
            deep(pending@),
            deep(planned@),
            conditions.deep_view(),
            notice.deep_view(),
        ),
{
    let ghost answer = next_inspection(
        publication.deep_view(),
        deep(pending@),
        deep(planned@),
        conditions.deep_view(),
        notice.deep_view(),
    );
    let mut pending = pending;
    let mut planned = planned;
    while pending.len() > 0 && pending[0].entry
        invariant
            answer == next_inspection(
                publication.deep_view(),
                deep(pending@),
                deep(planned@),
                conditions.deep_view(),
                notice.deep_view(),
            ),
        decreases pending.len(),
    {
        let ghost before = deep(pending@);
        assert(before[0] == pending@[0].deep_view());
        let upload = pending.remove(0);
        assert(deep(pending@) =~= before.drop_first());
        planned.push(upload);
    }
    if pending.len() == 0 {
        return upload_repository(publication, planned, conditions, notice);
    }
    let ghost before = deep(pending@);
    assert(before[0] == pending@[0].deep_view());
    let upload = pending.remove(0);
    assert(deep(pending@) =~= before.drop_first());
    let path = upload.path.clone();
    let key = upload.key.clone();
    step(
        PublicationStage::Inspecting { upload, pending, planned, conditions },
        PublicationAction::InspectPayload { path, key },
        notice,
    )
}

/// What follows once the files of a repository are known.
pub open spec fn repository_walked(
    publication: PublicationView,
    directory: Seq<char>,
    conditions: Option<Map<Seq<char>, UploadConditionView>>,
    files: Seq<Seq<char>>,
) -> Result<PublicationStepView, PublicationErrorView> {
    match repository_extension(target_system_of(publication.target)) {
        None => declined(S3PublishErrorView::UnsupportedRepositorySystem),
        Some(extension) => match file_uploads(
            directory,
            prefix_of(publication.target),
            extension,
            files,
            0,
            Seq::empty(),
        ) {
            Err(source) => declined(source),
            Ok(uploads) => next_inspection(publication, uploads, Seq::empty(), conditions, None),
        },
    }
}

fn plan_files(
    publication: &Publication,
    directory: &str,
    conditions: Option<TextMap<String, UploadCondition>>,
    files: &Vec<String>,
) -> (next: Result<PublicationStep, PublicationError>)
    ensures
        outcome(next) == repository_walked(
            publication.deep_view(),
            directory@,
            conditions.deep_view(),
            deep(files@),
        ),
{
    match repository_uploads(
        directory,
        target_prefix(&publication.target),
        target_system(&publication.target),
        files,
    ) {
        Err(source) => refused(source),
        Ok(uploads) => inspect(publication, uploads, Vec::new(), conditions, None),
    }
}

/// What follows once a package of a repository is inspected: it is uploaded where nothing
/// stands at its key, left alone where the same package stands there, and refused where
/// another one does.
pub open spec fn payload_inspected(
    publication: PublicationView,
    upload: PlannedUploadView,
    pending: Seq<PlannedUploadView>,
    planned: Seq<PlannedUploadView>,
    conditions: Option<Map<Seq<char>, UploadConditionView>>,
    sha256: Seq<char>,
    remote: RemotePayloadStateView,
) -> Result<PublicationStepView, PublicationErrorView> {
    match immutable_upload(upload.key, sha256, remote) {
        Err(source) => declined(S3PublishErrorView::ImmutableCollision { source }),
        Ok(None) => next_inspection(
            publication,
            pending,
            planned,
            conditions,
            Some(payload_notice(upload.key, true)),
        ),
        Ok(Some(condition)) => next_inspection(
            publication,
            pending,
            planned.push(PlannedUploadView { condition: Some(condition), ..upload }),
            conditions,
            None,
        ),
    }
}

fn plan_payload(
    publication: &Publication,
    upload: PlannedUpload,
    pending: Vec<PlannedUpload>,
    planned: Vec<PlannedUpload>,
    conditions: Option<TextMap<String, UploadCondition>>,
    sha256: &str,
    remote: RemotePayloadState,
) -> (next: Result<PublicationStep, PublicationError>)
    ensures
        outcome(next) == payload_inspected(
            publication.deep_view(),
            upload.deep_view(),
            deep(pending@),
            deep(planned@),
            conditions.deep_view(),
            sha256@,
            remote.deep_view(),
        ),
{
    let key = upload.key.clone();
    match plan_repository_upload(upload, sha256, remote) {
        Err(source) => refused(source),
        Ok(None) => inspect(
            publication,
            pending,
            planned,
            conditions,
            Some(notice_text(key.as_str(), true)),
        ),
        Ok(Some(upload)) => {
            let mut planned = planned;
            planned.push(upload);
            inspect(publication, pending, planned, conditions, None)
        },
    }
}

// ---------------------------------------------------------------------------
// Steps
// ---------------------------------------------------------------------------
/// The first step of a publication.
pub open spec fn opening(publication: PublicationView, contract: ReleaseContract) -> Result<
    PublicationStepView,
    PublicationErrorView,
> {
    match publication.target {
        S3PublishTargetView::Deb(target) => taken(
            PublicationStageView::Indexing,
            PublicationActionView::FetchIndexes {
                keys: index_keys(target.prefix, target.suite, 12),
            },
            None,
        ),
        S3PublishTargetView::Rpm(target) => taken(
            PublicationStageView::Listing,
            PublicationActionView::ListObjects { prefix: target.prefix },
            None,
        ),
        _ => next_archive(publication, contract, Seq::empty(), Seq::empty(), None),
    }
}

/// The first step of a publication.
pub fn first_step(publication: &Publication, contract: &ReleaseContract) -> (next: Result<
    PublicationStep,
    PublicationError,
>)
    ensures
        outcome(next) == opening(publication.deep_view(), *contract),
{
    match &publication.target {
        S3PublishTarget::Deb(target) => step(
            PublicationStage::Indexing,
            PublicationAction::FetchIndexes {
                keys: deb_packages_keys(&target.prefix, target.suite.as_str()),
            },
            None,
        ),
        S3PublishTarget::Rpm(target) => step(
            PublicationStage::Listing,
            PublicationAction::ListObjects { prefix: target.prefix.as_str().to_owned() },
            None,
        ),
        _ => ask_archive(publication, contract, Vec::new(), Vec::new(), None),
    }
}

/// The step that a publication takes at a stage, given what came back of the last action.
pub open spec fn advanced(
    publication: PublicationView,
    contract: ReleaseContract,
    stage: PublicationStageView,
    event: PublicationEventView,
) -> Result<PublicationStepView, PublicationErrorView> {
    match (stage, event) {
        (
            PublicationStageView::Hashing { artifacts, uploads, key },
            PublicationEventView::Hashed { sha256 },
        ) => archive_hashed(publication, artifacts, uploads, key, sha256),
        (
            PublicationStageView::Locating { artifacts, uploads, key, sha256 },
            PublicationEventView::Located { remote },
        ) => archive_located(publication, contract, artifacts, uploads, key, sha256, remote),
        (
            PublicationStageView::Describing { artifacts, uploads },
            PublicationEventView::Text { text },
        ) => template_read(publication, contract, artifacts, uploads, text),
        (
            PublicationStageView::Announcing { uploads },
            PublicationEventView::Done,
        ) => next_upload(publication.dry_run, upload_order(uploads), None),
        (
            PublicationStageView::Indexing,
            PublicationEventView::Indexes { contents },
        ) => indexes_read(publication, contents),
        (
            PublicationStageView::Conditioning { plan },
            PublicationEventView::Conditions { conditions },
        ) => taken(
            PublicationStageView::OpeningDeb { plan, conditions },
            PublicationActionView::CreateRepository,
            None,
        ),
        (
            PublicationStageView::OpeningDeb { plan, conditions },
            PublicationEventView::Directory { path },
        ) => deb_opened(publication, plan, conditions, path),
        (PublicationStageView::Listing, PublicationEventView::Keys { keys }) => keys_listed(
            publication,
            keys,
        ),
        (
            PublicationStageView::OpeningRpm { plan },
            PublicationEventView::Directory { path },
        ) => rpm_opened(publication, plan, path),
        (
            PublicationStageView::Filling { directory, conditions },
            PublicationEventView::Done,
        ) => repository_filled(publication, directory, conditions),
        (
            PublicationStageView::Protecting { directory, conditions },
            PublicationEventView::Directory { path },
        ) => secrets_written(publication, directory, conditions, path),
        (
            PublicationStageView::Sealing { directory, conditions },
            PublicationEventView::Done,
        ) => taken(
            PublicationStageView::Walking { directory, conditions },
            PublicationActionView::WalkRepository { directory },
            None,
        ),
        (
            PublicationStageView::Walking { directory, conditions },
            PublicationEventView::Files { paths },
        ) => repository_walked(publication, directory, conditions, paths),
        (
            PublicationStageView::Inspecting { upload, pending, planned, conditions },
            PublicationEventView::Payload { sha256, remote },
        ) => payload_inspected(
            publication,
            upload,
            pending,
            planned,
            conditions,
            sha256,
            remote,
        ),
        (PublicationStageView::Uploading { waiting }, PublicationEventView::Done) => next_upload(
            publication.dry_run,
            waiting,
            None,
        ),
        _ => Err(PublicationErrorView::UnexpectedEvent),
    }
}

/// Takes the next step of a publication: `event` is what came back of the action of the
/// step before.
pub fn advance(
    publication: &Publication,
    contract: &ReleaseContract,
    stage: PublicationStage,
    event: PublicationEvent,
) -> (next: Result<PublicationStep, PublicationError>)
    ensures
        outcome(next) == advanced(
            publication.deep_view(),
            *contract,
            stage.deep_view(),
            event.deep_view(),
        ),
{
    match (stage, event) {
        (
            PublicationStage::Hashing { artifacts, uploads, key },
            PublicationEvent::Hashed { sha256 },
        ) => locate_archive(publication, artifacts, uploads, key, sha256),
        (
            PublicationStage::Locating { artifacts, uploads, key, sha256 },
            PublicationEvent::Located { remote },
        ) => plan_archive(publication, contract, artifacts, uploads, key, sha256, remote),
        (
            PublicationStage::Describing { artifacts, uploads },
            PublicationEvent::Text { text },
        ) => announce(publication, contract, artifacts, uploads, text.as_str()),
        (PublicationStage::Announcing { uploads }, PublicationEvent::Done) => take_upload(
            publication.dry_run,
            order_publish_uploads(&uploads),
            None,
        ),
        (PublicationStage::Indexing, PublicationEvent::Indexes { contents }) => plan_deb(
            publication,
            &contents,
        ),
        (
            PublicationStage::Conditioning { plan },
            PublicationEvent::Conditions { conditions },
        ) => step(
            PublicationStage::OpeningDeb { plan, conditions },
            PublicationAction::CreateRepository,
            None,
        ),
        (
            PublicationStage::OpeningDeb { plan, conditions },
            PublicationEvent::Directory { path },
        ) => fill_deb(publication, plan, conditions, path),
        (PublicationStage::Listing, PublicationEvent::Keys { keys }) => plan_rpm(
            publication,
            &keys,
        ),
        (
            PublicationStage::OpeningRpm { plan },
            PublicationEvent::Directory { path },
        ) => fill_rpm(publication, plan, path),
        (
            PublicationStage::Filling { directory, conditions },
            PublicationEvent::Done,
        ) => seal(publication, directory, conditions),
        (
            PublicationStage::Protecting { directory, conditions },
            PublicationEvent::Directory { path },
        ) => sign(publication, directory, conditions, path.as_str()),
        (
            PublicationStage::Sealing { directory, conditions },
            PublicationEvent::Done,
        ) => {
            let walked = directory.clone();
            step(
                PublicationStage::Walking { directory, conditions },
                PublicationAction::WalkRepository { directory: walked },
                None,
            )
        },
        (
            PublicationStage::Walking { directory, conditions },
            PublicationEvent::Files { paths },
        ) => plan_files(publication, directory.as_str(), conditions, &paths),
        (
            PublicationStage::Inspecting { upload, pending, planned, conditions },
            PublicationEvent::Payload { sha256, remote },
        ) => plan_payload(
            publication,
            upload,
            pending,
            planned,
            conditions,
            sha256.as_str(),
            remote,
        ),
        (PublicationStage::Uploading { waiting }, PublicationEvent::Done) => take_upload(
            publication.dry_run,
            waiting,
            None,
        ),
        _ => Err(PublicationError::UnexpectedEvent),
    }
}

} // verus!
