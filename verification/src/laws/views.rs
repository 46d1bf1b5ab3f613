//! Laws of what contracts speak of: nothing that a value holds is left out of it.

use vstd::prelude::*;

use crate::building::{BuildAction, BuildActionView, BuildHost, BuildStep, HostFile};
use crate::cli::{PackageCommandRequest, PackageSectionArgs, S3PublishCommandRequest};
use crate::manifest::{PackageArtifact, PackageManifest};
use crate::model::{deep, fault_of, first_fault, outcome, outcomes};
use crate::package::ResolvedPackageMetadata;
use crate::plan::{PlannedEnvMount, PlannedInvocation, PlannedPackageBuild};
use crate::publication::{Publication, PublicationAction, PublicationActionView, PublicationStep};
use crate::publish::{
    GitIndexPublishTarget, LinuxPackagePayload, LinuxPackageVersion, RemoteDebPackageEntry,
    RemotePayloadState, RemotePayloadStateView, S3BrewPublishTarget, S3CommonPublishTarget,
    S3DebPublishTarget, S3RpmPublishTarget, S3ScoopPublishTarget, UploadCondition,
    UploadConditionView,
};
use crate::requirements::ResolvedVersionBounds;
use crate::runner::PackageFileMetadata;
use crate::s3::{DebRepositoryPlan, FileCopy, ObjectDownload, PlannedUpload, RpmRepositoryPlan};
use crate::scoop::JsonText;
use crate::sibling::{ContainerMount, ContainerOverlayPlan};
use crate::version::SourceVersion;

verus! {

/// Everything that an upload holds is in what contracts say of it.
pub proof fn lemma_view_of_planned_upload(value: PlannedUpload)
    ensures
        value.deep_view().path == value.path@,
        value.deep_view().key == value.key@,
        value.deep_view().entry == value.entry,
        value.deep_view().condition == value.condition.deep_view(),
{
}

/// Everything that a copy holds is in what contracts say of it.
pub proof fn lemma_view_of_file_copy(value: FileCopy)
    ensures
        value.deep_view().source == value.source@,
        value.deep_view().destination == value.destination@,
{
}

/// Everything that a download holds is in what contracts say of it.
pub proof fn lemma_view_of_object_download(value: ObjectDownload)
    ensures
        value.deep_view().key == value.key@,
        value.deep_view().destination == value.destination@,
{
}

/// Everything that an artifact holds is in what contracts say of it.
pub proof fn lemma_view_of_package_artifact(value: PackageArtifact)
    ensures
        value.deep_view().target == value.target@,
        value.deep_view().path == value.path@,
        value.deep_view().sha256 == value.sha256@,
        value.deep_view().size == value.size,
        value.deep_view().package_name == value.package_name.deep_view(),
        value.deep_view().package_version == value.package_version.deep_view(),
        value.deep_view().architecture == value.architecture.deep_view(),
        value.deep_view().archive_name == value.archive_name.deep_view(),
        value.deep_view().features == deep(value.features@),
        value.deep_view().profile == value.profile.deep_view(),
{
}

/// Everything that a manifest holds is in what contracts say of it.
pub proof fn lemma_view_of_package_manifest(value: PackageManifest)
    ensures
        value.deep_view().schema_version == value.schema_version,
        value.deep_view().kind == value.kind,
        value.deep_view().package == value.package@,
        value.deep_view().version == value.version@,
        value.deep_view().generated_at == value.generated_at@,
        value.deep_view().git_commit == value.git_commit.deep_view(),
        value.deep_view().git_dirty == value.git_dirty,
        value.deep_view().artifacts == deep(value.artifacts@),
{
}

/// Everything that a payload holds is in what contracts say of it.
pub proof fn lemma_view_of_linux_package_payload(value: LinuxPackagePayload)
    ensures
        value.deep_view().package == value.package@,
        value.deep_view().version == value.version@,
        value.deep_view().architecture == value.architecture@,
        value.deep_view().archive_name == value.archive_name@,
        value.deep_view().path == value.path@,
{
}

/// Everything that a version of a Linux package holds is in what contracts say of it.
pub proof fn lemma_view_of_linux_package_version(value: LinuxPackageVersion)
    ensures
        value.deep_view().package == value.package@,
        value.deep_view().version == value.version@,
        value.deep_view().architecture == value.architecture@,
{
}

/// Everything that an entry of an index holds is in what contracts say of it.
pub proof fn lemma_view_of_remote_deb_package_entry(value: RemoteDebPackageEntry)
    ensures
        value.deep_view().version == value.version.deep_view(),
        value.deep_view().filename == value.filename@,
{
}

/// Everything that a file of the host holds is in what contracts say of it.
pub proof fn lemma_view_of_host_file(value: HostFile)
    ensures
        value.deep_view().path == value.path@,
        value.deep_view().text == value.text@,
{
}

/// Everything that an invocation holds is in what contracts say of it.
pub proof fn lemma_view_of_planned_invocation(value: PlannedInvocation)
    ensures
        value.deep_view().script == value.script@,
        value.deep_view().container == value.container.deep_view(),
        value.deep_view().env == value.env.deep_view(),
        value.deep_view().env_mounts == deep(value.env_mounts@),
{
}

/// Everything that a mount for a variable holds is in what contracts say of it.
pub proof fn lemma_view_of_planned_env_mount(value: PlannedEnvMount)
    ensures
        value.deep_view().source == value.source@,
        value.deep_view().destination == value.destination@,
        value.deep_view().read_only == value.read_only,
{
}

/// Everything that a planned build holds is in what contracts say of it.
pub proof fn lemma_view_of_planned_package_build(value: PlannedPackageBuild)
    ensures
        value.deep_view().package_id == value.package_id.deep_view(),
        value.deep_view().system == value.system,
        value.deep_view().target == value.target.deep_view(),
        value.deep_view().invocation == value.invocation.deep_view(),
        value.deep_view().source_overlay == value.source_overlay.deep_view(),
{
}

/// Everything that a mount holds is in what contracts say of it.
pub proof fn lemma_view_of_container_mount(value: ContainerMount)
    ensures
        value.deep_view().source == value.source@,
        value.deep_view().destination == value.destination@,
        value.deep_view().read_only == value.read_only,
{
}

/// Everything that an overlay holds is in what contracts say of it.
pub proof fn lemma_view_of_container_overlay_plan(value: ContainerOverlayPlan)
    ensures
        value.deep_view().mounts == deep(value.mounts@),
        value.deep_view().cargo_config_path == value.cargo_config_path@,
        value.deep_view().cargo_config == value.cargo_config@,
{
}

/// Everything that the bounds of a requirement holds is in what contracts say of it.
pub proof fn lemma_view_of_resolved_version_bounds(value: ResolvedVersionBounds)
    ensures
        value.deep_view().minimum == value.minimum.deep_view(),
        value.deep_view().maximum == value.maximum.deep_view(),
{
}

/// Everything that a host holds is in what contracts say of it.
pub proof fn lemma_view_of_build_host(value: BuildHost)
    ensures
        value.deep_view().root == value.root@,
        value.deep_view().target_dir == value.target_dir@,
        value.deep_view().cargo_home == value.cargo_home.deep_view(),
        value.deep_view().home == value.home.deep_view(),
{
}

/// Everything that a step of a build holds is in what contracts say of it.
pub proof fn lemma_view_of_build_step(value: BuildStep)
    ensures
        value.deep_view().stage == value.stage.deep_view(),
        value.deep_view().action == value.action.deep_view(),
{
}

/// Everything that a step of a publication holds is in what contracts say of it.
pub proof fn lemma_view_of_publication_step(value: PublicationStep)
    ensures
        value.deep_view().stage == value.stage.deep_view(),
        value.deep_view().action == value.action.deep_view(),
        value.deep_view().notice == value.notice.deep_view(),
{
}

/// Everything that a publication holds is in what contracts say of it.
pub proof fn lemma_view_of_publication(value: Publication)
    ensures
        value.deep_view().dry_run == value.dry_run,
        value.deep_view().root == value.root@,
        value.deep_view().target_dir == value.target_dir@,
        value.deep_view().package_id == value.package_id.deep_view(),
        value.deep_view().metadata == value.metadata.deep_view(),
        value.deep_view().manifest == value.manifest.deep_view(),
        value.deep_view().target == value.target.deep_view(),
{
}

/// Everything that a storage holds is in what contracts say of it.
pub proof fn lemma_view_of_common_publish_target(value: S3CommonPublishTarget)
    ensures
        value.deep_view().bucket == value.bucket@,
        value.deep_view().endpoint_url == value.endpoint_url@,
        value.deep_view().access_key_id == value.access_key_id@,
        value.deep_view().secret_access_key == value.secret_access_key@,
{
}

/// Everything that a target for Debian packages holds is in what contracts say of it.
pub proof fn lemma_view_of_deb_publish_target(value: S3DebPublishTarget)
    ensures
        value.deep_view().common == value.common.deep_view(),
        value.deep_view().prefix == value.prefix.deep_view(),
        value.deep_view().suite == value.suite@,
        value.deep_view().signing_key == value.signing_key@,
        value.deep_view().signing_passphrase == value.signing_passphrase.deep_view(),
        value.deep_view().fingerprint == value.fingerprint@,
{
}

/// Everything that a target for RPM packages holds is in what contracts say of it.
pub proof fn lemma_view_of_rpm_publish_target(value: S3RpmPublishTarget)
    ensures
        value.deep_view().common == value.common.deep_view(),
        value.deep_view().prefix == value.prefix.deep_view(),
{
}

/// Everything that a target for Homebrew holds is in what contracts say of it.
pub proof fn lemma_view_of_brew_publish_target(value: S3BrewPublishTarget)
    ensures
        value.deep_view().common == value.common.deep_view(),
        value.deep_view().prefix == value.prefix.deep_view(),
        value.deep_view().public_base_url == value.public_base_url.deep_view(),
        value.deep_view().tap == value.tap.deep_view(),
{
}

/// Everything that a target for Scoop holds is in what contracts say of it.
pub proof fn lemma_view_of_scoop_publish_target(value: S3ScoopPublishTarget)
    ensures
        value.deep_view().common == value.common.deep_view(),
        value.deep_view().prefix == value.prefix.deep_view(),
        value.deep_view().public_base_url == value.public_base_url.deep_view(),
        value.deep_view().bucket == value.bucket.deep_view(),
{
}

/// Everything that an index holds is in what contracts say of it.
pub proof fn lemma_view_of_git_index_publish_target(value: GitIndexPublishTarget)
    ensures
        value.deep_view().repository == value.repository@,
        value.deep_view().base_branch == value.base_branch@,
        value.deep_view().token == value.token@,
{
}

/// Everything that the plan of a Debian repository holds is in what contracts say of it.
pub proof fn lemma_view_of_deb_repository_plan(value: DebRepositoryPlan)
    ensures
        value.deep_view().local == deep(value.local@),
        value.deep_view().retained == deep(value.retained@),
{
}

/// Everything that the plan of an RPM repository holds is in what contracts say of it.
pub proof fn lemma_view_of_rpm_repository_plan(value: RpmRepositoryPlan)
    ensures
        value.deep_view().local == deep(value.local@),
        value.deep_view().retained == deep(value.retained@),
{
}

/// Everything that the metadata of a package holds is in what contracts say of it.
pub proof fn lemma_view_of_resolved_package_metadata(value: ResolvedPackageMetadata)
    ensures
        value.deep_view().source_version == value.source_version.deep_view(),
        value.deep_view().description == value.description@,
        value.deep_view().license == value.license@,
        value.deep_view().homepage == value.homepage@,
        value.deep_view().repository == value.repository.deep_view(),
{
}

/// Everything that a version holds is in what contracts say of it.
pub proof fn lemma_view_of_source_version(value: SourceVersion)
    ensures
        value.deep_view().major == value.major,
        value.deep_view().minor == value.minor,
        value.deep_view().patch == value.patch,
        value.deep_view().pre == value.pre@,
        value.deep_view().build == value.build@,
{
}

/// Everything that what a package file tells holds is in what contracts say of it.
pub proof fn lemma_view_of_package_file_metadata(value: PackageFileMetadata)
    ensures
        value.deep_view().package_name == value.package_name.deep_view(),
        value.deep_view().package_version == value.package_version.deep_view(),
        value.deep_view().architecture == value.architecture.deep_view(),
{
}

/// Everything that a build command holds is in what contracts say of it.
pub proof fn lemma_view_of_package_command_request(value: PackageCommandRequest)
    ensures
        value.deep_view().overwrite_manifest == value.overwrite_manifest,
        value.deep_view().builds == deep(value.builds@),
{
}

/// Everything that a publish command holds is in what contracts say of it.
pub proof fn lemma_view_of_publish_command_request(value: S3PublishCommandRequest)
    ensures
        value.deep_view().dry_run == value.dry_run,
        value.deep_view().systems == value.systems@,
{
}

/// Everything that a section holds is in what contracts say of it.
pub proof fn lemma_view_of_package_section_args(value: PackageSectionArgs)
    ensures
        value.deep_view().targets == deep(value.targets@),
        value.deep_view().features == deep(value.features@),
        value.deep_view().siblings == deep(value.siblings@),
        value.deep_view().sibling_sources == deep(value.sibling_sources@),
        value.deep_view().patches == deep(value.patches@),
        value.deep_view().debug == value.debug,
{
}

/// Everything that a text of a JSON object holds is in what contracts say of it.
pub proof fn lemma_view_of_json_text(value: JsonText)
    ensures
        value.deep_view().name == value.name@,
        value.deep_view().text == value.text@,
{
}

/// Everything that an action of a publication holds is in what contracts say of it.
pub proof fn lemma_view_of_publication_action(value: PublicationAction)
    ensures
        value.deep_view() == match value {
            PublicationAction::HashFile { path } => PublicationActionView::HashFile {
                path: path@,
            },
            PublicationAction::InspectObject { key } => PublicationActionView::InspectObject {
                key: key@,
            },
            PublicationAction::ReadTemplate { path } => PublicationActionView::ReadTemplate {
                path: path@,
            },
            PublicationAction::WriteAnnouncements { directory, paths, text } => PublicationActionView::WriteAnnouncements {
                directory: directory@,
                paths: deep(paths@),
                text: text@,
            },
            PublicationAction::FetchIndexes { keys } => PublicationActionView::FetchIndexes {
                keys: deep(keys@),
            },
            PublicationAction::InspectEntries { keys } => PublicationActionView::InspectEntries {
                keys: deep(keys@),
            },
            PublicationAction::ListObjects { prefix } => PublicationActionView::ListObjects {
                prefix: prefix@,
            },
            PublicationAction::CreateRepository => PublicationActionView::CreateRepository,
            PublicationAction::FillRepository { copies, downloads } => PublicationActionView::FillRepository {
                copies: deep(copies@),
                downloads: deep(downloads@),
            },
            PublicationAction::WriteSecrets { signing_key, signing_passphrase } => PublicationActionView::WriteSecrets {
                signing_key: signing_key@,
                signing_passphrase: signing_passphrase.deep_view(),
            },
            PublicationAction::RunContainer { words } => PublicationActionView::RunContainer {
                words: deep(words@),
            },
            PublicationAction::WalkRepository { directory } => PublicationActionView::WalkRepository {
                directory: directory@,
            },
            PublicationAction::InspectPayload { path, key } => PublicationActionView::InspectPayload {
                path: path@,
                key: key@,
            },
            PublicationAction::Upload { upload } => PublicationActionView::Upload {
                upload: upload.deep_view(),
            },
            PublicationAction::Report { upload } => PublicationActionView::Report {
                upload: upload.deep_view(),
            },
            PublicationAction::Finish => PublicationActionView::Finish,
        },
{
}

/// Everything that an action of a build holds is in what contracts say of it.
pub proof fn lemma_view_of_build_action(value: BuildAction)
    ensures
        value.deep_view() == match value {
            BuildAction::ListOutput { directory } => BuildActionView::ListOutput {
                directory: directory@,
            },
            BuildAction::PrepareOutput { stale, directory } => BuildActionView::PrepareOutput {
                stale: deep(stale@),
                directory: directory@,
            },
            BuildAction::BuildImage { directory, words } => BuildActionView::BuildImage {
                directory: directory@,
                words: deep(words@),
            },
            BuildAction::AskImage { words } => BuildActionView::AskImage {
                words: deep(words@),
            },
            BuildAction::ArrangeHost { directories, config } => BuildActionView::ArrangeHost {
                directories: deep(directories@),
                config: config.deep_view(),
            },
            BuildAction::RunScript { script, directory, env } => BuildActionView::RunScript {
                script: script@,
                directory: directory@,
                env: env.deep_view(),
            },
            BuildAction::RunContainer { words } => BuildActionView::RunContainer {
                words: deep(words@),
            },
            BuildAction::ReadDebFields { path } => BuildActionView::ReadDebFields {
                path: path@,
            },
            BuildAction::QueryRpm { command } => BuildActionView::QueryRpm {
                command: command.deep_view(),
            },
            BuildAction::Measure { path } => BuildActionView::Measure {
                path: path@,
            },
            BuildAction::Finish { artifact } => BuildActionView::Finish {
                artifact: artifact.deep_view(),
            },
        },
{
}

/// Everything that a condition holds is in what contracts say of it.
pub proof fn lemma_view_of_upload_condition(value: UploadCondition)
    ensures
        value.deep_view() == match value {
            UploadCondition::IfMissing => UploadConditionView::IfMissing,
            UploadCondition::IfMatch(text) => UploadConditionView::IfMatch(text@),
        },
{
}

/// Everything that what stands at a key holds is in what contracts say of it.
pub proof fn lemma_view_of_remote_payload_state(value: RemotePayloadState)
    ensures
        value.deep_view() == match value {
            RemotePayloadState::Missing => RemotePayloadStateView::Missing,
            RemotePayloadState::Present { sha256 } => RemotePayloadStateView::Present {
                sha256: sha256@,
            },
        },
{
}

/// What contracts say of an answer is what it holds: the value where there is one, else the
/// error; of a check, the fault that it found; and of values, each of them in its place.
pub proof fn lemma_view_of_answers<T: DeepView, E: DeepView>(value: T, error: E, items: Seq<T>)
    ensures
        outcome(Ok::<T, E>(value)) == Ok::<T::V, E::V>(value.deep_view()),
        outcome(Err::<T, E>(error)) == Err::<T::V, E::V>(error.deep_view()),
        outcomes(Err::<Vec<T>, E>(error)) == Err::<Seq<T::V>, E::V>(error.deep_view()),
        fault_of(Err::<(), E>(error)) == Some(error.deep_view()),
        fault_of(Ok::<(), E>(())) is None,
        deep(items).len() == items.len(),
        forall|i: int| 0 <= i < items.len() ==> #[trigger] deep(items)[i] == items[i].deep_view(),
{
}

/// The first of two faults is the one that is told.
pub proof fn lemma_first_faults_are_told<F>(fault: Option<F>, other: Option<F>)
    ensures
        fault is Some ==> first_fault(fault, other) == fault,
        fault is None ==> first_fault(fault, other) == other,
{
}

} // verus!
