//! Laws of publications: what their steps keep, whatever the storage and the host answer.

use vstd::prelude::*;

use crate::contract::ReleaseContract;
use crate::laws::uploads::{
    lemma_publish_uploads_in_order, lemma_repository_entries_are_conditioned,
    lemma_repository_uploads_in_order,
};
use crate::manifest::PackageArtifactView;
use crate::publication::{
    advanced, announcements, archive_hashed, archive_located, next_inspection, next_upload,
    opening, payload_inspected, payload_notice, prefix_of, repository_inspected,
    repository_order, repository_walked, target_system_of, template_read, upload_order,
    PublicationActionView, PublicationErrorView, PublicationEventView, PublicationStageView,
    PublicationStepView, PublicationView,
};
use crate::publish::{RemotePayloadStateView, UploadConditionView};
use crate::s3::{
    file_uploads, in_order, repository_extension, repository_ranked, unranked,
    with_entry_conditions, PlannedUploadView,
};
use crate::system::PackageSystem;

verus! {

/// Whether every package is uploaded only where nothing stands at its key.
pub open spec fn replaces_no_package(uploads: Seq<PlannedUploadView>) -> bool {
    forall|i: int|
        0 <= i < uploads.len() && !(#[trigger] uploads[i]).entry ==> uploads[i].condition == Some(
            UploadConditionView::IfMissing,
        )
}

/// Whether no package is uploaded after an announcement.
pub open spec fn announces_last(uploads: Seq<PlannedUploadView>) -> bool {
    forall|i: int, j: int|
        0 <= i < j < uploads.len() && (#[trigger] uploads[i]).entry ==> (
        #[trigger] uploads[j]).entry
}

/// Whether every announcement is uploaded on a condition.
pub open spec fn announces_on_condition(uploads: Seq<PlannedUploadView>) -> bool {
    forall|i: int|
        0 <= i < uploads.len() && (#[trigger] uploads[i]).entry ==> uploads[i].condition is Some
}

/// Whether what a publication has gathered may be uploaded: packages replace nothing, they
/// precede what announces them, and the metadata of a Debian repository replaces only what
/// was read of it.
pub open spec fn is_sound(publication: PublicationView, stage: PublicationStageView) -> bool {
    let debian = publication.target is Deb;
    match stage {
        PublicationStageView::Hashing { uploads, .. } => replaces_no_package(uploads),
        PublicationStageView::Locating { uploads, .. } => replaces_no_package(uploads),
        PublicationStageView::Describing { uploads, .. } => replaces_no_package(uploads),
        PublicationStageView::Announcing { uploads } => replaces_no_package(uploads) && !debian,
        PublicationStageView::Filling { conditions, .. } => debian ==> conditions is Some,
        PublicationStageView::Protecting { conditions, .. } => debian ==> conditions is Some,
        PublicationStageView::Sealing { conditions, .. } => debian ==> conditions is Some,
        PublicationStageView::Walking { conditions, .. } => debian ==> conditions is Some,
        PublicationStageView::Inspecting { planned, conditions, .. } => {
            &&& replaces_no_package(planned)
            &&& debian ==> conditions is Some
        },
        PublicationStageView::Uploading { waiting } => {
            &&& replaces_no_package(waiting)
            &&& announces_last(waiting)
            &&& debian ==> announces_on_condition(waiting)
        },
        _ => true,
    }
}

/// Whether the upload that a step asks for, if any, may be made.
pub open spec fn uploads_soundly(publication: PublicationView, next: PublicationStepView) -> bool {
    next.action matches PublicationActionView::Upload { upload } ==> {
        &&& !publication.dry_run
        &&& !upload.entry ==> upload.condition == Some(UploadConditionView::IfMissing)
        &&& upload.entry && publication.target is Deb ==> upload.condition is Some
        &&& next.stage matches PublicationStageView::Uploading { waiting } && (upload.entry ==> (
        forall|i: int| 0 <= i < waiting.len() ==> (#[trigger] waiting[i]).entry))
    }
}

/// Whether a step brings a publication nearer to its end, and keeps it sound.
spec fn goes_on(
    publication: PublicationView,
    stage: PublicationStageView,
    taken: Result<PublicationStepView, PublicationErrorView>,
) -> bool {
    taken matches Ok(next) ==> is_later(publication, next.stage, stage) && (is_sound(
        publication,
        stage,
    ) ==> is_sound(publication, next.stage) && uploads_soundly(publication, next))
}

proof fn lemma_members(uploads: Seq<PlannedUploadView>, ordered: Seq<PlannedUploadView>, i: int)
    requires
        ordered.to_multiset() == uploads.to_multiset(),
        0 <= i < ordered.len(),
    ensures
        uploads.contains(ordered[i]),
{
    vstd::seq_lib::to_multiset_contains(ordered, ordered[i]);
    vstd::seq_lib::to_multiset_contains(uploads, ordered[i]);
}

proof fn lemma_order_keeps(uploads: Seq<PlannedUploadView>, ordered: Seq<PlannedUploadView>)
    requires
        ordered.to_multiset() == uploads.to_multiset(),
    ensures
        replaces_no_package(uploads) ==> replaces_no_package(ordered),
        announces_on_condition(uploads) ==> announces_on_condition(ordered),
{
    assert forall|i: int| 0 <= i < ordered.len() implies uploads.contains(
        #[trigger] ordered[i],
    ) by {
        lemma_members(uploads, ordered, i);
    }
}

proof fn lemma_upload_order(uploads: Seq<PlannedUploadView>)
    ensures
        announces_last(upload_order(uploads)),
        replaces_no_package(uploads) ==> replaces_no_package(upload_order(uploads)),
        announces_on_condition(uploads) ==> announces_on_condition(upload_order(uploads)),
{
    lemma_publish_uploads_in_order(uploads);
    lemma_order_keeps(uploads, upload_order(uploads));
}

proof fn lemma_repository_order(system: PackageSystem, uploads: Seq<PlannedUploadView>)
    ensures
        announces_last(repository_order(system, uploads)),
        replaces_no_package(uploads) ==> replaces_no_package(repository_order(system, uploads)),
        announces_on_condition(uploads) ==> announces_on_condition(
            repository_order(system, uploads),
        ),
{
    let ordered = unranked(in_order(repository_ranked(system, uploads)));
    lemma_repository_uploads_in_order(system, uploads);
    lemma_order_keeps(uploads, ordered);
    lemma_upload_order(ordered);
}

proof fn lemma_next_upload(
    publication: PublicationView,
    waiting: Seq<PlannedUploadView>,
    notice: Option<Seq<char>>,
)
    ensures
        goes_on(
            publication,
            PublicationStageView::Uploading { waiting },
            next_upload(publication.dry_run, waiting, notice),
        ),
{
    if waiting.len() > 0 && is_sound(publication, PublicationStageView::Uploading { waiting }) {
        let rest = waiting.drop_first();
        assert forall|i: int| 0 <= i < rest.len() implies #[trigger] rest[i] == waiting[i + 1] by {}
        assert(replaces_no_package(rest));
        assert forall|i: int, j: int|
            0 <= i < j < rest.len() && (#[trigger] rest[i]).entry implies (
        #[trigger] rest[j]).entry by {
            assert(waiting[i + 1].entry ==> waiting[j + 1].entry);
        }
        if waiting[0].entry {
            assert forall|i: int| 0 <= i < rest.len() implies (#[trigger] rest[i]).entry by {
                assert(waiting[0].entry ==> waiting[i + 1].entry);
            }
        }
    }
}

/// How many stages a publication may still go through.
pub open spec fn stages_left(stage: PublicationStageView) -> nat {
    match stage {
        PublicationStageView::Hashing { .. } => 10,
        PublicationStageView::Locating { .. } => 10,
        PublicationStageView::Describing { .. } => 9,
        PublicationStageView::Announcing { .. } => 8,
        PublicationStageView::Indexing => 9,
        PublicationStageView::Conditioning { .. } => 8,
        PublicationStageView::OpeningDeb { .. } => 7,
        PublicationStageView::Listing => 8,
        PublicationStageView::OpeningRpm { .. } => 7,
        PublicationStageView::Filling { .. } => 6,
        PublicationStageView::Protecting { .. } => 5,
        PublicationStageView::Sealing { .. } => 4,
        PublicationStageView::Walking { .. } => 3,
        PublicationStageView::Inspecting { .. } => 2,
        PublicationStageView::Uploading { .. } => 1,
        PublicationStageView::Finished => 0,
    }
}

/// How many answers a stage may still be given.
pub open spec fn answers_left(publication: PublicationView, stage: PublicationStageView) -> int {
    let all = publication.manifest.artifacts.len();
    match stage {
        PublicationStageView::Hashing { artifacts, .. } => 2 * (all - artifacts.len()),
        PublicationStageView::Locating { artifacts, .. } => 2 * (all - artifacts.len()) - 1,
        PublicationStageView::Inspecting { pending, .. } => pending.len() as int,
        PublicationStageView::Uploading { waiting } => waiting.len() as int,
        _ => 0,
    }
}

/// Whether a publication at one stage is nearer to its end than at another one.
pub open spec fn is_later(
    publication: PublicationView,
    stage: PublicationStageView,
    than: PublicationStageView,
) -> bool {
    stages_left(stage) < stages_left(than) || (stages_left(stage) == stages_left(than) && 0
        <= answers_left(publication, stage) < answers_left(publication, than))
}

spec fn is_inspection_sound(
    publication: PublicationView,
    planned: Seq<PlannedUploadView>,
    conditions: Option<Map<Seq<char>, UploadConditionView>>,
) -> bool {
    replaces_no_package(planned) && (publication.target is Deb ==> conditions is Some)
}

proof fn lemma_repository_inspected(
    publication: PublicationView,
    planned: Seq<PlannedUploadView>,
    conditions: Option<Map<Seq<char>, UploadConditionView>>,
    notice: Option<Seq<char>>,
)
    ensures
        repository_inspected(publication, planned, conditions, notice) matches Ok(next)
            ==> stages_left(next.stage) <= 1 && (is_inspection_sound(
            publication,
            planned,
            conditions,
        ) ==> is_sound(publication, next.stage) && uploads_soundly(publication, next)),
{
    let system = target_system_of(publication.target);
    match conditions {
        None => {
            lemma_repository_order(system, planned);
            lemma_next_upload(publication, repository_order(system, planned), notice);
        },
        Some(conditions) => {
            lemma_repository_entries_are_conditioned(planned, conditions);
            if let Ok(uploads) = with_entry_conditions(planned, conditions, 0, Seq::empty()) {
                assert(replaces_no_package(planned) ==> replaces_no_package(uploads));
                assert(announces_on_condition(uploads));
                lemma_repository_order(system, uploads);
                lemma_next_upload(publication, repository_order(system, uploads), notice);
            }
        },
    }
}

proof fn lemma_next_inspection(
    publication: PublicationView,
    pending: Seq<PlannedUploadView>,
    planned: Seq<PlannedUploadView>,
    conditions: Option<Map<Seq<char>, UploadConditionView>>,
    notice: Option<Seq<char>>,
)
    ensures
        next_inspection(publication, pending, planned, conditions, notice) matches Ok(next)
            ==> stages_left(next.stage) <= 2 && (next.stage is Inspecting ==> 0 <= answers_left(
            publication,
            next.stage,
        ) < pending.len()) && (is_inspection_sound(publication, planned, conditions)
            ==> is_sound(publication, next.stage) && uploads_soundly(publication, next)),
    decreases pending.len(),
{
    if pending.len() == 0 {
        lemma_repository_inspected(publication, planned, conditions, notice);
    } else if pending[0].entry {
        lemma_next_inspection(
            publication,
            pending.drop_first(),
            planned.push(pending[0]),
            conditions,
            notice,
        );
    }
}

/// A dry run uploads nothing, whatever stage it is at and whatever comes back.
pub proof fn lemma_dry_run_uploads_nothing(
    publication: PublicationView,
    contract: ReleaseContract,
    stage: PublicationStageView,
    event: PublicationEventView,
)
    requires
        publication.dry_run,
    ensures
        opening(publication, contract) matches Ok(next) ==> !(next.action is Upload),
        advanced(publication, contract, stage, event) matches Ok(next) ==> !(next.action is Upload),
{
    if let PublicationStageView::Walking { directory, conditions } = stage {
        lemma_dry_inspection_everywhere(publication);
    }
    if let PublicationStageView::Inspecting { .. } = stage {
        lemma_dry_inspection_everywhere(publication);
    }
}

proof fn lemma_dry_inspection(
    publication: PublicationView,
    pending: Seq<PlannedUploadView>,
    planned: Seq<PlannedUploadView>,
    conditions: Option<Map<Seq<char>, UploadConditionView>>,
    notice: Option<Seq<char>>,
)
    requires
        publication.dry_run,
    ensures
        next_inspection(publication, pending, planned, conditions, notice) matches Ok(next) ==> !(
        next.action is Upload),
    decreases pending.len(),
{
    if pending.len() > 0 && pending[0].entry {
        lemma_dry_inspection(
            publication,
            pending.drop_first(),
            planned.push(pending[0]),
            conditions,
            notice,
        );
    }
}

proof fn lemma_dry_inspection_everywhere(publication: PublicationView)
    requires
        publication.dry_run,
    ensures
        forall|
            pending: Seq<PlannedUploadView>,
            planned: Seq<PlannedUploadView>,
            conditions: Option<Map<Seq<char>, UploadConditionView>>,
            notice: Option<Seq<char>>,
        |
            (#[trigger] next_inspection(publication, pending, planned, conditions, notice)) matches Ok(
                next,
            ) ==> !(next.action is Upload),
{
    assert forall|
        pending: Seq<PlannedUploadView>,
        planned: Seq<PlannedUploadView>,
        conditions: Option<Map<Seq<char>, UploadConditionView>>,
        notice: Option<Seq<char>>,
    |
        (#[trigger] next_inspection(publication, pending, planned, conditions, notice)) matches Ok(
            next,
        ) ==> !(next.action is Upload) by {
        lemma_dry_inspection(publication, pending, planned, conditions, notice);
    }
}

/// A publication begins soundly: nothing is uploaded, and what it has gathered may be.
pub proof fn lemma_publication_begins_soundly(
    publication: PublicationView,
    contract: ReleaseContract,
)
    ensures
        opening(publication, contract) matches Ok(next) ==> is_sound(publication, next.stage) && !(
        next.action is Upload),
{
}

/// A publication stays sound, whatever comes back: every upload that a step asks for puts a
/// package only where nothing stands at its key, is followed by no package if it is an
/// announcement, and replaces Debian metadata only as it was read.
pub proof fn lemma_publication_stays_sound(
    publication: PublicationView,
    contract: ReleaseContract,
    stage: PublicationStageView,
    event: PublicationEventView,
)
    requires
        is_sound(publication, stage),
    ensures
        advanced(publication, contract, stage, event) matches Ok(next) ==> is_sound(
            publication,
            next.stage,
        ) && uploads_soundly(publication, next),
{
    lemma_step(publication, contract, stage, event);
}

/// A publication ends: every step brings it nearer to its end, whatever comes back.
pub proof fn lemma_publication_ends(
    publication: PublicationView,
    contract: ReleaseContract,
    stage: PublicationStageView,
    event: PublicationEventView,
)
    ensures
        advanced(publication, contract, stage, event) matches Ok(next) ==> is_later(
            publication,
            next.stage,
            stage,
        ),
{
    lemma_step(publication, contract, stage, event);
}

proof fn lemma_archive_step(
    publication: PublicationView,
    contract: ReleaseContract,
    artifacts: Seq<PackageArtifactView>,
    uploads: Seq<PlannedUploadView>,
    key: Seq<char>,
    sha256: Seq<char>,
    remote: RemotePayloadStateView,
)
    ensures
        goes_on(
            publication,
            PublicationStageView::Hashing { artifacts, uploads, key },
            archive_hashed(publication, artifacts, uploads, key, sha256),
        ),
        goes_on(
            publication,
            PublicationStageView::Locating { artifacts, uploads, key, sha256 },
            archive_located(publication, contract, artifacts, uploads, key, sha256, remote),
        ),
{
}

proof fn lemma_announcement_step(
    publication: PublicationView,
    contract: ReleaseContract,
    artifacts: Seq<PackageArtifactView>,
    uploads: Seq<PlannedUploadView>,
    template: Seq<char>,
)
    ensures
        goes_on(
            publication,
            PublicationStageView::Describing { artifacts, uploads },
            template_read(publication, contract, artifacts, uploads, template),
        ),
{
    if let Ok(named) = announcements(publication) {
        assert(replaces_no_package(uploads) ==> replaces_no_package(uploads + named));
    }
}

proof fn lemma_walk_step(
    publication: PublicationView,
    directory: Seq<char>,
    conditions: Option<Map<Seq<char>, UploadConditionView>>,
    paths: Seq<Seq<char>>,
)
    ensures
        goes_on(
            publication,
            PublicationStageView::Walking { directory, conditions },
            repository_walked(publication, directory, conditions, paths),
        ),
{
    if let Some(extension) = repository_extension(target_system_of(publication.target)) {
        if let Ok(uploads) = file_uploads(
            directory,
            prefix_of(publication.target),
            extension,
            paths,
            0,
            Seq::empty(),
        ) {
            lemma_next_inspection(publication, uploads, Seq::empty(), conditions, None);
        }
    }
}

proof fn lemma_inspection_step(
    publication: PublicationView,
    upload: PlannedUploadView,
    pending: Seq<PlannedUploadView>,
    planned: Seq<PlannedUploadView>,
    conditions: Option<Map<Seq<char>, UploadConditionView>>,
    sha256: Seq<char>,
    remote: RemotePayloadStateView,
)
    ensures
        goes_on(
            publication,
            PublicationStageView::Inspecting { upload, pending, planned, conditions },
            payload_inspected(
                publication,
                upload,
                pending,
                planned,
                conditions,
                sha256,
                remote,
            ),
        ),
{
    let missing = PlannedUploadView { condition: Some(UploadConditionView::IfMissing), ..upload };
    lemma_next_inspection(publication, pending, planned.push(missing), conditions, None);
    lemma_next_inspection(
        publication,
        pending,
        planned,
        conditions,
        Some(payload_notice(upload.key, true)),
    );
}

proof fn lemma_step(
    publication: PublicationView,
    contract: ReleaseContract,
    stage: PublicationStageView,
    event: PublicationEventView,
)
    ensures
        goes_on(publication, stage, advanced(publication, contract, stage, event)),
{
    match (stage, event) {
        (
            PublicationStageView::Hashing { artifacts, uploads, key },
            PublicationEventView::Hashed { sha256 },
        ) => {
            lemma_archive_step(
                publication,
                contract,
                artifacts,
                uploads,
                key,
                sha256,
                RemotePayloadStateView::Missing,
            );
        },
        (
            PublicationStageView::Locating { artifacts, uploads, key, sha256 },
            PublicationEventView::Located { remote },
        ) => {
            lemma_archive_step(publication, contract, artifacts, uploads, key, sha256, remote);
        },
        (
            PublicationStageView::Describing { artifacts, uploads },
            PublicationEventView::Text { text },
        ) => {
            lemma_announcement_step(publication, contract, artifacts, uploads, text);
        },
        (PublicationStageView::Announcing { uploads }, PublicationEventView::Done) => {
            lemma_upload_order(uploads);
            lemma_next_upload(publication, upload_order(uploads), None);
        },
        (
            PublicationStageView::Walking { directory, conditions },
            PublicationEventView::Files { paths },
        ) => {
            lemma_walk_step(publication, directory, conditions, paths);
        },
        (
            PublicationStageView::Inspecting { upload, pending, planned, conditions },
            PublicationEventView::Payload { sha256, remote },
        ) => {
            lemma_inspection_step(
                publication,
                upload,
                pending,
                planned,
                conditions,
                sha256,
                remote,
            );
        },
        (PublicationStageView::Uploading { waiting }, PublicationEventView::Done) => {
            lemma_next_upload(publication, waiting, None);
        },
        _ => {},
    }
}

/// Whether an event is what an action asks for.
pub open spec fn answers(action: PublicationActionView, event: PublicationEventView) -> bool {
    match action {
        PublicationActionView::HashFile { .. } => event is Hashed,
        PublicationActionView::InspectObject { .. } => event is Located,
        PublicationActionView::ReadTemplate { .. } => event is Text,
        PublicationActionView::WriteAnnouncements { .. } => event is Done,
        PublicationActionView::FetchIndexes { .. } => event is Indexes,
        PublicationActionView::InspectEntries { .. } => event is Conditions,
        PublicationActionView::ListObjects { .. } => event is Keys,
        PublicationActionView::CreateRepository => event is Directory,
        PublicationActionView::FillRepository { .. } => event is Done,
        PublicationActionView::WriteSecrets { .. } => event is Directory,
        PublicationActionView::RunContainer { .. } => event is Done,
        PublicationActionView::WalkRepository { .. } => event is Files,
        PublicationActionView::InspectPayload { .. } => event is Payload,
        PublicationActionView::Upload { .. } => event is Done,
        PublicationActionView::Report { .. } => event is Done,
        PublicationActionView::Finish => false,
    }
}

/// Whether a stage waits for what a step asks for, and is one that the target of the
/// publication leads to.
pub open spec fn waits_for_its_action(publication: PublicationView, step: PublicationStepView) -> bool {
    let archives = publication.target is Brew || publication.target is Scoop;
    let repository = publication.target is Deb || publication.target is Rpm;
    let all = publication.manifest.artifacts.len();
    match step.stage {
        PublicationStageView::Hashing { artifacts, .. } => archives && artifacts.len() < all
            && step.action is HashFile,
        PublicationStageView::Locating { artifacts, .. } => archives && artifacts.len() < all
            && step.action is InspectObject,
        PublicationStageView::Describing { .. } => archives && step.action is ReadTemplate,
        PublicationStageView::Announcing { .. } => archives && step.action is WriteAnnouncements,
        PublicationStageView::Indexing => publication.target is Deb && step.action is FetchIndexes,
        PublicationStageView::Conditioning { .. } => publication.target is Deb
            && step.action is InspectEntries,
        PublicationStageView::OpeningDeb { .. } => publication.target is Deb
            && step.action is CreateRepository,
        PublicationStageView::Listing => publication.target is Rpm && step.action is ListObjects,
        PublicationStageView::OpeningRpm { .. } => publication.target is Rpm
            && step.action is CreateRepository,
        PublicationStageView::Filling { .. } => repository && step.action is FillRepository,
        PublicationStageView::Protecting { .. } => publication.target is Deb
            && step.action is WriteSecrets,
        PublicationStageView::Sealing { .. } => repository && step.action is RunContainer,
        PublicationStageView::Walking { .. } => repository && step.action is WalkRepository,
        PublicationStageView::Inspecting { .. } => repository && step.action is InspectPayload,
        PublicationStageView::Uploading { .. } => step.action is Upload || step.action is Report,
        PublicationStageView::Finished => step.action is Finish,
    }
}

proof fn lemma_inspection_waits(
    publication: PublicationView,
    pending: Seq<PlannedUploadView>,
    planned: Seq<PlannedUploadView>,
    conditions: Option<Map<Seq<char>, UploadConditionView>>,
    notice: Option<Seq<char>>,
)
    requires
        publication.target is Deb || publication.target is Rpm,
    ensures
        match next_inspection(publication, pending, planned, conditions, notice) {
            Ok(next) => waits_for_its_action(publication, next),
            Err(error) => error is Refused,
        },
    decreases pending.len(),
{
    if pending.len() > 0 && pending[0].entry {
        lemma_inspection_waits(
            publication,
            pending.drop_first(),
            planned.push(pending[0]),
            conditions,
            notice,
        );
    }
}

/// The first step of a publication waits for what it asks for.
pub proof fn lemma_publication_begins_waiting(
    publication: PublicationView,
    contract: ReleaseContract,
)
    ensures
        opening(publication, contract) matches Ok(next) ==> waits_for_its_action(publication, next),
{
}

/// A publication takes every answer to what it asked for: it goes on and waits for what it
/// asks for next, or it is refused for a reason of the publication.
pub proof fn lemma_publication_takes_every_answer(
    publication: PublicationView,
    contract: ReleaseContract,
    step: PublicationStepView,
    event: PublicationEventView,
)
    requires
        waits_for_its_action(publication, step),
        answers(step.action, event),
    ensures
        match advanced(publication, contract, step.stage, event) {
            Ok(next) => waits_for_its_action(publication, next),
            Err(error) => error is Refused,
        },
{
    match (step.stage, event) {
        (
            PublicationStageView::Walking { directory, conditions },
            PublicationEventView::Files { paths },
        ) => {
            if let Some(extension) = repository_extension(target_system_of(publication.target)) {
                if let Ok(uploads) = file_uploads(
                    directory,
                    prefix_of(publication.target),
                    extension,
                    paths,
                    0,
                    Seq::empty(),
                ) {
                    lemma_inspection_waits(publication, uploads, Seq::empty(), conditions, None);
                }
            }
        },
        (
            PublicationStageView::Inspecting { upload, pending, planned, conditions },
            PublicationEventView::Payload { sha256, remote },
        ) => {
            let missing = PlannedUploadView {
                condition: Some(UploadConditionView::IfMissing),
                ..upload
            };
            lemma_inspection_waits(publication, pending, planned.push(missing), conditions, None);
            lemma_inspection_waits(
                publication,
                pending,
                planned,
                conditions,
                Some(payload_notice(upload.key, true)),
            );
        },
        _ => {},
    }
}

} // verus!
