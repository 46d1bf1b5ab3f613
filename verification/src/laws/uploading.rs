//! Laws of what is uploaded of a repository: every file that its directory holds, each under
//! its own key.

use vstd::prelude::*;

use crate::contract::ReleaseContract;
use crate::laws::paths::{
    is_name, lemma_names_are_components, lemma_paths_are_found_below, lemma_paths_are_joined,
};
use crate::laws::texts::lemma_joined_from_the_front;
use crate::laws::uploads::{
    lemma_repository_entries_are_conditioned, lemma_repository_is_announced_last,
};
use crate::path::{parts, path_below};
use crate::publication::{
    advanced, next_inspection, repository_inspected, repository_order,
    target_system_of, PublicationActionView, PublicationErrorView, PublicationEventView,
    PublicationStageView, PublicationStepView, PublicationView,
};
use crate::publish::{RemotePayloadStateView, S3PublishTargetView, UploadConditionView};
use crate::s3::{
    file_uploads, repository_upload, with_entry_conditions, PlannedUploadView,
};
use crate::text::{has_suffix, joined};

verus! {

/// Whether an upload is that of a file of a repository: it goes from the file to the place
/// below the prefix that the file has below the directory, and it is an entry, one that is
/// replaced, exactly where the file is no package.
pub open spec fn is_upload_of(
    publication: PublicationView,
    directory: Seq<char>,
    file: Seq<char>,
    upload: PlannedUploadView,
) -> bool {
    let (prefix, ending) = match publication.target {
        S3PublishTargetView::Deb(target) => (target.prefix, "deb"@),
        S3PublishTargetView::Rpm(target) => (target.prefix, "rpm"@),
        _ => (Seq::empty(), Seq::empty()),
    };
    &&& path_below(file, directory) matches Some(rest)
    &&& upload.path == file
    &&& upload.key == prefix + "/"@ + joined(parts(rest), "/"@)
    &&& upload.entry == !has_suffix(joined(parts(rest), "/"@), ending)
    &&& upload.condition is None
}

/// Whether uploads are those of the files of a repository, one for one and in order.
pub open spec fn are_uploads_of(
    publication: PublicationView,
    directory: Seq<char>,
    files: Seq<Seq<char>>,
    uploads: Seq<PlannedUploadView>,
) -> bool {
    &&& uploads.len() == files.len()
    &&& forall|i: int|
        0 <= i < files.len() ==> is_upload_of(
            publication,
            directory,
            files[i],
            #[trigger] uploads[i],
        )
}

/// Whether a publication goes on with uploads that it has not looked at, after those that it
/// has planned: it asks for the first package among them, and plans the entries before it. Where
/// no package is left, it uploads everything.
pub open spec fn looks_on(
    publication: PublicationView,
    pending: Seq<PlannedUploadView>,
    planned: Seq<PlannedUploadView>,
    conditions: Option<Map<Seq<char>, UploadConditionView>>,
    next: PublicationStepView,
) -> bool {
    ||| exists|k: int| #[trigger] asks_for(pending, planned, conditions, next, k)
    ||| (forall|i: int| 0 <= i < pending.len() ==> (#[trigger] pending[i]).entry) && uploads_all(
        publication,
        planned + pending,
        conditions,
        next,
    )
}

/// Whether a publication asks for the package at a place, the first among what is pending.
pub open spec fn asks_for(
    pending: Seq<PlannedUploadView>,
    planned: Seq<PlannedUploadView>,
    conditions: Option<Map<Seq<char>, UploadConditionView>>,
    next: PublicationStepView,
    k: int,
) -> bool {
    &&& 0 <= k < pending.len() && !pending[k].entry
    &&& forall|i: int| 0 <= i < k ==> (#[trigger] pending[i]).entry
    &&& next.stage == (PublicationStageView::Inspecting {
        upload: pending[k],
        pending: pending.skip(k + 1),
        planned: planned + pending.take(k),
        conditions,
    })
    &&& next.action == (PublicationActionView::InspectPayload {
        path: pending[k].path,
        key: pending[k].key,
    })
}

/// Whether an upload is made as it was planned: an entry under the condition that was read for
/// its key, where conditions were read; anything else unchanged.
pub open spec fn made_as_planned(
    planned: PlannedUploadView,
    conditions: Option<Map<Seq<char>, UploadConditionView>>,
    made: PlannedUploadView,
) -> bool {
    match conditions {
        Some(read) => if planned.entry {
            read.contains_key(planned.key) && made == (PlannedUploadView {
                condition: Some(read[planned.key]),
                ..planned
            })
        } else {
            made == planned
        },
        None => made == planned,
    }
}

/// Whether a publication makes all uploads that it has planned: some order of them, in which
/// packages come before entries, is made from the first to the last.
pub open spec fn uploads_all(
    publication: PublicationView,
    planned: Seq<PlannedUploadView>,
    conditions: Option<Map<Seq<char>, UploadConditionView>>,
    next: PublicationStepView,
) -> bool {
    exists|made: Seq<PlannedUploadView>, ordered: Seq<PlannedUploadView>|
        {
            &&& #[trigger] are_made(planned, conditions, made)
            &&& #[trigger] ordered.to_multiset() == made.to_multiset()
            &&& packages_first(ordered)
            &&& begins_uploads(publication.dry_run, ordered, next)
        }
}

/// Whether uploads are made as they were planned, one for one and in order.
pub open spec fn are_made(
    planned: Seq<PlannedUploadView>,
    conditions: Option<Map<Seq<char>, UploadConditionView>>,
    made: Seq<PlannedUploadView>,
) -> bool {
    &&& made.len() == planned.len()
    &&& forall|i: int|
        0 <= i < planned.len() ==> made_as_planned(planned[i], conditions, #[trigger] made[i])
}

/// Whether packages come before entries.
pub open spec fn packages_first(uploads: Seq<PlannedUploadView>) -> bool {
    forall|i: int, j: int|
        0 <= i < j < uploads.len() && (#[trigger] uploads[i]).entry ==> (
        #[trigger] uploads[j]).entry
}

/// Whether a step makes the first of some uploads, or reports it where nothing is to change, and
/// lets the others wait; or ends where there is none.
pub open spec fn begins_uploads(
    dry_run: bool,
    uploads: Seq<PlannedUploadView>,
    next: PublicationStepView,
) -> bool {
    if uploads.len() == 0 {
        next.stage is Finished && next.action is Finish
    } else {
        &&& next.stage == (PublicationStageView::Uploading { waiting: uploads.skip(1) })
        &&& next.action == if dry_run {
            PublicationActionView::Report { upload: uploads[0] }
        } else {
            PublicationActionView::Upload { upload: uploads[0] }
        }
    }
}

proof fn lemma_planned_are_uploaded(
    publication: PublicationView,
    planned: Seq<PlannedUploadView>,
    conditions: Option<Map<Seq<char>, UploadConditionView>>,
    notice: Option<Seq<char>>,
)
    ensures
        repository_inspected(publication, planned, conditions, notice) matches Ok(next)
            ==> uploads_all(publication, planned, conditions, next),
{
    let system = target_system_of(publication.target);
    if let Ok(next) = repository_inspected(publication, planned, conditions, notice) {
        let made = match conditions {
            None => planned,
            Some(read) => with_entry_conditions(planned, read, 0, Seq::empty())->Ok_0,
        };
        if let Some(read) = conditions {
            lemma_repository_entries_are_conditioned(planned, read);
        }
        assert(are_made(planned, conditions, made));
        let ordered = repository_order(system, made);
        lemma_repository_is_announced_last(system, made);
        assert(packages_first(ordered));
        if ordered.len() > 0 {
            assert(ordered.skip(1) =~= ordered.drop_first());
        }
        assert(begins_uploads(publication.dry_run, ordered, next));
        assert(ordered.to_multiset() == made.to_multiset());
    }
}

proof fn lemma_looks_on(
    publication: PublicationView,
    pending: Seq<PlannedUploadView>,
    planned: Seq<PlannedUploadView>,
    conditions: Option<Map<Seq<char>, UploadConditionView>>,
    notice: Option<Seq<char>>,
)
    ensures
        next_inspection(publication, pending, planned, conditions, notice) matches Ok(next)
            ==> looks_on(publication, pending, planned, conditions, next),
    decreases pending.len(),
{
    if let Ok(next) = next_inspection(publication, pending, planned, conditions, notice) {
        if pending.len() == 0 {
            lemma_planned_are_uploaded(publication, planned, conditions, notice);
            assert(planned + pending =~= planned);
        } else if pending[0].entry {
            let rest = pending.drop_first();
            let now = planned.push(pending[0]);
            lemma_looks_on(publication, rest, now, conditions, notice);
            assert(now + rest =~= planned + pending);
            if exists|k: int| #[trigger] asks_for(rest, now, conditions, next, k) {
                let k = choose|k: int| #[trigger] asks_for(rest, now, conditions, next, k);
                assert(rest.skip(k + 1) =~= pending.skip(k + 2));
                assert(now + rest.take(k) =~= planned + pending.take(k + 1));
                assert(forall|i: int| 0 <= i < k ==> rest[i] == #[trigger] pending[i + 1]);
                assert forall|i: int| 0 <= i < k + 1 implies (#[trigger] pending[i]).entry by {
                    if i > 0 {
                        assert(rest[i - 1].entry);
                    }
                }
                assert(asks_for(pending, planned, conditions, next, k + 1));
            } else {
                assert forall|i: int| 0 <= i < pending.len() implies (
                #[trigger] pending[i]).entry by {
                    if i > 0 {
                        assert(rest[i - 1].entry);
                    }
                }
            }
        } else {
            assert(pending.skip(1) =~= pending.drop_first());
            assert(planned + pending.take(0) =~= planned);
            assert(asks_for(pending, planned, conditions, next, 0));
        }
    }
}

proof fn lemma_uploads_from(
    publication: PublicationView,
    directory: Seq<char>,
    prefix: Seq<char>,
    ending: Seq<char>,
    files: Seq<Seq<char>>,
    from: int,
    found: Seq<PlannedUploadView>,
)
    requires
        0 <= from <= files.len(),
    ensures
        file_uploads(directory, prefix, ending, files, from, found) matches Ok(uploads) ==> {
            &&& uploads.len() == found.len() + files.len() - from
            &&& forall|i: int| 0 <= i < found.len() ==> uploads[i] == #[trigger] found[i]
            &&& forall|i: int|
                from <= i < files.len() ==> (repository_upload(
                    directory,
                    prefix,
                    ending,
                    #[trigger] files[i],
                ) matches Ok(upload) && uploads[found.len() + i - from] == upload)
        },
    decreases files.len() - from,
{
    if from < files.len() {
        if let Ok(upload) = repository_upload(directory, prefix, ending, files[from]) {
            let next = found.push(upload);
            lemma_uploads_from(publication, directory, prefix, ending, files, from + 1, next);
            if let Ok(uploads) = file_uploads(directory, prefix, ending, files, from, found) {
                assert forall|i: int| 0 <= i < found.len() implies uploads[i]
                    == #[trigger] found[i] by {
                    assert(next[i] == found[i]);
                }
                assert(uploads[found.len() as int] == next[found.len() as int]);
            }
        }
    }
}

/// Whether every entry among some uploads has a condition that was read for its key, where
/// conditions were read.
pub open spec fn has_conditions(
    uploads: Seq<PlannedUploadView>,
    conditions: Option<Map<Seq<char>, UploadConditionView>>,
) -> bool {
    conditions matches Some(read) ==> forall|i: int|
        0 <= i < uploads.len() && (#[trigger] uploads[i]).entry ==> read.contains_key(
            uploads[i].key,
        )
}

proof fn lemma_conditions_suffice(
    uploads: Seq<PlannedUploadView>,
    read: Map<Seq<char>, UploadConditionView>,
    from: int,
    done: Seq<PlannedUploadView>,
)
    requires
        0 <= from <= uploads.len(),
    ensures
        with_entry_conditions(uploads, read, from, done) is Ok <==> forall|i: int|
            from <= i < uploads.len() && (#[trigger] uploads[i]).entry ==> read.contains_key(
                uploads[i].key,
            ),
    decreases uploads.len() - from,
{
    if from < uploads.len() {
        let upload = uploads[from];
        lemma_conditions_suffice(uploads, read, from + 1, done.push(upload));
        lemma_conditions_suffice(
            uploads,
            read,
            from + 1,
            done.push(PlannedUploadView { condition: Some(read[upload.key]), ..upload }),
        );
    }
}

/// A publication goes on with what is pending as long as a package is among it; once none is,
/// exactly where every entry has its condition.
pub proof fn lemma_looking_on_succeeds(
    publication: PublicationView,
    pending: Seq<PlannedUploadView>,
    planned: Seq<PlannedUploadView>,
    conditions: Option<Map<Seq<char>, UploadConditionView>>,
    notice: Option<Seq<char>>,
)
    ensures
        next_inspection(publication, pending, planned, conditions, notice) is Ok <==> (exists|i: int|
            0 <= i < pending.len() && !(#[trigger] pending[i]).entry) || has_conditions(
            planned + pending,
            conditions,
        ),
    decreases pending.len(),
{
    if pending.len() == 0 {
        assert(planned + pending =~= planned);
        if let Some(read) = conditions {
            lemma_conditions_suffice(planned, read, 0, Seq::empty());
        }
    } else if pending[0].entry {
        let rest = pending.drop_first();
        let now = planned.push(pending[0]);
        lemma_looking_on_succeeds(publication, rest, now, conditions, notice);
        assert(now + rest =~= planned + pending);
        if exists|i: int| 0 <= i < pending.len() && !(#[trigger] pending[i]).entry {
            let i = choose|i: int| 0 <= i < pending.len() && !(#[trigger] pending[i]).entry;
            assert(!rest[i - 1].entry);
        }
        if exists|i: int| 0 <= i < rest.len() && !(#[trigger] rest[i]).entry {
            let i = choose|i: int| 0 <= i < rest.len() && !(#[trigger] rest[i]).entry;
            assert(!pending[i + 1].entry);
        }
    }
}

/// A walk is taken wherever every file stands below the directory, as long as there is no
/// condition to keep.
pub proof fn lemma_walks_are_taken(
    publication: PublicationView,
    contract: ReleaseContract,
    directory: Seq<char>,
    conditions: Option<Map<Seq<char>, UploadConditionView>>,
    files: Seq<Seq<char>>,
)
    requires
        publication.target is Deb || publication.target is Rpm,
        forall|i: int|
            0 <= i < files.len() ==> path_below(#[trigger] files[i], directory) is Some,
        conditions is None,
    ensures
        advanced(
            publication,
            contract,
            PublicationStageView::Walking { directory, conditions },
            PublicationEventView::Files { paths: files },
        ) is Ok,
{
    let (prefix, ending) = match publication.target {
        S3PublishTargetView::Deb(target) => (target.prefix, "deb"@),
        S3PublishTargetView::Rpm(target) => (target.prefix, "rpm"@),
        _ => (Seq::empty(), Seq::empty()),
    };
    lemma_files_are_taken(directory, prefix, ending, files, 0, Seq::empty());
    let uploads = file_uploads(directory, prefix, ending, files, 0, Seq::empty())->Ok_0;
    lemma_looking_on_succeeds(publication, uploads, Seq::empty(), conditions, None);
}

proof fn lemma_files_are_taken(
    directory: Seq<char>,
    prefix: Seq<char>,
    ending: Seq<char>,
    files: Seq<Seq<char>>,
    from: int,
    found: Seq<PlannedUploadView>,
)
    requires
        0 <= from <= files.len(),
        forall|i: int|
            0 <= i < files.len() ==> path_below(#[trigger] files[i], directory) is Some,
    ensures
        file_uploads(directory, prefix, ending, files, from, found) is Ok,
    decreases files.len() - from,
{
    if from < files.len() {
        let upload = repository_upload(directory, prefix, ending, files[from])->Ok_0;
        lemma_files_are_taken(directory, prefix, ending, files, from + 1, found.push(upload));
    }
}

/// Once the directory of a repository is walked, every file of it is an upload, and the
/// publication looks at the packages among them one after the other.
pub proof fn lemma_every_file_is_an_upload(
    publication: PublicationView,
    contract: ReleaseContract,
    directory: Seq<char>,
    conditions: Option<Map<Seq<char>, UploadConditionView>>,
    files: Seq<Seq<char>>,
)
    requires
        publication.target is Deb || publication.target is Rpm,
    ensures
        advanced(
            publication,
            contract,
            PublicationStageView::Walking { directory, conditions },
            PublicationEventView::Files { paths: files },
        ) matches Ok(next) ==> exists|uploads: Seq<PlannedUploadView>| #[trigger]
            are_uploads_of(publication, directory, files, uploads) && looks_on(
                publication,
                uploads,
                Seq::empty(),
                conditions,
                next,
            ),
{
    if let Ok(next) = advanced(
        publication,
        contract,
        PublicationStageView::Walking { directory, conditions },
        PublicationEventView::Files { paths: files },
    ) {
        let (prefix, ending) = match publication.target {
            S3PublishTargetView::Deb(target) => (target.prefix, "deb"@),
            S3PublishTargetView::Rpm(target) => (target.prefix, "rpm"@),
            _ => (Seq::empty(), Seq::empty()),
        };
        lemma_uploads_from(publication, directory, prefix, ending, files, 0, Seq::empty());
        let uploads = file_uploads(directory, prefix, ending, files, 0, Seq::empty())->Ok_0;
        assert forall|i: int| 0 <= i < files.len() implies is_upload_of(
            publication,
            directory,
            files[i],
            #[trigger] uploads[i],
        ) by {
            assert(repository_upload(directory, prefix, ending, files[i])->Ok_0 == uploads[i]);
        }
        assert(are_uploads_of(publication, directory, files, uploads));
        lemma_looks_on(publication, uploads, Seq::empty(), conditions, None);
    }
}

/// A file is uploaded to the place below the prefix that it has below the directory, name by
/// name. Neither the first nor the last of the names is hidden or ends in a dot.
pub proof fn lemma_files_keep_their_place(
    publication: PublicationView,
    directory: Seq<char>,
    names: Seq<Seq<char>>,
    upload: PlannedUploadView,
)
    requires
        directory.len() > 0 && directory.last() != '/',
        names.len() > 0,
        forall|i: int| 0 <= i < names.len() ==> is_name(#[trigger] names[i]),
        names[0][0] != '.',
        joined(names, "/"@).last() != '/' && joined(names, "/"@).last() != '.',
        is_upload_of(publication, directory, directory + "/"@ + joined(names, "/"@), upload),
    ensures
        publication.target matches S3PublishTargetView::Deb(target) ==> upload.key == target.prefix
            + "/"@ + joined(names, "/"@) && (upload.entry <==> !has_suffix(
            joined(names, "/"@),
            "deb"@,
        )),
        publication.target matches S3PublishTargetView::Rpm(target) ==> upload.key == target.prefix
            + "/"@ + joined(names, "/"@) && (upload.entry <==> !has_suffix(
            joined(names, "/"@),
            "rpm"@,
        )),
{
    let relative = joined(names, "/"@);
    lemma_names_are_components(names);
    assert(is_name(names[0]));
    lemma_starts_with_the_first(names);
    lemma_paths_are_joined(directory, relative);
    lemma_paths_are_found_below(directory, relative);
    assert(parts(relative) == names);
}

proof fn lemma_starts_with_the_first(names: Seq<Seq<char>>)
    requires
        names.len() > 0,
        names[0].len() > 0,
    ensures
        joined(names, "/"@).len() > 0,
        joined(names, "/"@)[0] == names[0][0],
{
    if names.len() > 1 {
        lemma_joined_from_the_front(names, "/"@);
    }
}

/// A package that is missing in the storage is planned, on condition that it is still missing;
/// one that stands there with the same content is left out, and said to stand there; one that
/// stands there with another content stops the publication. What is planned already stays.
pub proof fn lemma_missing_packages_are_planned(
    publication: PublicationView,
    contract: ReleaseContract,
    upload: PlannedUploadView,
    pending: Seq<PlannedUploadView>,
    planned: Seq<PlannedUploadView>,
    conditions: Option<Map<Seq<char>, UploadConditionView>>,
    sha256: Seq<char>,
    remote: RemotePayloadStateView,
)
    ensures
        ({
            let answer = advanced(
                publication,
                contract,
                PublicationStageView::Inspecting { upload, pending, planned, conditions },
                PublicationEventView::Payload { sha256, remote },
            );
            match remote {
                RemotePayloadStateView::Missing => answer matches Ok(next) ==> looks_on(
                    publication,
                    pending,
                    planned.push(
                        PlannedUploadView {
                            condition: Some(UploadConditionView::IfMissing),
                            ..upload
                        },
                    ),
                    conditions,
                    next,
                ),
                RemotePayloadStateView::Present { sha256: stored } => {
                    &&& stored == sha256 ==> (answer matches Ok(next) ==> looks_on(
                        publication,
                        pending,
                        planned,
                        conditions,
                        next,
                    ) && next.notice == Some(
                        "remote immutable package artifact already has matching sha256: "@
                            + upload.key,
                    ))
                    &&& stored != sha256 ==> (answer matches Err(
                        PublicationErrorView::Refused { source },
                    ) && source is ImmutableCollision)
                },
            }
        }),
{
    let added = planned.push(
        PlannedUploadView { condition: Some(UploadConditionView::IfMissing), ..upload },
    );
    let said = Some(
        "remote immutable package artifact already has matching sha256: "@ + upload.key,
    );
    lemma_looks_on(publication, pending, added, conditions, None);
    lemma_looks_on(publication, pending, planned, conditions, said);
    lemma_notice_is_kept(publication, pending, planned, conditions, said);
}

proof fn lemma_notice_is_kept(
    publication: PublicationView,
    pending: Seq<PlannedUploadView>,
    planned: Seq<PlannedUploadView>,
    conditions: Option<Map<Seq<char>, UploadConditionView>>,
    notice: Option<Seq<char>>,
)
    ensures
        next_inspection(publication, pending, planned, conditions, notice) matches Ok(next)
            ==> next.notice == notice,
    decreases pending.len(),
{
    if pending.len() > 0 && pending[0].entry {
        lemma_notice_is_kept(
            publication,
            pending.drop_first(),
            planned.push(pending[0]),
            conditions,
            notice,
        );
    }
}

} // verus!
