//! Laws of uploads: package files go before what speaks of them, nothing is lost or added by
//! ordering, and what is replaced is replaced only on condition.

use vstd::prelude::*;

use crate::publication::repository_order;
use crate::publish::{
    below_prefix, conditioned_uploads, deb_upload_rank, payload_key, rpm_upload_rank,
    LinuxPackagePayloadView, PublishUploadPlanView, UploadConditionView,
};
use crate::s3::{
    comes_before, in_order, insertion_place, publication_rank, publication_ranked,
    repository_rank, repository_ranked, unranked, with_entry_conditions, PlannedUploadView,
    RankedUpload,
};
use crate::system::PackageSystem;
use crate::text::{
    contains_text, has_prefix, has_suffix, lemma_text_lt_irreflexive, lemma_text_lt_total,
    lemma_text_lt_transitive, occurs_at, text_lt,
};

verus! {

/// The key of a deb package file ranks before everything else of its repository.
pub proof fn lemma_deb_payloads_rank_first(prefix: Seq<char>, payload: LinuxPackagePayloadView)
    ensures
        payload_key(prefix, PackageSystem::Deb, payload) matches Ok(key) ==> deb_upload_rank(key)
            == 0,
{
    if let Ok(key) = payload_key(prefix, PackageSystem::Deb, payload) {
        reveal_strlit("/");
        reveal_strlit("/pool/");
        reveal_strlit("pool/main/");
        assert(key.subrange(prefix.len() as int, prefix.len() as int + 6) =~= "/pool/"@);
        assert(occurs_at(key, "/pool/"@, prefix.len() as int));
    }
}

/// The key of an rpm package file ranks before everything else of its repository.
pub proof fn lemma_rpm_payloads_rank_first(prefix: Seq<char>, payload: LinuxPackagePayloadView)
    requires
        has_suffix(payload.archive_name, ".rpm"@),
    ensures
        payload_key(prefix, PackageSystem::Rpm, payload) matches Ok(key) ==> rpm_upload_rank(key)
            == 0,
{
    if let Ok(key) = payload_key(prefix, PackageSystem::Rpm, payload) {
        let name = payload.archive_name;
        let start = key.len() - name.len();
        assert(key.subrange(start, key.len() as int) =~= name);
        let at = name.len() - ".rpm"@.len();
        assert(key.subrange(start + at, key.len() as int) =~= name.subrange(
            at,
            name.len() as int,
        ));
    }
}

/// No key ranks after the last rank.
pub proof fn lemma_ranks_end(system: PackageSystem, key: Seq<char>)
    ensures
        repository_rank(system, key) <= 4,
{
}

/// The signed index of a suite and the index of an rpm repository have the last rank. The prefix
/// and the suite do not themselves lead into a pool or to the index of an architecture.
pub proof fn lemma_indexes_rank_last(prefix: Seq<char>, suite: Seq<char>)
    requires
        !contains_text(below_prefix(prefix, "dists/"@ + suite + "/InRelease"@), "/pool/"@),
        !has_prefix(below_prefix(prefix, "dists/"@ + suite + "/InRelease"@), "pool/"@),
        !contains_text(below_prefix(prefix, "dists/"@ + suite + "/InRelease"@), "/binary-"@),
    ensures
        deb_upload_rank(below_prefix(prefix, "dists/"@ + suite + "/InRelease"@)) == 4,
        rpm_upload_rank(below_prefix(prefix, "repodata/repomd.xml"@)) == 4,
{
    reveal_strlit("/InRelease");
    reveal_strlit("InRelease");
    let key = below_prefix(prefix, "dists/"@ + suite + "/InRelease"@);
    assert(key.subrange(key.len() - 9, key.len() as int) =~= "InRelease"@);
    reveal_strlit("repodata/repomd.xml");
    reveal_strlit(".rpm");
    let index = below_prefix(prefix, "repodata/repomd.xml"@);
    assert(index.subrange(index.len() - 19, index.len() as int) =~= "repodata/repomd.xml"@);
    assert(index.subrange(index.len() - 4, index.len() as int)[0] == '.');
    assert(index.subrange(index.len() - 4, index.len() as int)[1] == 'x');
    assert(".rpm"@[1] == 'r');
}

/// Whether a key leads neither into a pool nor to the index of an architecture.
pub open spec fn is_suite_key(key: Seq<char>) -> bool {
    !contains_text(key, "/pool/"@) && !has_prefix(key, "pool/"@) && !contains_text(
        key,
        "/binary-"@,
    )
}

/// The metadata of a Debian suite rank after what they speak of: the indexes of architectures
/// after packages, the release after them, its signature after it, and the signed release last.
pub proof fn lemma_deb_metadata_rank_in_order(prefix: Seq<char>, suite: Seq<char>, index: Seq<char>)
    requires
        is_suite_key(prefix + "/"@ + ("dists/"@ + suite + "/Release"@)),
        is_suite_key(prefix + "/"@ + ("dists/"@ + suite + "/Release.gpg"@)),
        is_suite_key(prefix + "/"@ + ("dists/"@ + suite + "/InRelease"@)),
        contains_text(index, "/binary-"@),
        !contains_text(index, "/pool/"@),
        !has_prefix(index, "pool/"@),
    ensures
        0 < deb_upload_rank(index),
        deb_upload_rank(index) < deb_upload_rank(
            prefix + "/"@ + ("dists/"@ + suite + "/Release"@),
        ),
        deb_upload_rank(prefix + "/"@ + ("dists/"@ + suite + "/Release"@)) < deb_upload_rank(
            prefix + "/"@ + ("dists/"@ + suite + "/Release.gpg"@),
        ),
        deb_upload_rank(prefix + "/"@ + ("dists/"@ + suite + "/Release.gpg"@)) < deb_upload_rank(
            prefix + "/"@ + ("dists/"@ + suite + "/InRelease"@),
        ),
{
    reveal_strlit("/Release");
    reveal_strlit("/Release.gpg");
    reveal_strlit("/InRelease");
    reveal_strlit("InRelease");
    reveal_strlit("Release.gpg");
    let release = prefix + "/"@ + ("dists/"@ + suite + "/Release"@);
    let signature = prefix + "/"@ + ("dists/"@ + suite + "/Release.gpg"@);
    let signed = prefix + "/"@ + ("dists/"@ + suite + "/InRelease"@);
    assert(signed.subrange(signed.len() - 9, signed.len() as int) =~= "InRelease"@);
    assert(signature.subrange(signature.len() - 11, signature.len() as int) =~= "Release.gpg"@);
    assert(signature[signature.len() - 1] == 'g');
    assert(release[release.len() - 1] == 'e');
    assert(release[release.len() - 8] == '/');
    if has_suffix(signature, "InRelease"@) {
        assert(signature.subrange(signature.len() - 9, signature.len() as int)[8] == 'e');
    }
    if has_suffix(release, "InRelease"@) {
        assert(release.subrange(release.len() - 9, release.len() as int)[1] == 'n');
    }
    if has_suffix(release, "Release.gpg"@) {
        assert(release.subrange(release.len() - 11, release.len() as int)[10] == 'g');
    }
}

/// An upload that does not come before a second one, which does not come before a third one,
/// does not come before the third one.
proof fn lemma_not_before_transitive(a: RankedUpload, b: RankedUpload, c: RankedUpload)
    requires
        !comes_before(a, b),
        !comes_before(b, c),
    ensures
        !comes_before(a, c),
{
    let (x, y, z) = (a.upload.key, b.upload.key, c.upload.key);
    lemma_text_lt_total(x, y);
    lemma_text_lt_total(y, z);
    lemma_text_lt_irreflexive(x);
    if text_lt(x, z) && a.rank == c.rank {
        if text_lt(y, x) {
            lemma_text_lt_transitive(y, x, z);
        }
        if text_lt(z, y) {
            lemma_text_lt_transitive(x, z, y);
        }
        lemma_text_lt_irreflexive(z);
        lemma_text_lt_irreflexive(y);
    }
}

proof fn lemma_before_asymmetric(a: RankedUpload, b: RankedUpload)
    requires
        comes_before(a, b),
    ensures
        !comes_before(b, a),
{
    if a.rank == b.rank && text_lt(b.upload.key, a.upload.key) {
        lemma_text_lt_transitive(a.upload.key, b.upload.key, a.upload.key);
        lemma_text_lt_irreflexive(a.upload.key);
    }
}

/// Whether no upload stands behind one that it comes before.
pub open spec fn stands_in_order(uploads: Seq<RankedUpload>) -> bool {
    forall|i: int, j: int|
        0 <= i < j < uploads.len() ==> !#[trigger] comes_before(uploads[j], uploads[i])
}

proof fn lemma_insertion_place(ordered: Seq<RankedUpload>, item: RankedUpload, count: int)
    requires
        0 <= count <= ordered.len(),
    ensures
        0 <= insertion_place(ordered, item, count) <= count,
        insertion_place(ordered, item, count) > 0 ==> !comes_before(
            item,
            ordered[insertion_place(ordered, item, count) - 1],
        ),
        forall|i: int|
            insertion_place(ordered, item, count) <= i < count ==> comes_before(
                item,
                #[trigger] ordered[i],
            ),
    decreases count,
{
    if count > 0 && comes_before(item, ordered[count - 1]) {
        lemma_insertion_place(ordered, item, count - 1);
    }
}

/// Ordering uploads puts them in order, and neither loses nor adds one.
pub proof fn lemma_in_order(uploads: Seq<RankedUpload>)
    ensures
        stands_in_order(in_order(uploads)),
        in_order(uploads).to_multiset() == uploads.to_multiset(),
        unranked(in_order(uploads)).to_multiset() == unranked(uploads).to_multiset(),
    decreases uploads.len(),
{
    broadcast use vstd::seq_lib::group_to_multiset_ensures;

    if uploads.len() > 0 {
        let item = uploads.last();
        let ordered = in_order(uploads.drop_last());
        lemma_in_order(uploads.drop_last());
        let place = insertion_place(ordered, item, ordered.len() as int);
        lemma_insertion_place(ordered, item, ordered.len() as int);
        let result = ordered.insert(place, item);
        assert forall|i: int, j: int| 0 <= i < j < result.len() implies !#[trigger] comes_before(
            result[j],
            result[i],
        ) by {
            if j == place {
                let last = ordered[place - 1];
                if i < place - 1 {
                    assert(!comes_before(last, ordered[i]));
                    lemma_not_before_transitive(item, last, ordered[i]);
                }
            } else if i == place {
                lemma_before_asymmetric(item, ordered[j - 1]);
            } else {
                let (k, l) = (if i < place { i } else { i - 1 }, if j < place { j } else { j - 1 });
                assert(result[i] == ordered[k] && result[j] == ordered[l]);
                assert(!comes_before(ordered[l], ordered[k]));
            }
        }
        assert(uploads =~= uploads.drop_last().push(item));
        vstd::seq_lib::to_multiset_build(uploads.drop_last(), item);
        vstd::seq_lib::to_multiset_insert(ordered, place, item);
        assert(unranked(uploads) =~= unranked(uploads.drop_last()).push(item.upload));
        vstd::seq_lib::to_multiset_build(unranked(uploads.drop_last()), item.upload);
        assert(unranked(result) =~= unranked(ordered).insert(place, item.upload));
        vstd::seq_lib::to_multiset_insert(unranked(ordered), place, item.upload);
    } else {
        assert(unranked(uploads) =~= unranked(in_order(uploads)));
        assert(uploads =~= in_order(uploads));
    }
}

proof fn lemma_same_members(uploads: Seq<RankedUpload>, i: int)
    requires
        0 <= i < in_order(uploads).len(),
    ensures
        uploads.contains(in_order(uploads)[i]),
{
    lemma_in_order(uploads);
    vstd::seq_lib::to_multiset_contains(in_order(uploads), in_order(uploads)[i]);
    vstd::seq_lib::to_multiset_contains(uploads, in_order(uploads)[i]);
}

/// Ordering the files of a repository by rank puts package files first and the index that
/// makes them known last. No upload is lost or added.
pub proof fn lemma_repository_uploads_in_order(
    system: PackageSystem,
    uploads: Seq<PlannedUploadView>,
)
    ensures
        ({
            let ordered = unranked(in_order(repository_ranked(system, uploads)));
            &&& ordered.to_multiset() == uploads.to_multiset()
            &&& forall|i: int, j: int|
                0 <= i < j < ordered.len() ==> repository_rank(
                    system,
                    (#[trigger] ordered[i]).key,
                ) <= repository_rank(system, (#[trigger] ordered[j]).key)
        }),
{
    let ranked = repository_ranked(system, uploads);
    let sorted = in_order(ranked);
    let ordered = unranked(sorted);
    lemma_in_order(ranked);
    assert(unranked(ranked) =~= uploads);
    assert forall|i: int, j: int| 0 <= i < j < ordered.len() implies repository_rank(
        system,
        (#[trigger] ordered[i]).key,
    ) <= repository_rank(system, (#[trigger] ordered[j]).key) by {
        lemma_same_members(ranked, i);
        lemma_same_members(ranked, j);
        assert(!comes_before(sorted[j], sorted[i]));
    }
}

/// Entries that may change are uploaded after everything that they may speak of. No upload is
/// lost or added.
pub proof fn lemma_publish_uploads_in_order(uploads: Seq<PlannedUploadView>)
    ensures
        ({
            let ordered = unranked(in_order(publication_ranked(uploads)));
            &&& ordered.to_multiset() == uploads.to_multiset()
            &&& forall|i: int, j: int|
                0 <= i < j < ordered.len() && (#[trigger] ordered[i]).entry ==> (
                #[trigger] ordered[j]).entry
        }),
{
    let ranked = publication_ranked(uploads);
    let sorted = in_order(ranked);
    let ordered = unranked(sorted);
    lemma_in_order(ranked);
    assert(unranked(ranked) =~= uploads);
    assert forall|i: int, j: int|
        0 <= i < j < ordered.len() && (#[trigger] ordered[i]).entry implies (
    #[trigger] ordered[j]).entry by {
        lemma_same_members(ranked, i);
        lemma_same_members(ranked, j);
        assert(!comes_before(sorted[j], sorted[i]));
        assert(sorted[i].rank == publication_rank(sorted[i].upload.entry));
        assert(sorted[j].rank == publication_rank(sorted[j].upload.entry));
    }
}

/// Whatever their rank, the files of a repository are uploaded in this order: first what is
/// never replaced, then the entries that announce it, each in the order of their keys. No
/// upload is lost or added.
pub proof fn lemma_repository_is_announced_last(
    system: PackageSystem,
    uploads: Seq<PlannedUploadView>,
)
    ensures
        ({
            let ordered = repository_order(system, uploads);
            &&& ordered.to_multiset() == uploads.to_multiset()
            &&& forall|i: int, j: int|
                0 <= i < j < ordered.len() ==> ((#[trigger] ordered[i]).entry ==> (
                #[trigger] ordered[j]).entry) && (ordered[i].entry == ordered[j].entry ==> !text_lt(
                    ordered[j].key,
                    ordered[i].key,
                ))
        }),
{
    let by_rank = unranked(in_order(repository_ranked(system, uploads)));
    let ranked = publication_ranked(by_rank);
    let sorted = in_order(ranked);
    let ordered = repository_order(system, uploads);
    lemma_repository_uploads_in_order(system, uploads);
    lemma_publish_uploads_in_order(by_rank);
    lemma_in_order(ranked);
    assert(ordered == unranked(sorted));
    assert forall|i: int, j: int| 0 <= i < j < ordered.len() implies ((
    #[trigger] ordered[i]).entry ==> (#[trigger] ordered[j]).entry) && (ordered[i].entry
        == ordered[j].entry ==> !text_lt(ordered[j].key, ordered[i].key)) by {
        lemma_same_members(ranked, i);
        lemma_same_members(ranked, j);
        assert(!comes_before(sorted[j], sorted[i]));
        assert(sorted[i].rank == publication_rank(sorted[i].upload.entry));
        assert(sorted[j].rank == publication_rank(sorted[j].upload.entry));
    }
}

/// Whether a plan is another one on condition: entries take the condition of their key, and
/// everything else stays as it was.
pub open spec fn is_conditioned(
    upload: PublishUploadPlanView,
    planned: PublishUploadPlanView,
    conditions: Map<Seq<char>, UploadConditionView>,
) -> bool {
    planned == if upload.entry {
        PublishUploadPlanView { condition: Some(conditions[upload.key]), ..upload }
    } else {
        upload
    }
}

proof fn lemma_conditioned_from(
    uploads: Seq<PublishUploadPlanView>,
    conditions: Map<Seq<char>, UploadConditionView>,
    from: int,
    done: Seq<PublishUploadPlanView>,
)
    requires
        0 <= from <= uploads.len(),
        done.len() == from,
    ensures
        conditioned_uploads(uploads, conditions, from, done) is Ok <==> forall|i: int|
            from <= i < uploads.len() && (#[trigger] uploads[i]).entry ==> conditions.contains_key(
                uploads[i].key,
            ),
        conditioned_uploads(uploads, conditions, from, done) matches Ok(planned) ==> {
            &&& planned.len() == uploads.len()
            &&& forall|i: int| 0 <= i < from ==> #[trigger] planned[i] == done[i]
            &&& forall|i: int|
                from <= i < uploads.len() ==> is_conditioned(
                    uploads[i],
                    #[trigger] planned[i],
                    conditions,
                )
        },
    decreases uploads.len() - from,
{
    if from < uploads.len() {
        let upload = uploads[from];
        if !upload.entry {
            lemma_conditioned_from(uploads, conditions, from + 1, done.push(upload));
        } else if conditions.contains_key(upload.key) {
            lemma_conditioned_from(
                uploads,
                conditions,
                from + 1,
                done.push(
                    PublishUploadPlanView { condition: Some(conditions[upload.key]), ..upload },
                ),
            );
        }
        if let Ok(planned) = conditioned_uploads(uploads, conditions, from, done) {
            assert(is_conditioned(upload, planned[from], conditions));
        }
    }
}

/// Conditions are applied exactly where every entry has one. Then each entry is uploaded on the
/// condition of its key, and every other upload stays as it was.
pub proof fn lemma_entries_are_conditioned(
    uploads: Seq<PublishUploadPlanView>,
    conditions: Map<Seq<char>, UploadConditionView>,
)
    ensures
        conditioned_uploads(uploads, conditions, 0, Seq::empty()) is Ok <==> forall|i: int|
            0 <= i < uploads.len() && (#[trigger] uploads[i]).entry ==> conditions.contains_key(
                uploads[i].key,
            ),
        conditioned_uploads(uploads, conditions, 0, Seq::empty()) matches Ok(planned) ==> {
            &&& planned.len() == uploads.len()
            &&& forall|i: int|
                0 <= i < uploads.len() ==> is_conditioned(
                    uploads[i],
                    #[trigger] planned[i],
                    conditions,
                )
        },
{
    lemma_conditioned_from(uploads, conditions, 0, Seq::empty());
}

/// Whether a planned upload of a repository is another one on condition.
pub open spec fn is_repository_conditioned(
    upload: PlannedUploadView,
    planned: PlannedUploadView,
    conditions: Map<Seq<char>, UploadConditionView>,
) -> bool {
    planned == if upload.entry {
        PlannedUploadView { condition: Some(conditions[upload.key]), ..upload }
    } else {
        upload
    }
}

proof fn lemma_repository_conditioned_from(
    uploads: Seq<PlannedUploadView>,
    conditions: Map<Seq<char>, UploadConditionView>,
    from: int,
    done: Seq<PlannedUploadView>,
)
    requires
        0 <= from <= uploads.len(),
        done.len() == from,
    ensures
        with_entry_conditions(uploads, conditions, from, done) is Ok <==> forall|i: int|
            from <= i < uploads.len() && (#[trigger] uploads[i]).entry ==> conditions.contains_key(
                uploads[i].key,
            ),
        with_entry_conditions(uploads, conditions, from, done) matches Ok(planned) ==> {
            &&& planned.len() == uploads.len()
            &&& forall|i: int| 0 <= i < from ==> #[trigger] planned[i] == done[i]
            &&& forall|i: int|
                from <= i < uploads.len() ==> is_repository_conditioned(
                    uploads[i],
                    #[trigger] planned[i],
                    conditions,
                )
        },
    decreases uploads.len() - from,
{
    if from < uploads.len() {
        let upload = uploads[from];
        if !upload.entry {
            lemma_repository_conditioned_from(uploads, conditions, from + 1, done.push(upload));
        } else if conditions.contains_key(upload.key) {
            lemma_repository_conditioned_from(
                uploads,
                conditions,
                from + 1,
                done.push(PlannedUploadView { condition: Some(conditions[upload.key]), ..upload }),
            );
        }
        if let Ok(planned) = with_entry_conditions(uploads, conditions, from, done) {
            assert(is_repository_conditioned(upload, planned[from], conditions));
        }
    }
}

/// Conditions are applied to the uploads of a repository exactly where every entry has one. Then
/// each entry is uploaded on the condition of its key, and every package file as it was planned.
pub proof fn lemma_repository_entries_are_conditioned(
    uploads: Seq<PlannedUploadView>,
    conditions: Map<Seq<char>, UploadConditionView>,
)
    ensures
        with_entry_conditions(uploads, conditions, 0, Seq::empty()) is Ok <==> forall|i: int|
            0 <= i < uploads.len() && (#[trigger] uploads[i]).entry ==> conditions.contains_key(
                uploads[i].key,
            ),
        with_entry_conditions(uploads, conditions, 0, Seq::empty()) matches Ok(planned) ==> {
            &&& planned.len() == uploads.len()
            &&& forall|i: int|
                0 <= i < uploads.len() ==> is_repository_conditioned(
                    uploads[i],
                    #[trigger] planned[i],
                    conditions,
                )
        },
{
    lemma_repository_conditioned_from(uploads, conditions, 0, Seq::empty());
}

} // verus!
