//! Laws of what a repository is filled with: everything that is published goes into it again,
//! and so does everything that is new.

use vstd::prelude::*;

use crate::contract::ReleaseContract;
use crate::laws::keys::{lacks, lemma_key_below, lemma_three_names};
use crate::laws::repositories::{lemma_indexed_packages_stay, lemma_stored_packages_stay};
use crate::laws::selection::{is_new, lemma_only_new_payloads_are_published, ranks_versions};
use crate::manifest::{PackageArtifactView, PackageManifestView};
use crate::path::path_join;
use crate::publication::{
    advanced, PublicationActionView, PublicationEventView, PublicationStageView,
    PublicationView,
};
use crate::publish::{
    artifact_payload, artifact_payloads, has_version, index_entries, index_versions, is_local, manifest_payloads,
    payload_version, remote_versions, LinuxPackagePayloadView,
    RemoteDebPackageEntriesFromPackagesErrorView, RemoteDebPackageEntryView, S3PublishTargetView,
    UploadConditionView,
};
use crate::s3::{
    deb_ordering, deb_repository, indexed_entries, rpm_downloads, rpm_key_payload, rpm_key_payloads, rpm_keys,
    rpm_ordering, rpm_repository, DebRepositoryPlanView, FileCopyView, ObjectDownloadView,
    RpmRepositoryPlanView,
};
use crate::text::has_suffix;

verus! {

/// Where a package of an RPM repository stands in its directory: below the names of the
/// package and of the version.
pub open spec fn rpm_place(
    directory: Seq<char>,
    package: Seq<char>,
    version: Seq<char>,
    name: Seq<char>,
) -> Seq<char> {
    path_join(path_join(path_join(directory, package), version), name)
}

/// Where a package of a Debian repository stands in its directory: in the pool, below the first
/// letter and the name of the package.
pub open spec fn deb_place(directory: Seq<char>, package: Seq<char>, name: Seq<char>) -> Seq<char> {
    path_join(
        directory,
        path_join(
            path_join(path_join(path_join("pool"@, "main"@), seq![package[0]]), package),
            name,
        ),
    )
}

proof fn lemma_downloads_from(
    directory: Seq<char>,
    prefix: Seq<char>,
    retained: Seq<LinuxPackagePayloadView>,
    from: int,
    found: Seq<ObjectDownloadView>,
)
    requires
        0 <= from <= retained.len(),
    ensures
        rpm_downloads(directory, prefix, retained, from, found) matches Ok(downloads)
            && downloads.len() == found.len() + retained.len() - from && (forall|i: int|
            0 <= i < found.len() ==> downloads[i] == #[trigger] found[i]) && (forall|i: int|
            from <= i < retained.len() ==> downloads[found.len() + i - from] == (
            ObjectDownloadView {
                key: prefix + "/"@ + (#[trigger] retained[i]).package + "/"@ + retained[i].version
                    + "/"@ + retained[i].archive_name,
                destination: rpm_place(
                    directory,
                    retained[i].package,
                    retained[i].version,
                    retained[i].archive_name,
                ),
            })),
    decreases retained.len() - from,
{
    if from < retained.len() {
        let payload = retained[from];
        let download = ObjectDownloadView {
            key: prefix + "/"@ + payload.package + "/"@ + payload.version + "/"@
                + payload.archive_name,
            destination: rpm_place(
                directory,
                payload.package,
                payload.version,
                payload.archive_name,
            ),
        };
        assert(download.key =~= prefix + "/"@ + (payload.package + "/"@ + payload.version + "/"@
            + payload.archive_name));
        let next = found.push(download);
        lemma_downloads_from(directory, prefix, retained, from + 1, next);
        let downloads = rpm_downloads(directory, prefix, retained, from, found)->Ok_0;
        assert(downloads == rpm_downloads(directory, prefix, retained, from + 1, next)->Ok_0);
        assert forall|i: int| 0 <= i < found.len() implies downloads[i] == #[trigger] found[i] by {
            assert(next[i] == found[i]);
        }
        assert(downloads[found.len() as int] == next[found.len() as int]);
    }
}

/// Once it has its directory, an RPM repository is filled: every package that stays is
/// downloaded from its key to its place, every new one is copied to its place, one for one and
/// in order, and nothing else.
pub proof fn lemma_rpm_repository_is_filled(
    publication: PublicationView,
    contract: ReleaseContract,
    plan: RpmRepositoryPlanView,
    directory: Seq<char>,
)
    requires
        publication.target is Rpm,
    ensures
        advanced(
            publication,
            contract,
            PublicationStageView::OpeningRpm { plan },
            PublicationEventView::Directory { path: directory },
        ) matches Ok(next) && {
            &&& next.stage == (PublicationStageView::Filling { directory, conditions: None })
            &&& next.action matches PublicationActionView::FillRepository { copies, downloads }
            &&& publication.target matches S3PublishTargetView::Rpm(target)
            &&& downloads.len() == plan.retained.len()
            &&& forall|i: int|
                0 <= i < downloads.len() ==> (#[trigger] downloads[i]).key == target.prefix + "/"@
                    + plan.retained[i].package + "/"@ + plan.retained[i].version + "/"@
                    + plan.retained[i].archive_name && downloads[i].destination == rpm_place(
                    directory,
                    plan.retained[i].package,
                    plan.retained[i].version,
                    plan.retained[i].archive_name,
                )
            &&& copies.len() == plan.local.len()
            &&& forall|i: int|
                0 <= i < copies.len() ==> (#[trigger] copies[i]).source == path_join(
                    publication.target_dir,
                    plan.local[i].path,
                ) && copies[i].destination == rpm_place(
                    directory,
                    plan.local[i].package,
                    plan.local[i].version,
                    plan.local[i].archive_name,
                )
        },
{
    if let S3PublishTargetView::Rpm(target) = publication.target {
        lemma_downloads_from(directory, target.prefix, plan.retained, 0, Seq::empty());
        let downloads = rpm_downloads(
            directory,
            target.prefix,
            plan.retained,
            0,
            Seq::empty(),
        )->Ok_0;
        assert forall|i: int| 0 <= i < downloads.len() implies (#[trigger] downloads[i]).key
            == target.prefix + "/"@ + plan.retained[i].package + "/"@ + plan.retained[i].version
            + "/"@ + plan.retained[i].archive_name && downloads[i].destination == rpm_place(
            directory,
            plan.retained[i].package,
            plan.retained[i].version,
            plan.retained[i].archive_name,
        ) by {
            let payload = plan.retained[i];
        }
    }
}

/// Once it has its directory, a Debian repository is filled: every package that stays is
/// downloaded under the name that the index gives it, every new one is copied into the pool,
/// one for one and in order, and nothing else. What was read of its metadata is kept.
pub proof fn lemma_deb_repository_is_filled(
    publication: PublicationView,
    contract: ReleaseContract,
    plan: DebRepositoryPlanView,
    conditions: Map<Seq<char>, UploadConditionView>,
    directory: Seq<char>,
)
    requires
        publication.target is Deb,
    ensures
        advanced(
            publication,
            contract,
            PublicationStageView::OpeningDeb { plan, conditions },
            PublicationEventView::Directory { path: directory },
        ) matches Ok(next) && {
            &&& next.stage == (PublicationStageView::Filling {
                directory,
                conditions: Some(conditions),
            })
            &&& next.action matches PublicationActionView::FillRepository { copies, downloads }
            &&& publication.target matches S3PublishTargetView::Deb(target)
            &&& downloads.len() == plan.retained.len()
            &&& forall|i: int|
                0 <= i < downloads.len() ==> (#[trigger] downloads[i]).key == target.prefix + "/"@
                    + plan.retained[i].filename && downloads[i].destination == path_join(
                    directory,
                    plan.retained[i].filename,
                )
            &&& copies.len() == plan.local.len()
            &&& forall|i: int|
                0 <= i < copies.len() ==> (#[trigger] copies[i]).source == path_join(
                    publication.target_dir,
                    plan.local[i].path,
                ) && (plan.local[i].package.len() > 0 ==> copies[i].destination == deb_place(
                    directory,
                    plan.local[i].package,
                    plan.local[i].archive_name,
                ))
        },
{
}

proof fn lemma_suffix_of_whole(before: Seq<char>, name: Seq<char>, suffix: Seq<char>)
    requires
        has_suffix(name, suffix),
    ensures
        has_suffix(before + name, suffix),
{
    let whole = before + name;
    assert(whole.subrange(whole.len() - suffix.len(), whole.len() as int) =~= name.subrange(
        name.len() - suffix.len(),
        name.len() as int,
    ));
}

proof fn lemma_key_is_listed(keys: Seq<Seq<char>>, i: int)
    requires
        0 <= i < keys.len(),
        has_suffix(keys[i], ".rpm"@),
    ensures
        rpm_keys(keys).contains(keys[i]),
    decreases keys.len(),
{
    let rest = rpm_keys(keys.drop_last());
    if i < keys.len() - 1 {
        lemma_key_is_listed(keys.drop_last(), i);
        let k = choose|k: int| 0 <= k < rest.len() && rest[k] == keys[i];
        if has_suffix(keys.last(), ".rpm"@) {
            assert(rest.push(keys.last())[k] == keys[i]);
        }
    } else {
        assert(rest.push(keys.last())[rest.len() as int] == keys[i]);
    }
}

proof fn lemma_payloads_of_keys(
    prefix: Seq<char>,
    keys: Seq<Seq<char>>,
    from: int,
    found: Seq<LinuxPackagePayloadView>,
)
    requires
        0 <= from <= keys.len(),
    ensures
        rpm_key_payloads(prefix, keys, from, found) matches Ok(payloads) ==> {
            &&& payloads.len() == found.len() + keys.len() - from
            &&& forall|i: int| 0 <= i < found.len() ==> payloads[i] == #[trigger] found[i]
            &&& forall|i: int|
                from <= i < keys.len() ==> (rpm_key_payload(prefix, #[trigger] keys[i]) matches Ok(
                    payload,
                ) && payloads[found.len() + i - from] == payload)
        },
    decreases keys.len() - from,
{
    if from < keys.len() {
        if let Ok(payload) = rpm_key_payload(prefix, keys[from]) {
            let next = found.push(payload);
            lemma_payloads_of_keys(prefix, keys, from + 1, next);
            if let Ok(payloads) = rpm_key_payloads(prefix, keys, from, found) {
                assert forall|i: int| 0 <= i < found.len() implies payloads[i]
                    == #[trigger] found[i] by {
                    assert(next[i] == found[i]);
                }
                assert(payloads[found.len() as int] == next[found.len() as int]);
            }
        }
    }
}

/// A package that is stored is kept, or a new package of its version is added; where versions
/// are ordered, it is kept.
proof fn lemma_stored_payload_stays(
    manifest: PackageManifestView,
    prefix: Seq<char>,
    keys: Seq<Seq<char>>,
    i: int,
    package: Seq<char>,
    version: Seq<char>,
    name: Seq<char>,
)
    requires
        0 <= i < keys.len(),
        keys[i] == prefix + "/"@ + package + "/"@ + version + "/"@ + name,
        lacks(package, '/'),
        lacks(version, '/'),
        lacks(name, '/'),
        has_suffix(name, ".rpm"@),
    ensures
        rpm_repository(manifest, prefix, keys) matches Ok(plan) ==> {
            &&& rpm_key_payload(prefix, keys[i]) matches Ok(stored)
            &&& stored.package == package && stored.version == version && stored.archive_name
                == name
            &&& plan.retained.contains(stored) || is_local(plan.local, payload_version(stored))
            &&& manifest.kind is Rpm && ranks_versions(rpm_ordering()) ==> plan.retained.contains(
                stored,
            )
        },
{
    if let Ok(plan) = rpm_repository(manifest, prefix, keys) {
        let relative = package + "/"@ + version + "/"@ + name;
        assert(keys[i] =~= prefix + "/"@ + relative);
        lemma_key_below(prefix, relative);
        lemma_three_names(package, version, name);
        lemma_suffix_of_whole(prefix + "/"@ + package + "/"@ + version + "/"@, name, ".rpm"@);
        lemma_key_is_listed(keys, i);
        let listed = rpm_keys(keys);
        let k = choose|k: int| 0 <= k < listed.len() && listed[k] == keys[i];
        lemma_payloads_of_keys(prefix, listed, 0, Seq::empty());
        let all = rpm_key_payloads(prefix, listed, 0, Seq::empty())->Ok_0;
        assert(rpm_key_payload(prefix, listed[k]) matches Ok(payload) && all[k] == payload);
        lemma_stored_packages_stay(manifest, prefix, keys);
        assert(plan.retained.contains(all[k]) || is_local(plan.local, payload_version(all[k])));
        if manifest.kind is Rpm && ranks_versions(rpm_ordering()) {
            assert(plan.retained[k] == all[k]);
        }
    }
}

/// Whether an object is downloaded to a place.
pub open spec fn is_downloaded(
    downloads: Seq<ObjectDownloadView>,
    key: Seq<char>,
    destination: Seq<char>,
) -> bool {
    downloads.contains(ObjectDownloadView { key, destination })
}

/// Whether a file is copied to a place.
pub open spec fn is_copied(
    copies: Seq<FileCopyView>,
    source: Seq<char>,
    destination: Seq<char>,
) -> bool {
    copies.contains(FileCopyView { source, destination })
}

/// Whether a new package of the same name, version and architecture is copied.
pub open spec fn is_replaced(
    publication: PublicationView,
    local: Seq<LinuxPackagePayloadView>,
    package: Seq<char>,
    version: Seq<char>,
    directory: Seq<char>,
    copies: Seq<FileCopyView>,
) -> bool {
    exists|i: int|
        0 <= i < local.len() && (#[trigger] local[i]).package == package && local[i].version
            == version && is_copied(
            copies,
            path_join(publication.target_dir, local[i].path),
            rpm_place(directory, package, version, local[i].archive_name),
        )
}

/// Every package that the storage lists below the prefix of an RPM repository stands in the
/// repository before its metadata is made: it is downloaded to its place, or a new package of
/// its name and version is copied there. Where versions are ordered, it is downloaded.
pub proof fn lemma_stored_rpms_are_gathered(
    publication: PublicationView,
    contract: ReleaseContract,
    keys: Seq<Seq<char>>,
    directory: Seq<char>,
    i: int,
    package: Seq<char>,
    version: Seq<char>,
    name: Seq<char>,
)
    requires
        publication.target matches S3PublishTargetView::Rpm(target) && 0 <= i < keys.len()
            && keys[i] == target.prefix + "/"@ + package + "/"@ + version + "/"@ + name,
        lacks(package, '/'),
        lacks(version, '/'),
        lacks(name, '/'),
        has_suffix(name, ".rpm"@),
    ensures
        advanced(
            publication,
            contract,
            PublicationStageView::Listing,
            PublicationEventView::Keys { keys },
        ) matches Ok(opened) ==> {
            &&& opened.action is CreateRepository
            &&& opened.stage matches PublicationStageView::OpeningRpm { plan }
            &&& advanced(
                publication,
                contract,
                opened.stage,
                PublicationEventView::Directory { path: directory },
            ) matches Ok(filled)
            &&& filled.action matches PublicationActionView::FillRepository { copies, downloads }
            &&& is_downloaded(downloads, keys[i], rpm_place(directory, package, version, name))
                || is_replaced(publication, plan.local, package, version, directory, copies)
            &&& publication.manifest.kind is Rpm && ranks_versions(rpm_ordering())
                ==> is_downloaded(
                downloads,
                keys[i],
                rpm_place(directory, package, version, name),
            )
        },
{
    if let Ok(opened) = advanced(
        publication,
        contract,
        PublicationStageView::Listing,
        PublicationEventView::Keys { keys },
    ) {
        let prefix = publication.target->Rpm_0.prefix;
        let plan = opened.stage->OpeningRpm_plan;
        lemma_stored_payload_stays(
            publication.manifest,
            prefix,
            keys,
            i,
            package,
            version,
            name,
        );
        let stored = rpm_key_payload(prefix, keys[i])->Ok_0;
        lemma_rpm_repository_is_filled(publication, contract, plan, directory);
        let filled = advanced(
            publication,
            contract,
            PublicationStageView::OpeningRpm { plan },
            PublicationEventView::Directory { path: directory },
        )->Ok_0;
        let copies = filled.action->copies;
        let downloads = filled.action->downloads;
        let place = rpm_place(directory, package, version, name);
        if plan.retained.contains(stored) {
            let j = choose|j: int| 0 <= j < plan.retained.len() && plan.retained[j] == stored;
            assert(downloads[j].key == keys[i]);
            assert(downloads[j] == (ObjectDownloadView { key: keys[i], destination: place }));
            assert(is_downloaded(downloads, keys[i], place));
        } else {
            let wanted = payload_version(stored);
            let j = choose|j: int|
                0 <= j < plan.local.len() && has_version(#[trigger] plan.local[j], wanted);
            let payload = plan.local[j];
            assert(copies[j].source == path_join(publication.target_dir, payload.path));
            assert(copies[j] == (FileCopyView {
                source: path_join(publication.target_dir, payload.path),
                destination: rpm_place(directory, package, version, payload.archive_name),
            }));
            assert(is_replaced(publication, plan.local, package, version, directory, copies));
        }
    }
}

proof fn lemma_entries_of_indexes(
    contents: Seq<Seq<char>>,
    from: int,
    found: Seq<RemoteDebPackageEntryView>,
)
    requires
        0 <= from <= contents.len(),
    ensures
        indexed_entries(contents, from, found) matches Ok(all) ==> {
            &&& forall|i: int| 0 <= i < found.len() ==> all.contains(#[trigger] found[i])
            &&& forall|j: int|
                from <= j < contents.len() ==> (index_entries(#[trigger] contents[j]) matches Ok(
                    entries,
                ) && forall|i: int|
                    0 <= i < entries.len() ==> all.contains(#[trigger] entries[i]))
        },
    decreases contents.len() - from,
{
    if from < contents.len() {
        if let Ok(entries) = index_entries(contents[from]) {
            let next = found + entries;
            lemma_entries_of_indexes(contents, from + 1, next);
            if let Ok(all) = indexed_entries(contents, from, found) {
                assert forall|i: int| 0 <= i < found.len() implies all.contains(
                    #[trigger] found[i],
                ) by {
                    assert(next[i] == found[i]);
                }
                assert forall|i: int| 0 <= i < entries.len() implies all.contains(
                    #[trigger] entries[i],
                ) by {
                    assert(next[found.len() + i] == entries[i]);
                }
            }
        }
    }
}

/// An entry of an index is kept, or a new package of its version is added; where versions are
/// ordered, it is kept.
proof fn lemma_indexed_entry_stays(
    manifest: PackageManifestView,
    contents: Seq<Seq<char>>,
    j: int,
    entries: Seq<RemoteDebPackageEntryView>,
    i: int,
)
    requires
        0 <= j < contents.len(),
        index_entries(contents[j]) == Ok::<_, RemoteDebPackageEntriesFromPackagesErrorView>(
            entries,
        ),
        0 <= i < entries.len(),
    ensures
        deb_repository(manifest, contents) matches Ok(plan) ==> {
            &&& plan.retained.contains(entries[i]) || is_local(plan.local, entries[i].version)
            &&& ranks_versions(deb_ordering()) ==> plan.retained.contains(entries[i])
        },
{
    if let Ok(plan) = deb_repository(manifest, contents) {
        let all = indexed_entries(contents, 0, Seq::empty())->Ok_0;
        lemma_indexed_packages_stay(manifest, contents);
        lemma_entries_of_indexes(contents, 0, Seq::empty());
        assert(index_entries(contents[j]) matches Ok(found) && all.contains(found[i]));
        let k = choose|k: int| 0 <= k < all.len() && all[k] == entries[i];
        assert(plan.retained.contains(all[k]) || is_local(plan.local, all[k].version));
        if ranks_versions(deb_ordering()) {
            assert(plan.retained[k] == entries[i]);
        }
    }
}

/// Every package that an index of a Debian repository names stands in the repository before its
/// metadata is made: it is downloaded under the name that the index gives it, or a new package
/// of its name, version and architecture is copied. Where versions are ordered, it is
/// downloaded.
pub proof fn lemma_indexed_debs_are_gathered(
    publication: PublicationView,
    contract: ReleaseContract,
    contents: Seq<Seq<char>>,
    conditions: Map<Seq<char>, UploadConditionView>,
    directory: Seq<char>,
    j: int,
    entries: Seq<RemoteDebPackageEntryView>,
    i: int,
)
    requires
        publication.target is Deb,
        0 <= j < contents.len(),
        index_entries(contents[j]) == Ok::<
            _,
            RemoteDebPackageEntriesFromPackagesErrorView,
        >(entries),
        0 <= i < entries.len(),
    ensures
        advanced(
            publication,
            contract,
            PublicationStageView::Indexing,
            PublicationEventView::Indexes { contents },
        ) matches Ok(planned) ==> {
            &&& planned.stage matches PublicationStageView::Conditioning { plan }
            &&& advanced(
                publication,
                contract,
                planned.stage,
                PublicationEventView::Conditions { conditions },
            ) matches Ok(opened)
            &&& opened.action is CreateRepository
            &&& advanced(
                publication,
                contract,
                opened.stage,
                PublicationEventView::Directory { path: directory },
            ) matches Ok(filled)
            &&& filled.action matches PublicationActionView::FillRepository { copies, downloads }
            &&& publication.target matches S3PublishTargetView::Deb(target)
            &&& is_local(plan.local, entries[i].version) || is_downloaded(
                downloads,
                target.prefix + "/"@ + entries[i].filename,
                path_join(directory, entries[i].filename),
            )
            &&& ranks_versions(deb_ordering()) ==> is_downloaded(
                downloads,
                target.prefix + "/"@ + entries[i].filename,
                path_join(directory, entries[i].filename),
            )
        },
{
    if let Ok(planned) = advanced(
        publication,
        contract,
        PublicationStageView::Indexing,
        PublicationEventView::Indexes { contents },
    ) {
        let plan = planned.stage->Conditioning_plan;
        lemma_indexed_entry_stays(publication.manifest, contents, j, entries, i);
        lemma_deb_repository_is_filled(publication, contract, plan, conditions, directory);
        let prefix = publication.target->Deb_0.prefix;
        let filled = advanced(
            publication,
            contract,
            PublicationStageView::OpeningDeb { plan, conditions },
            PublicationEventView::Directory { path: directory },
        )->Ok_0;
        let downloads = filled.action->downloads;
        if plan.retained.contains(entries[i]) {
            let n = choose|n: int| 0 <= n < plan.retained.len() && plan.retained[n] == entries[i];
            assert(downloads[n] == (ObjectDownloadView {
                key: prefix + "/"@ + entries[i].filename,
                destination: path_join(directory, entries[i].filename),
            }));
        }
    }
}

proof fn lemma_payloads_of_artifacts(
    artifacts: Seq<PackageArtifactView>,
    from: int,
    found: Seq<LinuxPackagePayloadView>,
)
    requires
        0 <= from <= artifacts.len(),
    ensures
        artifact_payloads(artifacts, from, found) matches Ok(payloads) ==> {
            &&& payloads.len() == found.len() + artifacts.len() - from
            &&& forall|i: int| 0 <= i < found.len() ==> payloads[i] == #[trigger] found[i]
            &&& forall|i: int|
                from <= i < artifacts.len() ==> {
                    let payload = payloads[found.len() + i - from];
                    &&& (#[trigger] artifacts[i]).package_name == Some(payload.package)
                    &&& artifacts[i].package_version == Some(payload.version)
                    &&& artifacts[i].architecture == Some(payload.architecture)
                    &&& artifacts[i].archive_name == Some(payload.archive_name)
                    &&& artifacts[i].path == payload.path
                }
        },
    decreases artifacts.len() - from,
{
    if from < artifacts.len() {
        if let Ok(payload) = artifact_payload(artifacts[from]) {
            let next = found.push(payload);
            lemma_payloads_of_artifacts(artifacts, from + 1, next);
            if let Ok(payloads) = artifact_payloads(artifacts, from, found) {
                assert forall|i: int| 0 <= i < found.len() implies payloads[i]
                    == #[trigger] found[i] by {
                    assert(next[i] == found[i]);
                }
                assert(payloads[found.len() as int] == next[found.len() as int]);
            }
        }
    }
}

/// The payloads of a manifest are its artifacts, one for one and in order: package, version,
/// architecture, file name and path are theirs.
pub proof fn lemma_payloads_are_the_artifacts(manifest: PackageManifestView)
    ensures
        manifest_payloads(manifest) matches Ok(payloads) ==> payloads.len()
            == manifest.artifacts.len() && forall|i: int|
            0 <= i < payloads.len() ==> {
                let artifact = manifest.artifacts[i];
                &&& artifact.package_name == Some((#[trigger] payloads[i]).package)
                &&& artifact.package_version == Some(payloads[i].version)
                &&& artifact.architecture == Some(payloads[i].architecture)
                &&& artifact.archive_name == Some(payloads[i].archive_name)
                &&& artifact.path == payloads[i].path
            },
{
    lemma_payloads_of_artifacts(manifest.artifacts, 0, Seq::empty());
    if let Ok(payloads) = manifest_payloads(manifest) {
        assert forall|i: int| 0 <= i < payloads.len() implies manifest.artifacts[i].package_name
            == Some((#[trigger] payloads[i]).package) && manifest.artifacts[i].package_version
            == Some(payloads[i].version) && manifest.artifacts[i].architecture == Some(
            payloads[i].architecture,
        ) && manifest.artifacts[i].archive_name == Some(payloads[i].archive_name)
            && manifest.artifacts[i].path == payloads[i].path by {
            assert(payloads[0 + i - 0] == payloads[i]);
        }
    }
}

proof fn lemma_filtered_contains<T>(items: Seq<T>, wanted: spec_fn(T) -> bool, i: int)
    requires
        0 <= i < items.len(),
        wanted(items[i]),
    ensures
        items.filter(wanted).contains(items[i]),
    decreases items.len(),
{
    reveal(Seq::filter);
    let rest = items.drop_last();
    if i < rest.len() {
        lemma_filtered_contains(rest, wanted, i);
        let k = choose|k: int| 0 <= k < rest.filter(wanted).len() && rest.filter(wanted)[k]
            == items[i];
        assert(items.filter(wanted)[k] == items[i]);
    } else {
        assert(items.filter(wanted)[rest.filter(wanted).len() as int] == items[i]);
    }
}

/// Where versions are ordered, every package of a manifest that is newer than all that the
/// storage lists for its name and architecture is copied into its RPM repository.
pub proof fn lemma_new_rpms_are_gathered(
    publication: PublicationView,
    contract: ReleaseContract,
    keys: Seq<Seq<char>>,
    directory: Seq<char>,
    i: int,
)
    requires
        publication.target is Rpm,
        ranks_versions(rpm_ordering()),
        0 <= i < publication.manifest.artifacts.len(),
    ensures
        advanced(
            publication,
            contract,
            PublicationStageView::Listing,
            PublicationEventView::Keys { keys },
        ) matches Ok(opened) ==> {
            let artifact = publication.manifest.artifacts[i];
            &&& publication.target matches S3PublishTargetView::Rpm(target)
            &&& remote_versions(publication.manifest.kind, target.prefix, rpm_keys(keys)) matches Ok(
                published,
            )
            &&& manifest_payloads(publication.manifest) matches Ok(payloads)
            &&& advanced(
                publication,
                contract,
                opened.stage,
                PublicationEventView::Directory { path: directory },
            ) matches Ok(filled)
            &&& filled.action matches PublicationActionView::FillRepository { copies, downloads }
            &&& is_new(rpm_ordering(), published, payloads[i]) ==> is_copied(
                copies,
                path_join(publication.target_dir, artifact.path),
                rpm_place(
                    directory,
                    artifact.package_name->0,
                    artifact.package_version->0,
                    artifact.archive_name->0,
                ),
            )
        },
{
    if let Ok(opened) = advanced(
        publication,
        contract,
        PublicationStageView::Listing,
        PublicationEventView::Keys { keys },
    ) {
        let prefix = publication.target->Rpm_0.prefix;
        let plan = opened.stage->OpeningRpm_plan;
        let payloads = manifest_payloads(publication.manifest)->Ok_0;
        let published = remote_versions(
            publication.manifest.kind,
            prefix,
            rpm_keys(keys),
        )->Ok_0;
        lemma_payloads_are_the_artifacts(publication.manifest);
        lemma_only_new_payloads_are_published(rpm_ordering(), payloads, published);
        lemma_rpm_repository_is_filled(publication, contract, plan, directory);
        if is_new(rpm_ordering(), published, payloads[i]) {
            let wanted = |payload: LinuxPackagePayloadView|
                is_new(rpm_ordering(), published, payload);
            assert(wanted(payloads[i]));
            lemma_filtered_contains(payloads, wanted, i);
            assert(plan.local == payloads.filter(wanted));
            let k = choose|k: int| 0 <= k < plan.local.len() && plan.local[k] == payloads[i];
            let filled = advanced(
                publication,
                contract,
                opened.stage,
                PublicationEventView::Directory { path: directory },
            )->Ok_0;
            let copies = filled.action->copies;
            assert(copies[k].source == path_join(publication.target_dir, payloads[i].path));
        }
    }
}

/// Where versions are ordered, every package of a manifest that is newer than all that the
/// indexes name for its name and architecture is copied into the pool of its Debian repository.
pub proof fn lemma_new_debs_are_gathered(
    publication: PublicationView,
    contract: ReleaseContract,
    contents: Seq<Seq<char>>,
    conditions: Map<Seq<char>, UploadConditionView>,
    directory: Seq<char>,
    i: int,
)
    requires
        publication.target is Deb,
        ranks_versions(deb_ordering()),
        0 <= i < publication.manifest.artifacts.len(),
    ensures
        advanced(
            publication,
            contract,
            PublicationStageView::Indexing,
            PublicationEventView::Indexes { contents },
        ) matches Ok(planned) ==> {
            let artifact = publication.manifest.artifacts[i];
            &&& index_versions(contents, 0, Seq::empty()) matches Ok(published)
            &&& manifest_payloads(publication.manifest) matches Ok(payloads)
            &&& advanced(
                publication,
                contract,
                planned.stage,
                PublicationEventView::Conditions { conditions },
            ) matches Ok(opened)
            &&& advanced(
                publication,
                contract,
                opened.stage,
                PublicationEventView::Directory { path: directory },
            ) matches Ok(filled)
            &&& filled.action matches PublicationActionView::FillRepository { copies, downloads }
            &&& is_new(deb_ordering(), published, payloads[i]) && payloads[i].package.len() > 0
                ==> is_copied(
                copies,
                path_join(publication.target_dir, artifact.path),
                deb_place(directory, artifact.package_name->0, artifact.archive_name->0),
            )
        },
{
    if let Ok(planned) = advanced(
        publication,
        contract,
        PublicationStageView::Indexing,
        PublicationEventView::Indexes { contents },
    ) {
        let plan = planned.stage->Conditioning_plan;
        let payloads = manifest_payloads(publication.manifest)->Ok_0;
        let published = index_versions(contents, 0, Seq::empty())->Ok_0;
        lemma_payloads_are_the_artifacts(publication.manifest);
        lemma_only_new_payloads_are_published(deb_ordering(), payloads, published);
        lemma_deb_repository_is_filled(publication, contract, plan, conditions, directory);
        if is_new(deb_ordering(), published, payloads[i]) && payloads[i].package.len() > 0 {
            let wanted = |payload: LinuxPackagePayloadView|
                is_new(deb_ordering(), published, payload);
            assert(wanted(payloads[i]));
            lemma_filtered_contains(payloads, wanted, i);
            assert(plan.local == payloads.filter(wanted));
            let k = choose|k: int| 0 <= k < plan.local.len() && plan.local[k] == payloads[i];
            let opened = advanced(
                publication,
                contract,
                planned.stage,
                PublicationEventView::Conditions { conditions },
            )->Ok_0;
            let filled = advanced(
                publication,
                contract,
                opened.stage,
                PublicationEventView::Directory { path: directory },
            )->Ok_0;
            let copies = filled.action->copies;
            assert(copies[k].source == path_join(publication.target_dir, payloads[i].path));
        }
    }
}

} // verus!
