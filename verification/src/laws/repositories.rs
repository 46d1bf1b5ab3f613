//! Laws of Linux repositories: what is published stays published, and a publication that is
//! repeated changes nothing.

use core::cmp::Ordering;

use vstd::prelude::*;

use crate::laws::selection::{
    answers_versions, is_new, lemma_only_new_payloads_are_published,
    lemma_publication_is_done_once, lemma_selection_is_made, newer, not_newer, ranks_versions, versions_of,
};
use crate::manifest::PackageManifestView;
use crate::publish::{
    entry_versions, has_version, index_entries, index_versions, is_local, key_version, key_versions,
    manifest_payloads, payload_place, payload_version, publishable_payloads, remote_versions,
    retained_entries, retained_payloads, version_key, LinuxPackagePayloadView,
    LinuxPackageVersionView, RemoteDebPackageEntryView,
};
use crate::s3::{
    deb_ordering, deb_repository, indexed_entries, rpm_key_payload, rpm_key_payloads, rpm_keys,
    rpm_ordering, rpm_repository,
};
use crate::system::PackageSystem;

verus! {

proof fn lemma_entry_is_kept(
    local: Seq<LinuxPackagePayloadView>,
    remote: Seq<RemoteDebPackageEntryView>,
    i: int,
)
    requires
        0 <= i < remote.len(),
    ensures
        retained_entries(local, remote).contains(remote[i]) || is_local(local, remote[i].version),
    decreases remote.len(),
{
    let rest = remote.drop_last();
    let kept = retained_entries(local, rest);
    if i < rest.len() {
        lemma_entry_is_kept(local, rest, i);
        if !is_local(local, remote[i].version) {
            let k = choose|k: int| 0 <= k < kept.len() && kept[k] == remote[i];
            assert(kept.push(remote.last())[k] == remote[i]);
        }
    } else if !is_local(local, remote[i].version) {
        assert(kept.push(remote.last())[kept.len() as int] == remote[i]);
    }
}

proof fn lemma_payload_is_kept(
    local: Seq<LinuxPackagePayloadView>,
    remote: Seq<LinuxPackagePayloadView>,
    i: int,
)
    requires
        0 <= i < remote.len(),
    ensures
        retained_payloads(local, remote).contains(remote[i]) || is_local(
            local,
            payload_version(remote[i]),
        ),
    decreases remote.len(),
{
    let rest = remote.drop_last();
    let kept = retained_payloads(local, rest);
    if i < rest.len() {
        lemma_payload_is_kept(local, rest, i);
        if !is_local(local, payload_version(remote[i])) {
            let k = choose|k: int| 0 <= k < kept.len() && kept[k] == remote[i];
            assert(kept.push(remote.last())[k] == remote[i]);
        }
    } else if !is_local(local, payload_version(remote[i])) {
        assert(kept.push(remote.last())[kept.len() as int] == remote[i]);
    }
}

proof fn lemma_all_entries_are_kept(
    local: Seq<LinuxPackagePayloadView>,
    remote: Seq<RemoteDebPackageEntryView>,
)
    requires
        forall|i: int| 0 <= i < remote.len() ==> !is_local(local, (#[trigger] remote[i]).version),
    ensures
        retained_entries(local, remote) == remote,
    decreases remote.len(),
{
    if remote.len() > 0 {
        lemma_all_entries_are_kept(local, remote.drop_last());
        assert(remote.drop_last().push(remote.last()) =~= remote);
    } else {
        assert(retained_entries(local, remote) =~= remote);
    }
}

proof fn lemma_all_payloads_are_kept(
    local: Seq<LinuxPackagePayloadView>,
    remote: Seq<LinuxPackagePayloadView>,
)
    requires
        forall|i: int|
            0 <= i < remote.len() ==> !is_local(local, payload_version(#[trigger] remote[i])),
    ensures
        retained_payloads(local, remote) == remote,
    decreases remote.len(),
{
    if remote.len() > 0 {
        lemma_all_payloads_are_kept(local, remote.drop_last());
        assert(remote.drop_last().push(remote.last()) =~= remote);
    } else {
        assert(retained_payloads(local, remote) =~= remote);
    }
}

/// What is selected has no version that is published.
proof fn lemma_selected_is_unpublished<E>(
    order: spec_fn(Seq<char>, Seq<char>) -> Result<Ordering, E>,
    payloads: Seq<LinuxPackagePayloadView>,
    published: Seq<LinuxPackageVersionView>,
    i: int,
)
    requires
        ranks_versions(order),
        0 <= i < published.len(),
    ensures
        publishable_payloads(order, payloads, published) matches Ok(selected) ==> !is_local(
            selected,
            published[i],
        ),
{
    if let Ok(selected) = publishable_payloads(order, payloads, published) {
        if is_local(selected, published[i]) {
            broadcast use vstd::seq_lib::group_filter_ensures;

            lemma_only_new_payloads_are_published(order, payloads, published);
            let new = |payload: LinuxPackagePayloadView| is_new(order, published, payload);
            let k = choose|k: int|
                0 <= k < selected.len() && has_version(
                    #[trigger] selected[k],
                    published[i],
                );
            let payload = selected[k];
            assert(payloads.filter(new)[k] == payload);
            assert(new(payload));
            assert(version_key(published[i]) == payload_place(payload));
            assert(newer(order, payload.version, payload.version));
            assert(not_newer(order, payload.version, payload.version));
        }
    }
}

/// The versions in indexes are those of their entries.
proof fn lemma_versions_of_entries(
    contents: Seq<Seq<char>>,
    from: int,
    found: Seq<RemoteDebPackageEntryView>,
)
    ensures
        index_versions(contents, from, entry_versions(found)) == (match indexed_entries(
            contents,
            from,
            found,
        ) {
            Ok(entries) => Ok(entry_versions(entries)),
            Err(error) => Err(error),
        }),
    decreases contents.len() - from,
{
    if 0 <= from < contents.len() {
        if let Ok(entries) = index_entries(contents[from]) {
            lemma_versions_of_entries(contents, from + 1, found + entries);
            assert(entry_versions(found) + entry_versions(entries) =~= entry_versions(
                found + entries,
            ));
        }
    }
}

/// Every version in the indexes of a Debian repository stays in it: its entry is kept, or a
/// package of that version is added. Where versions are ordered, every entry is kept.
pub proof fn lemma_indexed_packages_stay(manifest: PackageManifestView, contents: Seq<Seq<char>>)
    ensures
        deb_repository(manifest, contents) matches Ok(plan) ==> {
            &&& indexed_entries(contents, 0, Seq::empty()) matches Ok(entries)
            &&& forall|i: int|
                0 <= i < entries.len() ==> plan.retained.contains(#[trigger] entries[i])
                    || is_local(plan.local, entries[i].version)
            &&& ranks_versions(deb_ordering()) ==> plan.retained == entries
        },
{
    if let Ok(plan) = deb_repository(manifest, contents) {
        let entries = indexed_entries(contents, 0, Seq::empty())->Ok_0;
        assert forall|i: int| 0 <= i < entries.len() implies plan.retained.contains(
            #[trigger] entries[i],
        ) || is_local(plan.local, entries[i].version) by {
            lemma_entry_is_kept(plan.local, entries, i);
        }
        if ranks_versions(deb_ordering()) {
            let payloads = manifest_payloads(manifest)->Ok_0;
            let none = Seq::<RemoteDebPackageEntryView>::empty();
            lemma_versions_of_entries(contents, 0, none);
            assert(entry_versions(none) =~= Seq::empty());
            let published = entry_versions(entries);
            assert forall|i: int| 0 <= i < entries.len() implies !is_local(
                plan.local,
                (#[trigger] entries[i]).version,
            ) by {
                lemma_selected_is_unpublished(deb_ordering(), payloads, published, i);
                assert(published[i] == entries[i].version);
            }
            lemma_all_entries_are_kept(plan.local, entries);
        }
    }
}

/// The payloads of the keys of an RPM repository have the versions that the keys name.
proof fn lemma_versions_of_keys(
    prefix: Seq<char>,
    keys: Seq<Seq<char>>,
    from: int,
    found: Seq<LinuxPackagePayloadView>,
)
    ensures
        key_versions(PackageSystem::Rpm, prefix, keys, from, versions_of(found)) matches Ok(
            versions,
        ) ==> rpm_key_payloads(prefix, keys, from, found) matches Ok(payloads) && versions_of(
            payloads,
        ) == versions,
    decreases keys.len() - from,
{
    if 0 <= from < keys.len() {
        if let Ok(version) = key_version(PackageSystem::Rpm, prefix, keys[from]) {
            let payload = rpm_key_payload(prefix, keys[from])->Ok_0;
            assert(payload_version(payload) == version);
            lemma_versions_of_keys(prefix, keys, from + 1, found.push(payload));
            assert(versions_of(found).push(version) =~= versions_of(found.push(payload)));
        }
    }
}

/// Every package that is stored in an RPM repository stays in it: it is kept, or a package of
/// its version is added. Where versions are ordered, everything that is stored is kept.
pub proof fn lemma_stored_packages_stay(
    manifest: PackageManifestView,
    prefix: Seq<char>,
    keys: Seq<Seq<char>>,
)
    ensures
        rpm_repository(manifest, prefix, keys) matches Ok(plan) ==> {
            &&& rpm_key_payloads(prefix, rpm_keys(keys), 0, Seq::empty()) matches Ok(stored)
            &&& forall|i: int|
                0 <= i < stored.len() ==> plan.retained.contains(#[trigger] stored[i]) || is_local(
                    plan.local,
                    payload_version(stored[i]),
                )
            &&& manifest.kind is Rpm && ranks_versions(rpm_ordering()) ==> plan.retained == stored
        },
{
    if let Ok(plan) = rpm_repository(manifest, prefix, keys) {
        let stored = rpm_key_payloads(prefix, rpm_keys(keys), 0, Seq::empty())->Ok_0;
        assert forall|i: int| 0 <= i < stored.len() implies plan.retained.contains(
            #[trigger] stored[i],
        ) || is_local(plan.local, payload_version(stored[i])) by {
            lemma_payload_is_kept(plan.local, stored, i);
        }
        if manifest.kind is Rpm && ranks_versions(rpm_ordering()) {
            let payloads = manifest_payloads(manifest)->Ok_0;
            let none = Seq::<LinuxPackagePayloadView>::empty();
            lemma_versions_of_keys(prefix, rpm_keys(keys), 0, none);
            assert(versions_of(none) =~= Seq::empty());
            let published = remote_versions(manifest.kind, prefix, rpm_keys(keys))->Ok_0;
            assert(published == versions_of(stored));
            assert forall|i: int| 0 <= i < stored.len() implies !is_local(
                plan.local,
                payload_version(#[trigger] stored[i]),
            ) by {
                lemma_selected_is_unpublished(rpm_ordering(), payloads, published, i);
                assert(published[i] == payload_version(stored[i]));
            }
            lemma_all_payloads_are_kept(plan.local, stored);
        }
    }
}

/// An RPM repository can be planned exactly where the artifacts of its manifest are packages and
/// every key of a package that is stored below its prefix tells its version.
pub proof fn lemma_rpm_plans_can_be_made(
    manifest: PackageManifestView,
    prefix: Seq<char>,
    keys: Seq<Seq<char>>,
)
    requires
        manifest.kind is Rpm,
    ensures
        rpm_repository(manifest, prefix, keys) is Ok <==> manifest_payloads(manifest) is Ok
            && remote_versions(PackageSystem::Rpm, prefix, rpm_keys(keys)) is Ok,
{
    if manifest_payloads(manifest) is Ok && remote_versions(
        PackageSystem::Rpm,
        prefix,
        rpm_keys(keys),
    ) is Ok {
        let payloads = manifest_payloads(manifest)->Ok_0;
        let published = remote_versions(PackageSystem::Rpm, prefix, rpm_keys(keys))->Ok_0;
        lemma_selection_is_made(rpm_ordering(), payloads, published);
        let none = Seq::<LinuxPackagePayloadView>::empty();
        lemma_versions_of_keys(prefix, rpm_keys(keys), 0, none);
        assert(versions_of(none) =~= Seq::empty());
    }
}

/// A Debian repository can be planned where its manifest is one of Debian packages, every index
/// can be read, and the versions of each package and architecture can be compared; and only
/// where the first two hold.
pub proof fn lemma_deb_plans_can_be_made(manifest: PackageManifestView, contents: Seq<Seq<char>>)
    ensures
        deb_repository(manifest, contents) is Ok ==> manifest.kind is Deb && manifest_payloads(
            manifest,
        ) is Ok && index_versions(contents, 0, Seq::empty()) is Ok,
        manifest.kind is Deb && manifest_payloads(manifest) is Ok && index_versions(
            contents,
            0,
            Seq::empty(),
        ) is Ok && answers_versions(
            deb_ordering(),
            manifest_payloads(manifest)->Ok_0,
            index_versions(contents, 0, Seq::empty())->Ok_0,
        ) ==> deb_repository(manifest, contents) is Ok,
{
    let none = Seq::<RemoteDebPackageEntryView>::empty();
    lemma_versions_of_entries(contents, 0, none);
    assert(entry_versions(none) =~= Seq::empty());
    if manifest.kind is Deb && manifest_payloads(manifest) is Ok && index_versions(
        contents,
        0,
        Seq::empty(),
    ) is Ok {
        let payloads = manifest_payloads(manifest)->Ok_0;
        let published = index_versions(contents, 0, Seq::empty())->Ok_0;
        if answers_versions(deb_ordering(), payloads, published) {
            lemma_selection_is_made(deb_ordering(), payloads, published);
        }
    }
}

/// A publication that is repeated once its indexes are stored adds nothing to a Debian
/// repository and takes nothing from it.
pub proof fn lemma_repeated_publication_changes_nothing(
    manifest: PackageManifestView,
    contents: Seq<Seq<char>>,
    stored: Seq<Seq<char>>,
)
    requires
        ranks_versions(deb_ordering()),
        deb_repository(manifest, contents) matches Ok(plan) && index_versions(
            stored,
            0,
            Seq::empty(),
        ) matches Ok(versions) && versions == entry_versions(plan.retained) + versions_of(
            plan.local,
        ),
    ensures
        deb_repository(manifest, stored) matches Ok(again) ==> again.local == Seq::<
            LinuxPackagePayloadView,
        >::empty() && entry_versions(again.retained) == index_versions(
            stored,
            0,
            Seq::empty(),
        )->Ok_0,
{
    if let Ok(again) = deb_repository(manifest, stored) {
        let plan = deb_repository(manifest, contents)->Ok_0;
        let payloads = manifest_payloads(manifest)->Ok_0;
        let none = Seq::<RemoteDebPackageEntryView>::empty();
        assert(entry_versions(none) =~= Seq::empty());
        lemma_versions_of_entries(contents, 0, none);
        lemma_versions_of_entries(stored, 0, none);
        lemma_indexed_packages_stay(manifest, contents);
        lemma_indexed_packages_stay(manifest, stored);
        let published = index_versions(contents, 0, Seq::empty())->Ok_0;
        assert(published == entry_versions(plan.retained));
        lemma_publication_is_done_once(deb_ordering(), payloads, published);
    }
}

} // verus!
