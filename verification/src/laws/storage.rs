//! Laws of what the storage says: what is read of its indexes and of its keys, and when it says
//! that something is missing.

use core::cmp::Ordering;

use vstd::prelude::*;

use crate::laws::selection::{is_new, lemma_only_new_payloads_are_published, newer, ranks_versions};
use crate::manifest::PackageManifestView;
use crate::publish::{
    deb_key_version, entry_versions, field_value, index_entries, index_versions, key_below,
    key_entries, manifest_payloads, payload_place, publishable_by_indexes,
    publishable_by_indexes_and_keys, publishable_by_keys, remote_versions, stanza_entries,
    stanza_entry, version_key, LinuxPackagePayloadView, LinuxPackageVersionView,
    RemoteDebPackageEntriesFromPackagesErrorView, RemoteDebPackageEntryView,
    RemoteDebPayloadVersionFromKeyErrorView,
};
use crate::s3::{
    deb_compared, deb_order, lowered, parsed_deb_version, rpm_compared, rpm_order,
    says_object_missing,
};
use crate::text::{contains_text, pieces, trimmed_space};

verus! {

/// An entry of an index says what its stanza says, each in its own field. A stanza that lacks one
/// of them is refused, by the name of the first that it lacks.
pub proof fn lemma_entries_say_what_stanzas_say(stanza: Seq<char>)
    ensures
        stanza_entry(stanza) matches Ok(entry) ==> {
            &&& field_value(stanza, "Package"@) == Some(entry.version.package)
            &&& field_value(stanza, "Version"@) == Some(entry.version.version)
            &&& field_value(stanza, "Architecture"@) == Some(entry.version.architecture)
            &&& field_value(stanza, "Filename"@) == Some(entry.filename)
        },
        stanza_entry(stanza) matches Err(
            RemoteDebPackageEntriesFromPackagesErrorView::MissingField { field },
        ) ==> field_value(stanza, field) is None && (field == "Package"@ || field == "Version"@
            || field == "Architecture"@ || field == "Filename"@),
        field_value(stanza, "Package"@) is Some && field_value(stanza, "Version"@) is Some
            && field_value(stanza, "Architecture"@) is Some && field_value(stanza, "Filename"@)
            is Some ==> stanza_entry(stanza) is Ok,
{
}

proof fn lemma_stanzas_from(
    stanzas: Seq<Seq<char>>,
    from: int,
    found: Seq<RemoteDebPackageEntryView>,
)
    requires
        0 <= from <= stanzas.len(),
    ensures
        stanza_entries(stanzas, from, found) matches Ok(entries) ==> {
            &&& forall|i: int| 0 <= i < found.len() ==> entries.contains(#[trigger] found[i])
            &&& forall|i: int|
                from <= i < stanzas.len() && trimmed_space(#[trigger] stanzas[i]).len() > 0 ==> (
                stanza_entry(trimmed_space(stanzas[i])) matches Ok(entry) && entries.contains(
                    entry,
                ))
        },
        (forall|i: int|
            from <= i < stanzas.len() && trimmed_space(#[trigger] stanzas[i]).len() > 0
                ==> stanza_entry(trimmed_space(stanzas[i])) is Ok) ==> stanza_entries(
            stanzas,
            from,
            found,
        ) is Ok,
    decreases stanzas.len() - from,
{
    if from < stanzas.len() {
        let stanza = trimmed_space(stanzas[from]);
        if stanza.len() == 0 {
            lemma_stanzas_from(stanzas, from + 1, found);
        } else if let Ok(entry) = stanza_entry(stanza) {
            let next = found.push(entry);
            lemma_stanzas_from(stanzas, from + 1, next);
            if let Ok(entries) = stanza_entries(stanzas, from, found) {
                assert forall|i: int| 0 <= i < found.len() implies entries.contains(
                    #[trigger] found[i],
                ) by {
                    assert(next[i] == found[i]);
                }
                assert(next[found.len() as int] == entry);
            }
        }
    }
}

/// Every stanza of an index, blank ones aside, is an entry; an index is read exactly where all
/// of them are.
pub proof fn lemma_every_stanza_is_an_entry(content: Seq<char>)
    ensures
        index_entries(content) matches Ok(entries) ==> forall|i: int|
            0 <= i < pieces(content, "\n\n"@).len() && trimmed_space(
                #[trigger] pieces(content, "\n\n"@)[i],
            ).len() > 0 ==> (stanza_entry(
                trimmed_space(pieces(content, "\n\n"@)[i]),
            ) matches Ok(entry) && entries.contains(entry)),
        (forall|i: int|
            0 <= i < pieces(content, "\n\n"@).len() && trimmed_space(
                #[trigger] pieces(content, "\n\n"@)[i],
            ).len() > 0 ==> stanza_entry(trimmed_space(pieces(content, "\n\n"@)[i])) is Ok)
            ==> index_entries(content) is Ok,
{
    lemma_stanzas_from(pieces(content, "\n\n"@), 0, Seq::empty());
}

/// Where versions are ordered, what is selected by the indexes and by the keys together is newer
/// than what either of them names for its package and architecture.
pub proof fn lemma_indexes_and_keys_both_count<E>(
    order: spec_fn(Seq<char>, Seq<char>) -> Result<Ordering, E>,
    manifest: PackageManifestView,
    contents: Seq<Seq<char>>,
    prefix: Seq<char>,
    keys: Seq<Seq<char>>,
)
    requires
        ranks_versions(order),
    ensures
        publishable_by_indexes_and_keys(order, manifest, contents, prefix, keys) matches Ok(
            selected,
        ) ==> {
            &&& index_versions(contents, 0, Seq::empty()) matches Ok(indexed)
            &&& key_entries(prefix, keys, 0, Seq::empty()) matches Ok(stored)
            &&& manifest_payloads(manifest) matches Ok(payloads)
            &&& selected == payloads.filter(
                |payload: LinuxPackagePayloadView|
                    is_new(order, indexed, payload) && is_new(
                        order,
                        entry_versions(stored),
                        payload,
                    ),
            )
        },
{
    if let Ok(selected) = publishable_by_indexes_and_keys(
        order,
        manifest,
        contents,
        prefix,
        keys,
    ) {
        let indexed = index_versions(contents, 0, Seq::empty())->Ok_0;
        let stored = entry_versions(key_entries(prefix, keys, 0, Seq::empty())->Ok_0);
        let payloads = manifest_payloads(manifest)->Ok_0;
        let all = indexed + stored;
        lemma_only_new_payloads_are_published(order, payloads, all);
        let new = |payload: LinuxPackagePayloadView| is_new(order, all, payload);
        let both = |payload: LinuxPackagePayloadView|
            is_new(order, indexed, payload) && is_new(order, stored, payload);
        assert forall|payload: LinuxPackagePayloadView| #[trigger] new(payload) == both(
            payload,
        ) by {
            lemma_new_in_both(order, indexed, stored, payload);
        }
        assert(new =~= both);
    }
}

proof fn lemma_new_in_both<E>(
    order: spec_fn(Seq<char>, Seq<char>) -> Result<Ordering, E>,
    first: Seq<LinuxPackageVersionView>,
    second: Seq<LinuxPackageVersionView>,
    payload: LinuxPackagePayloadView,
)
    ensures
        is_new(order, first + second, payload) <==> is_new(order, first, payload) && is_new(
            order,
            second,
            payload,
        ),
{
    let all = first + second;
    if is_new(order, all, payload) {
        assert forall|i: int|
            0 <= i < first.len() && version_key(#[trigger] first[i]) == payload_place(
                payload,
            ) implies newer(order, payload.version, first[i].version) by {
            assert(all[i] == first[i]);
        }
        assert forall|i: int|
            0 <= i < second.len() && version_key(#[trigger] second[i]) == payload_place(
                payload,
            ) implies newer(order, payload.version, second[i].version) by {
            assert(all[first.len() + i] == second[i]);
        }
    }
    if is_new(order, first, payload) && is_new(order, second, payload) {
        assert forall|i: int|
            0 <= i < all.len() && version_key(#[trigger] all[i]) == payload_place(
                payload,
            ) implies newer(order, payload.version, all[i].version) by {
            if i < first.len() {
                assert(all[i] == first[i]);
            } else {
                assert(all[i] == second[i - first.len()]);
            }
        }
    }
}

/// Where versions are ordered, what is selected by the keys of what is published is exactly what
/// is newer than all that they name for its package and architecture.
pub proof fn lemma_keys_count<E>(
    order: spec_fn(Seq<char>, Seq<char>) -> Result<Ordering, E>,
    manifest: PackageManifestView,
    prefix: Seq<char>,
    keys: Seq<Seq<char>>,
)
    requires
        ranks_versions(order),
    ensures
        publishable_by_keys(order, manifest, prefix, keys) matches Ok(selected) ==> {
            &&& remote_versions(manifest.kind, prefix, keys) matches Ok(published)
            &&& manifest_payloads(manifest) matches Ok(payloads)
            &&& selected == payloads.filter(
                |payload: LinuxPackagePayloadView| is_new(order, published, payload),
            )
        },
{
    if publishable_by_keys(order, manifest, prefix, keys) is Ok {
        let published = remote_versions(manifest.kind, prefix, keys)->Ok_0;
        let payloads = manifest_payloads(manifest)->Ok_0;
        lemma_only_new_payloads_are_published(order, payloads, published);
    }
}

/// Where versions are ordered, what is selected by the published indexes is exactly what is
/// newer than all that they name for its package and architecture.
pub proof fn lemma_indexes_count<E>(
    order: spec_fn(Seq<char>, Seq<char>) -> Result<Ordering, E>,
    manifest: PackageManifestView,
    contents: Seq<Seq<char>>,
)
    requires
        ranks_versions(order),
    ensures
        publishable_by_indexes(order, manifest, contents) matches Ok(selected) ==> {
            &&& manifest.kind is Deb
            &&& index_versions(contents, 0, Seq::empty()) matches Ok(published)
            &&& manifest_payloads(manifest) matches Ok(payloads)
            &&& selected == payloads.filter(
                |payload: LinuxPackagePayloadView| is_new(order, published, payload),
            )
        },
{
    if publishable_by_indexes(order, manifest, contents) is Ok {
        let published = index_versions(contents, 0, Seq::empty())->Ok_0;
        let payloads = manifest_payloads(manifest)->Ok_0;
        lemma_only_new_payloads_are_published(order, payloads, published);
    }
}

proof fn lemma_keys_from(
    prefix: Seq<char>,
    keys: Seq<Seq<char>>,
    from: int,
    found: Seq<RemoteDebPackageEntryView>,
)
    requires
        0 <= from <= keys.len(),
    ensures
        key_entries(prefix, keys, from, found) matches Ok(entries) ==> {
            &&& entries.len() == found.len() + keys.len() - from
            &&& forall|i: int| 0 <= i < found.len() ==> entries[i] == #[trigger] found[i]
            &&& forall|i: int|
                from <= i < keys.len() ==> {
                    let entry = entries[found.len() + i - from];
                    &&& deb_key_version(prefix, #[trigger] keys[i]) == Ok::<
                        _,
                        RemoteDebPayloadVersionFromKeyErrorView,
                    >(entry.version)
                    &&& keys[i] == prefix + "/"@ + entry.filename
                }
        },
    decreases keys.len() - from,
{
    if from < keys.len() {
        if let (Ok(version), Some(filename)) = (
            deb_key_version(prefix, keys[from]),
            key_below(prefix, keys[from]),
        ) {
            let key = keys[from];
            let rest = key.skip(prefix.len() as int);
            assert(key.subrange(0, prefix.len() as int) =~= prefix);
            assert(rest.subrange(0, "/"@.len() as int) =~= "/"@);
            assert(filename == rest.skip("/"@.len() as int));
            assert(key =~= prefix + "/"@ + filename);
            let next = found.push(RemoteDebPackageEntryView { version, filename });
            lemma_keys_from(prefix, keys, from + 1, next);
            if let Ok(entries) = key_entries(prefix, keys, from, found) {
                assert forall|i: int| 0 <= i < found.len() implies entries[i]
                    == #[trigger] found[i] by {
                    assert(next[i] == found[i]);
                }
                assert(entries[found.len() as int] == next[found.len() as int]);
            }
        }
    }
}

/// The keys of published Debian packages are entries, one for one and in order: each with the
/// version that its key tells, and with the name that it has below the prefix.
pub proof fn lemma_keys_are_entries(prefix: Seq<char>, keys: Seq<Seq<char>>)
    ensures
        key_entries(prefix, keys, 0, Seq::empty()) matches Ok(entries) ==> entries.len()
            == keys.len() && forall|i: int|
            0 <= i < keys.len() ==> deb_key_version(prefix, keys[i]) == Ok::<
                _,
                RemoteDebPayloadVersionFromKeyErrorView,
            >((#[trigger] entries[i]).version) && keys[i] == prefix + "/"@ + entries[i].filename,
{
    lemma_keys_from(prefix, keys, 0, Seq::empty());
    if let Ok(entries) = key_entries(prefix, keys, 0, Seq::empty()) {
        assert forall|i: int| 0 <= i < keys.len() implies deb_key_version(prefix, keys[i]) == Ok::<
            _,
            RemoteDebPayloadVersionFromKeyErrorView,
        >((#[trigger] entries[i]).version) && keys[i] == prefix + "/"@ + entries[i].filename by {
            assert(entries[0 + i - 0] == entries[i]);
        }
    }
}

/// Two Debian versions are compared in the order in which they are given, exactly where both can
/// be read; RPM versions are always compared.
pub proof fn lemma_versions_are_compared(left: Seq<char>, right: Seq<char>)
    ensures
        deb_compared(left, right) is Ok <==> parsed_deb_version(left) is Some
            && parsed_deb_version(right) is Some,
        deb_compared(left, right) matches Ok(answer) ==> answer == deb_order(
            parsed_deb_version(left)->0,
            parsed_deb_version(right)->0,
        ),
        rpm_compared(left, right) matches Ok(answer) && answer == rpm_order(left, right),
{
}

/// The storage says that an object is missing by the code for a missing key, or by the general
/// code where its message, if it has one, speaks of a key, of an object or of nothing found, and
/// not of a bucket. Under any other status than the one for what is not found it says nothing
/// of the kind.
pub proof fn lemma_missing_objects_are_told(
    code: Option<Seq<char>>,
    message: Option<Seq<char>>,
    status: Option<u16>,
)
    ensures
        says_object_missing(code, message, status) <==> {
            &&& status matches Some(number) ==> number == 404
            &&& code is Some
            &&& code->0 == "NoSuchKey"@ || code->0 == "NotFound"@ && (message is None || {
                let said = lowered(message->0);
                &&& !contains_text(said, "bucket"@)
                &&& contains_text(said, "key"@) || contains_text(said, "object"@)
                    || contains_text(said, "not found"@)
            })
        },
{
}

} // verus!
