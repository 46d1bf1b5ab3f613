//! Laws of what is published and what is kept: a published version is never replaced, only newer
//! versions are added, and a publication that is repeated adds nothing.

use core::cmp::Ordering;

use vstd::prelude::*;

use crate::publish::{
    is_local, is_version_at, latest_versions, newer_payloads, payload_place, payload_version,
    publishable_payloads, retained_entries, retained_payloads, version_key,
    LinuxPackagePayloadView, LinuxPackageVersionView, RemoteDebPackageEntryView,
};

verus! {

/// Whether a comparison calls a version newer than another.
pub open spec fn newer<E>(
    order: spec_fn(Seq<char>, Seq<char>) -> Result<Ordering, E>,
    version: Seq<char>,
    other: Seq<char>,
) -> bool {
    order(version, other) matches Ok(Ordering::Greater)
}

/// Whether a comparison answers, and does not call a version newer than another.
pub open spec fn not_newer<E>(
    order: spec_fn(Seq<char>, Seq<char>) -> Result<Ordering, E>,
    version: Seq<char>,
    other: Seq<char>,
) -> bool {
    order(version, other) matches Ok(answer) && !(answer is Greater)
}

/// Whether the answers of a comparison fit together, as those of an order do.
pub open spec fn ranks_versions<E>(
    order: spec_fn(Seq<char>, Seq<char>) -> Result<Ordering, E>,
) -> bool {
    &&& forall|a: Seq<char>, b: Seq<char>| #[trigger]
        newer(order, a, b) ==> not_newer(order, b, a)
    &&& forall|a: Seq<char>, b: Seq<char>, c: Seq<char>|
        #[trigger] not_newer(order, a, b) && #[trigger] not_newer(order, b, c) ==> not_newer(
            order,
            a,
            c,
        )
    &&& forall|a: Seq<char>, b: Seq<char>, c: Seq<char>|
        #[trigger] newer(order, a, b) && #[trigger] not_newer(order, c, b) ==> newer(order, a, c)
}

/// Whether a version is one that a comparison places no higher than another.
pub open spec fn at_most<E>(
    order: spec_fn(Seq<char>, Seq<char>) -> Result<Ordering, E>,
    version: Seq<char>,
    other: Seq<char>,
) -> bool {
    version == other || not_newer(order, version, other)
}

/// Whether a published version stands at a place and has a text.
pub open spec fn published_at(
    published: Seq<LinuxPackageVersionView>,
    place: (Seq<char>, Seq<char>),
    version: Seq<char>,
    i: int,
) -> bool {
    0 <= i < published.len() && version_key(published[i]) == place && published[i].version
        == version
}

/// The latest version of a place is one of those that were published there, and none of them is
/// newer.
proof fn lemma_latest<E>(
    order: spec_fn(Seq<char>, Seq<char>) -> Result<Ordering, E>,
    versions: Seq<LinuxPackageVersionView>,
    from: int,
    latest: Map<(Seq<char>, Seq<char>), Seq<char>>,
)
    requires
        ranks_versions(order),
        0 <= from <= versions.len(),
    ensures
        latest_versions(order, versions, from, latest) matches Ok(end) ==> {
            &&& forall|place: (Seq<char>, Seq<char>)| #[trigger]
                latest.contains_key(place) ==> end.contains_key(place) && at_most(
                    order,
                    latest[place],
                    end[place],
                )
            &&& forall|i: int|
                from <= i < versions.len() ==> end.contains_key(
                    version_key(#[trigger] versions[i]),
                ) && at_most(order, versions[i].version, end[version_key(versions[i])])
            &&& forall|place: (Seq<char>, Seq<char>)| #[trigger]
                end.contains_key(place) ==> (latest.contains_key(place) && end[place]
                    == latest[place]) || exists|i: int|
                    from <= i && #[trigger] published_at(versions, place, end[place], i)
        },
    decreases versions.len() - from,
{
    if from < versions.len() && latest_versions(order, versions, from, latest) is Ok {
        let place = version_key(versions[from]);
        let version = versions[from].version;
        let replaced = !latest.contains_key(place) || newer(order, version, latest[place]);
        let next = if replaced {
            latest.insert(place, version)
        } else {
            latest
        };
        lemma_latest(order, versions, from + 1, next);
        let end = latest_versions(order, versions, from, latest)->Ok_0;
        assert(latest_versions(order, versions, from + 1, next) == Ok::<_, E>(end));
        assert(next.contains_key(place));
        assert(at_most(order, version, next[place]));
        assert(at_most(order, version, end[place]));
        assert forall|key: (Seq<char>, Seq<char>)| #[trigger]
            latest.contains_key(key) implies end.contains_key(key) && at_most(
            order,
            latest[key],
            end[key],
        ) by {
            assert(next.contains_key(key));
            if key == place && replaced {
                assert(not_newer(order, latest[key], version));
            }
        }
        assert forall|key: (Seq<char>, Seq<char>)| #[trigger]
            end.contains_key(key) implies (latest.contains_key(key) && end[key] == latest[key])
            || exists|i: int| from <= i && #[trigger] published_at(versions, key, end[key], i) by {
            if next.contains_key(key) && end[key] == next[key] && key == place && replaced {
                assert(published_at(versions, key, end[key], from));
            }
        }
    }
}

/// Whether a payload is newer than everything that was published at its place.
pub open spec fn is_new<E>(
    order: spec_fn(Seq<char>, Seq<char>) -> Result<Ordering, E>,
    published: Seq<LinuxPackageVersionView>,
    payload: LinuxPackagePayloadView,
) -> bool {
    forall|i: int|
        0 <= i < published.len() && (#[trigger] published[i]).package == payload.package
            && published[i].architecture == payload.architecture ==> newer(
            order,
            payload.version,
            published[i].version,
        )
}

spec fn beats<E>(
    order: spec_fn(Seq<char>, Seq<char>) -> Result<Ordering, E>,
    latest: Map<(Seq<char>, Seq<char>), Seq<char>>,
    payload: LinuxPackagePayloadView,
) -> bool {
    latest.contains_key(payload_place(payload)) ==> newer(
        order,
        payload.version,
        latest[payload_place(payload)],
    )
}

proof fn lemma_chosen<E>(
    order: spec_fn(Seq<char>, Seq<char>) -> Result<Ordering, E>,
    latest: Map<(Seq<char>, Seq<char>), Seq<char>>,
    payloads: Seq<LinuxPackagePayloadView>,
    from: int,
    chosen: Seq<LinuxPackagePayloadView>,
)
    requires
        0 <= from <= payloads.len(),
    ensures
        newer_payloads(order, latest, payloads, from, chosen) matches Ok(end) ==> {
            &&& end == chosen + payloads.skip(from).filter(
                |payload: LinuxPackagePayloadView| beats(order, latest, payload),
            )
            &&& forall|i: int|
                from <= i < payloads.len() && !beats(order, latest, #[trigger] payloads[i])
                    ==> not_newer(
                    order,
                    payloads[i].version,
                    latest[payload_place(payloads[i])],
                )
        },
    decreases payloads.len() - from,
{
    let wanted = |payload: LinuxPackagePayloadView| beats(order, latest, payload);
    if from < payloads.len() {
        let payload = payloads[from];
        let rest = payloads.skip(from + 1);
        assert(payloads.skip(from) =~= seq![payload] + rest);
        Seq::filter_distributes_over_add(seq![payload], rest, wanted);
        assert(seq![payload].drop_last() =~= Seq::empty());
        reveal_with_fuel(Seq::filter, 2);
        if wanted(payload) {
            assert(seq![payload].filter(wanted) =~= seq![payload]);
            lemma_chosen(order, latest, payloads, from + 1, chosen.push(payload));
            assert(chosen.push(payload) + rest.filter(wanted) =~= chosen + (seq![payload]
                + rest.filter(wanted)));
        } else {
            assert(seq![payload].filter(wanted) =~= Seq::empty());
            lemma_chosen(order, latest, payloads, from + 1, chosen);
            assert(Seq::empty() + rest.filter(wanted) =~= rest.filter(wanted));
        }
    } else {
        assert(payloads.skip(from) =~= Seq::empty());
        reveal(Seq::filter);
        assert(chosen + Seq::<LinuxPackagePayloadView>::empty() =~= chosen);
    }
}

/// What is selected for publication are exactly the payloads that are newer than every version
/// published for the same package and architecture, in the order in which they were offered.
pub proof fn lemma_only_new_payloads_are_published<E>(
    order: spec_fn(Seq<char>, Seq<char>) -> Result<Ordering, E>,
    payloads: Seq<LinuxPackagePayloadView>,
    published: Seq<LinuxPackageVersionView>,
)
    requires
        ranks_versions(order),
    ensures
        publishable_payloads(order, payloads, published) matches Ok(selected) ==> selected
            == payloads.filter(
            |payload: LinuxPackagePayloadView| is_new(order, published, payload),
        ),
{
    if publishable_payloads(order, payloads, published) is Ok {
        lemma_latest(order, published, 0, Map::empty());
        let latest = latest_versions(order, published, 0, Map::empty())->Ok_0;
        lemma_chosen(order, latest, payloads, 0, Seq::empty());
        let wanted = |payload: LinuxPackagePayloadView| beats(order, latest, payload);
        let new = |payload: LinuxPackagePayloadView| is_new(order, published, payload);
        assert forall|payload: LinuxPackagePayloadView| #[trigger] wanted(payload) == new(
            payload,
        ) by {
            let place = payload_place(payload);
            if latest.contains_key(place) {
                let i = choose|i: int|
                    0 <= i && #[trigger] published_at(published, place, latest[place], i);
                assert(published_at(published, place, latest[place], i));
                assert(version_key(published[i]) == place);
                if wanted(payload) {
                    assert forall|k: int|
                        0 <= k < published.len() && version_key(#[trigger] published[k])
                            == place implies newer(order, payload.version, published[k].version) by {
                        assert(at_most(order, published[k].version, latest[place]));
                    }
                }
            } else {
                assert forall|k: int|
                    0 <= k < published.len() && version_key(#[trigger] published[k])
                        == place implies newer(order, payload.version, published[k].version) by {
                    assert(latest.contains_key(version_key(published[k])));
                }
            }
        }
        assert(wanted =~= new);
        assert(payloads.skip(0) =~= payloads);
        assert(Seq::empty() + payloads.filter(wanted) =~= payloads.filter(wanted));
    }
}

/// The versions of payloads.
pub open spec fn versions_of(payloads: Seq<LinuxPackagePayloadView>) -> Seq<
    LinuxPackageVersionView,
> {
    payloads.map_values(|payload: LinuxPackagePayloadView| payload_version(payload))
}

/// Whether a comparison answers for any two versions of one package and architecture, be they
/// offered or published.
pub open spec fn answers_versions<E>(
    order: spec_fn(Seq<char>, Seq<char>) -> Result<Ordering, E>,
    payloads: Seq<LinuxPackagePayloadView>,
    published: Seq<LinuxPackageVersionView>,
) -> bool {
    forall|place: (Seq<char>, Seq<char>), a: Seq<char>, b: Seq<char>|
        #[trigger] is_version_at(payloads, published, place, a) && #[trigger] is_version_at(
            payloads,
            published,
            place,
            b,
        ) ==> order(a, b) is Ok
}

/// Whether a map gives to each of its places a version that is offered or published there.
spec fn gives_versions(
    payloads: Seq<LinuxPackagePayloadView>,
    published: Seq<LinuxPackageVersionView>,
    latest: Map<(Seq<char>, Seq<char>), Seq<char>>,
) -> bool {
    forall|place: (Seq<char>, Seq<char>)| #[trigger]
        latest.contains_key(place) ==> is_version_at(payloads, published, place, latest[place])
}

proof fn lemma_latest_is_told<E>(
    order: spec_fn(Seq<char>, Seq<char>) -> Result<Ordering, E>,
    payloads: Seq<LinuxPackagePayloadView>,
    published: Seq<LinuxPackageVersionView>,
    from: int,
    latest: Map<(Seq<char>, Seq<char>), Seq<char>>,
)
    requires
        answers_versions(order, payloads, published),
        gives_versions(payloads, published, latest),
        0 <= from <= published.len(),
    ensures
        latest_versions(order, published, from, latest) matches Ok(end) && gives_versions(
            payloads,
            published,
            end,
        ),
    decreases published.len() - from,
{
    if from < published.len() {
        let place = version_key(published[from]);
        let version = published[from].version;
        assert(is_version_at(payloads, published, place, version));
        let replaced = !latest.contains_key(place) || newer(order, version, latest[place]);
        let next = if replaced {
            latest.insert(place, version)
        } else {
            latest
        };
        lemma_latest_is_told(order, payloads, published, from + 1, next);
    }
}

proof fn lemma_newer_are_told<E>(
    order: spec_fn(Seq<char>, Seq<char>) -> Result<Ordering, E>,
    payloads: Seq<LinuxPackagePayloadView>,
    published: Seq<LinuxPackageVersionView>,
    latest: Map<(Seq<char>, Seq<char>), Seq<char>>,
    from: int,
    chosen: Seq<LinuxPackagePayloadView>,
)
    requires
        answers_versions(order, payloads, published),
        gives_versions(payloads, published, latest),
        0 <= from <= payloads.len(),
    ensures
        newer_payloads(order, latest, payloads, from, chosen) is Ok,
    decreases payloads.len() - from,
{
    if from < payloads.len() {
        let payload = payloads[from];
        assert(is_version_at(payloads, published, payload_place(payload), payload.version));
        lemma_newer_are_told(order, payloads, published, latest, from + 1, chosen.push(payload));
        lemma_newer_are_told(order, payloads, published, latest, from + 1, chosen);
    }
}

/// Where a comparison answers for all versions of each package and architecture, a selection is
/// made.
pub proof fn lemma_selection_is_made<E>(
    order: spec_fn(Seq<char>, Seq<char>) -> Result<Ordering, E>,
    payloads: Seq<LinuxPackagePayloadView>,
    published: Seq<LinuxPackageVersionView>,
)
    requires
        answers_versions(order, payloads, published),
    ensures
        publishable_payloads(order, payloads, published) is Ok,
{
    lemma_latest_is_told(order, payloads, published, 0, Map::empty());
    let latest = latest_versions(order, published, 0, Map::empty())->Ok_0;
    lemma_newer_are_told(order, payloads, published, latest, 0, Seq::empty());
}

/// Once what was selected has been published, the same payloads select nothing any more: the
/// selection is made and empty where the comparison answers for all versions, and otherwise it
/// is empty or refused.
pub proof fn lemma_publication_is_done_once<E>(
    order: spec_fn(Seq<char>, Seq<char>) -> Result<Ordering, E>,
    payloads: Seq<LinuxPackagePayloadView>,
    published: Seq<LinuxPackageVersionView>,
)
    requires
        ranks_versions(order),
    ensures
        publishable_payloads(order, payloads, published) matches Ok(selected) ==> {
            let again = publishable_payloads(order, payloads, published + versions_of(selected));
            &&& again matches Ok(chosen) ==> chosen == Seq::<LinuxPackagePayloadView>::empty()
            &&& answers_versions(order, payloads, published) ==> again == Ok::<
                Seq<LinuxPackagePayloadView>,
                E,
            >(Seq::empty())
        },
{
    if let Ok(selected) = publishable_payloads(order, payloads, published) {
        let all = published + versions_of(selected);
        lemma_only_new_payloads_are_published(order, payloads, published);
        let new = |payload: LinuxPackagePayloadView| is_new(order, published, payload);
        if answers_versions(order, payloads, published) {
            assert forall|place: (Seq<char>, Seq<char>), text: Seq<char>| #[trigger]
                is_version_at(payloads, all, place, text) implies is_version_at(
                payloads,
                published,
                place,
                text,
            ) by {
                if exists|i: int|
                    0 <= i < all.len() && version_key(#[trigger] all[i]) == place && all[i].version
                        == text {
                    let i = choose|i: int|
                        0 <= i < all.len() && version_key(#[trigger] all[i]) == place
                            && all[i].version == text;
                    if i < published.len() {
                        assert(all[i] == published[i]);
                    } else {
                        let j = i - published.len();
                        assert(all[i] == payload_version(selected[j]));
                        lemma_filtered_is_member(payloads, new, j);
                        let k = choose|k: int| 0 <= k < payloads.len() && payloads[k] == selected[j];
                        assert(payload_place(payloads[k]) == place);
                    }
                }
            }
            assert(answers_versions(order, payloads, all));
            lemma_selection_is_made(order, payloads, all);
        }
        if let Ok(again) = publishable_payloads(order, payloads, all) {
            lemma_only_new_payloads_are_published(order, payloads, all);
            let newest = |payload: LinuxPackagePayloadView| is_new(order, all, payload);
            if again.len() > 0 {
                broadcast use vstd::seq_lib::group_filter_ensures;

                let payload = again[0];
                assert(newest(payload));
                lemma_filtered_is_member(payloads, newest, 0);
                assert(payloads.contains(payload));
                assert forall|i: int|
                    0 <= i < published.len() && version_key(#[trigger] published[i])
                        == payload_place(payload) implies newer(
                    order,
                    payload.version,
                    published[i].version,
                ) by {
                    assert(all[i] == published[i]);
                }
                assert(new(payload));
                let k = choose|k: int| 0 <= k < payloads.len() && payloads[k] == payload;
                assert(selected.contains(payload));
                let j = choose|j: int| 0 <= j < selected.len() && selected[j] == payload;
                let at = published.len() + j;
                assert(all[at] == payload_version(payload));
                assert(newer(order, payload.version, payload.version));
                assert(not_newer(order, payload.version, payload.version));
            }
            assert(again =~= Seq::empty());
        }
    }
}

proof fn lemma_filtered_is_member<T>(items: Seq<T>, wanted: spec_fn(T) -> bool, i: int)
    requires
        0 <= i < items.filter(wanted).len(),
    ensures
        items.contains(items.filter(wanted)[i]),
    decreases items.len(),
{
    reveal(Seq::filter);
    if items.len() > 0 {
        let rest = items.drop_last();
        if i < rest.filter(wanted).len() {
            lemma_filtered_is_member(rest, wanted, i);
            let k = choose|k: int| 0 <= k < rest.len() && rest[k] == rest.filter(wanted)[i];
            assert(items[k] == rest[k]);
        } else {
            assert(items.filter(wanted)[i] == items.last());
        }
    }
}

/// What is kept of the remote payloads are exactly those that have no version of the local ones,
/// in the order in which they were found.
pub proof fn lemma_retained_payloads(
    local: Seq<LinuxPackagePayloadView>,
    remote: Seq<LinuxPackagePayloadView>,
)
    ensures
        retained_payloads(local, remote) == remote.filter(
            |payload: LinuxPackagePayloadView| !is_local(local, payload_version(payload)),
        ),
    decreases remote.len(),
{
    reveal(Seq::filter);
    if remote.len() > 0 {
        lemma_retained_payloads(local, remote.drop_last());
    }
}

/// What is kept of the entries of a remote index are exactly those that have no version of the
/// local payloads, in the order in which they were found.
pub proof fn lemma_retained_entries(
    local: Seq<LinuxPackagePayloadView>,
    remote: Seq<RemoteDebPackageEntryView>,
)
    ensures
        retained_entries(local, remote) == remote.filter(
            |entry: RemoteDebPackageEntryView| !is_local(local, entry.version),
        ),
    decreases remote.len(),
{
    reveal(Seq::filter);
    if remote.len() > 0 {
        lemma_retained_entries(local, remote.drop_last());
    }
}

/// A repository never holds the same version twice: what is kept of the remote payloads has
/// nothing in common with the local ones.
pub proof fn lemma_retained_is_not_local(
    local: Seq<LinuxPackagePayloadView>,
    remote: Seq<LinuxPackagePayloadView>,
    i: int,
    j: int,
)
    requires
        0 <= i < local.len(),
        0 <= j < retained_payloads(local, remote).len(),
    ensures
        payload_version(local[i]) != payload_version(retained_payloads(local, remote)[j]),
{
    broadcast use vstd::seq_lib::group_filter_ensures;

    lemma_retained_payloads(local, remote);
    let kept = |payload: LinuxPackagePayloadView| !is_local(local, payload_version(payload));
    let payload = retained_payloads(local, remote)[j];
    assert(kept(payload));
    if payload_version(local[i]) == payload_version(payload) {
        assert(is_local(local, payload_version(payload)));
    }
}

} // verus!
