//! Laws of planned builds and publications: what is selected, which variables a plan needs, and
//! which sources a container sees.

use vstd::prelude::*;

use crate::channel::ReleaseChannel;
use crate::cli::PackageBuildRequestView;
use crate::contract::{
    branch_of, package_of, EnvBinding, PackageBranchRef, PackageContract, ReleaseContract,
};
use crate::package::PackageId;
use crate::plan::{
    binding_of, binding_value, bound_build, bound_env, build_names, command_units, no_names,
    planned_build, planned_units, request_units, selected_branches, selected_packages,
    selected_targets, target_bindings, target_matches, with_bindings, BuildEnvNamesView,
    PlannedEnvMountView, PlannedPackageBuildView, SelectedBuildBranchView,
};
use crate::publish::{publish_env_names, publish_target};
use crate::sibling::{ContainerOverlayPlanView, SiblingSourceView};
use crate::system::{BuildProfile, PackageSystem, RequestedTargetView};
use crate::textmap::{
    has_key, key_at, key_set, keys_ordered, lemma_entry_of, lemma_key_once, lemma_sorted_members,
    lookup, members, sorted,
};

verus! {

/// Whether a unit of work is the build of a package of a contract for a requested target that
/// matches its branch.
pub open spec fn is_requested_build(
    packages: Seq<(PackageId, PackageContract)>,
    system: PackageSystem,
    targets: Seq<RequestedTargetView>,
    unit: SelectedBuildBranchView<'_>,
    i: int,
    k: int,
) -> bool {
    &&& 0 <= i < packages.len()
    &&& 0 <= k < targets.len()
    &&& branch_of(packages[i].1, system) == Some(unit.branch)
    &&& target_matches(targets[k], unit.branch)
    &&& unit.package_id == packages[i].0.deep_view()
    &&& unit.system == system
    &&& unit.target == targets[k]
}

spec fn is_build_for<'a>(
    package_id: Seq<char>,
    system: PackageSystem,
    branch: PackageBranchRef<'a>,
    targets: Seq<RequestedTargetView>,
    unit: SelectedBuildBranchView<'a>,
    k: int,
) -> bool {
    &&& 0 <= k < targets.len()
    &&& target_matches(targets[k], branch)
    &&& unit == (SelectedBuildBranchView { package_id, system, target: targets[k], branch })
}

proof fn lemma_push_contains<T>(items: Seq<T>, item: T, other: T)
    ensures
        items.push(item).contains(other) <==> items.contains(other) || other == item,
{
    if items.contains(other) {
        let i = items.index_of(other);
        assert(items.push(item)[i] == other);
    }
    if other == item {
        assert(items.push(item)[items.len() as int] == other);
    }
}

proof fn lemma_selected_targets<'a>(
    package_id: Seq<char>,
    system: PackageSystem,
    branch: PackageBranchRef<'a>,
    targets: Seq<RequestedTargetView>,
    from: int,
    found: Seq<SelectedBuildBranchView<'a>>,
    unit: SelectedBuildBranchView<'a>,
)
    requires
        0 <= from <= targets.len(),
    ensures
        selected_targets(package_id, system, branch, targets, from, found).contains(unit)
            <==> found.contains(unit) || (exists|k: int|
            from <= k && #[trigger] is_build_for(package_id, system, branch, targets, unit, k)),
    decreases targets.len() - from,
{
    if from < targets.len() {
        let own = SelectedBuildBranchView { package_id, system, target: targets[from], branch };
        let next = if target_matches(targets[from], branch) {
            found.push(own)
        } else {
            found
        };
        lemma_push_contains(found, own, unit);
        lemma_selected_targets(package_id, system, branch, targets, from + 1, next, unit);
        if target_matches(targets[from], branch) && unit == own {
            assert(is_build_for(package_id, system, branch, targets, unit, from));
        }
        if exists|k: int|
            from <= k && #[trigger] is_build_for(package_id, system, branch, targets, unit, k) {
            let k = choose|k: int|
                from <= k && #[trigger] is_build_for(package_id, system, branch, targets, unit, k);
            assert(k == from || from + 1 <= k);
        }
    }
}

proof fn lemma_selected_packages<'a>(
    packages: Seq<(PackageId, PackageContract)>,
    system: PackageSystem,
    targets: Seq<RequestedTargetView>,
    from: int,
    found: Seq<SelectedBuildBranchView<'a>>,
    unit: SelectedBuildBranchView<'a>,
)
    requires
        0 <= from <= packages.len(),
    ensures
        selected_packages(packages, system, targets, from, found).contains(unit)
            <==> found.contains(unit) || (exists|i: int, k: int|
            from <= i && #[trigger] is_requested_build(packages, system, targets, unit, i, k)),
    decreases packages.len() - from,
{
    if from < packages.len() {
        let id = packages[from].0.deep_view();
        let next = match branch_of::<'a>(packages[from].1, system) {
            None => found,
            Some(branch) => selected_targets(id, system, branch, targets, 0, found),
        };
        lemma_selected_packages(packages, system, targets, from + 1, next, unit);
        if let Some(branch) = branch_of::<'a>(packages[from].1, system) {
            lemma_selected_targets(id, system, branch, targets, 0, found, unit);
            if exists|k: int|
                0 <= k && #[trigger] is_build_for(id, system, branch, targets, unit, k) {
                let k = choose|k: int|
                    0 <= k && #[trigger] is_build_for(id, system, branch, targets, unit, k);
                assert(is_requested_build(packages, system, targets, unit, from, k));
            }
        }
        if exists|i: int, k: int|
            from <= i && #[trigger] is_requested_build(packages, system, targets, unit, i, k) {
            let (i, k) = choose|i: int, k: int|
                from <= i && #[trigger] is_requested_build(packages, system, targets, unit, i, k);
            if i == from {
                assert(is_build_for(id, system, unit.branch, targets, unit, k));
            }
        }
    }
}

/// A request selects exactly the builds of packages that have a branch of its system, for the
/// targets that match that branch. It is refused exactly where there is none.
pub proof fn lemma_selection_is_what_matches(
    contract: ReleaseContract,
    system: PackageSystem,
    targets: Seq<RequestedTargetView>,
    unit: SelectedBuildBranchView<'_>,
)
    ensures
        match selected_branches(contract, system, targets) {
            Ok(selected) => selected.contains(unit) <==> exists|i: int, k: int| #[trigger]
                is_requested_build(contract.package.items(), system, targets, unit, i, k),
            Err(_) => !exists|i: int, k: int| #[trigger]
                is_requested_build(contract.package.items(), system, targets, unit, i, k),
        },
{
    lemma_selected_packages(contract.package.items(), system, targets, 0, Seq::empty(), unit);
    let selected = selected_packages(contract.package.items(), system, targets, 0, Seq::empty());
    if exists|i: int, k: int| #[trigger]
        is_requested_build(contract.package.items(), system, targets, unit, i, k) {
        assert(selected.contains(unit));
    }
}

/// Whether a binding reads a variable, as one that may be missing or as one that may not.
pub open spec fn reads(binding: EnvBinding, variable: Seq<char>, optional: bool) -> bool {
    binding.env matches Some(name) && name@ == variable && binding.optional == optional
}

/// Whether a binding takes its value from one place.
pub open spec fn is_bound(binding: EnvBinding) -> bool {
    binding.env is Some != binding.value is Some
}

/// Whether no variable is read under two names.
pub open spec fn read_under_one_name(
    own: Seq<(String, EnvBinding)>,
    special: Seq<(String, EnvBinding)>,
) -> bool {
    let all = own + special;
    forall|i: int, j: int, variable: Seq<char>, optional: bool, other: bool|
        0 <= i < all.len() && 0 <= j < all.len() && #[trigger] reads(all[i].1, variable, optional)
            && #[trigger] reads(all[j].1, variable, other) ==> all[i].0@ == all[j].0@
}

/// Whether one of the first bindings reads a variable.
pub open spec fn some_reads(
    bindings: Seq<(String, EnvBinding)>,
    count: int,
    variable: Seq<char>,
    optional: bool,
) -> bool {
    exists|k: int|
        0 <= k < count && k < bindings.len() && #[trigger] reads(bindings[k].1, variable, optional)
}

spec fn named_before(bindings: Seq<(String, EnvBinding)>, count: int, name: Seq<char>) -> bool {
    exists|k: int| 0 <= k < count && k < bindings.len() && (#[trigger] bindings[k]).0@ == name
}

spec fn some_kept_reads(
    own: Seq<(String, EnvBinding)>,
    special: Seq<(String, EnvBinding)>,
    count: int,
    variable: Seq<char>,
    optional: bool,
) -> bool {
    exists|k: int|
        0 <= k < own.len() && !named_before(special, count, own[k].0@) && #[trigger] reads(
            own[k].1,
            variable,
            optional,
        )
}

proof fn lemma_same_name(
    own: Seq<(String, EnvBinding)>,
    special: Seq<(String, EnvBinding)>,
    variable: Seq<char>,
)
    requires
        read_under_one_name(own, special),
    ensures
        forall|i: int, j: int, optional: bool, other: bool|
            0 <= i < own.len() && 0 <= j < own.len() && #[trigger] reads(
                own[i].1,
                variable,
                optional,
            ) && #[trigger] reads(own[j].1, variable, other) ==> own[i].0@ == own[j].0@,
        forall|i: int, j: int, optional: bool, other: bool|
            0 <= i < own.len() && 0 <= j < special.len() && #[trigger] reads(
                own[i].1,
                variable,
                optional,
            ) && #[trigger] reads(special[j].1, variable, other) ==> own[i].0@ == special[j].0@,
        forall|i: int, j: int, optional: bool, other: bool|
            0 <= i < special.len() && 0 <= j < special.len() && #[trigger] reads(
                special[i].1,
                variable,
                optional,
            ) && #[trigger] reads(special[j].1, variable, other) ==> special[i].0@ == special[j].0@,
{
    let all = own + special;
    assert forall|i: int| 0 <= i < own.len() implies #[trigger] own[i] == all[i] by {}
    assert forall|j: int| 0 <= j < special.len() implies #[trigger] special[j] == all[own.len()
        + j] by {}
    assert forall|i: int, j: int, optional: bool, other: bool|
        0 <= i < own.len() && 0 <= j < special.len() && #[trigger] reads(
            own[i].1,
            variable,
            optional,
        ) && #[trigger] reads(special[j].1, variable, other) implies own[i].0@ == special[j].0@ by {
        assert(reads(all[i].1, variable, optional));
        assert(reads(all[own.len() + j].1, variable, other));
    }
    assert forall|i: int, j: int, optional: bool, other: bool|
        0 <= i < own.len() && 0 <= j < own.len() && #[trigger] reads(own[i].1, variable, optional)
            && #[trigger] reads(own[j].1, variable, other) implies own[i].0@ == own[j].0@ by {
        assert(reads(all[i].1, variable, optional));
        assert(reads(all[j].1, variable, other));
    }
    assert forall|i: int, j: int, optional: bool, other: bool|
        0 <= i < special.len() && 0 <= j < special.len() && #[trigger] reads(
            special[i].1,
            variable,
            optional,
        ) && #[trigger] reads(special[j].1, variable, other) implies special[i].0@
        == special[j].0@ by {
        assert(reads(all[own.len() + i].1, variable, optional));
        assert(reads(all[own.len() + j].1, variable, other));
    }
}

spec fn names_of_own(
    own: Seq<(String, EnvBinding)>,
    count: int,
    names: BuildEnvNamesView,
) -> bool {
    &&& forall|v: Seq<char>| #[trigger] names.required.contains(v) <==> some_reads(own, count, v, false)
    &&& forall|v: Seq<char>| #[trigger] names.optional.contains(v) <==> some_reads(own, count, v, true)
}

proof fn lemma_some_reads_next(
    bindings: Seq<(String, EnvBinding)>,
    count: int,
    variable: Seq<char>,
    optional: bool,
)
    requires
        0 <= count < bindings.len(),
    ensures
        some_reads(bindings, count + 1, variable, optional) <==> some_reads(
            bindings,
            count,
            variable,
            optional,
        ) || reads(bindings[count].1, variable, optional),
{
    if some_reads(bindings, count, variable, optional) {
        let k = choose|k: int|
            0 <= k < count && k < bindings.len() && #[trigger] reads(
                bindings[k].1,
                variable,
                optional,
            );
        assert(reads(bindings[k].1, variable, optional));
    }
    if some_reads(bindings, count + 1, variable, optional) {
        let k = choose|k: int|
            0 <= k < count + 1 && k < bindings.len() && #[trigger] reads(
                bindings[k].1,
                variable,
                optional,
            );
        assert(reads(bindings[k].1, variable, optional));
    }
}

proof fn lemma_own_names(
    own: Seq<(String, EnvBinding)>,
    special: Seq<(String, EnvBinding)>,
    from: int,
    names: BuildEnvNamesView,
)
    requires
        keys_ordered(own),
        read_under_one_name(own, special),
        0 <= from <= own.len(),
        names_of_own(own, from, names),
    ensures
        with_bindings(names, own, Seq::empty(), from) matches Ok(all) ==> names_of_own(
            own,
            own.len() as int,
            all,
        ) && forall|k: int| from <= k < own.len() ==> is_bound((#[trigger] own[k]).1),
    decreases own.len() - from,
{
    if from < own.len() && with_bindings(names, own, Seq::empty(), from) is Ok {
        let (name, binding) = own[from];
        assert(!has_key(Seq::<(String, EnvBinding)>::empty(), name@));
        let next = crate::plan::with_binding(names, name@, binding)->Ok_0;
        assert forall|v: Seq<char>| #[trigger]
            next.required.contains(v) <==> some_reads(own, from + 1, v, false) by {
            lemma_some_reads_next(own, from, v, false);
            if binding.env matches Some(variable) && variable@ == v {
                lemma_others_read_otherwise(own, special, from, v);
            }
        }
        assert forall|v: Seq<char>| #[trigger]
            next.optional.contains(v) <==> some_reads(own, from + 1, v, true) by {
            lemma_some_reads_next(own, from, v, true);
            if binding.env matches Some(variable) && variable@ == v {
                lemma_others_read_otherwise(own, special, from, v);
            }
        }
        lemma_own_names(own, special, from + 1, next);
    }
}

proof fn lemma_others_read_otherwise(
    own: Seq<(String, EnvBinding)>,
    special: Seq<(String, EnvBinding)>,
    from: int,
    v: Seq<char>,
)
    requires
        keys_ordered(own),
        read_under_one_name(own, special),
        0 <= from < own.len(),
        own[from].1.env matches Some(name) && name@ == v,
    ensures
        !some_reads(own, from, v, false),
        !some_reads(own, from, v, true),
{
    lemma_same_name(own, special, v);
    let optional = own[from].1.optional;
    assert(reads(own[from].1, v, optional));
    if some_reads(own, from, v, false) {
        let k = choose|k: int|
            0 <= k < from && k < own.len() && #[trigger] reads(own[k].1, v, false);
        assert(reads(own[k].1, v, false));
        lemma_key_once(own, k, from);
    }
    if some_reads(own, from, v, true) {
        let k = choose|k: int| 0 <= k < from && k < own.len() && #[trigger] reads(own[k].1, v, true);
        assert(reads(own[k].1, v, true));
        lemma_key_once(own, k, from);
    }
}

spec fn names_of_both(
    own: Seq<(String, EnvBinding)>,
    special: Seq<(String, EnvBinding)>,
    count: int,
    names: BuildEnvNamesView,
) -> bool {
    &&& forall|v: Seq<char>| #[trigger]
        names.required.contains(v) <==> some_kept_reads(own, special, count, v, false)
            || some_reads(special, count, v, false)
    &&& forall|v: Seq<char>| #[trigger]
        names.optional.contains(v) <==> some_kept_reads(own, special, count, v, true)
            || some_reads(special, count, v, true)
}

/// A binding of a target takes the place of the binding that the package has under its name.
proof fn lemma_kept_reads_next(
    own: Seq<(String, EnvBinding)>,
    special: Seq<(String, EnvBinding)>,
    count: int,
    v: Seq<char>,
    optional: bool,
)
    requires
        keys_ordered(own),
        read_under_one_name(own, special),
        0 <= count < special.len(),
    ensures
        some_kept_reads(own, special, count + 1, v, optional) <==> some_kept_reads(
            own,
            special,
            count,
            v,
            optional,
        ) && !(lookup(own, special[count].0@) matches Some(binding) && binding.env matches Some(
            variable,
        ) && variable@ == v),
{
    let name = special[count].0@;
    lemma_same_name(own, special, v);
    if has_key(own, name) {
        let at = choose|i: int| #[trigger] key_at(own, name, i);
        assert(key_at(own, name, at));
        lemma_entry_of(own, at);
    }
    assert forall|other: Seq<char>| #[trigger]
        named_before(special, count + 1, other) <==> named_before(special, count, other) || other
            == name by {
        if named_before(special, count, other) {
            let k = choose|k: int|
                0 <= k < count && k < special.len() && (#[trigger] special[k]).0@ == other;
            assert(special[k].0@ == other);
        }
        if other == name {
            assert(special[count].0@ == other);
        }
    }
    if some_kept_reads(own, special, count + 1, v, optional) {
        let k = choose|k: int|
            0 <= k < own.len() && !named_before(special, count + 1, own[k].0@) && #[trigger] reads(
                own[k].1,
                v,
                optional,
            );
        assert(reads(own[k].1, v, optional));
        if lookup(own, name) is Some {
            let at = choose|i: int| #[trigger] key_at(own, name, i);
            let binding = own[at].1;
            if binding.env matches Some(variable) && variable@ == v {
                assert(reads(own[at].1, v, binding.optional));
            }
        }
    }
    if some_kept_reads(own, special, count, v, optional) {
        let k = choose|k: int|
            0 <= k < own.len() && !named_before(special, count, own[k].0@) && #[trigger] reads(
                own[k].1,
                v,
                optional,
            );
        assert(reads(own[k].1, v, optional));
        if own[k].0@ == name {
            assert(key_at(own, name, k));
            lemma_entry_of(own, k);
        }
    }
}

/// What a binding of a target reads is read by nothing that came before it.
proof fn lemma_target_reads_alone(
    own: Seq<(String, EnvBinding)>,
    special: Seq<(String, EnvBinding)>,
    count: int,
    v: Seq<char>,
    optional: bool,
)
    requires
        keys_ordered(special),
        read_under_one_name(own, special),
        0 <= count < special.len(),
        special[count].1.env matches Some(name) && name@ == v,
    ensures
        !some_reads(special, count, v, optional),
        !some_kept_reads(own, special, count + 1, v, optional),
{
    lemma_same_name(own, special, v);
    let read = special[count].1.optional;
    assert(reads(special[count].1, v, read));
    if some_reads(special, count, v, optional) {
        let k = choose|k: int|
            0 <= k < count && k < special.len() && #[trigger] reads(special[k].1, v, optional);
        assert(reads(special[k].1, v, optional));
        lemma_key_once(special, k, count);
    }
    if some_kept_reads(own, special, count + 1, v, optional) {
        let k = choose|k: int|
            0 <= k < own.len() && !named_before(special, count + 1, own[k].0@) && #[trigger] reads(
                own[k].1,
                v,
                optional,
            );
        assert(reads(own[k].1, v, optional));
        assert(special[count].0@ == own[k].0@);
    }
}

/// What the binding reads that a binding of a target replaces is read by no binding of a target
/// before it.
proof fn lemma_replaced_reads_alone(
    own: Seq<(String, EnvBinding)>,
    special: Seq<(String, EnvBinding)>,
    count: int,
    v: Seq<char>,
    optional: bool,
)
    requires
        keys_ordered(own),
        keys_ordered(special),
        read_under_one_name(own, special),
        0 <= count < special.len(),
        lookup(own, special[count].0@) matches Some(binding) && binding.env matches Some(variable)
            && variable@ == v,
    ensures
        !some_reads(special, count, v, optional),
{
    lemma_same_name(own, special, v);
    let name = special[count].0@;
    let at = choose|i: int| #[trigger] key_at(own, name, i);
    assert(key_at(own, name, at));
    lemma_entry_of(own, at);
    let read = own[at].1.optional;
    assert(reads(own[at].1, v, read));
    if some_reads(special, count, v, optional) {
        let k = choose|k: int|
            0 <= k < count && k < special.len() && #[trigger] reads(special[k].1, v, optional);
        assert(reads(special[k].1, v, optional));
        lemma_key_once(special, k, count);
    }
}

proof fn lemma_both_names(
    own: Seq<(String, EnvBinding)>,
    special: Seq<(String, EnvBinding)>,
    from: int,
    names: BuildEnvNamesView,
)
    requires
        keys_ordered(own),
        keys_ordered(special),
        read_under_one_name(own, special),
        0 <= from <= special.len(),
        names_of_both(own, special, from, names),
    ensures
        with_bindings(names, special, own, from) matches Ok(all) ==> names_of_both(
            own,
            special,
            special.len() as int,
            all,
        ) && forall|k: int| from <= k < special.len() ==> is_bound((#[trigger] special[k]).1),
    decreases special.len() - from,
{
    if from < special.len() && with_bindings(names, special, own, from) is Ok {
        let (name, binding) = special[from];
        let replaced = lookup(own, name@);
        let without = crate::plan::without_binding(names, replaced);
        let next = crate::plan::with_binding(without, name@, binding)->Ok_0;
        assert forall|v: Seq<char>| #[trigger]
            next.required.contains(v) <==> some_kept_reads(own, special, from + 1, v, false)
                || some_reads(special, from + 1, v, false) by {
            lemma_kept_reads_next(own, special, from, v, false);
            lemma_some_reads_next(special, from, v, false);
            if binding.env matches Some(variable) && variable@ == v {
                lemma_target_reads_alone(own, special, from, v, false);
            }
            if replaced matches Some(old) && old.env matches Some(variable) && variable@ == v {
                lemma_replaced_reads_alone(own, special, from, v, false);
            }
        }
        assert forall|v: Seq<char>| #[trigger]
            next.optional.contains(v) <==> some_kept_reads(own, special, from + 1, v, true)
                || some_reads(special, from + 1, v, true) by {
            lemma_kept_reads_next(own, special, from, v, true);
            lemma_some_reads_next(special, from, v, true);
            if binding.env matches Some(variable) && variable@ == v {
                lemma_target_reads_alone(own, special, from, v, true);
            }
            if replaced matches Some(old) && old.env matches Some(variable) && variable@ == v {
                lemma_replaced_reads_alone(own, special, from, v, true);
            }
        }
        lemma_both_names(own, special, from + 1, next);
    }
}

/// Whether a name is bound by a package or by one of its targets.
pub open spec fn is_bound_name(
    own: Seq<(String, EnvBinding)>,
    special: Seq<(String, EnvBinding)>,
    name: Seq<char>,
) -> bool {
    has_key(own, name) || has_key(special, name)
}

/// Whether the binding that counts for some name reads a variable.
pub open spec fn is_read(
    own: Seq<(String, EnvBinding)>,
    special: Seq<(String, EnvBinding)>,
    variable: Seq<char>,
    optional: bool,
) -> bool {
    exists|name: Seq<char>| #[trigger]
        is_bound_name(own, special, name) && reads(
            binding_of(own, special, name),
            variable,
            optional,
        )
}

proof fn lemma_read_by_both(
    own: Seq<(String, EnvBinding)>,
    special: Seq<(String, EnvBinding)>,
    v: Seq<char>,
    optional: bool,
)
    requires
        keys_ordered(own),
        keys_ordered(special),
    ensures
        is_read(own, special, v, optional) <==> some_kept_reads(
            own,
            special,
            special.len() as int,
            v,
            optional,
        ) || some_reads(special, special.len() as int, v, optional),
{
    let count = special.len() as int;
    if some_reads(special, count, v, optional) {
        let k = choose|k: int|
            0 <= k < count && k < special.len() && #[trigger] reads(special[k].1, v, optional);
        assert(reads(special[k].1, v, optional));
        lemma_entry_of(special, k);
        assert(key_at(special, special[k].0@, k));
        assert(is_bound_name(own, special, special[k].0@));
    }
    if some_kept_reads(own, special, count, v, optional) {
        let k = choose|k: int|
            0 <= k < own.len() && !named_before(special, count, own[k].0@) && #[trigger] reads(
                own[k].1,
                v,
                optional,
            );
        assert(reads(own[k].1, v, optional));
        lemma_entry_of(own, k);
        let name = own[k].0@;
        assert(key_at(own, name, k));
        assert(is_bound_name(own, special, name));
        if has_key(special, name) {
            let j = choose|j: int| #[trigger] key_at(special, name, j);
            assert(special[j].0@ == name);
        }
    }
    if is_read(own, special, v, optional) {
        let name = choose|name: Seq<char>| #[trigger]
            is_bound_name(own, special, name) && reads(
                binding_of(own, special, name),
                v,
                optional,
            );
        if has_key(special, name) {
            let j = choose|j: int| #[trigger] key_at(special, name, j);
            assert(key_at(special, name, j));
            lemma_entry_of(special, j);
            assert(reads(special[j].1, v, optional));
        } else {
            let k = choose|k: int| #[trigger] key_at(own, name, k);
            assert(key_at(own, name, k));
            lemma_entry_of(own, k);
            assert(reads(own[k].1, v, optional));
            if named_before(special, count, name) {
                let j = choose|j: int|
                    0 <= j < count && j < special.len() && (#[trigger] special[j]).0@ == name;
                assert(key_at(special, name, j));
            }
        }
    }
}

/// The bindings that a package has for all its builds.
pub open spec fn own_bindings(contract: ReleaseContract, package: Seq<char>) -> Seq<
    (String, EnvBinding),
> {
    package_of(contract, package)->0.build.env.items()
}

/// The bindings that a package has for the builds of a target.
pub open spec fn special_bindings(
    contract: ReleaseContract,
    package: Seq<char>,
    system: PackageSystem,
    target: RequestedTargetView,
) -> Seq<(String, EnvBinding)> {
    target_bindings(branch_of(package_of(contract, package)->0, system)->0, target)
}

/// The variables that a build is said to need are those that its bindings read: the required
/// ones where a missing variable is an error, the optional ones where it is not.
pub proof fn lemma_named_variables_are_read(
    contract: ReleaseContract,
    package: Seq<char>,
    system: PackageSystem,
    target: RequestedTargetView,
    variable: Seq<char>,
)
    requires
        keys_ordered(own_bindings(contract, package)),
        keys_ordered(special_bindings(contract, package, system, target)),
        read_under_one_name(
            own_bindings(contract, package),
            special_bindings(contract, package, system, target),
        ),
    ensures
        build_names(contract, package, system, target) matches Ok(names) ==> {
            let own = own_bindings(contract, package);
            let special = special_bindings(contract, package, system, target);
            &&& names.required.contains(variable) <==> is_read(own, special, variable, false)
            &&& names.optional.contains(variable) <==> is_read(own, special, variable, true)
        },
{
    if build_names(contract, package, system, target) is Ok {
        lemma_names_of_build(contract, package, system, target);
        let own = own_bindings(contract, package);
        let special = special_bindings(contract, package, system, target);
        lemma_read_by_both(own, special, variable, false);
        lemma_read_by_both(own, special, variable, true);
    }
}

proof fn lemma_names_of_build(
    contract: ReleaseContract,
    package: Seq<char>,
    system: PackageSystem,
    target: RequestedTargetView,
)
    requires
        build_names(contract, package, system, target) is Ok,
        keys_ordered(own_bindings(contract, package)),
        keys_ordered(special_bindings(contract, package, system, target)),
        read_under_one_name(
            own_bindings(contract, package),
            special_bindings(contract, package, system, target),
        ),
    ensures
        ({
            let own = own_bindings(contract, package);
            let special = special_bindings(contract, package, system, target);
            &&& names_of_both(
                own,
                special,
                special.len() as int,
                build_names(contract, package, system, target)->Ok_0,
            )
            &&& forall|k: int| 0 <= k < own.len() ==> is_bound((#[trigger] own[k]).1)
            &&& forall|k: int| 0 <= k < special.len() ==> is_bound((#[trigger] special[k]).1)
        }),
{
    let own = own_bindings(contract, package);
    let special = special_bindings(contract, package, system, target);
    assert(names_of_own(own, 0, no_names()));
    lemma_own_names(own, special, 0, no_names());
    let names = with_bindings(no_names(), own, Seq::empty(), 0)->Ok_0;
    assert forall|v: Seq<char>, optional: bool| #[trigger]
        some_kept_reads(own, special, 0, v, optional) <==> some_reads(
            own,
            own.len() as int,
            v,
            optional,
        ) by {
        assert forall|name: Seq<char>| !(#[trigger] named_before(special, 0, name)) by {}
        if some_reads(own, own.len() as int, v, optional) {
            let k = choose|k: int|
                0 <= k < own.len() && k < own.len() && #[trigger] reads(own[k].1, v, optional);
            assert(reads(own[k].1, v, optional));
        }
        if some_kept_reads(own, special, 0, v, optional) {
            let k = choose|k: int|
                0 <= k < own.len() && !named_before(special, 0, own[k].0@) && #[trigger] reads(
                    own[k].1,
                    v,
                    optional,
                );
            assert(reads(own[k].1, v, optional));
        }
    }
    assert(names_of_both(own, special, 0, names));
    lemma_both_names(own, special, 0, names);
}

/// Whether a table has something to say of a variable.
pub open spec fn has_value(values: Map<Seq<char>, Seq<char>>, variable: Seq<char>) -> bool {
    values.contains_key(variable) && values[variable].len() > 0
}

proof fn lemma_bound_env(
    names: Seq<Seq<char>>,
    own: Seq<(String, EnvBinding)>,
    special: Seq<(String, EnvBinding)>,
    values: Map<Seq<char>, Seq<char>>,
    container: bool,
    from: int,
    env: Map<Seq<char>, Seq<char>>,
    mounts: Seq<PlannedEnvMountView>,
)
    requires
        0 <= from <= names.len(),
    ensures
        bound_env(names, own, special, values, container, from, env, mounts) is Ok
            <==> forall|i: int|
            from <= i < names.len() ==> binding_value(
                #[trigger] names[i],
                binding_of(own, special, names[i]),
                values,
                container,
            ) is Ok,
    decreases names.len() - from,
{
    if from < names.len() {
        let name = names[from];
        match binding_value(name, binding_of(own, special, name), values, container) {
            Err(_) => {},
            Ok(None) => {
                lemma_bound_env(names, own, special, values, container, from + 1, env, mounts);
            },
            Ok(Some((value, mount))) => {
                let more = match mount {
                    Some(mount) => mounts.push(mount),
                    None => mounts,
                };
                lemma_bound_env(
                    names,
                    own,
                    special,
                    values,
                    container,
                    from + 1,
                    env.insert(name, value),
                    more,
                );
            },
        }
    }
}

proof fn lemma_bound_names(own: Seq<(String, EnvBinding)>, special: Seq<(String, EnvBinding)>)
    ensures
        forall|name: Seq<char>| #[trigger]
            sorted(key_set(own).union(key_set(special))).contains(name) <==> is_bound_name(
                own,
                special,
                name,
            ),
{
    let all = own.map_values(|entry: (String, EnvBinding)| entry.0@) + special.map_values(
        |entry: (String, EnvBinding)| entry.0@,
    );
    assert forall|name: Seq<char>| #[trigger]
        all.contains(name) <==> is_bound_name(own, special, name) by {
        if has_key(own, name) {
            let i = choose|i: int| #[trigger] key_at(own, name, i);
            assert(all[i] == name);
        }
        if has_key(special, name) {
            let i = choose|i: int| #[trigger] key_at(special, name, i);
            assert(all[own.len() + i] == name);
        }
        if all.contains(name) {
            let i = all.index_of(name);
            if i < own.len() {
                assert(key_at(own, name, i));
            } else {
                assert(key_at(special, name, i - own.len()));
            }
        }
    }
    assert(members(all) =~= key_set(own).union(key_set(special)));
    lemma_sorted_members(all);
    assert forall|name: Seq<char>| #[trigger]
        sorted(members(all)).contains(name) <==> is_bound_name(own, special, name) by {
        assert(members(sorted(members(all))).contains(name) == members(all).contains(name));
    }
}

proof fn lemma_binding_that_counts(
    own: Seq<(String, EnvBinding)>,
    special: Seq<(String, EnvBinding)>,
    name: Seq<char>,
)
    requires
        keys_ordered(own),
        keys_ordered(special),
        is_bound_name(own, special, name),
    ensures
        (exists|k: int|
            0 <= k < own.len() && (#[trigger] own[k]).1 == binding_of(own, special, name)) || (
        exists|k: int|
            0 <= k < special.len() && (#[trigger] special[k]).1 == binding_of(own, special, name)),
{
    if has_key(special, name) {
        let j = choose|j: int| #[trigger] key_at(special, name, j);
        assert(key_at(special, name, j));
        lemma_entry_of(special, j);
        assert(special[j].1 == binding_of(own, special, name));
    } else {
        let k = choose|k: int| #[trigger] key_at(own, name, k);
        assert(key_at(own, name, k));
        lemma_entry_of(own, k);
        assert(own[k].1 == binding_of(own, special, name));
    }
}

/// Whether every value that bindings state says something.
pub open spec fn states_values(bindings: Seq<(String, EnvBinding)>) -> bool {
    forall|k: int|
        0 <= k < bindings.len() && (#[trigger] bindings[k]).1.value is Some
            ==> bindings[k].1.value->0@.len() > 0
}

/// A build that can be planned is planned with values exactly where each variable that it is
/// said to require has a value, and none of its optional variables is there without one. No
/// variable is read under two names, and the values that the bindings state say something.
pub proof fn lemma_named_variables_suffice(
    contract: ReleaseContract,
    package: Seq<char>,
    system: PackageSystem,
    target: RequestedTargetView,
    profile: BuildProfile,
    features: Seq<Seq<char>>,
    values: Map<Seq<char>, Seq<char>>,
)
    requires
        planned_build(contract, package, system, target, profile, features) is Ok,
        build_names(contract, package, system, target) is Ok,
        keys_ordered(own_bindings(contract, package)),
        keys_ordered(special_bindings(contract, package, system, target)),
        states_values(own_bindings(contract, package)),
        states_values(special_bindings(contract, package, system, target)),
        read_under_one_name(
            own_bindings(contract, package),
            special_bindings(contract, package, system, target),
        ),
    ensures
        ({
            let names = build_names(contract, package, system, target)->Ok_0;
            bound_build(contract, package, system, target, profile, features, values) is Ok <==> (
            forall|v: Seq<char>| #[trigger] names.required.contains(v) ==> has_value(values, v))
                && (forall|v: Seq<char>| #[trigger]
                names.optional.contains(v) && values.contains_key(v) ==> has_value(values, v))
        }),
{
    let own = own_bindings(contract, package);
    let special = special_bindings(contract, package, system, target);
    let names = build_names(contract, package, system, target)->Ok_0;
    let plan = planned_build(contract, package, system, target, profile, features)->Ok_0;
    let container = plan.container is Some;
    let listed = sorted(key_set(own).union(key_set(special)));
    lemma_names_of_build(contract, package, system, target);
    lemma_bound_names(own, special);
    lemma_bound_env(listed, own, special, values, container, 0, plan.env, plan.env_mounts);
    assert forall|v: Seq<char>|
        (#[trigger] names.required.contains(v) <==> is_read(own, special, v, false)) && (
        names.optional.contains(v) <==> is_read(own, special, v, true)) by {
        lemma_read_by_both(own, special, v, false);
        lemma_read_by_both(own, special, v, true);
    }
    let planned = bound_build(contract, package, system, target, profile, features, values) is Ok;
    if planned {
        assert forall|v: Seq<char>| #[trigger] names.required.contains(v) implies has_value(
            values,
            v,
        ) by {
            assert(is_read(own, special, v, false));
            let name = choose|name: Seq<char>| #[trigger]
                is_bound_name(own, special, name) && reads(
                    binding_of(own, special, name),
                    v,
                    false,
                );
            lemma_value_of_listed(own, special, values, container, name);
        }
        assert forall|v: Seq<char>| #[trigger]
            names.optional.contains(v) && values.contains_key(v) implies has_value(values, v) by {
            lemma_read_by_both(own, special, v, true);
            assert(is_read(own, special, v, true));
            let name = choose|name: Seq<char>| #[trigger]
                is_bound_name(own, special, name) && reads(binding_of(own, special, name), v, true);
            lemma_value_of_listed(own, special, values, container, name);
        }
    }
    if (forall|v: Seq<char>| #[trigger] names.required.contains(v) ==> has_value(values, v)) && (
    forall|v: Seq<char>| #[trigger]
        names.optional.contains(v) && values.contains_key(v) ==> has_value(values, v)) {
        assert forall|i: int| 0 <= i < listed.len() implies binding_value(
            #[trigger] listed[i],
            binding_of(own, special, listed[i]),
            values,
            container,
        ) is Ok by {
            let name = listed[i];
            assert(listed.contains(name));
            let binding = binding_of(own, special, name);
            lemma_binding_that_counts(own, special, name);
            if let Some(variable) = binding.env {
                assert(reads(binding, variable@, binding.optional));
                assert(is_read(own, special, variable@, binding.optional));
                assert(names.required.contains(variable@) || names.optional.contains(variable@));
            }
        }
    }
}

proof fn lemma_value_of_listed(
    own: Seq<(String, EnvBinding)>,
    special: Seq<(String, EnvBinding)>,
    values: Map<Seq<char>, Seq<char>>,
    container: bool,
    name: Seq<char>,
)
    requires
        keys_ordered(own),
        keys_ordered(special),
        is_bound_name(own, special, name),
        ({
            let listed = sorted(key_set(own).union(key_set(special)));
            forall|i: int|
                0 <= i < listed.len() ==> binding_value(
                    #[trigger] listed[i],
                    binding_of(own, special, listed[i]),
                    values,
                    container,
                ) is Ok
        }),
    ensures
        binding_value(name, binding_of(own, special, name), values, container) is Ok,
{
    let listed = sorted(key_set(own).union(key_set(special)));
    lemma_bound_names(own, special);
    assert(listed.contains(name));
    let i = listed.index_of(name);
    assert(listed[i] == name);
}

/// Whether two tables say the same of a variable.
pub open spec fn agree_on(
    values: Map<Seq<char>, Seq<char>>,
    others: Map<Seq<char>, Seq<char>>,
    variable: Seq<char>,
) -> bool {
    values.contains_key(variable) == others.contains_key(variable) && (values.contains_key(
        variable,
    ) ==> values[variable] == others[variable])
}

proof fn lemma_same_env(
    names: Seq<Seq<char>>,
    own: Seq<(String, EnvBinding)>,
    special: Seq<(String, EnvBinding)>,
    values: Map<Seq<char>, Seq<char>>,
    others: Map<Seq<char>, Seq<char>>,
    container: bool,
    from: int,
    env: Map<Seq<char>, Seq<char>>,
    mounts: Seq<PlannedEnvMountView>,
)
    requires
        0 <= from <= names.len(),
        forall|i: int|
            0 <= i < names.len() ==> binding_value(
                #[trigger] names[i],
                binding_of(own, special, names[i]),
                values,
                container,
            ) == binding_value(
                names[i],
                binding_of(own, special, names[i]),
                others,
                container,
            ),
    ensures
        bound_env(names, own, special, values, container, from, env, mounts) == bound_env(
            names,
            own,
            special,
            others,
            container,
            from,
            env,
            mounts,
        ),
    decreases names.len() - from,
{
    if from < names.len() {
        let name = names[from];
        match binding_value(name, binding_of(own, special, name), values, container) {
            Err(_) => {},
            Ok(None) => {
                lemma_same_env(
                    names,
                    own,
                    special,
                    values,
                    others,
                    container,
                    from + 1,
                    env,
                    mounts,
                );
            },
            Ok(Some((value, mount))) => {
                let more = match mount {
                    Some(mount) => mounts.push(mount),
                    None => mounts,
                };
                lemma_same_env(
                    names,
                    own,
                    special,
                    values,
                    others,
                    container,
                    from + 1,
                    env.insert(name, value),
                    more,
                );
            },
        }
    }
}

/// A build depends on nothing but the variables that it is said to need: tables that say the
/// same of them give the same plan. No variable is read under two names.
pub proof fn lemma_only_named_variables_matter(
    contract: ReleaseContract,
    package: Seq<char>,
    system: PackageSystem,
    target: RequestedTargetView,
    profile: BuildProfile,
    features: Seq<Seq<char>>,
    values: Map<Seq<char>, Seq<char>>,
    others: Map<Seq<char>, Seq<char>>,
)
    requires
        build_names(contract, package, system, target) is Ok,
        keys_ordered(own_bindings(contract, package)),
        keys_ordered(special_bindings(contract, package, system, target)),
        read_under_one_name(
            own_bindings(contract, package),
            special_bindings(contract, package, system, target),
        ),
        ({
            let names = build_names(contract, package, system, target)->Ok_0;
            forall|v: Seq<char>|
                names.required.contains(v) || names.optional.contains(v) ==> #[trigger] agree_on(
                    values,
                    others,
                    v,
                )
        }),
    ensures
        bound_build(contract, package, system, target, profile, features, values) == bound_build(
            contract,
            package,
            system,
            target,
            profile,
            features,
            others,
        ),
{
    if let Ok(plan) = planned_build(contract, package, system, target, profile, features) {
        let own = own_bindings(contract, package);
        let special = special_bindings(contract, package, system, target);
        let names = build_names(contract, package, system, target)->Ok_0;
        let container = plan.container is Some;
        let listed = sorted(key_set(own).union(key_set(special)));
        lemma_names_of_build(contract, package, system, target);
        lemma_bound_names(own, special);
        assert forall|i: int| 0 <= i < listed.len() implies binding_value(
            #[trigger] listed[i],
            binding_of(own, special, listed[i]),
            values,
            container,
        ) == binding_value(
            listed[i],
            binding_of(own, special, listed[i]),
            others,
            container,
        ) by {
            let name = listed[i];
            assert(listed.contains(name));
            let binding = binding_of(own, special, name);
            lemma_binding_that_counts(own, special, name);
            if let Some(variable) = binding.env {
                assert(reads(binding, variable@, binding.optional));
                assert(is_read(own, special, variable@, binding.optional));
                lemma_read_by_both(own, special, variable@, binding.optional);
                assert(agree_on(values, others, variable@));
            }
        }
        lemma_same_env(
            listed,
            own,
            special,
            values,
            others,
            container,
            0,
            plan.env,
            plan.env_mounts,
        );
    }
}

/// A publication finds its target as soon as every variable that it is said to need has a
/// value, unless the contract states a prefix or an address that holds nothing.
pub proof fn lemma_publish_variables_suffice(
    contract: ReleaseContract,
    system: PackageSystem,
    channel: ReleaseChannel,
    values: Map<Seq<char>, Seq<char>>,
)
    requires
        publish_env_names(contract, system) matches Ok(names) && forall|v: Seq<char>| #[trigger]
            names.contains(v) ==> has_value(values, v),
    ensures
        publish_target(contract, system, channel, values) matches Err(error) ==> error
            is RemotePrefix || error is PublicBaseUrl,
{
    let s3 = contract.destination.s3;
    let names = publish_env_names(contract, system)->Ok_0;
    assert(names.contains(s3.endpoint.env@));
    assert(names.contains(s3.access_key_id.env@));
    assert(names.contains(s3.secret_access_key.env@));
    match system {
        PackageSystem::Brew => {
            assert(names.contains(s3.brew->0.stable.tap.token.env@));
            assert(names.contains(s3.brew->0.preview.tap.token.env@));
        },
        PackageSystem::Scoop => {
            assert(names.contains(s3.scoop->0.stable.bucket.token.env@));
            assert(names.contains(s3.scoop->0.preview.bucket.token.env@));
        },
        PackageSystem::Deb => {
            assert(names.contains(s3.deb->0.signing.key.env@));
            assert(names.contains(s3.deb->0.signing.passphrase.env@));
            assert(names.contains(s3.deb->0.signing.fingerprint.env@));
        },
        PackageSystem::Rpm => {},
    }
}

/// Whether a planned unit sees the sources of the host exactly where it runs in a container, and
/// then those of the primary source first.
pub open spec fn sees_primary_source(
    unit: PlannedPackageBuildView,
    primary: SiblingSourceView,
) -> bool {
    match unit.source_overlay {
        None => unit.invocation.container is None,
        Some(overlay) => unit.invocation.container is Some && overlay.mounts.len() > 0
            && overlay.mounts[0] == crate::sibling::sibling_mount(primary),
    }
}

proof fn lemma_units_see_primary(
    contract: ReleaseContract,
    selected: Seq<SelectedBuildBranchView<'_>>,
    build: PackageBuildRequestView,
    overlay: ContainerOverlayPlanView,
    primary: SiblingSourceView,
    values: Map<Seq<char>, Seq<char>>,
    from: int,
    found: Seq<PlannedPackageBuildView>,
)
    requires
        0 <= from <= selected.len(),
        overlay.mounts.len() > 0,
        overlay.mounts[0] == crate::sibling::sibling_mount(primary),
        forall|i: int| 0 <= i < found.len() ==> sees_primary_source(#[trigger] found[i], primary),
    ensures
        planned_units(contract, selected, build, Some(overlay), true, values, from, found)
            matches Ok(units) ==> forall|i: int|
            0 <= i < units.len() ==> sees_primary_source(#[trigger] units[i], primary),
    decreases selected.len() - from,
{
    if from < selected.len() {
        let unit = selected[from];
        if let Ok(invocation) = bound_build(
            contract,
            unit.package_id,
            unit.system,
            unit.target,
            crate::plan::requested_profile(build.args.debug),
            build.args.features,
            values,
        ) {
            let planned = PlannedPackageBuildView {
                package_id: unit.package_id,
                system: unit.system,
                target: unit.target,
                invocation,
                source_overlay: if invocation.container is None {
                    None
                } else {
                    Some(overlay)
                },
            };
            assert(sees_primary_source(planned, primary));
            lemma_units_see_primary(
                contract,
                selected,
                build,
                overlay,
                primary,
                values,
                from + 1,
                found.push(planned),
            );
        }
    }
}

proof fn lemma_commands_see_primary(
    contract: ReleaseContract,
    builds: Seq<PackageBuildRequestView>,
    primary: SiblingSourceView,
    values: Map<Seq<char>, Seq<char>>,
    from: int,
    found: Seq<PlannedPackageBuildView>,
)
    requires
        0 <= from <= builds.len(),
        forall|i: int| 0 <= i < found.len() ==> sees_primary_source(#[trigger] found[i], primary),
    ensures
        command_units(contract, builds, Some(primary), values, from, found) matches Ok(units)
            ==> forall|i: int|
            0 <= i < units.len() ==> sees_primary_source(#[trigger] units[i], primary),
    decreases builds.len() - from,
{
    if from < builds.len() {
        let build = builds[from];
        if let Ok(next) = request_units(contract, build, Some(primary), values, found) {
            let selected = selected_branches(contract, build.system, build.args.targets)->Ok_0;
            let overlay = crate::plan::request_overlay(build, Some(primary))->Ok_0->0;
            assert(overlay.mounts[0] == crate::sibling::sibling_mount(primary));
            lemma_units_see_primary(
                contract,
                selected,
                build,
                overlay,
                primary,
                values,
                0,
                found,
            );
            lemma_commands_see_primary(contract, builds, primary, values, from + 1, next);
        }
    }
}

/// With a primary source, exactly the builds that run in a container see the sources of the
/// host, and the primary source first.
pub proof fn lemma_containers_see_primary_source(
    contract: ReleaseContract,
    builds: Seq<PackageBuildRequestView>,
    primary: SiblingSourceView,
    values: Map<Seq<char>, Seq<char>>,
)
    ensures
        command_units(contract, builds, Some(primary), values, 0, Seq::empty()) matches Ok(units)
            ==> forall|i: int|
            0 <= i < units.len() ==> sees_primary_source(#[trigger] units[i], primary),
{
    lemma_commands_see_primary(contract, builds, primary, values, 0, Seq::empty());
}

} // verus!
