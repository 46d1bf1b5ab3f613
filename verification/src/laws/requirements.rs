//! Laws of requirements: every bound that a contract states is a bound that the package
//! system is told.

use vstd::prelude::*;

use crate::contract::{
    branch_of, package_of, requires_of, ReleaseContract, RequiredPackageContract,
    VersionBoundSource, VersionBoundSourceContract,
};
use crate::laws::texts::{lemma_joined_holds_every_part, lemma_contained_twice};
use crate::package::{CargoMetadataView, PackageId, PackageVersionView};
use crate::plan::PlannedPackageBuildView;
use crate::requirements::{
    all_bounds, package_version_of, requirement_entries, required_bounds, resolved_requires,
    ResolvedVersionBoundsView,
};
use crate::runner::{all_entries, unit_env};
use crate::system::PackageSystem;
use crate::text::{contains_text, joined, lemma_text_lt_irreflexive, occurs_at, text_lt};
use crate::textmap::{keys_ordered, lemma_sorted_members, members, sorted};

verus! {

/// What an entry says that demands at least a version of a package.
pub open spec fn at_least(system: PackageSystem, package: Seq<char>, version: Seq<char>) -> Seq<char> {
    if system is Deb {
        package + " (>= "@ + version + ")"@
    } else {
        package + " >= "@ + version
    }
}

/// What an entry says that demands at most a version of a package.
pub open spec fn no_more_than(system: PackageSystem, package: Seq<char>, version: Seq<char>) -> Seq<
    char,
> {
    if system is Deb {
        package + " (<= "@ + version + ")"@
    } else {
        package + " <= "@ + version
    }
}

/// Each bound of a requirement is an entry, whether or not the other is stated: the least
/// version first, the greatest last. The name alone is an entry exactly where no bound is
/// stated, and there is no other entry.
pub proof fn lemma_every_bound_is_an_entry(
    system: PackageSystem,
    package: Seq<char>,
    bounds: ResolvedVersionBoundsView,
)
    requires
        system is Deb || system is Rpm,
    ensures
        ({
            let entries = requirement_entries(system, package, bounds);
            &&& bounds.minimum matches Some(version) ==> entries.first() == at_least(
                system,
                package,
                version,
            )
            &&& bounds.maximum matches Some(version) ==> entries.last() == no_more_than(
                system,
                package,
                version,
            )
            &&& entries.contains(package) <==> bounds.minimum is None && bounds.maximum is None
            &&& entries.len() == if bounds.minimum is Some && bounds.maximum is Some {
                2int
            } else {
                1
            }
        }),
{
    reveal_strlit(" (>= ");
    reveal_strlit(" (<= ");
    reveal_strlit(" >= ");
    reveal_strlit(" <= ");
    reveal_strlit(")");
    reveal_strlit("");
    let entries = requirement_entries(system, package, bounds);
    if let Some(version) = bounds.minimum {
        assert(entries[0] =~= at_least(system, package, version));
    }
    if let Some(version) = bounds.maximum {
        assert(entries.last() =~= no_more_than(system, package, version));
    }
    if bounds.minimum is None && bounds.maximum is None {
        assert(entries[0] == package);
    }
}

/// The version that a bound stands for: the one that is written down, that of the package
/// itself, or that of the package that it requires.
pub open spec fn is_bound(
    bound: Option<VersionBoundSourceContract>,
    own: PackageVersionView,
    dependency: PackageVersionView,
    resolved: Option<Seq<char>>,
) -> bool {
    match bound {
        None => resolved is None,
        Some(bound) => match bound.from {
            VersionBoundSource::Literal(value) => resolved == Some(value@),
            VersionBoundSource::SelfPackage => resolved == Some(own.text()),
            VersionBoundSource::DependencyPackage => resolved == Some(dependency.text()),
        },
    }
}

/// A package is named among those that are required, from some place on.
spec fn named_from(
    required: Seq<(PackageId, RequiredPackageContract)>,
    from: int,
    package: Seq<char>,
) -> bool {
    exists|k: int|
        from <= k < required.len() && (#[trigger] required[k]).0.deep_view() == package
}

proof fn lemma_bounds_from(
    contract: ReleaseContract,
    contract_root: Seq<char>,
    system: PackageSystem,
    cargo: Map<Seq<char>, CargoMetadataView>,
    own: PackageVersionView,
    required: Seq<(PackageId, RequiredPackageContract)>,
    from: int,
    found: Map<Seq<char>, ResolvedVersionBoundsView>,
)
    requires
        0 <= from <= required.len(),
        keys_ordered(required),
    ensures
        all_bounds(contract, contract_root, system, cargo, own, required, from, found) matches Ok(
            resolved,
        ) ==> {
            &&& forall|package: Seq<char>|
                !#[trigger] named_from(required, from, package) ==> resolved.contains_key(package)
                    == found.contains_key(package) && resolved[package] == found[package]
            &&& forall|k: int|
                from <= k < required.len() ==> {
                    let package = (#[trigger] required[k]).0.deep_view();
                    &&& package_version_of(
                        contract,
                        contract_root,
                        package,
                        system,
                        cargo,
                        true,
                    ) matches Ok(dependency)
                    &&& resolved.contains_key(package)
                    &&& resolved[package] == required_bounds(required[k].1, own, dependency)
                }
        },
    decreases required.len() - from,
{
    if from < required.len() {
        let id = required[from].0.deep_view();
        if let Ok(dependency) = package_version_of(
            contract,
            contract_root,
            id,
            system,
            cargo,
            true,
        ) {
            let bounds = required_bounds(required[from].1, own, dependency);
            let next = found.insert(id, bounds);
            lemma_bounds_from(
                contract,
                contract_root,
                system,
                cargo,
                own,
                required,
                from + 1,
                next,
            );
            if let Ok(resolved) = all_bounds(
                contract,
                contract_root,
                system,
                cargo,
                own,
                required,
                from,
                found,
            ) {
                assert forall|k: int| from < k < required.len() implies (
                #[trigger] required[k]).0.deep_view() != id by {
                    assert(text_lt(
                        required[from].0.deep_view(),
                        required[k].0.deep_view(),
                    ));
                    lemma_text_lt_irreflexive(id);
                }
                assert(!named_from(required, from + 1, id));
                assert(next[id] == bounds);
                assert forall|package: Seq<char>|
                    !#[trigger] named_from(required, from, package) implies resolved.contains_key(
                    package,
                ) == found.contains_key(package) && resolved[package] == found[package] by {
                    assert(required[from].0.deep_view() != package);
                    assert(!named_from(required, from + 1, package));
                }
            }
        }
    }
}

/// What a package requires is resolved to one pair of bounds for each package that its branch
/// names, and for no other. A bound is resolved exactly where it is stated.
pub proof fn lemma_every_requirement_is_resolved(
    contract: ReleaseContract,
    contract_root: Seq<char>,
    package: Seq<char>,
    system: PackageSystem,
    cargo: Map<Seq<char>, CargoMetadataView>,
    required: Seq<(PackageId, RequiredPackageContract)>,
)
    requires
        keys_ordered(required),
        package_of(contract, package) matches Some(found) ==> (branch_of(found, system) matches Some(
            branch,
        ) ==> requires_of(branch) == required),
    ensures
        resolved_requires(contract, contract_root, package, system, cargo) matches Ok(resolved) ==> {
            &&& resolved.dom() == members(
                required.map_values(|entry: (PackageId, RequiredPackageContract)| entry.0.deep_view()),
            )
            &&& package_version_of(
                contract,
                contract_root,
                package,
                system,
                cargo,
                false,
            ) matches Ok(own)
            &&& forall|k: int|
                0 <= k < required.len() ==> {
                    let name = (#[trigger] required[k]).0.deep_view();
                    &&& package_version_of(
                        contract,
                        contract_root,
                        name,
                        system,
                        cargo,
                        true,
                    ) matches Ok(dependency)
                    &&& is_bound(
                        required[k].1.version.minimum,
                        own,
                        dependency,
                        resolved[name].minimum,
                    )
                    &&& is_bound(
                        required[k].1.version.maximum,
                        own,
                        dependency,
                        resolved[name].maximum,
                    )
                }
        },
{
    if let Ok(resolved) = resolved_requires(contract, contract_root, package, system, cargo) {
        let own = package_version_of(contract, contract_root, package, system, cargo, false)->Ok_0;
        let none = Map::<Seq<char>, ResolvedVersionBoundsView>::empty();
        lemma_bounds_from(contract, contract_root, system, cargo, own, required, 0, none);
        let names = required.map_values(
            |entry: (PackageId, RequiredPackageContract)| entry.0.deep_view(),
        );
        assert forall|name: Seq<char>| resolved.dom().contains(name) == #[trigger] names.contains(
            name,
        ) by {
            if names.contains(name) {
                let k = choose|k: int| 0 <= k < names.len() && names[k] == name;
                assert(required[k].0.deep_view() == name);
            } else {
                assert forall|k: int| 0 <= k < required.len() implies (
                #[trigger] required[k]).0.deep_view() != name by {
                    assert(names[k] == required[k].0.deep_view());
                }
                assert(!named_from(required, 0, name));
                assert(!none.contains_key(name));
            }
        }
        assert(resolved.dom() =~= members(names));
    }
}

proof fn lemma_entries_from(
    system: PackageSystem,
    packages: Seq<Seq<char>>,
    bounds: Map<Seq<char>, ResolvedVersionBoundsView>,
    from: int,
    found: Seq<Seq<char>>,
)
    requires
        0 <= from <= packages.len(),
    ensures
        ({
            let all = all_entries(system, packages, bounds, from, found);
            &&& forall|i: int| 0 <= i < found.len() ==> all.contains(#[trigger] found[i])
            &&& forall|k: int, i: int|
                #![trigger requirement_entries(system, packages[k], bounds[packages[k]])[i]]
                from <= k < packages.len() && 0 <= i < requirement_entries(
                    system,
                    packages[k],
                    bounds[packages[k]],
                ).len() ==> all.contains(
                    requirement_entries(system, packages[k], bounds[packages[k]])[i],
                )
        }),
    decreases packages.len() - from,
{
    let all = all_entries(system, packages, bounds, from, found);
    if from < packages.len() {
        let entries = requirement_entries(system, packages[from], bounds[packages[from]]);
        let next = found + entries;
        lemma_entries_from(system, packages, bounds, from + 1, next);
        assert forall|i: int| 0 <= i < found.len() implies all.contains(#[trigger] found[i]) by {
            assert(next[i] == found[i]);
        }
        assert forall|k: int, i: int|
            #![trigger requirement_entries(system, packages[k], bounds[packages[k]])[i]]
            from <= k < packages.len() && 0 <= i < requirement_entries(
                system,
                packages[k],
                bounds[packages[k]],
            ).len() implies all.contains(
            requirement_entries(system, packages[k], bounds[packages[k]])[i],
        ) by {
            if k == from {
                assert(next[found.len() + i] == entries[i]);
            }
        }
    }
}

/// Nothing else is listed: each entry is one of a package that is required.
pub proof fn lemma_only_requirements_are_listed(
    system: PackageSystem,
    packages: Seq<Seq<char>>,
    bounds: Map<Seq<char>, ResolvedVersionBoundsView>,
    from: int,
    found: Seq<Seq<char>>,
    entry: Seq<char>,
)
    requires
        0 <= from <= packages.len(),
        all_entries(system, packages, bounds, from, found).contains(entry),
    ensures
        found.contains(entry) || exists|k: int|
            from <= k < packages.len() && requirement_entries(
                system,
                #[trigger] packages[k],
                bounds[packages[k]],
            ).contains(entry),
    decreases packages.len() - from,
{
    if from < packages.len() {
        let entries = requirement_entries(system, packages[from], bounds[packages[from]]);
        lemma_only_requirements_are_listed(
            system,
            packages,
            bounds,
            from + 1,
            found + entries,
            entry,
        );
        if (found + entries).contains(entry) {
            let all = found + entries;
            let i = choose|i: int| 0 <= i < all.len() && all[i] == entry;
            if i < found.len() {
                assert(found[i] == entry);
            } else {
                assert(entries[i - found.len()] == entry);
            }
        }
    }
}

/// Whether a text is a list, with commas and spaces between its entries, one of which speaks of
/// a package.
pub open spec fn is_list_with(text: Seq<char>, system: PackageSystem, package: Seq<char>) -> bool {
    exists|entries: Seq<Seq<char>>, bounds: ResolvedVersionBoundsView|
        text == #[trigger] joined(entries, ", "@) && entries.contains(
            (#[trigger] requirement_entries(system, package, bounds)).first(),
        ) && entries.contains(requirement_entries(system, package, bounds).last())
}

/// Every bound that a Linux package states of another one, as least or as greatest version,
/// stands in the requirements that its build is told, and so does the name of a package of
/// which it states none.
pub proof fn lemma_builds_are_told_every_bound(
    contract: ReleaseContract,
    root: Seq<char>,
    target_dir: Seq<char>,
    cargo: Map<Seq<char>, CargoMetadataView>,
    unit: PlannedPackageBuildView,
    required: Seq<(PackageId, RequiredPackageContract)>,
    k: int,
)
    requires
        unit.system is Deb || unit.system is Rpm,
        keys_ordered(required),
        package_of(contract, unit.package_id) matches Some(found) && branch_of(
            found,
            unit.system,
        ) matches Some(branch) && requires_of(branch) == required,
        0 <= k < required.len(),
    ensures
        unit_env(contract, root, target_dir, cargo, unit) matches Ok(env) ==> {
            let told = env["XTASK_RELEASE_REQUIRES"@];
            let name = required[k].0.deep_view();
            let stated = required[k].1.version;
            &&& env.contains_key("XTASK_RELEASE_REQUIRES"@)
            &&& is_list_with(told, unit.system, name)
            &&& contains_text(told, name)
            &&& stated.minimum matches Some(bound) ==> (bound.from matches VersionBoundSource::Literal(
                value,
            ) ==> contains_text(told, at_least(unit.system, name, value@)))
            &&& stated.maximum matches Some(bound) ==> (bound.from matches VersionBoundSource::Literal(
                value,
            ) ==> contains_text(told, no_more_than(unit.system, name, value@)))
            &&& package_version_of(
                contract,
                root,
                unit.package_id,
                unit.system,
                cargo,
                false,
            ) matches Ok(own)
            &&& stated.minimum matches Some(bound) ==> (bound.from is SelfPackage ==> contains_text(
                told,
                at_least(unit.system, name, own.text()),
            ))
            &&& stated.maximum matches Some(bound) ==> (bound.from is SelfPackage ==> contains_text(
                told,
                no_more_than(unit.system, name, own.text()),
            ))
            &&& package_version_of(
                contract,
                root,
                name,
                unit.system,
                cargo,
                true,
            ) matches Ok(other)
            &&& stated.minimum matches Some(bound) ==> (bound.from is DependencyPackage
                ==> contains_text(told, at_least(unit.system, name, other.text())))
            &&& stated.maximum matches Some(bound) ==> (bound.from is DependencyPackage
                ==> contains_text(told, no_more_than(unit.system, name, other.text())))
        },
{
    if let Ok(env) = unit_env(contract, root, target_dir, cargo, unit) {
        let name = required[k].0.deep_view();
        let bounds = resolved_requires(contract, root, unit.package_id, unit.system, cargo)->Ok_0;
        lemma_every_requirement_is_resolved(
            contract,
            root,
            unit.package_id,
            unit.system,
            cargo,
            required,
        );
        let names = required.map_values(
            |entry: (PackageId, RequiredPackageContract)| entry.0.deep_view(),
        );
        lemma_sorted_members(names);
        let packages = sorted(bounds.dom());
        assert(names[k] == name);
        assert(members(packages).contains(name));
        let at = choose|at: int| 0 <= at < packages.len() && packages[at] == name;
        let entries = requirement_entries(unit.system, name, bounds[name]);
        let all = all_entries(unit.system, packages, bounds, 0, Seq::empty());
        lemma_entries_from(unit.system, packages, bounds, 0, Seq::empty());
        lemma_every_bound_is_an_entry(unit.system, name, bounds[name]);
        let told = env["XTASK_RELEASE_REQUIRES"@];
        assert forall|i: int| 0 <= i < entries.len() implies contains_text(
            told,
            #[trigger] entries[i],
        ) && contains_text(entries[i], name) by {
            assert(requirement_entries(unit.system, packages[at], bounds[packages[at]])[i]
                == entries[i]);
            let j = choose|j: int| 0 <= j < all.len() && all[j] == entries[i];
            lemma_joined_holds_every_part(all, ", "@, j);
            assert(entries[i].subrange(0, name.len() as int) =~= name);
            assert(occurs_at(entries[i], name, 0));
        }
        assert(contains_text(told, entries[0]));
        lemma_contained_twice(told, entries[0], name);
        let last = entries.len() - 1;
        assert(requirement_entries(unit.system, packages[at], bounds[packages[at]])[0]
            == entries.first());
        assert(requirement_entries(unit.system, packages[at], bounds[packages[at]])[last]
            == entries.last());
        assert(told == joined(all, ", "@));
        assert(all.contains(requirement_entries(unit.system, name, bounds[name]).first()));
    }
}

} // verus!
