//! Laws of contracts and manifests: what an accepted one promises to those who work with it.

use vstd::prelude::*;

use crate::contract::{
    branch_fault, branch_of, branch_requires_fault, branches_fault, branches_up_to, contract_fault,
    dependencies_fault, destination_branch_fault, has_destination, package_fault, package_of,
    packages_fault, requires_fault, requires_of, some_branch, stated_build, system_of,
    PackageBranchRef, PackageContract, ReleaseContract, RequiredPackageContract,
};
use crate::manifest::{
    artifact_fault, artifacts_fault, first_outside, manifest_fault, manifest_targets,
    requested_names, same_package, targets_difference, PackageArtifactView, PackageManifestView,
};
use crate::package::{metadata_of, CargoMetadataView, PackageId};
use crate::path::{absolute, leads_upward};
use crate::plan::{planned_build, target_matches};
use crate::publish::{
    artifact_payload, artifact_payloads, manifest_payloads, LinuxPackagePayloadView,
};
use crate::requirements::{all_bounds, package_version_of, resolved_requires};
use crate::system::{is_linux_system, BuildProfile, PackageSystem, RequestedTargetView};
use crate::textmap::{
    key_at, keys_ordered, lemma_entry_of, lemma_sorted_members, members, sorted,
};

verus! {

/// A branch of a package is one of its listed branches.
proof fn lemma_branch_is_listed(package: PackageContract, system: PackageSystem)
    ensures
        branch_of(package, system) matches Some(branch) ==> system_of(branch) == system
            && exists|j: int|
            0 <= j < branches_up_to(package, 4).len() && #[trigger] branches_up_to(package, 4)[j]
                == branch,
{
    reveal_with_fuel(branches_up_to, 5);
    if let Some(branch) = branch_of(package, system) {
        let one = branches_up_to(package, 1);
        let two = branches_up_to(package, 2);
        let three = branches_up_to(package, 3);
        let all = branches_up_to(package, 4);
        let at = match system {
            PackageSystem::Deb => 0int,
            PackageSystem::Rpm => one.len() as int,
            PackageSystem::Brew => two.len() as int,
            PackageSystem::Scoop => three.len() as int,
        };
        assert(all[at] == branch);
    }
}

proof fn lemma_no_package_fault(packages: Seq<(PackageId, PackageContract)>, from: int, i: int)
    requires
        packages_fault(packages, from) is None,
        0 <= from <= i < packages.len(),
    ensures
        package_fault(packages[i].0.deep_view(), packages[i].1) is None,
    decreases i - from,
{
    if from < i {
        lemma_no_package_fault(packages, from + 1, i);
    }
}

proof fn lemma_no_branch_fault(
    package: Seq<char>,
    branches: Seq<PackageBranchRef<'_>>,
    from: int,
    j: int,
)
    requires
        branches_fault(package, branches, from) is None,
        0 <= from <= j < branches.len(),
    ensures
        branch_fault(package, branches[j]) is None,
    decreases j - from,
{
    if from < j {
        lemma_no_branch_fault(package, branches, from + 1, j);
    }
}

proof fn lemma_no_requires_fault(contract: ReleaseContract, from: int, i: int)
    requires
        requires_fault(contract, from) is None,
        0 <= from <= i < contract.package.items().len(),
    ensures
        branch_requires_fault(
            contract,
            contract.package.items()[i].0.deep_view(),
            branches_up_to(contract.package.items()[i].1, 4),
            0,
        ) is None,
    decreases i - from,
{
    if from < i {
        lemma_no_requires_fault(contract, from + 1, i);
    }
}

proof fn lemma_no_branch_requires_fault(
    contract: ReleaseContract,
    package: Seq<char>,
    branches: Seq<PackageBranchRef<'_>>,
    from: int,
    j: int,
)
    requires
        branch_requires_fault(contract, package, branches, from) is None,
        0 <= from <= j < branches.len(),
    ensures
        dependencies_fault(
            contract,
            package,
            system_of(branches[j]),
            requires_of(branches[j]),
            0,
        ) is None,
    decreases j - from,
{
    if from < j {
        lemma_no_branch_requires_fault(contract, package, branches, from + 1, j);
    }
}

proof fn lemma_no_dependency_fault(
    contract: ReleaseContract,
    package: Seq<char>,
    system: PackageSystem,
    required: Seq<(PackageId, RequiredPackageContract)>,
    from: int,
    k: int,
)
    requires
        dependencies_fault(contract, package, system, required, from) is None,
        0 <= from <= k < required.len(),
    ensures
        package_of(contract, required[k].0.deep_view()) matches Some(found) && branch_of(
            found,
            system,
        ) is Some,
    decreases k - from,
{
    if from < k {
        lemma_no_dependency_fault(contract, package, system, required, from + 1, k);
    }
}

/// Every package that an accepted contract requires is a package of the contract, and has a
/// branch of the same package system.
pub proof fn lemma_accepted_requirements_exist(
    contract: ReleaseContract,
    i: int,
    system: PackageSystem,
    k: int,
)
    requires
        contract_fault(contract) is None,
        0 <= i < contract.package.items().len(),
        branch_of(contract.package.items()[i].1, system) is Some,
        0 <= k < requires_of(branch_of(contract.package.items()[i].1, system)->0).len(),
    ensures
        ({
            let required = requires_of(branch_of(contract.package.items()[i].1, system)->0)[k];
            package_of(contract, required.0.deep_view()) matches Some(found) && branch_of(
                found,
                system,
            ) is Some
        }),
{
    let (id, package) = contract.package.items()[i];
    let branch = branch_of(package, system)->0;
    let branches = branches_up_to(package, 4);
    lemma_branch_is_listed(package, system);
    let j = choose|j: int| 0 <= j < branches.len() && #[trigger] branches[j] == branch;
    lemma_no_requires_fault(contract, 0, i);
    lemma_no_branch_requires_fault(contract, id.deep_view(), branches, 0, j);
    lemma_no_dependency_fault(contract, id.deep_view(), system, requires_of(branch), 0, k);
}

/// Where an accepted contract has a destination for a package system, one of its packages has a
/// branch of that system.
pub proof fn lemma_accepted_destinations_are_used(contract: ReleaseContract, system: PackageSystem)
    requires
        contract_fault(contract) is None,
        has_destination(contract, system),
    ensures
        some_branch(contract, system),
{
    assert(destination_branch_fault(contract, system) is None);
}

/// A package of an accepted contract that states its version also states the rest: its metadata
/// resolves, whatever the Cargo manifests hold.
pub proof fn lemma_accepted_metadata_resolves(
    contract: ReleaseContract,
    i: int,
    contract_root: Seq<char>,
    cargo: Map<Seq<char>, CargoMetadataView>,
)
    requires
        contract_fault(contract) is None,
        keys_ordered(contract.package.items()),
        0 <= i < contract.package.items().len(),
        contract.package.items()[i].1.manifest is None,
    ensures
        metadata_of(contract, contract.package.items()[i].0.deep_view(), contract_root, cargo)
            is Ok,
{
    lemma_no_package_fault(contract.package.items(), 0, i);
    lemma_entry_of(contract.package.items(), i);
}

/// A branch of an accepted contract that leaves its executor to the package system can be built
/// for every target that it matches.
pub proof fn lemma_accepted_branches_build(
    contract: ReleaseContract,
    i: int,
    system: PackageSystem,
    target: RequestedTargetView,
    profile: BuildProfile,
    features: Seq<Seq<char>>,
)
    requires
        contract_fault(contract) is None,
        keys_ordered(contract.package.items()),
        0 <= i < contract.package.items().len(),
        branch_of(contract.package.items()[i].1, system) matches Some(branch) && stated_build(
            branch,
        ) is None && target_matches(target, branch),
    ensures
        planned_build(
            contract,
            contract.package.items()[i].0.deep_view(),
            system,
            target,
            profile,
            features,
        ) matches Ok(plan) && plan.container is Some == is_linux_system(system) && (
        !is_linux_system(system) ==> plan.script.len() > 0),
{
    let (id, package) = contract.package.items()[i];
    let branch = branch_of(package, system)->0;
    let branches = branches_up_to(package, 4);
    lemma_no_package_fault(contract.package.items(), 0, i);
    lemma_entry_of(contract.package.items(), i);
    lemma_branch_is_listed(package, system);
    let j = choose|j: int| 0 <= j < branches.len() && #[trigger] branches[j] == branch;
    lemma_no_branch_fault(id.deep_view(), branches, 0, j);
    assert(branch_fault(id.deep_view(), branch) is None);
}

proof fn lemma_all_bounds(
    contract: ReleaseContract,
    contract_root: Seq<char>,
    package: Seq<char>,
    system: PackageSystem,
    cargo: Map<Seq<char>, CargoMetadataView>,
    from: int,
    found: Map<Seq<char>, crate::requirements::ResolvedVersionBoundsView>,
)
    requires
        package_version_of(contract, contract_root, package, system, cargo, false) is Ok,
        ({
            let required = requires_of(branch_of(package_of(contract, package)->0, system)->0);
            &&& 0 <= from <= required.len()
            &&& forall|k: int|
                from <= k < required.len() ==> package_version_of(
                    contract,
                    contract_root,
                    (#[trigger] required[k]).0.deep_view(),
                    system,
                    cargo,
                    true,
                ) is Ok
        }),
    ensures
        all_bounds(
            contract,
            contract_root,
            system,
            cargo,
            package_version_of(contract, contract_root, package, system, cargo, false)->Ok_0,
            requires_of(branch_of(package_of(contract, package)->0, system)->0),
            from,
            found,
        ) is Ok,
    decreases
            requires_of(branch_of(package_of(contract, package)->0, system)->0).len() - from,
{
    let own = package_version_of(contract, contract_root, package, system, cargo, false)->Ok_0;
    let required = requires_of(branch_of(package_of(contract, package)->0, system)->0);
    if from < required.len() {
        let id = required[from].0.deep_view();
        let dependency = package_version_of(contract, contract_root, id, system, cargo, true)->Ok_0;
        lemma_all_bounds(
            contract,
            contract_root,
            package,
            system,
            cargo,
            from + 1,
            found.insert(
                id,
                crate::requirements::required_bounds(required[from].1, own, dependency),
            ),
        );
    }
}

/// The requirements of a branch of an accepted contract resolve as soon as the metadata of the
/// package and of everything that it requires do.
pub proof fn lemma_accepted_requirements_resolve(
    contract: ReleaseContract,
    i: int,
    system: PackageSystem,
    contract_root: Seq<char>,
    cargo: Map<Seq<char>, CargoMetadataView>,
)
    requires
        contract_fault(contract) is None,
        keys_ordered(contract.package.items()),
        0 <= i < contract.package.items().len(),
        branch_of(contract.package.items()[i].1, system) is Some,
        metadata_of(contract, contract.package.items()[i].0.deep_view(), contract_root, cargo)
            is Ok,
        forall|k: int|
            0 <= k < requires_of(branch_of(contract.package.items()[i].1, system)->0).len()
                ==> metadata_of(
                contract,
                (#[trigger] requires_of(branch_of(contract.package.items()[i].1, system)->0)[k]).0
                    .deep_view(),
                contract_root,
                cargo,
            ) is Ok,
    ensures
        resolved_requires(
            contract,
            contract_root,
            contract.package.items()[i].0.deep_view(),
            system,
            cargo,
        ) is Ok,
{
    let items = contract.package.items();
    let (id, package) = items[i];
    let branch = branch_of(package, system)->0;
    let required = requires_of(branch);
    lemma_entry_of(items, i);
    lemma_version_of_accepted(contract, i, system, contract_root, cargo, false);
    assert forall|k: int| 0 <= k < required.len() implies package_version_of(
        contract,
        contract_root,
        (#[trigger] required[k]).0.deep_view(),
        system,
        cargo,
        true,
    ) is Ok by {
        lemma_accepted_requirements_exist(contract, i, system, k);
        let dependency = required[k].0.deep_view();
        let at = choose|at: int| #[trigger] key_at(items, dependency, at);
        assert(key_at(items, dependency, at));
        lemma_entry_of(items, at);
        lemma_version_of_accepted(contract, at, system, contract_root, cargo, true);
    }
    lemma_all_bounds(contract, contract_root, id.deep_view(), system, cargo, 0, Map::empty());
}

proof fn lemma_version_of_accepted(
    contract: ReleaseContract,
    i: int,
    system: PackageSystem,
    contract_root: Seq<char>,
    cargo: Map<Seq<char>, CargoMetadataView>,
    dependency: bool,
)
    requires
        contract_fault(contract) is None,
        keys_ordered(contract.package.items()),
        0 <= i < contract.package.items().len(),
        branch_of(contract.package.items()[i].1, system) is Some,
        metadata_of(contract, contract.package.items()[i].0.deep_view(), contract_root, cargo)
            is Ok,
    ensures
        package_version_of(
            contract,
            contract_root,
            contract.package.items()[i].0.deep_view(),
            system,
            cargo,
            dependency,
        ) is Ok,
{
    let (id, package) = contract.package.items()[i];
    let branch = branch_of(package, system)->0;
    let branches = branches_up_to(package, 4);
    lemma_no_package_fault(contract.package.items(), 0, i);
    lemma_entry_of(contract.package.items(), i);
    lemma_branch_is_listed(package, system);
    let j = choose|j: int| 0 <= j < branches.len() && #[trigger] branches[j] == branch;
    lemma_no_branch_fault(id.deep_view(), branches, 0, j);
    assert(branch_fault(id.deep_view(), branch) is None);
}

/// What a manifest must say of one of its artifacts.
pub open spec fn is_sound_artifact(
    kind: PackageSystem,
    artifacts: Seq<PackageArtifactView>,
    i: int,
) -> bool {
    let artifact = artifacts[i];
    &&& !absolute(artifact.path)
    &&& !leads_upward(artifact.path)
    &&& if is_linux_system(kind) {
        &&& artifact.package_name is Some
        &&& artifact.package_version is Some
        &&& artifact.architecture is Some
        &&& forall|j: int| 0 <= j < i ==> !same_package(#[trigger] artifacts[j], artifact)
    } else {
        artifact.archive_name is Some
    }
}

proof fn lemma_sound_artifacts(kind: PackageSystem, artifacts: Seq<PackageArtifactView>, from: int)
    requires
        0 <= from <= artifacts.len(),
    ensures
        artifacts_fault(kind, artifacts, from) is None <==> forall|i: int|
            from <= i < artifacts.len() ==> #[trigger] is_sound_artifact(kind, artifacts, i),
    decreases artifacts.len() - from,
{
    if from < artifacts.len() {
        lemma_sound_artifacts(kind, artifacts, from + 1);
        assert(artifact_fault(kind, artifacts, from) is None <==> is_sound_artifact(
            kind,
            artifacts,
            from,
        ));
    }
}

/// A manifest is accepted exactly where every artifact lies below the target directory, says
/// what its package system needs, and no package is there twice for one architecture.
pub proof fn lemma_accepted_manifest_is_sound(manifest: PackageManifestView)
    ensures
        manifest_fault(manifest) is None <==> forall|i: int|
            0 <= i < manifest.artifacts.len() ==> #[trigger] is_sound_artifact(
                manifest.kind,
                manifest.artifacts,
                i,
            ),
{
    lemma_sound_artifacts(manifest.kind, manifest.artifacts, 0);
}

proof fn lemma_payload_each(
    artifacts: Seq<PackageArtifactView>,
    from: int,
    found: Seq<LinuxPackagePayloadView>,
)
    requires
        0 <= from <= artifacts.len(),
        found.len() == from,
        forall|i: int|
            from <= i < artifacts.len() ==> artifact_payload(#[trigger] artifacts[i]) is Ok,
    ensures
        artifact_payloads(artifacts, from, found) matches Ok(payloads) && payloads.len()
            == artifacts.len() && (forall|i: int|
            0 <= i < from ==> #[trigger] payloads[i] == found[i]) && (forall|i: int|
            from <= i < artifacts.len() ==> artifact_payload(artifacts[i]) == Ok::<
                _,
                crate::publish::LinuxPackagePayloadsFromManifestErrorView,
            >(#[trigger] payloads[i])),
    decreases artifacts.len() - from,
{
    if from < artifacts.len() {
        let payload = artifact_payload(artifacts[from])->Ok_0;
        lemma_payload_each(artifacts, from + 1, found.push(payload));
        let payloads = artifact_payloads(artifacts, from, found)->Ok_0;
        assert(payloads[from] == payload);
    }
}

/// An accepted manifest of a Linux package system whose archives have names holds one payload
/// for each of its artifacts, and no two of them are of one package and architecture.
pub proof fn lemma_accepted_manifest_has_payloads(manifest: PackageManifestView)
    requires
        manifest_fault(manifest) is None,
        is_linux_system(manifest.kind),
        forall|i: int|
            0 <= i < manifest.artifacts.len() ==> (#[trigger] manifest.artifacts[i]).archive_name
                is Some,
    ensures
        manifest_payloads(manifest) matches Ok(payloads) && payloads.len()
            == manifest.artifacts.len() && (forall|i: int, j: int|
            0 <= i < j < payloads.len() ==> crate::publish::payload_place(#[trigger] payloads[i])
                != crate::publish::payload_place(#[trigger] payloads[j])),
{
    lemma_accepted_manifest_is_sound(manifest);
    let artifacts = manifest.artifacts;
    assert forall|i: int| 0 <= i < artifacts.len() implies artifact_payload(
        #[trigger] artifacts[i],
    ) is Ok by {
        assert(is_sound_artifact(manifest.kind, artifacts, i));
    }
    lemma_payload_each(artifacts, 0, Seq::empty());
    let payloads = manifest_payloads(manifest)->Ok_0;
    assert forall|i: int, j: int|
        0 <= i < j < payloads.len() implies crate::publish::payload_place(#[trigger] payloads[i])
        != crate::publish::payload_place(#[trigger] payloads[j]) by {
        assert(is_sound_artifact(manifest.kind, artifacts, i));
        assert(is_sound_artifact(manifest.kind, artifacts, j));
        assert(!same_package(artifacts[i], artifacts[j]));
        assert(artifact_payload(artifacts[i]) == Ok::<
            _,
            crate::publish::LinuxPackagePayloadsFromManifestErrorView,
        >(payloads[i]));
    }
}

proof fn lemma_first_outside(texts: Seq<Seq<char>>, allowed: Set<Seq<char>>, from: int)
    requires
        0 <= from <= texts.len(),
    ensures
        first_outside(texts, allowed, from) is None <==> forall|i: int|
            from <= i < texts.len() ==> allowed.contains(#[trigger] texts[i]),
    decreases texts.len() - from,
{
    if from < texts.len() && allowed.contains(texts[from]) {
        lemma_first_outside(texts, allowed, from + 1);
    }
}

proof fn lemma_all_inside(items: Seq<Seq<char>>, allowed: Set<Seq<char>>)
    ensures
        first_outside(sorted(members(items)), allowed, 0) is None <==> members(items).subset_of(
            allowed,
        ),
{
    let listed = sorted(members(items));
    lemma_sorted_members(items);
    lemma_first_outside(listed, allowed, 0);
    if first_outside(listed, allowed, 0) is None {
        assert forall|text: Seq<char>| #[trigger] members(items).contains(text) implies allowed.contains(
        text) by {
            assert(members(listed).contains(text));
            let i = listed.index_of(text);
            assert(listed[i] == text);
        }
    }
    if members(items).subset_of(allowed) {
        assert forall|i: int| 0 <= i < listed.len() implies allowed.contains(
            #[trigger] listed[i],
        ) by {
            assert(members(listed).contains(listed[i]));
        }
    }
}

/// A manifest has the targets of a request exactly where it is accepted, and was built for what
/// was requested and for nothing else.
pub proof fn lemma_targets_agree(
    manifest: PackageManifestView,
    requested: Seq<RequestedTargetView>,
)
    ensures
        targets_difference(manifest, requested) is None <==> manifest_fault(manifest) is None
            && manifest_targets(manifest) == requested_names(requested),
{
    let present = manifest.artifacts.map_values(|artifact: PackageArtifactView| artifact.target);
    let wanted = requested.map_values(
        |target: RequestedTargetView| crate::plan::target_name(target),
    );
    lemma_all_inside(present, members(wanted));
    lemma_all_inside(wanted, members(present));
    if targets_difference(manifest, requested) is None {
        assert(members(present) =~= members(wanted));
    }
}

} // verus!
