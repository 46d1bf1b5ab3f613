//! Laws of manifests: what a build writes down, and what a command must have built.

use vstd::prelude::*;

use crate::cli::PackageBuildRequestView;
use crate::contract::{PackageContract, ReleaseContract};
use crate::laws::contracts::lemma_targets_agree;
use crate::laws::keys::lacks;
use crate::laws::texts::lemma_joined_texts_are_found_again;
use crate::manifest::{
    command_fault, command_targets, contradiction, manifest_file, manifest_targets, own_targets,
    requested_names, PackageArtifactView, PackageManifestView,
};
use crate::package::{metadata_of, CargoMetadataView, PackageId};
use crate::path::path_join;
use crate::plan::{selected_branches, SelectedBuildBranchView};
use crate::runner::{env_features, filled_pieces, first_cargo_package, system_manifest};
use crate::system::{PackageSystem, RequestedTargetView};
use crate::text::{first_at, joined, pieces};

verus! {

proof fn lemma_all_are_filled(all: Seq<Seq<char>>)
    requires
        forall|i: int| 0 <= i < all.len() ==> (#[trigger] all[i]).len() > 0,
    ensures
        filled_pieces(all) == all,
    decreases all.len(),
{
    if all.len() > 0 {
        assert(all.last() == all[all.len() - 1]);
        lemma_all_are_filled(all.drop_last());
        assert(all.drop_last().push(all.last()) =~= all);
    } else {
        assert(filled_pieces(all) =~= all);
    }
}

/// The features that a build is told, with commas between them, are the features that its
/// artifact states: none is lost, added or cut.
pub proof fn lemma_features_are_kept(features: Seq<Seq<char>>, env: Map<Seq<char>, Seq<char>>)
    requires
        forall|i: int|
            0 <= i < features.len() ==> (#[trigger] features[i]).len() > 0 && lacks(
                features[i],
                ',',
            ),
        env.contains_key("XTASK_RELEASE_FEATURES"@),
        env["XTASK_RELEASE_FEATURES"@] == joined(features, ","@),
    ensures
        env_features(env) == features,
{
    reveal_strlit(",");
    assert(","@ =~= seq![',']);
    let told = joined(features, ","@);
    if features.len() > 0 {
        assert forall|i: int| 0 <= i < features.len() implies lacks(#[trigger] features[i], ',') by {
            assert(features[i].len() > 0);
        }
        lemma_joined_texts_are_found_again(features, ',');
        lemma_all_are_filled(features);
    } else {
        let nothing = Seq::<Seq<char>>::empty();
        assert(told =~= Seq::empty());
        assert(first_at(told, ","@, 0) is None);
        assert(told.subrange(0, told.len() as int) =~= Seq::empty());
        assert(pieces(told, ","@) == seq![told.subrange(0, told.len() as int)]);
        reveal_with_fuel(filled_pieces, 2);
        assert(pieces(told, ","@).drop_last() =~= nothing);
        assert(features =~= nothing);
    }
}

/// Whether a package is the first of a contract that has a Cargo manifest.
pub open spec fn is_first_with_manifest(
    packages: Seq<(PackageId, PackageContract)>,
    i: int,
) -> bool {
    &&& 0 <= i < packages.len() && packages[i].1.manifest is Some
    &&& forall|k: int| 0 <= k < i ==> (#[trigger] packages[k]).1.manifest is None
}

proof fn lemma_first_with_manifest(packages: Seq<(PackageId, PackageContract)>, from: int)
    requires
        0 <= from <= packages.len(),
        forall|k: int| 0 <= k < from ==> (#[trigger] packages[k]).1.manifest is None,
    ensures
        match first_cargo_package(packages, from) {
            Some(package) => exists|i: int| #[trigger]
                is_first_with_manifest(packages, i) && packages[i].0.deep_view() == package,
            None => forall|k: int|
                0 <= k < packages.len() ==> (#[trigger] packages[k]).1.manifest is None,
        },
    decreases packages.len() - from,
{
    if from < packages.len() {
        if packages[from].1.manifest is Some {
            assert(is_first_with_manifest(packages, from));
        } else {
            lemma_first_with_manifest(packages, from + 1);
        }
    }
}

/// The manifest of a package system is written for the first package of the contract that has a
/// Cargo manifest, or for the first package where none has; it states the version of that
/// package and the time that it was made.
pub proof fn lemma_manifests_are_of_the_first_package(
    contract: ReleaseContract,
    contract_root: Seq<char>,
    cargo: Map<Seq<char>, CargoMetadataView>,
    system: PackageSystem,
    artifacts: Seq<PackageArtifactView>,
    generated_at: Seq<char>,
)
    ensures
        system_manifest(contract, contract_root, cargo, system, artifacts, generated_at) matches Ok(
            manifest,
        ) ==> {
            let packages = contract.package.items();
            &&& manifest.schema_version == 1
            &&& manifest.kind == system
            &&& manifest.generated_at == generated_at
            &&& packages.len() > 0
            &&& (exists|i: int| #[trigger]
                is_first_with_manifest(packages, i) && packages[i].0.deep_view()
                    == manifest.package) || (manifest.package == packages[0].0.deep_view()
                && forall|k: int|
                0 <= k < packages.len() ==> (#[trigger] packages[k]).1.manifest is None)
            &&& metadata_of(contract, manifest.package, contract_root, cargo) matches Ok(metadata)
            &&& manifest.version == metadata.source_version.text()
        },
{
    lemma_first_with_manifest(contract.package.items(), 0);
}

/// The manifest of a package system stands in the common directory of the system.
pub proof fn lemma_manifests_stand_in_their_directory(target_dir: Seq<char>, system: PackageSystem)
    ensures
        manifest_file(target_dir, system) == path_join(
            path_join(
                path_join(target_dir, "common"@),
                match system {
                    PackageSystem::Deb => "deb"@,
                    PackageSystem::Rpm => "rpm"@,
                    PackageSystem::Brew => "brew"@,
                    PackageSystem::Scoop => "scoop"@,
                },
            ),
            "manifest.toml"@,
        ),
{
}

/// Whether builds that were asked for include one of a package for a package system and a
/// target.
pub open spec fn is_asked_for(
    contract: ReleaseContract,
    builds: Seq<PackageBuildRequestView>,
    system: PackageSystem,
    package: Seq<char>,
    target: RequestedTargetView,
    k: int,
    i: int,
) -> bool {
    &&& 0 <= k < builds.len() && builds[k].system == system
    &&& selected_branches(contract, system, builds[k].args.targets) matches Ok(selected)
    &&& 0 <= i < selected.len() && selected[i].package_id == package && selected[i].target
        == target
}

proof fn lemma_own_targets(
    selected: Seq<SelectedBuildBranchView<'_>>,
    package: Seq<char>,
    from: int,
    found: Seq<RequestedTargetView>,
    target: RequestedTargetView,
)
    requires
        0 <= from <= selected.len(),
    ensures
        own_targets(selected, package, from, found).contains(target) <==> found.contains(target)
            || exists|i: int|
            from <= i < selected.len() && (#[trigger] selected[i]).package_id == package
                && selected[i].target == target,
    decreases selected.len() - from,
{
    if from < selected.len() {
        let next = if selected[from].package_id == package {
            found.push(selected[from].target)
        } else {
            found
        };
        lemma_own_targets(selected, package, from + 1, next, target);
        if found.contains(target) {
            let k = choose|k: int| 0 <= k < found.len() && found[k] == target;
            assert(next[k] == target);
        }
        if next.contains(target) && !found.contains(target) {
            let k = choose|k: int| 0 <= k < next.len() && next[k] == target;
            assert(k == found.len());
            assert(selected[from].target == target);
        }
        if selected[from].package_id == package && selected[from].target == target {
            assert(next[found.len() as int] == target);
        }
    }
}

proof fn lemma_command_targets(
    contract: ReleaseContract,
    manifest: PackageManifestView,
    builds: Seq<PackageBuildRequestView>,
    from: int,
    found: Seq<RequestedTargetView>,
    target: RequestedTargetView,
)
    requires
        0 <= from <= builds.len(),
    ensures
        command_targets(contract, manifest, builds, from, found) matches Ok(requested) ==> (
        requested.contains(target) <==> found.contains(target) || exists|k: int, i: int|
            from <= k && #[trigger] is_asked_for(
                contract,
                builds,
                manifest.kind,
                manifest.package,
                target,
                k,
                i,
            )),
    decreases builds.len() - from,
{
    if from < builds.len() {
        let kind = manifest.kind;
        let package = manifest.package;
        if builds[from].system != kind {
            lemma_command_targets(contract, manifest, builds, from + 1, found, target);
        } else if let Ok(selected) = selected_branches(
            contract,
            builds[from].system,
            builds[from].args.targets,
        ) {
            let next = own_targets(selected, package, 0, found);
            lemma_own_targets(selected, package, 0, found, target);
            lemma_command_targets(contract, manifest, builds, from + 1, next, target);
            if exists|i: int|
                0 <= i < selected.len() && (#[trigger] selected[i]).package_id == package
                    && selected[i].target == target {
                let i = choose|i: int|
                    0 <= i < selected.len() && (#[trigger] selected[i]).package_id == package
                        && selected[i].target == target;
                assert(is_asked_for(contract, builds, kind, package, target, from, i));
            }
            if exists|k: int, i: int|
                from <= k && #[trigger] is_asked_for(
                    contract,
                    builds,
                    kind,
                    package,
                    target,
                    k,
                    i,
                ) {
                let (k, i) = choose|k: int, i: int|
                    from <= k && #[trigger] is_asked_for(
                        contract,
                        builds,
                        kind,
                        package,
                        target,
                        k,
                        i,
                    );
                if k == from {
                    assert(selected[i].package_id == package);
                }
            }
        }
    }
}

/// The manifest that a command writes agrees with the contract, and was built for exactly the
/// targets that the command asked for of its package.
pub proof fn lemma_commands_write_what_they_built(
    contract: ReleaseContract,
    manifest: PackageManifestView,
    builds: Seq<PackageBuildRequestView>,
    target: RequestedTargetView,
)
    ensures
        command_fault(contract, manifest, builds) is None ==> {
            &&& contradiction(contract, manifest) is None
            &&& command_targets(contract, manifest, builds, 0, Seq::empty()) matches Ok(requested)
            &&& requested.len() > 0
            &&& manifest_targets(manifest) == requested_names(requested)
            &&& requested.contains(target) <==> exists|k: int, i: int| #[trigger]
                is_asked_for(
                    contract,
                    builds,
                    manifest.kind,
                    manifest.package,
                    target,
                    k,
                    i,
                )
        },
        command_targets(contract, manifest, builds, 0, Seq::empty()) matches Ok(requested) ==> (
        contradiction(contract, manifest) is None && requested.len() > 0 && manifest_targets(
            manifest,
        ) == requested_names(requested) ==> command_fault(contract, manifest, builds) is None),
{
    if let Ok(requested) = command_targets(contract, manifest, builds, 0, Seq::empty()) {
        lemma_targets_agree(manifest, requested);
        lemma_command_targets(contract, manifest, builds, 0, Seq::empty(), target);
    }
}

} // verus!
