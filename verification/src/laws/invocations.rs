//! Laws of planned builds: every build that is asked for is planned, with the variables that
//! its package and its target bind.

use vstd::prelude::*;

use crate::channel::ReleaseChannel;
use crate::cli::{PackageBuildRequestView, PackageSectionArgsView};
use crate::contract::{
    branch_of, build_of, package_of, targets_of, ContainerContractView, EnvBinding,
    PackageBranchRef, ReleaseContract,
};
use crate::plan::{
    binding_of, binding_value, bound_build, bound_env, build_and_publish_names, build_names,
    command_units, planned_build, planned_publication, planned_publications, planned_publish,
    planned_units, request_overlay, request_units, requested_profile, selected_branches,
    target_bindings, target_matches, PlanInvocationErrorView, PlannedEnvMountView,
    PlannedInvocationView, PlannedPackageBuildView, PlannedS3PublishView,
    SelectedBuildBranchView,
};
use crate::publish::{publish_env_names, publish_target, ResolveS3PublishTargetErrorView};
use crate::sibling::{ContainerOverlayPlanView, SiblingSourceView};
use crate::system::{BuildProfile, PackageSystem, RequestedTargetView};
use crate::text::{joined, lemma_text_lt_irreflexive, text_lt};
use crate::textmap::{
    has_key, key_at, key_set, lemma_sorted_members, lookup, members, sorted,
};

verus! {

/// What a package binds to its variables.
pub open spec fn own_bindings(contract: ReleaseContract, package: Seq<char>) -> Seq<
    (String, EnvBinding),
> {
    package_of(contract, package)->0.build.env.items()
}

/// What a target of a branch binds to its variables.
pub open spec fn special_bindings(
    contract: ReleaseContract,
    package: Seq<char>,
    system: PackageSystem,
    target: RequestedTargetView,
) -> Seq<(String, EnvBinding)> {
    let targets = targets_of(branch_of(package_of(contract, package)->0, system)->0);
    let name = match target {
        RequestedTargetView::Triple(triple) => triple,
        RequestedTargetView::Common => "common"@,
    };
    match lookup(targets, name) {
        Some(special) => special.env.items(),
        None => Seq::empty(),
    }
}

/// Whether a build is told what a binding gives: the value that is written down, or that of a
/// variable of the host. Where the build runs in a container and the binding names a place in
/// it, the variable names that place, and the file that the host names is mounted there,
/// read-only. A variable that is optional and not set is not told.
pub open spec fn tells_binding(
    binding: EnvBinding,
    values: Map<Seq<char>, Seq<char>>,
    name: Seq<char>,
    standard: Map<Seq<char>, Seq<char>>,
    plan: PlannedInvocationView,
) -> bool {
    match (binding.env, binding.value) {
        (None, Some(value)) => value@.len() > 0 && plan.env.contains_key(name) && plan.env[name]
            == value@,
        (Some(variable), None) => if values.contains_key(variable@) {
            &&& values[variable@].len() > 0
            &&& plan.env.contains_key(name)
            &&& if plan.container is Some && binding.container_path is Some {
                &&& plan.env[name] == binding.container_path->0@
                &&& plan.env_mounts.contains(
                    PlannedEnvMountView {
                        source: values[variable@],
                        destination: binding.container_path->0@,
                        read_only: true,
                    },
                )
            } else {
                plan.env[name] == values[variable@]
            }
        } else {
            &&& binding.optional
            &&& plan.env.contains_key(name) == standard.contains_key(name)
            &&& plan.env[name] == standard[name]
        },
        _ => false,
    }
}

/// The variables that every build is told.
pub open spec fn is_standard(
    standard: Map<Seq<char>, Seq<char>>,
    package: Seq<char>,
    system: PackageSystem,
    target: RequestedTargetView,
    profile: BuildProfile,
    features: Seq<Seq<char>>,
) -> bool {
    &&& standard.dom() == set![
        "XTASK_RELEASE_PACKAGE_ID"@,
        "XTASK_RELEASE_SYSTEM"@,
        "XTASK_RELEASE_TARGET"@,
        "XTASK_RELEASE_PROFILE"@,
        "XTASK_RELEASE_FEATURES"@,
    ]
    &&& standard["XTASK_RELEASE_PACKAGE_ID"@] == package
    &&& standard["XTASK_RELEASE_SYSTEM"@] == match system {
        PackageSystem::Deb => "deb"@,
        PackageSystem::Rpm => "rpm"@,
        PackageSystem::Brew => "brew"@,
        PackageSystem::Scoop => "scoop"@,
    }
    &&& standard["XTASK_RELEASE_TARGET"@] == match target {
        RequestedTargetView::Triple(triple) => triple,
        RequestedTargetView::Common => "common"@,
    }
    &&& standard["XTASK_RELEASE_PROFILE"@] == match profile {
        BuildProfile::Release => "release"@,
        BuildProfile::Debug => "debug"@,
    }
    &&& standard["XTASK_RELEASE_FEATURES"@] == joined(features, ","@)
}

proof fn lemma_standard_names()
    ensures
        "XTASK_RELEASE_PACKAGE_ID"@ != "XTASK_RELEASE_SYSTEM"@,
        "XTASK_RELEASE_PACKAGE_ID"@ != "XTASK_RELEASE_TARGET"@,
        "XTASK_RELEASE_PACKAGE_ID"@ != "XTASK_RELEASE_PROFILE"@,
        "XTASK_RELEASE_PACKAGE_ID"@ != "XTASK_RELEASE_FEATURES"@,
        "XTASK_RELEASE_SYSTEM"@ != "XTASK_RELEASE_TARGET"@,
        "XTASK_RELEASE_SYSTEM"@ != "XTASK_RELEASE_PROFILE"@,
        "XTASK_RELEASE_SYSTEM"@ != "XTASK_RELEASE_FEATURES"@,
        "XTASK_RELEASE_TARGET"@ != "XTASK_RELEASE_PROFILE"@,
        "XTASK_RELEASE_TARGET"@ != "XTASK_RELEASE_FEATURES"@,
        "XTASK_RELEASE_PROFILE"@ != "XTASK_RELEASE_FEATURES"@,
{
    reveal_strlit("XTASK_RELEASE_PACKAGE_ID");
    reveal_strlit("XTASK_RELEASE_SYSTEM");
    reveal_strlit("XTASK_RELEASE_TARGET");
    reveal_strlit("XTASK_RELEASE_PROFILE");
    reveal_strlit("XTASK_RELEASE_FEATURES");
    assert("XTASK_RELEASE_PACKAGE_ID"@[14] == 'P' && "XTASK_RELEASE_PACKAGE_ID"@[15] == 'A');
    assert("XTASK_RELEASE_SYSTEM"@[14] == 'S');
    assert("XTASK_RELEASE_TARGET"@[14] == 'T');
    assert("XTASK_RELEASE_PROFILE"@[14] == 'P' && "XTASK_RELEASE_PROFILE"@[15] == 'R');
    assert("XTASK_RELEASE_FEATURES"@[14] == 'F');
}

/// Every build is told which package it makes for which package system and which target, with
/// which profile and which features. It runs the script of its branch, and in a container
/// exactly where the branch has one: in the image that it names, or in one that is made from
/// its Dockerfile.
pub proof fn lemma_builds_are_told_what_they_make(
    contract: ReleaseContract,
    package: Seq<char>,
    system: PackageSystem,
    target: RequestedTargetView,
    profile: BuildProfile,
    features: Seq<Seq<char>>,
)
    ensures
        planned_build(contract, package, system, target, profile, features) matches Ok(plan) ==> {
            &&& is_standard(plan.env, package, system, target, profile, features)
            &&& plan.env_mounts.len() == 0
            &&& package_of(contract, package) matches Some(found)
            &&& branch_of(found, system) matches Some(branch)
            &&& plan.script == build_of(branch).script
            &&& plan.container is Some == build_of(branch).container is Some
            &&& build_of(branch).container matches Some(stated) ==> {
                &&& stated.image is Some != stated.dockerfile is Some
                &&& stated.image matches Some(image) ==> plan.container->0.image == image
                    && plan.container->0.build is None
                &&& stated.dockerfile matches Some(dockerfile) ==> (
                plan.container->0.build matches Some(build) && build.dockerfile == dockerfile)
                &&& stated.dockerfile is Some ==> plan.container->0.image
                    == "xtask-release:build-"@ + package + "-"@ + match system {
                    PackageSystem::Deb => "deb"@,
                    PackageSystem::Rpm => "rpm"@,
                    PackageSystem::Brew => "brew"@,
                    PackageSystem::Scoop => "scoop"@,
                }
            }
        },
{
    lemma_standard_names();
    if let Ok(plan) = planned_build(contract, package, system, target, profile, features) {
        assert(plan.env.dom() =~= set![
            "XTASK_RELEASE_PACKAGE_ID"@,
            "XTASK_RELEASE_SYSTEM"@,
            "XTASK_RELEASE_TARGET"@,
            "XTASK_RELEASE_PROFILE"@,
            "XTASK_RELEASE_FEATURES"@,
        ]);
    }
}

/// A branch is built for the common target exactly where its package is for every architecture,
/// and for any other target exactly where it is not; what is no Linux package is never built
/// for the common target.
pub proof fn lemma_common_packages_are_built_once(
    branch: PackageBranchRef<'_>,
    triple: Seq<char>,
)
    ensures
        ({
            let common = match branch {
                PackageBranchRef::Deb(deb) => deb.architecture is All || deb.architecture
                    is Noarch,
                PackageBranchRef::Rpm(rpm) => rpm.architecture is All || rpm.architecture
                    is Noarch,
                _ => false,
            };
            &&& target_matches(RequestedTargetView::Common, branch) <==> common
            &&& target_matches(RequestedTargetView::Triple(triple), branch) <==> !common
        }),
{
}

/// A branch is built as it states. Where it states nothing, a Linux package is built in a
/// container that its Dockerfile makes, by what the image runs by itself; any other package is
/// built on the host, by the script of its branch.
pub proof fn lemma_branches_are_built_as_they_state(branch: PackageBranchRef<'_>)
    ensures
        match branch {
            PackageBranchRef::Deb(deb) => match deb.build {
                Some(build) => build_of(branch) == build.deep_view(),
                None => build_of(branch).script.len() == 0 && build_of(branch).container == Some(
                    ContainerContractView {
                        image: None,
                        dockerfile: deb.dockerfile.deep_view(),
                    },
                ),
            },
            PackageBranchRef::Rpm(rpm) => match rpm.build {
                Some(build) => build_of(branch) == build.deep_view(),
                None => build_of(branch).script.len() == 0 && build_of(branch).container == Some(
                    ContainerContractView {
                        image: None,
                        dockerfile: rpm.dockerfile.deep_view(),
                    },
                ),
            },
            PackageBranchRef::Brew(brew) => match brew.build {
                Some(build) => build_of(branch) == build.deep_view(),
                None => build_of(branch).container is None && (brew.script is Some
                    ==> build_of(branch).script == brew.script->0@),
            },
            PackageBranchRef::Scoop(scoop) => match scoop.build {
                Some(build) => build_of(branch) == build.deep_view(),
                None => build_of(branch).container is None && (scoop.script is Some
                    ==> build_of(branch).script == scoop.script->0@),
            },
        },
{
}

/// What is published by a script is published by the one that the contract states for the
/// package system, in the container that it states.
pub proof fn lemma_publish_scripts_are_those_of_the_contract(
    contract: ReleaseContract,
    system: PackageSystem,
)
    ensures
        planned_publish(contract, system) matches Ok(plan) ==> {
            let s3 = contract.destination.s3;
            let stated = if system is Deb {
                s3.deb->0.publish
            } else {
                s3.rpm->0.publish
            };
            &&& system is Deb && s3.deb is Some || system is Rpm && s3.rpm is Some
            &&& stated is Some
            &&& plan.script == stated->0.script@
            &&& plan.env == Map::<Seq<char>, Seq<char>>::empty()
            &&& plan.env_mounts.len() == 0
            &&& plan.container is Some == stated->0.container is Some
            &&& stated->0.container is Some ==> {
                let container = stated->0.container->0;
                &&& container.image is Some != container.dockerfile is Some
                &&& container.image is Some ==> plan.container->0.image == container.image->0@
                    && plan.container->0.build is None
                &&& container.dockerfile is Some ==> plan.container->0.build is Some
                    && plan.container->0.build->0.dockerfile == container.dockerfile->0@
                &&& container.dockerfile is Some && system is Deb ==> plan.container->0.image
                    == "xtask-release:publish-"@ + "deb"@
                &&& container.dockerfile is Some && system is Rpm ==> plan.container->0.image
                    == "xtask-release:publish-"@ + "rpm"@
            }
        },
{
}

proof fn lemma_publications_from(
    contract: ReleaseContract,
    systems: Seq<PackageSystem>,
    channel: ReleaseChannel,
    dry_run: bool,
    values: Map<Seq<char>, Seq<char>>,
    from: int,
    found: Seq<PlannedS3PublishView>,
)
    requires
        0 <= from <= systems.len(),
    ensures
        planned_publications(
            contract,
            systems,
            channel,
            dry_run,
            values,
            from,
            found,
        ) matches Ok(plans) ==> {
            &&& plans.len() == found.len() + systems.len() - from
            &&& forall|i: int| 0 <= i < found.len() ==> plans[i] == #[trigger] found[i]
            &&& forall|i: int|
                from <= i < systems.len() ==> {
                    let plan = plans[found.len() + i - from];
                    &&& plan.system == #[trigger] systems[i]
                    &&& plan.dry_run == dry_run
                    &&& publish_target(contract, systems[i], channel, values) == Ok::<
                        _,
                        ResolveS3PublishTargetErrorView,
                    >(plan.target)
                    &&& plan.invocation is Some == (systems[i] is Deb || systems[i] is Rpm)
                    &&& plan.invocation is Some ==> planned_publish(contract, systems[i]) == Ok::<
                        _,
                        PlanInvocationErrorView,
                    >(plan.invocation->0)
                }
        },
    decreases systems.len() - from,
{
    if from < systems.len() {
        if let Ok(plan) = planned_publication(contract, systems[from], channel, dry_run, values) {
            let next = found.push(plan);
            lemma_publications_from(
                contract,
                systems,
                channel,
                dry_run,
                values,
                from + 1,
                next,
            );
            if let Ok(plans) = planned_publications(
                contract,
                systems,
                channel,
                dry_run,
                values,
                from,
                found,
            ) {
                assert forall|i: int| 0 <= i < found.len() implies plans[i]
                    == #[trigger] found[i] by {
                    assert(next[i] == found[i]);
                }
                assert(plans[found.len() as int] == next[found.len() as int]);
            }
        }
    }
}

/// Publications are planned for each package system that is named, in order: to its target on
/// the channel, and by its script for a Linux package system.
pub proof fn lemma_every_system_is_published(
    contract: ReleaseContract,
    systems: Seq<PackageSystem>,
    channel: ReleaseChannel,
    dry_run: bool,
    values: Map<Seq<char>, Seq<char>>,
)
    ensures
        planned_publications(
            contract,
            systems,
            channel,
            dry_run,
            values,
            0,
            Seq::empty(),
        ) matches Ok(plans) ==> {
            &&& plans.len() == systems.len()
            &&& forall|i: int|
                0 <= i < systems.len() ==> {
                    &&& (#[trigger] plans[i]).system == systems[i]
                    &&& plans[i].dry_run == dry_run
                    &&& publish_target(contract, systems[i], channel, values) == Ok::<
                        _,
                        ResolveS3PublishTargetErrorView,
                    >(plans[i].target)
                    &&& plans[i].invocation is Some == (systems[i] is Deb || systems[i] is Rpm)
                }
        },
{
    lemma_publications_from(contract, systems, channel, dry_run, values, 0, Seq::empty());
    if let Ok(plans) = planned_publications(
        contract,
        systems,
        channel,
        dry_run,
        values,
        0,
        Seq::empty(),
    ) {
        assert forall|i: int| 0 <= i < systems.len() implies (#[trigger] plans[i]).system
            == systems[i] && plans[i].dry_run == dry_run && publish_target(
            contract,
            systems[i],
            channel,
            values,
        ) == Ok::<_, ResolveS3PublishTargetErrorView>(plans[i].target)
            && plans[i].invocation is Some == (systems[i] is Deb || systems[i] is Rpm) by {
            assert(plans[0 + i - 0].system == systems[i]);
        }
    }
}

/// The variables that a build and a publication read together are those that either reads; one
/// that the publication reads is required.
pub proof fn lemma_names_of_both_are_named(
    contract: ReleaseContract,
    package: Seq<char>,
    system: PackageSystem,
    target: RequestedTargetView,
)
    ensures
        build_and_publish_names(contract, package, system, target) matches Ok(names) ==> {
            &&& build_names(contract, package, system, target) matches Ok(built)
            &&& publish_env_names(contract, system) matches Ok(published)
            &&& forall|name: Seq<char>| #[trigger]
                names.required.contains(name) <==> built.required.contains(name)
                    || published.contains(name)
            &&& forall|name: Seq<char>| #[trigger]
                names.optional.contains(name) <==> built.optional.contains(name)
                    && !published.contains(name)
        },
{
}

/// The binding of a variable: that of the target, where it has one, or that of the package.
pub open spec fn preferred_binding(
    own: Seq<(String, EnvBinding)>,
    special: Seq<(String, EnvBinding)>,
    name: Seq<char>,
) -> EnvBinding {
    if has_key(special, name) {
        lookup(special, name)->0
    } else {
        lookup(own, name)->0
    }
}

/// Whether a mount is one that a binding asks for: of the file that its variable names, at the
/// place that it names, read-only.
pub open spec fn is_asked_mount(
    own: Seq<(String, EnvBinding)>,
    special: Seq<(String, EnvBinding)>,
    values: Map<Seq<char>, Seq<char>>,
    mount: PlannedEnvMountView,
) -> bool {
    exists|name: Seq<char>|
        {
            let binding = #[trigger] preferred_binding(own, special, name);
            &&& binding.env is Some && binding.value is None && binding.container_path is Some
            &&& values.contains_key(binding.env->0@) && mount.source == values[binding.env->0@]
            &&& mount.destination == binding.container_path->0@
            &&& mount.read_only
        }
}

proof fn lemma_bound_from(
    names: Seq<Seq<char>>,
    own: Seq<(String, EnvBinding)>,
    special: Seq<(String, EnvBinding)>,
    values: Map<Seq<char>, Seq<char>>,
    container: bool,
    from: int,
    env: Map<Seq<char>, Seq<char>>,
    mounts: Seq<PlannedEnvMountView>,
    standard: Map<Seq<char>, Seq<char>>,
    plan: PlannedInvocationView,
)
    requires
        0 <= from <= names.len(),
        forall|i: int, j: int|
            0 <= i < j < names.len() ==> #[trigger] names[i] != #[trigger] names[j],
        bound_env(names, own, special, values, container, from, env, mounts) == Ok::<
            _,
            PlanInvocationErrorView,
        >((plan.env, plan.env_mounts)),
        plan.container is Some == container,
        forall|i: int|
            from <= i < names.len() ==> env.contains_key(#[trigger] names[i])
                == standard.contains_key(names[i]) && env[names[i]] == standard[names[i]],
    ensures
        forall|i: int|
            from <= i < names.len() ==> tells_binding(
                preferred_binding(own, special, #[trigger] names[i]),
                values,
                names[i],
                standard,
                plan,
            ),
        forall|name: Seq<char>|
            !(#[trigger] names.skip(from).contains(name)) ==> plan.env.contains_key(name)
                == env.contains_key(name) && plan.env[name] == env[name],
        forall|i: int| 0 <= i < mounts.len() ==> plan.env_mounts.contains(#[trigger] mounts[i]),
        forall|i: int|
            0 <= i < plan.env_mounts.len() ==> mounts.contains(#[trigger] plan.env_mounts[i])
                || is_asked_mount(own, special, values, plan.env_mounts[i]),
    decreases names.len() - from,
{
    if from < names.len() {
        let name = names[from];
        let binding = preferred_binding(own, special, name);
        assert(binding_of(own, special, name) == binding);
        let answer = binding_value(name, binding, values, container)->Ok_0;
        let (next, added) = match answer {
            None => (env, mounts),
            Some((value, mount)) => (
                env.insert(name, value),
                match mount {
                    Some(mount) => mounts.push(mount),
                    None => mounts,
                },
            ),
        };
        assert forall|i: int| from + 1 <= i < names.len() implies next.contains_key(
            #[trigger] names[i],
        ) == standard.contains_key(names[i]) && next[names[i]] == standard[names[i]] by {
            assert(names[from] != names[i]);
        }
        lemma_bound_from(
            names,
            own,
            special,
            values,
            container,
            from + 1,
            next,
            added,
            standard,
            plan,
        );
        let rest = names.skip(from + 1);
        assert(!rest.contains(name)) by {
            if rest.contains(name) {
                let k = choose|k: int| 0 <= k < rest.len() && rest[k] == name;
                assert(names[from] != names[from + 1 + k]);
            }
        }
        assert forall|other: Seq<char>|
            !(#[trigger] names.skip(from).contains(other)) implies plan.env.contains_key(other)
            == env.contains_key(other) && plan.env[other] == env[other] by {
            assert(names.skip(from)[0] == name);
            if rest.contains(other) {
                let k = choose|k: int| 0 <= k < rest.len() && rest[k] == other;
                assert(names.skip(from)[k + 1] == other);
            }
        }
        assert forall|i: int| 0 <= i < mounts.len() implies plan.env_mounts.contains(
            #[trigger] mounts[i],
        ) by {
            assert(added[i] == mounts[i]);
        }
        if let Some((value, Some(mount))) = answer {
            assert(added[mounts.len() as int] == mount);
            assert(is_asked_mount(own, special, values, mount));
        }
        assert forall|i: int| 0 <= i < plan.env_mounts.len() implies mounts.contains(
            #[trigger] plan.env_mounts[i],
        ) || is_asked_mount(own, special, values, plan.env_mounts[i]) by {
            let mount = plan.env_mounts[i];
            if added.contains(mount) {
                let k = choose|k: int| 0 <= k < added.len() && added[k] == mount;
                if k < mounts.len() {
                    assert(mounts[k] == mount);
                }
            }
        }
    }
}

/// The names that bindings bind.
spec fn names_of(bindings: Seq<(String, EnvBinding)>) -> Seq<Seq<char>> {
    bindings.map_values(|entry: (String, EnvBinding)| entry.0.deep_view())
}

proof fn lemma_key_set(bindings: Seq<(String, EnvBinding)>)
    ensures
        key_set(bindings) == members(names_of(bindings)),
{
    let names = names_of(bindings);
    assert forall|name: Seq<char>| has_key(bindings, name) == #[trigger] names.contains(name) by {
        if has_key(bindings, name) {
            let i = choose|i: int| #[trigger] key_at(bindings, name, i);
            assert(names[i] == name);
        }
        if names.contains(name) {
            let i = choose|i: int| 0 <= i < names.len() && names[i] == name;
            assert(key_at(bindings, name, i));
        }
    }
    assert(key_set(bindings) =~= members(names));
}

/// A build is told every variable that its package or its target binds; what the target binds
/// goes before what the package binds. It is told nothing else but what every build is told, and
/// it mounts nothing but what a binding asks for.
pub proof fn lemma_builds_are_told_their_bindings(
    contract: ReleaseContract,
    package: Seq<char>,
    system: PackageSystem,
    target: RequestedTargetView,
    profile: BuildProfile,
    features: Seq<Seq<char>>,
    values: Map<Seq<char>, Seq<char>>,
    name: Seq<char>,
)
    ensures
        bound_build(contract, package, system, target, profile, features, values) matches Ok(plan)
            ==> {
            let own = own_bindings(contract, package);
            let special = special_bindings(contract, package, system, target);
            &&& planned_build(contract, package, system, target, profile, features) matches Ok(
                standard,
            )
            &&& plan.script == standard.script
            &&& plan.container == standard.container
            &&& forall|i: int|
                0 <= i < plan.env_mounts.len() ==> is_asked_mount(
                    own,
                    special,
                    values,
                    #[trigger] plan.env_mounts[i],
                )
            &&& if has_key(own, name) || has_key(special, name) {
                tells_binding(
                    preferred_binding(own, special, name),
                    values,
                    name,
                    standard.env,
                    plan,
                )
            } else {
                plan.env.contains_key(name) == standard.env.contains_key(name) && plan.env[name]
                    == standard.env[name]
            }
        },
{
    if let Ok(plan) = bound_build(contract, package, system, target, profile, features, values) {
        let own = own_bindings(contract, package);
        let special = special_bindings(contract, package, system, target);
        let branch = branch_of(package_of(contract, package)->0, system)->0;
        assert(target_bindings(branch, target) == special);
        let standard = planned_build(
            contract,
            package,
            system,
            target,
            profile,
            features,
        )->Ok_0;
        let both = names_of(own) + names_of(special);
        lemma_key_set(own);
        lemma_key_set(special);
        assert forall|text: Seq<char>|
            key_set(own).union(key_set(special)).contains(text) == #[trigger] both.contains(
                text,
            ) by {
            if names_of(own).contains(text) {
                let k = choose|k: int| 0 <= k < names_of(own).len() && names_of(own)[k] == text;
                assert(both[k] == text);
            }
            if names_of(special).contains(text) {
                let k = choose|k: int|
                    0 <= k < names_of(special).len() && names_of(special)[k] == text;
                assert(both[names_of(own).len() + k] == text);
            }
        }
        assert(key_set(own).union(key_set(special)) =~= members(both));
        lemma_sorted_members(both);
        let names = sorted(key_set(own).union(key_set(special)));
        assert forall|i: int, j: int| 0 <= i < j < names.len() implies #[trigger] names[i]
            != #[trigger] names[j] by {
            assert(text_lt(names[i], names[j]));
            lemma_text_lt_irreflexive(names[i]);
        }
        lemma_bound_from(
            names,
            own,
            special,
            values,
            plan.container is Some,
            0,
            standard.env,
            standard.env_mounts,
            standard.env,
            plan,
        );
        assert(names.skip(0) =~= names);
        assert(members(names).contains(name) == (has_key(own, name) || has_key(special, name)));
        if has_key(own, name) || has_key(special, name) {
            let i = choose|i: int| 0 <= i < names.len() && names[i] == name;
            assert(tells_binding(
                preferred_binding(own, special, names[i]),
                values,
                names[i],
                standard.env,
                plan,
            ));
        }
    }
}

/// Whether a unit is the one of a branch and a target that were selected: its invocation is
/// planned with the profile and the features that were asked for, and it has the overlay, but
/// for a build on the host beside a primary source.
pub open spec fn is_unit_of(
    contract: ReleaseContract,
    selected: SelectedBuildBranchView<'_>,
    args: PackageSectionArgsView,
    overlay: Option<ContainerOverlayPlanView>,
    with_primary: bool,
    values: Map<Seq<char>, Seq<char>>,
    unit: PlannedPackageBuildView,
) -> bool {
    &&& unit.package_id == selected.package_id
    &&& unit.system == selected.system
    &&& unit.target == selected.target
    &&& bound_build(
        contract,
        selected.package_id,
        selected.system,
        selected.target,
        if args.debug {
            BuildProfile::Debug
        } else {
            BuildProfile::Release
        },
        args.features,
        values,
    ) == Ok::<_, PlanInvocationErrorView>(unit.invocation)
    &&& unit.source_overlay == if with_primary && unit.invocation.container is None {
        None
    } else {
        overlay
    }
}

proof fn lemma_units_from(
    contract: ReleaseContract,
    selected: Seq<SelectedBuildBranchView<'_>>,
    build: PackageBuildRequestView,
    overlay: Option<ContainerOverlayPlanView>,
    with_primary: bool,
    values: Map<Seq<char>, Seq<char>>,
    from: int,
    found: Seq<PlannedPackageBuildView>,
)
    requires
        0 <= from <= selected.len(),
    ensures
        planned_units(
            contract,
            selected,
            build,
            overlay,
            with_primary,
            values,
            from,
            found,
        ) matches Ok(units) ==> {
            &&& units.len() == found.len() + selected.len() - from
            &&& forall|i: int| 0 <= i < found.len() ==> units[i] == #[trigger] found[i]
            &&& forall|i: int|
                from <= i < selected.len() ==> is_unit_of(
                    contract,
                    #[trigger] selected[i],
                    build.args,
                    overlay,
                    with_primary,
                    values,
                    units[found.len() + i - from],
                )
        },
    decreases selected.len() - from,
{
    if from < selected.len() {
        let unit = selected[from];
        if let Ok(invocation) = bound_build(
            contract,
            unit.package_id,
            unit.system,
            unit.target,
            requested_profile(build.args.debug),
            build.args.features,
            values,
        ) {
            let planned = PlannedPackageBuildView {
                package_id: unit.package_id,
                system: unit.system,
                target: unit.target,
                invocation,
                source_overlay: if with_primary && invocation.container is None {
                    None
                } else {
                    overlay
                },
            };
            let next = found.push(planned);
            lemma_units_from(
                contract,
                selected,
                build,
                overlay,
                with_primary,
                values,
                from + 1,
                next,
            );
            if let Ok(units) = planned_units(
                contract,
                selected,
                build,
                overlay,
                with_primary,
                values,
                from,
                found,
            ) {
                assert forall|i: int| 0 <= i < found.len() implies units[i]
                    == #[trigger] found[i] by {
                    assert(next[i] == found[i]);
                }
                assert(units[found.len() as int] == next[found.len() as int]);
            }
        }
    }
}

/// A request for builds is answered with one unit for each branch and target that it selects,
/// in order, after those of the requests before it. The overlay mounts the primary source,
/// where there is one, and the sources that the request names.
pub proof fn lemma_every_selected_build_is_planned(
    contract: ReleaseContract,
    build: PackageBuildRequestView,
    primary: Option<SiblingSourceView>,
    values: Map<Seq<char>, Seq<char>>,
    found: Seq<PlannedPackageBuildView>,
)
    ensures
        request_units(contract, build, primary, values, found) matches Ok(units) ==> {
            &&& selected_branches(contract, build.system, build.args.targets) matches Ok(selected)
            &&& request_overlay(build, primary) matches Ok(overlay)
            &&& overlay is None <==> primary is None && build.args.sibling_sources.len() == 0
                && build.args.patches.len() == 0
            &&& overlay matches Some(plan) ==> plan.mounts.len()
                == build.args.sibling_sources.len() + if primary is Some {
                1int
            } else {
                0
            }
            &&& units.len() == found.len() + selected.len()
            &&& forall|i: int| 0 <= i < found.len() ==> units[i] == #[trigger] found[i]
            &&& forall|i: int|
                0 <= i < selected.len() ==> is_unit_of(
                    contract,
                    #[trigger] selected[i],
                    build.args,
                    overlay,
                    primary is Some,
                    values,
                    units[found.len() + i],
                )
        },
{
    if let Ok(units) = request_units(contract, build, primary, values, found) {
        let selected = selected_branches(contract, build.system, build.args.targets)->Ok_0;
        let overlay = request_overlay(build, primary)->Ok_0;
        lemma_units_from(contract, selected, build, overlay, primary is Some, values, 0, found);
    }
}

/// The requests of a command are answered one after the other, and none is left out.
pub proof fn lemma_every_request_is_planned(
    contract: ReleaseContract,
    builds: Seq<PackageBuildRequestView>,
    primary: Option<SiblingSourceView>,
    values: Map<Seq<char>, Seq<char>>,
    from: int,
    found: Seq<PlannedPackageBuildView>,
)
    requires
        0 <= from <= builds.len(),
    ensures
        command_units(contract, builds, primary, values, from, found) matches Ok(units) ==> {
            &&& forall|i: int| 0 <= i < found.len() ==> units.contains(#[trigger] found[i])
            &&& forall|k: int|
                from <= k < builds.len() ==> (request_units(
                    contract,
                    #[trigger] builds[k],
                    primary,
                    values,
                    Seq::empty(),
                ) matches Ok(own) && forall|i: int|
                    0 <= i < own.len() ==> units.contains(#[trigger] own[i]))
        },
    decreases builds.len() - from,
{
    if from < builds.len() {
        let none = Seq::<PlannedPackageBuildView>::empty();
        let build = builds[from];
        if let Ok(next) = request_units(contract, build, primary, values, found) {
            lemma_every_request_is_planned(contract, builds, primary, values, from + 1, next);
            if let Ok(units) = command_units(contract, builds, primary, values, from, found) {
                lemma_every_selected_build_is_planned(contract, build, primary, values, found);
                let selected = selected_branches(
                    contract,
                    build.system,
                    build.args.targets,
                )->Ok_0;
                let overlay = request_overlay(build, primary)->Ok_0;
                lemma_units_come_after(
                    contract,
                    selected,
                    build,
                    overlay,
                    primary is Some,
                    values,
                    0,
                    none,
                    found,
                );
                let own = request_units(contract, build, primary, values, none)->Ok_0;
                assert(found + none =~= found);
                assert(next == found + own);
                assert forall|i: int| 0 <= i < found.len() implies units.contains(
                    #[trigger] found[i],
                ) by {
                    assert(next[i] == found[i]);
                }
                assert forall|i: int| 0 <= i < own.len() implies units.contains(
                    #[trigger] own[i],
                ) by {
                    assert(next[found.len() + i] == own[i]);
                }
            }
        }
    }
}

proof fn lemma_units_come_after(
    contract: ReleaseContract,
    selected: Seq<SelectedBuildBranchView<'_>>,
    build: PackageBuildRequestView,
    overlay: Option<ContainerOverlayPlanView>,
    with_primary: bool,
    values: Map<Seq<char>, Seq<char>>,
    from: int,
    own: Seq<PlannedPackageBuildView>,
    before: Seq<PlannedPackageBuildView>,
)
    requires
        0 <= from <= selected.len(),
    ensures
        planned_units(
            contract,
            selected,
            build,
            overlay,
            with_primary,
            values,
            from,
            before + own,
        ) == (match planned_units(
            contract,
            selected,
            build,
            overlay,
            with_primary,
            values,
            from,
            own,
        ) {
            Ok(units) => Ok(before + units),
            Err(error) => Err(error),
        }),
    decreases selected.len() - from,
{
    if from < selected.len() {
        let unit = selected[from];
        if let Ok(invocation) = bound_build(
            contract,
            unit.package_id,
            unit.system,
            unit.target,
            requested_profile(build.args.debug),
            build.args.features,
            values,
        ) {
            let planned = PlannedPackageBuildView {
                package_id: unit.package_id,
                system: unit.system,
                target: unit.target,
                invocation,
                source_overlay: if with_primary && invocation.container is None {
                    None
                } else {
                    overlay
                },
            };
            lemma_units_come_after(
                contract,
                selected,
                build,
                overlay,
                with_primary,
                values,
                from + 1,
                own.push(planned),
                before,
            );
            assert((before + own).push(planned) =~= before + own.push(planned));
        }
    }
}

} // verus!
