//! Laws of the builds of package units: what their steps keep, whatever the host answers.

use vstd::prelude::*;

use crate::building::{
    build_advanced, build_opening, BuildActionView, BuildEventView, BuildHostView, BuildStageView,
    BuildStepView,
};
use crate::contract::ReleaseContract;
use crate::package::CargoMetadataView;
use crate::plan::PlannedPackageBuildView;
use crate::runner::{
    all_systems, artifact_paths, artifacts_for, grouped_artifacts, names_artifact,
    BuiltArtifactView, SystemArtifactsView,
};
use crate::system::PackageSystem;

verus! {

/// How many stages a build may still go through.
pub open spec fn build_stages_left(stage: BuildStageView) -> nat {
    match stage {
        BuildStageView::Clearing => 9,
        BuildStageView::Preparing => 8,
        BuildStageView::Imaging { .. } => 7,
        BuildStageView::Asking { .. } => 6,
        BuildStageView::Arranging { .. } => 5,
        BuildStageView::Running => 4,
        BuildStageView::Collecting => 3,
        BuildStageView::Reading { .. } => 2,
        BuildStageView::Measuring { .. } => 1,
        BuildStageView::Finished => 0,
    }
}

/// A build ends: every step brings it nearer to its end, whatever comes back, and the last
/// one is the one that hands over an artifact.
pub proof fn lemma_build_ends(
    host: BuildHostView,
    contract: ReleaseContract,
    cargo: Map<Seq<char>, CargoMetadataView>,
    unit: PlannedPackageBuildView,
    stage: BuildStageView,
    event: BuildEventView,
)
    ensures
        build_advanced(host, contract, cargo, unit, stage, event) matches Ok(next) ==> {
            &&& build_stages_left(next.stage) < build_stages_left(stage)
            &&& next.stage is Finished <==> next.action is Finish
        },
{
}

/// The paths that name artifacts are found, and no others.
pub proof fn lemma_artifact_paths(paths: Seq<Seq<char>>, system: PackageSystem, path: Seq<char>)
    ensures
        artifact_paths(paths, system).contains(path) <==> paths.contains(path) && names_artifact(
            path,
            system,
        ),
    decreases paths.len(),
{
    if paths.len() > 0 {
        let rest = paths.drop_last();
        lemma_artifact_paths(rest, system, path);
        assert(paths =~= rest.push(paths.last()));
        if paths.contains(path) {
            let i = choose|i: int| 0 <= i < paths.len() && paths[i] == path;
            if i < rest.len() {
                assert(rest[i] == path);
            }
        }
        if rest.contains(path) {
            let i = choose|i: int| 0 <= i < rest.len() && rest[i] == path;
            assert(paths[i] == path);
        }
        let found = artifact_paths(rest, system);
        if names_artifact(paths.last(), system) {
            let all = found.push(paths.last());
            assert(all.last() == paths.last());
            if found.contains(path) {
                let i = choose|i: int| 0 <= i < found.len() && found[i] == path;
                assert(all[i] == path);
            }
            if all.contains(path) {
                let i = choose|i: int| 0 <= i < all.len() && all[i] == path;
                if i < found.len() {
                    assert(found[i] == path);
                }
            }
        }
    }
}

/// No artifact of an earlier build is taken for one of a new build: before anything runs,
/// every path in the output directory that names an artifact goes, and nothing else does.
pub proof fn lemma_earlier_artifacts_go(
    host: BuildHostView,
    contract: ReleaseContract,
    cargo: Map<Seq<char>, CargoMetadataView>,
    unit: PlannedPackageBuildView,
    paths: Seq<Seq<char>>,
)
    ensures
        build_advanced(
            host,
            contract,
            cargo,
            unit,
            BuildStageView::Clearing,
            BuildEventView::Files { paths },
        ) matches Ok(next) && (next.action matches BuildActionView::PrepareOutput { stale, .. }
            && forall|path: Seq<char>| #[trigger]
            stale.contains(path) <==> paths.contains(path) && names_artifact(path, unit.system)),
{
    assert forall|path: Seq<char>| #[trigger]
        artifact_paths(paths, unit.system).contains(path) <==> paths.contains(path)
            && names_artifact(path, unit.system) by {
        lemma_artifact_paths(paths, unit.system, path);
    }
}

/// What is found among paths is found in their order, and an artifact that is built goes to
/// its own package system alone, in the order in which it was built.
pub proof fn lemma_artifacts_keep_their_order(
    paths: Seq<Seq<char>>,
    path: Seq<char>,
    built: Seq<BuiltArtifactView>,
    one: BuiltArtifactView,
    system: PackageSystem,
)
    ensures
        artifact_paths(paths.push(path), system) == if names_artifact(path, system) {
            artifact_paths(paths, system).push(path)
        } else {
            artifact_paths(paths, system)
        },
        artifacts_for(built.push(one), system) == if one.system == system {
            artifacts_for(built, system).push(one.artifact)
        } else {
            artifacts_for(built, system)
        },
        artifact_paths(Seq::empty(), system).len() == 0,
        artifacts_for(Seq::empty(), system).len() == 0,
{
    assert(paths.push(path).drop_last() =~= paths);
    assert(built.push(one).drop_last() =~= built);
}

proof fn lemma_artifacts_for(built: Seq<BuiltArtifactView>, i: int)
    requires
        0 <= i < built.len(),
    ensures
        artifacts_for(built, built[i].system).contains(built[i].artifact),
    decreases built.len(),
{
    let system = built[i].system;
    let rest = built.drop_last();
    let before = artifacts_for(rest, system);
    if i == built.len() - 1 {
        assert(before.push(built.last().artifact).last() == built[i].artifact);
    } else {
        lemma_artifacts_for(rest, i);
        let at = choose|k: int| 0 <= k < before.len() && before[k] == built[i].artifact;
        if built.last().system == system {
            assert(before.push(built.last().artifact)[at] == built[i].artifact);
        }
    }
}

/// Every artifact that was built stands in the group of its package system.
pub proof fn lemma_every_artifact_is_grouped(built: Seq<BuiltArtifactView>, i: int)
    requires
        0 <= i < built.len(),
    ensures
        grouped_artifacts(built, 4).contains(
            SystemArtifactsView {
                system: built[i].system,
                artifacts: artifacts_for(built, built[i].system),
            },
        ),
        artifacts_for(built, built[i].system).contains(built[i].artifact),
{
    lemma_artifacts_for(built, i);
    let system = built[i].system;
    let group = SystemArtifactsView { system, artifacts: artifacts_for(built, system) };
    let place: int = match system {
        PackageSystem::Deb => 0,
        PackageSystem::Rpm => 1,
        PackageSystem::Brew => 2,
        PackageSystem::Scoop => 3,
    };
    assert(all_systems()[place] == system);
    let upto = grouped_artifacts(built, place + 1);
    assert(upto.last() == group);
    lemma_groups_grow(built, place + 1, 4, group);
}

proof fn lemma_groups_grow(
    built: Seq<BuiltArtifactView>,
    count: int,
    end: int,
    group: SystemArtifactsView,
)
    requires
        0 <= count <= end,
        grouped_artifacts(built, count).contains(group),
    ensures
        grouped_artifacts(built, end).contains(group),
    decreases end - count,
{
    if count < end {
        lemma_groups_grow(built, count, end - 1, group);
        let before = grouped_artifacts(built, end - 1);
        let at = choose|k: int| 0 <= k < before.len() && before[k] == group;
        assert(grouped_artifacts(built, end)[at] == group);
    }
}

/// Whether an event is what an action asks for.
pub open spec fn build_answers(action: BuildActionView, event: BuildEventView) -> bool {
    match action {
        BuildActionView::ListOutput { .. } => event is Files,
        BuildActionView::PrepareOutput { .. } => event is Done,
        BuildActionView::BuildImage { .. } => event is Done,
        BuildActionView::AskImage { .. } => event is Text,
        BuildActionView::ArrangeHost { .. } => event is Done,
        BuildActionView::RunScript { .. } => event is Done,
        BuildActionView::RunContainer { .. } => event is Done,
        BuildActionView::ReadDebFields { .. } => event is Text,
        BuildActionView::QueryRpm { .. } => event is Text,
        BuildActionView::Measure { .. } => event is Measured,
        BuildActionView::Finish { .. } => false,
    }
}

/// Whether a stage waits for what a step asks for.
pub open spec fn build_waits_for_its_action(step: BuildStepView) -> bool {
    match step.stage {
        BuildStageView::Clearing => step.action is ListOutput,
        BuildStageView::Preparing => step.action is PrepareOutput,
        BuildStageView::Imaging { .. } => step.action is BuildImage,
        BuildStageView::Asking { .. } => step.action is AskImage,
        BuildStageView::Arranging { .. } => step.action is ArrangeHost,
        BuildStageView::Running => step.action is RunScript || step.action is RunContainer,
        BuildStageView::Collecting => step.action is ListOutput,
        BuildStageView::Reading { .. } => step.action is ReadDebFields || step.action is QueryRpm,
        BuildStageView::Measuring { .. } => step.action is Measure,
        BuildStageView::Finished => step.action is Finish,
    }
}

/// A build takes every answer to what it asked for: it goes on and waits for what it asks
/// for next, or it is refused for a reason of the build.
pub proof fn lemma_build_takes_every_answer(
    host: BuildHostView,
    contract: ReleaseContract,
    cargo: Map<Seq<char>, CargoMetadataView>,
    unit: PlannedPackageBuildView,
    step: BuildStepView,
    event: BuildEventView,
)
    requires
        build_waits_for_its_action(step),
        build_answers(step.action, event),
    ensures
        build_waits_for_its_action(build_opening(host, unit)),
        match build_advanced(host, contract, cargo, unit, step.stage, event) {
            Ok(next) => build_waits_for_its_action(next),
            Err(error) => error is Refused,
        },
{
}

} // verus!
