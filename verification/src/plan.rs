//! Plans: which branches are built, how each build is run, and what a publication needs.

use vstd::prelude::*;

use crate::channel::ReleaseChannel;
use crate::cli::{
    own_overlay, primary_overlay, PackageBuildRequest, PackageBuildRequestView,
    PackageCommandRequest, PackageSectionOverlayError, PackageSectionOverlayErrorView,
    S3PublishCommandRequest,
};
use crate::contract::{
    architecture_of, branch_of, build_of, package_of, targets_of, ContainerContract,
    ContainerContractView, EnvBinding, PackageBranchRef, PackageContract, PublishContract,
    ReleaseContract,
};
use crate::model::{deep, outcome, outcomes};
use crate::package::PackageId;
use crate::publish::{
    publish_env_names, publish_target, resolve_s3_publish_target, s3_publish_env_names,
    ResolveS3PublishTargetError, ResolveS3PublishTargetErrorView, S3PublishEnvNamesError,
    S3PublishEnvNamesErrorView, S3PublishTarget, S3PublishTargetView,
};
use crate::sibling::{
    ContainerOverlayPlan, ContainerOverlayPlanView, SiblingSource, SiblingSourceView,
};
use crate::system::{
    is_common_class, profile_name, system_name, BuildProfile, PackageSystem, RequestedTarget,
    RequestedTargetView,
};
use crate::text::{join, joined};
use crate::textmap::{key_set, lookup, sorted, TextMap, TextSet};

verus! {

broadcast use crate::model::group_deep;

// ---------------------------------------------------------------------------
// Selection
// ---------------------------------------------------------------------------
/// Which branches are to be built.
pub struct BuildSelectionRequest {
    pub system: PackageSystem,
    pub targets: Vec<RequestedTarget>,
    pub features: Vec<String>,
}

/// A branch that is to be built for a target.
pub struct SelectedBuildBranch<'a> {
    pub package_id: &'a PackageId,
    pub system: PackageSystem,
    pub target: RequestedTarget,
    pub branch: PackageBranchRef<'a>,
}

/// What a [`SelectedBuildBranch`] holds.
pub struct SelectedBuildBranchView<'a> {
    pub package_id: Seq<char>,
    pub system: PackageSystem,
    pub target: RequestedTargetView,
    pub branch: PackageBranchRef<'a>,
}

impl<'a> DeepView for SelectedBuildBranch<'a> {
    type V = SelectedBuildBranchView<'a>;

    open spec fn deep_view(&self) -> SelectedBuildBranchView<'a> {
        SelectedBuildBranchView {
            package_id: self.package_id.deep_view(),
            system: self.system,
            target: self.target.deep_view(),
            branch: self.branch,
        }
    }
}

/// Nothing is to be built.
#[derive(Debug, PartialEq, Eq)]
pub enum SelectBuildError {
    /// Reported as `no package branch matches requested {system} build target`.
    NoMatchingBranch { system: PackageSystem },
}

/// What a [`SelectBuildError`] holds.
pub enum SelectBuildErrorView {
    NoMatchingBranch { system: PackageSystem },
}

impl DeepView for SelectBuildError {
    type V = SelectBuildErrorView;

    open spec fn deep_view(&self) -> SelectBuildErrorView {
        match self {
            SelectBuildError::NoMatchingBranch { system } => SelectBuildErrorView::NoMatchingBranch {
                system: *system,
            },
        }
    }
}

impl SelectBuildErrorView {
    /// The message of the error.
    pub open spec fn message(self) -> Seq<char> {
        match self {
            SelectBuildErrorView::NoMatchingBranch { system } => "no package branch matches requested "@ + system_name(system) + " build target"@,
        }
    }
}

impl SelectBuildError {
    /// The message of the error.
    pub fn to_string(&self) -> (text: String)
        ensures
            text@ == self.deep_view().message(),
    {
        match self {
            SelectBuildError::NoMatchingBranch { system } => {
                let mut text = "no package branch matches requested ".to_owned();
                text.append(system.as_str());
                text.append(" build target");
                text
            },
        }
    }
}

/// A branch is built for the common target where one package serves all targets, and for
/// a triple where not.
pub open spec fn target_matches(target: RequestedTargetView, branch: PackageBranchRef<'_>) -> bool {
    match (target, architecture_of(branch)) {
        (RequestedTargetView::Common, Some(class)) => is_common_class(class),
        (RequestedTargetView::Common, None) => false,
        (RequestedTargetView::Triple(_), Some(class)) => !is_common_class(class),
        (RequestedTargetView::Triple(_), None) => true,
    }
}

/// The targets from `from` on for which a branch is built, after what is already `found`.
pub open spec fn selected_targets<'a>(
    package_id: Seq<char>,
    system: PackageSystem,
    branch: PackageBranchRef<'a>,
    targets: Seq<RequestedTargetView>,
    from: int,
    found: Seq<SelectedBuildBranchView<'a>>,
) -> Seq<SelectedBuildBranchView<'a>>
    decreases targets.len() - from,
{
    if from < 0 || from >= targets.len() {
        found
    } else if target_matches(targets[from], branch) {
        selected_targets(
            package_id,
            system,
            branch,
            targets,
            from + 1,
            found.push(
                SelectedBuildBranchView { package_id, system, target: targets[from], branch },
            ),
        )
    } else {
        selected_targets(package_id, system, branch, targets, from + 1, found)
    }
}

/// The branches of the packages from `from` on that are built, after those already
/// `found`.
pub open spec fn selected_packages<'a>(
    packages: Seq<(PackageId, PackageContract)>,
    system: PackageSystem,
    targets: Seq<RequestedTargetView>,
    from: int,
    found: Seq<SelectedBuildBranchView<'a>>,
) -> Seq<SelectedBuildBranchView<'a>>
    decreases packages.len() - from,
{
    if from < 0 || from >= packages.len() {
        found
    } else {
        let next = match branch_of(packages[from].1, system) {
            None => found,
            Some(branch) => selected_targets(
                packages[from].0.deep_view(),
                system,
                branch,
                targets,
                0,
                found,
            ),
        };
        selected_packages(packages, system, targets, from + 1, next)
    }
}

/// The branches that are built for some targets: in the order of the packages, each for
/// the targets in their order.
pub open spec fn selected_branches<'a>(
    contract: ReleaseContract,
    system: PackageSystem,
    targets: Seq<RequestedTargetView>,
) -> Result<Seq<SelectedBuildBranchView<'a>>, SelectBuildErrorView> {
    let selected = selected_packages(contract.package.items(), system, targets, 0, Seq::empty());
    if selected.len() == 0 {
        Err(SelectBuildErrorView::NoMatchingBranch { system })
    } else {
        Ok(selected)
    }
}

/// Whether a branch is built for a target.
pub fn target_matches_branch(target: &RequestedTarget, branch: PackageBranchRef<'_>) -> (matches:
    bool)
    ensures
        matches == target_matches(target.deep_view(), branch),
{
    match target {
        RequestedTarget::Common => match branch.architecture() {
            Some(class) => class.matches_common_target(),
            None => false,
        },
        RequestedTarget::Triple(_) => match branch.architecture() {
            Some(class) => !class.matches_common_target(),
            None => true,
        },
    }
}

fn select_targets<'a>(
    package_id: &'a PackageId,
    system: PackageSystem,
    branch: PackageBranchRef<'a>,
    targets: &Vec<RequestedTarget>,
    selected: &mut Vec<SelectedBuildBranch<'a>>,
)
    ensures
        deep(final(selected)@) == selected_targets(
            package_id.deep_view(),
            system,
            branch,
            deep(targets@),
            0,
            deep(old(selected)@),
        ),
{
    let ghost start = deep(selected@);
    let mut i: usize = 0;
    while i < targets.len()
        invariant
            i <= targets@.len(),
            selected_targets(package_id.deep_view(), system, branch, deep(targets@), 0, start)
                == selected_targets(
                package_id.deep_view(),
                system,
                branch,
                deep(targets@),
                i as int,
                deep(selected@),
            ),
        decreases targets@.len() - i,
    {
        assert(deep(targets@)[i as int] == targets@[i as int].deep_view());
        if target_matches_branch(&targets[i], branch) {
            selected.push(
                SelectedBuildBranch { package_id, system, target: targets[i].clone(), branch },
            );
        }
        i = i + 1;
    }
}

/// The branches that are built for the requested targets.
pub fn select_build_branches(
    contract: &ReleaseContract,
    request: BuildSelectionRequest,
) -> (selected: Result<Vec<SelectedBuildBranch<'_>>, SelectBuildError>)
    ensures
        outcomes(selected) == selected_branches(
            *contract,
            request.system,
            deep(request.targets@),
        ),
{
    let mut selected: Vec<SelectedBuildBranch<'_>> = Vec::new();
    let mut i: usize = 0;
    while i < contract.package.len()
        invariant
            i <= contract.package.items().len(),
            selected_packages(
                contract.package.items(),
                request.system,
                deep(request.targets@),
                0,
                Seq::empty(),
            ) == selected_packages(
                contract.package.items(),
                request.system,
                deep(request.targets@),
                i as int,
                deep(selected@),
            ),
        decreases contract.package.items().len() - i,
    {
        if let Some(branch) = contract.package.value_at(i).branch(request.system) {
            select_targets(
                contract.package.key_at(i),
                request.system,
                branch,
                &request.targets,
                &mut selected,
            );
        }
        i = i + 1;
    }
    if selected.len() == 0 {
        return Err(SelectBuildError::NoMatchingBranch { system: request.system });
    }
    Ok(selected)
}

// ---------------------------------------------------------------------------
// Invocations
// ---------------------------------------------------------------------------
/// How a script is run.
#[derive(Debug, PartialEq, Eq)]
pub struct PlannedInvocation {
    pub script: String,
    pub container: Option<PlannedContainer>,
    pub env: TextMap<String, String>,
    pub env_mounts: Vec<PlannedEnvMount>,
}

/// What a [`PlannedInvocation`] holds.
pub struct PlannedInvocationView {
    pub script: Seq<char>,
    pub container: Option<PlannedContainerView>,
    pub env: Map<Seq<char>, Seq<char>>,
    pub env_mounts: Seq<PlannedEnvMountView>,
}

impl DeepView for PlannedInvocation {
    type V = PlannedInvocationView;

    open spec fn deep_view(&self) -> PlannedInvocationView {
        PlannedInvocationView {
            script: self.script@,
            container: self.container.deep_view(),
            env: self.env.deep_view(),
            env_mounts: deep(self.env_mounts@),
        }
    }
}

/// The container in which a script is run.
#[derive(Debug, PartialEq, Eq)]
pub struct PlannedContainer {
    pub image: String,
    pub build: Option<PlannedContainerBuild>,
}

/// What a [`PlannedContainer`] holds.
pub struct PlannedContainerView {
    pub image: Seq<char>,
    pub build: Option<PlannedContainerBuildView>,
}

impl DeepView for PlannedContainer {
    type V = PlannedContainerView;

    open spec fn deep_view(&self) -> PlannedContainerView {
        PlannedContainerView {
            image: self.image@,
            build: self.build.deep_view(),
        }
    }
}

impl Clone for PlannedContainer {
    fn clone(&self) -> (copy: Self)
        ensures
            copy.deep_view() == self.deep_view(),
    {
        let copy = PlannedContainer {
            image: self.image.clone(),
            build: self.build.clone(),
        };
        copy
    }
}

/// How the image of a container is built.
#[derive(Debug, PartialEq, Eq)]
pub struct PlannedContainerBuild {
    pub dockerfile: String,
}

/// What a [`PlannedContainerBuild`] holds.
pub struct PlannedContainerBuildView {
    pub dockerfile: Seq<char>,
}

impl DeepView for PlannedContainerBuild {
    type V = PlannedContainerBuildView;

    open spec fn deep_view(&self) -> PlannedContainerBuildView {
        PlannedContainerBuildView {
            dockerfile: self.dockerfile@,
        }
    }
}

impl Clone for PlannedContainerBuild {
    fn clone(&self) -> (copy: Self)
        ensures
            copy.deep_view() == self.deep_view(),
    {
        let copy = PlannedContainerBuild {
            dockerfile: self.dockerfile.clone(),
        };
        copy
    }
}

/// A file of the host that a container sees.
#[derive(Debug, PartialEq, Eq)]
pub struct PlannedEnvMount {
    pub source: String,
    pub destination: String,
    pub read_only: bool,
}

/// What a [`PlannedEnvMount`] holds.
pub struct PlannedEnvMountView {
    pub source: Seq<char>,
    pub destination: Seq<char>,
    pub read_only: bool,
}

impl DeepView for PlannedEnvMount {
    type V = PlannedEnvMountView;

    open spec fn deep_view(&self) -> PlannedEnvMountView {
        PlannedEnvMountView {
            source: self.source@,
            destination: self.destination@,
            read_only: self.read_only,
        }
    }
}

impl Clone for PlannedEnvMount {
    fn clone(&self) -> (copy: Self)
        ensures
            copy.deep_view() == self.deep_view(),
    {
        let copy = PlannedEnvMount {
            source: self.source.clone(),
            destination: self.destination.clone(),
            read_only: self.read_only,
        };
        copy
    }
}

/// Why an invocation cannot be planned.
#[derive(Debug, PartialEq, Eq)]
pub enum PlanInvocationError {
    /// Reported as `package {package} does not exist`.
    MissingPackage { package: String },
    /// Reported as `package {package} does not define {system} branch`.
    MissingBranch { package: String, system: PackageSystem },
    /// Reported as `requested target does not match {system} branch`.
    TargetNotMatched { system: PackageSystem },
    /// Reported as `destination s3 {system} branch missing publish script`.
    MissingPublish { system: PackageSystem },
    /// Reported as `missing required build environment variable {name}`.
    MissingEnv { name: String },
    /// Reported as `build environment variable {name} must not be empty`.
    EmptyEnv { name: String },
    /// Reported as `build env binding {name} must set exactly one of env or value`.
    InvalidEnvBinding { name: String },
    /// Reported as `container for {system} must set exactly one of image or dockerfile`.
    InvalidContainer { system: PackageSystem },
}

/// What a [`PlanInvocationError`] holds.
pub enum PlanInvocationErrorView {
    MissingPackage { package: Seq<char> },
    MissingBranch { package: Seq<char>, system: PackageSystem },
    TargetNotMatched { system: PackageSystem },
    MissingPublish { system: PackageSystem },
    MissingEnv { name: Seq<char> },
    EmptyEnv { name: Seq<char> },
    InvalidEnvBinding { name: Seq<char> },
    InvalidContainer { system: PackageSystem },
}

impl DeepView for PlanInvocationError {
    type V = PlanInvocationErrorView;

    open spec fn deep_view(&self) -> PlanInvocationErrorView {
        match self {
            PlanInvocationError::MissingPackage { package } => PlanInvocationErrorView::MissingPackage {
                package: package@,
            },
            PlanInvocationError::MissingBranch { package, system } => PlanInvocationErrorView::MissingBranch {
                package: package@,
                system: *system,
            },
            PlanInvocationError::TargetNotMatched { system } => PlanInvocationErrorView::TargetNotMatched {
                system: *system,
            },
            PlanInvocationError::MissingPublish { system } => PlanInvocationErrorView::MissingPublish {
                system: *system,
            },
            PlanInvocationError::MissingEnv { name } => PlanInvocationErrorView::MissingEnv {
                name: name@,
            },
            PlanInvocationError::EmptyEnv { name } => PlanInvocationErrorView::EmptyEnv {
                name: name@,
            },
            PlanInvocationError::InvalidEnvBinding { name } => PlanInvocationErrorView::InvalidEnvBinding {
                name: name@,
            },
            PlanInvocationError::InvalidContainer { system } => PlanInvocationErrorView::InvalidContainer {
                system: *system,
            },
        }
    }
}

impl PlanInvocationErrorView {
    /// The message of the error.
    pub open spec fn message(self) -> Seq<char> {
        match self {
            PlanInvocationErrorView::MissingPackage { package } => "package "@ + package + " does not exist"@,
            PlanInvocationErrorView::MissingBranch { package, system } => "package "@ + package + " does not define "@ + system_name(system) + " branch"@,
            PlanInvocationErrorView::TargetNotMatched { system } => "requested target does not match "@ + system_name(system) + " branch"@,
            PlanInvocationErrorView::MissingPublish { system } => "destination s3 "@ + system_name(system) + " branch missing publish script"@,
            PlanInvocationErrorView::MissingEnv { name } => "missing required build environment variable "@ + name,
            PlanInvocationErrorView::EmptyEnv { name } => "build environment variable "@ + name + " must not be empty"@,
            PlanInvocationErrorView::InvalidEnvBinding { name } => "build env binding "@ + name + " must set exactly one of env or value"@,
            PlanInvocationErrorView::InvalidContainer { system } => "container for "@ + system_name(system) + " must set exactly one of image or dockerfile"@,
        }
    }
}

impl PlanInvocationError {
    /// The message of the error.
    pub fn to_string(&self) -> (text: String)
        ensures
            text@ == self.deep_view().message(),
    {
        match self {
            PlanInvocationError::MissingPackage { package } => {
                let mut text = "package ".to_owned();
                text.append(package.as_str());
                text.append(" does not exist");
                text
            },
            PlanInvocationError::MissingBranch { package, system } => {
                let mut text = "package ".to_owned();
                text.append(package.as_str());
                text.append(" does not define ");
                text.append(system.as_str());
                text.append(" branch");
                text
            },
            PlanInvocationError::TargetNotMatched { system } => {
                let mut text = "requested target does not match ".to_owned();
                text.append(system.as_str());
                text.append(" branch");
                text
            },
            PlanInvocationError::MissingPublish { system } => {
                let mut text = "destination s3 ".to_owned();
                text.append(system.as_str());
                text.append(" branch missing publish script");
                text
            },
            PlanInvocationError::MissingEnv { name } => {
                let mut text = "missing required build environment variable ".to_owned();
                text.append(name.as_str());
                text
            },
            PlanInvocationError::EmptyEnv { name } => {
                let mut text = "build environment variable ".to_owned();
                text.append(name.as_str());
                text.append(" must not be empty");
                text
            },
            PlanInvocationError::InvalidEnvBinding { name } => {
                let mut text = "build env binding ".to_owned();
                text.append(name.as_str());
                text.append(" must set exactly one of env or value");
                text
            },
            PlanInvocationError::InvalidContainer { system } => {
                let mut text = "container for ".to_owned();
                text.append(system.as_str());
                text.append(" must set exactly one of image or dockerfile");
                text
            },
        }
    }
}

/// The branch of a package that is built for a target.
pub open spec fn matched_branch<'a>(
    contract: ReleaseContract,
    package: Seq<char>,
    system: PackageSystem,
    target: RequestedTargetView,
) -> Result<PackageBranchRef<'a>, PlanInvocationErrorView> {
    match package_of(contract, package) {
        None => Err(PlanInvocationErrorView::MissingPackage { package }),
        Some(found) => match branch_of(found, system) {
            None => Err(PlanInvocationErrorView::MissingBranch { package, system }),
            Some(branch) => if target_matches(target, branch) {
                Ok(branch)
            } else {
                Err(PlanInvocationErrorView::TargetNotMatched { system })
            },
        },
    }
}

/// The container that a contract asks for: an image that exists, or one that is built
/// under the name `generated`.
pub open spec fn container_plan(
    container: Option<ContainerContractView>,
    generated: Seq<char>,
    system: PackageSystem,
) -> Result<Option<PlannedContainerView>, PlanInvocationErrorView> {
    match container {
        None => Ok(None),
        Some(container) => match (container.image, container.dockerfile) {
            (Some(image), None) => Ok(Some(PlannedContainerView { image, build: None })),
            (None, Some(dockerfile)) => Ok(
                Some(
                    PlannedContainerView {
                        image: generated,
                        build: Some(PlannedContainerBuildView { dockerfile }),
                    },
                ),
            ),
            _ => Err(PlanInvocationErrorView::InvalidContainer { system }),
        },
    }
}

/// The name of the image that builds a package.
pub open spec fn build_image(package: Seq<char>, system: PackageSystem) -> Seq<char> {
    "xtask-release:build-"@ + package + "-"@ + system_name(system)
}

/// The name of the image that publishes a package system.
pub open spec fn publish_image(system: PackageSystem) -> Seq<char> {
    "xtask-release:publish-"@ + system_name(system)
}

/// How a target is named in environments, in manifests and in contracts.
pub open spec fn target_name(target: RequestedTargetView) -> Seq<char> {
    match target {
        RequestedTargetView::Triple(triple) => triple,
        RequestedTargetView::Common => "common"@,
    }
}

/// The environment that every build is given.
pub open spec fn build_env(
    package: Seq<char>,
    system: PackageSystem,
    target: RequestedTargetView,
    profile: BuildProfile,
    features: Seq<Seq<char>>,
) -> Map<Seq<char>, Seq<char>> {
    Map::empty().insert("XTASK_RELEASE_PACKAGE_ID"@, package).insert(
        "XTASK_RELEASE_SYSTEM"@,
        system_name(system),
    ).insert("XTASK_RELEASE_TARGET"@, target_name(target)).insert(
        "XTASK_RELEASE_PROFILE"@,
        profile_name(profile),
    ).insert("XTASK_RELEASE_FEATURES"@, joined(features, ","@))
}

/// How a package is built, before the bindings of the contract are applied.
pub open spec fn planned_build(
    contract: ReleaseContract,
    package: Seq<char>,
    system: PackageSystem,
    target: RequestedTargetView,
    profile: BuildProfile,
    features: Seq<Seq<char>>,
) -> Result<PlannedInvocationView, PlanInvocationErrorView> {
    match matched_branch(contract, package, system, target) {
        Err(error) => Err(error),
        Ok(branch) => match container_plan(
            build_of(branch).container,
            build_image(package, system),
            system,
        ) {
            Err(error) => Err(error),
            Ok(container) => Ok(
                PlannedInvocationView {
                    script: build_of(branch).script,
                    container,
                    env: build_env(package, system, target, profile, features),
                    env_mounts: Seq::empty(),
                },
            ),
        },
    }
}

fn match_branch<'a>(
    contract: &'a ReleaseContract,
    package: &str,
    system: PackageSystem,
    target: &RequestedTarget,
) -> (branch: Result<PackageBranchRef<'a>, PlanInvocationError>)
    ensures
        match branch {
            Ok(found) => matched_branch(*contract, package@, system, target.deep_view()) == Ok::<
                PackageBranchRef<'a>,
                PlanInvocationErrorView,
            >(found),
            Err(error) => matched_branch(*contract, package@, system, target.deep_view()) == Err::<
                PackageBranchRef<'a>,
                PlanInvocationErrorView,
            >(error.deep_view()),
        },
{
    let found = match contract.package(package) {
        Some(found) => found,
        None => {
            return Err(PlanInvocationError::MissingPackage { package: package.to_owned() });
        },
    };
    match found.branch(system) {
        None => Err(PlanInvocationError::MissingBranch { package: package.to_owned(), system }),
        Some(branch) => {
            if !target_matches_branch(target, branch) {
                return Err(PlanInvocationError::TargetNotMatched { system });
            }
            Ok(branch)
        },
    }
}

fn planned_container(
    container: &Option<ContainerContract>,
    generated_image: String,
    system: PackageSystem,
) -> (plan: Result<Option<PlannedContainer>, PlanInvocationError>)
    ensures
        outcome(plan) == container_plan(container.deep_view(), generated_image@, system),
{
    let container = match container {
        Some(container) => container,
        None => {
            return Ok(None);
        },
    };
    match (&container.image, &container.dockerfile) {
        (Some(image), None) => Ok(Some(PlannedContainer { image: image.clone(), build: None })),
        (None, Some(dockerfile)) => Ok(
            Some(
                PlannedContainer {
                    image: generated_image,
                    build: Some(PlannedContainerBuild { dockerfile: dockerfile.clone() }),
                },
            ),
        ),
        _ => Err(PlanInvocationError::InvalidContainer { system }),
    }
}

/// How a target is named in environments, in manifests and in contracts.
pub fn target_value(target: &RequestedTarget) -> (name: String)
    ensures
        name@ == target_name(target.deep_view()),
{
    match target {
        RequestedTarget::Triple(triple) => triple.clone(),
        RequestedTarget::Common => "common".to_owned(),
    }
}

/// How a package is built in a profile, before the bindings of the contract are applied.
pub fn build_invocation_for_profile(
    contract: &ReleaseContract,
    package: &str,
    system: PackageSystem,
    target: RequestedTarget,
    profile: BuildProfile,
    features: &Vec<String>,
) -> (plan: Result<PlannedInvocation, PlanInvocationError>)
    ensures
        outcome(plan) == planned_build(
            *contract,
            package@,
            system,
            target.deep_view(),
            profile,
            deep(features@),
        ),
{
    let branch = match match_branch(contract, package, system, &target) {
        Ok(branch) => branch,
        Err(error) => {
            return Err(error);
        },
    };
    let build = branch.build();
    let mut env: TextMap<String, String> = TextMap::new();
    env.insert("XTASK_RELEASE_PACKAGE_ID".to_owned(), package.to_owned());
    env.insert("XTASK_RELEASE_SYSTEM".to_owned(), system.as_str().to_owned());
    env.insert("XTASK_RELEASE_TARGET".to_owned(), target_value(&target));
    env.insert("XTASK_RELEASE_PROFILE".to_owned(), profile.as_str().to_owned());
    env.insert("XTASK_RELEASE_FEATURES".to_owned(), join(features, ","));
    let mut image = "xtask-release:build-".to_owned();
    image.append(package);
    image.append("-");
    image.append(system.as_str());
    let container = match planned_container(&build.container, image, system) {
        Ok(container) => container,
        Err(error) => {
            return Err(error);
        },
    };
    Ok(PlannedInvocation { script: build.script, container, env, env_mounts: Vec::new() })
}

/// How a package is built for release, before the bindings of the contract are applied.
pub fn build_invocation_for(
    contract: &ReleaseContract,
    package: &str,
    system: PackageSystem,
    target: RequestedTarget,
    features: &Vec<String>,
) -> (plan: Result<PlannedInvocation, PlanInvocationError>)
    ensures
        outcome(plan) == planned_build(
            *contract,
            package@,
            system,
            target.deep_view(),
            BuildProfile::Release,
            deep(features@),
        ),
{
    build_invocation_for_profile(
        contract,
        package,
        system,
        target,
        BuildProfile::Release,
        features,
    )
}

/// The script that the destination of a package system states.
pub open spec fn publish_contract(contract: ReleaseContract, system: PackageSystem) -> Option<
    PublishContract,
> {
    match system {
        PackageSystem::Deb => match contract.destination.s3.deb {
            Some(destination) => destination.publish,
            None => None,
        },
        PackageSystem::Rpm => match contract.destination.s3.rpm {
            Some(destination) => destination.publish,
            None => None,
        },
        PackageSystem::Brew | PackageSystem::Scoop => None,
    }
}

/// How a Linux repository is published.
pub open spec fn planned_publish(contract: ReleaseContract, system: PackageSystem) -> Result<
    PlannedInvocationView,
    PlanInvocationErrorView,
> {
    match publish_contract(contract, system) {
        None => Err(PlanInvocationErrorView::MissingPublish { system }),
        Some(publish) => match container_plan(
            publish.container.deep_view(),
            publish_image(system),
            system,
        ) {
            Err(error) => Err(error),
            Ok(container) => Ok(
                PlannedInvocationView {
                    script: publish.script@,
                    container,
                    env: Map::empty(),
                    env_mounts: Seq::empty(),
                },
            ),
        },
    }
}

/// How a Linux repository is published.
pub fn publish_invocation_for(contract: &ReleaseContract, system: PackageSystem) -> (plan: Result<
    PlannedInvocation,
    PlanInvocationError,
>)
    ensures
        outcome(plan) == planned_publish(*contract, system),
{
    let stated = match system {
        PackageSystem::Deb => match &contract.destination.s3.deb {
            Some(destination) => destination.publish.as_ref(),
            None => None,
        },
        PackageSystem::Rpm => match &contract.destination.s3.rpm {
            Some(destination) => destination.publish.as_ref(),
            None => None,
        },
        PackageSystem::Brew | PackageSystem::Scoop => None,
    };
    let publish = match stated {
        Some(publish) => publish,
        None => {
            return Err(PlanInvocationError::MissingPublish { system });
        },
    };
    let mut image = "xtask-release:publish-".to_owned();
    image.append(system.as_str());
    match planned_container(&publish.container, image, system) {
        Err(error) => Err(error),
        Ok(container) => Ok(
            PlannedInvocation {
                script: publish.script.clone(),
                container,
                env: TextMap::new(),
                env_mounts: Vec::new(),
            },
        ),
    }
}

// ---------------------------------------------------------------------------
// Environment bindings
// ---------------------------------------------------------------------------
/// The bindings of a branch for a target.
pub open spec fn target_bindings(branch: PackageBranchRef<'_>, target: RequestedTargetView) -> Seq<
    (String, EnvBinding),
> {
    match lookup(targets_of(branch), target_name(target)) {
        Some(contract) => contract.env.items(),
        None => Seq::empty(),
    }
}

/// The binding of a name: that of the target, or else that of the package.
pub open spec fn binding_of(
    package: Seq<(String, EnvBinding)>,
    target: Seq<(String, EnvBinding)>,
    name: Seq<char>,
) -> EnvBinding {
    match lookup(target, name) {
        Some(binding) => binding,
        None => lookup(package, name)->0,
    }
}

/// The value of a binding, with the mount that it needs in a container. An optional
/// binding whose variable is not set has none.
pub open spec fn binding_value(
    name: Seq<char>,
    binding: EnvBinding,
    values: Map<Seq<char>, Seq<char>>,
    container: bool,
) -> Result<Option<(Seq<char>, Option<PlannedEnvMountView>)>, PlanInvocationErrorView> {
    match (binding.env, binding.value) {
        (Some(variable), None) => if !values.contains_key(variable@) {
            if binding.optional {
                Ok(None)
            } else {
                Err(PlanInvocationErrorView::MissingEnv { name: variable@ })
            }
        } else if values[variable@].len() == 0 {
            Err(PlanInvocationErrorView::EmptyEnv { name: variable@ })
        } else if container && binding.container_path is Some {
            let path = binding.container_path->0@;
            Ok(
                Some(
                    (
                        path,
                        Some(
                            PlannedEnvMountView {
                                source: values[variable@],
                                destination: path,
                                read_only: true,
                            },
                        ),
                    ),
                ),
            )
        } else {
            Ok(Some((values[variable@], None)))
        },
        (None, Some(value)) => if value@.len() == 0 {
            Err(PlanInvocationErrorView::EmptyEnv { name })
        } else {
            Ok(Some((value@, None)))
        },
        _ => Err(PlanInvocationErrorView::InvalidEnvBinding { name }),
    }
}

/// The environment and the mounts after the bindings of the names from `from` on have
/// been applied to `env` and `mounts`.
pub open spec fn bound_env(
    names: Seq<Seq<char>>,
    package: Seq<(String, EnvBinding)>,
    target: Seq<(String, EnvBinding)>,
    values: Map<Seq<char>, Seq<char>>,
    container: bool,
    from: int,
    env: Map<Seq<char>, Seq<char>>,
    mounts: Seq<PlannedEnvMountView>,
) -> Result<(Map<Seq<char>, Seq<char>>, Seq<PlannedEnvMountView>), PlanInvocationErrorView>
    decreases names.len() - from,
{
    if from < 0 || from >= names.len() {
        Ok((env, mounts))
    } else {
        let name = names[from];
        match binding_value(name, binding_of(package, target, name), values, container) {
            Err(error) => Err(error),
            Ok(None) => bound_env(
                names,
                package,
                target,
                values,
                container,
                from + 1,
                env,
                mounts,
            ),
            Ok(Some((value, mount))) => bound_env(
                names,
                package,
                target,
                values,
                container,
                from + 1,
                env.insert(name, value),
                match mount {
                    Some(mount) => mounts.push(mount),
                    None => mounts,
                },
            ),
        }
    }
}

/// How a package is built, with the bindings of the contract applied in the order of
/// their names.
pub open spec fn bound_build(
    contract: ReleaseContract,
    package: Seq<char>,
    system: PackageSystem,
    target: RequestedTargetView,
    profile: BuildProfile,
    features: Seq<Seq<char>>,
    values: Map<Seq<char>, Seq<char>>,
) -> Result<PlannedInvocationView, PlanInvocationErrorView> {
    match planned_build(contract, package, system, target, profile, features) {
        Err(error) => Err(error),
        Ok(plan) => {
            let own = package_of(contract, package)->0.build.env.items();
            let special = target_bindings(
                branch_of(package_of(contract, package)->0, system)->0,
                target,
            );
            match bound_env(
                sorted(key_set(own).union(key_set(special))),
                own,
                special,
                values,
                plan.container is Some,
                0,
                plan.env,
                plan.env_mounts,
            ) {
                Err(error) => Err(error),
                Ok((env, env_mounts)) => Ok(PlannedInvocationView { env, env_mounts, ..plan }),
            }
        },
    }
}

/// The value of a binding, with the mount that it needs.
#[derive(Debug, PartialEq, Eq)]
pub struct ResolvedEnvBinding {
    pub value: String,
    pub mount: Option<PlannedEnvMount>,
}

/// What a [`ResolvedEnvBinding`] holds.
pub struct ResolvedEnvBindingView {
    pub value: Seq<char>,
    pub mount: Option<PlannedEnvMountView>,
}

impl DeepView for ResolvedEnvBinding {
    type V = ResolvedEnvBindingView;

    open spec fn deep_view(&self) -> ResolvedEnvBindingView {
        ResolvedEnvBindingView {
            value: self.value@,
            mount: self.mount.deep_view(),
        }
    }
}

fn resolve_env_binding(
    name: &str,
    binding: &EnvBinding,
    values: &TextMap<String, String>,
    container: bool,
) -> (resolved: Result<Option<ResolvedEnvBinding>, PlanInvocationError>)
    ensures
        match resolved {
            Err(error) => binding_value(name@, *binding, values.deep_view(), container) == Err::<
                Option<(Seq<char>, Option<PlannedEnvMountView>)>,
                PlanInvocationErrorView,
            >(error.deep_view()),
            Ok(None) => binding_value(name@, *binding, values.deep_view(), container) == Ok::<
                Option<(Seq<char>, Option<PlannedEnvMountView>)>,
                PlanInvocationErrorView,
            >(None),
            Ok(Some(found)) => binding_value(name@, *binding, values.deep_view(), container)
                == Ok::<
                Option<(Seq<char>, Option<PlannedEnvMountView>)>,
                PlanInvocationErrorView,
            >(Some((found.value@, found.mount.deep_view()))),
        },
{
    match (&binding.env, &binding.value) {
        (Some(variable), None) => {
            let value = match values.value(variable.as_str()) {
                Some(value) => value,
                None => {
                    if binding.optional {
                        return Ok(None);
                    }
                    return Err(PlanInvocationError::MissingEnv { name: variable.clone() });
                },
            };
            if value.as_str().is_empty() {
                return Err(PlanInvocationError::EmptyEnv { name: variable.clone() });
            }
            if container {
                if let Some(path) = &binding.container_path {
                    return Ok(
                        Some(
                            ResolvedEnvBinding {
                                value: path.clone(),
                                mount: Some(
                                    PlannedEnvMount {
                                        source: value.clone(),
                                        destination: path.clone(),
                                        read_only: true,
                                    },
                                ),
                            },
                        ),
                    );
                }
            }
            Ok(Some(ResolvedEnvBinding { value: value.clone(), mount: None }))
        },
        (None, Some(value)) => {
            if value.as_str().is_empty() {
                return Err(PlanInvocationError::EmptyEnv { name: name.to_owned() });
            }
            Ok(Some(ResolvedEnvBinding { value: value.clone(), mount: None }))
        },
        _ => Err(PlanInvocationError::InvalidEnvBinding { name: name.to_owned() }),
    }
}

/// How a package is built in a profile, with the bindings of the contract applied to the
/// environment `values`.
pub fn build_invocation_for_profile_with_env_values(
    contract: &ReleaseContract,
    package: &str,
    system: PackageSystem,
    target: RequestedTarget,
    profile: BuildProfile,
    features: &Vec<String>,
    values: &TextMap<String, String>,
) -> (plan: Result<PlannedInvocation, PlanInvocationError>)
    ensures
        outcome(plan) == bound_build(
            *contract,
            package@,
            system,
            target.deep_view(),
            profile,
            deep(features@),
            values.deep_view(),
        ),
{
    let branch = match match_branch(contract, package, system, &target) {
        Ok(branch) => branch,
        Err(error) => {
            return Err(error);
        },
    };
    let found = match contract.package(package) {
        Some(found) => found,
        None => {
            return Err(PlanInvocationError::MissingPackage { package: package.to_owned() });
        },
    };
    let plan = match build_invocation_for_profile(
        contract,
        package,
        system,
        target.clone(),
        profile,
        features,
    ) {
        Ok(plan) => plan,
        Err(error) => {
            return Err(error);
        },
    };
    let ghost planned = plan.deep_view();
    let ghost own = found.build.env.items();
    let ghost special = target_bindings(branch, target.deep_view());
    let special_env = branch.target_env(target_value(&target).as_str());
    let mut names = TextSet::new();
    found.build.env.add_keys(&mut names);
    if let Some(bindings) = special_env {
        bindings.add_keys(&mut names);
    }
    proof {
        assert(Set::<Seq<char>>::empty().union(key_set(own)) =~= key_set(own));
        if special_env is None {
            assert(key_set(own).union(key_set(special)) =~= key_set(own));
        }
        assert(names.deep_view() =~= key_set(own).union(key_set(special)));
    }
    let container = plan.container.is_some();
    let count: usize = names.len();
    let ghost ordered = names.items();
    let mut env = plan.env;
    let mut env_mounts = plan.env_mounts;
    let mut i: usize = 0;
    while i < count
        invariant
            i <= count == ordered.len(),
            ordered == names.items(),
            own == found.build.env.items(),
            match special_env {
                Some(bindings) => special == bindings.items(),
                None => special == Seq::<(String, EnvBinding)>::empty(),
            },
            names.deep_view() == key_set(own).union(key_set(special)),
            ordered == sorted(key_set(own).union(key_set(special))),
            bound_env(
                ordered,
                own,
                special,
                values.deep_view(),
                container,
                0,
                planned.env,
                planned.env_mounts,
            ) == bound_env(
                ordered,
                own,
                special,
                values.deep_view(),
                container,
                i as int,
                env.deep_view(),
                deep(env_mounts@),
            ),
            planned_build(
                *contract,
                package@,
                system,
                target.deep_view(),
                profile,
                deep(features@),
            ) == Ok::<PlannedInvocationView, PlanInvocationErrorView>(planned),
            own == package_of(*contract, package@)->0.build.env.items(),
            special == target_bindings(
                branch_of(package_of(*contract, package@)->0, system)->0,
                target.deep_view(),
            ),
            container == planned.container is Some,
        decreases count - i,
    {
        let name = names.at(i);
        proof {
            assert(names.items().contains(ordered[i as int]));
            assert(names.deep_view().contains(name@));
        }
        let stated = match special_env {
            Some(bindings) => bindings.get(name.as_str()),
            None => None,
        };
        let binding = match stated {
            Some(binding) => Some(binding),
            None => found.build.env.get(name.as_str()),
        };
        if let Some(binding) = binding {
            assert(binding_of(own, special, name@) == *binding);
            match resolve_env_binding(name.as_str(), binding, values, container) {
                Ok(Some(resolved)) => {
                    env.insert(name.clone(), resolved.value);
                    if let Some(mount) = resolved.mount {
                        env_mounts.push(mount);
                    }
                },
                Ok(None) => {},
                Err(error) => {
                    return Err(error);
                },
            }
        } else {
            // Every name is the key of one of the two maps.
            assert(false);
        }
        i = i + 1;
    }
    Ok(PlannedInvocation { script: plan.script, container: plan.container, env, env_mounts })
}

/// How a package is built for release, with the bindings of the contract applied to the
/// environment `values`.
pub fn build_invocation_with_env_values(
    contract: &ReleaseContract,
    package: &str,
    system: PackageSystem,
    target: RequestedTarget,
    features: &Vec<String>,
    values: &TextMap<String, String>,
) -> (plan: Result<PlannedInvocation, PlanInvocationError>)
    ensures
        outcome(plan) == bound_build(
            *contract,
            package@,
            system,
            target.deep_view(),
            BuildProfile::Release,
            deep(features@),
            values.deep_view(),
        ),
{
    build_invocation_for_profile_with_env_values(
        contract,
        package,
        system,
        target,
        BuildProfile::Release,
        features,
        values,
    )
}

// ---------------------------------------------------------------------------
// Names of environment variables
// ---------------------------------------------------------------------------
/// The environment variables that a build reads.
#[derive(Debug, PartialEq, Eq)]
pub struct BuildEnvNames {
    pub required: TextSet,
    pub optional: TextSet,
}

/// What a [`BuildEnvNames`] holds.
pub struct BuildEnvNamesView {
    pub required: Set<Seq<char>>,
    pub optional: Set<Seq<char>>,
}

impl DeepView for BuildEnvNames {
    type V = BuildEnvNamesView;

    open spec fn deep_view(&self) -> BuildEnvNamesView {
        BuildEnvNamesView {
            required: self.required.deep_view(),
            optional: self.optional.deep_view(),
        }
    }
}

impl Default for BuildEnvNames {
    fn default() -> (names: Self)
        ensures
            names.deep_view() == no_names(),
    {
        BuildEnvNames { required: TextSet::new(), optional: TextSet::new() }
    }
}

/// No environment variables.
pub open spec fn no_names() -> BuildEnvNamesView {
    BuildEnvNamesView { required: Set::empty(), optional: Set::empty() }
}

/// `names` with the variable of a binding, where it reads one.
pub open spec fn with_binding(names: BuildEnvNamesView, name: Seq<char>, binding: EnvBinding) -> Result<
    BuildEnvNamesView,
    PlanInvocationErrorView,
> {
    match (binding.env, binding.value) {
        (Some(variable), None) => if binding.optional {
            Ok(
                BuildEnvNamesView {
                    required: names.required.remove(variable@),
                    optional: names.optional.insert(variable@),
                },
            )
        } else {
            Ok(
                BuildEnvNamesView {
                    required: names.required.insert(variable@),
                    optional: names.optional.remove(variable@),
                },
            )
        },
        (None, Some(_)) => Ok(names),
        _ => Err(PlanInvocationErrorView::InvalidEnvBinding { name }),
    }
}

/// `names` without the variable of a binding.
pub open spec fn without_binding(
    names: BuildEnvNamesView,
    binding: Option<EnvBinding>,
) -> BuildEnvNamesView {
    match binding {
        Some(EnvBinding { env: Some(variable), .. }) => BuildEnvNamesView {
            required: names.required.remove(variable@),
            optional: names.optional.remove(variable@),
        },
        _ => names,
    }
}

/// `names` with the variables of the bindings from `from` on. Where a binding replaces one
/// of `replaced`, the variable of the latter is taken out first.
pub open spec fn with_bindings(
    names: BuildEnvNamesView,
    bindings: Seq<(String, EnvBinding)>,
    replaced: Seq<(String, EnvBinding)>,
    from: int,
) -> Result<BuildEnvNamesView, PlanInvocationErrorView>
    decreases bindings.len() - from,
{
    if from < 0 || from >= bindings.len() {
        Ok(names)
    } else {
        match with_binding(
            without_binding(names, lookup(replaced, bindings[from].0@)),
            bindings[from].0@,
            bindings[from].1,
        ) {
            Err(error) => Err(error),
            Ok(next) => with_bindings(next, bindings, replaced, from + 1),
        }
    }
}

/// The environment variables that the build of a package for a target reads.
pub open spec fn build_names(
    contract: ReleaseContract,
    package: Seq<char>,
    system: PackageSystem,
    target: RequestedTargetView,
) -> Result<BuildEnvNamesView, PlanInvocationErrorView> {
    match matched_branch(contract, package, system, target) {
        Err(error) => Err(error),
        Ok(branch) => {
            let own = package_of(contract, package)->0.build.env.items();
            match with_bindings(no_names(), own, Seq::empty(), 0) {
                Err(error) => Err(error),
                Ok(names) => with_bindings(names, target_bindings(branch, target), own, 0),
            }
        },
    }
}

fn insert_env_binding_name(name: &str, binding: &EnvBinding, names: &mut BuildEnvNames) -> (result:
    Result<(), PlanInvocationError>)
    ensures
        match result {
            Ok(_) => with_binding(old(names).deep_view(), name@, *binding) == Ok::<
                BuildEnvNamesView,
                PlanInvocationErrorView,
            >(final(names).deep_view()),
            Err(error) => with_binding(old(names).deep_view(), name@, *binding) == Err::<
                BuildEnvNamesView,
                PlanInvocationErrorView,
            >(error.deep_view()),
        },
{
    match (&binding.env, &binding.value) {
        (Some(variable), None) => {
            if binding.optional {
                names.required.remove(variable.as_str());
                names.optional.insert(variable.clone());
            } else {
                names.optional.remove(variable.as_str());
                names.required.insert(variable.clone());
            }
            Ok(())
        },
        (None, Some(_)) => Ok(()),
        _ => Err(PlanInvocationError::InvalidEnvBinding { name: name.to_owned() }),
    }
}

fn remove_env_binding_name(binding: &EnvBinding, names: &mut BuildEnvNames)
    ensures
        final(names).deep_view() == without_binding(old(names).deep_view(), Some(*binding)),
{
    if let Some(variable) = &binding.env {
        names.required.remove(variable.as_str());
        names.optional.remove(variable.as_str());
    }
}

fn insert_env_binding_names(
    bindings: &TextMap<String, EnvBinding>,
    replaced: Option<&TextMap<String, EnvBinding>>,
    names: &mut BuildEnvNames,
) -> (result: Result<(), PlanInvocationError>)
    ensures
        ({
            let known = match replaced {
                Some(map) => map.items(),
                None => Seq::empty(),
            };
            match result {
                Ok(_) => with_bindings(old(names).deep_view(), bindings.items(), known, 0) == Ok::<
                    BuildEnvNamesView,
                    PlanInvocationErrorView,
                >(final(names).deep_view()),
                Err(error) => with_bindings(old(names).deep_view(), bindings.items(), known, 0)
                    == Err::<BuildEnvNamesView, PlanInvocationErrorView>(error.deep_view()),
            }
        }),
{
    let ghost start = names.deep_view();
    let ghost known = match replaced {
        Some(map) => map.items(),
        None => Seq::empty(),
    };
    let mut i: usize = 0;
    while i < bindings.len()
        invariant
            i <= bindings.items().len(),
            start == old(names).deep_view(),
            known == (match replaced {
                Some(map) => map.items(),
                None => Seq::empty(),
            }),
            with_bindings(start, bindings.items(), known, 0) == with_bindings(
                names.deep_view(),
                bindings.items(),
                known,
                i as int,
            ),
        decreases bindings.items().len() - i,
    {
        let name = bindings.key_at(i);
        if let Some(map) = replaced {
            if let Some(binding) = map.get(name.as_str()) {
                remove_env_binding_name(binding, names);
            }
        }
        if let Err(error) = insert_env_binding_name(name.as_str(), bindings.value_at(i), names) {
            return Err(error);
        }
        i = i + 1;
    }
    Ok(())
}

/// The environment variables that the build of a package for a target reads.
pub fn build_env_names(
    contract: &ReleaseContract,
    package: &str,
    system: PackageSystem,
    target: RequestedTarget,
) -> (names: Result<BuildEnvNames, PlanInvocationError>)
    ensures
        outcome(names) == build_names(*contract, package@, system, target.deep_view()),
{
    let branch = match match_branch(contract, package, system, &target) {
        Ok(branch) => branch,
        Err(error) => {
            return Err(error);
        },
    };
    let found = match contract.package(package) {
        Some(found) => found,
        None => {
            return Err(PlanInvocationError::MissingPackage { package: package.to_owned() });
        },
    };
    let mut names = BuildEnvNames::default();
    if let Err(error) = insert_env_binding_names(&found.build.env, None, &mut names) {
        return Err(error);
    }
    if let Some(bindings) = branch.target_env(target_value(&target).as_str()) {
        if let Err(error) = insert_env_binding_names(
            bindings,
            Some(&found.build.env),
            &mut names,
        ) {
            return Err(error);
        }
    }
    Ok(names)
}

/// No environment variable is both required and optional.
pub proof fn lemma_env_names_disjoint(
    contract: ReleaseContract,
    package: Seq<char>,
    system: PackageSystem,
    target: RequestedTargetView,
)
    ensures
        build_names(contract, package, system, target) matches Ok(names)
            ==> names.required.disjoint(names.optional),
{
    if let Ok(branch) = matched_branch(contract, package, system, target) {
        let own = package_of(contract, package)->0.build.env.items();
        lemma_bindings_disjoint(no_names(), own, Seq::empty(), 0);
        if let Ok(names) = with_bindings(no_names(), own, Seq::empty(), 0) {
            lemma_bindings_disjoint(names, target_bindings(branch, target), own, 0);
        }
    }
}

proof fn lemma_bindings_disjoint(
    names: BuildEnvNamesView,
    bindings: Seq<(String, EnvBinding)>,
    replaced: Seq<(String, EnvBinding)>,
    from: int,
)
    requires
        names.required.disjoint(names.optional),
    ensures
        with_bindings(names, bindings, replaced, from) matches Ok(result)
            ==> result.required.disjoint(result.optional),
    decreases bindings.len() - from,
{
    if 0 <= from < bindings.len() {
        let cleared = without_binding(names, lookup(replaced, bindings[from].0@));
        if let Ok(next) = with_binding(cleared, bindings[from].0@, bindings[from].1) {
            lemma_bindings_disjoint(next, bindings, replaced, from + 1);
        }
    }
}

/// Why the environment variables of a build and its publication cannot be told.
#[allow(inconsistent_fields)]
#[derive(Debug, PartialEq, Eq)]
pub enum BuildAndS3PublishEnvNamesError {
    /// Reported as `failed to resolve build environment names`.
    Build { source: PlanInvocationError },
    /// Reported as `failed to resolve s3 publish environment names`.
    Publish { source: S3PublishEnvNamesError },
}

/// What a [`BuildAndS3PublishEnvNamesError`] holds.
#[allow(inconsistent_fields)]
pub enum BuildAndS3PublishEnvNamesErrorView {
    Build { source: PlanInvocationErrorView },
    Publish { source: S3PublishEnvNamesErrorView },
}

impl DeepView for BuildAndS3PublishEnvNamesError {
    type V = BuildAndS3PublishEnvNamesErrorView;

    open spec fn deep_view(&self) -> BuildAndS3PublishEnvNamesErrorView {
        match self {
            BuildAndS3PublishEnvNamesError::Build { source } => BuildAndS3PublishEnvNamesErrorView::Build {
                source: source.deep_view(),
            },
            BuildAndS3PublishEnvNamesError::Publish { source } => BuildAndS3PublishEnvNamesErrorView::Publish {
                source: source.deep_view(),
            },
        }
    }
}

impl BuildAndS3PublishEnvNamesErrorView {
    /// The message of the error.
    pub open spec fn message(self) -> Seq<char> {
        match self {
            BuildAndS3PublishEnvNamesErrorView::Build { .. } => "failed to resolve build environment names"@,
            BuildAndS3PublishEnvNamesErrorView::Publish { .. } => "failed to resolve s3 publish environment names"@,
        }
    }
}

impl BuildAndS3PublishEnvNamesError {
    /// The message of the error.
    pub fn to_string(&self) -> (text: String)
        ensures
            text@ == self.deep_view().message(),
    {
        match self {
            BuildAndS3PublishEnvNamesError::Build { .. } => "failed to resolve build environment names".to_owned(),
            BuildAndS3PublishEnvNamesError::Publish { .. } => "failed to resolve s3 publish environment names".to_owned(),
        }
    }
}

/// The environment variables that a build and its publication read: what the publication
/// reads is required.
pub open spec fn build_and_publish_names(
    contract: ReleaseContract,
    package: Seq<char>,
    system: PackageSystem,
    target: RequestedTargetView,
) -> Result<BuildEnvNamesView, BuildAndS3PublishEnvNamesErrorView> {
    match build_names(contract, package, system, target) {
        Err(source) => Err(BuildAndS3PublishEnvNamesErrorView::Build { source }),
        Ok(names) => match publish_env_names(contract, system) {
            Err(source) => Err(BuildAndS3PublishEnvNamesErrorView::Publish { source }),
            Ok(published) => Ok(
                BuildEnvNamesView {
                    required: names.required.union(published),
                    optional: names.optional.difference(published),
                },
            ),
        },
    }
}

/// The environment variables that a build and its publication read.
pub fn build_and_s3_publish_env_names(
    contract: &ReleaseContract,
    package: &str,
    system: PackageSystem,
    target: RequestedTarget,
) -> (result: Result<BuildEnvNames, BuildAndS3PublishEnvNamesError>)
    ensures
        outcome(result) == build_and_publish_names(
            *contract,
            package@,
            system,
            target.deep_view(),
        ),
{
    let mut names = match build_env_names(contract, package, system, target) {
        Ok(names) => names,
        Err(source) => {
            return Err(BuildAndS3PublishEnvNamesError::Build { source });
        },
    };
    let published = match s3_publish_env_names(contract, system) {
        Ok(published) => published,
        Err(source) => {
            return Err(BuildAndS3PublishEnvNamesError::Publish { source });
        },
    };
    let ghost start = names.deep_view();
    let ghost items = published.items();
    let count: usize = published.len();
    let mut i: usize = 0;
    proof {
        let none = Set::new(|name: Seq<char>| items.take(0).contains(name));
        assert(start.required.union(none) =~= start.required);
        assert(start.optional.difference(none) =~= start.optional);
    }
    while i < count
        invariant
            i <= count == items.len(),
            items == published.items(),
            names.required.deep_view() == start.required.union(
                Set::new(|name: Seq<char>| items.take(i as int).contains(name)),
            ),
            names.optional.deep_view() == start.optional.difference(
                Set::new(|name: Seq<char>| items.take(i as int).contains(name)),
            ),
        decreases count - i,
    {
        let ghost required = names.required.deep_view();
        let ghost optional = names.optional.deep_view();
        let name = published.at(i);
        names.optional.remove(name.as_str());
        names.required.insert(name.clone());
        proof {
            assert forall|text: Seq<char>| #[trigger]
                items.take(i + 1).contains(text) == (items.take(i as int).contains(text) || text
                    == name@) by {
                if items.take(i as int).contains(text) {
                    let k = items.take(i as int).index_of(text);
                    assert(items.take(i + 1)[k] == text);
                }
                if text == name@ {
                    assert(items.take(i + 1)[i as int] == text);
                }
                if items.take(i + 1).contains(text) {
                    let k = items.take(i + 1).index_of(text);
                    if k < i {
                        assert(items.take(i as int)[k] == text);
                    }
                }
            }
            assert(required.insert(name@) =~= start.required.union(
                Set::new(|name: Seq<char>| items.take(i + 1).contains(name)),
            ));
            assert(optional.remove(name@) =~= start.optional.difference(
                Set::new(|name: Seq<char>| items.take(i + 1).contains(name)),
            ));
        }
        i = i + 1;
    }
    proof {
        assert(items.take(i as int) =~= items);
        assert(Set::new(|name: Seq<char>| items.contains(name)) =~= published.deep_view());
    }
    Ok(names)
}

// ---------------------------------------------------------------------------
// Package commands
// ---------------------------------------------------------------------------
/// A build that a package command runs.
#[derive(Debug, PartialEq, Eq)]
pub struct PlannedPackageBuild {
    pub package_id: PackageId,
    pub system: PackageSystem,
    pub target: RequestedTarget,
    pub invocation: PlannedInvocation,
    pub source_overlay: Option<ContainerOverlayPlan>,
}

/// What a [`PlannedPackageBuild`] holds.
pub struct PlannedPackageBuildView {
    pub package_id: Seq<char>,
    pub system: PackageSystem,
    pub target: RequestedTargetView,
    pub invocation: PlannedInvocationView,
    pub source_overlay: Option<ContainerOverlayPlanView>,
}

impl DeepView for PlannedPackageBuild {
    type V = PlannedPackageBuildView;

    open spec fn deep_view(&self) -> PlannedPackageBuildView {
        PlannedPackageBuildView {
            package_id: self.package_id.deep_view(),
            system: self.system,
            target: self.target.deep_view(),
            invocation: self.invocation.deep_view(),
            source_overlay: self.source_overlay.deep_view(),
        }
    }
}

/// Why a package command cannot be planned.
#[allow(inconsistent_fields)]
#[derive(Debug, PartialEq, Eq)]
pub enum PackageCommandInvocationsError {
    /// Reported as `failed to select package builds for {system}`.
    Select { source: SelectBuildError, system: PackageSystem },
    /// Reported as `failed to plan {system} build for package {package}`.
    Invocation { source: PlanInvocationError, package: PackageId, system: PackageSystem },
    /// Reported as `failed to plan source overlay for {system} build`.
    Overlay { source: PackageSectionOverlayError, system: PackageSystem },
}

/// What a [`PackageCommandInvocationsError`] holds.
#[allow(inconsistent_fields)]
pub enum PackageCommandInvocationsErrorView {
    Select { source: SelectBuildErrorView, system: PackageSystem },
    Invocation { source: PlanInvocationErrorView, package: Seq<char>, system: PackageSystem },
    Overlay { source: PackageSectionOverlayErrorView, system: PackageSystem },
}

impl DeepView for PackageCommandInvocationsError {
    type V = PackageCommandInvocationsErrorView;

    open spec fn deep_view(&self) -> PackageCommandInvocationsErrorView {
        match self {
            PackageCommandInvocationsError::Select { source, system } => PackageCommandInvocationsErrorView::Select {
                source: source.deep_view(),
                system: *system,
            },
            PackageCommandInvocationsError::Invocation { source, package, system } => PackageCommandInvocationsErrorView::Invocation {
                source: source.deep_view(),
                package: package.deep_view(),
                system: *system,
            },
            PackageCommandInvocationsError::Overlay { source, system } => PackageCommandInvocationsErrorView::Overlay {
                source: source.deep_view(),
                system: *system,
            },
        }
    }
}

impl PackageCommandInvocationsErrorView {
    /// The message of the error.
    pub open spec fn message(self) -> Seq<char> {
        match self {
            PackageCommandInvocationsErrorView::Select { system, .. } => "failed to select package builds for "@ + system_name(system),
            PackageCommandInvocationsErrorView::Invocation { package, system, .. } => "failed to plan "@ + system_name(system) + " build for package "@ + package,
            PackageCommandInvocationsErrorView::Overlay { system, .. } => "failed to plan source overlay for "@ + system_name(system) + " build"@,
        }
    }
}

impl PackageCommandInvocationsError {
    /// The message of the error.
    pub fn to_string(&self) -> (text: String)
        ensures
            text@ == self.deep_view().message(),
    {
        match self {
            PackageCommandInvocationsError::Select { system, .. } => {
                let mut text = "failed to select package builds for ".to_owned();
                text.append(system.as_str());
                text
            },
            PackageCommandInvocationsError::Invocation { package, system, .. } => {
                let mut text = "failed to plan ".to_owned();
                text.append(system.as_str());
                text.append(" build for package ");
                text.append(package.as_str());
                text
            },
            PackageCommandInvocationsError::Overlay { system, .. } => {
                let mut text = "failed to plan source overlay for ".to_owned();
                text.append(system.as_str());
                text.append(" build");
                text
            },
        }
    }
}

/// The profile of a request.
pub open spec fn requested_profile(debug: bool) -> BuildProfile {
    if debug {
        BuildProfile::Debug
    } else {
        BuildProfile::Release
    }
}

/// The overlay of a request.
pub open spec fn request_overlay(
    build: PackageBuildRequestView,
    primary: Option<SiblingSourceView>,
) -> Result<Option<ContainerOverlayPlanView>, PackageSectionOverlayErrorView> {
    match primary {
        Some(primary) => primary_overlay(build.args, primary),
        None => own_overlay(build.args),
    }
}

/// The builds of the selected branches from `from` on, after those already `found`. With a
/// primary source, only builds in a container have an overlay.
pub open spec fn planned_units(
    contract: ReleaseContract,
    selected: Seq<SelectedBuildBranchView<'_>>,
    build: PackageBuildRequestView,
    overlay: Option<ContainerOverlayPlanView>,
    with_primary: bool,
    values: Map<Seq<char>, Seq<char>>,
    from: int,
    found: Seq<PlannedPackageBuildView>,
) -> Result<Seq<PlannedPackageBuildView>, PackageCommandInvocationsErrorView>
    decreases selected.len() - from,
{
    if from < 0 || from >= selected.len() {
        Ok(found)
    } else {
        let unit = selected[from];
        match bound_build(
            contract,
            unit.package_id,
            unit.system,
            unit.target,
            requested_profile(build.args.debug),
            build.args.features,
            values,
        ) {
            Err(source) => Err(
                PackageCommandInvocationsErrorView::Invocation {
                    source,
                    package: unit.package_id,
                    system: unit.system,
                },
            ),
            Ok(invocation) => planned_units(
                contract,
                selected,
                build,
                overlay,
                with_primary,
                values,
                from + 1,
                found.push(
                    PlannedPackageBuildView {
                        package_id: unit.package_id,
                        system: unit.system,
                        target: unit.target,
                        invocation,
                        source_overlay: if with_primary && invocation.container is None {
                            None
                        } else {
                            overlay
                        },
                    },
                ),
            ),
        }
    }
}

/// The builds of one request, after those already `found`.
pub open spec fn request_units(
    contract: ReleaseContract,
    build: PackageBuildRequestView,
    primary: Option<SiblingSourceView>,
    values: Map<Seq<char>, Seq<char>>,
    found: Seq<PlannedPackageBuildView>,
) -> Result<Seq<PlannedPackageBuildView>, PackageCommandInvocationsErrorView> {
    match selected_branches(contract, build.system, build.args.targets) {
        Err(source) => Err(
            PackageCommandInvocationsErrorView::Select { source, system: build.system },
        ),
        Ok(selected) => match request_overlay(build, primary) {
            Err(source) => Err(
                PackageCommandInvocationsErrorView::Overlay { source, system: build.system },
            ),
            Ok(overlay) => planned_units(
                contract,
                selected,
                build,
                overlay,
                primary is Some,
                values,
                0,
                found,
            ),
        },
    }
}

/// The builds of the requests from `from` on, after those already `found`.
pub open spec fn command_units(
    contract: ReleaseContract,
    builds: Seq<PackageBuildRequestView>,
    primary: Option<SiblingSourceView>,
    values: Map<Seq<char>, Seq<char>>,
    from: int,
    found: Seq<PlannedPackageBuildView>,
) -> Result<Seq<PlannedPackageBuildView>, PackageCommandInvocationsErrorView>
    decreases builds.len() - from,
{
    if from < 0 || from >= builds.len() {
        Ok(found)
    } else {
        match request_units(contract, builds[from], primary, values, found) {
            Err(error) => Err(error),
            Ok(next) => command_units(contract, builds, primary, values, from + 1, next),
        }
    }
}

fn plan_request(
    contract: &ReleaseContract,
    build: &PackageBuildRequest,
    values: &TextMap<String, String>,
    primary: &Option<SiblingSource>,
    planned: &mut Vec<PlannedPackageBuild>,
) -> (result: Result<(), PackageCommandInvocationsError>)
    ensures
        match result {
            Ok(_) => request_units(
                *contract,
                build.deep_view(),
                primary.deep_view(),
                values.deep_view(),
                deep(old(planned)@),
            ) == Ok::<Seq<PlannedPackageBuildView>, PackageCommandInvocationsErrorView>(
                deep(final(planned)@),
            ),
            Err(error) => request_units(
                *contract,
                build.deep_view(),
                primary.deep_view(),
                values.deep_view(),
                deep(old(planned)@),
            ) == Err::<Seq<PlannedPackageBuildView>, PackageCommandInvocationsErrorView>(
                error.deep_view(),
            ),
        },
{
    let ghost start = deep(planned@);
    let targets = build.args.targets.clone();
    let features = build.args.features.clone();
    assert(deep(targets@) =~= deep(build.args.targets@));
    let request = BuildSelectionRequest { system: build.system, targets, features };
    let selected = match select_build_branches(contract, request) {
        Ok(selected) => selected,
        Err(source) => {
            return Err(
                PackageCommandInvocationsError::Select { source, system: build.system },
            );
        },
    };
    let profile = if build.args.debug {
        BuildProfile::Debug
    } else {
        BuildProfile::Release
    };
    let overlay = match primary {
        Some(primary) => build.args.container_overlay_plan_with_primary(primary.clone()),
        None => build.args.container_overlay_plan(),
    };
    let overlay = match overlay {
        Ok(overlay) => overlay,
        Err(source) => {
            return Err(
                PackageCommandInvocationsError::Overlay { source, system: build.system },
            );
        },
    };
    let mut i: usize = 0;
    while i < selected.len()
        invariant
            i <= selected@.len(),
            start == deep(old(planned)@),
            profile == requested_profile(build.args.debug),
            request_units(
                *contract,
                build.deep_view(),
                primary.deep_view(),
                values.deep_view(),
                start,
            ) == planned_units(
                *contract,
                deep(selected@),
                build.deep_view(),
                overlay.deep_view(),
                primary is Some,
                values.deep_view(),
                i as int,
                deep(planned@),
            ),
        decreases selected@.len() - i,
    {
        let unit = &selected[i];
        assert(deep(selected@)[i as int] == unit.deep_view());
        let invocation = match build_invocation_for_profile_with_env_values(
            contract,
            unit.package_id.as_str(),
            unit.system,
            unit.target.clone(),
            profile,
            &build.args.features,
            values,
        ) {
            Ok(invocation) => invocation,
            Err(source) => {
                return Err(
                    PackageCommandInvocationsError::Invocation {
                        source,
                        package: unit.package_id.clone(),
                        system: unit.system,
                    },
                );
            },
        };
        let source_overlay = if primary.is_some() && invocation.container.is_none() {
            None
        } else {
            overlay.clone()
        };
        planned.push(
            PlannedPackageBuild {
                package_id: unit.package_id.clone(),
                system: unit.system,
                target: unit.target.clone(),
                invocation,
                source_overlay,
            },
        );
        i = i + 1;
    }
    Ok(())
}

fn package_command_invocations_inner(
    contract: &ReleaseContract,
    command: &PackageCommandRequest,
    values: &TextMap<String, String>,
    primary: Option<SiblingSource>,
) -> (result: Result<Vec<PlannedPackageBuild>, PackageCommandInvocationsError>)
    ensures
        outcomes(result) == command_units(
            *contract,
            deep(command.builds@),
            primary.deep_view(),
            values.deep_view(),
            0,
            Seq::empty(),
        ),
{
    let mut planned: Vec<PlannedPackageBuild> = Vec::new();
    let mut i: usize = 0;
    while i < command.builds.len()
        invariant
            i <= command.builds@.len(),
            command_units(
                *contract,
                deep(command.builds@),
                primary.deep_view(),
                values.deep_view(),
                0,
                Seq::empty(),
            ) == command_units(
                *contract,
                deep(command.builds@),
                primary.deep_view(),
                values.deep_view(),
                i as int,
                deep(planned@),
            ),
        decreases command.builds@.len() - i,
    {
        assert(deep(command.builds@)[i as int] == command.builds@[i as int].deep_view());
        if let Err(error) = plan_request(
            contract,
            &command.builds[i],
            values,
            &primary,
            &mut planned,
        ) {
            return Err(error);
        }
        i = i + 1;
    }
    Ok(planned)
}

/// The builds that a package command runs.
pub fn package_command_invocations(
    contract: &ReleaseContract,
    command: &PackageCommandRequest,
    values: &TextMap<String, String>,
) -> (result: Result<Vec<PlannedPackageBuild>, PackageCommandInvocationsError>)
    ensures
        outcomes(result) == command_units(
            *contract,
            deep(command.builds@),
            None,
            values.deep_view(),
            0,
            Seq::empty(),
        ),
{
    package_command_invocations_inner(contract, command, values, None)
}

/// The builds that a package command runs, each container with the primary source.
pub fn package_command_invocations_with_primary_source(
    contract: &ReleaseContract,
    command: &PackageCommandRequest,
    primary: SiblingSource,
    values: &TextMap<String, String>,
) -> (result: Result<Vec<PlannedPackageBuild>, PackageCommandInvocationsError>)
    ensures
        outcomes(result) == command_units(
            *contract,
            deep(command.builds@),
            Some(primary.deep_view()),
            values.deep_view(),
            0,
            Seq::empty(),
        ),
{
    package_command_invocations_inner(contract, command, values, Some(primary))
}

// ---------------------------------------------------------------------------
// Publish commands
// ---------------------------------------------------------------------------
/// A publication that a publish command runs.
#[derive(Debug, PartialEq, Eq)]
pub struct PlannedS3Publish {
    pub system: PackageSystem,
    pub dry_run: bool,
    pub target: S3PublishTarget,
    pub invocation: Option<PlannedInvocation>,
}

/// What a [`PlannedS3Publish`] holds.
pub struct PlannedS3PublishView {
    pub system: PackageSystem,
    pub dry_run: bool,
    pub target: S3PublishTargetView,
    pub invocation: Option<PlannedInvocationView>,
}

impl DeepView for PlannedS3Publish {
    type V = PlannedS3PublishView;

    open spec fn deep_view(&self) -> PlannedS3PublishView {
        PlannedS3PublishView {
            system: self.system,
            dry_run: self.dry_run,
            target: self.target.deep_view(),
            invocation: self.invocation.deep_view(),
        }
    }
}

/// Why a publish command cannot be planned.
#[allow(inconsistent_fields)]
#[derive(Debug, PartialEq, Eq)]
pub enum S3PublishCommandPlanError {
    /// Reported as `failed to resolve s3 {system} publish target`.
    Target { source: ResolveS3PublishTargetError, system: PackageSystem },
    /// Reported as `failed to plan s3 {system} publish invocation`.
    Invocation { source: PlanInvocationError, system: PackageSystem },
}

/// What a [`S3PublishCommandPlanError`] holds.
#[allow(inconsistent_fields)]
pub enum S3PublishCommandPlanErrorView {
    Target { source: ResolveS3PublishTargetErrorView, system: PackageSystem },
    Invocation { source: PlanInvocationErrorView, system: PackageSystem },
}

impl DeepView for S3PublishCommandPlanError {
    type V = S3PublishCommandPlanErrorView;

    open spec fn deep_view(&self) -> S3PublishCommandPlanErrorView {
        match self {
            S3PublishCommandPlanError::Target { source, system } => S3PublishCommandPlanErrorView::Target {
                source: source.deep_view(),
                system: *system,
            },
            S3PublishCommandPlanError::Invocation { source, system } => S3PublishCommandPlanErrorView::Invocation {
                source: source.deep_view(),
                system: *system,
            },
        }
    }
}

impl S3PublishCommandPlanErrorView {
    /// The message of the error.
    pub open spec fn message(self) -> Seq<char> {
        match self {
            S3PublishCommandPlanErrorView::Target { system, .. } => "failed to resolve s3 "@ + system_name(system) + " publish target"@,
            S3PublishCommandPlanErrorView::Invocation { system, .. } => "failed to plan s3 "@ + system_name(system) + " publish invocation"@,
        }
    }
}

impl S3PublishCommandPlanError {
    /// The message of the error.
    pub fn to_string(&self) -> (text: String)
        ensures
            text@ == self.deep_view().message(),
    {
        match self {
            S3PublishCommandPlanError::Target { system, .. } => {
                let mut text = "failed to resolve s3 ".to_owned();
                text.append(system.as_str());
                text.append(" publish target");
                text
            },
            S3PublishCommandPlanError::Invocation { system, .. } => {
                let mut text = "failed to plan s3 ".to_owned();
                text.append(system.as_str());
                text.append(" publish invocation");
                text
            },
        }
    }
}

/// The publication of one package system. Linux repositories are published by a script.
pub open spec fn planned_publication(
    contract: ReleaseContract,
    system: PackageSystem,
    channel: ReleaseChannel,
    dry_run: bool,
    values: Map<Seq<char>, Seq<char>>,
) -> Result<PlannedS3PublishView, S3PublishCommandPlanErrorView> {
    match publish_target(contract, system, channel, values) {
        Err(source) => Err(S3PublishCommandPlanErrorView::Target { source, system }),
        Ok(target) => if system is Deb || system is Rpm {
            match planned_publish(contract, system) {
                Err(source) => Err(S3PublishCommandPlanErrorView::Invocation { source, system }),
                Ok(invocation) => Ok(
                    PlannedS3PublishView { system, dry_run, target, invocation: Some(invocation) },
                ),
            }
        } else {
            Ok(PlannedS3PublishView { system, dry_run, target, invocation: None })
        },
    }
}

/// The publications of the package systems from `from` on, after those already `found`.
pub open spec fn planned_publications(
    contract: ReleaseContract,
    systems: Seq<PackageSystem>,
    channel: ReleaseChannel,
    dry_run: bool,
    values: Map<Seq<char>, Seq<char>>,
    from: int,
    found: Seq<PlannedS3PublishView>,
) -> Result<Seq<PlannedS3PublishView>, S3PublishCommandPlanErrorView>
    decreases systems.len() - from,
{
    if from < 0 || from >= systems.len() {
        Ok(found)
    } else {
        match planned_publication(contract, systems[from], channel, dry_run, values) {
            Err(error) => Err(error),
            Ok(publication) => planned_publications(
                contract,
                systems,
                channel,
                dry_run,
                values,
                from + 1,
                found.push(publication),
            ),
        }
    }
}

fn plan_publication(
    contract: &ReleaseContract,
    system: PackageSystem,
    channel: ReleaseChannel,
    dry_run: bool,
    values: &TextMap<String, String>,
) -> (plan: Result<PlannedS3Publish, S3PublishCommandPlanError>)
    ensures
        outcome(plan) == planned_publication(
            *contract,
            system,
            channel,
            dry_run,
            values.deep_view(),
        ),
{
    let target = match resolve_s3_publish_target(contract, system, channel, values) {
        Ok(target) => target,
        Err(source) => {
            return Err(S3PublishCommandPlanError::Target { source, system });
        },
    };
    let invocation = match system {
        PackageSystem::Deb | PackageSystem::Rpm => match publish_invocation_for(contract, system) {
            Ok(invocation) => Some(invocation),
            Err(source) => {
                return Err(S3PublishCommandPlanError::Invocation { source, system });
            },
        },
        PackageSystem::Brew | PackageSystem::Scoop => None,
    };
    Ok(PlannedS3Publish { system, dry_run, target, invocation })
}

/// The publications that a publish command runs for versions of a channel.
pub fn s3_publish_command_plan(
    contract: &ReleaseContract,
    command: &S3PublishCommandRequest,
    channel: ReleaseChannel,
    values: &TextMap<String, String>,
) -> (result: Result<Vec<PlannedS3Publish>, S3PublishCommandPlanError>)
    ensures
        outcomes(result) == planned_publications(
            *contract,
            command.systems@,
            channel,
            command.dry_run,
            values.deep_view(),
            0,
            Seq::empty(),
        ),
{
    let mut plans: Vec<PlannedS3Publish> = Vec::new();
    let mut i: usize = 0;
    while i < command.systems.len()
        invariant
            i <= command.systems@.len(),
            planned_publications(
                *contract,
                command.systems@,
                channel,
                command.dry_run,
                values.deep_view(),
                0,
                Seq::empty(),
            ) == planned_publications(
                *contract,
                command.systems@,
                channel,
                command.dry_run,
                values.deep_view(),
                i as int,
                deep(plans@),
            ),
        decreases command.systems@.len() - i,
    {
        match plan_publication(
            contract,
            command.systems[i],
            channel,
            command.dry_run,
            values,
        ) {
            Ok(plan) => {
                plans.push(plan);
            },
            Err(error) => {
                return Err(error);
            },
        }
        i = i + 1;
    }
    Ok(plans)
}

} // verus!
