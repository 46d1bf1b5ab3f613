//! The build of one package unit, step by step: what is asked of the host, and what is done
//! with the answers.

use vstd::prelude::*;

use crate::contract::ReleaseContract;
use crate::manifest::{PackageArtifact, PackageArtifactView};
use crate::model::{deep, outcome};
use crate::package::{CargoMetadata, CargoMetadataView};
use crate::path::{join_path, path_join};
use crate::plan::{PlannedPackageBuild, PlannedPackageBuildView};
use crate::publish::field_value;
use crate::runner::{
    artifact_from_path, artifact_paths, cargo_cache_directories, cargo_config_file, config_file,
    container_cargo_home, container_cargo_home_command, deb_metadata, docker_build_command,
    docker_build_words, docker_image, docker_run_command, docker_run_words, hashed_image,
    host_cargo_home, host_home, image_key, is_artifact, line_at, output_directory,
    package_output_dir, package_unit_env, package_unit_mounts, rpm_metadata,
    rpm_metadata_command, rpm_query, single_artifact, unit_artifact, unit_env, unit_mounts,
    PackageFileMetadata, PackageFileMetadataView, RpmMetadataCommand, RpmMetadataCommandView,
    RunCurrentDirError, RunCurrentDirErrorView,
};
use crate::system::PackageSystem;
use crate::text::trimmed_space;
use crate::textmap::{listing, TextMap};

verus! {

broadcast use crate::model::group_deep;

// ---------------------------------------------------------------------------
// Stages, actions and events
// ---------------------------------------------------------------------------
/// The host of a build.
#[derive(Debug, PartialEq, Eq)]
pub struct BuildHost {
    /// The directory of the contract.
    pub root: String,
    pub target_dir: String,
    /// The variable `CARGO_HOME`.
    pub cargo_home: Option<String>,
    /// The variable `HOME`.
    pub home: Option<String>,
}

/// What a [`BuildHost`] holds.
pub struct BuildHostView {
    pub root: Seq<char>,
    pub target_dir: Seq<char>,
    pub cargo_home: Option<Seq<char>>,
    pub home: Option<Seq<char>>,
}

impl DeepView for BuildHost {
    type V = BuildHostView;

    open spec fn deep_view(&self) -> BuildHostView {
        BuildHostView {
            root: self.root@,
            target_dir: self.target_dir@,
            cargo_home: self.cargo_home.deep_view(),
            home: self.home.deep_view(),
        }
    }
}

/// A file and its text.
#[derive(Debug, PartialEq, Eq)]
pub struct HostFile {
    pub path: String,
    pub text: String,
}

/// What a [`HostFile`] holds.
pub struct HostFileView {
    pub path: Seq<char>,
    pub text: Seq<char>,
}

impl DeepView for HostFile {
    type V = HostFileView;

    open spec fn deep_view(&self) -> HostFileView {
        HostFileView {
            path: self.path@,
            text: self.text@,
        }
    }
}

/// How far a build has come: what it waits for, and what it has gathered.
#[derive(Debug, PartialEq, Eq)]
pub enum BuildStage {
    /// Waits for what the output directory holds.
    Clearing,
    /// Waits until the output directory holds no artifact.
    Preparing,
    /// Waits until the image is built.
    Imaging { image: String, env: TextMap<String, String> },
    /// Waits for the Cargo directory of the image.
    Asking { image: String, env: TextMap<String, String> },
    /// Waits until the host has what the container is shown.
    Arranging { image: String, env: TextMap<String, String>, host_home: String, container_home: String },
    /// Waits until the package is built.
    Running,
    /// Waits for what the output directory holds.
    Collecting,
    /// Waits for what the artifact tells about itself.
    Reading { path: String },
    /// Waits for the size and the hash of the artifact.
    Measuring { path: String, metadata: PackageFileMetadata },
    /// Waits for nothing.
    Finished,
}

/// What a [`BuildStage`] holds.
pub enum BuildStageView {
    Clearing,
    Preparing,
    Imaging { image: Seq<char>, env: Map<Seq<char>, Seq<char>> },
    Asking { image: Seq<char>, env: Map<Seq<char>, Seq<char>> },
    Arranging { image: Seq<char>, env: Map<Seq<char>, Seq<char>>, host_home: Seq<char>, container_home: Seq<char> },
    Running,
    Collecting,
    Reading { path: Seq<char> },
    Measuring { path: Seq<char>, metadata: PackageFileMetadataView },
    Finished,
}

impl DeepView for BuildStage {
    type V = BuildStageView;

    open spec fn deep_view(&self) -> BuildStageView {
        match self {
            BuildStage::Clearing => BuildStageView::Clearing,
            BuildStage::Preparing => BuildStageView::Preparing,
            BuildStage::Imaging { image, env } => BuildStageView::Imaging {
                image: image@,
                env: env.deep_view(),
            },
            BuildStage::Asking { image, env } => BuildStageView::Asking {
                image: image@,
                env: env.deep_view(),
            },
            BuildStage::Arranging { image, env, host_home, container_home } => BuildStageView::Arranging {
                image: image@,
                env: env.deep_view(),
                host_home: host_home@,
                container_home: container_home@,
            },
            BuildStage::Running => BuildStageView::Running,
            BuildStage::Collecting => BuildStageView::Collecting,
            BuildStage::Reading { path } => BuildStageView::Reading { path: path@ },
            BuildStage::Measuring { path, metadata } => BuildStageView::Measuring {
                path: path@,
                metadata: metadata.deep_view(),
            },
            BuildStage::Finished => BuildStageView::Finished,
        }
    }
}

/// What a build asks for.
#[derive(Debug, PartialEq, Eq)]
pub enum BuildAction {
    /// The paths in a directory, none where there is no such directory.
    ListOutput { directory: String },
    /// That files are gone, and that a directory exists.
    PrepareOutput { stale: Vec<String>, directory: String },
    /// That Docker builds an image, in a directory.
    BuildImage { directory: String, words: Vec<String> },
    /// What Docker prints.
    AskImage { words: Vec<String> },
    /// That directories exist, and that a file holds a text.
    ArrangeHost { directories: Vec<String>, config: Option<HostFile> },
    /// That a script runs in a directory.
    RunScript { script: String, directory: String, env: TextMap<String, String> },
    /// That Docker runs a container.
    RunContainer { words: Vec<String> },
    /// The fields of a Debian package.
    ReadDebFields { path: String },
    /// What a query of an RPM package prints.
    QueryRpm { command: RpmMetadataCommand },
    /// The size and the hash of a file.
    Measure { path: String },
    /// Nothing more: the build has left this artifact.
    Finish { artifact: PackageArtifact },
}

/// What a [`BuildAction`] holds.
pub enum BuildActionView {
    ListOutput { directory: Seq<char> },
    PrepareOutput { stale: Seq<Seq<char>>, directory: Seq<char> },
    BuildImage { directory: Seq<char>, words: Seq<Seq<char>> },
    AskImage { words: Seq<Seq<char>> },
    ArrangeHost { directories: Seq<Seq<char>>, config: Option<HostFileView> },
    RunScript { script: Seq<char>, directory: Seq<char>, env: Map<Seq<char>, Seq<char>> },
    RunContainer { words: Seq<Seq<char>> },
    ReadDebFields { path: Seq<char> },
    QueryRpm { command: RpmMetadataCommandView },
    Measure { path: Seq<char> },
    Finish { artifact: PackageArtifactView },
}

impl DeepView for BuildAction {
    type V = BuildActionView;

    open spec fn deep_view(&self) -> BuildActionView {
        match self {
            BuildAction::ListOutput { directory } => BuildActionView::ListOutput {
                directory: directory@,
            },
            BuildAction::PrepareOutput { stale, directory } => BuildActionView::PrepareOutput {
                stale: deep(stale@),
                directory: directory@,
            },
            BuildAction::BuildImage { directory, words } => BuildActionView::BuildImage {
                directory: directory@,
                words: deep(words@),
            },
            BuildAction::AskImage { words } => BuildActionView::AskImage { words: deep(words@) },
            BuildAction::ArrangeHost { directories, config } => BuildActionView::ArrangeHost {
                directories: deep(directories@),
                config: config.deep_view(),
            },
            BuildAction::RunScript { script, directory, env } => BuildActionView::RunScript {
                script: script@,
                directory: directory@,
                env: env.deep_view(),
            },
            BuildAction::RunContainer { words } => BuildActionView::RunContainer {
                words: deep(words@),
            },
            BuildAction::ReadDebFields { path } => BuildActionView::ReadDebFields { path: path@ },
            BuildAction::QueryRpm { command } => BuildActionView::QueryRpm {
                command: command.deep_view(),
            },
            BuildAction::Measure { path } => BuildActionView::Measure { path: path@ },
            BuildAction::Finish { artifact } => BuildActionView::Finish {
                artifact: artifact.deep_view(),
            },
        }
    }
}

/// What comes back of an action.
#[derive(Debug, PartialEq, Eq)]
pub enum BuildEvent {
    Files { paths: Vec<String> },
    Done,
    Text { text: String },
    Measured { size: u64, sha256: String },
}

/// What a [`BuildEvent`] holds.
pub enum BuildEventView {
    Files { paths: Seq<Seq<char>> },
    Done,
    Text { text: Seq<char> },
    Measured { size: u64, sha256: Seq<char> },
}

impl DeepView for BuildEvent {
    type V = BuildEventView;

    open spec fn deep_view(&self) -> BuildEventView {
        match self {
            BuildEvent::Files { paths } => BuildEventView::Files { paths: deep(paths@) },
            BuildEvent::Done => BuildEventView::Done,
            BuildEvent::Text { text } => BuildEventView::Text { text: text@ },
            BuildEvent::Measured { size, sha256 } => BuildEventView::Measured {
                size: *size,
                sha256: sha256@,
            },
        }
    }
}

/// Where a build stands and what it asks for next.
#[derive(Debug, PartialEq, Eq)]
pub struct BuildStep {
    pub stage: BuildStage,
    pub action: BuildAction,
}

/// What a [`BuildStep`] holds.
pub struct BuildStepView {
    pub stage: BuildStageView,
    pub action: BuildActionView,
}

impl DeepView for BuildStep {
    type V = BuildStepView;

    open spec fn deep_view(&self) -> BuildStepView {
        BuildStepView {
            stage: self.stage.deep_view(),
            action: self.action.deep_view(),
        }
    }
}

/// Why a build does not go on.
#[derive(Debug, PartialEq, Eq)]
pub enum BuildError {
    /// Reported as `failed to build package`.
    Refused { source: RunCurrentDirError },
    /// Reported as `build does not wait for this event`.
    UnexpectedEvent,
}

/// What a [`BuildError`] holds.
pub enum BuildErrorView {
    Refused { source: RunCurrentDirErrorView },
    UnexpectedEvent,
}

impl DeepView for BuildError {
    type V = BuildErrorView;

    open spec fn deep_view(&self) -> BuildErrorView {
        match self {
            BuildError::Refused { source } => BuildErrorView::Refused {
                source: source.deep_view(),
            },
            BuildError::UnexpectedEvent => BuildErrorView::UnexpectedEvent,
        }
    }
}

impl BuildErrorView {
    /// The message of the error.
    pub open spec fn message(self) -> Seq<char> {
        match self {
            BuildErrorView::Refused { .. } => "failed to build package"@,
            BuildErrorView::UnexpectedEvent => "build does not wait for this event"@,
        }
    }
}

impl BuildError {
    /// The message of the error.
    pub fn to_string(&self) -> (text: String)
        ensures
            text@ == self.deep_view().message(),
    {
        match self {
            BuildError::Refused { .. } => "failed to build package".to_owned(),
            BuildError::UnexpectedEvent => "build does not wait for this event".to_owned(),
        }
    }
}

/// The step to a stage with an action.
pub open spec fn build_taken(stage: BuildStageView, action: BuildActionView) -> Result<
    BuildStepView,
    BuildErrorView,
> {
    Ok(BuildStepView { stage, action })
}

fn step(stage: BuildStage, action: BuildAction) -> (step: Result<BuildStep, BuildError>)
    ensures
        outcome(step) == build_taken(stage.deep_view(), action.deep_view()),
{
    Ok(BuildStep { stage, action })
}

/// A refusal.
pub open spec fn build_declined(source: RunCurrentDirErrorView) -> Result<
    BuildStepView,
    BuildErrorView,
> {
    Err(BuildErrorView::Refused { source })
}

fn refused(source: RunCurrentDirError) -> (step: Result<BuildStep, BuildError>)
    ensures
        outcome(step) == build_declined(source.deep_view()),
{
    Err(BuildError::Refused { source })
}

// ---------------------------------------------------------------------------
// Before the build
// ---------------------------------------------------------------------------
fn artifacts_among(paths: &Vec<String>, system: PackageSystem) -> (found: Vec<String>)
    ensures
        deep(found@) == artifact_paths(deep(paths@), system),
{
    let ghost all = deep(paths@);
    let mut found: Vec<String> = Vec::new();
    let mut i: usize = 0;
    assert(all.take(0) =~= Seq::empty());
    while i < paths.len()
        invariant
            i <= paths@.len(),
            all == deep(paths@),
            deep(found@) == artifact_paths(all.take(i as int), system),
        decreases paths@.len() - i,
    {
        proof {
            assert(all.take(i + 1).drop_last() =~= all.take(i as int));
            assert(all.take(i + 1).last() == paths@[i as int]@);
        }
        if is_artifact(paths[i].as_str(), system) {
            found.push(paths[i].clone());
        }
        i = i + 1;
    }
    assert(all.take(i as int) =~= all);
    found
}

/// What follows once it is known what the output directory holds: artifacts of an earlier
/// build go.
pub open spec fn output_listed(
    host: BuildHostView,
    unit: PlannedPackageBuildView,
    paths: Seq<Seq<char>>,
) -> Result<BuildStepView, BuildErrorView> {
    build_taken(
        BuildStageView::Preparing,
        BuildActionView::PrepareOutput {
            stale: artifact_paths(paths, unit.system),
            directory: output_directory(host.target_dir, unit),
        },
    )
}

/// An image is asked for its Cargo directory.
pub open spec fn image_asked(image: Seq<char>, env: Map<Seq<char>, Seq<char>>) -> Result<
    BuildStepView,
    BuildErrorView,
> {
    build_taken(
        BuildStageView::Asking { image, env },
        BuildActionView::AskImage {
            words: seq![
                "run"@,
                "--rm"@,
                "--entrypoint"@,
                "/bin/sh"@,
                image,
                "-lc"@,
                "printf %s \"${CARGO_HOME:-}\""@,
            ],
        },
    )
}

fn ask_image(image: String, env: TextMap<String, String>) -> (next: Result<BuildStep, BuildError>)
    ensures
        outcome(next) == image_asked(image@, env.deep_view()),
{
    let words = container_cargo_home_command(image.as_str());
    step(BuildStage::Asking { image, env }, BuildAction::AskImage { words })
}

/// What follows once the output directory is prepared: a script runs on the host, or an
/// image is built where the build states how, or the stated image is asked for its Cargo
/// directory.
pub open spec fn output_prepared(
    host: BuildHostView,
    contract: ReleaseContract,
    cargo: Map<Seq<char>, CargoMetadataView>,
    unit: PlannedPackageBuildView,
) -> Result<BuildStepView, BuildErrorView> {
    match unit_env(contract, host.root, host.target_dir, cargo, unit) {
        Err(source) => build_declined(source),
        Ok(env) => match unit.invocation.container {
            None => build_taken(
                BuildStageView::Running,
                BuildActionView::RunScript {
                    script: path_join(host.root, unit.invocation.script),
                    directory: host.root,
                    env,
                },
            ),
            Some(container) => match container.build {
                None => image_asked(container.image, env),
                Some(build) => {
                    let dockerfile = path_join(host.root, build.dockerfile);
                    let image = hashed_image(
                        container.image,
                        image_key(dockerfile, listing(env)),
                    );
                    build_taken(
                        BuildStageView::Imaging { image, env },
                        BuildActionView::BuildImage {
                            directory: host.root,
                            words: docker_build_words(dockerfile, image, listing(env)),
                        },
                    )
                },
            },
        },
    }
}

fn start_build(
    host: &BuildHost,
    contract: &ReleaseContract,
    cargo: &TextMap<String, CargoMetadata>,
    unit: &PlannedPackageBuild,
) -> (next: Result<BuildStep, BuildError>)
    ensures
        outcome(next) == output_prepared(
            host.deep_view(),
            *contract,
            cargo.deep_view(),
            unit.deep_view(),
        ),
{
    let env = match package_unit_env(
        contract,
        host.root.as_str(),
        host.target_dir.as_str(),
        cargo,
        unit,
    ) {
        Err(source) => {
            return refused(source);
        },
        Ok(env) => env,
    };
    match &unit.invocation.container {
        None => step(
            BuildStage::Running,
            BuildAction::RunScript {
                script: join_path(host.root.as_str(), unit.invocation.script.as_str()),
                directory: host.root.clone(),
                env,
            },
        ),
        Some(container) => match &container.build {
            None => ask_image(container.image.clone(), env),
            Some(build) => {
                let dockerfile = join_path(host.root.as_str(), build.dockerfile.as_str());
                let image = docker_image(container.image.as_str(), dockerfile.as_str(), &env);
                let words = docker_build_command(dockerfile.as_str(), image.as_str(), &env);
                step(
                    BuildStage::Imaging { image, env },
                    BuildAction::BuildImage { directory: host.root.clone(), words },
                )
            },
        },
    }
}

// ---------------------------------------------------------------------------
// The build
// ---------------------------------------------------------------------------
/// The file with the Cargo configuration that a container is shown, where the build has
/// siblings.
pub open spec fn config_of(host: BuildHostView, unit: PlannedPackageBuildView) -> Option<
    HostFileView,
> {
    match unit.source_overlay {
        None => None,
        Some(overlay) => Some(
            HostFileView { path: config_file(host.target_dir), text: overlay.cargo_config },
        ),
    }
}

/// What follows once an image has told its Cargo directory: the host gets what the
/// container is shown.
pub open spec fn image_answered(
    host: BuildHostView,
    unit: PlannedPackageBuildView,
    image: Seq<char>,
    env: Map<Seq<char>, Seq<char>>,
    answer: Seq<char>,
) -> Result<BuildStepView, BuildErrorView> {
    let container_home = trimmed_space(answer);
    if container_home.len() == 0 {
        build_declined(RunCurrentDirErrorView::MissingContainerCargoHome { image })
    } else {
        match host_home(host.cargo_home, host.home) {
            Err(source) => build_declined(source),
            Ok(host_home) => build_taken(
                BuildStageView::Arranging { image, env, host_home, container_home },
                BuildActionView::ArrangeHost {
                    directories: seq![
                        path_join(host_home, "git"@),
                        path_join(host_home, "registry"@),
                    ],
                    config: config_of(host, unit),
                },
            ),
        }
    }
}

fn optional_text(text: &Option<String>) -> (shown: Option<&str>)
    ensures
        shown.deep_view() == text.deep_view(),
{
    match text {
        Some(text) => Some(text.as_str()),
        None => None,
    }
}

fn arrange_host(
    host: &BuildHost,
    unit: &PlannedPackageBuild,
    image: String,
    env: TextMap<String, String>,
    answer: &str,
) -> (next: Result<BuildStep, BuildError>)
    ensures
        outcome(next) == image_answered(
            host.deep_view(),
            unit.deep_view(),
            image@,
            env.deep_view(),
            answer@,
        ),
{
    let container_home = match container_cargo_home(image.as_str(), answer) {
        Err(source) => {
            return refused(source);
        },
        Ok(home) => home,
    };
    let host_home = match host_cargo_home(
        optional_text(&host.cargo_home),
        optional_text(&host.home),
    ) {
        Err(source) => {
            return refused(source);
        },
        Ok(home) => home,
    };
    let directories = cargo_cache_directories(host_home.as_str());
    let config = match &unit.source_overlay {
        None => None,
        Some(overlay) => Some(
            HostFile {
                path: cargo_config_file(host.target_dir.as_str()),
                text: overlay.cargo_config.clone(),
            },
        ),
    };
    step(
        BuildStage::Arranging { image, env, host_home, container_home },
        BuildAction::ArrangeHost { directories, config },
    )
}

/// What follows once the host has what the container is shown: the container runs.
pub open spec fn host_arranged(
    host: BuildHostView,
    unit: PlannedPackageBuildView,
    image: Seq<char>,
    env: Map<Seq<char>, Seq<char>>,
    host_home: Seq<char>,
    container_home: Seq<char>,
) -> Result<BuildStepView, BuildErrorView> {
    build_taken(
        BuildStageView::Running,
        BuildActionView::RunContainer {
            words: docker_run_words(
                unit_mounts(
                    host.root,
                    host.target_dir,
                    host_home,
                    container_home,
                    unit.invocation.env_mounts,
                    unit.source_overlay,
                ),
                listing(env),
                image,
                unit.invocation.script,
            ),
        },
    )
}

fn run_container(
    host: &BuildHost,
    unit: &PlannedPackageBuild,
    image: &str,
    env: &TextMap<String, String>,
    host_home: &str,
    container_home: &str,
) -> (next: Result<BuildStep, BuildError>)
    ensures
        outcome(next) == host_arranged(
            host.deep_view(),
            unit.deep_view(),
            image@,
            env.deep_view(),
            host_home@,
            container_home@,
        ),
{
    let mounts = package_unit_mounts(
        host.root.as_str(),
        host.target_dir.as_str(),
        host_home,
        container_home,
        &unit.invocation.env_mounts,
        &unit.source_overlay,
    );
    let words = docker_run_command(&mounts, env, image, unit.invocation.script.as_str());
    step(BuildStage::Running, BuildAction::RunContainer { words })
}

// ---------------------------------------------------------------------------
// After the build
// ---------------------------------------------------------------------------
/// What follows once it is known what a build has left: its one artifact is read.
pub open spec fn output_collected(
    host: BuildHostView,
    unit: PlannedPackageBuildView,
    paths: Seq<Seq<char>>,
) -> Result<BuildStepView, BuildErrorView> {
    let found = artifact_paths(paths, unit.system);
    let directory = output_directory(host.target_dir, unit);
    if found.len() == 0 {
        build_declined(RunCurrentDirErrorView::MissingArtifact { path: directory })
    } else if found.len() > 1 {
        build_declined(RunCurrentDirErrorView::MultipleArtifacts { path: directory })
    } else {
        let path = found[0];
        match unit.system {
            PackageSystem::Deb => build_taken(
                BuildStageView::Reading { path },
                BuildActionView::ReadDebFields { path },
            ),
            PackageSystem::Rpm => match rpm_query(path) {
                Err(source) => build_declined(source),
                Ok(command) => build_taken(
                    BuildStageView::Reading { path },
                    BuildActionView::QueryRpm { command },
                ),
            },
            _ => build_taken(
                BuildStageView::Measuring {
                    path,
                    metadata: PackageFileMetadataView {
                        package_name: None,
                        package_version: None,
                        architecture: None,
                    },
                },
                BuildActionView::Measure { path },
            ),
        }
    }
}

fn read_output(host: &BuildHost, unit: &PlannedPackageBuild, paths: &Vec<String>) -> (next: Result<
    BuildStep,
    BuildError,
>)
    ensures
        outcome(next) == output_collected(host.deep_view(), unit.deep_view(), deep(paths@)),
{
    let directory = package_output_dir(host.target_dir.as_str(), unit);
    let path = match single_artifact(paths, unit.system, directory.as_str()) {
        Err(source) => {
            return refused(source);
        },
        Ok(path) => path,
    };
    let named = path.clone();
    match unit.system {
        PackageSystem::Deb => step(
            BuildStage::Reading { path },
            BuildAction::ReadDebFields { path: named },
        ),
        PackageSystem::Rpm => match rpm_metadata_command(path.as_str()) {
            Err(source) => refused(source),
            Ok(command) => step(BuildStage::Reading { path }, BuildAction::QueryRpm { command }),
        },
        _ => step(
            BuildStage::Measuring { path, metadata: PackageFileMetadata::default() },
            BuildAction::Measure { path: named },
        ),
    }
}

/// What an artifact tells about itself, from what was printed.
pub open spec fn printed_metadata(system: PackageSystem, text: Seq<char>) -> PackageFileMetadataView {
    match system {
        PackageSystem::Deb => PackageFileMetadataView {
            package_name: field_value(text, "Package"@),
            package_version: field_value(text, "Version"@),
            architecture: field_value(text, "Architecture"@),
        },
        _ => PackageFileMetadataView {
            package_name: line_at(text, 0),
            package_version: line_at(text, 1),
            architecture: line_at(text, 2),
        },
    }
}

fn read_metadata(system: PackageSystem, text: &str) -> (metadata: PackageFileMetadata)
    ensures
        metadata.deep_view() == printed_metadata(system, text@),
{
    match system {
        PackageSystem::Deb => deb_metadata(text),
        _ => rpm_metadata(text),
    }
}

/// What follows once an artifact is measured: the build is done.
pub open spec fn artifact_measured(
    host: BuildHostView,
    unit: PlannedPackageBuildView,
    path: Seq<char>,
    metadata: PackageFileMetadataView,
    size: u64,
    sha256: Seq<char>,
) -> Result<BuildStepView, BuildErrorView> {
    match unit_artifact(unit, host.target_dir, path, metadata, size, sha256) {
        Err(source) => build_declined(source),
        Ok(artifact) => build_taken(
            BuildStageView::Finished,
            BuildActionView::Finish { artifact },
        ),
    }
}

fn finish_build(
    host: &BuildHost,
    unit: &PlannedPackageBuild,
    path: &str,
    metadata: PackageFileMetadata,
    size: u64,
    sha256: String,
) -> (next: Result<BuildStep, BuildError>)
    ensures
        outcome(next) == artifact_measured(
            host.deep_view(),
            unit.deep_view(),
            path@,
            metadata.deep_view(),
            size,
            sha256@,
        ),
{
    match artifact_from_path(unit, host.target_dir.as_str(), path, metadata, size, sha256) {
        Err(source) => refused(source),
        Ok(artifact) => step(BuildStage::Finished, BuildAction::Finish { artifact }),
    }
}

// ---------------------------------------------------------------------------
// Steps
// ---------------------------------------------------------------------------
/// The first step of a build: what does its output directory hold?
pub open spec fn build_opening(host: BuildHostView, unit: PlannedPackageBuildView) -> BuildStepView {
    BuildStepView {
        stage: BuildStageView::Clearing,
        action: BuildActionView::ListOutput { directory: output_directory(host.target_dir, unit) },
    }
}

/// The first step of a build.
pub fn first_build_step(host: &BuildHost, unit: &PlannedPackageBuild) -> (next: BuildStep)
    ensures
        next.deep_view() == build_opening(host.deep_view(), unit.deep_view()),
{
    BuildStep {
        stage: BuildStage::Clearing,
        action: BuildAction::ListOutput {
            directory: package_output_dir(host.target_dir.as_str(), unit),
        },
    }
}

/// The step that a build takes at a stage, given what came back of the last action.
pub open spec fn build_advanced(
    host: BuildHostView,
    contract: ReleaseContract,
    cargo: Map<Seq<char>, CargoMetadataView>,
    unit: PlannedPackageBuildView,
    stage: BuildStageView,
    event: BuildEventView,
) -> Result<BuildStepView, BuildErrorView> {
    match (stage, event) {
        (BuildStageView::Clearing, BuildEventView::Files { paths }) => output_listed(
            host,
            unit,
            paths,
        ),
        (BuildStageView::Preparing, BuildEventView::Done) => output_prepared(
            host,
            contract,
            cargo,
            unit,
        ),
        (BuildStageView::Imaging { image, env }, BuildEventView::Done) => image_asked(image, env),
        (BuildStageView::Asking { image, env }, BuildEventView::Text { text }) => image_answered(
            host,
            unit,
            image,
            env,
            text,
        ),
        (
            BuildStageView::Arranging { image, env, host_home, container_home },
            BuildEventView::Done,
        ) => host_arranged(host, unit, image, env, host_home, container_home),
        (BuildStageView::Running, BuildEventView::Done) => build_taken(
            BuildStageView::Collecting,
            BuildActionView::ListOutput { directory: output_directory(host.target_dir, unit) },
        ),
        (BuildStageView::Collecting, BuildEventView::Files { paths }) => output_collected(
            host,
            unit,
            paths,
        ),
        (BuildStageView::Reading { path }, BuildEventView::Text { text }) => build_taken(
            BuildStageView::Measuring { path, metadata: printed_metadata(unit.system, text) },
            BuildActionView::Measure { path },
        ),
        (
            BuildStageView::Measuring { path, metadata },
            BuildEventView::Measured { size, sha256 },
        ) => artifact_measured(host, unit, path, metadata, size, sha256),
        _ => Err(BuildErrorView::UnexpectedEvent),
    }
}

/// Takes the next step of a build: `event` is what came back of the action of the step
/// before.
pub fn advance_build(
    host: &BuildHost,
    contract: &ReleaseContract,
    cargo: &TextMap<String, CargoMetadata>,
    unit: &PlannedPackageBuild,
    stage: BuildStage,
    event: BuildEvent,
) -> (next: Result<BuildStep, BuildError>)
    ensures
        outcome(next) == build_advanced(
            host.deep_view(),
            *contract,
            cargo.deep_view(),
            unit.deep_view(),
            stage.deep_view(),
            event.deep_view(),
        ),
{
    match (stage, event) {
        (BuildStage::Clearing, BuildEvent::Files { paths }) => step(
            BuildStage::Preparing,
            BuildAction::PrepareOutput {
                stale: artifacts_among(&paths, unit.system),
                directory: package_output_dir(host.target_dir.as_str(), unit),
            },
        ),
        (BuildStage::Preparing, BuildEvent::Done) => start_build(host, contract, cargo, unit),
        (BuildStage::Imaging { image, env }, BuildEvent::Done) => ask_image(image, env),
        (BuildStage::Asking { image, env }, BuildEvent::Text { text }) => arrange_host(
            host,
            unit,
            image,
            env,
            text.as_str(),
        ),
        (
            BuildStage::Arranging { image, env, host_home, container_home },
            BuildEvent::Done,
        ) => run_container(
            host,
            unit,
            image.as_str(),
            &env,
            host_home.as_str(),
            container_home.as_str(),
        ),
        (BuildStage::Running, BuildEvent::Done) => step(
            BuildStage::Collecting,
            BuildAction::ListOutput {
                directory: package_output_dir(host.target_dir.as_str(), unit),
            },
        ),
        (BuildStage::Collecting, BuildEvent::Files { paths }) => read_output(host, unit, &paths),
        (BuildStage::Reading { path }, BuildEvent::Text { text }) => {
            let measured = path.clone();
            let metadata = read_metadata(unit.system, text.as_str());
            step(
                BuildStage::Measuring { path, metadata },
                BuildAction::Measure { path: measured },
            )
        },
        (
            BuildStage::Measuring { path, metadata },
            BuildEvent::Measured { size, sha256 },
        ) => finish_build(host, unit, path.as_str(), metadata, size, sha256),
        _ => Err(BuildError::UnexpectedEvent),
    }
}

} // verus!
