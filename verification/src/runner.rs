//! Running package commands: environments, container commands and what builds produce.

use vstd::prelude::*;
use vstd::utf8::encode_utf8;

use crate::contract::{branch_of, package_of, PackageContract, ReleaseContract};
use crate::digest::{hex, sha256, short_hash};
use crate::manifest::{PackageArtifact, PackageArtifactView, PackageManifest, PackageManifestView};
use crate::model::{deep, outcome};
use crate::package::{
    metadata_of, resolve_metadata, CargoMetadata, CargoMetadataView, PackageId, PackageVersionError,
    PackageVersionErrorView, PackageVersion, PackageVersionView, ResolvePackageMetadataError,
    ResolvePackageMetadataErrorView,
};
use crate::path::{
    below, debug_path, debug_path_text, extension, file_name, join_path, parent, path_below,
    path_extension, path_file_name, path_join, path_parent,
};
use crate::plan::{
    target_name, target_value, PlannedEnvMount, PlannedEnvMountView, PlannedPackageBuild,
    PlannedPackageBuildView,
};
use crate::publish::{field_value, stanza_field};
use crate::requirements::{
    branch_version, linux_requirement_entries, package_version_for_branch, requirement_entries,
    resolve_requires_for, resolved_requires, RenderLinuxRequirementError,
    RenderLinuxRequirementErrorView, ResolveRequiresError, ResolveRequiresErrorView,
    ResolvedVersionBoundsView,
};
use crate::s3::mount_words;
use crate::sibling::{
    ContainerMountView, ContainerOverlayPlan, ContainerOverlayPlanView, SiblingSource,
    SiblingSourceView,
};
use crate::system::{
    is_linux_system, profile_name, system_name, BuildProfile, PackageSystem, RequestedTarget,
    RequestedTargetView,
};
use crate::text::{
    char_is, has_prefix, join, joined, less_text, lines, pieces, same_text, split, starts_with,
    text_lines, text_lt, trim, trim_end_matches, trimmed_end, trimmed_space,
};
use crate::textmap::{lemma_listing, listing, sorted, TextMap, TextSet};
use crate::version::{SourceVersion, SourceVersionView};

verus! {

broadcast use crate::model::group_deep;

/// Why a command cannot be run.
#[allow(inconsistent_fields)]
#[derive(Debug, PartialEq, Eq)]
pub enum RunCurrentDirError {
    /// Reported as `primary source directory name is not utf-8`.
    PrimarySourceName,
    /// Reported as `failed to resolve package {package} metadata`.
    ResolveMetadata { source: ResolvePackageMetadataError, package: PackageId },
    /// Reported as `package {package} does not exist`.
    MissingPackage { package: PackageId },
    /// Reported as `package {package} does not define {system} branch`.
    MissingPackageBranch { package: PackageId, system: PackageSystem },
    /// Reported as `failed to compose package version`.
    PackageVersion { source: PackageVersionError },
    /// Reported as `failed to resolve package {package} {system} requirements`.
    ResolveRequires { source: ResolveRequiresError, package: PackageId, system: PackageSystem },
    /// Reported as `failed to render package {package} {system} requirements`.
    RenderRequires { source: RenderLinuxRequirementError, package: PackageId, system: PackageSystem },
    /// Reported as `package docker image does not define CARGO_HOME`.
    MissingContainerCargoHome { image: String },
    /// Reported as `host CARGO_HOME is not defined`.
    MissingHostCargoHome,
    /// Reported as `package script produced no artifact in {path:?}`.
    MissingArtifact { path: String },
    /// Reported as `package script produced multiple artifacts in {path:?}`.
    MultipleArtifacts { path: String },
    /// Reported as `rpm package artifact path has no parent directory`.
    RpmMetadataParent { path: String },
    /// Reported as `rpm package artifact file name is not valid utf-8`.
    RpmMetadataFileName { path: String },
    /// Reported as `failed to make package artifact path target-relative`.
    ArtifactTargetRelative { path: String },
    /// Reported as `release contract defines no package`.
    EmptyContract,
}

/// What a [`RunCurrentDirError`] holds.
#[allow(inconsistent_fields)]
pub enum RunCurrentDirErrorView {
    PrimarySourceName,
    ResolveMetadata { source: ResolvePackageMetadataErrorView, package: Seq<char> },
    MissingPackage { package: Seq<char> },
    MissingPackageBranch { package: Seq<char>, system: PackageSystem },
    PackageVersion { source: PackageVersionErrorView },
    ResolveRequires { source: ResolveRequiresErrorView, package: Seq<char>, system: PackageSystem },
    RenderRequires { source: RenderLinuxRequirementErrorView, package: Seq<char>, system: PackageSystem },
    MissingContainerCargoHome { image: Seq<char> },
    MissingHostCargoHome,
    MissingArtifact { path: Seq<char> },
    MultipleArtifacts { path: Seq<char> },
    RpmMetadataParent { path: Seq<char> },
    RpmMetadataFileName { path: Seq<char> },
    ArtifactTargetRelative { path: Seq<char> },
    EmptyContract,
}

impl DeepView for RunCurrentDirError {
    type V = RunCurrentDirErrorView;

    open spec fn deep_view(&self) -> RunCurrentDirErrorView {
        match self {
            RunCurrentDirError::PrimarySourceName => RunCurrentDirErrorView::PrimarySourceName,
            RunCurrentDirError::ResolveMetadata { source, package } => RunCurrentDirErrorView::ResolveMetadata {
                source: source.deep_view(),
                package: package.deep_view(),
            },
            RunCurrentDirError::MissingPackage { package } => RunCurrentDirErrorView::MissingPackage {
                package: package.deep_view(),
            },
            RunCurrentDirError::MissingPackageBranch { package, system } => RunCurrentDirErrorView::MissingPackageBranch {
                package: package.deep_view(),
                system: *system,
            },
            RunCurrentDirError::PackageVersion { source } => RunCurrentDirErrorView::PackageVersion {
                source: source.deep_view(),
            },
            RunCurrentDirError::ResolveRequires { source, package, system } => RunCurrentDirErrorView::ResolveRequires {
                source: source.deep_view(),
                package: package.deep_view(),
                system: *system,
            },
            RunCurrentDirError::RenderRequires { source, package, system } => RunCurrentDirErrorView::RenderRequires {
                source: source.deep_view(),
                package: package.deep_view(),
                system: *system,
            },
            RunCurrentDirError::MissingContainerCargoHome { image } => RunCurrentDirErrorView::MissingContainerCargoHome {
                image: image@,
            },
            RunCurrentDirError::MissingHostCargoHome => RunCurrentDirErrorView::MissingHostCargoHome,
            RunCurrentDirError::MissingArtifact { path } => RunCurrentDirErrorView::MissingArtifact {
                path: path@,
            },
            RunCurrentDirError::MultipleArtifacts { path } => RunCurrentDirErrorView::MultipleArtifacts {
                path: path@,
            },
            RunCurrentDirError::RpmMetadataParent { path } => RunCurrentDirErrorView::RpmMetadataParent {
                path: path@,
            },
            RunCurrentDirError::RpmMetadataFileName { path } => RunCurrentDirErrorView::RpmMetadataFileName {
                path: path@,
            },
            RunCurrentDirError::ArtifactTargetRelative { path } => RunCurrentDirErrorView::ArtifactTargetRelative {
                path: path@,
            },
            RunCurrentDirError::EmptyContract => RunCurrentDirErrorView::EmptyContract,
        }
    }
}

impl RunCurrentDirErrorView {
    /// The message of the error.
    pub open spec fn message(self) -> Seq<char> {
        match self {
            RunCurrentDirErrorView::PrimarySourceName => "primary source directory name is not utf-8"@,
            RunCurrentDirErrorView::ResolveMetadata { package, .. } => "failed to resolve package "@ + package + " metadata"@,
            RunCurrentDirErrorView::MissingPackage { package } => "package "@ + package + " does not exist"@,
            RunCurrentDirErrorView::MissingPackageBranch { package, system } => "package "@ + package + " does not define "@ + system_name(system) + " branch"@,
            RunCurrentDirErrorView::PackageVersion { .. } => "failed to compose package version"@,
            RunCurrentDirErrorView::ResolveRequires { package, system, .. } => "failed to resolve package "@ + package + " "@ + system_name(system) + " requirements"@,
            RunCurrentDirErrorView::RenderRequires { package, system, .. } => "failed to render package "@ + package + " "@ + system_name(system) + " requirements"@,
            RunCurrentDirErrorView::MissingContainerCargoHome { .. } => "package docker image does not define CARGO_HOME"@,
            RunCurrentDirErrorView::MissingHostCargoHome => "host CARGO_HOME is not defined"@,
            RunCurrentDirErrorView::MissingArtifact { path } => "package script produced no artifact in "@ + debug_path(path),
            RunCurrentDirErrorView::MultipleArtifacts { path } => "package script produced multiple artifacts in "@ + debug_path(path),
            RunCurrentDirErrorView::RpmMetadataParent { .. } => "rpm package artifact path has no parent directory"@,
            RunCurrentDirErrorView::RpmMetadataFileName { .. } => "rpm package artifact file name is not valid utf-8"@,
            RunCurrentDirErrorView::ArtifactTargetRelative { .. } => "failed to make package artifact path target-relative"@,
            RunCurrentDirErrorView::EmptyContract => "release contract defines no package"@,
        }
    }
}

impl RunCurrentDirError {
    /// The message of the error.
    pub fn to_string(&self) -> (text: String)
        ensures
            text@ == self.deep_view().message(),
    {
        match self {
            RunCurrentDirError::PrimarySourceName => "primary source directory name is not utf-8".to_owned(),
            RunCurrentDirError::ResolveMetadata { package, .. } => {
                let mut text = "failed to resolve package ".to_owned();
                text.append(package.as_str());
                text.append(" metadata");
                text
            },
            RunCurrentDirError::MissingPackage { package } => {
                let mut text = "package ".to_owned();
                text.append(package.as_str());
                text.append(" does not exist");
                text
            },
            RunCurrentDirError::MissingPackageBranch { package, system } => {
                let mut text = "package ".to_owned();
                text.append(package.as_str());
                text.append(" does not define ");
                text.append(system.as_str());
                text.append(" branch");
                text
            },
            RunCurrentDirError::PackageVersion { .. } => "failed to compose package version".to_owned(),
            RunCurrentDirError::ResolveRequires { package, system, .. } => {
                let mut text = "failed to resolve package ".to_owned();
                text.append(package.as_str());
                text.append(" ");
                text.append(system.as_str());
                text.append(" requirements");
                text
            },
            RunCurrentDirError::RenderRequires { package, system, .. } => {
                let mut text = "failed to render package ".to_owned();
                text.append(package.as_str());
                text.append(" ");
                text.append(system.as_str());
                text.append(" requirements");
                text
            },
            RunCurrentDirError::MissingContainerCargoHome { .. } => "package docker image does not define CARGO_HOME".to_owned(),
            RunCurrentDirError::MissingHostCargoHome => "host CARGO_HOME is not defined".to_owned(),
            RunCurrentDirError::MissingArtifact { path } => {
                let mut text = "package script produced no artifact in ".to_owned();
                text.append(debug_path_text(path.as_str()).as_str());
                text
            },
            RunCurrentDirError::MultipleArtifacts { path } => {
                let mut text = "package script produced multiple artifacts in ".to_owned();
                text.append(debug_path_text(path.as_str()).as_str());
                text
            },
            RunCurrentDirError::RpmMetadataParent { .. } => "rpm package artifact path has no parent directory".to_owned(),
            RunCurrentDirError::RpmMetadataFileName { .. } => "rpm package artifact file name is not valid utf-8".to_owned(),
            RunCurrentDirError::ArtifactTargetRelative { .. } => "failed to make package artifact path target-relative".to_owned(),
            RunCurrentDirError::EmptyContract => "release contract defines no package".to_owned(),
        }
    }
}

/// The source that lies in the directory of the contract.
pub fn primary_source(root: &str) -> (source: Result<SiblingSource, RunCurrentDirError>)
    ensures
        outcome(source) == (match path_file_name(root@) {
            Some(name) => Ok(SiblingSourceView { name, host_path: root@ }),
            None => Err(RunCurrentDirErrorView::PrimarySourceName),
        }),
{
    match file_name(root) {
        Some(name) => Ok(SiblingSource { name, host_path: root.to_owned() }),
        None => Err(RunCurrentDirError::PrimarySourceName),
    }
}

// ---------------------------------------------------------------------------
// The environment of a build
// ---------------------------------------------------------------------------
/// The profile that the environment of a build names.
pub open spec fn env_profile(env: Map<Seq<char>, Seq<char>>) -> Seq<char> {
    if env.contains_key("XTASK_RELEASE_PROFILE"@) {
        env["XTASK_RELEASE_PROFILE"@]
    } else {
        profile_name(BuildProfile::Release)
    }
}

/// The directory in which a build leaves its artifact.
pub open spec fn output_directory(target_dir: Seq<char>, unit: PlannedPackageBuildView) -> Seq<char> {
    match unit.target {
        RequestedTargetView::Common => path_join(
            path_join(target_dir, "common"@),
            system_name(unit.system),
        ),
        RequestedTargetView::Triple(triple) => path_join(
            path_join(path_join(target_dir, triple), env_profile(unit.invocation.env)),
            system_name(unit.system),
        ),
    }
}

/// The directory in which a build leaves its artifact.
pub fn package_output_dir(target_dir: &str, unit: &PlannedPackageBuild) -> (directory: String)
    ensures
        directory@ == output_directory(target_dir@, unit.deep_view()),
{
    match &unit.target {
        RequestedTarget::Common => join_path(
            join_path(target_dir, "common").as_str(),
            unit.system.as_str(),
        ),
        RequestedTarget::Triple(triple) => {
            let profile = match unit.invocation.env.value("XTASK_RELEASE_PROFILE") {
                Some(profile) => profile.as_str(),
                None => BuildProfile::Release.as_str(),
            };
            let target = join_path(target_dir, triple.as_str());
            let directory = join_path(target.as_str(), profile);
            join_path(directory.as_str(), unit.system.as_str())
        },
    }
}

/// The directory of the contract as a build sees it.
pub open spec fn seen_root(root: Seq<char>, container: bool) -> Seq<char> {
    if container {
        "/workspace"@
    } else {
        root
    }
}

/// The target directory as a build sees it.
pub open spec fn seen_target_dir(target_dir: Seq<char>, container: bool) -> Seq<char> {
    if container {
        "/workspace/target"@
    } else {
        target_dir
    }
}

/// The directory of the artifact as a build sees it.
pub open spec fn seen_output_dir(
    target_dir: Seq<char>,
    output_dir: Seq<char>,
    container: bool,
) -> Seq<char> {
    if container {
        path_join(
            path_join("/workspace"@, "target"@),
            match path_below(output_dir, target_dir) {
                Some(rest) => rest,
                None => output_dir,
            },
        )
    } else {
        output_dir
    }
}

fn package_env_output_dir(target_dir: &str, output_dir: &str, container: bool) -> (directory: String)
    ensures
        directory@ == seen_output_dir(target_dir@, output_dir@, container),
{
    if !container {
        return output_dir.to_owned();
    }
    let relative = match below(output_dir, target_dir) {
        Some(rest) => rest,
        None => output_dir.to_owned(),
    };
    join_path(join_path("/workspace", "target").as_str(), relative.as_str())
}

/// The version of the package of a build.
pub open spec fn unit_version(
    contract: ReleaseContract,
    package: Seq<char>,
    system: PackageSystem,
    source: SourceVersionView,
) -> Result<PackageVersionView, RunCurrentDirErrorView> {
    match package_of(contract, package) {
        None => Err(RunCurrentDirErrorView::MissingPackage { package }),
        Some(found) => match branch_of(found, system) {
            None => Err(RunCurrentDirErrorView::MissingPackageBranch { package, system }),
            Some(branch) => match branch_version(branch, source) {
                Err(source) => Err(RunCurrentDirErrorView::PackageVersion { source }),
                Ok(version) => Ok(version),
            },
        },
    }
}

/// The version of the package of a build.
pub fn package_version_for_unit(
    contract: &ReleaseContract,
    unit: &PlannedPackageBuild,
    source: SourceVersion,
) -> (version: Result<PackageVersion, RunCurrentDirError>)
    ensures
        outcome(version) == unit_version(
            *contract,
            unit.package_id.deep_view(),
            unit.system,
            source.deep_view(),
        ),
{
    let found = match contract.package(unit.package_id.as_str()) {
        Some(found) => found,
        None => {
            return Err(RunCurrentDirError::MissingPackage { package: unit.package_id.clone() });
        },
    };
    match found.branch(unit.system) {
        None => Err(
            RunCurrentDirError::MissingPackageBranch {
                package: unit.package_id.clone(),
                system: unit.system,
            },
        ),
        Some(branch) => match package_version_for_branch(branch, source) {
            Ok(version) => Ok(version),
            Err(source) => Err(RunCurrentDirError::PackageVersion { source }),
        },
    }
}

/// The environment with the versions of the package of a build.
pub open spec fn with_versions(
    contract: ReleaseContract,
    contract_root: Seq<char>,
    cargo: Map<Seq<char>, CargoMetadataView>,
    unit: PlannedPackageBuildView,
    env: Map<Seq<char>, Seq<char>>,
) -> Result<Map<Seq<char>, Seq<char>>, RunCurrentDirErrorView> {
    match metadata_of(contract, unit.package_id, contract_root, cargo) {
        Err(source) => Err(
            RunCurrentDirErrorView::ResolveMetadata { source, package: unit.package_id },
        ),
        Ok(metadata) => match unit_version(
            contract,
            unit.package_id,
            unit.system,
            metadata.source_version,
        ) {
            Err(error) => Err(error),
            Ok(version) => Ok(
                env.insert(
                    "XTASK_RELEASE_SOURCE_VERSION"@,
                    metadata.source_version.text(),
                ).insert("XTASK_RELEASE_PACKAGE_VERSION"@, version.text()),
            ),
        },
    }
}

/// Adds the versions of the package of a build to its environment.
fn enrich_package_metadata(
    contract: &ReleaseContract,
    contract_root: &str,
    cargo: &TextMap<String, CargoMetadata>,
    unit: &PlannedPackageBuild,
    env: &mut TextMap<String, String>,
) -> (result: Result<(), RunCurrentDirError>)
    ensures
        match result {
            Ok(_) => with_versions(
                *contract,
                contract_root@,
                cargo.deep_view(),
                unit.deep_view(),
                old(env).deep_view(),
            ) == Ok::<Map<Seq<char>, Seq<char>>, RunCurrentDirErrorView>(final(env).deep_view()),
            Err(error) => with_versions(
                *contract,
                contract_root@,
                cargo.deep_view(),
                unit.deep_view(),
                old(env).deep_view(),
            ) == Err::<Map<Seq<char>, Seq<char>>, RunCurrentDirErrorView>(error.deep_view()),
        },
{
    let metadata = match resolve_metadata(
        contract,
        unit.package_id.as_str(),
        contract_root,
        cargo,
    ) {
        Ok(metadata) => metadata,
        Err(source) => {
            return Err(
                RunCurrentDirError::ResolveMetadata { source, package: unit.package_id.clone() },
            );
        },
    };
    let source_text = metadata.source_version.to_string();
    match package_version_for_unit(contract, unit, metadata.source_version) {
        Ok(version) => {
            env.insert("XTASK_RELEASE_SOURCE_VERSION".to_owned(), source_text);
            env.insert("XTASK_RELEASE_PACKAGE_VERSION".to_owned(), version.as_string());
            Ok(())
        },
        Err(error) => Err(error),
    }
}

/// The requirement entries of the packages from `from` on, after those already `found`.
pub open spec fn all_entries(
    system: PackageSystem,
    packages: Seq<Seq<char>>,
    bounds: Map<Seq<char>, ResolvedVersionBoundsView>,
    from: int,
    found: Seq<Seq<char>>,
) -> Seq<Seq<char>>
    decreases packages.len() - from,
{
    if from < 0 || from >= packages.len() {
        found
    } else {
        all_entries(
            system,
            packages,
            bounds,
            from + 1,
            found + requirement_entries(system, packages[from], bounds[packages[from]]),
        )
    }
}

/// What a Linux package requires, in one line.
pub open spec fn requires_line(
    system: PackageSystem,
    bounds: Map<Seq<char>, ResolvedVersionBoundsView>,
) -> Seq<char> {
    joined(all_entries(system, sorted(bounds.dom()), bounds, 0, Seq::empty()), ", "@)
}

/// The environment with what the package of a build requires. Only Linux packages require
/// anything.
pub open spec fn with_requires(
    contract: ReleaseContract,
    contract_root: Seq<char>,
    cargo: Map<Seq<char>, CargoMetadataView>,
    unit: PlannedPackageBuildView,
    env: Map<Seq<char>, Seq<char>>,
) -> Result<Map<Seq<char>, Seq<char>>, RunCurrentDirErrorView> {
    if !is_linux_system(unit.system) {
        Ok(env)
    } else {
        match resolved_requires(contract, contract_root, unit.package_id, unit.system, cargo) {
            Err(source) => Err(
                RunCurrentDirErrorView::ResolveRequires {
                    source,
                    package: unit.package_id,
                    system: unit.system,
                },
            ),
            Ok(bounds) => Ok(
                env.insert("XTASK_RELEASE_REQUIRES"@, requires_line(unit.system, bounds)),
            ),
        }
    }
}

/// Adds what the package of a build requires to its environment.
fn enrich_linux_requires(
    contract: &ReleaseContract,
    contract_root: &str,
    cargo: &TextMap<String, CargoMetadata>,
    unit: &PlannedPackageBuild,
    env: &mut TextMap<String, String>,
) -> (result: Result<(), RunCurrentDirError>)
    ensures
        match result {
            Ok(_) => with_requires(
                *contract,
                contract_root@,
                cargo.deep_view(),
                unit.deep_view(),
                old(env).deep_view(),
            ) == Ok::<Map<Seq<char>, Seq<char>>, RunCurrentDirErrorView>(final(env).deep_view()),
            Err(error) => with_requires(
                *contract,
                contract_root@,
                cargo.deep_view(),
                unit.deep_view(),
                old(env).deep_view(),
            ) == Err::<Map<Seq<char>, Seq<char>>, RunCurrentDirErrorView>(error.deep_view()),
        },
{
    if !unit.system.is_linux() {
        return Ok(());
    }
    let bounds = match resolve_requires_for(
        contract,
        contract_root,
        unit.package_id.as_str(),
        unit.system,
        cargo,
    ) {
        Ok(bounds) => bounds,
        Err(source) => {
            return Err(
                RunCurrentDirError::ResolveRequires {
                    source,
                    package: unit.package_id.clone(),
                    system: unit.system,
                },
            );
        },
    };
    let mut names = TextSet::new();
    bounds.add_keys(&mut names);
    let ghost resolved = bounds.deep_view();
    proof {
        assert(names.deep_view() =~= resolved.dom());
    }
    let count: usize = names.len();
    let ghost ordered = names.items();
    let mut entries: Vec<String> = Vec::new();
    let mut i: usize = 0;
    while i < count
        invariant
            i <= count == ordered.len(),
            ordered == names.items(),
            ordered == sorted(resolved.dom()),
            names.deep_view() == resolved.dom(),
            resolved == bounds.deep_view(),
            is_linux_system(unit.system),
            resolved_requires(
                *contract,
                contract_root@,
                unit.package_id.deep_view(),
                unit.system,
                cargo.deep_view(),
            ) == Ok::<Map<Seq<char>, ResolvedVersionBoundsView>, ResolveRequiresErrorView>(
                resolved,
            ),
            all_entries(unit.system, ordered, resolved, 0, Seq::empty()) == all_entries(
                unit.system,
                ordered,
                resolved,
                i as int,
                deep(entries@),
            ),
        decreases count - i,
    {
        let name = names.at(i);
        proof {
            assert(names.items().contains(ordered[i as int]));
            assert(names.deep_view().contains(name@));
        }
        if let Some(bound) = bounds.value(name.as_str()) {
            match linux_requirement_entries(unit.system, name.as_str(), bound.clone()) {
                Ok(more) => {
                    let ghost before = entries@;
                    let ghost added = more@;
                    let mut more = more;
                    entries.append(&mut more);
                    assert(entries@ == before + added);
                    assert(deep(entries@) =~= deep(before) + deep(added));
                },
                Err(source) => {
                    return Err(
                        RunCurrentDirError::RenderRequires {
                            source,
                            package: unit.package_id.clone(),
                            system: unit.system,
                        },
                    );
                },
            }
        } else {
            // Every name is a key of the map.
            assert(false);
        }
        i = i + 1;
    }
    env.insert("XTASK_RELEASE_REQUIRES".to_owned(), join(&entries, ", "));
    Ok(())
}

/// The environment of a build with the directories that it works in.
pub open spec fn with_directories(
    root: Seq<char>,
    target_dir: Seq<char>,
    unit: PlannedPackageBuildView,
) -> Map<Seq<char>, Seq<char>> {
    let container = unit.invocation.container is Some;
    unit.invocation.env.insert("XTASK_RELEASE_CONTRACT_ROOT"@, root).insert(
        "XTASK_RELEASE_REPO_ROOT"@,
        seen_root(root, container),
    ).insert("XTASK_RELEASE_TARGET_DIR"@, seen_target_dir(target_dir, container)).insert(
        "XTASK_RELEASE_OUT_DIR"@,
        seen_output_dir(target_dir, output_directory(target_dir, unit), container),
    )
}

/// The whole environment of a build: what was planned, the directories, the versions and
/// the requirements.
pub open spec fn unit_env(
    contract: ReleaseContract,
    root: Seq<char>,
    target_dir: Seq<char>,
    cargo: Map<Seq<char>, CargoMetadataView>,
    unit: PlannedPackageBuildView,
) -> Result<Map<Seq<char>, Seq<char>>, RunCurrentDirErrorView> {
    match with_versions(contract, root, cargo, unit, with_directories(root, target_dir, unit)) {
        Err(error) => Err(error),
        Ok(env) => with_requires(contract, root, cargo, unit, env),
    }
}

/// The whole environment of a build.
pub fn package_unit_env(
    contract: &ReleaseContract,
    root: &str,
    target_dir: &str,
    cargo: &TextMap<String, CargoMetadata>,
    unit: &PlannedPackageBuild,
) -> (result: Result<TextMap<String, String>, RunCurrentDirError>)
    ensures
        outcome(result) == unit_env(
            *contract,
            root@,
            target_dir@,
            cargo.deep_view(),
            unit.deep_view(),
        ),
{
    let container = unit.invocation.container.is_some();
    let output_dir = package_output_dir(target_dir, unit);
    let mut env = unit.invocation.env.duplicate();
    env.insert("XTASK_RELEASE_CONTRACT_ROOT".to_owned(), root.to_owned());
    env.insert(
        "XTASK_RELEASE_REPO_ROOT".to_owned(),
        if container {
            "/workspace".to_owned()
        } else {
            root.to_owned()
        },
    );
    env.insert(
        "XTASK_RELEASE_TARGET_DIR".to_owned(),
        if container {
            "/workspace/target".to_owned()
        } else {
            target_dir.to_owned()
        },
    );
    env.insert(
        "XTASK_RELEASE_OUT_DIR".to_owned(),
        package_env_output_dir(target_dir, output_dir.as_str(), container),
    );
    if let Err(error) = enrich_package_metadata(contract, root, cargo, unit, &mut env) {
        return Err(error);
    }
    if let Err(error) = enrich_linux_requires(contract, root, cargo, unit, &mut env) {
        return Err(error);
    }
    Ok(env)
}

// ---------------------------------------------------------------------------
// Container commands
// ---------------------------------------------------------------------------
/// The variables of a release among the first `count` of an environment, as `name=value`
/// lines after `start`.
pub open spec fn release_lines(env: Seq<(Seq<char>, Seq<char>)>, count: int, start: Seq<char>) -> Seq<char>
    decreases count,
{
    if count <= 0 {
        start
    } else if has_prefix(env[count - 1].0, "XTASK_RELEASE_"@) {
        release_lines(env, count - 1, start) + env[count - 1].0 + "="@ + env[count - 1].1 + "\n"@
    } else {
        release_lines(env, count - 1, start)
    }
}

/// What the image of a build depends on: its Dockerfile and the variables of the release.
pub open spec fn image_key(dockerfile: Seq<char>, env: Seq<(Seq<char>, Seq<char>)>) -> Seq<char> {
    release_lines(env, env.len() as int, dockerfile)
}

/// The name of an image with the hash of what it depends on.
pub open spec fn hashed_image(image: Seq<char>, key: Seq<char>) -> Seq<char> {
    image + "-"@ + hex(sha256(encode_utf8(key)).take(8))
}

/// Whether entries are listed as they stand.
spec fn is_listed(items: Seq<(String, String)>, listed: Seq<(Seq<char>, Seq<char>)>) -> bool {
    &&& items.len() == listed.len()
    &&& forall|i: int|
        0 <= i < items.len() ==> #[trigger] listed[i] == (items[i].0@, items[i].1@)
}

/// The name of the image of a build, with the hash of what the image depends on.
pub fn docker_image(image: &str, dockerfile: &str, env: &TextMap<String, String>) -> (name: String)
    ensures
        name@ == hashed_image(image@, image_key(dockerfile@, listing(env.deep_view()))),
{
    let mut key = dockerfile.to_owned();
    let count: usize = env.len();
    let ghost listed = listing(env.deep_view());
    proof {
        lemma_listing(env.items());
    }
    let mut i: usize = 0;
    while i < count
        invariant
            i <= count,
            is_listed(env.items(), listed),
            count == listed.len(),
            key@ == release_lines(listed, i as int, dockerfile@),
        decreases count - i,
    {
        let name = env.key_at(i);
        if starts_with(name.as_str(), "XTASK_RELEASE_") {
            key.append(name.as_str());
            key.append("=");
            key.append(env.value_at(i).as_str());
            key.append("\n");
        }
        i = i + 1;
    }
    let mut name = image.to_owned();
    name.append("-");
    name.append(short_hash(key.as_str().as_bytes()).as_str());
    name
}

/// A variable with its value.
pub open spec fn assignment(entry: (Seq<char>, Seq<char>)) -> Seq<char> {
    entry.0 + "="@ + entry.1
}

fn assignment_text(name: &str, value: &str) -> (text: String)
    ensures
        text@ == name@ + "="@ + value@,
{
    let mut text = name.to_owned();
    text.append("=");
    text.append(value);
    text
}

/// The words that hand the first `count` variables of the release to an image build.
pub open spec fn build_arg_words(env: Seq<(Seq<char>, Seq<char>)>, count: int) -> Seq<Seq<char>>
    decreases count,
{
    if count <= 0 {
        Seq::empty()
    } else if has_prefix(env[count - 1].0, "XTASK_RELEASE_"@) {
        build_arg_words(env, count - 1).push("--build-arg"@).push(assignment(env[count - 1]))
    } else {
        build_arg_words(env, count - 1)
    }
}

/// The words that set the first `count` variables in a container.
pub open spec fn env_words(env: Seq<(Seq<char>, Seq<char>)>, count: int) -> Seq<Seq<char>>
    decreases count,
{
    if count <= 0 {
        Seq::empty()
    } else {
        env_words(env, count - 1).push("--env"@).push(assignment(env[count - 1]))
    }
}

/// The words of the Docker command that builds an image.
pub open spec fn docker_build_words(
    dockerfile: Seq<char>,
    image: Seq<char>,
    env: Seq<(Seq<char>, Seq<char>)>,
) -> Seq<Seq<char>> {
    seq!["build"@, "-f"@, dockerfile, "-t"@, image] + build_arg_words(env, env.len() as int)
        + seq!["."@]
}

/// The words of the Docker command that builds an image.
pub fn docker_build_command(dockerfile: &str, image: &str, env: &TextMap<String, String>) -> (words:
    Vec<String>)
    ensures
        deep(words@) == docker_build_words(dockerfile@, image@, listing(env.deep_view())),
{
    let mut words: Vec<String> = Vec::new();
    words.push("build".to_owned());
    words.push("-f".to_owned());
    words.push(dockerfile.to_owned());
    words.push("-t".to_owned());
    words.push(image.to_owned());
    let count: usize = env.len();
    let ghost listed = listing(env.deep_view());
    let ghost start = deep(words@);
    proof {
        assert(start =~= seq!["build"@, "-f"@, dockerfile@, "-t"@, image@]);
        lemma_listing(env.items());
        assert(start + build_arg_words(listed, 0) =~= start);
    }
    let mut i: usize = 0;
    while i < count
        invariant
            i <= count,
            is_listed(env.items(), listed),
            count == listed.len(),
            deep(words@) == start + build_arg_words(listed, i as int),
        decreases count - i,
    {
        let ghost before = deep(words@);
        let name = env.key_at(i);
        if starts_with(name.as_str(), "XTASK_RELEASE_") {
            words.push("--build-arg".to_owned());
            words.push(assignment_text(name.as_str(), env.value_at(i).as_str()));
            assert(deep(words@) =~= start + build_arg_words(listed, i + 1));
        }
        i = i + 1;
    }
    words.push(".".to_owned());
    assert(deep(words@) =~= start + build_arg_words(listed, count as int) + seq!["."@]);
    words
}

/// A mount as Docker is told of it.
pub open spec fn mount_text(source: Seq<char>, destination: Seq<char>, read_only: bool) -> Seq<char> {
    source + ":"@ + destination + (if read_only {
        ":ro"@
    } else {
        ""@
    })
}

fn mount_argument(source: &str, destination: &str, read_only: bool) -> (text: String)
    ensures
        text@ == mount_text(source@, destination@, read_only),
{
    let mut text = source.to_owned();
    text.append(":");
    text.append(destination);
    text.append(
        if read_only {
            ":ro"
        } else {
            ""
        },
    );
    text
}

/// How a container sees a directory of the Cargo cache of the host.
pub open spec fn cache_mount(host_home: Seq<char>, container_home: Seq<char>, name: Seq<char>) -> Seq<
    char,
> {
    path_join(host_home, name) + ":"@ + trimmed_end(container_home, char_is('/')) + "/"@ + name
}

fn cache_argument(host_home: &str, container_home: &str, name: &str) -> (text: String)
    ensures
        text@ == cache_mount(host_home@, container_home@, name@),
{
    let mut text = join_path(host_home, name);
    text.append(":");
    text.append(trim_end_matches(container_home, '/').as_str());
    text.append("/");
    text.append(name);
    text
}

/// The directories of the Cargo cache of the host that a container shares.
pub fn cargo_cache_directories(host_home: &str) -> (directories: Vec<String>)
    ensures
        deep(directories@) == seq![path_join(host_home@, "git"@), path_join(host_home@, "registry"@)],
{
    let mut directories: Vec<String> = Vec::new();
    directories.push(join_path(host_home, "git"));
    directories.push(join_path(host_home, "registry"));
    assert(deep(directories@) =~= seq![
        path_join(host_home@, "git"@),
        path_join(host_home@, "registry"@),
    ]);
    directories
}

/// The file with the Cargo configuration of a container.
pub open spec fn config_file(target_dir: Seq<char>) -> Seq<char> {
    path_join(target_dir, ".genmeta-xtask-release-cargo.toml"@)
}

/// The file with the Cargo configuration of a container.
pub fn cargo_config_file(target_dir: &str) -> (path: String)
    ensures
        path@ == config_file(target_dir@),
{
    join_path(target_dir, ".genmeta-xtask-release-cargo.toml")
}

/// What a container of a build sees of the host: the directory of the contract, the Cargo
/// cache, the files of its environment, and the siblings with the Cargo configuration that
/// makes use of them.
pub open spec fn unit_mounts(
    root: Seq<char>,
    target_dir: Seq<char>,
    host_home: Seq<char>,
    container_home: Seq<char>,
    env_mounts: Seq<PlannedEnvMountView>,
    overlay: Option<ContainerOverlayPlanView>,
) -> Seq<Seq<char>> {
    seq![
        root + ":/workspace"@,
        cache_mount(host_home, container_home, "git"@),
        cache_mount(host_home, container_home, "registry"@),
    ] + env_mounts.map_values(
        |mount: PlannedEnvMountView| mount_text(mount.source, mount.destination, mount.read_only),
    ) + (match overlay {
        None => Seq::empty(),
        Some(plan) => plan.mounts.map_values(
            |mount: ContainerMountView| mount_text(mount.source, mount.destination, mount.read_only),
        ).push(
            mount_text(
                config_file(target_dir),
                path_join(container_home, "config.toml"@),
                true,
            ),
        ),
    })
}

fn add_env_mounts(mounts: &mut Vec<String>, env_mounts: &Vec<PlannedEnvMount>)
    ensures
        deep(final(mounts)@) == deep(old(mounts)@) + deep(env_mounts@).map_values(
            |mount: PlannedEnvMountView|
                mount_text(mount.source, mount.destination, mount.read_only),
        ),
{
    let ghost start = deep(mounts@);
    let ghost all = deep(env_mounts@).map_values(
        |mount: PlannedEnvMountView| mount_text(mount.source, mount.destination, mount.read_only),
    );
    let mut i: usize = 0;
    assert(start + all.take(0) =~= start);
    while i < env_mounts.len()
        invariant
            i <= env_mounts@.len(),
            all == deep(env_mounts@).map_values(
                |mount: PlannedEnvMountView|
                    mount_text(mount.source, mount.destination, mount.read_only),
            ),
            deep(mounts@) == start + all.take(i as int),
        decreases env_mounts@.len() - i,
    {
        let mount = &env_mounts[i];
        let text = mount_argument(
            mount.source.as_str(),
            mount.destination.as_str(),
            mount.read_only,
        );
        assert(deep(env_mounts@)[i as int] == mount.deep_view());
        assert(all[i as int] == text@);
        assert((start + all.take(i as int)).push(text@) =~= start + all.take(i + 1));
        mounts.push(text);
        i = i + 1;
    }
    assert(all.take(i as int) =~= all);
}

fn add_overlay_mounts(mounts: &mut Vec<String>, overlay: &ContainerOverlayPlan)
    ensures
        deep(final(mounts)@) == deep(old(mounts)@) + overlay.deep_view().mounts.map_values(
            |mount: ContainerMountView| mount_text(mount.source, mount.destination, mount.read_only),
        ),
{
    let ghost start = deep(mounts@);
    let ghost all = deep(overlay.mounts@).map_values(
        |mount: ContainerMountView| mount_text(mount.source, mount.destination, mount.read_only),
    );
    let mut i: usize = 0;
    assert(start + all.take(0) =~= start);
    while i < overlay.mounts.len()
        invariant
            i <= overlay.mounts@.len(),
            all == deep(overlay.mounts@).map_values(
                |mount: ContainerMountView|
                    mount_text(mount.source, mount.destination, mount.read_only),
            ),
            deep(mounts@) == start + all.take(i as int),
        decreases overlay.mounts@.len() - i,
    {
        let mount = &overlay.mounts[i];
        let text = mount_argument(
            mount.source.as_str(),
            mount.destination.as_str(),
            mount.read_only,
        );
        assert(deep(overlay.mounts@)[i as int] == mount.deep_view());
        assert(all[i as int] == text@);
        assert((start + all.take(i as int)).push(text@) =~= start + all.take(i + 1));
        mounts.push(text);
        i = i + 1;
    }
    assert(all.take(i as int) =~= all);
}

/// What a container of a build sees of the host.
pub fn package_unit_mounts(
    root: &str,
    target_dir: &str,
    host_home: &str,
    container_home: &str,
    env_mounts: &Vec<PlannedEnvMount>,
    overlay: &Option<ContainerOverlayPlan>,
) -> (mounts: Vec<String>)
    ensures
        deep(mounts@) == unit_mounts(
            root@,
            target_dir@,
            host_home@,
            container_home@,
            deep(env_mounts@),
            overlay.deep_view(),
        ),
{
    let mut mounts: Vec<String> = Vec::new();
    let mut workspace = root.to_owned();
    workspace.append(":/workspace");
    mounts.push(workspace);
    mounts.push(cache_argument(host_home, container_home, "git"));
    mounts.push(cache_argument(host_home, container_home, "registry"));
    assert(deep(mounts@) =~= seq![
        root@ + ":/workspace"@,
        cache_mount(host_home@, container_home@, "git"@),
        cache_mount(host_home@, container_home@, "registry"@),
    ]);
    add_env_mounts(&mut mounts, env_mounts);
    let ghost before = deep(mounts@);
    match overlay {
        Some(plan) => {
            add_overlay_mounts(&mut mounts, plan);
            let config = mount_argument(
                cargo_config_file(target_dir).as_str(),
                join_path(container_home, "config.toml").as_str(),
                true,
            );
            mounts.push(config);
            assert(deep(mounts@) =~= before + plan.deep_view().mounts.map_values(
                |mount: ContainerMountView|
                    mount_text(mount.source, mount.destination, mount.read_only),
            ).push(config@));
        },
        None => {
            assert(before + Seq::<Seq<char>>::empty() =~= before);
        },
    }
    mounts
}

/// The word that tells a container what to run, where a build names a script.
pub open spec fn script_words(script: Seq<char>) -> Seq<Seq<char>> {
    if script.len() == 0 {
        Seq::empty()
    } else {
        seq![script]
    }
}

/// The words of the Docker command that runs a build.
pub open spec fn docker_run_words(
    mounts: Seq<Seq<char>>,
    env: Seq<(Seq<char>, Seq<char>)>,
    image: Seq<char>,
    script: Seq<char>,
) -> Seq<Seq<char>> {
    seq!["run"@, "--rm"@] + mount_words(mounts) + env_words(env, env.len() as int) + seq![image]
        + script_words(script)
}

/// The words of the Docker command that runs a build.
pub fn docker_run_command(
    mounts: &Vec<String>,
    env: &TextMap<String, String>,
    image: &str,
    script: &str,
) -> (words: Vec<String>)
    ensures
        deep(words@) == docker_run_words(deep(mounts@), listing(env.deep_view()), image@, script@),
{
    let mut words: Vec<String> = Vec::new();
    words.push("run".to_owned());
    words.push("--rm".to_owned());
    let count: usize = env.len();
    let ghost listed = listing(env.deep_view());
    let ghost start = deep(words@);
    let ghost all = deep(mounts@);
    proof {
        lemma_listing(env.items());
        assert(start =~= seq!["run"@, "--rm"@]);
        assert(all.take(0) =~= Seq::empty());
        assert(start + mount_words(all.take(0)) =~= start);
    }
    let mut i: usize = 0;
    while i < mounts.len()
        invariant
            i <= mounts@.len(),
            all == deep(mounts@),
            deep(words@) == start + mount_words(all.take(i as int)),
        decreases mounts@.len() - i,
    {
        words.push("--volume".to_owned());
        words.push(mounts[i].clone());
        proof {
            assert(all[i as int] == mounts@[i as int]@);
            assert(all.take(i + 1).drop_last() =~= all.take(i as int));
            assert(deep(words@) =~= start + mount_words(all.take(i + 1)));
        }
        i = i + 1;
    }
    let ghost mounted = deep(words@);
    proof {
        assert(all.take(i as int) =~= all);
        assert(mounted + env_words(listed, 0) =~= mounted);
    }
    let mut k: usize = 0;
    while k < count
        invariant
            k <= count,
            is_listed(env.items(), listed),
            count == listed.len(),
            deep(words@) == mounted + env_words(listed, k as int),
        decreases count - k,
    {
        words.push("--env".to_owned());
        words.push(assignment_text(env.key_at(k).as_str(), env.value_at(k).as_str()));
        assert(deep(words@) =~= mounted + env_words(listed, k + 1));
        k = k + 1;
    }
    words.push(image.to_owned());
    if !script.is_empty() {
        words.push(script.to_owned());
    }
    assert(deep(words@) =~= docker_run_words(deep(mounts@), listing(env.deep_view()), image@, script@));
    words
}

/// The words of the Docker command that asks an image for its Cargo directory.
pub fn container_cargo_home_command(image: &str) -> (words: Vec<String>)
    ensures
        deep(words@) == seq![
            "run"@,
            "--rm"@,
            "--entrypoint"@,
            "/bin/sh"@,
            image@,
            "-lc"@,
            "printf %s \"${CARGO_HOME:-}\""@,
        ],
{
    let mut words: Vec<String> = Vec::new();
    words.push("run".to_owned());
    words.push("--rm".to_owned());
    words.push("--entrypoint".to_owned());
    words.push("/bin/sh".to_owned());
    words.push(image.to_owned());
    words.push("-lc".to_owned());
    words.push("printf %s \"${CARGO_HOME:-}\"".to_owned());
    assert(deep(words@) =~= seq![
        "run"@,
        "--rm"@,
        "--entrypoint"@,
        "/bin/sh"@,
        image@,
        "-lc"@,
        "printf %s \"${CARGO_HOME:-}\""@,
    ]);
    words
}

/// The Cargo directory of an image, from what the image answered.
pub fn container_cargo_home(image: &str, answer: &str) -> (home: Result<String, RunCurrentDirError>)
    ensures
        outcome(home) == (if trimmed_space(answer@).len() == 0 {
            Err(RunCurrentDirErrorView::MissingContainerCargoHome { image: image@ })
        } else {
            Ok(trimmed_space(answer@))
        }),
{
    let home = trim(answer);
    if home.as_str().is_empty() {
        return Err(RunCurrentDirError::MissingContainerCargoHome { image: image.to_owned() });
    }
    Ok(home)
}

/// The Cargo directory of the host: the stated one, or the one in the home directory.
pub open spec fn host_home(cargo_home: Option<Seq<char>>, home: Option<Seq<char>>) -> Result<
    Seq<char>,
    RunCurrentDirErrorView,
> {
    if cargo_home is Some && cargo_home->0.len() > 0 {
        Ok(cargo_home->0)
    } else if home is Some && home->0.len() > 0 {
        Ok(path_join(home->0, ".cargo"@))
    } else {
        Err(RunCurrentDirErrorView::MissingHostCargoHome)
    }
}

/// The Cargo directory of the host, from the variables `CARGO_HOME` and `HOME`.
pub fn host_cargo_home(cargo_home: Option<&str>, home: Option<&str>) -> (directory: Result<
    String,
    RunCurrentDirError,
>)
    ensures
        outcome(directory) == host_home(cargo_home.deep_view(), home.deep_view()),
{
    if let Some(directory) = cargo_home {
        if !directory.is_empty() {
            return Ok(directory.to_owned());
        }
    }
    match home {
        Some(home) => {
            if home.is_empty() {
                return Err(RunCurrentDirError::MissingHostCargoHome);
            }
            Ok(join_path(home, ".cargo"))
        },
        None => Err(RunCurrentDirError::MissingHostCargoHome),
    }
}

// ---------------------------------------------------------------------------
// Artifacts
// ---------------------------------------------------------------------------
/// The extension of the artifacts of a package system.
pub open spec fn artifact_suffix(system: PackageSystem) -> Seq<char> {
    match system {
        PackageSystem::Deb => "deb"@,
        PackageSystem::Rpm => "rpm"@,
        PackageSystem::Brew => "gz"@,
        PackageSystem::Scoop => "zip"@,
    }
}

/// The extension of the artifacts of a package system.
pub fn artifact_extension(system: PackageSystem) -> (name: &'static str)
    ensures
        name@ == artifact_suffix(system),
{
    match system {
        PackageSystem::Deb => "deb",
        PackageSystem::Rpm => "rpm",
        PackageSystem::Brew => "gz",
        PackageSystem::Scoop => "zip",
    }
}

/// A path that names an artifact of a package system.
pub open spec fn names_artifact(path: Seq<char>, system: PackageSystem) -> bool {
    path_extension(path) == Some(artifact_suffix(system))
}

/// Whether a path names an artifact of a package system.
pub fn is_artifact(path: &str, system: PackageSystem) -> (found: bool)
    ensures
        found == names_artifact(path@, system),
{
    match extension(path) {
        Some(suffix) => same_text(suffix.as_str(), artifact_extension(system)),
        None => false,
    }
}

/// The paths that name artifacts of a package system.
pub open spec fn artifact_paths(paths: Seq<Seq<char>>, system: PackageSystem) -> Seq<Seq<char>>
    decreases paths.len(),
{
    if paths.len() == 0 {
        Seq::empty()
    } else if names_artifact(paths.last(), system) {
        artifact_paths(paths.drop_last(), system).push(paths.last())
    } else {
        artifact_paths(paths.drop_last(), system)
    }
}

/// The one artifact among the paths of an output directory.
pub fn single_artifact(paths: &Vec<String>, system: PackageSystem, output_dir: &str) -> (artifact:
    Result<String, RunCurrentDirError>)
    ensures
        outcome(artifact) == ({
            let found = artifact_paths(deep(paths@), system);
            if found.len() == 0 {
                Err(RunCurrentDirErrorView::MissingArtifact { path: output_dir@ })
            } else if found.len() == 1 {
                Ok(found[0])
            } else {
                Err(RunCurrentDirErrorView::MultipleArtifacts { path: output_dir@ })
            }
        }),
{
    let ghost all = deep(paths@);
    let mut found: Vec<String> = Vec::new();
    let mut i: usize = 0;
    assert(all.take(0) =~= Seq::empty());
    while i < paths.len()
        invariant
            i <= paths@.len(),
            all == deep(paths@),
            deep(found@) == artifact_paths(all.take(i as int), system),
        decreases paths@.len() - i,
    {
        assert(all[i as int] == paths@[i as int]@);
        assert(all.take(i + 1).drop_last() =~= all.take(i as int));
        if is_artifact(paths[i].as_str(), system) {
            found.push(paths[i].clone());
        }
        i = i + 1;
    }
    assert(all.take(i as int) =~= all);
    assert(deep(found@).len() == found@.len());
    if found.len() == 0 {
        return Err(RunCurrentDirError::MissingArtifact { path: output_dir.to_owned() });
    }
    if found.len() > 1 {
        return Err(RunCurrentDirError::MultipleArtifacts { path: output_dir.to_owned() });
    }
    assert(deep(found@)[0] == found@[0]@);
    Ok(found[0].clone())
}

/// What the file of a Linux package tells about itself.
#[derive(Debug, PartialEq, Eq)]
pub struct PackageFileMetadata {
    pub package_name: Option<String>,
    pub package_version: Option<String>,
    pub architecture: Option<String>,
}

/// What a [`PackageFileMetadata`] holds.
pub struct PackageFileMetadataView {
    pub package_name: Option<Seq<char>>,
    pub package_version: Option<Seq<char>>,
    pub architecture: Option<Seq<char>>,
}

impl DeepView for PackageFileMetadata {
    type V = PackageFileMetadataView;

    open spec fn deep_view(&self) -> PackageFileMetadataView {
        PackageFileMetadataView {
            package_name: self.package_name.deep_view(),
            package_version: self.package_version.deep_view(),
            architecture: self.architecture.deep_view(),
        }
    }
}

impl Clone for PackageFileMetadata {
    fn clone(&self) -> (copy: Self)
        ensures
            copy.deep_view() == self.deep_view(),
    {
        let copy = PackageFileMetadata {
            package_name: self.package_name.clone(),
            package_version: self.package_version.clone(),
            architecture: self.architecture.clone(),
        };
        copy
    }
}

impl Default for PackageFileMetadata {
    fn default() -> (metadata: Self)
        ensures
            metadata.deep_view() == (PackageFileMetadataView {
                package_name: None,
                package_version: None,
                architecture: None,
            }),
    {
        PackageFileMetadata { package_name: None, package_version: None, architecture: None }
    }
}

/// What a Debian package tells about itself, from what `dpkg-deb --field` prints.
pub fn deb_metadata(output: &str) -> (metadata: PackageFileMetadata)
    ensures
        metadata.deep_view() == (PackageFileMetadataView {
            package_name: field_value(output@, "Package"@),
            package_version: field_value(output@, "Version"@),
            architecture: field_value(output@, "Architecture"@),
        }),
{
    PackageFileMetadata {
        package_name: stanza_field(output, "Package"),
        package_version: stanza_field(output, "Version"),
        architecture: stanza_field(output, "Architecture"),
    }
}

/// The line at `at`, where there is one.
pub open spec fn line_at(output: Seq<char>, at: int) -> Option<Seq<char>> {
    if at < text_lines(output).len() {
        Some(text_lines(output)[at])
    } else {
        None
    }
}

/// What an RPM package tells about itself: its name, its version and its architecture, a
/// line each.
pub fn rpm_metadata(output: &str) -> (metadata: PackageFileMetadata)
    ensures
        metadata.deep_view() == (PackageFileMetadataView {
            package_name: line_at(output@, 0),
            package_version: line_at(output@, 1),
            architecture: line_at(output@, 2),
        }),
{
    let all = lines(output);
    assert(deep(all@).len() == all@.len());
    let package_name = if all.len() > 0 {
        assert(deep(all@)[0] == all@[0]@);
        Some(all[0].clone())
    } else {
        None
    };
    let package_version = if all.len() > 1 {
        assert(deep(all@)[1] == all@[1]@);
        Some(all[1].clone())
    } else {
        None
    };
    let architecture = if all.len() > 2 {
        assert(deep(all@)[2] == all@[2]@);
        Some(all[2].clone())
    } else {
        None
    };
    PackageFileMetadata { package_name, package_version, architecture }
}

/// A program and its arguments.
#[derive(Debug, PartialEq, Eq)]
pub struct RpmMetadataCommand {
    pub program: String,
    pub args: Vec<String>,
}

/// What a [`RpmMetadataCommand`] holds.
pub struct RpmMetadataCommandView {
    pub program: Seq<char>,
    pub args: Seq<Seq<char>>,
}

impl DeepView for RpmMetadataCommand {
    type V = RpmMetadataCommandView;

    open spec fn deep_view(&self) -> RpmMetadataCommandView {
        RpmMetadataCommandView {
            program: self.program@,
            args: deep(self.args@),
        }
    }
}

impl Clone for RpmMetadataCommand {
    fn clone(&self) -> (copy: Self)
        ensures
            copy.deep_view() == self.deep_view(),
    {
        let copy = RpmMetadataCommand {
            program: self.program.clone(),
            args: self.args.clone(),
        };
        assert(deep(copy.args@) =~= deep(self.args@));
        copy
    }
}

/// The command that asks an RPM package about itself, in a container.
pub open spec fn rpm_query(path: Seq<char>) -> Result<RpmMetadataCommandView, RunCurrentDirErrorView> {
    match (path_parent(path), path_file_name(path)) {
        (None, _) => Err(RunCurrentDirErrorView::RpmMetadataParent { path }),
        (Some(_), None) => Err(RunCurrentDirErrorView::RpmMetadataFileName { path }),
        (Some(directory), Some(name)) => Ok(
            RpmMetadataCommandView {
                program: "docker"@,
                args: seq![
                    "run"@,
                    "--rm"@,
                    "--volume"@,
                    directory + ":/rpm:ro"@,
                    "fedora:40"@,
                    "rpm"@,
                    "-qp"@,
                    "--queryformat"@,
                    "%{NAME}\n%{VERSION}-%{RELEASE}\n%{ARCH}\n"@,
                    "/rpm/"@ + name,
                ],
            },
        ),
    }
}

/// The command that asks an RPM package about itself, in a container.
pub fn rpm_metadata_command(path: &str) -> (command: Result<RpmMetadataCommand, RunCurrentDirError>)
    ensures
        outcome(command) == rpm_query(path@),
{
    let directory = match parent(path) {
        Some(directory) => directory,
        None => {
            return Err(RunCurrentDirError::RpmMetadataParent { path: path.to_owned() });
        },
    };
    let name = match file_name(path) {
        Some(name) => name,
        None => {
            return Err(RunCurrentDirError::RpmMetadataFileName { path: path.to_owned() });
        },
    };
    let mut volume = directory;
    volume.append(":/rpm:ro");
    let mut file = "/rpm/".to_owned();
    file.append(name.as_str());
    let mut args: Vec<String> = Vec::new();
    args.push("run".to_owned());
    args.push("--rm".to_owned());
    args.push("--volume".to_owned());
    args.push(volume);
    args.push("fedora:40".to_owned());
    args.push("rpm".to_owned());
    args.push("-qp".to_owned());
    args.push("--queryformat".to_owned());
    args.push("%{NAME}\n%{VERSION}-%{RELEASE}\n%{ARCH}\n".to_owned());
    args.push(file);
    let command = RpmMetadataCommand { program: "docker".to_owned(), args };
    assert(command.deep_view().args =~= rpm_query(path@)->Ok_0.args);
    Ok(command)
}

/// The pieces that are not empty.
pub open spec fn filled_pieces(all: Seq<Seq<char>>) -> Seq<Seq<char>>
    decreases all.len(),
{
    if all.len() == 0 {
        Seq::empty()
    } else if all.last().len() == 0 {
        filled_pieces(all.drop_last())
    } else {
        filled_pieces(all.drop_last()).push(all.last())
    }
}

/// The features that the environment of a build names.
pub open spec fn env_features(env: Map<Seq<char>, Seq<char>>) -> Seq<Seq<char>> {
    if env.contains_key("XTASK_RELEASE_FEATURES"@) {
        filled_pieces(pieces(env["XTASK_RELEASE_FEATURES"@], ","@))
    } else {
        Seq::empty()
    }
}

fn features_of(env: &TextMap<String, String>) -> (features: Vec<String>)
    ensures
        deep(features@) == env_features(env.deep_view()),
{
    let mut features: Vec<String> = Vec::new();
    let text = match env.value("XTASK_RELEASE_FEATURES") {
        Some(text) => text,
        None => {
            return features;
        },
    };
    proof {
        reveal_strlit(",");
    }
    let parts = split(text.as_str(), ",");
    let ghost all = deep(parts@);
    let mut i: usize = 0;
    assert(all.take(0) =~= Seq::empty());
    while i < parts.len()
        invariant
            i <= parts@.len(),
            all == deep(parts@),
            deep(features@) == filled_pieces(all.take(i as int)),
        decreases parts@.len() - i,
    {
        assert(all[i as int] == parts@[i as int]@);
        assert(all.take(i + 1).drop_last() =~= all.take(i as int));
        if !parts[i].as_str().is_empty() {
            features.push(parts[i].clone());
        }
        i = i + 1;
    }
    assert(all.take(i as int) =~= all);
    features
}

/// The artifact of a build, from its file.
pub open spec fn unit_artifact(
    unit: PlannedPackageBuildView,
    target_dir: Seq<char>,
    path: Seq<char>,
    metadata: PackageFileMetadataView,
    size: u64,
    sha256: Seq<char>,
) -> Result<PackageArtifactView, RunCurrentDirErrorView> {
    match path_below(path, target_dir) {
        None => Err(RunCurrentDirErrorView::ArtifactTargetRelative { path }),
        Some(relative) => Ok(
            PackageArtifactView {
                target: target_name(unit.target),
                path: relative,
                sha256,
                size,
                package_name: metadata.package_name,
                package_version: metadata.package_version,
                architecture: metadata.architecture,
                archive_name: path_file_name(path),
                features: env_features(unit.invocation.env),
                profile: if unit.invocation.env.contains_key("XTASK_RELEASE_PROFILE"@) {
                    Some(unit.invocation.env["XTASK_RELEASE_PROFILE"@])
                } else {
                    None
                },
            },
        ),
    }
}

/// The artifact of a build, from its file: `metadata` is what the file tells about itself,
/// `size` and `sha256` describe its content.
pub fn artifact_from_path(
    unit: &PlannedPackageBuild,
    target_dir: &str,
    path: &str,
    metadata: PackageFileMetadata,
    size: u64,
    sha256: String,
) -> (artifact: Result<PackageArtifact, RunCurrentDirError>)
    ensures
        outcome(artifact) == unit_artifact(
            unit.deep_view(),
            target_dir@,
            path@,
            metadata.deep_view(),
            size,
            sha256@,
        ),
{
    let relative = match below(path, target_dir) {
        Some(relative) => relative,
        None => {
            return Err(RunCurrentDirError::ArtifactTargetRelative { path: path.to_owned() });
        },
    };
    let profile = match unit.invocation.env.value("XTASK_RELEASE_PROFILE") {
        Some(profile) => Some(profile.clone()),
        None => None,
    };
    Ok(
        PackageArtifact {
            target: target_value(&unit.target),
            path: relative,
            sha256,
            size,
            package_name: metadata.package_name,
            package_version: metadata.package_version,
            architecture: metadata.architecture,
            archive_name: file_name(path),
            features: features_of(&unit.invocation.env),
            profile,
        },
    )
}

// ---------------------------------------------------------------------------
// Manifests
// ---------------------------------------------------------------------------
/// The order of optional texts: none comes before every text.
pub open spec fn optional_lt(left: Option<Seq<char>>, right: Option<Seq<char>>) -> bool {
    match (left, right) {
        (None, Some(_)) => true,
        (Some(left), Some(right)) => text_lt(left, right),
        _ => false,
    }
}

/// By target, and for one target by package, one artifact comes before the other.
pub open spec fn artifact_before(left: PackageArtifactView, right: PackageArtifactView) -> bool {
    text_lt(left.target, right.target) || (left.target == right.target && optional_lt(
        left.package_name,
        right.package_name,
    ))
}

/// How many of the first `count` ordered artifacts come no later than `item`.
pub open spec fn artifact_place(
    ordered: Seq<PackageArtifactView>,
    item: PackageArtifactView,
    count: int,
) -> int
    decreases count,
{
    if count <= 0 {
        0
    } else if artifact_before(item, ordered[count - 1]) {
        artifact_place(ordered, item, count - 1)
    } else {
        count
    }
}

/// The artifacts in the order of target and package; those that are equal in both keep
/// their order.
pub open spec fn ordered_artifacts(artifacts: Seq<PackageArtifactView>) -> Seq<PackageArtifactView>
    decreases artifacts.len(),
{
    if artifacts.len() == 0 {
        Seq::empty()
    } else {
        let ordered = ordered_artifacts(artifacts.drop_last());
        ordered.insert(
            artifact_place(ordered, artifacts.last(), ordered.len() as int),
            artifacts.last(),
        )
    }
}

fn optional_less(left: &Option<String>, right: &Option<String>) -> (less: bool)
    ensures
        less == optional_lt(left.deep_view(), right.deep_view()),
{
    match (left, right) {
        (None, Some(_)) => true,
        (Some(left), Some(right)) => less_text(left.as_str(), right.as_str()),
        _ => false,
    }
}

fn artifact_less(left: &PackageArtifact, right: &PackageArtifact) -> (less: bool)
    ensures
        less == artifact_before(left.deep_view(), right.deep_view()),
{
    if less_text(left.target.as_str(), right.target.as_str()) {
        return true;
    }
    same_text(left.target.as_str(), right.target.as_str()) && optional_less(
        &left.package_name,
        &right.package_name,
    )
}

fn order_artifacts(artifacts: &Vec<PackageArtifact>) -> (ordered: Vec<PackageArtifact>)
    ensures
        deep(ordered@) == ordered_artifacts(deep(artifacts@)),
{
    let ghost all = deep(artifacts@);
    let mut ordered: Vec<PackageArtifact> = Vec::new();
    let mut i: usize = 0;
    assert(all.take(0) =~= Seq::empty());
    while i < artifacts.len()
        invariant
            i <= artifacts@.len(),
            all == deep(artifacts@),
            deep(ordered@) == ordered_artifacts(all.take(i as int)),
        decreases artifacts@.len() - i,
    {
        let ghost before = deep(ordered@);
        let ghost item = all[i as int];
        let mut place: usize = ordered.len();
        while place > 0 && artifact_less(&artifacts[i], &ordered[place - 1])
            invariant
                place <= ordered@.len(),
                i < artifacts@.len(),
                all == deep(artifacts@),
                item == all[i as int],
                before == deep(ordered@),
                artifact_place(before, item, before.len() as int) == artifact_place(
                    before,
                    item,
                    place as int,
                ),
            decreases place,
        {
            assert(before[place - 1] == ordered@[place - 1].deep_view());
            place = place - 1;
        }
        proof {
            if place > 0 {
                assert(before[place - 1] == ordered@[place - 1].deep_view());
            }
        }
        let artifact = artifacts[i].clone();
        ordered.insert(place, artifact);
        proof {
            assert(all.take(i + 1).drop_last() =~= all.take(i as int));
            assert(all.take(i + 1).last() == item);
            assert(deep(ordered@) =~= before.insert(place as int, item));
        }
        i = i + 1;
    }
    assert(all.take(i as int) =~= all);
    ordered
}

/// The first package, from `from` on, that names a Cargo manifest.
pub open spec fn first_cargo_package(packages: Seq<(PackageId, PackageContract)>, from: int) -> Option<
    Seq<char>,
>
    decreases packages.len() - from,
{
    if from < 0 || from >= packages.len() {
        None
    } else if packages[from].1.manifest is Some {
        Some(packages[from].0.deep_view())
    } else {
        first_cargo_package(packages, from + 1)
    }
}

/// The package under which manifests are written: the first one that names a Cargo
/// manifest, or else the first one.
pub open spec fn manifest_package_of(packages: Seq<(PackageId, PackageContract)>) -> Result<
    Seq<char>,
    RunCurrentDirErrorView,
> {
    match first_cargo_package(packages, 0) {
        Some(package) => Ok(package),
        None => if packages.len() > 0 {
            Ok(packages[0].0.deep_view())
        } else {
            Err(RunCurrentDirErrorView::EmptyContract)
        },
    }
}

/// The package under which manifests are written.
pub fn primary_manifest_package(contract: &ReleaseContract) -> (package: Result<
    PackageId,
    RunCurrentDirError,
>)
    ensures
        outcome(package) == manifest_package_of(contract.package.items()),
{
    let mut i: usize = 0;
    while i < contract.package.len()
        invariant
            i <= contract.package.items().len(),
            first_cargo_package(contract.package.items(), 0) == first_cargo_package(
                contract.package.items(),
                i as int,
            ),
        decreases contract.package.items().len() - i,
    {
        if contract.package.value_at(i).manifest.is_some() {
            return Ok(contract.package.key_at(i).clone());
        }
        i = i + 1;
    }
    if contract.package.len() == 0 {
        return Err(RunCurrentDirError::EmptyContract);
    }
    Ok(contract.package.key_at(0).clone())
}

/// The manifest of a package system.
pub open spec fn system_manifest(
    contract: ReleaseContract,
    contract_root: Seq<char>,
    cargo: Map<Seq<char>, CargoMetadataView>,
    system: PackageSystem,
    artifacts: Seq<PackageArtifactView>,
    generated_at: Seq<char>,
) -> Result<PackageManifestView, RunCurrentDirErrorView> {
    match manifest_package_of(contract.package.items()) {
        Err(error) => Err(error),
        Ok(package) => match metadata_of(contract, package, contract_root, cargo) {
            Err(source) => Err(RunCurrentDirErrorView::ResolveMetadata { source, package }),
            Ok(metadata) => Ok(
                PackageManifestView {
                    schema_version: 1,
                    kind: system,
                    package,
                    version: metadata.source_version.text(),
                    generated_at,
                    git_commit: None,
                    git_dirty: false,
                    artifacts: ordered_artifacts(artifacts),
                },
            ),
        },
    }
}

/// The manifest of a package system, with the artifacts in order.
pub fn package_manifest(
    contract: &ReleaseContract,
    contract_root: &str,
    cargo: &TextMap<String, CargoMetadata>,
    system: PackageSystem,
    artifacts: &Vec<PackageArtifact>,
    generated_at: String,
) -> (manifest: Result<PackageManifest, RunCurrentDirError>)
    ensures
        outcome(manifest) == system_manifest(
            *contract,
            contract_root@,
            cargo.deep_view(),
            system,
            deep(artifacts@),
            generated_at@,
        ),
{
    let ordered = order_artifacts(artifacts);
    let package_id = match primary_manifest_package(contract) {
        Ok(package_id) => package_id,
        Err(error) => {
            return Err(error);
        },
    };
    let metadata = match resolve_metadata(contract, package_id.as_str(), contract_root, cargo) {
        Ok(metadata) => metadata,
        Err(source) => {
            return Err(RunCurrentDirError::ResolveMetadata { source, package: package_id });
        },
    };
    Ok(
        PackageManifest {
            schema_version: 1,
            kind: system,
            package: package_id.as_str().to_owned(),
            version: metadata.source_version.to_string(),
            generated_at,
            git_commit: None,
            git_dirty: false,
            artifacts: ordered,
        },
    )
}

/// An artifact, and the package system that it was built for.
#[derive(Debug, PartialEq, Eq)]
pub struct BuiltArtifact {
    pub system: PackageSystem,
    pub artifact: PackageArtifact,
}

/// What a [`BuiltArtifact`] holds.
pub struct BuiltArtifactView {
    pub system: PackageSystem,
    pub artifact: PackageArtifactView,
}

impl DeepView for BuiltArtifact {
    type V = BuiltArtifactView;

    open spec fn deep_view(&self) -> BuiltArtifactView {
        BuiltArtifactView {
            system: self.system,
            artifact: self.artifact.deep_view(),
        }
    }
}

impl Clone for BuiltArtifact {
    fn clone(&self) -> (copy: Self)
        ensures
            copy.deep_view() == self.deep_view(),
    {
        let copy = BuiltArtifact {
            system: self.system,
            artifact: self.artifact.clone(),
        };
        copy
    }
}

/// The artifacts of a package system.
#[derive(Debug, PartialEq, Eq)]
pub struct SystemArtifacts {
    pub system: PackageSystem,
    pub artifacts: Vec<PackageArtifact>,
}

/// What a [`SystemArtifacts`] holds.
pub struct SystemArtifactsView {
    pub system: PackageSystem,
    pub artifacts: Seq<PackageArtifactView>,
}

impl DeepView for SystemArtifacts {
    type V = SystemArtifactsView;

    open spec fn deep_view(&self) -> SystemArtifactsView {
        SystemArtifactsView {
            system: self.system,
            artifacts: deep(self.artifacts@),
        }
    }
}

impl Clone for SystemArtifacts {
    fn clone(&self) -> (copy: Self)
        ensures
            copy.deep_view() == self.deep_view(),
    {
        let copy = SystemArtifacts {
            system: self.system,
            artifacts: self.artifacts.clone(),
        };
        assert(deep(copy.artifacts@) =~= deep(self.artifacts@));
        copy
    }
}

/// Those artifacts that were built for a package system, in the order in which they were
/// built.
pub open spec fn artifacts_for(built: Seq<BuiltArtifactView>, system: PackageSystem) -> Seq<
    PackageArtifactView,
>
    decreases built.len(),
{
    if built.len() == 0 {
        Seq::empty()
    } else if built.last().system == system {
        artifacts_for(built.drop_last(), system).push(built.last().artifact)
    } else {
        artifacts_for(built.drop_last(), system)
    }
}

/// The package systems in their order.
pub open spec fn all_systems() -> Seq<PackageSystem> {
    seq![PackageSystem::Deb, PackageSystem::Rpm, PackageSystem::Brew, PackageSystem::Scoop]
}

/// The artifacts of the first `count` package systems, without those that none was built
/// for.
pub open spec fn grouped_artifacts(built: Seq<BuiltArtifactView>, count: int) -> Seq<
    SystemArtifactsView,
>
    decreases count,
{
    if count <= 0 {
        Seq::empty()
    } else {
        let system = all_systems()[count - 1];
        let artifacts = artifacts_for(built, system);
        if artifacts.len() == 0 {
            grouped_artifacts(built, count - 1)
        } else {
            grouped_artifacts(built, count - 1).push(SystemArtifactsView { system, artifacts })
        }
    }
}

fn artifacts_built_for(built: &Vec<BuiltArtifact>, system: PackageSystem) -> (artifacts: Vec<
    PackageArtifact,
>)
    ensures
        deep(artifacts@) == artifacts_for(deep(built@), system),
{
    let ghost all = deep(built@);
    let mut artifacts: Vec<PackageArtifact> = Vec::new();
    let mut i: usize = 0;
    assert(all.take(0) =~= Seq::empty());
    while i < built.len()
        invariant
            i <= built@.len(),
            all == deep(built@),
            deep(artifacts@) == artifacts_for(all.take(i as int), system),
        decreases built@.len() - i,
    {
        proof {
            assert(all.take(i + 1).drop_last() =~= all.take(i as int));
            assert(all.take(i + 1).last() == built@[i as int].deep_view());
        }
        if built[i].system == system {
            artifacts.push(built[i].artifact.clone());
        }
        i = i + 1;
    }
    assert(all.take(i as int) =~= all);
    artifacts
}

fn add_group(groups: &mut Vec<SystemArtifacts>, built: &Vec<BuiltArtifact>, system: PackageSystem)
    ensures
        deep(final(groups)@) == (if artifacts_for(deep(built@), system).len() == 0 {
            deep(old(groups)@)
        } else {
            deep(old(groups)@).push(
                SystemArtifactsView { system, artifacts: artifacts_for(deep(built@), system) },
            )
        }),
{
    let artifacts = artifacts_built_for(built, system);
    if artifacts.len() > 0 {
        groups.push(SystemArtifacts { system, artifacts });
    }
}

/// The artifacts of a package command by their package system.
pub fn artifacts_by_system(built: &Vec<BuiltArtifact>) -> (groups: Vec<SystemArtifacts>)
    ensures
        deep(groups@) == grouped_artifacts(deep(built@), 4),
{
    proof {
        reveal_with_fuel(grouped_artifacts, 5);
    }
    let mut groups: Vec<SystemArtifacts> = Vec::new();
    add_group(&mut groups, built, PackageSystem::Deb);
    add_group(&mut groups, built, PackageSystem::Rpm);
    add_group(&mut groups, built, PackageSystem::Brew);
    add_group(&mut groups, built, PackageSystem::Scoop);
    groups
}

} // verus!
