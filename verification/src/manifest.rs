//! Package manifests: what a build produced for a package system.

use vstd::prelude::*;

use crate::cli::{
    PackageBuildRequest, PackageBuildRequestView, PackageCommandRequest, S3PublishCommandRequest,
};
use crate::contract::{branch_of, package_of, PackageBranchRef, PackageContract, ReleaseContract};
use crate::digest::{hex, sha256, sha256_hex};
use crate::model::{deep, fault_of, first_fault, outcome, outcomes};
use crate::package::{PackageVersionError, PackageVersionErrorView};
use crate::path::{
    absolute, debug_path, debug_path_text, has_parent_component, is_absolute, join_path,
    leads_upward, path_join,
};
use crate::plan::{
    select_build_branches, selected_branches, target_name, target_value, BuildSelectionRequest,
    SelectBuildError, SelectBuildErrorView, SelectedBuildBranch, SelectedBuildBranchView,
};
use crate::requirements::{branch_version, package_version_for_branch};
use crate::system::{
    is_linux_system, system_name, PackageSystem, RequestedTarget, RequestedTargetView,
};
use crate::text::{decimal, decimal_text, same_text};
use crate::textmap::{members, sorted, TextSet};
use crate::version::{parsed_version, SourceVersion};

verus! {

broadcast use crate::model::group_deep;

/// What a package command produced for one package system.
#[derive(Debug, PartialEq, Eq)]
pub struct PackageManifest {
    pub schema_version: u32,
    pub kind: PackageSystem,
    pub package: String,
    pub version: String,
    pub generated_at: String,
    pub git_commit: Option<String>,
    pub git_dirty: bool,
    pub artifacts: Vec<PackageArtifact>,
}

/// What a [`PackageManifest`] holds.
pub struct PackageManifestView {
    pub schema_version: u32,
    pub kind: PackageSystem,
    pub package: Seq<char>,
    pub version: Seq<char>,
    pub generated_at: Seq<char>,
    pub git_commit: Option<Seq<char>>,
    pub git_dirty: bool,
    pub artifacts: Seq<PackageArtifactView>,
}

impl DeepView for PackageManifest {
    type V = PackageManifestView;

    open spec fn deep_view(&self) -> PackageManifestView {
        PackageManifestView {
            schema_version: self.schema_version,
            kind: self.kind,
            package: self.package@,
            version: self.version@,
            generated_at: self.generated_at@,
            git_commit: self.git_commit.deep_view(),
            git_dirty: self.git_dirty,
            artifacts: deep(self.artifacts@),
        }
    }
}

impl Clone for PackageManifest {
    fn clone(&self) -> (copy: Self)
        ensures
            copy.deep_view() == self.deep_view(),
    {
        let copy = PackageManifest {
            schema_version: self.schema_version,
            kind: self.kind,
            package: self.package.clone(),
            version: self.version.clone(),
            generated_at: self.generated_at.clone(),
            git_commit: self.git_commit.clone(),
            git_dirty: self.git_dirty,
            artifacts: self.artifacts.clone(),
        };
        assert(deep(copy.artifacts@) =~= deep(self.artifacts@));
        copy
    }
}

/// One file that a build produced.
#[derive(Debug, PartialEq, Eq)]
pub struct PackageArtifact {
    pub target: String,
    /// The path of the file below the target directory.
    pub path: String,
    pub sha256: String,
    pub size: u64,
    pub package_name: Option<String>,
    pub package_version: Option<String>,
    pub architecture: Option<String>,
    pub archive_name: Option<String>,
    pub features: Vec<String>,
    pub profile: Option<String>,
}

/// What a [`PackageArtifact`] holds.
pub struct PackageArtifactView {
    pub target: Seq<char>,
    pub path: Seq<char>,
    pub sha256: Seq<char>,
    pub size: u64,
    pub package_name: Option<Seq<char>>,
    pub package_version: Option<Seq<char>>,
    pub architecture: Option<Seq<char>>,
    pub archive_name: Option<Seq<char>>,
    pub features: Seq<Seq<char>>,
    pub profile: Option<Seq<char>>,
}

impl DeepView for PackageArtifact {
    type V = PackageArtifactView;

    open spec fn deep_view(&self) -> PackageArtifactView {
        PackageArtifactView {
            target: self.target@,
            path: self.path@,
            sha256: self.sha256@,
            size: self.size,
            package_name: self.package_name.deep_view(),
            package_version: self.package_version.deep_view(),
            architecture: self.architecture.deep_view(),
            archive_name: self.archive_name.deep_view(),
            features: deep(self.features@),
            profile: self.profile.deep_view(),
        }
    }
}

impl Clone for PackageArtifact {
    fn clone(&self) -> (copy: Self)
        ensures
            copy.deep_view() == self.deep_view(),
    {
        let copy = PackageArtifact {
            target: self.target.clone(),
            path: self.path.clone(),
            sha256: self.sha256.clone(),
            size: self.size,
            package_name: self.package_name.clone(),
            package_version: self.package_version.clone(),
            architecture: self.architecture.clone(),
            archive_name: self.archive_name.clone(),
            features: self.features.clone(),
            profile: self.profile.clone(),
        };
        assert(deep(copy.features@) =~= deep(self.features@));
        copy
    }
}

/// The path of the manifest of a package system below the target directory.
pub open spec fn manifest_file(target_dir: Seq<char>, system: PackageSystem) -> Seq<char> {
    path_join(
        path_join(path_join(target_dir, "common"@), system_name(system)),
        "manifest.toml"@,
    )
}

/// The path of the manifest of a package system below the target directory.
pub fn manifest_path(target_dir: &str, system: PackageSystem) -> (path: String)
    ensures
        path@ == manifest_file(target_dir@, system),
{
    let common = join_path(target_dir, "common");
    let directory = join_path(common.as_str(), system.as_str());
    join_path(directory.as_str(), "manifest.toml")
}

// ---------------------------------------------------------------------------
// Manifests by themselves
// ---------------------------------------------------------------------------
/// What is wrong with a manifest by itself.
#[derive(Debug, PartialEq, Eq)]
pub enum ValidateManifestError {
    /// Reported as `artifact path must be target-relative`.
    AbsolutePath,
    /// Reported as `artifact path must not contain parent components`.
    ParentComponent,
    /// Reported as `linux package artifact must include package name`.
    MissingPackageName,
    /// Reported as `linux package artifact must include package version`.
    MissingPackageVersion,
    /// Reported as `linux package artifact must include architecture`.
    MissingArchitecture,
    /// Reported as `package artifact must include archive name`.
    MissingArchiveName,
    /// Reported as `duplicate package artifact for {package} {architecture}`.
    DuplicatePackageArchitecture { package: String, architecture: String },
}

/// What a [`ValidateManifestError`] holds.
pub enum ValidateManifestErrorView {
    AbsolutePath,
    ParentComponent,
    MissingPackageName,
    MissingPackageVersion,
    MissingArchitecture,
    MissingArchiveName,
    DuplicatePackageArchitecture { package: Seq<char>, architecture: Seq<char> },
}

impl DeepView for ValidateManifestError {
    type V = ValidateManifestErrorView;

    open spec fn deep_view(&self) -> ValidateManifestErrorView {
        match self {
            ValidateManifestError::AbsolutePath => ValidateManifestErrorView::AbsolutePath,
            ValidateManifestError::ParentComponent => ValidateManifestErrorView::ParentComponent,
            ValidateManifestError::MissingPackageName => ValidateManifestErrorView::MissingPackageName,
            ValidateManifestError::MissingPackageVersion => ValidateManifestErrorView::MissingPackageVersion,
            ValidateManifestError::MissingArchitecture => ValidateManifestErrorView::MissingArchitecture,
            ValidateManifestError::MissingArchiveName => ValidateManifestErrorView::MissingArchiveName,
            ValidateManifestError::DuplicatePackageArchitecture { package, architecture } => ValidateManifestErrorView::DuplicatePackageArchitecture {
                package: package@,
                architecture: architecture@,
            },
        }
    }
}

impl ValidateManifestErrorView {
    /// The message of the error.
    pub open spec fn message(self) -> Seq<char> {
        match self {
            ValidateManifestErrorView::AbsolutePath => "artifact path must be target-relative"@,
            ValidateManifestErrorView::ParentComponent => "artifact path must not contain parent components"@,
            ValidateManifestErrorView::MissingPackageName => "linux package artifact must include package name"@,
            ValidateManifestErrorView::MissingPackageVersion => "linux package artifact must include package version"@,
            ValidateManifestErrorView::MissingArchitecture => "linux package artifact must include architecture"@,
            ValidateManifestErrorView::MissingArchiveName => "package artifact must include archive name"@,
            ValidateManifestErrorView::DuplicatePackageArchitecture { package, architecture } => "duplicate package artifact for "@ + package + " "@ + architecture,
        }
    }
}

impl ValidateManifestError {
    /// The message of the error.
    pub fn to_string(&self) -> (text: String)
        ensures
            text@ == self.deep_view().message(),
    {
        match self {
            ValidateManifestError::AbsolutePath => "artifact path must be target-relative".to_owned(),
            ValidateManifestError::ParentComponent => "artifact path must not contain parent components".to_owned(),
            ValidateManifestError::MissingPackageName => "linux package artifact must include package name".to_owned(),
            ValidateManifestError::MissingPackageVersion => "linux package artifact must include package version".to_owned(),
            ValidateManifestError::MissingArchitecture => "linux package artifact must include architecture".to_owned(),
            ValidateManifestError::MissingArchiveName => "package artifact must include archive name".to_owned(),
            ValidateManifestError::DuplicatePackageArchitecture { package, architecture } => {
                let mut text = "duplicate package artifact for ".to_owned();
                text.append(package.as_str());
                text.append(" ");
                text.append(architecture.as_str());
                text
            },
        }
    }
}

/// An artifact lies below the target directory.
pub open spec fn artifact_path_fault(path: Seq<char>) -> Option<ValidateManifestErrorView> {
    if absolute(path) {
        Some(ValidateManifestErrorView::AbsolutePath)
    } else if leads_upward(path) {
        Some(ValidateManifestErrorView::ParentComponent)
    } else {
        None
    }
}

/// Two artifacts are for one package and architecture.
pub open spec fn same_package(artifact: PackageArtifactView, other: PackageArtifactView) -> bool {
    artifact.package_name == other.package_name && artifact.architecture == other.architecture
}

/// An artifact of a Linux manifest tells its package, version and architecture, and no
/// earlier one is for the same package and architecture.
pub open spec fn linux_artifact_fault(artifacts: Seq<PackageArtifactView>, at: int) -> Option<
    ValidateManifestErrorView,
> {
    let artifact = artifacts[at];
    if artifact.package_name is None {
        Some(ValidateManifestErrorView::MissingPackageName)
    } else if artifact.package_version is None {
        Some(ValidateManifestErrorView::MissingPackageVersion)
    } else if artifact.architecture is None {
        Some(ValidateManifestErrorView::MissingArchitecture)
    } else if exists|i: int| 0 <= i < at && same_package(#[trigger] artifacts[i], artifact) {
        Some(
            ValidateManifestErrorView::DuplicatePackageArchitecture {
                package: artifact.package_name->0,
                architecture: artifact.architecture->0,
            },
        )
    } else {
        None
    }
}

/// The fault of one artifact of a manifest.
pub open spec fn artifact_fault(
    kind: PackageSystem,
    artifacts: Seq<PackageArtifactView>,
    at: int,
) -> Option<ValidateManifestErrorView> {
    first_fault(
        artifact_path_fault(artifacts[at].path),
        if is_linux_system(kind) {
            linux_artifact_fault(artifacts, at)
        } else if artifacts[at].archive_name is None {
            Some(ValidateManifestErrorView::MissingArchiveName)
        } else {
            None
        },
    )
}

/// The first fault of the artifacts from `from` on.
pub open spec fn artifacts_fault(
    kind: PackageSystem,
    artifacts: Seq<PackageArtifactView>,
    from: int,
) -> Option<ValidateManifestErrorView>
    decreases artifacts.len() - from,
{
    if from < 0 || from >= artifacts.len() {
        None
    } else {
        first_fault(artifact_fault(kind, artifacts, from), artifacts_fault(kind, artifacts, from + 1))
    }
}

/// The first fault of a manifest by itself.
pub open spec fn manifest_fault(manifest: PackageManifestView) -> Option<ValidateManifestErrorView> {
    artifacts_fault(manifest.kind, manifest.artifacts, 0)
}

fn validate_target_relative_path(path: &str) -> (checked: Result<(), ValidateManifestError>)
    ensures
        fault_of(checked) == artifact_path_fault(path@),
{
    if is_absolute(path) {
        return Err(ValidateManifestError::AbsolutePath);
    }
    if has_parent_component(path) {
        return Err(ValidateManifestError::ParentComponent);
    }
    Ok(())
}

fn same_optional_text(text: &Option<String>, other: &Option<String>) -> (same: bool)
    ensures
        same == (text.deep_view() == other.deep_view()),
{
    match (text, other) {
        (Some(text), Some(other)) => same_text(text.as_str(), other.as_str()),
        (None, None) => true,
        _ => false,
    }
}

fn validate_linux_artifact(artifacts: &Vec<PackageArtifact>, at: usize) -> (checked: Result<
    (),
    ValidateManifestError,
>)
    requires
        at < artifacts@.len(),
    ensures
        fault_of(checked) == linux_artifact_fault(deep(artifacts@), at as int),
{
    let artifact = &artifacts[at];
    assert(deep(artifacts@)[at as int] == artifact.deep_view());
    let package = match &artifact.package_name {
        Some(package) => package,
        None => {
            return Err(ValidateManifestError::MissingPackageName);
        },
    };
    if artifact.package_version.is_none() {
        return Err(ValidateManifestError::MissingPackageVersion);
    }
    let architecture = match &artifact.architecture {
        Some(architecture) => architecture,
        None => {
            return Err(ValidateManifestError::MissingArchitecture);
        },
    };
    let mut i: usize = 0;
    while i < at
        invariant
            i <= at < artifacts@.len(),
            deep(artifacts@)[at as int] == artifact.deep_view(),
            artifact.package_name == Some(*package),
            artifact.package_version is Some,
            artifact.architecture == Some(*architecture),
            forall|j: int|
                0 <= j < i ==> !same_package(
                    #[trigger] deep(artifacts@)[j],
                    deep(artifacts@)[at as int],
                ),
        decreases at - i,
    {
        assert(deep(artifacts@)[i as int] == artifacts@[i as int].deep_view());
        if same_optional_text(&artifacts[i].package_name, &artifact.package_name)
            && same_optional_text(&artifacts[i].architecture, &artifact.architecture) {
            assert(same_package(deep(artifacts@)[i as int], deep(artifacts@)[at as int]));
            return Err(
                ValidateManifestError::DuplicatePackageArchitecture {
                    package: package.clone(),
                    architecture: architecture.clone(),
                },
            );
        }
        i = i + 1;
    }
    Ok(())
}

fn validate_artifact(kind: PackageSystem, artifacts: &Vec<PackageArtifact>, at: usize) -> (checked:
    Result<(), ValidateManifestError>)
    requires
        at < artifacts@.len(),
    ensures
        fault_of(checked) == artifact_fault(kind, deep(artifacts@), at as int),
{
    assert(deep(artifacts@)[at as int] == artifacts@[at as int].deep_view());
    if let Err(error) = validate_target_relative_path(artifacts[at].path.as_str()) {
        return Err(error);
    }
    if kind.is_linux() {
        return validate_linux_artifact(artifacts, at);
    }
    if artifacts[at].archive_name.is_none() {
        return Err(ValidateManifestError::MissingArchiveName);
    }
    Ok(())
}

/// Checks a manifest by itself.
pub fn validate_manifest(manifest: &PackageManifest) -> (checked: Result<(), ValidateManifestError>)
    ensures
        fault_of(checked) == manifest_fault(manifest.deep_view()),
{
    let mut i: usize = 0;
    while i < manifest.artifacts.len()
        invariant
            i <= manifest.artifacts@.len(),
            manifest_fault(manifest.deep_view()) == artifacts_fault(
                manifest.kind,
                deep(manifest.artifacts@),
                i as int,
            ),
        decreases manifest.artifacts@.len() - i,
    {
        if let Err(error) = validate_artifact(manifest.kind, &manifest.artifacts, i) {
            return Err(error);
        }
        i = i + 1;
    }
    Ok(())
}

// ---------------------------------------------------------------------------
// Manifests against the contract
// ---------------------------------------------------------------------------
/// How a manifest contradicts the contract.
#[allow(inconsistent_fields)]
#[derive(Debug, PartialEq, Eq)]
pub enum ValidateManifestAgainstContractError {
    /// Reported as `invalid package manifest`.
    Manifest { source: ValidateManifestError },
    /// Reported as `package {package} does not exist`.
    MissingPackage { package: String },
    /// Reported as `package {package} does not define {system} branch`.
    MissingBranch { package: String, system: PackageSystem },
    /// Reported as `linux package artifact is missing package name`.
    MissingArtifactPackageName,
    /// Reported as `linux package artifact {package} does not exist`.
    MissingArtifactPackage { package: String },
    /// Reported as `linux package artifact {package} does not define {system} branch`.
    MissingArtifactBranch { package: String, system: PackageSystem },
    /// Reported as `linux package artifact {package} is missing package version`.
    MissingArtifactPackageVersion { package: String },
    /// Reported as `package {package} has invalid source version {version}`.
    InvalidPackageSourceVersion { package: String, version: String },
    /// Reported as `package {package} {system} branch has invalid package version`.
    InvalidExpectedPackageVersion { source: PackageVersionError, package: String, system: PackageSystem },
    /// Reported as `linux package artifact {package} {system} version {actual} does not match expected {expected}`.
    PackageVersionMismatch { package: String, system: PackageSystem, actual: String, expected: String },
}

/// What a [`ValidateManifestAgainstContractError`] holds.
#[allow(inconsistent_fields)]
pub enum ValidateManifestAgainstContractErrorView {
    Manifest { source: ValidateManifestErrorView },
    MissingPackage { package: Seq<char> },
    MissingBranch { package: Seq<char>, system: PackageSystem },
    MissingArtifactPackageName,
    MissingArtifactPackage { package: Seq<char> },
    MissingArtifactBranch { package: Seq<char>, system: PackageSystem },
    MissingArtifactPackageVersion { package: Seq<char> },
    InvalidPackageSourceVersion { package: Seq<char>, version: Seq<char> },
    InvalidExpectedPackageVersion { source: PackageVersionErrorView, package: Seq<char>, system: PackageSystem },
    PackageVersionMismatch { package: Seq<char>, system: PackageSystem, actual: Seq<char>, expected: Seq<char> },
}

impl DeepView for ValidateManifestAgainstContractError {
    type V = ValidateManifestAgainstContractErrorView;

    open spec fn deep_view(&self) -> ValidateManifestAgainstContractErrorView {
        match self {
            ValidateManifestAgainstContractError::Manifest { source } => ValidateManifestAgainstContractErrorView::Manifest {
                source: source.deep_view(),
            },
            ValidateManifestAgainstContractError::MissingPackage { package } => ValidateManifestAgainstContractErrorView::MissingPackage {
                package: package@,
            },
            ValidateManifestAgainstContractError::MissingBranch { package, system } => ValidateManifestAgainstContractErrorView::MissingBranch {
                package: package@,
                system: *system,
            },
            ValidateManifestAgainstContractError::MissingArtifactPackageName => ValidateManifestAgainstContractErrorView::MissingArtifactPackageName,
            ValidateManifestAgainstContractError::MissingArtifactPackage { package } => ValidateManifestAgainstContractErrorView::MissingArtifactPackage {
                package: package@,
            },
            ValidateManifestAgainstContractError::MissingArtifactBranch { package, system } => ValidateManifestAgainstContractErrorView::MissingArtifactBranch {
                package: package@,
                system: *system,
            },
            ValidateManifestAgainstContractError::MissingArtifactPackageVersion { package } => ValidateManifestAgainstContractErrorView::MissingArtifactPackageVersion {
                package: package@,
            },
            ValidateManifestAgainstContractError::InvalidPackageSourceVersion { package, version } => ValidateManifestAgainstContractErrorView::InvalidPackageSourceVersion {
                package: package@,
                version: version@,
            },
            ValidateManifestAgainstContractError::InvalidExpectedPackageVersion { source, package, system } => ValidateManifestAgainstContractErrorView::InvalidExpectedPackageVersion {
                source: source.deep_view(),
                package: package@,
                system: *system,
            },
            ValidateManifestAgainstContractError::PackageVersionMismatch { package, system, actual, expected } => ValidateManifestAgainstContractErrorView::PackageVersionMismatch {
                package: package@,
                system: *system,
                actual: actual@,
                expected: expected@,
            },
        }
    }
}

impl ValidateManifestAgainstContractErrorView {
    /// The message of the error.
    pub open spec fn message(self) -> Seq<char> {
        match self {
            ValidateManifestAgainstContractErrorView::Manifest { .. } => "invalid package manifest"@,
            ValidateManifestAgainstContractErrorView::MissingPackage { package } => "package "@ + package + " does not exist"@,
            ValidateManifestAgainstContractErrorView::MissingBranch { package, system } => "package "@ + package + " does not define "@ + system_name(system) + " branch"@,
            ValidateManifestAgainstContractErrorView::MissingArtifactPackageName => "linux package artifact is missing package name"@,
            ValidateManifestAgainstContractErrorView::MissingArtifactPackage { package } => "linux package artifact "@ + package + " does not exist"@,
            ValidateManifestAgainstContractErrorView::MissingArtifactBranch { package, system } => "linux package artifact "@ + package + " does not define "@ + system_name(system) + " branch"@,
            ValidateManifestAgainstContractErrorView::MissingArtifactPackageVersion { package } => "linux package artifact "@ + package + " is missing package version"@,
            ValidateManifestAgainstContractErrorView::InvalidPackageSourceVersion { package, version } => "package "@ + package + " has invalid source version "@ + version,
            ValidateManifestAgainstContractErrorView::InvalidExpectedPackageVersion { package, system, .. } => "package "@ + package + " "@ + system_name(system) + " branch has invalid package version"@,
            ValidateManifestAgainstContractErrorView::PackageVersionMismatch { package, system, actual, expected } => "linux package artifact "@ + package + " "@ + system_name(system) + " version "@ + actual + " does not match expected "@ + expected,
        }
    }
}

impl ValidateManifestAgainstContractError {
    /// The message of the error.
    pub fn to_string(&self) -> (text: String)
        ensures
            text@ == self.deep_view().message(),
    {
        match self {
            ValidateManifestAgainstContractError::Manifest { .. } => "invalid package manifest".to_owned(),
            ValidateManifestAgainstContractError::MissingPackage { package } => {
                let mut text = "package ".to_owned();
                text.append(package.as_str());
                text.append(" does not exist");
                text
            },
            ValidateManifestAgainstContractError::MissingBranch { package, system } => {
                let mut text = "package ".to_owned();
                text.append(package.as_str());
                text.append(" does not define ");
                text.append(system.as_str());
                text.append(" branch");
                text
            },
            ValidateManifestAgainstContractError::MissingArtifactPackageName => "linux package artifact is missing package name".to_owned(),
            ValidateManifestAgainstContractError::MissingArtifactPackage { package } => {
                let mut text = "linux package artifact ".to_owned();
                text.append(package.as_str());
                text.append(" does not exist");
                text
            },
            ValidateManifestAgainstContractError::MissingArtifactBranch { package, system } => {
                let mut text = "linux package artifact ".to_owned();
                text.append(package.as_str());
                text.append(" does not define ");
                text.append(system.as_str());
                text.append(" branch");
                text
            },
            ValidateManifestAgainstContractError::MissingArtifactPackageVersion { package } => {
                let mut text = "linux package artifact ".to_owned();
                text.append(package.as_str());
                text.append(" is missing package version");
                text
            },
            ValidateManifestAgainstContractError::InvalidPackageSourceVersion { package, version } => {
                let mut text = "package ".to_owned();
                text.append(package.as_str());
                text.append(" has invalid source version ");
                text.append(version.as_str());
                text
            },
            ValidateManifestAgainstContractError::InvalidExpectedPackageVersion { package, system, .. } => {
                let mut text = "package ".to_owned();
                text.append(package.as_str());
                text.append(" ");
                text.append(system.as_str());
                text.append(" branch has invalid package version");
                text
            },
            ValidateManifestAgainstContractError::PackageVersionMismatch { package, system, actual, expected } => {
                let mut text = "linux package artifact ".to_owned();
                text.append(package.as_str());
                text.append(" ");
                text.append(system.as_str());
                text.append(" version ");
                text.append(actual.as_str());
                text.append(" does not match expected ");
                text.append(expected.as_str());
                text
            },
        }
    }
}

/// The source version that an artifact of a package must have: the stated one, or that of
/// the manifest where it is for this package.
pub open spec fn expected_source_version(
    package: Seq<char>,
    manifest: PackageManifestView,
    contract: PackageContract,
) -> Option<Seq<char>> {
    match contract.version {
        Some(version) => Some(version@),
        None => if package == manifest.package {
            Some(manifest.version)
        } else {
            None
        },
    }
}

/// The package version that an artifact must have, where it is known.
pub open spec fn expected_version(
    package: Seq<char>,
    manifest: PackageManifestView,
    contract: PackageContract,
    branch: PackageBranchRef<'_>,
) -> Result<Option<Seq<char>>, ValidateManifestAgainstContractErrorView> {
    match expected_source_version(package, manifest, contract) {
        None => Ok(None),
        Some(version) => match parsed_version(version) {
            None => Err(
                ValidateManifestAgainstContractErrorView::InvalidPackageSourceVersion {
                    package,
                    version,
                },
            ),
            Some(source) => match branch_version(branch, source) {
                Err(source) => Err(
                    ValidateManifestAgainstContractErrorView::InvalidExpectedPackageVersion {
                        source,
                        package,
                        system: manifest.kind,
                    },
                ),
                Ok(expected) => Ok(Some(expected.text())),
            },
        },
    }
}

/// The version of an artifact contradicts the expected one.
pub open spec fn version_mismatch(
    package: Seq<char>,
    system: PackageSystem,
    actual: Option<Seq<char>>,
    expected: Option<Seq<char>>,
) -> Option<ValidateManifestAgainstContractErrorView> {
    match (expected, actual) {
        (None, _) => None,
        (Some(_), None) => Some(
            ValidateManifestAgainstContractErrorView::MissingArtifactPackageVersion { package },
        ),
        (Some(expected), Some(actual)) => if actual == expected {
            None
        } else {
            Some(
                ValidateManifestAgainstContractErrorView::PackageVersionMismatch {
                    package,
                    system,
                    actual,
                    expected,
                },
            )
        },
    }
}

/// How an artifact of a Linux manifest contradicts the contract.
pub open spec fn artifact_contradiction(
    contract: ReleaseContract,
    manifest: PackageManifestView,
    artifact: PackageArtifactView,
) -> Option<ValidateManifestAgainstContractErrorView> {
    match artifact.package_name {
        None => Some(ValidateManifestAgainstContractErrorView::MissingArtifactPackageName),
        Some(package) => match package_of(contract, package) {
            None => Some(
                ValidateManifestAgainstContractErrorView::MissingArtifactPackage { package },
            ),
            Some(found) => match branch_of(found, manifest.kind) {
                None => Some(
                    ValidateManifestAgainstContractErrorView::MissingArtifactBranch {
                        package,
                        system: manifest.kind,
                    },
                ),
                Some(branch) => match expected_version(package, manifest, found, branch) {
                    Err(error) => Some(error),
                    Ok(expected) => version_mismatch(
                        package,
                        manifest.kind,
                        artifact.package_version,
                        expected,
                    ),
                },
            },
        },
    }
}

/// How the artifacts from `from` on contradict the contract.
pub open spec fn artifacts_contradiction(
    contract: ReleaseContract,
    manifest: PackageManifestView,
    from: int,
) -> Option<ValidateManifestAgainstContractErrorView>
    decreases manifest.artifacts.len() - from,
{
    if from < 0 || from >= manifest.artifacts.len() {
        None
    } else {
        first_fault(
            artifact_contradiction(contract, manifest, manifest.artifacts[from]),
            artifacts_contradiction(contract, manifest, from + 1),
        )
    }
}

/// How a manifest contradicts the contract: it has a fault by itself, its package has no
/// branch, or one of its Linux artifacts contradicts the contract.
pub open spec fn contradiction(contract: ReleaseContract, manifest: PackageManifestView) -> Option<
    ValidateManifestAgainstContractErrorView,
> {
    match manifest_fault(manifest) {
        Some(source) => Some(ValidateManifestAgainstContractErrorView::Manifest { source }),
        None => match package_of(contract, manifest.package) {
            None => Some(
                ValidateManifestAgainstContractErrorView::MissingPackage {
                    package: manifest.package,
                },
            ),
            Some(found) => if branch_of(found, manifest.kind) is None {
                Some(
                    ValidateManifestAgainstContractErrorView::MissingBranch {
                        package: manifest.package,
                        system: manifest.kind,
                    },
                )
            } else if is_linux_system(manifest.kind) {
                artifacts_contradiction(contract, manifest, 0)
            } else {
                None
            },
        },
    }
}

fn expected_artifact_package_version(
    package: &str,
    manifest: &PackageManifest,
    package_contract: &PackageContract,
    branch: PackageBranchRef<'_>,
) -> (expected: Result<Option<String>, ValidateManifestAgainstContractError>)
    ensures
        outcome(expected) == expected_version(
            package@,
            manifest.deep_view(),
            *package_contract,
            branch,
        ),
{
    let version = match &package_contract.version {
        Some(version) => version,
        None => {
            if !same_text(package, manifest.package.as_str()) {
                return Ok(None);
            }
            &manifest.version
        },
    };
    let source = match SourceVersion::parse(version.as_str()) {
        Ok(source) => source,
        Err(_) => {
            return Err(
                ValidateManifestAgainstContractError::InvalidPackageSourceVersion {
                    package: package.to_owned(),
                    version: version.clone(),
                },
            );
        },
    };
    match package_version_for_branch(branch, source) {
        Ok(expected) => Ok(Some(expected.as_string())),
        Err(source) => Err(
            ValidateManifestAgainstContractError::InvalidExpectedPackageVersion {
                source,
                package: package.to_owned(),
                system: manifest.kind,
            },
        ),
    }
}

fn validate_artifact_against_contract(
    contract: &ReleaseContract,
    manifest: &PackageManifest,
    artifact: &PackageArtifact,
) -> (checked: Result<(), ValidateManifestAgainstContractError>)
    ensures
        fault_of(checked) == artifact_contradiction(
            *contract,
            manifest.deep_view(),
            artifact.deep_view(),
        ),
{
    let package = match &artifact.package_name {
        Some(package) => package,
        None => {
            return Err(ValidateManifestAgainstContractError::MissingArtifactPackageName);
        },
    };
    let found = match contract.package(package.as_str()) {
        Some(found) => found,
        None => {
            return Err(
                ValidateManifestAgainstContractError::MissingArtifactPackage {
                    package: package.clone(),
                },
            );
        },
    };
    let branch = match found.branch(manifest.kind) {
        Some(branch) => branch,
        None => {
            return Err(
                ValidateManifestAgainstContractError::MissingArtifactBranch {
                    package: package.clone(),
                    system: manifest.kind,
                },
            );
        },
    };
    let expected = match expected_artifact_package_version(
        package.as_str(),
        manifest,
        found,
        branch,
    ) {
        Ok(Some(expected)) => expected,
        Ok(None) => {
            return Ok(());
        },
        Err(error) => {
            return Err(error);
        },
    };
    match &artifact.package_version {
        None => Err(
            ValidateManifestAgainstContractError::MissingArtifactPackageVersion {
                package: package.clone(),
            },
        ),
        Some(actual) => {
            if !same_text(actual.as_str(), expected.as_str()) {
                return Err(
                    ValidateManifestAgainstContractError::PackageVersionMismatch {
                        package: package.clone(),
                        system: manifest.kind,
                        actual: actual.clone(),
                        expected,
                    },
                );
            }
            Ok(())
        },
    }
}

/// Checks a manifest against the contract.
pub fn validate_manifest_against_contract(
    manifest: &PackageManifest,
    contract: &ReleaseContract,
) -> (checked: Result<(), ValidateManifestAgainstContractError>)
    ensures
        fault_of(checked) == contradiction(*contract, manifest.deep_view()),
{
    if let Err(source) = validate_manifest(manifest) {
        return Err(ValidateManifestAgainstContractError::Manifest { source });
    }
    let found = match contract.package(manifest.package.as_str()) {
        Some(found) => found,
        None => {
            return Err(
                ValidateManifestAgainstContractError::MissingPackage {
                    package: manifest.package.clone(),
                },
            );
        },
    };
    if found.branch(manifest.kind).is_none() {
        return Err(
            ValidateManifestAgainstContractError::MissingBranch {
                package: manifest.package.clone(),
                system: manifest.kind,
            },
        );
    }
    if !manifest.kind.is_linux() {
        return Ok(());
    }
    let mut i: usize = 0;
    while i < manifest.artifacts.len()
        invariant
            i <= manifest.artifacts@.len(),
            contradiction(*contract, manifest.deep_view()) == artifacts_contradiction(
                *contract,
                manifest.deep_view(),
                i as int,
            ),
        decreases manifest.artifacts@.len() - i,
    {
        assert(manifest.deep_view().artifacts[i as int]
            == manifest.artifacts@[i as int].deep_view());
        if let Err(error) = validate_artifact_against_contract(
            contract,
            manifest,
            &manifest.artifacts[i],
        ) {
            return Err(error);
        }
        i = i + 1;
    }
    Ok(())
}

// ---------------------------------------------------------------------------
// Manifests against a command
// ---------------------------------------------------------------------------
/// How the targets of a manifest differ from the requested ones.
#[derive(Debug, PartialEq, Eq)]
pub enum ValidateManifestTargetsError {
    /// Reported as `invalid package manifest`.
    Manifest { source: ValidateManifestError },
    /// Reported as `{system} package manifest is missing requested target {target}`.
    MissingRequestedTarget { system: PackageSystem, target: String },
    /// Reported as `{system} package manifest contains unrequested target {target}`.
    UnrequestedTarget { system: PackageSystem, target: String },
}

/// What a [`ValidateManifestTargetsError`] holds.
pub enum ValidateManifestTargetsErrorView {
    Manifest { source: ValidateManifestErrorView },
    MissingRequestedTarget { system: PackageSystem, target: Seq<char> },
    UnrequestedTarget { system: PackageSystem, target: Seq<char> },
}

impl DeepView for ValidateManifestTargetsError {
    type V = ValidateManifestTargetsErrorView;

    open spec fn deep_view(&self) -> ValidateManifestTargetsErrorView {
        match self {
            ValidateManifestTargetsError::Manifest { source } => ValidateManifestTargetsErrorView::Manifest {
                source: source.deep_view(),
            },
            ValidateManifestTargetsError::MissingRequestedTarget { system, target } => ValidateManifestTargetsErrorView::MissingRequestedTarget {
                system: *system,
                target: target@,
            },
            ValidateManifestTargetsError::UnrequestedTarget { system, target } => ValidateManifestTargetsErrorView::UnrequestedTarget {
                system: *system,
                target: target@,
            },
        }
    }
}

impl ValidateManifestTargetsErrorView {
    /// The message of the error.
    pub open spec fn message(self) -> Seq<char> {
        match self {
            ValidateManifestTargetsErrorView::Manifest { .. } => "invalid package manifest"@,
            ValidateManifestTargetsErrorView::MissingRequestedTarget { system, target } => system_name(system) + " package manifest is missing requested target "@ + target,
            ValidateManifestTargetsErrorView::UnrequestedTarget { system, target } => system_name(system) + " package manifest contains unrequested target "@ + target,
        }
    }
}

impl ValidateManifestTargetsError {
    /// The message of the error.
    pub fn to_string(&self) -> (text: String)
        ensures
            text@ == self.deep_view().message(),
    {
        match self {
            ValidateManifestTargetsError::Manifest { .. } => "invalid package manifest".to_owned(),
            ValidateManifestTargetsError::MissingRequestedTarget { system, target } => {
                let mut text = system.as_str().to_owned();
                text.append(" package manifest is missing requested target ");
                text.append(target.as_str());
                text
            },
            ValidateManifestTargetsError::UnrequestedTarget { system, target } => {
                let mut text = system.as_str().to_owned();
                text.append(" package manifest contains unrequested target ");
                text.append(target.as_str());
                text
            },
        }
    }
}

/// Why a manifest is not what a package command asked for.
#[allow(inconsistent_fields)]
#[derive(Debug, PartialEq, Eq)]
pub enum ValidatePackageCommandManifestError {
    /// Reported as `failed to validate package manifest against release contract`.
    Contract { source: ValidateManifestAgainstContractError },
    /// Reported as `package command did not request {system} build`.
    MissingSystem { system: PackageSystem },
    /// Reported as `failed to select package builds for {system}`.
    Select { source: SelectBuildError, system: PackageSystem },
    /// Reported as `failed to validate package manifest targets`.
    Targets { source: ValidateManifestTargetsError },
}

/// What a [`ValidatePackageCommandManifestError`] holds.
#[allow(inconsistent_fields)]
pub enum ValidatePackageCommandManifestErrorView {
    Contract { source: ValidateManifestAgainstContractErrorView },
    MissingSystem { system: PackageSystem },
    Select { source: SelectBuildErrorView, system: PackageSystem },
    Targets { source: ValidateManifestTargetsErrorView },
}

impl DeepView for ValidatePackageCommandManifestError {
    type V = ValidatePackageCommandManifestErrorView;

    open spec fn deep_view(&self) -> ValidatePackageCommandManifestErrorView {
        match self {
            ValidatePackageCommandManifestError::Contract { source } => ValidatePackageCommandManifestErrorView::Contract {
                source: source.deep_view(),
            },
            ValidatePackageCommandManifestError::MissingSystem { system } => ValidatePackageCommandManifestErrorView::MissingSystem {
                system: *system,
            },
            ValidatePackageCommandManifestError::Select { source, system } => ValidatePackageCommandManifestErrorView::Select {
                source: source.deep_view(),
                system: *system,
            },
            ValidatePackageCommandManifestError::Targets { source } => ValidatePackageCommandManifestErrorView::Targets {
                source: source.deep_view(),
            },
        }
    }
}

impl ValidatePackageCommandManifestErrorView {
    /// The message of the error.
    pub open spec fn message(self) -> Seq<char> {
        match self {
            ValidatePackageCommandManifestErrorView::Contract { .. } => "failed to validate package manifest against release contract"@,
            ValidatePackageCommandManifestErrorView::MissingSystem { system } => "package command did not request "@ + system_name(system) + " build"@,
            ValidatePackageCommandManifestErrorView::Select { system, .. } => "failed to select package builds for "@ + system_name(system),
            ValidatePackageCommandManifestErrorView::Targets { .. } => "failed to validate package manifest targets"@,
        }
    }
}

impl ValidatePackageCommandManifestError {
    /// The message of the error.
    pub fn to_string(&self) -> (text: String)
        ensures
            text@ == self.deep_view().message(),
    {
        match self {
            ValidatePackageCommandManifestError::Contract { .. } => "failed to validate package manifest against release contract".to_owned(),
            ValidatePackageCommandManifestError::MissingSystem { system } => {
                let mut text = "package command did not request ".to_owned();
                text.append(system.as_str());
                text.append(" build");
                text
            },
            ValidatePackageCommandManifestError::Select { system, .. } => {
                let mut text = "failed to select package builds for ".to_owned();
                text.append(system.as_str());
                text
            },
            ValidatePackageCommandManifestError::Targets { .. } => "failed to validate package manifest targets".to_owned(),
        }
    }
}

/// The targets of the artifacts of a manifest.
pub open spec fn manifest_targets(manifest: PackageManifestView) -> Set<Seq<char>> {
    members(manifest.artifacts.map_values(|artifact: PackageArtifactView| artifact.target))
}

/// The names of requested targets.
pub open spec fn requested_names(requested: Seq<RequestedTargetView>) -> Set<Seq<char>> {
    members(requested.map_values(|target: RequestedTargetView| target_name(target)))
}

/// The first text, from `from` on, that is not among the allowed ones.
pub open spec fn first_outside(texts: Seq<Seq<char>>, allowed: Set<Seq<char>>, from: int) -> Option<
    Seq<char>,
>
    decreases texts.len() - from,
{
    if from < 0 || from >= texts.len() {
        None
    } else if allowed.contains(texts[from]) {
        first_outside(texts, allowed, from + 1)
    } else {
        Some(texts[from])
    }
}

/// A manifest has exactly the requested targets. A target too many is reported before one
/// too few.
pub open spec fn targets_difference(
    manifest: PackageManifestView,
    requested: Seq<RequestedTargetView>,
) -> Option<ValidateManifestTargetsErrorView> {
    let present = manifest_targets(manifest);
    let wanted = requested_names(requested);
    match manifest_fault(manifest) {
        Some(source) => Some(ValidateManifestTargetsErrorView::Manifest { source }),
        None => match first_outside(sorted(present), wanted, 0) {
            Some(target) => Some(
                ValidateManifestTargetsErrorView::UnrequestedTarget {
                    system: manifest.kind,
                    target,
                },
            ),
            None => match first_outside(sorted(wanted), present, 0) {
                Some(target) => Some(
                    ValidateManifestTargetsErrorView::MissingRequestedTarget {
                        system: manifest.kind,
                        target,
                    },
                ),
                None => None,
            },
        },
    }
}

/// The targets, from `from` on, for which a package is selected, after those already
/// `found`.
pub open spec fn own_targets(
    selected: Seq<SelectedBuildBranchView<'_>>,
    package: Seq<char>,
    from: int,
    found: Seq<RequestedTargetView>,
) -> Seq<RequestedTargetView>
    decreases selected.len() - from,
{
    if from < 0 || from >= selected.len() {
        found
    } else if selected[from].package_id == package {
        own_targets(selected, package, from + 1, found.push(selected[from].target))
    } else {
        own_targets(selected, package, from + 1, found)
    }
}

/// The targets for which the requests from `from` on build the package of the manifest,
/// after those already `found`.
pub open spec fn command_targets(
    contract: ReleaseContract,
    manifest: PackageManifestView,
    builds: Seq<PackageBuildRequestView>,
    from: int,
    found: Seq<RequestedTargetView>,
) -> Result<Seq<RequestedTargetView>, ValidatePackageCommandManifestErrorView>
    decreases builds.len() - from,
{
    if from < 0 || from >= builds.len() {
        Ok(found)
    } else if builds[from].system != manifest.kind {
        command_targets(contract, manifest, builds, from + 1, found)
    } else {
        match selected_branches(contract, builds[from].system, builds[from].args.targets) {
            Err(source) => Err(
                ValidatePackageCommandManifestErrorView::Select {
                    source,
                    system: builds[from].system,
                },
            ),
            Ok(selected) => command_targets(
                contract,
                manifest,
                builds,
                from + 1,
                own_targets(selected, manifest.package, 0, found),
            ),
        }
    }
}

/// Why a manifest is not what a package command asked for.
pub open spec fn command_fault(
    contract: ReleaseContract,
    manifest: PackageManifestView,
    builds: Seq<PackageBuildRequestView>,
) -> Option<ValidatePackageCommandManifestErrorView> {
    match contradiction(contract, manifest) {
        Some(source) => Some(ValidatePackageCommandManifestErrorView::Contract { source }),
        None => match command_targets(contract, manifest, builds, 0, Seq::empty()) {
            Err(error) => Some(error),
            Ok(requested) => if requested.len() == 0 {
                Some(
                    ValidatePackageCommandManifestErrorView::MissingSystem {
                        system: manifest.kind,
                    },
                )
            } else {
                match targets_difference(manifest, requested) {
                    Some(source) => Some(
                        ValidatePackageCommandManifestErrorView::Targets { source },
                    ),
                    None => None,
                }
            },
        },
    }
}

fn artifact_targets(manifest: &PackageManifest) -> (targets: TextSet)
    ensures
        targets.deep_view() == manifest_targets(manifest.deep_view()),
{
    let ghost all = manifest.deep_view().artifacts.map_values(
        |artifact: PackageArtifactView| artifact.target,
    );
    let mut targets: Vec<String> = Vec::new();
    let mut i: usize = 0;
    while i < manifest.artifacts.len()
        invariant
            i <= manifest.artifacts@.len(),
            all == manifest.deep_view().artifacts.map_values(
                |artifact: PackageArtifactView| artifact.target,
            ),
            deep(targets@) == all.take(i as int),
        decreases manifest.artifacts@.len() - i,
    {
        let target = manifest.artifacts[i].target.clone();
        assert(all[i as int] == target@);
        assert(all.take(i + 1) =~= all.take(i as int).push(target@));
        targets.push(target);
        i = i + 1;
    }
    assert(all.take(i as int) =~= all);
    TextSet::from_texts(&targets)
}

fn target_names(requested: &Vec<RequestedTarget>) -> (names: TextSet)
    ensures
        names.deep_view() == requested_names(deep(requested@)),
{
    let ghost all = deep(requested@).map_values(
        |target: RequestedTargetView| target_name(target),
    );
    let mut names: Vec<String> = Vec::new();
    let mut i: usize = 0;
    while i < requested.len()
        invariant
            i <= requested@.len(),
            all == deep(requested@).map_values(|target: RequestedTargetView| target_name(target)),
            deep(names@) == all.take(i as int),
        decreases requested@.len() - i,
    {
        let name = target_value(&requested[i]);
        assert(all[i as int] == name@);
        assert(all.take(i + 1) =~= all.take(i as int).push(name@));
        names.push(name);
        i = i + 1;
    }
    assert(all.take(i as int) =~= all);
    TextSet::from_texts(&names)
}

fn find_outside(texts: &TextSet, allowed: &TextSet) -> (found: Option<String>)
    ensures
        found.deep_view() == first_outside(
            sorted(texts.deep_view()),
            allowed.deep_view(),
            0,
        ),
{
    let count: usize = texts.len();
    let mut i: usize = 0;
    while i < count
        invariant
            i <= count == texts.items().len(),
            texts.items() == sorted(texts.deep_view()),
            first_outside(texts.items(), allowed.deep_view(), 0) == first_outside(
                texts.items(),
                allowed.deep_view(),
                i as int,
            ),
        decreases count - i,
    {
        let text = texts.at(i);
        if !allowed.contains(text.as_str()) {
            return Some(text.clone());
        }
        i = i + 1;
    }
    None
}

/// Checks that a manifest has exactly the requested targets.
pub fn validate_manifest_targets(
    manifest: &PackageManifest,
    requested_targets: &Vec<RequestedTarget>,
) -> (checked: Result<(), ValidateManifestTargetsError>)
    ensures
        fault_of(checked) == targets_difference(manifest.deep_view(), deep(requested_targets@)),
{
    if let Err(source) = validate_manifest(manifest) {
        return Err(ValidateManifestTargetsError::Manifest { source });
    }
    let present = artifact_targets(manifest);
    let wanted = target_names(requested_targets);
    if let Some(target) = find_outside(&present, &wanted) {
        return Err(
            ValidateManifestTargetsError::UnrequestedTarget { system: manifest.kind, target },
        );
    }
    if let Some(target) = find_outside(&wanted, &present) {
        return Err(
            ValidateManifestTargetsError::MissingRequestedTarget { system: manifest.kind, target },
        );
    }
    Ok(())
}

fn add_own_targets(
    selected: &Vec<SelectedBuildBranch<'_>>,
    package: &str,
    requested: &mut Vec<RequestedTarget>,
)
    ensures
        deep(final(requested)@) == own_targets(
            deep(selected@),
            package@,
            0,
            deep(old(requested)@),
        ),
{
    let ghost start = deep(requested@);
    let mut i: usize = 0;
    while i < selected.len()
        invariant
            i <= selected@.len(),
            own_targets(deep(selected@), package@, 0, start) == own_targets(
                deep(selected@),
                package@,
                i as int,
                deep(requested@),
            ),
        decreases selected@.len() - i,
    {
        assert(deep(selected@)[i as int] == selected@[i as int].deep_view());
        if same_text(selected[i].package_id.as_str(), package) {
            requested.push(selected[i].target.clone());
        }
        i = i + 1;
    }
}

fn requested_targets_of(
    manifest: &PackageManifest,
    contract: &ReleaseContract,
    builds: &Vec<PackageBuildRequest>,
) -> (requested: Result<Vec<RequestedTarget>, ValidatePackageCommandManifestError>)
    ensures
        (match requested {
            Ok(targets) => Ok::<
                Seq<RequestedTargetView>,
                ValidatePackageCommandManifestErrorView,
            >(deep(targets@)),
            Err(error) => Err(error.deep_view()),
        }) == command_targets(
            *contract,
            manifest.deep_view(),
            deep(builds@),
            0,
            Seq::empty(),
        ),
{
    let mut requested: Vec<RequestedTarget> = Vec::new();
    let mut i: usize = 0;
    while i < builds.len()
        invariant
            i <= builds@.len(),
            command_targets(*contract, manifest.deep_view(), deep(builds@), 0, Seq::empty())
                == command_targets(
                *contract,
                manifest.deep_view(),
                deep(builds@),
                i as int,
                deep(requested@),
            ),
        decreases builds@.len() - i,
    {
        let build = &builds[i];
        assert(deep(builds@)[i as int] == build.deep_view());
        if build.system == manifest.kind {
            let targets = build.args.targets.clone();
            let features = build.args.features.clone();
            assert(deep(targets@) =~= deep(build.args.targets@));
            match select_build_branches(
                contract,
                BuildSelectionRequest { system: build.system, targets, features },
            ) {
                Ok(selected) => {
                    add_own_targets(&selected, manifest.package.as_str(), &mut requested);
                },
                Err(source) => {
                    return Err(
                        ValidatePackageCommandManifestError::Select {
                            source,
                            system: build.system,
                        },
                    );
                },
            }
        }
        i = i + 1;
    }
    Ok(requested)
}

/// Checks that a manifest is what a package command asked for.
pub fn validate_package_command_manifest(
    manifest: &PackageManifest,
    contract: &ReleaseContract,
    command: &PackageCommandRequest,
) -> (checked: Result<(), ValidatePackageCommandManifestError>)
    ensures
        fault_of(checked) == command_fault(
            *contract,
            manifest.deep_view(),
            deep(command.builds@),
        ),
{
    if let Err(source) = validate_manifest_against_contract(manifest, contract) {
        return Err(ValidatePackageCommandManifestError::Contract { source });
    }
    let requested = match requested_targets_of(manifest, contract, &command.builds) {
        Ok(requested) => requested,
        Err(error) => {
            return Err(error);
        },
    };
    if requested.len() == 0 {
        return Err(ValidatePackageCommandManifestError::MissingSystem { system: manifest.kind });
    }
    match validate_manifest_targets(manifest, &requested) {
        Ok(_) => Ok(()),
        Err(source) => Err(ValidatePackageCommandManifestError::Targets { source }),
    }
}

// ---------------------------------------------------------------------------
// Manifests against files
// ---------------------------------------------------------------------------
/// Why the files of a manifest are not what it says.
#[allow(inconsistent_fields)]
#[derive(Debug, PartialEq, Eq)]
pub enum VerifyManifestArtifactError {
    /// Reported as `invalid package manifest`.
    InvalidManifest { source: ValidateManifestError },
    /// Reported as `failed to inspect package artifact`.
    Metadata { path: String },
    /// Reported as `failed to open package artifact`.
    Open { path: String },
    /// Reported as `failed to read package artifact`.
    Read { path: String },
    /// Reported as `package artifact size mismatch for {path:?}: expected {expected}, got {actual}`.
    SizeMismatch { path: String, expected: u64, actual: u64 },
    /// Reported as `package artifact sha256 mismatch for {path:?}: expected {expected}, got {actual}`.
    Sha256Mismatch { path: String, expected: String, actual: String },
}

/// What a [`VerifyManifestArtifactError`] holds.
#[allow(inconsistent_fields)]
pub enum VerifyManifestArtifactErrorView {
    InvalidManifest { source: ValidateManifestErrorView },
    Metadata { path: Seq<char> },
    Open { path: Seq<char> },
    Read { path: Seq<char> },
    SizeMismatch { path: Seq<char>, expected: u64, actual: u64 },
    Sha256Mismatch { path: Seq<char>, expected: Seq<char>, actual: Seq<char> },
}

impl DeepView for VerifyManifestArtifactError {
    type V = VerifyManifestArtifactErrorView;

    open spec fn deep_view(&self) -> VerifyManifestArtifactErrorView {
        match self {
            VerifyManifestArtifactError::InvalidManifest { source } => VerifyManifestArtifactErrorView::InvalidManifest {
                source: source.deep_view(),
            },
            VerifyManifestArtifactError::Metadata { path } => VerifyManifestArtifactErrorView::Metadata {
                path: path@,
            },
            VerifyManifestArtifactError::Open { path } => VerifyManifestArtifactErrorView::Open {
                path: path@,
            },
            VerifyManifestArtifactError::Read { path } => VerifyManifestArtifactErrorView::Read {
                path: path@,
            },
            VerifyManifestArtifactError::SizeMismatch { path, expected, actual } => VerifyManifestArtifactErrorView::SizeMismatch {
                path: path@,
                expected: *expected,
                actual: *actual,
            },
            VerifyManifestArtifactError::Sha256Mismatch { path, expected, actual } => VerifyManifestArtifactErrorView::Sha256Mismatch {
                path: path@,
                expected: expected@,
                actual: actual@,
            },
        }
    }
}

impl VerifyManifestArtifactErrorView {
    /// The message of the error.
    pub open spec fn message(self) -> Seq<char> {
        match self {
            VerifyManifestArtifactErrorView::InvalidManifest { .. } => "invalid package manifest"@,
            VerifyManifestArtifactErrorView::Metadata { .. } => "failed to inspect package artifact"@,
            VerifyManifestArtifactErrorView::Open { .. } => "failed to open package artifact"@,
            VerifyManifestArtifactErrorView::Read { .. } => "failed to read package artifact"@,
            VerifyManifestArtifactErrorView::SizeMismatch { path, expected, actual } => "package artifact size mismatch for "@ + debug_path(path) + ": expected "@ + decimal(expected as nat) + ", got "@ + decimal(actual as nat),
            VerifyManifestArtifactErrorView::Sha256Mismatch { path, expected, actual } => "package artifact sha256 mismatch for "@ + debug_path(path) + ": expected "@ + expected + ", got "@ + actual,
        }
    }
}

impl VerifyManifestArtifactError {
    /// The message of the error.
    pub fn to_string(&self) -> (text: String)
        ensures
            text@ == self.deep_view().message(),
    {
        match self {
            VerifyManifestArtifactError::InvalidManifest { .. } => "invalid package manifest".to_owned(),
            VerifyManifestArtifactError::Metadata { .. } => "failed to inspect package artifact".to_owned(),
            VerifyManifestArtifactError::Open { .. } => "failed to open package artifact".to_owned(),
            VerifyManifestArtifactError::Read { .. } => "failed to read package artifact".to_owned(),
            VerifyManifestArtifactError::SizeMismatch { path, expected, actual } => {
                let mut text = "package artifact size mismatch for ".to_owned();
                text.append(debug_path_text(path.as_str()).as_str());
                text.append(": expected ");
                text.append(decimal_text(*expected).as_str());
                text.append(", got ");
                text.append(decimal_text(*actual).as_str());
                text
            },
            VerifyManifestArtifactError::Sha256Mismatch { path, expected, actual } => {
                let mut text = "package artifact sha256 mismatch for ".to_owned();
                text.append(debug_path_text(path.as_str()).as_str());
                text.append(": expected ");
                text.append(expected.as_str());
                text.append(", got ");
                text.append(actual.as_str());
                text
            },
        }
    }
}

/// The path of the file of an artifact.
pub fn artifact_path(target_dir: &str, artifact: &PackageArtifact) -> (path: String)
    ensures
        path@ == path_join(target_dir@, artifact.path@),
{
    join_path(target_dir, artifact.path.as_str())
}

/// What reading the file of an artifact gave.
#[derive(Debug, PartialEq, Eq)]
pub enum ArtifactReading {
    /// The file could not be inspected.
    Uninspected,
    /// The file could not be opened.
    Unopened { size: u64 },
    /// The file could not be read.
    Unread { size: u64 },
    /// The file has this content.
    Read { size: u64, content: Vec<u8> },
}

/// What a [`ArtifactReading`] holds.
pub enum ArtifactReadingView {
    Uninspected,
    Unopened { size: u64 },
    Unread { size: u64 },
    Read { size: u64, content: Seq<u8> },
}

impl DeepView for ArtifactReading {
    type V = ArtifactReadingView;

    open spec fn deep_view(&self) -> ArtifactReadingView {
        match self {
            ArtifactReading::Uninspected => ArtifactReadingView::Uninspected,
            ArtifactReading::Unopened { size } => ArtifactReadingView::Unopened { size: *size },
            ArtifactReading::Unread { size } => ArtifactReadingView::Unread { size: *size },
            ArtifactReading::Read { size, content } => ArtifactReadingView::Read {
                size: *size,
                content: deep(content@),
            },
        }
    }
}

impl Clone for ArtifactReading {
    fn clone(&self) -> (copy: Self)
        ensures
            copy.deep_view() == self.deep_view(),
    {
        match self {
            ArtifactReading::Uninspected => ArtifactReading::Uninspected,
            ArtifactReading::Unopened { size } => ArtifactReading::Unopened { size: *size },
            ArtifactReading::Unread { size } => ArtifactReading::Unread { size: *size },
            ArtifactReading::Read { size, content } => ArtifactReading::Read { size: *size, content: content.clone() },
        }
    }
}

/// What a reading tells of the size of a file.
pub open spec fn reading_size(reading: ArtifactReadingView) -> Option<u64> {
    match reading {
        ArtifactReadingView::Uninspected => None,
        ArtifactReadingView::Unopened { size } => Some(size),
        ArtifactReadingView::Unread { size } => Some(size),
        ArtifactReadingView::Read { size, .. } => Some(size),
    }
}

/// What is wrong with the file of an artifact: it cannot be inspected, has another size,
/// cannot be read, or has another hash.
pub open spec fn file_fault(
    target_dir: Seq<char>,
    artifact: PackageArtifactView,
    reading: ArtifactReadingView,
) -> Option<VerifyManifestArtifactErrorView> {
    let path = path_join(target_dir, artifact.path);
    match reading_size(reading) {
        None => Some(VerifyManifestArtifactErrorView::Metadata { path }),
        Some(size) => if size != artifact.size {
            Some(
                VerifyManifestArtifactErrorView::SizeMismatch {
                    path,
                    expected: artifact.size,
                    actual: size,
                },
            )
        } else {
            match reading {
                ArtifactReadingView::Read { content, .. } => if hex(sha256(content))
                    == artifact.sha256 {
                    None
                } else {
                    Some(
                        VerifyManifestArtifactErrorView::Sha256Mismatch {
                            path,
                            expected: artifact.sha256,
                            actual: hex(sha256(content)),
                        },
                    )
                },
                ArtifactReadingView::Unread { .. } => Some(
                    VerifyManifestArtifactErrorView::Read { path },
                ),
                _ => Some(VerifyManifestArtifactErrorView::Open { path }),
            }
        },
    }
}

/// Checks the file of an artifact.
pub fn verify_artifact(target_dir: &str, artifact: &PackageArtifact, reading: &ArtifactReading) -> (
checked: Result<(), VerifyManifestArtifactError>)
    ensures
        fault_of(checked) == file_fault(
            target_dir@,
            artifact.deep_view(),
            reading.deep_view(),
        ),
{
    let path = artifact_path(target_dir, artifact);
    let size: u64 = match reading {
        ArtifactReading::Uninspected => {
            return Err(VerifyManifestArtifactError::Metadata { path });
        },
        ArtifactReading::Unopened { size } => *size,
        ArtifactReading::Unread { size } => *size,
        ArtifactReading::Read { size, .. } => *size,
    };
    if size != artifact.size {
        return Err(
            VerifyManifestArtifactError::SizeMismatch {
                path,
                expected: artifact.size,
                actual: size,
            },
        );
    }
    match reading {
        ArtifactReading::Read { content, .. } => {
            assert(deep(content@) =~= content@);
            let actual = sha256_hex(content.as_slice());
            if same_text(actual.as_str(), artifact.sha256.as_str()) {
                return Ok(());
            }
            Err(
                VerifyManifestArtifactError::Sha256Mismatch {
                    path,
                    expected: artifact.sha256.clone(),
                    actual,
                },
            )
        },
        ArtifactReading::Unread { .. } => Err(VerifyManifestArtifactError::Read { path }),
        _ => Err(VerifyManifestArtifactError::Open { path }),
    }
}

/// The reading at `i`. A file that was not read could not be inspected.
pub open spec fn reading_at(readings: Seq<ArtifactReadingView>, i: int) -> ArtifactReadingView {
    if 0 <= i < readings.len() {
        readings[i]
    } else {
        ArtifactReadingView::Uninspected
    }
}

/// What is wrong with the files of the artifacts from `from` on.
pub open spec fn files_fault(
    target_dir: Seq<char>,
    artifacts: Seq<PackageArtifactView>,
    readings: Seq<ArtifactReadingView>,
    from: int,
) -> Option<VerifyManifestArtifactErrorView>
    decreases artifacts.len() - from,
{
    if from < 0 || from >= artifacts.len() {
        None
    } else {
        first_fault(
            file_fault(target_dir, artifacts[from], reading_at(readings, from)),
            files_fault(target_dir, artifacts, readings, from + 1),
        )
    }
}

/// What is wrong with a manifest, or with the files of its artifacts.
pub open spec fn verification_fault(
    target_dir: Seq<char>,
    manifest: PackageManifestView,
    readings: Seq<ArtifactReadingView>,
) -> Option<VerifyManifestArtifactErrorView> {
    match manifest_fault(manifest) {
        Some(source) => Some(VerifyManifestArtifactErrorView::InvalidManifest { source }),
        None => files_fault(target_dir, manifest.artifacts, readings, 0),
    }
}

/// Checks that the files of a manifest are those that it lists: `readings` holds what
/// reading them gave, in the order of the artifacts.
pub fn verify_manifest_artifacts(
    target_dir: &str,
    manifest: &PackageManifest,
    readings: &Vec<ArtifactReading>,
) -> (checked: Result<(), VerifyManifestArtifactError>)
    ensures
        fault_of(checked) == verification_fault(
            target_dir@,
            manifest.deep_view(),
            deep(readings@),
        ),
{
    if let Err(source) = validate_manifest(manifest) {
        return Err(VerifyManifestArtifactError::InvalidManifest { source });
    }
    let ghost all = manifest.deep_view().artifacts;
    let ghost given = deep(readings@);
    let mut i: usize = 0;
    while i < manifest.artifacts.len()
        invariant
            i <= manifest.artifacts@.len(),
            manifest_fault(manifest.deep_view()) is None,
            all == manifest.deep_view().artifacts,
            given == deep(readings@),
            files_fault(target_dir@, all, given, 0) == files_fault(
                target_dir@,
                all,
                given,
                i as int,
            ),
        decreases manifest.artifacts@.len() - i,
    {
        assert(all[i as int] == manifest.artifacts@[i as int].deep_view());
        let checked = if i < readings.len() {
            verify_artifact(target_dir, &manifest.artifacts[i], &readings[i])
        } else {
            verify_artifact(target_dir, &manifest.artifacts[i], &ArtifactReading::Uninspected)
        };
        if let Err(error) = checked {
            return Err(error);
        }
        i = i + 1;
    }
    Ok(())
}

// ---------------------------------------------------------------------------
// Manifests on disk
// ---------------------------------------------------------------------------
/// What reading a manifest gave.
#[derive(Debug, PartialEq, Eq)]
pub enum ManifestReading {
    /// The file could not be read.
    Unread,
    /// The file holds no manifest.
    Unparsed,
    /// The file holds this manifest.
    Parsed(PackageManifest),
}

/// What a [`ManifestReading`] holds.
pub enum ManifestReadingView {
    Unread,
    Unparsed,
    Parsed(PackageManifestView),
}

impl DeepView for ManifestReading {
    type V = ManifestReadingView;

    open spec fn deep_view(&self) -> ManifestReadingView {
        match self {
            ManifestReading::Unread => ManifestReadingView::Unread,
            ManifestReading::Unparsed => ManifestReadingView::Unparsed,
            ManifestReading::Parsed(value) => ManifestReadingView::Parsed(value.deep_view()),
        }
    }
}

impl Clone for ManifestReading {
    fn clone(&self) -> (copy: Self)
        ensures
            copy.deep_view() == self.deep_view(),
    {
        match self {
            ManifestReading::Unread => ManifestReading::Unread,
            ManifestReading::Unparsed => ManifestReading::Unparsed,
            ManifestReading::Parsed(value) => ManifestReading::Parsed(value.clone()),
        }
    }
}

/// Why a manifest cannot be loaded.
#[derive(Debug, PartialEq, Eq)]
pub enum LoadManifestError {
    /// Reported as `failed to read package manifest`.
    ReadManifest { path: String },
    /// Reported as `failed to parse package manifest`.
    ParseManifest { path: String },
    /// Reported as `invalid package manifest`.
    InvalidManifest { source: ValidateManifestError },
}

/// What a [`LoadManifestError`] holds.
pub enum LoadManifestErrorView {
    ReadManifest { path: Seq<char> },
    ParseManifest { path: Seq<char> },
    InvalidManifest { source: ValidateManifestErrorView },
}

impl DeepView for LoadManifestError {
    type V = LoadManifestErrorView;

    open spec fn deep_view(&self) -> LoadManifestErrorView {
        match self {
            LoadManifestError::ReadManifest { path } => LoadManifestErrorView::ReadManifest {
                path: path@,
            },
            LoadManifestError::ParseManifest { path } => LoadManifestErrorView::ParseManifest {
                path: path@,
            },
            LoadManifestError::InvalidManifest { source } => LoadManifestErrorView::InvalidManifest {
                source: source.deep_view(),
            },
        }
    }
}

impl LoadManifestErrorView {
    /// The message of the error.
    pub open spec fn message(self) -> Seq<char> {
        match self {
            LoadManifestErrorView::ReadManifest { .. } => "failed to read package manifest"@,
            LoadManifestErrorView::ParseManifest { .. } => "failed to parse package manifest"@,
            LoadManifestErrorView::InvalidManifest { .. } => "invalid package manifest"@,
        }
    }
}

impl LoadManifestError {
    /// The message of the error.
    pub fn to_string(&self) -> (text: String)
        ensures
            text@ == self.deep_view().message(),
    {
        match self {
            LoadManifestError::ReadManifest { .. } => "failed to read package manifest".to_owned(),
            LoadManifestError::ParseManifest { .. } => "failed to parse package manifest".to_owned(),
            LoadManifestError::InvalidManifest { .. } => "invalid package manifest".to_owned(),
        }
    }
}

/// The manifest of a package system, from what reading its file gave.
pub open spec fn loaded_manifest(
    target_dir: Seq<char>,
    system: PackageSystem,
    reading: ManifestReadingView,
) -> Result<PackageManifestView, LoadManifestErrorView> {
    let path = manifest_file(target_dir, system);
    match reading {
        ManifestReadingView::Unread => Err(LoadManifestErrorView::ReadManifest { path }),
        ManifestReadingView::Unparsed => Err(LoadManifestErrorView::ParseManifest { path }),
        ManifestReadingView::Parsed(manifest) => match manifest_fault(manifest) {
            Some(source) => Err(LoadManifestErrorView::InvalidManifest { source }),
            None => Ok(manifest),
        },
    }
}

/// The manifest of a package system, from what reading its file gave.
pub fn load_manifest(target_dir: &str, system: PackageSystem, reading: ManifestReading) -> (manifest:
    Result<PackageManifest, LoadManifestError>)
    ensures
        outcome(manifest) == loaded_manifest(target_dir@, system, reading.deep_view()),
{
    match reading {
        ManifestReading::Unread => Err(
            LoadManifestError::ReadManifest { path: manifest_path(target_dir, system) },
        ),
        ManifestReading::Unparsed => Err(
            LoadManifestError::ParseManifest { path: manifest_path(target_dir, system) },
        ),
        ManifestReading::Parsed(manifest) => match validate_manifest(&manifest) {
            Err(source) => Err(LoadManifestError::InvalidManifest { source }),
            Ok(_) => Ok(manifest),
        },
    }
}

/// What reading the manifest of a package system and the files of its artifacts gave.
#[derive(Debug, PartialEq, Eq)]
pub struct PublishReading {
    pub manifest: ManifestReading,
    pub artifacts: Vec<ArtifactReading>,
}

/// What a [`PublishReading`] holds.
pub struct PublishReadingView {
    pub manifest: ManifestReadingView,
    pub artifacts: Seq<ArtifactReadingView>,
}

impl DeepView for PublishReading {
    type V = PublishReadingView;

    open spec fn deep_view(&self) -> PublishReadingView {
        PublishReadingView {
            manifest: self.manifest.deep_view(),
            artifacts: deep(self.artifacts@),
        }
    }
}

impl Clone for PublishReading {
    fn clone(&self) -> (copy: Self)
        ensures
            copy.deep_view() == self.deep_view(),
    {
        let copy = PublishReading {
            manifest: self.manifest.clone(),
            artifacts: self.artifacts.clone(),
        };
        assert(deep(copy.artifacts@) =~= deep(self.artifacts@));
        copy
    }
}

/// Why the manifests of a publication cannot be loaded.
#[allow(inconsistent_fields)]
#[derive(Debug, PartialEq, Eq)]
pub enum LoadS3PublishCommandManifestsError {
    /// Reported as `failed to load {system} package manifest`.
    Load { source: LoadManifestError, system: PackageSystem },
    /// Reported as `failed to validate {system} package manifest against release contract`.
    Contract { source: ValidateManifestAgainstContractError, system: PackageSystem },
    /// Reported as `failed to verify {system} package artifacts`.
    Verify { source: VerifyManifestArtifactError, system: PackageSystem },
}

/// What a [`LoadS3PublishCommandManifestsError`] holds.
#[allow(inconsistent_fields)]
pub enum LoadS3PublishCommandManifestsErrorView {
    Load { source: LoadManifestErrorView, system: PackageSystem },
    Contract { source: ValidateManifestAgainstContractErrorView, system: PackageSystem },
    Verify { source: VerifyManifestArtifactErrorView, system: PackageSystem },
}

impl DeepView for LoadS3PublishCommandManifestsError {
    type V = LoadS3PublishCommandManifestsErrorView;

    open spec fn deep_view(&self) -> LoadS3PublishCommandManifestsErrorView {
        match self {
            LoadS3PublishCommandManifestsError::Load { source, system } => LoadS3PublishCommandManifestsErrorView::Load {
                source: source.deep_view(),
                system: *system,
            },
            LoadS3PublishCommandManifestsError::Contract { source, system } => LoadS3PublishCommandManifestsErrorView::Contract {
                source: source.deep_view(),
                system: *system,
            },
            LoadS3PublishCommandManifestsError::Verify { source, system } => LoadS3PublishCommandManifestsErrorView::Verify {
                source: source.deep_view(),
                system: *system,
            },
        }
    }
}

impl LoadS3PublishCommandManifestsErrorView {
    /// The message of the error.
    pub open spec fn message(self) -> Seq<char> {
        match self {
            LoadS3PublishCommandManifestsErrorView::Load { system, .. } => "failed to load "@ + system_name(system) + " package manifest"@,
            LoadS3PublishCommandManifestsErrorView::Contract { system, .. } => "failed to validate "@ + system_name(system) + " package manifest against release contract"@,
            LoadS3PublishCommandManifestsErrorView::Verify { system, .. } => "failed to verify "@ + system_name(system) + " package artifacts"@,
        }
    }
}

impl LoadS3PublishCommandManifestsError {
    /// The message of the error.
    pub fn to_string(&self) -> (text: String)
        ensures
            text@ == self.deep_view().message(),
    {
        match self {
            LoadS3PublishCommandManifestsError::Load { system, .. } => {
                let mut text = "failed to load ".to_owned();
                text.append(system.as_str());
                text.append(" package manifest");
                text
            },
            LoadS3PublishCommandManifestsError::Contract { system, .. } => {
                let mut text = "failed to validate ".to_owned();
                text.append(system.as_str());
                text.append(" package manifest against release contract");
                text
            },
            LoadS3PublishCommandManifestsError::Verify { system, .. } => {
                let mut text = "failed to verify ".to_owned();
                text.append(system.as_str());
                text.append(" package artifacts");
                text
            },
        }
    }
}

/// The manifest of a package system that may be published: it agrees with the contract and
/// with the files of its artifacts.
pub open spec fn publishable_manifest(
    target_dir: Seq<char>,
    contract: ReleaseContract,
    system: PackageSystem,
    reading: PublishReadingView,
) -> Result<PackageManifestView, LoadS3PublishCommandManifestsErrorView> {
    match loaded_manifest(target_dir, system, reading.manifest) {
        Err(source) => Err(LoadS3PublishCommandManifestsErrorView::Load { source, system }),
        Ok(manifest) => match contradiction(contract, manifest) {
            Some(source) => Err(
                LoadS3PublishCommandManifestsErrorView::Contract { source, system },
            ),
            None => match verification_fault(target_dir, manifest, reading.artifacts) {
                Some(source) => Err(
                    LoadS3PublishCommandManifestsErrorView::Verify { source, system },
                ),
                None => Ok(manifest),
            },
        },
    }
}

fn load_publishable_manifest(
    target_dir: &str,
    contract: &ReleaseContract,
    system: PackageSystem,
    reading: PublishReading,
) -> (manifest: Result<PackageManifest, LoadS3PublishCommandManifestsError>)
    ensures
        outcome(manifest) == publishable_manifest(
            target_dir@,
            *contract,
            system,
            reading.deep_view(),
        ),
{
    let manifest = match load_manifest(target_dir, system, reading.manifest) {
        Err(source) => {
            return Err(LoadS3PublishCommandManifestsError::Load { source, system });
        },
        Ok(manifest) => manifest,
    };
    if let Err(source) = validate_manifest_against_contract(&manifest, contract) {
        return Err(LoadS3PublishCommandManifestsError::Contract { source, system });
    }
    if let Err(source) = verify_manifest_artifacts(target_dir, &manifest, &reading.artifacts) {
        return Err(LoadS3PublishCommandManifestsError::Verify { source, system });
    }
    Ok(manifest)
}

/// The reading at `i`. A manifest that was not read could not be read.
pub open spec fn publish_reading_at(readings: Seq<PublishReadingView>, i: int) -> PublishReadingView {
    if 0 <= i < readings.len() {
        readings[i]
    } else {
        PublishReadingView { manifest: ManifestReadingView::Unread, artifacts: Seq::empty() }
    }
}

/// The manifests of the package systems from `from` on, after those that are loaded.
pub open spec fn publishable_manifests(
    target_dir: Seq<char>,
    contract: ReleaseContract,
    systems: Seq<PackageSystem>,
    readings: Seq<PublishReadingView>,
    from: int,
    loaded: Seq<PackageManifestView>,
) -> Result<Seq<PackageManifestView>, LoadS3PublishCommandManifestsErrorView>
    decreases systems.len() - from,
{
    if from < 0 || from >= systems.len() {
        Ok(loaded)
    } else {
        match publishable_manifest(
            target_dir,
            contract,
            systems[from],
            publish_reading_at(readings, from),
        ) {
            Err(error) => Err(error),
            Ok(manifest) => publishable_manifests(
                target_dir,
                contract,
                systems,
                readings,
                from + 1,
                loaded.push(manifest),
            ),
        }
    }
}

/// The manifests that a publication names: `readings` holds what reading them gave, in the
/// order of the package systems of the command.
pub fn load_s3_publish_command_manifests(
    target_dir: &str,
    contract: &ReleaseContract,
    command: &S3PublishCommandRequest,
    readings: &Vec<PublishReading>,
) -> (manifests: Result<Vec<PackageManifest>, LoadS3PublishCommandManifestsError>)
    ensures
        outcomes(manifests) == publishable_manifests(
            target_dir@,
            *contract,
            command.systems@,
            deep(readings@),
            0,
            Seq::empty(),
        ),
{
    let ghost given = deep(readings@);
    let mut loaded: Vec<PackageManifest> = Vec::new();
    let mut i: usize = 0;
    while i < command.systems.len()
        invariant
            i <= command.systems@.len(),
            given == deep(readings@),
            publishable_manifests(
                target_dir@,
                *contract,
                command.systems@,
                given,
                0,
                Seq::empty(),
            ) == publishable_manifests(
                target_dir@,
                *contract,
                command.systems@,
                given,
                i as int,
                deep(loaded@),
            ),
        decreases command.systems@.len() - i,
    {
        let reading = if i < readings.len() {
            readings[i].clone()
        } else {
            PublishReading { manifest: ManifestReading::Unread, artifacts: Vec::new() }
        };
        match load_publishable_manifest(target_dir, contract, command.systems[i], reading) {
            Err(error) => {
                return Err(error);
            },
            Ok(manifest) => {
                loaded.push(manifest);
            },
        }
        i = i + 1;
    }
    Ok(loaded)
}

/// Why a manifest is not written.
#[derive(Debug, PartialEq, Eq)]
pub enum WriteManifestError {
    /// Reported as `invalid package manifest`.
    InvalidManifest { source: ValidateManifestError },
    /// Reported as `package manifest already exists at {path:?}`.
    AlreadyExists { path: String },
}

/// What a [`WriteManifestError`] holds.
pub enum WriteManifestErrorView {
    InvalidManifest { source: ValidateManifestErrorView },
    AlreadyExists { path: Seq<char> },
}

impl DeepView for WriteManifestError {
    type V = WriteManifestErrorView;

    open spec fn deep_view(&self) -> WriteManifestErrorView {
        match self {
            WriteManifestError::InvalidManifest { source } => WriteManifestErrorView::InvalidManifest {
                source: source.deep_view(),
            },
            WriteManifestError::AlreadyExists { path } => WriteManifestErrorView::AlreadyExists {
                path: path@,
            },
        }
    }
}

impl WriteManifestErrorView {
    /// The message of the error.
    pub open spec fn message(self) -> Seq<char> {
        match self {
            WriteManifestErrorView::InvalidManifest { .. } => "invalid package manifest"@,
            WriteManifestErrorView::AlreadyExists { path } => "package manifest already exists at "@ + debug_path(path),
        }
    }
}

impl WriteManifestError {
    /// The message of the error.
    pub fn to_string(&self) -> (text: String)
        ensures
            text@ == self.deep_view().message(),
    {
        match self {
            WriteManifestError::InvalidManifest { .. } => "invalid package manifest".to_owned(),
            WriteManifestError::AlreadyExists { path } => {
                let mut text = "package manifest already exists at ".to_owned();
                text.append(debug_path_text(path.as_str()).as_str());
                text
            },
        }
    }
}

/// Where a manifest is written: an existing one stays unless it may be overwritten.
pub open spec fn manifest_destination(
    target_dir: Seq<char>,
    manifest: PackageManifestView,
    exists: bool,
    overwrite: bool,
) -> Result<Seq<char>, WriteManifestErrorView> {
    let path = manifest_file(target_dir, manifest.kind);
    match manifest_fault(manifest) {
        Some(source) => Err(WriteManifestErrorView::InvalidManifest { source }),
        None => if exists && !overwrite {
            Err(WriteManifestErrorView::AlreadyExists { path })
        } else {
            Ok(path)
        },
    }
}

/// Where a manifest is written, if it may be; `exists` tells whether one stands there.
pub fn plan_manifest_write(
    target_dir: &str,
    manifest: &PackageManifest,
    exists: bool,
    overwrite: bool,
) -> (path: Result<String, WriteManifestError>)
    ensures
        outcome(path) == manifest_destination(
            target_dir@,
            manifest.deep_view(),
            exists,
            overwrite,
        ),
{
    if let Err(source) = validate_manifest(manifest) {
        return Err(WriteManifestError::InvalidManifest { source });
    }
    let path = manifest_path(target_dir, manifest.kind);
    if exists && !overwrite {
        return Err(WriteManifestError::AlreadyExists { path });
    }
    Ok(path)
}

/// Why the manifest of a package command is not written.
#[allow(inconsistent_fields)]
#[derive(Debug, PartialEq, Eq)]
pub enum WritePackageCommandManifestError {
    /// Reported as `failed to validate package command manifest`.
    Validate { source: ValidatePackageCommandManifestError },
    /// Reported as `failed to write package command manifest`.
    Write { source: WriteManifestError },
}

/// What a [`WritePackageCommandManifestError`] holds.
#[allow(inconsistent_fields)]
pub enum WritePackageCommandManifestErrorView {
    Validate { source: ValidatePackageCommandManifestErrorView },
    Write { source: WriteManifestErrorView },
}

impl DeepView for WritePackageCommandManifestError {
    type V = WritePackageCommandManifestErrorView;

    open spec fn deep_view(&self) -> WritePackageCommandManifestErrorView {
        match self {
            WritePackageCommandManifestError::Validate { source } => WritePackageCommandManifestErrorView::Validate {
                source: source.deep_view(),
            },
            WritePackageCommandManifestError::Write { source } => WritePackageCommandManifestErrorView::Write {
                source: source.deep_view(),
            },
        }
    }
}

impl WritePackageCommandManifestErrorView {
    /// The message of the error.
    pub open spec fn message(self) -> Seq<char> {
        match self {
            WritePackageCommandManifestErrorView::Validate { .. } => "failed to validate package command manifest"@,
            WritePackageCommandManifestErrorView::Write { .. } => "failed to write package command manifest"@,
        }
    }
}

impl WritePackageCommandManifestError {
    /// The message of the error.
    pub fn to_string(&self) -> (text: String)
        ensures
            text@ == self.deep_view().message(),
    {
        match self {
            WritePackageCommandManifestError::Validate { .. } => "failed to validate package command manifest".to_owned(),
            WritePackageCommandManifestError::Write { .. } => "failed to write package command manifest".to_owned(),
        }
    }
}

/// Where the manifest of a package command is written, if the command may write it.
pub open spec fn command_manifest_destination(
    target_dir: Seq<char>,
    contract: ReleaseContract,
    manifest: PackageManifestView,
    builds: Seq<PackageBuildRequestView>,
    exists: bool,
    overwrite: bool,
) -> Result<Seq<char>, WritePackageCommandManifestErrorView> {
    match command_fault(contract, manifest, builds) {
        Some(source) => Err(WritePackageCommandManifestErrorView::Validate { source }),
        None => match manifest_destination(target_dir, manifest, exists, overwrite) {
            Err(source) => Err(WritePackageCommandManifestErrorView::Write { source }),
            Ok(path) => Ok(path),
        },
    }
}

/// Where the manifest of a package command is written, if the command may write it;
/// `exists` tells whether one stands there.
pub fn plan_package_command_manifest_write(
    target_dir: &str,
    manifest: &PackageManifest,
    contract: &ReleaseContract,
    command: &PackageCommandRequest,
    exists: bool,
) -> (path: Result<String, WritePackageCommandManifestError>)
    ensures
        outcome(path) == command_manifest_destination(
            target_dir@,
            *contract,
            manifest.deep_view(),
            deep(command.builds@),
            exists,
            command.overwrite_manifest,
        ),
{
    if let Err(source) = validate_package_command_manifest(manifest, contract, command) {
        return Err(WritePackageCommandManifestError::Validate { source });
    }
    match plan_manifest_write(target_dir, manifest, exists, command.overwrite_manifest) {
        Err(source) => Err(WritePackageCommandManifestError::Write { source }),
        Ok(path) => Ok(path),
    }
}

} // verus!
