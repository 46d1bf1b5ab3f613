//! What a Linux package requires of other packages.

use vstd::prelude::*;

use crate::contract::{
    branch_of, package_of, requires_of, PackageBranchRef, ReleaseContract, RequiredPackageContract,
    VersionBoundSource, VersionBoundSourceContract,
};
use crate::model::{deep, outcome, outcomes};
use crate::package::{
    deb_version, metadata_of, resolve_metadata, rpm_version, CargoMetadata, CargoMetadataView,
    PackageId, PackageVersion, PackageVersionError, PackageVersionErrorView, PackageVersionView,
    ResolvePackageMetadataError, ResolvePackageMetadataErrorView,
};
use crate::system::{system_name, PackageSystem};
use crate::textmap::TextMap;
use crate::version::{SourceVersion, SourceVersionView};

verus! {

broadcast use crate::model::group_deep;

/// The least and the greatest version that a requirement accepts.
#[derive(Debug, PartialEq, Eq)]
pub struct ResolvedVersionBounds {
    pub minimum: Option<String>,
    pub maximum: Option<String>,
}

/// What a [`ResolvedVersionBounds`] holds.
pub struct ResolvedVersionBoundsView {
    pub minimum: Option<Seq<char>>,
    pub maximum: Option<Seq<char>>,
}

impl DeepView for ResolvedVersionBounds {
    type V = ResolvedVersionBoundsView;

    open spec fn deep_view(&self) -> ResolvedVersionBoundsView {
        ResolvedVersionBoundsView {
            minimum: self.minimum.deep_view(),
            maximum: self.maximum.deep_view(),
        }
    }
}

impl Clone for ResolvedVersionBounds {
    fn clone(&self) -> (copy: Self)
        ensures
            copy.deep_view() == self.deep_view(),
    {
        let copy = ResolvedVersionBounds {
            minimum: self.minimum.clone(),
            maximum: self.maximum.clone(),
        };
        copy
    }
}

/// A package system without requirement entries.
#[derive(Debug, PartialEq, Eq)]
pub enum RenderLinuxRequirementError {
    /// Reported as `{system} branch does not support linux dependency entries`.
    UnsupportedPackageSystem { system: PackageSystem },
}

/// What a [`RenderLinuxRequirementError`] holds.
pub enum RenderLinuxRequirementErrorView {
    UnsupportedPackageSystem { system: PackageSystem },
}

impl DeepView for RenderLinuxRequirementError {
    type V = RenderLinuxRequirementErrorView;

    open spec fn deep_view(&self) -> RenderLinuxRequirementErrorView {
        match self {
            RenderLinuxRequirementError::UnsupportedPackageSystem { system } => RenderLinuxRequirementErrorView::UnsupportedPackageSystem {
                system: *system,
            },
        }
    }
}

impl RenderLinuxRequirementErrorView {
    /// The message of the error.
    pub open spec fn message(self) -> Seq<char> {
        match self {
            RenderLinuxRequirementErrorView::UnsupportedPackageSystem { system } => system_name(system) + " branch does not support linux dependency entries"@,
        }
    }
}

impl RenderLinuxRequirementError {
    /// The message of the error.
    pub fn to_string(&self) -> (text: String)
        ensures
            text@ == self.deep_view().message(),
    {
        match self {
            RenderLinuxRequirementError::UnsupportedPackageSystem { system } => {
                let mut text = system.as_str().to_owned();
                text.append(" branch does not support linux dependency entries");
                text
            },
        }
    }
}

/// The marks around the version in a requirement entry of a package system: what stands
/// before a minimum, before a maximum, and after either.
pub open spec fn requirement_marks(system: PackageSystem) -> (Seq<char>, Seq<char>, Seq<char>) {
    if system is Deb {
        (" (>= "@, " (<= "@, ")"@)
    } else {
        (" >= "@, " <= "@, ""@)
    }
}

/// The requirement entries for one package: one for each bound, or the package alone
/// where there is no bound.
pub open spec fn requirement_entries(
    system: PackageSystem,
    package: Seq<char>,
    bounds: ResolvedVersionBoundsView,
) -> Seq<Seq<char>> {
    let (least, greatest, end) = requirement_marks(system);
    match (bounds.minimum, bounds.maximum) {
        (None, None) => seq![package],
        (Some(minimum), None) => seq![package + least + minimum + end],
        (None, Some(maximum)) => seq![package + greatest + maximum + end],
        (Some(minimum), Some(maximum)) => seq![
            package + least + minimum + end,
            package + greatest + maximum + end,
        ],
    }
}

fn requirement_entry(package: &str, mark: &str, version: &str, end: &str) -> (entry: String)
    ensures
        entry@ == package@ + mark@ + version@ + end@,
{
    let mut entry = package.to_owned();
    entry.append(mark);
    entry.append(version);
    entry.append(end);
    entry
}

/// The requirement entries for one package of a Linux package system.
pub fn linux_requirement_entries(
    system: PackageSystem,
    package: &str,
    bounds: ResolvedVersionBounds,
) -> (entries: Result<Vec<String>, RenderLinuxRequirementError>)
    ensures
        outcomes(entries) == (if system is Deb || system is Rpm {
            Ok(requirement_entries(system, package@, bounds.deep_view()))
        } else {
            Err(RenderLinuxRequirementErrorView::UnsupportedPackageSystem { system })
        }),
{
    let (least, greatest, end) = match system {
        PackageSystem::Deb => (" (>= ", " (<= ", ")"),
        PackageSystem::Rpm => (" >= ", " <= ", ""),
        PackageSystem::Brew | PackageSystem::Scoop => {
            return Err(RenderLinuxRequirementError::UnsupportedPackageSystem { system });
        },
    };
    let mut entries: Vec<String> = Vec::new();
    if let Some(version) = &bounds.minimum {
        entries.push(requirement_entry(package, least, version.as_str(), end));
    }
    if let Some(version) = &bounds.maximum {
        entries.push(requirement_entry(package, greatest, version.as_str(), end));
    }
    if entries.len() == 0 {
        entries.push(package.to_owned());
    }
    assert(deep(entries@) =~= requirement_entries(system, package@, bounds.deep_view()));
    Ok(entries)
}

// ---------------------------------------------------------------------------
// Resolving requirements
// ---------------------------------------------------------------------------
/// Why requirements cannot be resolved.
#[allow(inconsistent_fields)]
#[derive(Debug, PartialEq, Eq)]
pub enum ResolveRequiresError {
    /// Reported as `package {package} does not exist`.
    MissingPackage { package: String },
    /// Reported as `package {package} does not define {system} branch`.
    MissingBranch { package: String, system: PackageSystem },
    /// Reported as `failed to resolve package {package} metadata`.
    PackageMetadata { package: String, source: ResolvePackageMetadataError },
    /// Reported as `failed to resolve package {package} dependency metadata`.
    DependencyMetadata { package: String, source: ResolvePackageMetadataError },
    /// Reported as `failed to compose package version`.
    InvalidPackageVersion { source: PackageVersionError },
}

/// What a [`ResolveRequiresError`] holds.
#[allow(inconsistent_fields)]
pub enum ResolveRequiresErrorView {
    MissingPackage { package: Seq<char> },
    MissingBranch { package: Seq<char>, system: PackageSystem },
    PackageMetadata { package: Seq<char>, source: ResolvePackageMetadataErrorView },
    DependencyMetadata { package: Seq<char>, source: ResolvePackageMetadataErrorView },
    InvalidPackageVersion { source: PackageVersionErrorView },
}

impl DeepView for ResolveRequiresError {
    type V = ResolveRequiresErrorView;

    open spec fn deep_view(&self) -> ResolveRequiresErrorView {
        match self {
            ResolveRequiresError::MissingPackage { package } => ResolveRequiresErrorView::MissingPackage {
                package: package@,
            },
            ResolveRequiresError::MissingBranch { package, system } => ResolveRequiresErrorView::MissingBranch {
                package: package@,
                system: *system,
            },
            ResolveRequiresError::PackageMetadata { package, source } => ResolveRequiresErrorView::PackageMetadata {
                package: package@,
                source: source.deep_view(),
            },
            ResolveRequiresError::DependencyMetadata { package, source } => ResolveRequiresErrorView::DependencyMetadata {
                package: package@,
                source: source.deep_view(),
            },
            ResolveRequiresError::InvalidPackageVersion { source } => ResolveRequiresErrorView::InvalidPackageVersion {
                source: source.deep_view(),
            },
        }
    }
}

impl ResolveRequiresErrorView {
    /// The message of the error.
    pub open spec fn message(self) -> Seq<char> {
        match self {
            ResolveRequiresErrorView::MissingPackage { package } => "package "@ + package + " does not exist"@,
            ResolveRequiresErrorView::MissingBranch { package, system } => "package "@ + package + " does not define "@ + system_name(system) + " branch"@,
            ResolveRequiresErrorView::PackageMetadata { package, .. } => "failed to resolve package "@ + package + " metadata"@,
            ResolveRequiresErrorView::DependencyMetadata { package, .. } => "failed to resolve package "@ + package + " dependency metadata"@,
            ResolveRequiresErrorView::InvalidPackageVersion { .. } => "failed to compose package version"@,
        }
    }
}

impl ResolveRequiresError {
    /// The message of the error.
    pub fn to_string(&self) -> (text: String)
        ensures
            text@ == self.deep_view().message(),
    {
        match self {
            ResolveRequiresError::MissingPackage { package } => {
                let mut text = "package ".to_owned();
                text.append(package.as_str());
                text.append(" does not exist");
                text
            },
            ResolveRequiresError::MissingBranch { package, system } => {
                let mut text = "package ".to_owned();
                text.append(package.as_str());
                text.append(" does not define ");
                text.append(system.as_str());
                text.append(" branch");
                text
            },
            ResolveRequiresError::PackageMetadata { package, .. } => {
                let mut text = "failed to resolve package ".to_owned();
                text.append(package.as_str());
                text.append(" metadata");
                text
            },
            ResolveRequiresError::DependencyMetadata { package, .. } => {
                let mut text = "failed to resolve package ".to_owned();
                text.append(package.as_str());
                text.append(" dependency metadata");
                text
            },
            ResolveRequiresError::InvalidPackageVersion { .. } => "failed to compose package version".to_owned(),
        }
    }
}

/// The version of a package in the package system of a branch.
pub open spec fn branch_version(branch: PackageBranchRef<'_>, source: SourceVersionView) -> Result<
    PackageVersionView,
    PackageVersionErrorView,
> {
    match branch {
        PackageBranchRef::Deb(branch) => deb_version(source, branch.revision@),
        PackageBranchRef::Rpm(branch) => rpm_version(source, branch.release@),
        PackageBranchRef::Brew(_) | PackageBranchRef::Scoop(_) => Ok(
            PackageVersionView::Plain { source },
        ),
    }
}

/// The version of a package in the package system of a branch.
pub fn package_version_for_branch(branch: PackageBranchRef<'_>, source: SourceVersion) -> (version:
    Result<PackageVersion, PackageVersionError>)
    ensures
        outcome(version) == branch_version(branch, source.deep_view()),
{
    match branch {
        PackageBranchRef::Deb(branch) => PackageVersion::deb(source, branch.revision.as_str()),
        PackageBranchRef::Rpm(branch) => PackageVersion::rpm(source, branch.release.as_str()),
        PackageBranchRef::Brew(_) | PackageBranchRef::Scoop(_) => Ok(PackageVersion::plain(source)),
    }
}

/// The version of a package of the contract in a package system; `dependency` says
/// whether another package requires it.
pub open spec fn package_version_of(
    contract: ReleaseContract,
    contract_root: Seq<char>,
    package: Seq<char>,
    system: PackageSystem,
    cargo: Map<Seq<char>, CargoMetadataView>,
    dependency: bool,
) -> Result<PackageVersionView, ResolveRequiresErrorView> {
    match package_of(contract, package) {
        None => Err(ResolveRequiresErrorView::MissingPackage { package }),
        Some(found) => match metadata_of(contract, package, contract_root, cargo) {
            Err(source) => if dependency {
                Err(ResolveRequiresErrorView::DependencyMetadata { package, source })
            } else {
                Err(ResolveRequiresErrorView::PackageMetadata { package, source })
            },
            Ok(metadata) => match branch_of(found, system) {
                None => Err(ResolveRequiresErrorView::MissingBranch { package, system }),
                Some(branch) => match branch_version(branch, metadata.source_version) {
                    Err(source) => Err(ResolveRequiresErrorView::InvalidPackageVersion { source }),
                    Ok(version) => Ok(version),
                },
            },
        },
    }
}

/// The text of a version bound.
pub open spec fn bound_text(
    bound: VersionBoundSourceContract,
    own: PackageVersionView,
    dependency: PackageVersionView,
) -> Seq<char> {
    match bound.from {
        VersionBoundSource::SelfPackage => own.text(),
        VersionBoundSource::DependencyPackage => dependency.text(),
        VersionBoundSource::Literal(value) => value@,
    }
}

/// The bounds of a requirement.
pub open spec fn required_bounds(
    required: RequiredPackageContract,
    own: PackageVersionView,
    dependency: PackageVersionView,
) -> ResolvedVersionBoundsView {
    ResolvedVersionBoundsView {
        minimum: match required.version.minimum {
            Some(bound) => Some(bound_text(bound, own, dependency)),
            None => None,
        },
        maximum: match required.version.maximum {
            Some(bound) => Some(bound_text(bound, own, dependency)),
            None => None,
        },
    }
}

/// The bounds of the requirements from `from` on, added to those already `found`.
pub open spec fn all_bounds(
    contract: ReleaseContract,
    contract_root: Seq<char>,
    system: PackageSystem,
    cargo: Map<Seq<char>, CargoMetadataView>,
    own: PackageVersionView,
    required: Seq<(PackageId, RequiredPackageContract)>,
    from: int,
    found: Map<Seq<char>, ResolvedVersionBoundsView>,
) -> Result<Map<Seq<char>, ResolvedVersionBoundsView>, ResolveRequiresErrorView>
    decreases required.len() - from,
{
    if from < 0 || from >= required.len() {
        Ok(found)
    } else {
        let id = required[from].0.deep_view();
        match package_version_of(contract, contract_root, id, system, cargo, true) {
            Err(error) => Err(error),
            Ok(dependency) => all_bounds(
                contract,
                contract_root,
                system,
                cargo,
                own,
                required,
                from + 1,
                found.insert(id, required_bounds(required[from].1, own, dependency)),
            ),
        }
    }
}

/// What a package requires in a package system, with the bounds on the versions.
pub open spec fn resolved_requires(
    contract: ReleaseContract,
    contract_root: Seq<char>,
    package: Seq<char>,
    system: PackageSystem,
    cargo: Map<Seq<char>, CargoMetadataView>,
) -> Result<Map<Seq<char>, ResolvedVersionBoundsView>, ResolveRequiresErrorView> {
    match package_version_of(contract, contract_root, package, system, cargo, false) {
        Err(error) => Err(error),
        Ok(own) => all_bounds(
            contract,
            contract_root,
            system,
            cargo,
            own,
            requires_of(branch_of(package_of(contract, package)->0, system)->0),
            0,
            Map::empty(),
        ),
    }
}

fn resolve_version_bound(
    bound: &VersionBoundSourceContract,
    self_version: &PackageVersion,
    dependency_version: &PackageVersion,
) -> (text: String)
    ensures
        text@ == bound_text(*bound, self_version.deep_view(), dependency_version.deep_view()),
{
    match &bound.from {
        VersionBoundSource::SelfPackage => self_version.as_string(),
        VersionBoundSource::DependencyPackage => dependency_version.as_string(),
        VersionBoundSource::Literal(value) => value.clone(),
    }
}

/// The version of a package of the contract in a package system.
fn resolve_package_version(
    contract: &ReleaseContract,
    contract_root: &str,
    package: &str,
    system: PackageSystem,
    cargo: &TextMap<String, CargoMetadata>,
    dependency: bool,
) -> (version: Result<PackageVersion, ResolveRequiresError>)
    ensures
        outcome(version) == package_version_of(
            *contract,
            contract_root@,
            package@,
            system,
            cargo.deep_view(),
            dependency,
        ),
{
    let found = match contract.package(package) {
        Some(found) => found,
        None => {
            return Err(ResolveRequiresError::MissingPackage { package: package.to_owned() });
        },
    };
    let metadata = match resolve_metadata(contract, package, contract_root, cargo) {
        Ok(metadata) => metadata,
        Err(source) => {
            return if dependency {
                Err(
                    ResolveRequiresError::DependencyMetadata {
                        package: package.to_owned(),
                        source,
                    },
                )
            } else {
                Err(ResolveRequiresError::PackageMetadata { package: package.to_owned(), source })
            };
        },
    };
    match found.branch(system) {
        None => Err(ResolveRequiresError::MissingBranch { package: package.to_owned(), system }),
        Some(branch) => match package_version_for_branch(branch, metadata.source_version) {
            Ok(version) => Ok(version),
            Err(source) => Err(ResolveRequiresError::InvalidPackageVersion { source }),
        },
    }
}

/// What a package requires in a package system, with the bounds on the versions.
pub fn resolve_requires_for(
    contract: &ReleaseContract,
    contract_root: &str,
    package: &str,
    system: PackageSystem,
    cargo: &TextMap<String, CargoMetadata>,
) -> (resolved: Result<TextMap<String, ResolvedVersionBounds>, ResolveRequiresError>)
    ensures
        outcome(resolved) == resolved_requires(
            *contract,
            contract_root@,
            package@,
            system,
            cargo.deep_view(),
        ),
{
    let own = match resolve_package_version(
        contract,
        contract_root,
        package,
        system,
        cargo,
        false,
    ) {
        Ok(version) => version,
        Err(error) => {
            return Err(error);
        },
    };
    let mut resolved: TextMap<String, ResolvedVersionBounds> = TextMap::new();
    let branch = match contract.package(package) {
        Some(found) => found.branch(system),
        None => None,
    };
    let required = match branch {
        Some(branch) => branch.required(),
        None => {
            // A package whose version was composed has the branch.
            assert(false);
            return Ok(resolved);
        },
    };
    let ghost items = requires_of(branch_of(package_of(*contract, package@)->0, system)->0);
    let mut i: usize = 0;
    while i < required.len()
        invariant
            i <= items.len(),
            items == required.packages.items(),
            resolved_requires(*contract, contract_root@, package@, system, cargo.deep_view())
                == all_bounds(
                *contract,
                contract_root@,
                system,
                cargo.deep_view(),
                own.deep_view(),
                items,
                i as int,
                resolved.deep_view(),
            ),
        decreases items.len() - i,
    {
        let (id, bounds) = required.entry(i);
        let dependency = match resolve_package_version(
            contract,
            contract_root,
            id.as_str(),
            system,
            cargo,
            true,
        ) {
            Ok(version) => version,
            Err(error) => {
                return Err(error);
            },
        };
        let minimum = match &bounds.version.minimum {
            Some(bound) => Some(resolve_version_bound(bound, &own, &dependency)),
            None => None,
        };
        let maximum = match &bounds.version.maximum {
            Some(bound) => Some(resolve_version_bound(bound, &own, &dependency)),
            None => None,
        };
        resolved.insert(id.as_str().to_owned(), ResolvedVersionBounds { minimum, maximum });
        i = i + 1;
    }
    Ok(resolved)
}

} // verus!
