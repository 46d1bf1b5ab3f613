//! The release contract: which packages there are, how each is built for a package
//! system, and where the results are published.

use vstd::prelude::*;

use crate::model::{fault_of, first_fault, outcome};
use crate::package::{lacks_text, PackageId};
use crate::system::{system_name, ArchitectureClass, PackageSystem};
use crate::textmap::{has_key, lookup, entry_of, TextMap};
use crate::version::{is_revision, parsed_version, SourceVersion};

verus! {

// ---------------------------------------------------------------------------
// Packages
// ---------------------------------------------------------------------------
/// The whole contract.
#[derive(Debug, PartialEq, Eq)]
pub struct ReleaseContract {
    pub package: TextMap<PackageId, PackageContract>,
    pub destination: DestinationContract,
}

/// One package. Its source version comes from a Cargo manifest or is stated.
#[derive(Debug, PartialEq, Eq)]
pub struct PackageContract {
    pub manifest: Option<String>,
    pub version: Option<String>,
    pub description: Option<String>,
    pub license: Option<String>,
    pub homepage: Option<String>,
    pub repository: Option<String>,
    pub build: PackageBuildContract,
    pub deb: Option<DebBranch>,
    pub rpm: Option<RpmBranch>,
    pub brew: Option<BrewBranch>,
    pub scoop: Option<ScoopBranch>,
}

/// What every build of a package is given.
#[derive(Debug, PartialEq, Eq)]
pub struct PackageBuildContract {
    pub env: TextMap<String, EnvBinding>,
}

/// An environment variable of a build: taken from the environment or stated.
#[derive(Debug, PartialEq, Eq)]
pub struct EnvBinding {
    pub env: Option<String>,
    pub value: Option<String>,
    /// Where the file that the variable names is mounted in a container.
    pub container_path: Option<String>,
    pub optional: bool,
}

/// How a package becomes a Debian package.
#[derive(Debug, PartialEq, Eq)]
pub struct DebBranch {
    pub revision: String,
    pub architecture: ArchitectureClass,
    pub dockerfile: Option<String>,
    pub build: Option<BranchBuildContract>,
    pub requires: RequiresContract,
    pub target: TextMap<String, PackageTargetContract>,
}

/// How a package becomes an RPM package.
#[derive(Debug, PartialEq, Eq)]
pub struct RpmBranch {
    pub release: String,
    pub architecture: ArchitectureClass,
    pub dockerfile: Option<String>,
    pub build: Option<BranchBuildContract>,
    pub requires: RequiresContract,
    pub target: TextMap<String, PackageTargetContract>,
}

/// How a package becomes a Homebrew formula.
#[derive(Debug, PartialEq, Eq)]
pub struct BrewBranch {
    pub script: Option<String>,
    pub manifest_template: Option<String>,
    pub build: Option<BranchBuildContract>,
    pub requires: RequiresContract,
    pub target: TextMap<String, PackageTargetContract>,
}

/// How a package becomes a Scoop manifest.
#[derive(Debug, PartialEq, Eq)]
pub struct ScoopBranch {
    pub script: Option<String>,
    pub manifest_template: Option<String>,
    /// The programs that the package puts on the path.
    pub bin: Vec<String>,
    pub build: Option<BranchBuildContract>,
    pub requires: RequiresContract,
    pub target: TextMap<String, PackageTargetContract>,
}

/// The script that builds a branch, and the container that it runs in.
#[derive(Debug, PartialEq, Eq)]
pub struct BranchBuildContract {
    pub script: String,
    pub container: Option<ContainerContract>,
}

/// What a [`BranchBuildContract`] holds.
pub struct BranchBuildContractView {
    pub script: Seq<char>,
    pub container: Option<ContainerContractView>,
}

impl DeepView for BranchBuildContract {
    type V = BranchBuildContractView;

    open spec fn deep_view(&self) -> BranchBuildContractView {
        BranchBuildContractView {
            script: self.script@,
            container: self.container.deep_view(),
        }
    }
}

impl Clone for BranchBuildContract {
    fn clone(&self) -> (copy: Self)
        ensures
            copy.deep_view() == self.deep_view(),
    {
        let copy = BranchBuildContract {
            script: self.script.clone(),
            container: self.container.clone(),
        };
        copy
    }
}

/// A container: an image that exists, or a Dockerfile to build one from.
#[derive(Debug, PartialEq, Eq)]
pub struct ContainerContract {
    pub image: Option<String>,
    pub dockerfile: Option<String>,
}

/// What a [`ContainerContract`] holds.
pub struct ContainerContractView {
    pub image: Option<Seq<char>>,
    pub dockerfile: Option<Seq<char>>,
}

impl DeepView for ContainerContract {
    type V = ContainerContractView;

    open spec fn deep_view(&self) -> ContainerContractView {
        ContainerContractView {
            image: self.image.deep_view(),
            dockerfile: self.dockerfile.deep_view(),
        }
    }
}

impl Clone for ContainerContract {
    fn clone(&self) -> (copy: Self)
        ensures
            copy.deep_view() == self.deep_view(),
    {
        let copy = ContainerContract {
            image: self.image.clone(),
            dockerfile: self.dockerfile.clone(),
        };
        copy
    }
}

/// The packages that a branch requires, with bounds on their versions.
#[derive(Debug, PartialEq, Eq)]
pub struct RequiresContract {
    pub packages: TextMap<PackageId, RequiredPackageContract>,
}

/// One required package.
#[derive(Debug, PartialEq, Eq)]
pub struct RequiredPackageContract {
    pub version: VersionBoundContract,
}

/// The least and the greatest version that a requirement accepts.
#[derive(Debug, PartialEq, Eq)]
pub struct VersionBoundContract {
    pub minimum: Option<VersionBoundSourceContract>,
    pub maximum: Option<VersionBoundSourceContract>,
}

/// Where a version bound comes from.
#[derive(Debug, PartialEq, Eq)]
pub struct VersionBoundSourceContract {
    pub from: VersionBoundSource,
}

/// A version bound: the version of the requiring package, that of the required one, or
/// a stated version.
#[derive(Debug, PartialEq, Eq)]
pub enum VersionBoundSource {
    SelfPackage,
    DependencyPackage,
    Literal(String),
}

/// What the builds for one target are given.
#[derive(Debug, PartialEq, Eq)]
pub struct PackageTargetContract {
    pub env: TextMap<String, EnvBinding>,
}

impl DeepView for ReleaseContract {
    type V = ReleaseContract;

    open spec fn deep_view(&self) -> ReleaseContract {
        *self
    }
}

impl DeepView for PackageContract {
    type V = PackageContract;

    open spec fn deep_view(&self) -> PackageContract {
        *self
    }
}

impl DeepView for EnvBinding {
    type V = EnvBinding;

    open spec fn deep_view(&self) -> EnvBinding {
        *self
    }
}

impl DeepView for RequiredPackageContract {
    type V = RequiredPackageContract;

    open spec fn deep_view(&self) -> RequiredPackageContract {
        *self
    }
}

impl DeepView for PackageTargetContract {
    type V = PackageTargetContract;

    open spec fn deep_view(&self) -> PackageTargetContract {
        *self
    }
}

impl Default for PackageBuildContract {
    fn default() -> (build: Self)
        ensures
            build.env.items().len() == 0,
    {
        PackageBuildContract { env: TextMap::new() }
    }
}

impl Default for RequiresContract {
    fn default() -> (requires_nothing: Self)
        ensures
            requires_nothing.packages.items().len() == 0,
    {
        RequiresContract { packages: TextMap::new() }
    }
}

impl Default for PackageTargetContract {
    fn default() -> (target: Self)
        ensures
            target.env.items().len() == 0,
    {
        PackageTargetContract { env: TextMap::new() }
    }
}

impl Default for VersionBoundContract {
    fn default() -> (bounds: Self)
        ensures
            bounds.minimum is None,
            bounds.maximum is None,
    {
        VersionBoundContract { minimum: None, maximum: None }
    }
}

impl Default for PackageContract {
    fn default() -> (package: Self)
        ensures
            package.manifest is None && package.version is None && package.description is None,
            package.license is None && package.homepage is None && package.repository is None,
            package.build.env.items().len() == 0,
            package.deb is None && package.rpm is None,
            package.brew is None && package.scoop is None,
    {
        PackageContract {
            manifest: None,
            version: None,
            description: None,
            license: None,
            homepage: None,
            repository: None,
            build: PackageBuildContract::default(),
            deb: None,
            rpm: None,
            brew: None,
            scoop: None,
        }
    }
}

// ---------------------------------------------------------------------------
// Destinations
// ---------------------------------------------------------------------------
/// Where packages are published.
#[derive(Debug, PartialEq, Eq)]
pub struct DestinationContract {
    pub s3: S3DestinationContract,
}

/// An S3 bucket and what each package system publishes there.
#[derive(Debug, PartialEq, Eq)]
pub struct S3DestinationContract {
    pub bucket: String,
    pub endpoint: EnvRef,
    pub access_key_id: EnvRef,
    pub secret_access_key: EnvRef,
    pub brew: Option<S3BrewDestination>,
    pub scoop: Option<S3ScoopDestination>,
    pub deb: Option<S3DebDestination>,
    pub rpm: Option<S3RpmDestination>,
}

/// A value that is taken from the environment.
#[derive(Debug, PartialEq, Eq)]
pub struct EnvRef {
    pub env: String,
}

/// Where Homebrew archives go, by channel.
#[derive(Debug, PartialEq, Eq)]
pub struct S3BrewDestination {
    pub stable: S3BrewChannelDestination,
    pub preview: S3BrewChannelDestination,
}

/// Where the Homebrew archives of one channel go.
#[derive(Debug, PartialEq, Eq)]
pub struct S3BrewChannelDestination {
    pub prefix: String,
    pub public_base_url: String,
    pub tap: GitIndexDestination,
}

/// Where Scoop archives go, by channel.
#[derive(Debug, PartialEq, Eq)]
pub struct S3ScoopDestination {
    pub stable: S3ScoopChannelDestination,
    pub preview: S3ScoopChannelDestination,
}

/// Where the Scoop archives of one channel go.
#[derive(Debug, PartialEq, Eq)]
pub struct S3ScoopChannelDestination {
    pub prefix: String,
    pub public_base_url: String,
    pub bucket: GitIndexDestination,
}

/// A Git repository that indexes packages.
#[derive(Debug, PartialEq, Eq)]
pub struct GitIndexDestination {
    pub repository: String,
    pub base_branch: String,
    pub token: EnvRef,
}

/// Where Debian packages go.
#[derive(Debug, PartialEq, Eq)]
pub struct S3DebDestination {
    pub stable: S3DebChannelDestination,
    pub preview: S3DebChannelDestination,
    pub signing: DebSigning,
    pub publish: Option<PublishContract>,
}

/// Where the Debian packages of one channel go.
#[derive(Debug, PartialEq, Eq)]
pub struct S3DebChannelDestination {
    pub prefix: String,
    pub suite: String,
}

/// How a Debian repository is signed.
#[derive(Debug, PartialEq, Eq)]
pub struct DebSigning {
    pub key: EnvRef,
    pub passphrase: EnvRef,
    pub fingerprint: EnvRef,
}

/// Where RPM packages go.
#[derive(Debug, PartialEq, Eq)]
pub struct S3RpmDestination {
    pub stable: S3RpmChannelDestination,
    pub preview: S3RpmChannelDestination,
    pub publish: Option<PublishContract>,
}

/// Where the RPM packages of one channel go.
#[derive(Debug, PartialEq, Eq)]
pub struct S3RpmChannelDestination {
    pub prefix: String,
}

/// The script that publishes a repository, and the container that it runs in.
#[derive(Debug, PartialEq, Eq)]
pub struct PublishContract {
    pub script: String,
    pub container: Option<ContainerContract>,
}

/// What a [`PublishContract`] holds.
pub struct PublishContractView {
    pub script: Seq<char>,
    pub container: Option<ContainerContractView>,
}

impl DeepView for PublishContract {
    type V = PublishContractView;

    open spec fn deep_view(&self) -> PublishContractView {
        PublishContractView {
            script: self.script@,
            container: self.container.deep_view(),
        }
    }
}

impl Clone for PublishContract {
    fn clone(&self) -> (copy: Self)
        ensures
            copy.deep_view() == self.deep_view(),
    {
        let copy = PublishContract {
            script: self.script.clone(),
            container: self.container.clone(),
        };
        copy
    }
}

// ---------------------------------------------------------------------------
// Branches
// ---------------------------------------------------------------------------
/// The branch of a package for one package system.
#[derive(Debug, Clone, Copy, PartialEq, Eq)]
pub enum PackageBranchRef<'a> {
    Deb(&'a DebBranch),
    Rpm(&'a RpmBranch),
    Brew(&'a BrewBranch),
    Scoop(&'a ScoopBranch),
}

/// The package of the contract with the given identifier.
pub open spec fn package_of(contract: ReleaseContract, id: Seq<char>) -> Option<PackageContract> {
    lookup(contract.package.items(), id)
}

/// The branch of a package for a package system.
pub open spec fn branch_of<'a>(package: PackageContract, system: PackageSystem) -> Option<
    PackageBranchRef<'a>,
> {
    match system {
        PackageSystem::Deb => match package.deb {
            Some(branch) => Some(PackageBranchRef::Deb(&branch)),
            None => None,
        },
        PackageSystem::Rpm => match package.rpm {
            Some(branch) => Some(PackageBranchRef::Rpm(&branch)),
            None => None,
        },
        PackageSystem::Brew => match package.brew {
            Some(branch) => Some(PackageBranchRef::Brew(&branch)),
            None => None,
        },
        PackageSystem::Scoop => match package.scoop {
            Some(branch) => Some(PackageBranchRef::Scoop(&branch)),
            None => None,
        },
    }
}

/// The package systems in the order in which a package lists its branches.
pub open spec fn system_order() -> Seq<PackageSystem> {
    seq![PackageSystem::Deb, PackageSystem::Rpm, PackageSystem::Brew, PackageSystem::Scoop]
}

/// The branches of a package for the first `count` package systems.
pub open spec fn branches_up_to<'a>(package: PackageContract, count: int) -> Seq<
    PackageBranchRef<'a>,
>
    decreases count,
{
    if count <= 0 {
        Seq::empty()
    } else {
        match branch_of(package, system_order()[count - 1]) {
            Some(branch) => branches_up_to(package, count - 1).push(branch),
            None => branches_up_to(package, count - 1),
        }
    }
}

/// The package system of a branch.
pub open spec fn system_of(branch: PackageBranchRef<'_>) -> PackageSystem {
    match branch {
        PackageBranchRef::Deb(_) => PackageSystem::Deb,
        PackageBranchRef::Rpm(_) => PackageSystem::Rpm,
        PackageBranchRef::Brew(_) => PackageSystem::Brew,
        PackageBranchRef::Scoop(_) => PackageSystem::Scoop,
    }
}

/// The packages that a branch requires.
pub open spec fn requires_of(branch: PackageBranchRef<'_>) -> Seq<
    (PackageId, RequiredPackageContract),
> {
    match branch {
        PackageBranchRef::Deb(branch) => branch.requires.packages.items(),
        PackageBranchRef::Rpm(branch) => branch.requires.packages.items(),
        PackageBranchRef::Brew(branch) => branch.requires.packages.items(),
        PackageBranchRef::Scoop(branch) => branch.requires.packages.items(),
    }
}

/// The targets that a branch treats specially.
pub open spec fn targets_of(branch: PackageBranchRef<'_>) -> Seq<(String, PackageTargetContract)> {
    match branch {
        PackageBranchRef::Deb(branch) => branch.target.items(),
        PackageBranchRef::Rpm(branch) => branch.target.items(),
        PackageBranchRef::Brew(branch) => branch.target.items(),
        PackageBranchRef::Scoop(branch) => branch.target.items(),
    }
}

/// The architecture class of a Linux branch.
pub open spec fn architecture_of(branch: PackageBranchRef<'_>) -> Option<ArchitectureClass> {
    match branch {
        PackageBranchRef::Deb(branch) => Some(branch.architecture),
        PackageBranchRef::Rpm(branch) => Some(branch.architecture),
        PackageBranchRef::Brew(_) | PackageBranchRef::Scoop(_) => None,
    }
}

/// The Dockerfile of a Linux branch.
pub open spec fn dockerfile_of(branch: PackageBranchRef<'_>) -> Option<Seq<char>> {
    match branch {
        PackageBranchRef::Deb(branch) => branch.dockerfile.deep_view(),
        PackageBranchRef::Rpm(branch) => branch.dockerfile.deep_view(),
        PackageBranchRef::Brew(_) | PackageBranchRef::Scoop(_) => None,
    }
}

/// The script of a Homebrew or Scoop branch.
pub open spec fn script_of(branch: PackageBranchRef<'_>) -> Option<Seq<char>> {
    match branch {
        PackageBranchRef::Deb(_) | PackageBranchRef::Rpm(_) => None,
        PackageBranchRef::Brew(branch) => branch.script.deep_view(),
        PackageBranchRef::Scoop(branch) => branch.script.deep_view(),
    }
}

/// The manifest template of a Homebrew or Scoop branch.
pub open spec fn template_of(branch: PackageBranchRef<'_>) -> Option<Seq<char>> {
    match branch {
        PackageBranchRef::Deb(_) | PackageBranchRef::Rpm(_) => None,
        PackageBranchRef::Brew(branch) => branch.manifest_template.deep_view(),
        PackageBranchRef::Scoop(branch) => branch.manifest_template.deep_view(),
    }
}

/// The build that a branch states.
pub open spec fn stated_build(branch: PackageBranchRef<'_>) -> Option<BranchBuildContract> {
    match branch {
        PackageBranchRef::Deb(branch) => branch.build,
        PackageBranchRef::Rpm(branch) => branch.build,
        PackageBranchRef::Brew(branch) => branch.build,
        PackageBranchRef::Scoop(branch) => branch.build,
    }
}

/// How a branch is built: as it states, or else by its executor. A Linux branch is then
/// built by what the image of its Dockerfile runs by itself, any other one by its script.
pub open spec fn build_of(branch: PackageBranchRef<'_>) -> BranchBuildContractView {
    match stated_build(branch) {
        Some(build) => build.deep_view(),
        None => if branch is Deb || branch is Rpm {
            BranchBuildContractView {
                script: Seq::empty(),
                container: Some(
                    ContainerContractView { image: None, dockerfile: dockerfile_of(branch) },
                ),
            }
        } else {
            BranchBuildContractView {
                script: match script_of(branch) {
                    Some(script) => script,
                    None => Seq::empty(),
                },
                container: None,
            }
        },
    }
}

impl RequiresContract {
    /// Whether no package is required.
    pub fn is_empty(&self) -> (empty: bool)
        ensures
            empty == (self.packages.items().len() == 0),
    {
        self.packages.is_empty()
    }

    /// The requirement on a package.
    pub fn get(&self, package: &str) -> (found: Option<&RequiredPackageContract>)
        ensures
            match found {
                Some(required) => lookup(self.packages.items(), package@) == Some(*required),
                None => !has_key(self.packages.items(), package@),
            },
    {
        self.packages.get(package)
    }

    /// The number of required packages.
    pub fn len(&self) -> (count: usize)
        ensures
            count == self.packages.items().len(),
    {
        self.packages.len()
    }

    /// The required package at `i`, in the order of the identifiers.
    pub fn entry(&self, i: usize) -> (entry: (&PackageId, &RequiredPackageContract))
        requires
            i < self.packages.items().len(),
        ensures
            (*entry.0, *entry.1) == self.packages.items()[i as int],
    {
        (self.packages.key_at(i), self.packages.value_at(i))
    }
}

impl<'a> PackageBranchRef<'a> {
    /// The package system of the branch.
    pub fn system(self) -> (system: PackageSystem)
        ensures
            system == system_of(self),
    {
        match self {
            PackageBranchRef::Deb(_) => PackageSystem::Deb,
            PackageBranchRef::Rpm(_) => PackageSystem::Rpm,
            PackageBranchRef::Brew(_) => PackageSystem::Brew,
            PackageBranchRef::Scoop(_) => PackageSystem::Scoop,
        }
    }

    /// The packages that the branch requires.
    pub fn required(self) -> (required: &'a RequiresContract)
        ensures
            required.packages.items() == requires_of(self),
    {
        match self {
            PackageBranchRef::Deb(branch) => &branch.requires,
            PackageBranchRef::Rpm(branch) => &branch.requires,
            PackageBranchRef::Brew(branch) => &branch.requires,
            PackageBranchRef::Scoop(branch) => &branch.requires,
        }
    }

    /// The script of a Homebrew or Scoop branch.
    pub fn script(self) -> (script: Option<&'a String>)
        ensures
            script.deep_view() == script_of(self),
    {
        match self {
            PackageBranchRef::Deb(_) | PackageBranchRef::Rpm(_) => None,
            PackageBranchRef::Brew(branch) => branch.script.as_ref(),
            PackageBranchRef::Scoop(branch) => branch.script.as_ref(),
        }
    }

    /// The Dockerfile of a Linux branch.
    pub fn dockerfile(self) -> (dockerfile: Option<&'a String>)
        ensures
            dockerfile.deep_view() == dockerfile_of(self),
    {
        match self {
            PackageBranchRef::Deb(branch) => branch.dockerfile.as_ref(),
            PackageBranchRef::Rpm(branch) => branch.dockerfile.as_ref(),
            PackageBranchRef::Brew(_) | PackageBranchRef::Scoop(_) => None,
        }
    }

    /// The manifest template of a Homebrew or Scoop branch.
    pub fn manifest_template(self) -> (template: Option<&'a String>)
        ensures
            template.deep_view() == template_of(self),
    {
        match self {
            PackageBranchRef::Deb(_) | PackageBranchRef::Rpm(_) => None,
            PackageBranchRef::Brew(branch) => branch.manifest_template.as_ref(),
            PackageBranchRef::Scoop(branch) => branch.manifest_template.as_ref(),
        }
    }

    /// The environment bindings of the branch for one target.
    pub fn target_env(self, target: &str) -> (env: Option<&'a TextMap<String, EnvBinding>>)
        ensures
            match env {
                Some(bindings) => lookup(targets_of(self), target@) matches Some(contract)
                    && contract.env == *bindings,
                None => lookup(targets_of(self), target@) is None,
            },
    {
        let found = match self {
            PackageBranchRef::Deb(branch) => branch.target.get(target),
            PackageBranchRef::Rpm(branch) => branch.target.get(target),
            PackageBranchRef::Brew(branch) => branch.target.get(target),
            PackageBranchRef::Scoop(branch) => branch.target.get(target),
        };
        match found {
            Some(contract) => Some(&contract.env),
            None => None,
        }
    }

    /// The architecture class of a Linux branch.
    pub fn architecture(self) -> (class: Option<ArchitectureClass>)
        ensures
            class == architecture_of(self),
    {
        match self {
            PackageBranchRef::Deb(branch) => Some(branch.architecture),
            PackageBranchRef::Rpm(branch) => Some(branch.architecture),
            PackageBranchRef::Brew(_) | PackageBranchRef::Scoop(_) => None,
        }
    }

    /// How the branch is built.
    pub fn build(self) -> (build: BranchBuildContract)
        ensures
            build.deep_view() == build_of(self),
    {
        let stated = match self {
            PackageBranchRef::Deb(branch) => branch.build.as_ref(),
            PackageBranchRef::Rpm(branch) => branch.build.as_ref(),
            PackageBranchRef::Brew(branch) => branch.build.as_ref(),
            PackageBranchRef::Scoop(branch) => branch.build.as_ref(),
        };
        if let Some(build) = stated {
            return build.clone();
        }
        let dockerfile = match self.dockerfile() {
            Some(path) => Some(path.clone()),
            None => None,
        };
        match self {
            PackageBranchRef::Deb(_) | PackageBranchRef::Rpm(_) => BranchBuildContract {
                script: String::new(),
                container: Some(ContainerContract { image: None, dockerfile }),
            },
            PackageBranchRef::Brew(_) | PackageBranchRef::Scoop(_) => BranchBuildContract {
                script: match self.script() {
                    Some(script) => script.clone(),
                    None => String::new(),
                },
                container: None,
            },
        }
    }
}

impl PackageContract {
    /// The branch of the package for a package system.
    pub fn branch(&self, system: PackageSystem) -> (branch: Option<PackageBranchRef<'_>>)
        ensures
            branch == branch_of(*self, system),
            branch matches Some(found) ==> system_of(found) == system,
    {
        match system {
            PackageSystem::Deb => match &self.deb {
                Some(branch) => Some(PackageBranchRef::Deb(branch)),
                None => None,
            },
            PackageSystem::Rpm => match &self.rpm {
                Some(branch) => Some(PackageBranchRef::Rpm(branch)),
                None => None,
            },
            PackageSystem::Brew => match &self.brew {
                Some(branch) => Some(PackageBranchRef::Brew(branch)),
                None => None,
            },
            PackageSystem::Scoop => match &self.scoop {
                Some(branch) => Some(PackageBranchRef::Scoop(branch)),
                None => None,
            },
        }
    }

    /// The branches of the package: Debian, RPM, Homebrew, Scoop, as far as it has them.
    pub fn branches(&self) -> (branches: Vec<PackageBranchRef<'_>>)
        ensures
            branches@ == branches_up_to(*self, 4),
    {
        proof {
            reveal_with_fuel(branches_up_to, 5);
        }
        let mut branches: Vec<PackageBranchRef<'_>> = Vec::new();
        if let Some(branch) = self.branch(PackageSystem::Deb) {
            branches.push(branch);
        }
        if let Some(branch) = self.branch(PackageSystem::Rpm) {
            branches.push(branch);
        }
        if let Some(branch) = self.branch(PackageSystem::Brew) {
            branches.push(branch);
        }
        if let Some(branch) = self.branch(PackageSystem::Scoop) {
            branches.push(branch);
        }
        branches
    }
}

impl ReleaseContract {
    /// The package with the given identifier.
    pub fn package(&self, id: &str) -> (package: Option<&PackageContract>)
        ensures
            match package {
                Some(found) => package_of(*self, id@) == Some(*found),
                None => package_of(*self, id@) is None,
            },
    {
        self.package.get(id)
    }

    /// The package with the given identifier, with that identifier.
    pub fn package_entry(&self, id: &str) -> (entry: Option<(&PackageId, &PackageContract)>)
        ensures
            match entry {
                Some(found) => package_of(*self, id@) == Some(*found.1) && found.0.deep_view() == id@
                    && entry_of(self.package.items(), id@) == Some((*found.0, *found.1)),
                None => package_of(*self, id@) is None,
            },
    {
        match self.package.position(id) {
            Some(i) => Some((self.package.key_at(i), self.package.value_at(i))),
            None => None,
        }
    }
}

// ---------------------------------------------------------------------------
// Validation
// ---------------------------------------------------------------------------
/// What is wrong with a release contract.
#[allow(inconsistent_fields)]
#[derive(Debug, PartialEq, Eq)]
pub enum ValidateContractError {
    /// Reported as `package {package} must not define both manifest and version`.
    ManifestAndVersion { package: PackageId },
    /// Reported as `package {package} must define manifest or version`.
    MissingVersion { package: PackageId },
    /// Reported as `package {package} root version {version} must be a source version`.
    PackageSystemVersionAtRoot { package: PackageId, version: String },
    /// Reported as `package {package} has invalid source version {version}`.
    InvalidSourceVersion { package: PackageId, version: String },
    /// Reported as `package {package} missing metadata field {field}`.
    MissingPackageMetadata { package: PackageId, field: &'static str },
    /// Reported as `package {package} {system} branch must use dockerfile executor`.
    MissingDockerfileExecutor { package: PackageId, system: PackageSystem },
    /// Reported as `package {package} {system} branch must use script executor`.
    MissingScriptExecutor { package: PackageId, system: PackageSystem },
    /// Reported as `package {package} {system} branch missing manifest_template`.
    MissingManifestTemplate { package: PackageId, system: PackageSystem },
    /// Reported as `package {package} {system} branch {field} must not be empty`.
    EmptyBranchPath { package: PackageId, system: PackageSystem, field: &'static str },
    /// Reported as `package {package} {system} branch {field} must not be empty`.
    EmptyLinuxVersionPart { package: PackageId, system: PackageSystem, field: &'static str },
    /// Reported as `package {package} {system} branch requires missing package {dependency}`.
    MissingRequiredPackage { package: PackageId, system: PackageSystem, dependency: PackageId },
    /// Reported as `package {package} {system} branch requires package {dependency} without {system} branch`.
    MissingRequiredPackageBranch { package: PackageId, system: PackageSystem, dependency: PackageId },
    /// Reported as `destination s3 {system} branch missing publish script`.
    MissingPublishScript { system: PackageSystem },
    /// Reported as `destination s3 {system} branch has no package {system} branch`.
    DestinationWithoutPackageBranch { system: PackageSystem },
    /// Reported as `package {package} env binding {name} must set exactly one of env or value`.
    InvalidEnvBinding { package: PackageId, system: Option<PackageSystem>, name: String },
    /// Reported as `package {package} env binding {name} must not be empty`.
    EmptyEnvBinding { package: PackageId, system: Option<PackageSystem>, name: String },
    /// Reported as `package {package} env binding {name} optional requires env`.
    OptionalValueBinding { package: PackageId, system: Option<PackageSystem>, name: String },
    /// Reported as `package {package} env binding {name} container path requires env`.
    ContainerPathValueBinding { package: PackageId, system: Option<PackageSystem>, name: String },
    /// Reported as `package {package} env binding {name} container path must not be empty`.
    EmptyContainerPath { package: PackageId, system: Option<PackageSystem>, name: String },
    /// Reported as `destination s3 {field} env ref must not be empty`.
    EmptyEnvRef { field: &'static str },
}

/// What a [`ValidateContractError`] holds.
#[allow(inconsistent_fields)]
pub enum ValidateContractErrorView {
    ManifestAndVersion { package: Seq<char> },
    MissingVersion { package: Seq<char> },
    PackageSystemVersionAtRoot { package: Seq<char>, version: Seq<char> },
    InvalidSourceVersion { package: Seq<char>, version: Seq<char> },
    MissingPackageMetadata { package: Seq<char>, field: Seq<char> },
    MissingDockerfileExecutor { package: Seq<char>, system: PackageSystem },
    MissingScriptExecutor { package: Seq<char>, system: PackageSystem },
    MissingManifestTemplate { package: Seq<char>, system: PackageSystem },
    EmptyBranchPath { package: Seq<char>, system: PackageSystem, field: Seq<char> },
    EmptyLinuxVersionPart { package: Seq<char>, system: PackageSystem, field: Seq<char> },
    MissingRequiredPackage { package: Seq<char>, system: PackageSystem, dependency: Seq<char> },
    MissingRequiredPackageBranch { package: Seq<char>, system: PackageSystem, dependency: Seq<char> },
    MissingPublishScript { system: PackageSystem },
    DestinationWithoutPackageBranch { system: PackageSystem },
    InvalidEnvBinding { package: Seq<char>, system: Option<PackageSystem>, name: Seq<char> },
    EmptyEnvBinding { package: Seq<char>, system: Option<PackageSystem>, name: Seq<char> },
    OptionalValueBinding { package: Seq<char>, system: Option<PackageSystem>, name: Seq<char> },
    ContainerPathValueBinding { package: Seq<char>, system: Option<PackageSystem>, name: Seq<char> },
    EmptyContainerPath { package: Seq<char>, system: Option<PackageSystem>, name: Seq<char> },
    EmptyEnvRef { field: Seq<char> },
}

impl DeepView for ValidateContractError {
    type V = ValidateContractErrorView;

    open spec fn deep_view(&self) -> ValidateContractErrorView {
        match self {
            ValidateContractError::ManifestAndVersion { package } => ValidateContractErrorView::ManifestAndVersion {
                package: package.deep_view(),
            },
            ValidateContractError::MissingVersion { package } => ValidateContractErrorView::MissingVersion {
                package: package.deep_view(),
            },
            ValidateContractError::PackageSystemVersionAtRoot { package, version } => ValidateContractErrorView::PackageSystemVersionAtRoot {
                package: package.deep_view(),
                version: version@,
            },
            ValidateContractError::InvalidSourceVersion { package, version } => ValidateContractErrorView::InvalidSourceVersion {
                package: package.deep_view(),
                version: version@,
            },
            ValidateContractError::MissingPackageMetadata { package, field } => ValidateContractErrorView::MissingPackageMetadata {
                package: package.deep_view(),
                field: field@,
            },
            ValidateContractError::MissingDockerfileExecutor { package, system } => ValidateContractErrorView::MissingDockerfileExecutor {
                package: package.deep_view(),
                system: *system,
            },
            ValidateContractError::MissingScriptExecutor { package, system } => ValidateContractErrorView::MissingScriptExecutor {
                package: package.deep_view(),
                system: *system,
            },
            ValidateContractError::MissingManifestTemplate { package, system } => ValidateContractErrorView::MissingManifestTemplate {
                package: package.deep_view(),
                system: *system,
            },
            ValidateContractError::EmptyBranchPath { package, system, field } => ValidateContractErrorView::EmptyBranchPath {
                package: package.deep_view(),
                system: *system,
                field: field@,
            },
            ValidateContractError::EmptyLinuxVersionPart { package, system, field } => ValidateContractErrorView::EmptyLinuxVersionPart {
                package: package.deep_view(),
                system: *system,
                field: field@,
            },
            ValidateContractError::MissingRequiredPackage { package, system, dependency } => ValidateContractErrorView::MissingRequiredPackage {
                package: package.deep_view(),
                system: *system,
                dependency: dependency.deep_view(),
            },
            ValidateContractError::MissingRequiredPackageBranch { package, system, dependency } => ValidateContractErrorView::MissingRequiredPackageBranch {
                package: package.deep_view(),
                system: *system,
                dependency: dependency.deep_view(),
            },
            ValidateContractError::MissingPublishScript { system } => ValidateContractErrorView::MissingPublishScript {
                system: *system,
            },
            ValidateContractError::DestinationWithoutPackageBranch { system } => ValidateContractErrorView::DestinationWithoutPackageBranch {
                system: *system,
            },
            ValidateContractError::InvalidEnvBinding { package, system, name } => ValidateContractErrorView::InvalidEnvBinding {
                package: package.deep_view(),
                system: system.deep_view(),
                name: name@,
            },
            ValidateContractError::EmptyEnvBinding { package, system, name } => ValidateContractErrorView::EmptyEnvBinding {
                package: package.deep_view(),
                system: system.deep_view(),
                name: name@,
            },
            ValidateContractError::OptionalValueBinding { package, system, name } => ValidateContractErrorView::OptionalValueBinding {
                package: package.deep_view(),
                system: system.deep_view(),
                name: name@,
            },
            ValidateContractError::ContainerPathValueBinding { package, system, name } => ValidateContractErrorView::ContainerPathValueBinding {
                package: package.deep_view(),
                system: system.deep_view(),
                name: name@,
            },
            ValidateContractError::EmptyContainerPath { package, system, name } => ValidateContractErrorView::EmptyContainerPath {
                package: package.deep_view(),
                system: system.deep_view(),
                name: name@,
            },
            ValidateContractError::EmptyEnvRef { field } => ValidateContractErrorView::EmptyEnvRef {
                field: field@,
            },
        }
    }
}

impl ValidateContractErrorView {
    /// The message of the error.
    pub open spec fn message(self) -> Seq<char> {
        match self {
            ValidateContractErrorView::ManifestAndVersion { package } => "package "@ + package + " must not define both manifest and version"@,
            ValidateContractErrorView::MissingVersion { package } => "package "@ + package + " must define manifest or version"@,
            ValidateContractErrorView::PackageSystemVersionAtRoot { package, version } => "package "@ + package + " root version "@ + version + " must be a source version"@,
            ValidateContractErrorView::InvalidSourceVersion { package, version } => "package "@ + package + " has invalid source version "@ + version,
            ValidateContractErrorView::MissingPackageMetadata { package, field } => "package "@ + package + " missing metadata field "@ + field,
            ValidateContractErrorView::MissingDockerfileExecutor { package, system } => "package "@ + package + " "@ + system_name(system) + " branch must use dockerfile executor"@,
            ValidateContractErrorView::MissingScriptExecutor { package, system } => "package "@ + package + " "@ + system_name(system) + " branch must use script executor"@,
            ValidateContractErrorView::MissingManifestTemplate { package, system } => "package "@ + package + " "@ + system_name(system) + " branch missing manifest_template"@,
            ValidateContractErrorView::EmptyBranchPath { package, system, field } => "package "@ + package + " "@ + system_name(system) + " branch "@ + field + " must not be empty"@,
            ValidateContractErrorView::EmptyLinuxVersionPart { package, system, field } => "package "@ + package + " "@ + system_name(system) + " branch "@ + field + " must not be empty"@,
            ValidateContractErrorView::MissingRequiredPackage { package, system, dependency } => "package "@ + package + " "@ + system_name(system) + " branch requires missing package "@ + dependency,
            ValidateContractErrorView::MissingRequiredPackageBranch { package, system, dependency } => "package "@ + package + " "@ + system_name(system) + " branch requires package "@ + dependency + " without "@ + system_name(system) + " branch"@,
            ValidateContractErrorView::MissingPublishScript { system } => "destination s3 "@ + system_name(system) + " branch missing publish script"@,
            ValidateContractErrorView::DestinationWithoutPackageBranch { system } => "destination s3 "@ + system_name(system) + " branch has no package "@ + system_name(system) + " branch"@,
            ValidateContractErrorView::InvalidEnvBinding { package, name, .. } => "package "@ + package + " env binding "@ + name + " must set exactly one of env or value"@,
            ValidateContractErrorView::EmptyEnvBinding { package, name, .. } => "package "@ + package + " env binding "@ + name + " must not be empty"@,
            ValidateContractErrorView::OptionalValueBinding { package, name, .. } => "package "@ + package + " env binding "@ + name + " optional requires env"@,
            ValidateContractErrorView::ContainerPathValueBinding { package, name, .. } => "package "@ + package + " env binding "@ + name + " container path requires env"@,
            ValidateContractErrorView::EmptyContainerPath { package, name, .. } => "package "@ + package + " env binding "@ + name + " container path must not be empty"@,
            ValidateContractErrorView::EmptyEnvRef { field } => "destination s3 "@ + field + " env ref must not be empty"@,
        }
    }
}

impl ValidateContractError {
    /// The message of the error.
    pub fn to_string(&self) -> (text: String)
        ensures
            text@ == self.deep_view().message(),
    {
        match self {
            ValidateContractError::ManifestAndVersion { package } => {
                let mut text = "package ".to_owned();
                text.append(package.as_str());
                text.append(" must not define both manifest and version");
                text
            },
            ValidateContractError::MissingVersion { package } => {
                let mut text = "package ".to_owned();
                text.append(package.as_str());
                text.append(" must define manifest or version");
                text
            },
            ValidateContractError::PackageSystemVersionAtRoot { package, version } => {
                let mut text = "package ".to_owned();
                text.append(package.as_str());
                text.append(" root version ");
                text.append(version.as_str());
                text.append(" must be a source version");
                text
            },
            ValidateContractError::InvalidSourceVersion { package, version } => {
                let mut text = "package ".to_owned();
                text.append(package.as_str());
                text.append(" has invalid source version ");
                text.append(version.as_str());
                text
            },
            ValidateContractError::MissingPackageMetadata { package, field } => {
                let mut text = "package ".to_owned();
                text.append(package.as_str());
                text.append(" missing metadata field ");
                text.append(field);
                text
            },
            ValidateContractError::MissingDockerfileExecutor { package, system } => {
                let mut text = "package ".to_owned();
                text.append(package.as_str());
                text.append(" ");
                text.append(system.as_str());
                text.append(" branch must use dockerfile executor");
                text
            },
            ValidateContractError::MissingScriptExecutor { package, system } => {
                let mut text = "package ".to_owned();
                text.append(package.as_str());
                text.append(" ");
                text.append(system.as_str());
                text.append(" branch must use script executor");
                text
            },
            ValidateContractError::MissingManifestTemplate { package, system } => {
                let mut text = "package ".to_owned();
                text.append(package.as_str());
                text.append(" ");
                text.append(system.as_str());
                text.append(" branch missing manifest_template");
                text
            },
            ValidateContractError::EmptyBranchPath { package, system, field } => {
                let mut text = "package ".to_owned();
                text.append(package.as_str());
                text.append(" ");
                text.append(system.as_str());
                text.append(" branch ");
                text.append(field);
                text.append(" must not be empty");
                text
            },
            ValidateContractError::EmptyLinuxVersionPart { package, system, field } => {
                let mut text = "package ".to_owned();
                text.append(package.as_str());
                text.append(" ");
                text.append(system.as_str());
                text.append(" branch ");
                text.append(field);
                text.append(" must not be empty");
                text
            },
            ValidateContractError::MissingRequiredPackage { package, system, dependency } => {
                let mut text = "package ".to_owned();
                text.append(package.as_str());
                text.append(" ");
                text.append(system.as_str());
                text.append(" branch requires missing package ");
                text.append(dependency.as_str());
                text
            },
            ValidateContractError::MissingRequiredPackageBranch { package, system, dependency } => {
                let mut text = "package ".to_owned();
                text.append(package.as_str());
                text.append(" ");
                text.append(system.as_str());
                text.append(" branch requires package ");
                text.append(dependency.as_str());
                text.append(" without ");
                text.append(system.as_str());
                text.append(" branch");
                text
            },
            ValidateContractError::MissingPublishScript { system } => {
                let mut text = "destination s3 ".to_owned();
                text.append(system.as_str());
                text.append(" branch missing publish script");
                text
            },
            ValidateContractError::DestinationWithoutPackageBranch { system } => {
                let mut text = "destination s3 ".to_owned();
                text.append(system.as_str());
                text.append(" branch has no package ");
                text.append(system.as_str());
                text.append(" branch");
                text
            },
            ValidateContractError::InvalidEnvBinding { package, name, .. } => {
                let mut text = "package ".to_owned();
                text.append(package.as_str());
                text.append(" env binding ");
                text.append(name.as_str());
                text.append(" must set exactly one of env or value");
                text
            },
            ValidateContractError::EmptyEnvBinding { package, name, .. } => {
                let mut text = "package ".to_owned();
                text.append(package.as_str());
                text.append(" env binding ");
                text.append(name.as_str());
                text.append(" must not be empty");
                text
            },
            ValidateContractError::OptionalValueBinding { package, name, .. } => {
                let mut text = "package ".to_owned();
                text.append(package.as_str());
                text.append(" env binding ");
                text.append(name.as_str());
                text.append(" optional requires env");
                text
            },
            ValidateContractError::ContainerPathValueBinding { package, name, .. } => {
                let mut text = "package ".to_owned();
                text.append(package.as_str());
                text.append(" env binding ");
                text.append(name.as_str());
                text.append(" container path requires env");
                text
            },
            ValidateContractError::EmptyContainerPath { package, name, .. } => {
                let mut text = "package ".to_owned();
                text.append(package.as_str());
                text.append(" env binding ");
                text.append(name.as_str());
                text.append(" container path must not be empty");
                text
            },
            ValidateContractError::EmptyEnvRef { field } => {
                let mut text = "destination s3 ".to_owned();
                text.append(field);
                text.append(" env ref must not be empty");
                text
            },
        }
    }
}

/// What is wrong with one environment binding: it takes its value from exactly one of
/// the environment and the contract, that is not empty, and only what is taken from the
/// environment can be optional or be mounted in a container.
pub open spec fn binding_fault(
    package: Seq<char>,
    system: Option<PackageSystem>,
    name: Seq<char>,
    binding: EnvBinding,
) -> Option<ValidateContractErrorView> {
    match (binding.env, binding.value) {
        (Some(env), None) => if env@.len() == 0 {
            Some(ValidateContractErrorView::EmptyEnvBinding { package, system, name })
        } else if binding.container_path is Some && binding.container_path->0@.len() == 0 {
            Some(ValidateContractErrorView::EmptyContainerPath { package, system, name })
        } else {
            None
        },
        (None, Some(value)) => if binding.container_path is Some {
            Some(ValidateContractErrorView::ContainerPathValueBinding { package, system, name })
        } else if binding.optional {
            Some(ValidateContractErrorView::OptionalValueBinding { package, system, name })
        } else if value@.len() == 0 {
            Some(ValidateContractErrorView::EmptyEnvBinding { package, system, name })
        } else {
            None
        },
        _ => Some(ValidateContractErrorView::InvalidEnvBinding { package, system, name }),
    }
}

/// The first fault of the bindings from `from` on.
pub open spec fn bindings_fault(
    package: Seq<char>,
    system: Option<PackageSystem>,
    bindings: Seq<(String, EnvBinding)>,
    from: int,
) -> Option<ValidateContractErrorView>
    decreases bindings.len() - from,
{
    if from < 0 || from >= bindings.len() {
        None
    } else {
        first_fault(
            binding_fault(package, system, bindings[from].0@, bindings[from].1),
            bindings_fault(package, system, bindings, from + 1),
        )
    }
}

/// The first fault of the bindings of the targets from `from` on.
pub open spec fn targets_fault(
    package: Seq<char>,
    system: PackageSystem,
    targets: Seq<(String, PackageTargetContract)>,
    from: int,
) -> Option<ValidateContractErrorView>
    decreases targets.len() - from,
{
    if from < 0 || from >= targets.len() {
        None
    } else {
        first_fault(
            bindings_fault(package, Some(system), targets[from].1.env.items(), 0),
            targets_fault(package, system, targets, from + 1),
        )
    }
}

/// A path that must be there and not be empty.
pub open spec fn path_fault(
    package: Seq<char>,
    system: PackageSystem,
    field: Seq<char>,
    path: Option<String>,
    missing: ValidateContractErrorView,
) -> Option<ValidateContractErrorView> {
    match path {
        None => Some(missing),
        Some(path) => if path@.len() == 0 {
            Some(ValidateContractErrorView::EmptyBranchPath { package, system, field })
        } else {
            None
        },
    }
}

/// What is wrong with the Dockerfile of a Linux branch. A branch that states its build
/// needs none.
pub open spec fn linux_executor_fault(
    package: Seq<char>,
    system: PackageSystem,
    dockerfile: Option<String>,
    build: Option<BranchBuildContract>,
) -> Option<ValidateContractErrorView> {
    if build is Some && dockerfile is None {
        None
    } else {
        path_fault(
            package,
            system,
            "dockerfile"@,
            dockerfile,
            ValidateContractErrorView::MissingDockerfileExecutor { package, system },
        )
    }
}

/// What is wrong with the script and the template of a Homebrew or Scoop branch. A branch
/// that states its build needs no script of its own, and a Scoop branch that does so can be
/// announced without a template.
pub open spec fn script_executor_fault(
    package: Seq<char>,
    system: PackageSystem,
    script: Option<String>,
    template: Option<String>,
    build: Option<BranchBuildContract>,
) -> Option<ValidateContractErrorView> {
    first_fault(
        if build is Some && script is None {
            None
        } else {
            path_fault(
                package,
                system,
                "script"@,
                script,
                ValidateContractErrorView::MissingScriptExecutor { package, system },
            )
        },
        if system is Scoop && build is Some && template is None {
            None
        } else {
            path_fault(
                package,
                system,
                "manifest_template"@,
                template,
                ValidateContractErrorView::MissingManifestTemplate { package, system },
            )
        },
    )
}

/// A revision or release must not be empty.
pub open spec fn version_part_fault(
    package: Seq<char>,
    system: PackageSystem,
    field: Seq<char>,
    value: Seq<char>,
) -> Option<ValidateContractErrorView> {
    if value.len() == 0 {
        Some(ValidateContractErrorView::EmptyLinuxVersionPart { package, system, field })
    } else {
        None
    }
}

/// The first fault of a branch: its executor, its version part, its targets.
pub open spec fn branch_fault(package: Seq<char>, branch: PackageBranchRef<'_>) -> Option<
    ValidateContractErrorView,
> {
    let own = match branch {
        PackageBranchRef::Deb(deb) => first_fault(
            linux_executor_fault(package, PackageSystem::Deb, deb.dockerfile, deb.build),
            version_part_fault(package, PackageSystem::Deb, "revision"@, deb.revision@),
        ),
        PackageBranchRef::Rpm(rpm) => first_fault(
            linux_executor_fault(package, PackageSystem::Rpm, rpm.dockerfile, rpm.build),
            version_part_fault(package, PackageSystem::Rpm, "release"@, rpm.release@),
        ),
        PackageBranchRef::Brew(brew) => script_executor_fault(
            package,
            PackageSystem::Brew,
            brew.script,
            brew.manifest_template,
            brew.build,
        ),
        PackageBranchRef::Scoop(scoop) => script_executor_fault(
            package,
            PackageSystem::Scoop,
            scoop.script,
            scoop.manifest_template,
            scoop.build,
        ),
    };
    first_fault(own, targets_fault(package, system_of(branch), targets_of(branch), 0))
}

/// The first fault of the branches from `from` on.
pub open spec fn branches_fault(
    package: Seq<char>,
    branches: Seq<PackageBranchRef<'_>>,
    from: int,
) -> Option<ValidateContractErrorView>
    decreases branches.len() - from,
{
    if from < 0 || from >= branches.len() {
        None
    } else {
        first_fault(
            branch_fault(package, branches[from]),
            branches_fault(package, branches, from + 1),
        )
    }
}

/// A stated version is a semantic version, and not one with a package revision.
pub open spec fn source_version_fault(package: Seq<char>, version: Seq<char>) -> Option<
    ValidateContractErrorView,
> {
    match parsed_version(version) {
        None => Some(ValidateContractErrorView::InvalidSourceVersion { package, version }),
        Some(parsed) => if is_revision(parsed.pre) {
            Some(ValidateContractErrorView::PackageSystemVersionAtRoot { package, version })
        } else {
            None
        },
    }
}

/// A metadata field must be there and not be empty.
pub open spec fn metadata_fault(package: Seq<char>, field: Seq<char>, value: Option<String>) -> Option<
    ValidateContractErrorView,
> {
    if lacks_text(value) {
        Some(ValidateContractErrorView::MissingPackageMetadata { package, field })
    } else {
        None
    }
}

/// The fault of where a package has its version from: exactly one of a manifest and a
/// stated version, and with the latter its metadata.
pub open spec fn version_fault(id: Seq<char>, package: PackageContract) -> Option<
    ValidateContractErrorView,
> {
    match (package.manifest, package.version) {
        (Some(_), Some(_)) => Some(ValidateContractErrorView::ManifestAndVersion { package: id }),
        (None, None) => Some(ValidateContractErrorView::MissingVersion { package: id }),
        (Some(_), None) => None,
        (None, Some(version)) => first_fault(
            source_version_fault(id, version@),
            first_fault(
                metadata_fault(id, "description"@, package.description),
                first_fault(
                    metadata_fault(id, "license"@, package.license),
                    metadata_fault(id, "homepage"@, package.homepage),
                ),
            ),
        ),
    }
}

/// The first fault of a package by itself.
pub open spec fn package_fault(id: Seq<char>, package: PackageContract) -> Option<
    ValidateContractErrorView,
> {
    first_fault(
        version_fault(id, package),
        first_fault(
            bindings_fault(id, None, package.build.env.items(), 0),
            branches_fault(id, branches_up_to(package, 4), 0),
        ),
    )
}

/// The first fault of the packages from `from` on, each by itself.
pub open spec fn packages_fault(packages: Seq<(PackageId, PackageContract)>, from: int) -> Option<
    ValidateContractErrorView,
>
    decreases packages.len() - from,
{
    if from < 0 || from >= packages.len() {
        None
    } else {
        first_fault(
            package_fault(packages[from].0.deep_view(), packages[from].1),
            packages_fault(packages, from + 1),
        )
    }
}

/// A required package exists and has a branch for the package system.
pub open spec fn dependency_fault(
    contract: ReleaseContract,
    package: Seq<char>,
    system: PackageSystem,
    dependency: Seq<char>,
) -> Option<ValidateContractErrorView> {
    match package_of(contract, dependency) {
        None => Some(
            ValidateContractErrorView::MissingRequiredPackage { package, system, dependency },
        ),
        Some(found) => if branch_of(found, system) is None {
            Some(
                ValidateContractErrorView::MissingRequiredPackageBranch {
                    package,
                    system,
                    dependency,
                },
            )
        } else {
            None
        },
    }
}

/// The first fault of the required packages from `from` on.
pub open spec fn dependencies_fault(
    contract: ReleaseContract,
    package: Seq<char>,
    system: PackageSystem,
    required: Seq<(PackageId, RequiredPackageContract)>,
    from: int,
) -> Option<ValidateContractErrorView>
    decreases required.len() - from,
{
    if from < 0 || from >= required.len() {
        None
    } else {
        first_fault(
            dependency_fault(contract, package, system, required[from].0.deep_view()),
            dependencies_fault(contract, package, system, required, from + 1),
        )
    }
}

/// The first fault of what the branches from `from` on require.
pub open spec fn branch_requires_fault(
    contract: ReleaseContract,
    package: Seq<char>,
    branches: Seq<PackageBranchRef<'_>>,
    from: int,
) -> Option<ValidateContractErrorView>
    decreases branches.len() - from,
{
    if from < 0 || from >= branches.len() {
        None
    } else {
        first_fault(
            dependencies_fault(
                contract,
                package,
                system_of(branches[from]),
                requires_of(branches[from]),
                0,
            ),
            branch_requires_fault(contract, package, branches, from + 1),
        )
    }
}

/// The first fault of what the packages from `from` on require.
pub open spec fn requires_fault(contract: ReleaseContract, from: int) -> Option<
    ValidateContractErrorView,
>
    decreases contract.package.items().len() - from,
{
    let packages = contract.package.items();
    if from < 0 || from >= packages.len() {
        None
    } else {
        first_fault(
            branch_requires_fault(
                contract,
                packages[from].0.deep_view(),
                branches_up_to(packages[from].1, 4),
                0,
            ),
            requires_fault(contract, from + 1),
        )
    }
}

/// A reference into the environment must not be empty.
pub open spec fn env_ref_fault(field: Seq<char>, reference: EnvRef) -> Option<
    ValidateContractErrorView,
> {
    if reference.env@.len() == 0 {
        Some(ValidateContractErrorView::EmptyEnvRef { field })
    } else {
        None
    }
}

/// The first empty reference of the destination into the environment.
pub open spec fn destination_refs_fault(s3: S3DestinationContract) -> Option<
    ValidateContractErrorView,
> {
    let common = first_fault(
        env_ref_fault("endpoint"@, s3.endpoint),
        first_fault(
            env_ref_fault("access key id"@, s3.access_key_id),
            env_ref_fault("secret access key"@, s3.secret_access_key),
        ),
    );
    let brew = match s3.brew {
        None => None,
        Some(branch) => first_fault(
            env_ref_fault("stable brew tap token"@, branch.stable.tap.token),
            env_ref_fault("preview brew tap token"@, branch.preview.tap.token),
        ),
    };
    let scoop = match s3.scoop {
        None => None,
        Some(branch) => first_fault(
            env_ref_fault("stable scoop bucket token"@, branch.stable.bucket.token),
            env_ref_fault("preview scoop bucket token"@, branch.preview.bucket.token),
        ),
    };
    let deb = match s3.deb {
        None => None,
        Some(branch) => first_fault(
            env_ref_fault("deb signing key"@, branch.signing.key),
            first_fault(
                env_ref_fault("deb signing passphrase"@, branch.signing.passphrase),
                env_ref_fault("deb signing fingerprint"@, branch.signing.fingerprint),
            ),
        ),
    };
    first_fault(common, first_fault(brew, first_fault(scoop, deb)))
}

/// Some package of the contract has a branch for the package system.
pub open spec fn some_branch(contract: ReleaseContract, system: PackageSystem) -> bool {
    exists|i: int|
        0 <= i < contract.package.items().len() && branch_of(
            (#[trigger] contract.package.items()[i]).1,
            system,
        ) is Some
}

/// The destination publishes for the package system.
pub open spec fn has_destination(contract: ReleaseContract, system: PackageSystem) -> bool {
    match system {
        PackageSystem::Deb => contract.destination.s3.deb is Some,
        PackageSystem::Rpm => contract.destination.s3.rpm is Some,
        PackageSystem::Brew => contract.destination.s3.brew is Some,
        PackageSystem::Scoop => contract.destination.s3.scoop is Some,
    }
}

/// A destination for a package system needs a package with a branch for it.
pub open spec fn destination_branch_fault(
    contract: ReleaseContract,
    system: PackageSystem,
) -> Option<ValidateContractErrorView> {
    if has_destination(contract, system) && !some_branch(contract, system) {
        Some(ValidateContractErrorView::DestinationWithoutPackageBranch { system })
    } else {
        None
    }
}

/// The first destination without a package.
pub open spec fn destination_branches_fault(contract: ReleaseContract) -> Option<
    ValidateContractErrorView,
> {
    first_fault(
        destination_branch_fault(contract, PackageSystem::Deb),
        first_fault(
            destination_branch_fault(contract, PackageSystem::Rpm),
            first_fault(
                destination_branch_fault(contract, PackageSystem::Brew),
                destination_branch_fault(contract, PackageSystem::Scoop),
            ),
        ),
    )
}

/// A stated publish script says which script it is.
pub open spec fn publish_script_fault(
    system: PackageSystem,
    publish: Option<PublishContract>,
) -> Option<ValidateContractErrorView> {
    match publish {
        Some(publish) => if publish.script@.len() == 0 {
            Some(ValidateContractErrorView::MissingPublishScript { system })
        } else {
            None
        },
        None => None,
    }
}

/// The first fault of the publish scripts of a destination.
pub open spec fn publish_scripts_fault(s3: S3DestinationContract) -> Option<
    ValidateContractErrorView,
> {
    first_fault(
        match s3.deb {
            Some(branch) => publish_script_fault(PackageSystem::Deb, branch.publish),
            None => None,
        },
        match s3.rpm {
            Some(branch) => publish_script_fault(PackageSystem::Rpm, branch.publish),
            None => None,
        },
    )
}

/// The first fault of a contract: of a package by itself, of what a package requires, of
/// a reference of the destination into the environment, of a destination without package.
pub open spec fn contract_fault(contract: ReleaseContract) -> Option<ValidateContractErrorView> {
    first_fault(
        packages_fault(contract.package.items(), 0),
        first_fault(
            requires_fault(contract, 0),
            first_fault(
                destination_refs_fault(contract.destination.s3),
                first_fault(
                    publish_scripts_fault(contract.destination.s3),
                    destination_branches_fault(contract),
                ),
            ),
        ),
    )
}

fn validate_env_bindings(
    id: &PackageId,
    system: Option<PackageSystem>,
    bindings: &TextMap<String, EnvBinding>,
) -> (checked: Result<(), ValidateContractError>)
    ensures
        fault_of(checked) == bindings_fault(id.deep_view(), system, bindings.items(), 0),
{
    let mut i: usize = 0;
    while i < bindings.len()
        invariant
            i <= bindings.items().len(),
            bindings_fault(id.deep_view(), system, bindings.items(), 0) == bindings_fault(
                id.deep_view(),
                system,
                bindings.items(),
                i as int,
            ),
        decreases bindings.items().len() - i,
    {
        let name = bindings.key_at(i);
        let binding = bindings.value_at(i);
        match (&binding.env, &binding.value) {
            (Some(env), None) => {
                if env.as_str().is_empty() {
                    return Err(
                        ValidateContractError::EmptyEnvBinding {
                            package: id.clone(),
                            system,
                            name: name.clone(),
                        },
                    );
                }
                if let Some(path) = &binding.container_path {
                    if path.as_str().is_empty() {
                        return Err(
                            ValidateContractError::EmptyContainerPath {
                                package: id.clone(),
                                system,
                                name: name.clone(),
                            },
                        );
                    }
                }
            },
            (None, Some(value)) => {
                if binding.container_path.is_some() {
                    return Err(
                        ValidateContractError::ContainerPathValueBinding {
                            package: id.clone(),
                            system,
                            name: name.clone(),
                        },
                    );
                }
                if binding.optional {
                    return Err(
                        ValidateContractError::OptionalValueBinding {
                            package: id.clone(),
                            system,
                            name: name.clone(),
                        },
                    );
                }
                if value.as_str().is_empty() {
                    return Err(
                        ValidateContractError::EmptyEnvBinding {
                            package: id.clone(),
                            system,
                            name: name.clone(),
                        },
                    );
                }
            },
            _ => {
                return Err(
                    ValidateContractError::InvalidEnvBinding {
                        package: id.clone(),
                        system,
                        name: name.clone(),
                    },
                );
            },
        }
        i = i + 1;
    }
    Ok(())
}

fn validate_targets(
    id: &PackageId,
    system: PackageSystem,
    targets: &TextMap<String, PackageTargetContract>,
) -> (checked: Result<(), ValidateContractError>)
    ensures
        fault_of(checked) == targets_fault(id.deep_view(), system, targets.items(), 0),
{
    let mut i: usize = 0;
    while i < targets.len()
        invariant
            i <= targets.items().len(),
            targets_fault(id.deep_view(), system, targets.items(), 0) == targets_fault(
                id.deep_view(),
                system,
                targets.items(),
                i as int,
            ),
        decreases targets.items().len() - i,
    {
        if let Err(error) = validate_env_bindings(id, Some(system), &targets.value_at(i).env) {
            return Err(error);
        }
        i = i + 1;
    }
    Ok(())
}

fn validate_linux_executor(
    package: &PackageId,
    system: PackageSystem,
    dockerfile: &Option<String>,
    build: &Option<BranchBuildContract>,
) -> (checked: Result<(), ValidateContractError>)
    ensures
        fault_of(checked) == linux_executor_fault(
            package.deep_view(),
            system,
            *dockerfile,
            *build,
        ),
{
    match dockerfile {
        None => {
            if build.is_some() {
                return Ok(());
            }
            Err(
                ValidateContractError::MissingDockerfileExecutor {
                    package: package.clone(),
                    system,
                },
            )
        },
        Some(path) => validate_non_empty_path(package, system, "dockerfile", path.as_str()),
    }
}

fn validate_non_empty_path(
    package: &PackageId,
    system: PackageSystem,
    field: &'static str,
    path: &str,
) -> (checked: Result<(), ValidateContractError>)
    ensures
        fault_of(checked) == (if path@.len() == 0 {
            Some(
                ValidateContractErrorView::EmptyBranchPath {
                    package: package.deep_view(),
                    system,
                    field: field@,
                },
            )
        } else {
            None
        }),
{
    if path.is_empty() {
        return Err(
            ValidateContractError::EmptyBranchPath { package: package.clone(), system, field },
        );
    }
    Ok(())
}

fn validate_local_script_executor(
    package: &PackageId,
    system: PackageSystem,
    script: &Option<String>,
    manifest_template: &Option<String>,
    build: &Option<BranchBuildContract>,
) -> (checked: Result<(), ValidateContractError>)
    ensures
        fault_of(checked) == script_executor_fault(
            package.deep_view(),
            system,
            *script,
            *manifest_template,
            *build,
        ),
{
    match script {
        None => {
            if build.is_none() {
                return Err(
                    ValidateContractError::MissingScriptExecutor {
                        package: package.clone(),
                        system,
                    },
                );
            }
        },
        Some(path) => {
            if let Err(error) = validate_non_empty_path(package, system, "script", path.as_str()) {
                return Err(error);
            }
        },
    }
    match manifest_template {
        None => {
            if build.is_some() && system == PackageSystem::Scoop {
                return Ok(());
            }
            Err(ValidateContractError::MissingManifestTemplate { package: package.clone(), system })
        },
        Some(path) => validate_non_empty_path(package, system, "manifest_template", path.as_str()),
    }
}

fn validate_linux_version_part(
    package: &PackageId,
    system: PackageSystem,
    field: &'static str,
    value: &str,
) -> (checked: Result<(), ValidateContractError>)
    ensures
        fault_of(checked) == version_part_fault(package.deep_view(), system, field@, value@),
{
    if value.is_empty() {
        return Err(
            ValidateContractError::EmptyLinuxVersionPart {
                package: package.clone(),
                system,
                field,
            },
        );
    }
    Ok(())
}

impl<'a> PackageBranchRef<'a> {
    /// Checks the branch by itself.
    pub fn validate(self, id: &PackageId) -> (checked: Result<(), ValidateContractError>)
        ensures
            fault_of(checked) == branch_fault(id.deep_view(), self),
    {
        let own = match self {
            PackageBranchRef::Deb(branch) => {
                match validate_linux_executor(
                    id,
                    PackageSystem::Deb,
                    &branch.dockerfile,
                    &branch.build,
                ) {
                    Ok(_) => validate_linux_version_part(
                        id,
                        PackageSystem::Deb,
                        "revision",
                        branch.revision.as_str(),
                    ),
                    Err(error) => Err(error),
                }
            },
            PackageBranchRef::Rpm(branch) => {
                match validate_linux_executor(
                    id,
                    PackageSystem::Rpm,
                    &branch.dockerfile,
                    &branch.build,
                ) {
                    Ok(_) => validate_linux_version_part(
                        id,
                        PackageSystem::Rpm,
                        "release",
                        branch.release.as_str(),
                    ),
                    Err(error) => Err(error),
                }
            },
            PackageBranchRef::Brew(branch) => validate_local_script_executor(
                id,
                PackageSystem::Brew,
                &branch.script,
                &branch.manifest_template,
                &branch.build,
            ),
            PackageBranchRef::Scoop(branch) => validate_local_script_executor(
                id,
                PackageSystem::Scoop,
                &branch.script,
                &branch.manifest_template,
                &branch.build,
            ),
        };
        if let Err(error) = own {
            return Err(error);
        }
        match self {
            PackageBranchRef::Deb(branch) => validate_targets(
                id,
                PackageSystem::Deb,
                &branch.target,
            ),
            PackageBranchRef::Rpm(branch) => validate_targets(
                id,
                PackageSystem::Rpm,
                &branch.target,
            ),
            PackageBranchRef::Brew(branch) => validate_targets(
                id,
                PackageSystem::Brew,
                &branch.target,
            ),
            PackageBranchRef::Scoop(branch) => validate_targets(
                id,
                PackageSystem::Scoop,
                &branch.target,
            ),
        }
    }
}

fn validate_source_version(id: &PackageId, version: &str) -> (checked: Result<
    (),
    ValidateContractError,
>)
    ensures
        fault_of(checked) == source_version_fault(id.deep_view(), version@),
{
    match SourceVersion::parse(version) {
        Err(_) => Err(
            ValidateContractError::InvalidSourceVersion {
                package: id.clone(),
                version: version.to_owned(),
            },
        ),
        Ok(parsed) => {
            if parsed.has_revision() {
                return Err(
                    ValidateContractError::PackageSystemVersionAtRoot {
                        package: id.clone(),
                        version: version.to_owned(),
                    },
                );
            }
            Ok(())
        },
    }
}

fn require_non_cargo_metadata(
    id: &PackageId,
    field: &'static str,
    value: &Option<String>,
) -> (checked: Result<(), ValidateContractError>)
    ensures
        fault_of(checked) == metadata_fault(id.deep_view(), field@, *value),
{
    match value {
        Some(text) if !text.as_str().is_empty() => Ok(()),
        _ => Err(ValidateContractError::MissingPackageMetadata { package: id.clone(), field }),
    }
}

impl PackageContract {
    fn validate_version(&self, id: &PackageId) -> (checked: Result<(), ValidateContractError>)
        ensures
            fault_of(checked) == version_fault(id.deep_view(), *self),
    {
        match (&self.manifest, &self.version) {
            (Some(_), Some(_)) => Err(
                ValidateContractError::ManifestAndVersion { package: id.clone() },
            ),
            (None, None) => Err(ValidateContractError::MissingVersion { package: id.clone() }),
            (Some(_), None) => Ok(()),
            (None, Some(version)) => {
                if let Err(error) = validate_source_version(id, version.as_str()) {
                    return Err(error);
                }
                if let Err(error) = require_non_cargo_metadata(
                    id,
                    "description",
                    &self.description,
                ) {
                    return Err(error);
                }
                if let Err(error) = require_non_cargo_metadata(id, "license", &self.license) {
                    return Err(error);
                }
                require_non_cargo_metadata(id, "homepage", &self.homepage)
            },
        }
    }

    /// Checks the package by itself.
    pub fn validate(&self, id: &PackageId) -> (checked: Result<(), ValidateContractError>)
        ensures
            fault_of(checked) == package_fault(id.deep_view(), *self),
    {
        if let Err(error) = self.validate_version(id) {
            return Err(error);
        }
        if let Err(error) = validate_env_bindings(id, None, &self.build.env) {
            return Err(error);
        }
        let branches = self.branches();
        let mut i: usize = 0;
        while i < branches.len()
            invariant
                i <= branches@.len(),
                branches@ == branches_up_to(*self, 4),
                branches_fault(id.deep_view(), branches@, 0) == branches_fault(
                    id.deep_view(),
                    branches@,
                    i as int,
                ),
                version_fault(id.deep_view(), *self) is None,
                bindings_fault(id.deep_view(), None, self.build.env.items(), 0) is None,
            decreases branches@.len() - i,
        {
            if let Err(error) = branches[i].validate(id) {
                return Err(error);
            }
            i = i + 1;
        }
        Ok(())
    }
}

fn validate_branch_requires(
    contract: &ReleaseContract,
    id: &PackageId,
    branch: PackageBranchRef<'_>,
) -> (checked: Result<(), ValidateContractError>)
    ensures
        fault_of(checked) == dependencies_fault(
            *contract,
            id.deep_view(),
            system_of(branch),
            requires_of(branch),
            0,
        ),
{
    let system = branch.system();
    let required = branch.required();
    let mut i: usize = 0;
    while i < required.len()
        invariant
            i <= required.packages.items().len(),
            required.packages.items() == requires_of(branch),
            system == system_of(branch),
            dependencies_fault(*contract, id.deep_view(), system, requires_of(branch), 0)
                == dependencies_fault(
                *contract,
                id.deep_view(),
                system,
                requires_of(branch),
                i as int,
            ),
        decreases required.packages.items().len() - i,
    {
        let dependency = required.entry(i).0;
        match contract.package(dependency.as_str()) {
            None => {
                return Err(
                    ValidateContractError::MissingRequiredPackage {
                        package: id.clone(),
                        system,
                        dependency: dependency.clone(),
                    },
                );
            },
            Some(found) => {
                if found.branch(system).is_none() {
                    return Err(
                        ValidateContractError::MissingRequiredPackageBranch {
                            package: id.clone(),
                            system,
                            dependency: dependency.clone(),
                        },
                    );
                }
            },
        }
        i = i + 1;
    }
    Ok(())
}

fn validate_package_requires(
    contract: &ReleaseContract,
    id: &PackageId,
    package: &PackageContract,
) -> (checked: Result<(), ValidateContractError>)
    ensures
        fault_of(checked) == branch_requires_fault(
            *contract,
            id.deep_view(),
            branches_up_to(*package, 4),
            0,
        ),
{
    let branches = package.branches();
    let mut i: usize = 0;
    while i < branches.len()
        invariant
            i <= branches@.len(),
            branches@ == branches_up_to(*package, 4),
            branch_requires_fault(*contract, id.deep_view(), branches@, 0)
                == branch_requires_fault(*contract, id.deep_view(), branches@, i as int),
        decreases branches@.len() - i,
    {
        if let Err(error) = validate_branch_requires(contract, id, branches[i]) {
            return Err(error);
        }
        i = i + 1;
    }
    Ok(())
}

fn validate_env_ref(field: &'static str, reference: &EnvRef) -> (checked: Result<
    (),
    ValidateContractError,
>)
    ensures
        fault_of(checked) == env_ref_fault(field@, *reference),
{
    if reference.env.as_str().is_empty() {
        return Err(ValidateContractError::EmptyEnvRef { field });
    }
    Ok(())
}

fn validate_destination_env_refs(contract: &ReleaseContract) -> (checked: Result<
    (),
    ValidateContractError,
>)
    ensures
        fault_of(checked) == destination_refs_fault(contract.destination.s3),
{
    let s3 = &contract.destination.s3;
    if let Err(error) = validate_env_ref("endpoint", &s3.endpoint) {
        return Err(error);
    }
    if let Err(error) = validate_env_ref("access key id", &s3.access_key_id) {
        return Err(error);
    }
    if let Err(error) = validate_env_ref("secret access key", &s3.secret_access_key) {
        return Err(error);
    }
    if let Some(branch) = &s3.brew {
        if let Err(error) = validate_env_ref("stable brew tap token", &branch.stable.tap.token) {
            return Err(error);
        }
        if let Err(error) = validate_env_ref("preview brew tap token", &branch.preview.tap.token) {
            return Err(error);
        }
    }
    if let Some(branch) = &s3.scoop {
        if let Err(error) = validate_env_ref(
            "stable scoop bucket token",
            &branch.stable.bucket.token,
        ) {
            return Err(error);
        }
        if let Err(error) = validate_env_ref(
            "preview scoop bucket token",
            &branch.preview.bucket.token,
        ) {
            return Err(error);
        }
    }
    if let Some(branch) = &s3.deb {
        if let Err(error) = validate_env_ref("deb signing key", &branch.signing.key) {
            return Err(error);
        }
        if let Err(error) = validate_env_ref(
            "deb signing passphrase",
            &branch.signing.passphrase,
        ) {
            return Err(error);
        }
        if let Err(error) = validate_env_ref(
            "deb signing fingerprint",
            &branch.signing.fingerprint,
        ) {
            return Err(error);
        }
    }
    Ok(())
}

fn validate_publish_script(system: PackageSystem, publish: &Option<PublishContract>) -> (checked:
    Result<(), ValidateContractError>)
    ensures
        fault_of(checked) == publish_script_fault(system, *publish),
{
    if let Some(publish) = publish {
        if publish.script.as_str().is_empty() {
            return Err(ValidateContractError::MissingPublishScript { system });
        }
    }
    Ok(())
}

fn validate_publish_scripts(contract: &ReleaseContract) -> (checked: Result<
    (),
    ValidateContractError,
>)
    ensures
        fault_of(checked) == publish_scripts_fault(contract.destination.s3),
{
    if let Some(branch) = &contract.destination.s3.deb {
        if let Err(error) = validate_publish_script(PackageSystem::Deb, &branch.publish) {
            return Err(error);
        }
    }
    if let Some(branch) = &contract.destination.s3.rpm {
        if let Err(error) = validate_publish_script(PackageSystem::Rpm, &branch.publish) {
            return Err(error);
        }
    }
    Ok(())
}

fn validate_destination_branch(
    contract: &ReleaseContract,
    system: PackageSystem,
) -> (checked: Result<(), ValidateContractError>)
    ensures
        fault_of(checked) == destination_branch_fault(*contract, system),
{
    if contract.publishes(system) && !contract.has_branch(system) {
        return Err(ValidateContractError::DestinationWithoutPackageBranch { system });
    }
    Ok(())
}

fn validate_destination_branches(contract: &ReleaseContract) -> (checked: Result<
    (),
    ValidateContractError,
>)
    ensures
        fault_of(checked) == destination_branches_fault(*contract),
{
    if let Err(error) = validate_destination_branch(contract, PackageSystem::Deb) {
        return Err(error);
    }
    if let Err(error) = validate_destination_branch(contract, PackageSystem::Rpm) {
        return Err(error);
    }
    if let Err(error) = validate_destination_branch(contract, PackageSystem::Brew) {
        return Err(error);
    }
    validate_destination_branch(contract, PackageSystem::Scoop)
}

impl ReleaseContract {
    /// Whether some package has a branch for the package system.
    pub fn has_branch(&self, system: PackageSystem) -> (found: bool)
        ensures
            found == some_branch(*self, system),
    {
        let mut i: usize = 0;
        while i < self.package.len()
            invariant
                i <= self.package.items().len(),
                forall|j: int|
                    0 <= j < i ==> branch_of((#[trigger] self.package.items()[j]).1, system) is None,
            decreases self.package.items().len() - i,
        {
            if self.package.value_at(i).branch(system).is_some() {
                assert(branch_of(self.package.items()[i as int].1, system) is Some);
                return true;
            }
            i = i + 1;
        }
        false
    }

    /// Whether the destination publishes for the package system.
    pub fn publishes(&self, system: PackageSystem) -> (found: bool)
        ensures
            found == has_destination(*self, system),
    {
        match system {
            PackageSystem::Deb => self.destination.s3.deb.is_some(),
            PackageSystem::Rpm => self.destination.s3.rpm.is_some(),
            PackageSystem::Brew => self.destination.s3.brew.is_some(),
            PackageSystem::Scoop => self.destination.s3.scoop.is_some(),
        }
    }

    /// Checks the whole contract, and reports its first fault.
    pub fn validate(&self) -> (checked: Result<(), ValidateContractError>)
        ensures
            fault_of(checked) == contract_fault(*self),
    {
        let mut i: usize = 0;
        while i < self.package.len()
            invariant
                i <= self.package.items().len(),
                packages_fault(self.package.items(), 0) == packages_fault(
                    self.package.items(),
                    i as int,
                ),
            decreases self.package.items().len() - i,
        {
            if let Err(error) = self.package.value_at(i).validate(self.package.key_at(i)) {
                return Err(error);
            }
            i = i + 1;
        }
        let mut i: usize = 0;
        while i < self.package.len()
            invariant
                i <= self.package.items().len(),
                packages_fault(self.package.items(), 0) is None,
                requires_fault(*self, 0) == requires_fault(*self, i as int),
            decreases self.package.items().len() - i,
        {
            if let Err(error) = validate_package_requires(
                self,
                self.package.key_at(i),
                self.package.value_at(i),
            ) {
                return Err(error);
            }
            i = i + 1;
        }
        if let Err(error) = validate_destination_env_refs(self) {
            return Err(error);
        }
        if let Err(error) = validate_publish_scripts(self) {
            return Err(error);
        }
        validate_destination_branches(self)
    }
}

// ---------------------------------------------------------------------------
// Contracts on disk
// ---------------------------------------------------------------------------
/// What reading a contract gave.
#[derive(Debug, PartialEq, Eq)]
pub enum ContractReading {
    /// The file could not be read.
    Unread,
    /// The file holds no contract.
    Unparsed,
    /// The file holds this contract.
    Parsed(ReleaseContract),
}

/// Why a contract cannot be loaded.
#[derive(Debug, PartialEq, Eq)]
pub enum LoadReleaseContractError {
    /// Reported as `failed to read release contract`.
    Read { path: String },
    /// Reported as `failed to parse release contract`.
    Parse { path: String },
    /// Reported as `invalid release contract`.
    Invalid { source: ValidateContractError },
}

/// What a [`LoadReleaseContractError`] holds.
pub enum LoadReleaseContractErrorView {
    Read { path: Seq<char> },
    Parse { path: Seq<char> },
    Invalid { source: ValidateContractErrorView },
}

impl DeepView for LoadReleaseContractError {
    type V = LoadReleaseContractErrorView;

    open spec fn deep_view(&self) -> LoadReleaseContractErrorView {
        match self {
            LoadReleaseContractError::Read { path } => LoadReleaseContractErrorView::Read {
                path: path@,
            },
            LoadReleaseContractError::Parse { path } => LoadReleaseContractErrorView::Parse {
                path: path@,
            },
            LoadReleaseContractError::Invalid { source } => LoadReleaseContractErrorView::Invalid {
                source: source.deep_view(),
            },
        }
    }
}

impl LoadReleaseContractErrorView {
    /// The message of the error.
    pub open spec fn message(self) -> Seq<char> {
        match self {
            LoadReleaseContractErrorView::Read { .. } => "failed to read release contract"@,
            LoadReleaseContractErrorView::Parse { .. } => "failed to parse release contract"@,
            LoadReleaseContractErrorView::Invalid { .. } => "invalid release contract"@,
        }
    }
}

impl LoadReleaseContractError {
    /// The message of the error.
    pub fn to_string(&self) -> (text: String)
        ensures
            text@ == self.deep_view().message(),
    {
        match self {
            LoadReleaseContractError::Read { .. } => "failed to read release contract".to_owned(),
            LoadReleaseContractError::Parse { .. } => "failed to parse release contract".to_owned(),
            LoadReleaseContractError::Invalid { .. } => "invalid release contract".to_owned(),
        }
    }
}

/// The contract of a file, from what reading the file gave.
pub open spec fn loaded_contract(path: Seq<char>, reading: ContractReading) -> Result<
    ReleaseContract,
    LoadReleaseContractErrorView,
> {
    match reading {
        ContractReading::Unread => Err(LoadReleaseContractErrorView::Read { path }),
        ContractReading::Unparsed => Err(LoadReleaseContractErrorView::Parse { path }),
        ContractReading::Parsed(contract) => match contract_fault(contract) {
            Some(source) => Err(LoadReleaseContractErrorView::Invalid { source }),
            None => Ok(contract),
        },
    }
}

/// The contract of a file, from what reading the file gave.
pub fn load_release_contract(path: &str, reading: ContractReading) -> (contract: Result<
    ReleaseContract,
    LoadReleaseContractError,
>)
    ensures
        outcome(contract) == loaded_contract(path@, reading),
{
    match reading {
        ContractReading::Unread => Err(LoadReleaseContractError::Read { path: path.to_owned() }),
        ContractReading::Unparsed => Err(LoadReleaseContractError::Parse { path: path.to_owned() }),
        ContractReading::Parsed(contract) => match contract.validate() {
            Err(source) => Err(LoadReleaseContractError::Invalid { source }),
            Ok(_) => Ok(contract),
        },
    }
}

} // verus!
