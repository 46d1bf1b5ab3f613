//! Laws of validation: exactly which contracts and which manifests are accepted, and that what
//! is said of a refused contract is true of it.

use vstd::prelude::*;

use crate::contract::{
    binding_fault, bindings_fault, branch_fault, branch_of, branch_requires_fault,
    branches_fault, branches_up_to, contract_fault, dependencies_fault, dependency_fault,
    destination_branch_fault, destination_refs_fault, has_destination, package_fault, package_of,
    packages_fault, publish_scripts_fault, requires_fault, requires_of, some_branch, system_of,
    targets_fault, targets_of, BranchBuildContract, EnvBinding, PackageBranchRef, PackageContract,
    PackageTargetContract, ReleaseContract, RequiredPackageContract, S3DestinationContract,
    ValidateContractErrorView,
};
use crate::manifest::{
    artifact_contradiction, artifact_fault, artifacts_contradiction, artifacts_fault,
    contradiction, expected_version, manifest_fault, same_package, PackageArtifactView,
    PackageManifestView, ValidateManifestAgainstContractErrorView, ValidateManifestErrorView,
};
use crate::package::PackageId;
use crate::path::{absolute, leads_upward};
use crate::system::PackageSystem;
use crate::version::{is_revision, parsed_version};

verus! {

/// Whether a text is there and says something.
pub open spec fn is_stated(text: Option<String>) -> bool {
    text matches Some(text) && text@.len() > 0
}

/// Whether a text is there and says nothing.
pub open spec fn is_blank(text: Option<String>) -> bool {
    text is Some && text->0@.len() == 0
}

/// Whether a package states a version.
pub open spec fn states_version(package: PackageContract, version: Seq<char>) -> bool {
    package.version is Some && package.version->0@ == version
}

/// Whether a binding is one that a build can be told: a value that is written down, or the name
/// of a variable, which may be optional and may name a place in the container.
pub open spec fn is_valid_binding(binding: EnvBinding) -> bool {
    match (binding.env, binding.value) {
        (Some(variable), None) => variable@.len() > 0 && (binding.container_path is Some
            ==> is_stated(binding.container_path)),
        (None, Some(value)) => value@.len() > 0 && binding.container_path is None
            && !binding.optional,
        _ => false,
    }
}

/// Whether all bindings are valid.
pub open spec fn are_valid_bindings(bindings: Seq<(String, EnvBinding)>) -> bool {
    forall|i: int| 0 <= i < bindings.len() ==> is_valid_binding((#[trigger] bindings[i]).1)
}

/// Whether the bindings of all targets are valid.
pub open spec fn are_valid_targets(targets: Seq<(String, PackageTargetContract)>) -> bool {
    forall|i: int|
        0 <= i < targets.len() ==> are_valid_bindings((#[trigger] targets[i]).1.env.items())
}

/// Whether a path may be left out because the build is stated, or else says something.
pub open spec fn is_stated_or_built(
    path: Option<String>,
    build: Option<BranchBuildContract>,
) -> bool {
    is_stated(path) || (path is None && build is Some)
}

/// Whether a branch says how its package is built and versioned.
pub open spec fn is_valid_branch(branch: PackageBranchRef<'_>) -> bool {
    &&& are_valid_targets(targets_of(branch))
    &&& match branch {
        PackageBranchRef::Deb(deb) => is_stated_or_built(deb.dockerfile, deb.build)
            && deb.revision@.len() > 0,
        PackageBranchRef::Rpm(rpm) => is_stated_or_built(rpm.dockerfile, rpm.build)
            && rpm.release@.len() > 0,
        PackageBranchRef::Brew(brew) => is_stated_or_built(brew.script, brew.build) && is_stated(
            brew.manifest_template,
        ),
        PackageBranchRef::Scoop(scoop) => is_stated_or_built(scoop.script, scoop.build)
            && is_stated_or_built(scoop.manifest_template, scoop.build),
    }
}

/// Whether a package says what it is: by a Cargo manifest, or by a version of its own that is no
/// package revision, with a description, a license and a homepage.
pub open spec fn is_described(package: PackageContract) -> bool {
    match package.version {
        None => package.manifest is Some,
        Some(version) => {
            &&& package.manifest is None
            &&& parsed_version(version@) matches Some(parsed) && !is_revision(parsed.pre)
            &&& is_stated(package.description)
            &&& is_stated(package.license)
            &&& is_stated(package.homepage)
        },
    }
}

/// Whether a package is valid for itself.
pub open spec fn is_valid_package(package: PackageContract) -> bool {
    &&& is_described(package)
    &&& are_valid_bindings(package.build.env.items())
    &&& forall|system: PackageSystem| #[trigger]
        branch_of(package, system) is Some ==> is_valid_branch(branch_of(package, system)->0)
}

/// Whether everything that a package requires for a package system is in the contract, for the
/// same package system.
pub open spec fn requires_what_exists(
    contract: ReleaseContract,
    package: PackageContract,
    system: PackageSystem,
) -> bool {
    branch_of(package, system) matches Some(branch) ==> forall|k: int|
        0 <= k < requires_of(branch).len() ==> (package_of(
            contract,
            (#[trigger] requires_of(branch)[k]).0.deep_view(),
        ) matches Some(found) && branch_of(found, system) is Some)
}

/// Whether a destination names every variable that it reads, and every script that it runs.
pub open spec fn is_valid_destination(s3: S3DestinationContract) -> bool {
    &&& s3.endpoint.env@.len() > 0
    &&& s3.access_key_id.env@.len() > 0
    &&& s3.secret_access_key.env@.len() > 0
    &&& s3.brew matches Some(branch) ==> branch.stable.tap.token.env@.len() > 0
        && branch.preview.tap.token.env@.len() > 0
    &&& s3.scoop matches Some(branch) ==> branch.stable.bucket.token.env@.len() > 0
        && branch.preview.bucket.token.env@.len() > 0
    &&& s3.deb matches Some(branch) ==> branch.signing.key.env@.len() > 0
        && branch.signing.passphrase.env@.len() > 0 && branch.signing.fingerprint.env@.len() > 0
        && (branch.publish matches Some(publish) ==> publish.script@.len() > 0)
    &&& s3.rpm matches Some(branch) ==> (branch.publish matches Some(publish)
        ==> publish.script@.len() > 0)
}

/// Whether a contract is one that can be worked with.
pub open spec fn is_valid_contract(contract: ReleaseContract) -> bool {
    let packages = contract.package.items();
    &&& forall|i: int| 0 <= i < packages.len() ==> is_valid_package((#[trigger] packages[i]).1)
    &&& forall|i: int, system: PackageSystem|
        0 <= i < packages.len() ==> #[trigger] requires_what_exists(
            contract,
            packages[i].1,
            system,
        )
    &&& is_valid_destination(contract.destination.s3)
    &&& forall|system: PackageSystem| #[trigger]
        has_destination(contract, system) ==> some_branch(contract, system)
}

proof fn lemma_valid_bindings(
    package: Seq<char>,
    system: Option<PackageSystem>,
    bindings: Seq<(String, EnvBinding)>,
    from: int,
)
    requires
        0 <= from <= bindings.len(),
    ensures
        bindings_fault(package, system, bindings, from) is None <==> forall|i: int|
            from <= i < bindings.len() ==> is_valid_binding((#[trigger] bindings[i]).1),
    decreases bindings.len() - from,
{
    if from < bindings.len() {
        lemma_valid_bindings(package, system, bindings, from + 1);
        assert(binding_fault(package, system, bindings[from].0@, bindings[from].1) is None
            <==> is_valid_binding(bindings[from].1));
    }
}

proof fn lemma_valid_targets(
    package: Seq<char>,
    system: PackageSystem,
    targets: Seq<(String, PackageTargetContract)>,
    from: int,
)
    requires
        0 <= from <= targets.len(),
    ensures
        targets_fault(package, system, targets, from) is None <==> forall|i: int|
            from <= i < targets.len() ==> are_valid_bindings((#[trigger] targets[i]).1.env.items()),
    decreases targets.len() - from,
{
    if from < targets.len() {
        lemma_valid_targets(package, system, targets, from + 1);
        lemma_valid_bindings(package, Some(system), targets[from].1.env.items(), 0);
    }
}

proof fn lemma_valid_branch(package: Seq<char>, branch: PackageBranchRef<'_>)
    ensures
        branch_fault(package, branch) is None <==> is_valid_branch(branch),
{
    lemma_valid_targets(package, system_of(branch), targets_of(branch), 0);
}

proof fn lemma_valid_branches(
    package: Seq<char>,
    branches: Seq<PackageBranchRef<'_>>,
    from: int,
)
    requires
        0 <= from <= branches.len(),
    ensures
        branches_fault(package, branches, from) is None <==> forall|i: int|
            from <= i < branches.len() ==> is_valid_branch(#[trigger] branches[i]),
    decreases branches.len() - from,
{
    if from < branches.len() {
        lemma_valid_branches(package, branches, from + 1);
        lemma_valid_branch(package, branches[from]);
    }
}

/// The listed branches of a package are its branches.
proof fn lemma_listed_branches(package: PackageContract)
    ensures
        forall|system: PackageSystem| #[trigger]
            branch_of(package, system) is Some ==> branches_up_to(package, 4).contains(
                branch_of(package, system)->0,
            ),
        forall|i: int|
            0 <= i < branches_up_to(package, 4).len() ==> branch_of(
                package,
                system_of(#[trigger] branches_up_to(package, 4)[i]),
            ) == Some(branches_up_to(package, 4)[i]),
{
    reveal_with_fuel(branches_up_to, 5);
    let one = branches_up_to(package, 1);
    let two = branches_up_to(package, 2);
    let three = branches_up_to(package, 3);
    let all = branches_up_to(package, 4);
    assert forall|system: PackageSystem| #[trigger]
        branch_of(package, system) is Some implies all.contains(branch_of(package, system)->0) by {
        let branch = branch_of(package, system)->0;
        let at = match system {
            PackageSystem::Deb => 0int,
            PackageSystem::Rpm => one.len() as int,
            PackageSystem::Brew => two.len() as int,
            PackageSystem::Scoop => three.len() as int,
        };
        assert(all[at] == branch);
    }
}

proof fn lemma_valid_package(id: Seq<char>, package: PackageContract)
    ensures
        package_fault(id, package) is None <==> is_valid_package(package),
{
    let branches = branches_up_to(package, 4);
    lemma_valid_bindings(id, None, package.build.env.items(), 0);
    lemma_valid_branches(id, branches, 0);
    lemma_listed_branches(package);
    if branches_fault(id, branches, 0) is None {
        assert forall|system: PackageSystem| #[trigger]
            branch_of(package, system) is Some implies is_valid_branch(
            branch_of(package, system)->0,
        ) by {
            let branch = branch_of(package, system)->0;
            assert(branches.contains(branch));
            let i = choose|i: int| 0 <= i < branches.len() && branches[i] == branch;
            assert(is_valid_branch(branches[i]));
        }
    }
    if forall|system: PackageSystem| #[trigger]
        branch_of(package, system) is Some ==> is_valid_branch(branch_of(package, system)->0) {
        assert forall|i: int| 0 <= i < branches.len() implies is_valid_branch(
            #[trigger] branches[i],
        ) by {
            assert(branch_of(package, system_of(branches[i])) is Some);
        }
    }
}

proof fn lemma_valid_packages(packages: Seq<(PackageId, PackageContract)>, from: int)
    requires
        0 <= from <= packages.len(),
    ensures
        packages_fault(packages, from) is None <==> forall|i: int|
            from <= i < packages.len() ==> is_valid_package((#[trigger] packages[i]).1),
    decreases packages.len() - from,
{
    if from < packages.len() {
        lemma_valid_packages(packages, from + 1);
        lemma_valid_package(packages[from].0.deep_view(), packages[from].1);
    }
}

proof fn lemma_existing_dependencies(
    contract: ReleaseContract,
    package: Seq<char>,
    system: PackageSystem,
    required: Seq<(PackageId, RequiredPackageContract)>,
    from: int,
)
    requires
        0 <= from <= required.len(),
    ensures
        dependencies_fault(contract, package, system, required, from) is None <==> forall|k: int|
            from <= k < required.len() ==> (package_of(
                contract,
                (#[trigger] required[k]).0.deep_view(),
            ) matches Some(found) && branch_of(found, system) is Some),
    decreases required.len() - from,
{
    if from < required.len() {
        lemma_existing_dependencies(contract, package, system, required, from + 1);
        assert(dependency_fault(contract, package, system, required[from].0.deep_view()) is None
            <==> (package_of(contract, required[from].0.deep_view()) matches Some(found)
            && branch_of(found, system) is Some));
    }
}

/// Whether everything that a branch requires is in the contract.
spec fn branch_requires_what_exists(
    contract: ReleaseContract,
    branch: PackageBranchRef<'_>,
) -> bool {
    forall|k: int|
        0 <= k < requires_of(branch).len() ==> (package_of(
            contract,
            (#[trigger] requires_of(branch)[k]).0.deep_view(),
        ) matches Some(found) && branch_of(found, system_of(branch)) is Some)
}

proof fn lemma_existing_branch_requires(
    contract: ReleaseContract,
    package: Seq<char>,
    branches: Seq<PackageBranchRef<'_>>,
    from: int,
)
    requires
        0 <= from <= branches.len(),
    ensures
        branch_requires_fault(contract, package, branches, from) is None <==> forall|i: int|
            from <= i < branches.len() ==> branch_requires_what_exists(
                contract,
                #[trigger] branches[i],
            ),
    decreases branches.len() - from,
{
    if from < branches.len() {
        lemma_existing_branch_requires(contract, package, branches, from + 1);
        lemma_existing_dependencies(
            contract,
            package,
            system_of(branches[from]),
            requires_of(branches[from]),
            0,
        );
    }
}

proof fn lemma_existing_package_requires(contract: ReleaseContract, package: PackageContract)
    ensures
        (forall|i: int|
            0 <= i < branches_up_to(package, 4).len() ==> branch_requires_what_exists(
                contract,
                #[trigger] branches_up_to(package, 4)[i],
            )) <==> forall|system: PackageSystem| #[trigger]
            requires_what_exists(contract, package, system),
{
    let branches = branches_up_to(package, 4);
    lemma_listed_branches(package);
    if forall|i: int|
        0 <= i < branches.len() ==> branch_requires_what_exists(contract, #[trigger] branches[i]) {
        assert forall|system: PackageSystem| #[trigger]
            requires_what_exists(contract, package, system) by {
            if let Some(branch) = branch_of(package, system) {
                assert(branches.contains(branch));
                let i = choose|i: int| 0 <= i < branches.len() && branches[i] == branch;
                assert(branch_requires_what_exists(contract, branches[i]));
                assert(system_of(branch) == system);
            }
        }
    }
    if forall|system: PackageSystem| #[trigger] requires_what_exists(contract, package, system) {
        assert forall|i: int| 0 <= i < branches.len() implies branch_requires_what_exists(
            contract,
            #[trigger] branches[i],
        ) by {
            assert(requires_what_exists(contract, package, system_of(branches[i])));
        }
    }
}

proof fn lemma_existing_requires(contract: ReleaseContract, from: int)
    requires
        0 <= from <= contract.package.items().len(),
    ensures
        requires_fault(contract, from) is None <==> forall|i: int, system: PackageSystem|
            from <= i < contract.package.items().len() ==> #[trigger] requires_what_exists(
                contract,
                contract.package.items()[i].1,
                system,
            ),
    decreases contract.package.items().len() - from,
{
    let packages = contract.package.items();
    if from < packages.len() {
        let package = packages[from].1;
        lemma_existing_requires(contract, from + 1);
        lemma_existing_branch_requires(
            contract,
            packages[from].0.deep_view(),
            branches_up_to(package, 4),
            0,
        );
        lemma_existing_package_requires(contract, package);
        if requires_fault(contract, from) is None {
            assert forall|i: int, system: PackageSystem|
                from <= i < packages.len() implies #[trigger] requires_what_exists(
                contract,
                packages[i].1,
                system,
            ) by {
                if i == from {
                    assert(requires_what_exists(contract, package, system));
                }
            }
        }
        if forall|i: int, system: PackageSystem|
            from <= i < packages.len() ==> #[trigger] requires_what_exists(
                contract,
                packages[i].1,
                system,
            ) {
            assert forall|system: PackageSystem| #[trigger]
                requires_what_exists(contract, package, system) by {
                assert(requires_what_exists(contract, packages[from].1, system));
            }
        }
    }
}

/// A contract is accepted exactly where it is valid: each package says what it is and how it is
/// built, everything that is required is there, every variable and script is named, and every
/// destination has something to publish.
pub proof fn lemma_accepted_contracts_are_valid(contract: ReleaseContract)
    ensures
        contract_fault(contract) is None <==> is_valid_contract(contract),
{
    let packages = contract.package.items();
    lemma_valid_packages(packages, 0);
    lemma_existing_requires(contract, 0);
    let s3 = contract.destination.s3;
    assert(destination_refs_fault(s3) is None && publish_scripts_fault(s3) is None
        <==> is_valid_destination(s3));
    if contract_fault(contract) is None {
        assert forall|system: PackageSystem| #[trigger]
            has_destination(contract, system) implies some_branch(contract, system) by {
            assert(destination_branch_fault(contract, system) is None);
        }
    }
    if is_valid_contract(contract) {
        assert(has_destination(contract, PackageSystem::Deb) ==> some_branch(
            contract,
            PackageSystem::Deb,
        ));
        assert(has_destination(contract, PackageSystem::Rpm) ==> some_branch(
            contract,
            PackageSystem::Rpm,
        ));
        assert(has_destination(contract, PackageSystem::Brew) ==> some_branch(
            contract,
            PackageSystem::Brew,
        ));
        assert(has_destination(contract, PackageSystem::Scoop) ==> some_branch(
            contract,
            PackageSystem::Scoop,
        ));
    }
}

/// Whether what is said of a binding is true of it.
pub open spec fn is_true_of_binding(
    binding: EnvBinding,
    package: Seq<char>,
    system: Option<PackageSystem>,
    name: Seq<char>,
    fault: ValidateContractErrorView,
) -> bool {
    match fault {
        ValidateContractErrorView::InvalidEnvBinding { package: p, system: s, name: n } => p
            == package && s == system && n == name && (binding.env is Some == binding.value is Some),
        ValidateContractErrorView::EmptyEnvBinding { package: p, system: s, name: n } => p
            == package && s == system && n == name && (is_blank(
            binding.env,
        ) || is_blank(binding.value)),
        ValidateContractErrorView::OptionalValueBinding { package: p, system: s, name: n } => p
            == package && s == system && n == name && binding.value is Some && binding.optional,
        ValidateContractErrorView::ContainerPathValueBinding { package: p, system: s, name: n } => p
            == package && s == system && n == name && binding.value is Some
            && binding.container_path is Some,
        ValidateContractErrorView::EmptyContainerPath { package: p, system: s, name: n } => p
            == package && s == system && n == name && is_blank(binding.container_path),
        _ => false,
    }
}

/// What is said of a binding that is refused is true of it.
pub proof fn lemma_binding_faults_are_true(
    package: Seq<char>,
    system: Option<PackageSystem>,
    name: Seq<char>,
    binding: EnvBinding,
)
    ensures
        binding_fault(package, system, name, binding) matches Some(fault) ==> is_true_of_binding(
            binding,
            package,
            system,
            name,
            fault,
        ),
{
}

/// Whether what is said of a package is true of it: of its version, its metadata, its bindings
/// or one of its branches.
pub open spec fn is_true_of_package(
    id: Seq<char>,
    package: PackageContract,
    fault: ValidateContractErrorView,
) -> bool {
    match fault {
        ValidateContractErrorView::ManifestAndVersion { package: p } => p == id
            && package.manifest is Some && package.version is Some,
        ValidateContractErrorView::MissingVersion { package: p } => p == id
            && package.manifest is None && package.version is None,
        ValidateContractErrorView::InvalidSourceVersion { package: p, version } => p == id
            && states_version(package, version) && parsed_version(version) is None,
        ValidateContractErrorView::PackageSystemVersionAtRoot { package: p, version } => p == id
            && states_version(package, version) && parsed_version(version) is Some && is_revision(
            parsed_version(version)->0.pre,
        ),
        ValidateContractErrorView::MissingPackageMetadata { package: p, field } => p == id && (
        field == "description"@ && !is_stated(package.description) || field == "license"@
            && !is_stated(package.license) || field == "homepage"@ && !is_stated(
            package.homepage,
        )),
        ValidateContractErrorView::MissingDockerfileExecutor { package: p, system } => p == id
            && match branch_of(package, system) {
            Some(PackageBranchRef::Deb(deb)) => deb.dockerfile is None && deb.build is None,
            Some(PackageBranchRef::Rpm(rpm)) => rpm.dockerfile is None && rpm.build is None,
            _ => false,
        },
        ValidateContractErrorView::MissingScriptExecutor { package: p, system } => p == id
            && match branch_of(package, system) {
            Some(PackageBranchRef::Brew(brew)) => brew.script is None && brew.build is None,
            Some(PackageBranchRef::Scoop(scoop)) => scoop.script is None && scoop.build is None,
            _ => false,
        },
        ValidateContractErrorView::MissingManifestTemplate { package: p, system } => p == id
            && match branch_of(package, system) {
            Some(PackageBranchRef::Brew(brew)) => brew.manifest_template is None,
            Some(PackageBranchRef::Scoop(scoop)) => scoop.manifest_template is None
                && scoop.build is None,
            _ => false,
        },
        ValidateContractErrorView::EmptyBranchPath { package: p, system, field } => p == id
            && match branch_of(package, system) {
            Some(PackageBranchRef::Deb(deb)) => field == "dockerfile"@ && is_blank(
                deb.dockerfile,
            ),
            Some(PackageBranchRef::Rpm(rpm)) => field == "dockerfile"@ && is_blank(
                rpm.dockerfile,
            ),
            Some(PackageBranchRef::Brew(brew)) => (field == "script"@ && is_blank(brew.script))
                || (field == "manifest_template"@ && is_blank(brew.manifest_template)),
            Some(PackageBranchRef::Scoop(scoop)) => (field == "script"@ && is_blank(scoop.script))
                || (field == "manifest_template"@ && is_blank(scoop.manifest_template)),
            None => false,
        },
        ValidateContractErrorView::EmptyLinuxVersionPart { package: p, system, field } => p == id
            && match branch_of(package, system) {
            Some(PackageBranchRef::Deb(deb)) => field == "revision"@ && deb.revision@.len() == 0,
            Some(PackageBranchRef::Rpm(rpm)) => field == "release"@ && rpm.release@.len() == 0,
            _ => false,
        },
        _ => is_true_of_bindings(id, package, fault),
    }
}

/// Whether what is said of a binding is true of one of the bindings of a package or of its
/// targets.
pub open spec fn is_true_of_bindings(
    id: Seq<char>,
    package: PackageContract,
    fault: ValidateContractErrorView,
) -> bool {
    ||| has_true_fault(package.build.env.items(), id, None, fault)
    ||| exists|system: PackageSystem, i: int|
        #![trigger targets_of(branch_of(package, system)->0)[i]]
        branch_of(package, system) is Some && 0 <= i < targets_of(
            branch_of(package, system)->0,
        ).len() && has_true_fault(
            targets_of(branch_of(package, system)->0)[i].1.env.items(),
            id,
            Some(system),
            fault,
        )
}

/// Whether what is said of a binding is true of one among some bindings.
pub open spec fn has_true_fault(
    bindings: Seq<(String, EnvBinding)>,
    package: Seq<char>,
    system: Option<PackageSystem>,
    fault: ValidateContractErrorView,
) -> bool {
    exists|i: int|
        0 <= i < bindings.len() && is_true_of_binding(
            (#[trigger] bindings[i]).1,
            package,
            system,
            bindings[i].0@,
            fault,
        )
}

proof fn lemma_bindings_faults_are_true(
    package: Seq<char>,
    system: Option<PackageSystem>,
    bindings: Seq<(String, EnvBinding)>,
    from: int,
)
    requires
        0 <= from <= bindings.len(),
    ensures
        bindings_fault(package, system, bindings, from) matches Some(fault) ==> has_true_fault(
            bindings,
            package,
            system,
            fault,
        ),
    decreases bindings.len() - from,
{
    if from < bindings.len() {
        lemma_bindings_faults_are_true(package, system, bindings, from + 1);
        lemma_binding_faults_are_true(package, system, bindings[from].0@, bindings[from].1);
    }
}

proof fn lemma_targets_faults_are_true(
    package: Seq<char>,
    system: PackageSystem,
    targets: Seq<(String, PackageTargetContract)>,
    from: int,
)
    requires
        0 <= from <= targets.len(),
    ensures
        targets_fault(package, system, targets, from) matches Some(fault) ==> exists|i: int|
            0 <= i < targets.len() && has_true_fault(
                (#[trigger] targets[i]).1.env.items(),
                package,
                Some(system),
                fault,
            ),
    decreases targets.len() - from,
{
    if from < targets.len() {
        lemma_targets_faults_are_true(package, system, targets, from + 1);
        lemma_bindings_faults_are_true(package, Some(system), targets[from].1.env.items(), 0);
    }
}

proof fn lemma_branches_faults_are_true(
    id: Seq<char>,
    package: PackageContract,
    branches: Seq<PackageBranchRef<'_>>,
    from: int,
)
    requires
        0 <= from <= branches.len(),
        forall|i: int|
            0 <= i < branches.len() ==> branch_of(package, system_of(#[trigger] branches[i]))
                == Some(branches[i]),
    ensures
        branches_fault(id, branches, from) matches Some(fault) ==> is_true_of_package(
            id,
            package,
            fault,
        ),
    decreases branches.len() - from,
{
    if from < branches.len() {
        lemma_branches_faults_are_true(id, package, branches, from + 1);
        let branch = branches[from];
        let system = system_of(branch);
        lemma_targets_faults_are_true(id, system, targets_of(branch), 0);
        if let Some(fault) = targets_fault(id, system, targets_of(branch), 0) {
            let i = choose|i: int|
                0 <= i < targets_of(branch).len() && has_true_fault(
                    (#[trigger] targets_of(branch)[i]).1.env.items(),
                    id,
                    Some(system),
                    fault,
                );
            assert(branch_of(package, system)->0 == branch);
            assert(has_true_fault(
                targets_of(branch_of(package, system)->0)[i].1.env.items(),
                id,
                Some(system),
                fault,
            ));
            assert(is_true_of_bindings(id, package, fault));
        }
    }
}

/// What is said of a package that is refused is true of it.
pub proof fn lemma_package_faults_are_true(id: Seq<char>, package: PackageContract)
    ensures
        package_fault(id, package) matches Some(fault) ==> is_true_of_package(id, package, fault),
{
    lemma_listed_branches(package);
    lemma_bindings_faults_are_true(id, None, package.build.env.items(), 0);
    lemma_branches_faults_are_true(id, package, branches_up_to(package, 4), 0);
}

proof fn lemma_packages_faults_are_true(packages: Seq<(PackageId, PackageContract)>, from: int)
    requires
        0 <= from <= packages.len(),
    ensures
        packages_fault(packages, from) matches Some(fault) ==> exists|i: int|
            0 <= i < packages.len() && is_true_of_package(
                (#[trigger] packages[i]).0.deep_view(),
                packages[i].1,
                fault,
            ),
    decreases packages.len() - from,
{
    if from < packages.len() {
        lemma_packages_faults_are_true(packages, from + 1);
        lemma_package_faults_are_true(packages[from].0.deep_view(), packages[from].1);
    }
}

/// Whether a branch requires a package that is not there, as it is said: no such package, or
/// none for the package system.
pub open spec fn is_true_of_requirement(
    contract: ReleaseContract,
    id: Seq<char>,
    branch: PackageBranchRef<'_>,
    k: int,
    fault: ValidateContractErrorView,
) -> bool {
    let dependency = requires_of(branch)[k].0.deep_view();
    match fault {
        ValidateContractErrorView::MissingRequiredPackage { package, system, dependency: d } => {
            &&& package == id && system == system_of(branch) && d == dependency
            &&& package_of(contract, dependency) is None
        },
        ValidateContractErrorView::MissingRequiredPackageBranch {
            package,
            system,
            dependency: d,
        } => {
            &&& package == id && system == system_of(branch) && d == dependency
            &&& package_of(contract, dependency) is Some
            &&& branch_of(package_of(contract, dependency)->0, system) is None
        },
        _ => false,
    }
}

proof fn lemma_dependencies_faults_are_true(
    contract: ReleaseContract,
    id: Seq<char>,
    branch: PackageBranchRef<'_>,
    from: int,
)
    requires
        0 <= from <= requires_of(branch).len(),
    ensures
        dependencies_fault(
            contract,
            id,
            system_of(branch),
            requires_of(branch),
            from,
        ) matches Some(fault) ==> exists|k: int|
            0 <= k < requires_of(branch).len() && #[trigger] is_true_of_requirement(
                contract,
                id,
                branch,
                k,
                fault,
            ),
    decreases requires_of(branch).len() - from,
{
    let required = requires_of(branch);
    if from < required.len() {
        lemma_dependencies_faults_are_true(contract, id, branch, from + 1);
        if let Some(fault) = dependency_fault(
            contract,
            id,
            system_of(branch),
            required[from].0.deep_view(),
        ) {
            assert(is_true_of_requirement(contract, id, branch, from, fault));
        }
    }
}

/// Whether what is said of the requirements of a package is true of one of its branches.
pub open spec fn is_true_of_requirements(
    contract: ReleaseContract,
    id: Seq<char>,
    package: PackageContract,
    fault: ValidateContractErrorView,
) -> bool {
    exists|system: PackageSystem, k: int|
        branch_of(package, system) is Some && 0 <= k < requires_of(
            branch_of(package, system)->0,
        ).len() && #[trigger] is_true_of_requirement(
            contract,
            id,
            branch_of(package, system)->0,
            k,
            fault,
        )
}

proof fn lemma_branch_requires_faults_are_true(
    contract: ReleaseContract,
    id: Seq<char>,
    package: PackageContract,
    branches: Seq<PackageBranchRef<'_>>,
    from: int,
)
    requires
        0 <= from <= branches.len(),
        forall|i: int|
            0 <= i < branches.len() ==> branch_of(package, system_of(#[trigger] branches[i]))
                == Some(branches[i]),
    ensures
        branch_requires_fault(contract, id, branches, from) matches Some(fault)
            ==> is_true_of_requirements(contract, id, package, fault),
    decreases branches.len() - from,
{
    if from < branches.len() {
        lemma_branch_requires_faults_are_true(contract, id, package, branches, from + 1);
        let branch = branches[from];
        lemma_dependencies_faults_are_true(contract, id, branch, 0);
        if let Some(fault) = dependencies_fault(
            contract,
            id,
            system_of(branch),
            requires_of(branch),
            0,
        ) {
            let k = choose|k: int|
                0 <= k < requires_of(branch).len() && #[trigger] is_true_of_requirement(
                    contract,
                    id,
                    branch,
                    k,
                    fault,
                );
            assert(branch_of(package, system_of(branch))->0 == branch);
            assert(is_true_of_requirement(
                contract,
                id,
                branch_of(package, system_of(branch))->0,
                k,
                fault,
            ));
        }
    }
}

proof fn lemma_requires_faults_are_true(contract: ReleaseContract, from: int)
    requires
        0 <= from <= contract.package.items().len(),
    ensures
        requires_fault(contract, from) matches Some(fault) ==> exists|i: int|
            0 <= i < contract.package.items().len() && is_true_of_requirements(
                contract,
                (#[trigger] contract.package.items()[i]).0.deep_view(),
                contract.package.items()[i].1,
                fault,
            ),
    decreases contract.package.items().len() - from,
{
    let packages = contract.package.items();
    if from < packages.len() {
        lemma_requires_faults_are_true(contract, from + 1);
        lemma_listed_branches(packages[from].1);
        lemma_branch_requires_faults_are_true(
            contract,
            packages[from].0.deep_view(),
            packages[from].1,
            branches_up_to(packages[from].1, 4),
            0,
        );
    }
}

/// Whether what is said of a destination is true of it.
pub open spec fn is_true_of_destination(
    contract: ReleaseContract,
    fault: ValidateContractErrorView,
) -> bool {
    let s3 = contract.destination.s3;
    match fault {
        ValidateContractErrorView::EmptyEnvRef { field } => {
            ||| field == "endpoint"@ && s3.endpoint.env@.len() == 0
            ||| field == "access key id"@ && s3.access_key_id.env@.len() == 0
            ||| field == "secret access key"@ && s3.secret_access_key.env@.len() == 0
            ||| field == "stable brew tap token"@ && s3.brew is Some
                && s3.brew->0.stable.tap.token.env@.len() == 0
            ||| field == "preview brew tap token"@ && s3.brew is Some
                && s3.brew->0.preview.tap.token.env@.len() == 0
            ||| field == "stable scoop bucket token"@ && s3.scoop is Some
                && s3.scoop->0.stable.bucket.token.env@.len() == 0
            ||| field == "preview scoop bucket token"@ && s3.scoop is Some
                && s3.scoop->0.preview.bucket.token.env@.len() == 0
            ||| field == "deb signing key"@ && s3.deb is Some && s3.deb->0.signing.key.env@.len()
                == 0
            ||| field == "deb signing passphrase"@ && s3.deb is Some
                && s3.deb->0.signing.passphrase.env@.len() == 0
            ||| field == "deb signing fingerprint"@ && s3.deb is Some
                && s3.deb->0.signing.fingerprint.env@.len() == 0
        },
        ValidateContractErrorView::MissingPublishScript { system } => {
            ||| system is Deb && s3.deb is Some && s3.deb->0.publish is Some
                && s3.deb->0.publish->0.script@.len() == 0
            ||| system is Rpm && s3.rpm is Some && s3.rpm->0.publish is Some
                && s3.rpm->0.publish->0.script@.len() == 0
        },
        ValidateContractErrorView::DestinationWithoutPackageBranch { system } => has_destination(
            contract,
            system,
        ) && !some_branch(contract, system),
        _ => false,
    }
}

/// What is said of a contract that is refused is true of it: of one of its packages, of what one
/// of them requires, or of its destination.
pub proof fn lemma_contract_faults_are_true(contract: ReleaseContract)
    ensures
        contract_fault(contract) matches Some(fault) ==> {
            let packages = contract.package.items();
            ||| exists|i: int|
                0 <= i < packages.len() && is_true_of_package(
                    (#[trigger] packages[i]).0.deep_view(),
                    packages[i].1,
                    fault,
                )
            ||| exists|i: int|
                0 <= i < packages.len() && is_true_of_requirements(
                    contract,
                    (#[trigger] packages[i]).0.deep_view(),
                    packages[i].1,
                    fault,
                )
            ||| is_true_of_destination(contract, fault)
        },
{
    lemma_packages_faults_are_true(contract.package.items(), 0);
    lemma_requires_faults_are_true(contract, 0);
}

/// Whether an artifact of a Linux manifest agrees with the contract: it is one of a package of
/// the contract with a branch of the package system of the manifest, and has the version that
/// the package has there, where the contract or the manifest states it.
pub open spec fn agrees_with_contract(
    contract: ReleaseContract,
    manifest: PackageManifestView,
    i: int,
) -> bool {
    let artifact = manifest.artifacts[i];
    &&& artifact.package_name matches Some(name)
    &&& package_of(contract, name) matches Some(package)
    &&& branch_of(package, manifest.kind) matches Some(branch)
    &&& expected_version(name, manifest, package, branch) matches Ok(expected)
    &&& expected matches Some(version) ==> artifact.package_version == Some(version)
}

proof fn lemma_agreeing_artifacts(
    contract: ReleaseContract,
    manifest: PackageManifestView,
    from: int,
)
    requires
        0 <= from <= manifest.artifacts.len(),
    ensures
        artifacts_contradiction(contract, manifest, from) is None <==> forall|i: int|
            from <= i < manifest.artifacts.len() ==> #[trigger] agrees_with_contract(
                contract,
                manifest,
                i,
            ),
    decreases manifest.artifacts.len() - from,
{
    if from < manifest.artifacts.len() {
        lemma_agreeing_artifacts(contract, manifest, from + 1);
        assert(artifact_contradiction(
            contract,
            manifest,
            manifest.artifacts[from],
        ) is None <==> agrees_with_contract(contract, manifest, from));
    }
}

/// A manifest agrees with a contract exactly where it is valid, its package has a branch of its
/// package system there, and, for a Linux package system, every artifact agrees with the
/// contract.
pub proof fn lemma_agreeing_manifests(contract: ReleaseContract, manifest: PackageManifestView)
    ensures
        contradiction(contract, manifest) is None <==> {
            &&& manifest_fault(manifest) is None
            &&& package_of(contract, manifest.package) matches Some(package)
            &&& branch_of(package, manifest.kind) is Some
            &&& manifest.kind is Deb || manifest.kind is Rpm ==> forall|i: int|
                0 <= i < manifest.artifacts.len() ==> #[trigger] agrees_with_contract(
                    contract,
                    manifest,
                    i,
                )
        },
{
    lemma_agreeing_artifacts(contract, manifest, 0);
}

/// Whether what is said of an artifact is true of it.
pub open spec fn is_true_of_artifact(
    kind: PackageSystem,
    artifacts: Seq<PackageArtifactView>,
    i: int,
    fault: ValidateManifestErrorView,
) -> bool {
    let artifact = artifacts[i];
    let linux = kind is Deb || kind is Rpm;
    match fault {
        ValidateManifestErrorView::AbsolutePath => absolute(artifact.path),
        ValidateManifestErrorView::ParentComponent => leads_upward(artifact.path),
        ValidateManifestErrorView::MissingPackageName => linux && artifact.package_name is None,
        ValidateManifestErrorView::MissingPackageVersion => linux
            && artifact.package_version is None,
        ValidateManifestErrorView::MissingArchitecture => linux && artifact.architecture is None,
        ValidateManifestErrorView::DuplicatePackageArchitecture { package, architecture } => {
            &&& linux && artifact.package_name == Some(package) && artifact.architecture == Some(
                architecture,
            )
            &&& exists|j: int|
                0 <= j < i && (#[trigger] artifacts[j]).package_name == Some(package)
                    && artifacts[j].architecture == Some(architecture)
        },
        ValidateManifestErrorView::MissingArchiveName => !linux && artifact.archive_name is None,
    }
}

proof fn lemma_artifact_faults_are_true(
    kind: PackageSystem,
    artifacts: Seq<PackageArtifactView>,
    from: int,
)
    requires
        0 <= from <= artifacts.len(),
    ensures
        artifacts_fault(kind, artifacts, from) matches Some(fault) ==> exists|i: int|
            from <= i < artifacts.len() && #[trigger] is_true_of_artifact(
                kind,
                artifacts,
                i,
                fault,
            ),
    decreases artifacts.len() - from,
{
    if from < artifacts.len() {
        lemma_artifact_faults_are_true(kind, artifacts, from + 1);
        if let Some(fault) = artifact_fault(kind, artifacts, from) {
            if let ValidateManifestErrorView::DuplicatePackageArchitecture { .. } = fault {
                let j = choose|j: int|
                    0 <= j < from && same_package(#[trigger] artifacts[j], artifacts[from]);
                assert(artifacts[j].package_name == artifacts[from].package_name);
            }
            assert(is_true_of_artifact(kind, artifacts, from, fault));
        }
    }
}

/// What is said of a manifest that is refused is true of one of its artifacts.
pub proof fn lemma_manifest_faults_are_true(manifest: PackageManifestView)
    ensures
        manifest_fault(manifest) matches Some(fault) ==> exists|i: int|
            0 <= i < manifest.artifacts.len() && #[trigger] is_true_of_artifact(
                manifest.kind,
                manifest.artifacts,
                i,
                fault,
            ),
{
    lemma_artifact_faults_are_true(manifest.kind, manifest.artifacts, 0);
}

/// Where an artifact is said to have another version than its package, it has the one and the
/// contract asks for the other.
pub proof fn lemma_version_mismatches_are_true(
    contract: ReleaseContract,
    manifest: PackageManifestView,
    artifact: PackageArtifactView,
)
    ensures
        artifact_contradiction(contract, manifest, artifact) matches Some(
            ValidateManifestAgainstContractErrorView::PackageVersionMismatch {
                package,
                system,
                actual,
                expected,
            },
        ) ==> {
            &&& artifact.package_name == Some(package)
            &&& system == manifest.kind
            &&& artifact.package_version == Some(actual)
            &&& actual != expected
            &&& package_of(contract, package) matches Some(stated)
            &&& branch_of(stated, system) matches Some(branch)
            &&& expected_version(package, manifest, stated, branch) == Ok::<
                Option<Seq<char>>,
                ValidateManifestAgainstContractErrorView,
            >(Some(expected))
        },
{
}

/// The version that a Linux artifact must have is made of the version of its package, which the
/// contract states, or which is that of the manifest where the artifact is of its package, and
/// of the revision or release of the branch. Where neither states it, any version is right.
pub proof fn lemma_expected_versions(
    package: Seq<char>,
    manifest: PackageManifestView,
    stated: PackageContract,
    branch: PackageBranchRef<'_>,
)
    ensures
        expected_version(package, manifest, stated, branch) matches Ok(expected) ==> {
            let source = match stated.version {
                Some(version) => Some(version@),
                None => if package == manifest.package {
                    Some(manifest.version)
                } else {
                    None
                },
            };
            &&& source is None <==> expected is None
            &&& source matches Some(text) ==> (parsed_version(text) matches Some(version) && {
                &&& branch matches PackageBranchRef::Deb(deb) ==> expected == Some(
                    version.linux_text() + "-"@ + deb.revision@,
                )
                &&& branch matches PackageBranchRef::Rpm(rpm) ==> expected == Some(
                    version.linux_text() + "-"@ + rpm.release@,
                )
            })
        },
{
}

} // verus!
