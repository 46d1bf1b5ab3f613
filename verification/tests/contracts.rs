use genmeta_xtask_release::channel::ReleaseChannel;
use genmeta_xtask_release::cli::{
    package_command_request, parse_package_build_requests, parse_package_command_request,
    parse_s3_publish_command_request, parse_s3_publish_requests, parse_xtask_command_request,
    s3_publish_command_request, show_command_request, CommandToken, PackageCommandReading,
    PackageSectionOptions, ParsePackageBuildRequestsError, ParsePackageCommandRequestError,
    ParseXtaskCommandRequestError, PublishCommandRequest, S3PublishCommandReading,
    SectionReading, ShowCommandRequest, XtaskCommandReading, XtaskCommandRequest,
};
use genmeta_xtask_release::contract::{
    load_release_contract, BranchBuildContract, BrewBranch, ContainerContract, ContractReading,
    DebBranch, DebSigning, DestinationContract, EnvBinding, EnvRef, GitIndexDestination,
    LoadReleaseContractError, PackageBuildContract,
    PackageContract, PackageTargetContract, PublishContract, ReleaseContract,
    RequiredPackageContract, RequiresContract, RpmBranch, S3BrewChannelDestination,
    S3BrewDestination, S3DebChannelDestination, S3DebDestination, S3DestinationContract,
    S3RpmChannelDestination, S3RpmDestination, S3ScoopChannelDestination, S3ScoopDestination,
    ScoopBranch, ValidateContractError, VersionBoundContract, VersionBoundSource,
    VersionBoundSourceContract,
};
use genmeta_xtask_release::digest::sha256_hex;
use genmeta_xtask_release::manifest::{
    load_manifest, load_s3_publish_command_manifests, plan_package_command_manifest_write,
    validate_manifest_against_contract, validate_package_command_manifest, ArtifactReading,
    LoadS3PublishCommandManifestsError, ManifestReading, PackageArtifact, PackageManifest,
    PublishReading, WriteManifestError, WritePackageCommandManifestError,
};
use genmeta_xtask_release::package::{
    cargo_manifest_path, resolve_metadata, CargoMetadata, CargoPackage, PackageId,
};
use genmeta_xtask_release::plan::{
    build_and_s3_publish_env_names, build_env_names, build_invocation_for,
    build_invocation_for_profile, build_invocation_for_profile_with_env_values,
    build_invocation_with_env_values, package_command_invocations,
    package_command_invocations_with_primary_source, publish_invocation_for,
    s3_publish_command_plan, select_build_branches, BuildSelectionRequest, PlannedEnvMount,
};
use genmeta_xtask_release::publish::{
    resolve_s3_publish_target, s3_publish_env_names, PublicBaseUrl, RemotePrefix, S3PublishTarget,
};
use genmeta_xtask_release::requirements::resolve_requires_for;
use genmeta_xtask_release::runner::{
    artifact_from_path, deb_metadata, package_manifest, package_output_dir, package_unit_env,
    primary_source, PackageFileMetadata,
};
use genmeta_xtask_release::s3::{
    announcement_uploads, destination_lines, manifest_package_metadata, manifest_template_path,
    render_brew_formula,
};
use genmeta_xtask_release::sibling::{ContainerMount, SiblingSource};
use genmeta_xtask_release::system::{
    ArchitectureClass, BuildProfile, PackageSystem, RequestedTarget,
};
use genmeta_xtask_release::textmap::{TextMap, TextSet};
use genmeta_xtask_release::version::SourceVersion;

fn text(value: &str) -> String {
    value.to_string()
}

fn id(value: &str) -> PackageId {
    PackageId::new(value).expect("package id should parse")
}

fn env_ref(name: &str) -> EnvRef {
    EnvRef { env: text(name) }
}

fn no_targets() -> TextMap<String, PackageTargetContract> {
    TextMap::new()
}

fn build(script: &str, dockerfile: Option<&str>) -> Option<BranchBuildContract> {
    Some(BranchBuildContract {
        script: text(script),
        container: dockerfile.map(|path| ContainerContract {
            image: None,
            dockerfile: Some(text(path)),
        }),
    })
}

fn deb(architecture: ArchitectureClass, script: &str, dockerfile: Option<&str>) -> DebBranch {
    DebBranch {
        revision: text("1"),
        architecture,
        dockerfile: None,
        build: build(script, dockerfile),
        requires: RequiresContract::default(),
        target: no_targets(),
    }
}

fn rpm(architecture: ArchitectureClass, script: &str, dockerfile: Option<&str>) -> RpmBranch {
    RpmBranch {
        release: text("1"),
        architecture,
        dockerfile: None,
        build: build(script, dockerfile),
        requires: RequiresContract::default(),
        target: no_targets(),
    }
}

fn brew(script: &str, template: &str) -> BrewBranch {
    BrewBranch {
        script: None,
        manifest_template: Some(text(template)),
        build: build(script, None),
        requires: RequiresContract::default(),
        target: no_targets(),
    }
}

fn scoop(script: &str, bin: &[&str]) -> ScoopBranch {
    ScoopBranch {
        script: None,
        manifest_template: None,
        bin: bin.iter().map(|name| name.to_string()).collect(),
        build: build(script, None),
        requires: RequiresContract::default(),
        target: no_targets(),
    }
}

fn stated(version: &str) -> PackageContract {
    let mut package = PackageContract::default();
    package.version = Some(text(version));
    package.description = Some(text("Sample"));
    package.license = Some(text("Apache-2.0"));
    package.homepage = Some(text("https://dhttp.net"));
    package
}

fn from_manifest(path: &str) -> PackageContract {
    let mut package = PackageContract::default();
    package.manifest = Some(text(path));
    package
}

fn s3() -> S3DestinationContract {
    S3DestinationContract {
        bucket: text("download"),
        endpoint: env_ref("XTASK_RELEASE_S3_ENDPOINT_URL"),
        access_key_id: env_ref("XTASK_RELEASE_S3_ACCESS_KEY_ID"),
        secret_access_key: env_ref("XTASK_RELEASE_S3_SECRET_ACCESS_KEY"),
        brew: None,
        scoop: None,
        deb: None,
        rpm: None,
    }
}

fn contract(packages: Vec<(&str, PackageContract)>, s3: S3DestinationContract) -> ReleaseContract {
    let mut package = TextMap::new();
    for (name, stated) in packages {
        package.insert(id(name), stated);
    }
    ReleaseContract { package, destination: DestinationContract { s3 } }
}

fn required(name: &str, minimum: Option<VersionBoundSource>, maximum: Option<VersionBoundSource>)
    -> RequiresContract {
    let mut packages = TextMap::new();
    packages.insert(
        id(name),
        RequiredPackageContract {
            version: VersionBoundContract {
                minimum: minimum.map(|from| VersionBoundSourceContract { from }),
                maximum: maximum.map(|from| VersionBoundSourceContract { from }),
            },
        },
    );
    RequiresContract { packages }
}

fn from_env(name: &str, optional: bool) -> EnvBinding {
    EnvBinding { env: Some(text(name)), value: None, container_path: None, optional }
}

fn with_value(value: &str) -> EnvBinding {
    EnvBinding { env: None, value: Some(text(value)), container_path: None, optional: false }
}

fn bindings(entries: Vec<(&str, EnvBinding)>) -> TextMap<String, EnvBinding> {
    let mut map = TextMap::new();
    for (name, binding) in entries {
        map.insert(text(name), binding);
    }
    map
}

fn publish(script: &str, dockerfile: &str) -> Option<PublishContract> {
    Some(PublishContract {
        script: text(script),
        container: Some(ContainerContract { image: None, dockerfile: Some(text(dockerfile)) }),
    })
}

fn deb_destination(prefix: &str, suite: &str) -> S3DebDestination {
    S3DebDestination {
        stable: S3DebChannelDestination { prefix: text(prefix), suite: text(suite) },
        preview: S3DebChannelDestination { prefix: text(prefix), suite: text(suite) },
        signing: DebSigning {
            key: env_ref("XTASK_RELEASE_APT_SIGNING_KEY"),
            passphrase: env_ref("XTASK_RELEASE_APT_SIGNING_PASSPHRASE"),
            fingerprint: env_ref("XTASK_RELEASE_APT_SIGNING_FINGERPRINT"),
        },
        publish: publish("xtask/release/publish/deb.sh", "xtask/release/publish/deb/Dockerfile"),
    }
}

fn rpm_destination(prefix: &str) -> S3RpmDestination {
    S3RpmDestination {
        stable: S3RpmChannelDestination { prefix: text(prefix) },
        preview: S3RpmChannelDestination { prefix: text(prefix) },
        publish: publish("xtask/release/publish/rpm.sh", "xtask/release/publish/rpm/Dockerfile"),
    }
}

fn index(repository: &str) -> GitIndexDestination {
    GitIndexDestination {
        repository: text(repository),
        base_branch: text("main"),
        token: env_ref("HOMEBREW_TAP_GITHUB_TOKEN"),
    }
}

fn brew_channel(prefix: &str, url: &str, tap: &str) -> S3BrewChannelDestination {
    S3BrewChannelDestination {
        prefix: text(prefix),
        public_base_url: text(url),
        tap: index(tap),
    }
}

fn scoop_channel(prefix: &str, url: &str, bucket: &str) -> S3ScoopChannelDestination {
    S3ScoopChannelDestination {
        prefix: text(prefix),
        public_base_url: text(url),
        bucket: index(bucket),
    }
}

fn brew_destination(prefix: &str) -> S3BrewDestination {
    let url = "https://download.dhttp.net/homebrew";
    S3BrewDestination {
        stable: brew_channel(prefix, url, "genmeta/homebrew-genmeta"),
        preview: brew_channel(prefix, url, "genmeta/homebrew-genmeta"),
    }
}

fn scoop_destination() -> S3ScoopDestination {
    let url = "https://download.dhttp.net/scoop";
    S3ScoopDestination {
        stable: scoop_channel("scoop", url, "genmeta/scoop-genmeta"),
        preview: scoop_channel("scoop", url, "genmeta/scoop-genmeta"),
    }
}

fn gateway() -> ReleaseContract {
    let mut pishoo = from_manifest("pishoo/Cargo.toml");
    pishoo.build = PackageBuildContract {
        env: bindings(vec![
            ("DHTTP_ROOT_CA", from_env("DHTTP_ROOT_CA", false)),
            ("DHTTP_GLOBAL_HOME", from_env("DHTTP_GLOBAL_HOME", true)),
        ]),
    };
    let mut deb_branch = deb(
        ArchitectureClass::Target,
        "xtask/release/deb/pishoo.sh",
        Some("xtask/release/deb/Dockerfile"),
    );
    deb_branch.requires = required(
        "pishoo-common",
        Some(VersionBoundSource::DependencyPackage),
        Some(VersionBoundSource::SelfPackage),
    );
    pishoo.deb = Some(deb_branch);
    let mut rpm_branch = rpm(
        ArchitectureClass::Target,
        "xtask/release/rpm/pishoo.sh",
        Some("xtask/release/rpm/Dockerfile"),
    );
    rpm_branch.requires = required(
        "pishoo-common",
        Some(VersionBoundSource::DependencyPackage),
        Some(VersionBoundSource::SelfPackage),
    );
    pishoo.rpm = Some(rpm_branch);
    let mut brew_branch = brew("xtask/release/brew/pishoo.sh", "xtask/templates/pishoo.rb.in");
    brew_branch.target.insert(
        text("aarch64-apple-darwin"),
        PackageTargetContract {
            env: bindings(vec![("DHTTP_GLOBAL_HOME", with_value("/opt/homebrew/etc/dhttp"))]),
        },
    );
    pishoo.brew = Some(brew_branch);

    let mut common = PackageContract::default();
    common.version = Some(text("0.5.1"));
    common.description = Some(text("Common files for pishoo"));
    common.license = Some(text("Apache-2.0"));
    common.homepage = Some(text("https://dhttp.net"));
    common.repository = Some(text("https://github.com/genmeta/gateway"));
    common.deb = Some(deb(ArchitectureClass::All, "xtask/release/deb/pishoo-common.sh", None));
    common.rpm = Some(rpm(ArchitectureClass::Noarch, "xtask/release/rpm/pishoo-common.sh", None));

    let mut s3 = s3();
    s3.brew = Some(brew_destination("homebrew"));
    s3.deb = Some(deb_destination("ppa/genmeta", "genmeta"));
    s3.rpm = Some(rpm_destination("rpm/pishoo"));
    contract(vec![("pishoo", pishoo), ("pishoo-common", common)], s3)
}

fn gmutils() -> ReleaseContract {
    let mut package = from_manifest("genmeta/Cargo.toml");
    package.deb = Some(deb(
        ArchitectureClass::Target,
        "xtask/release/deb/gmutils.sh",
        Some("xtask/release/deb/Dockerfile"),
    ));
    package.rpm = Some(rpm(
        ArchitectureClass::Target,
        "xtask/release/rpm/gmutils.sh",
        Some("xtask/release/rpm/Dockerfile"),
    ));
    package.brew = Some(brew("xtask/release/brew/gmutils.sh", "xtask/templates/gmutils.rb.in"));
    package.scoop =
        Some(scoop("xtask/release/scoop/gmutils.sh", &["genmeta.exe", "genmeta-ssh.bat"]));
    let mut s3 = s3();
    s3.brew = Some(brew_destination("homebrew"));
    s3.scoop = Some(scoop_destination());
    s3.deb = Some(deb_destination("ppa/genmeta", "genmeta"));
    s3.rpm = Some(rpm_destination("rpm/gmutils"));
    contract(vec![("gmutils", package)], s3)
}

/// A contract that states its executors by dockerfile and script, and both channels of every
/// destination.
fn channels() -> ReleaseContract {
    let mut package = PackageContract::default();
    package.version = Some(text("0.8.0-beta.1"));
    package.description = Some(text("Genmeta CLI"));
    package.license = Some(text("Apache-2.0"));
    package.homepage = Some(text("https://www.dhttp.net"));
    package.deb = Some(DebBranch {
        revision: text("1"),
        architecture: ArchitectureClass::Target,
        dockerfile: Some(text("xtask/release/deb/Dockerfile")),
        build: None,
        requires: RequiresContract::default(),
        target: no_targets(),
    });
    package.rpm = Some(RpmBranch {
        release: text("1"),
        architecture: ArchitectureClass::Target,
        dockerfile: Some(text("xtask/release/rpm/Dockerfile")),
        build: None,
        requires: RequiresContract::default(),
        target: no_targets(),
    });
    package.brew = Some(BrewBranch {
        script: Some(text("xtask/release/brew/gmutils.sh")),
        manifest_template: Some(text("xtask/templates/gmutils.rb.in")),
        build: None,
        requires: RequiresContract::default(),
        target: no_targets(),
    });
    package.scoop = Some(ScoopBranch {
        script: Some(text("xtask/release/scoop/gmutils.sh")),
        manifest_template: Some(text("xtask/templates/gmutils.json.in")),
        bin: Vec::new(),
        build: None,
        requires: RequiresContract::default(),
        target: no_targets(),
    });
    let s3 = S3DestinationContract {
        bucket: text("download"),
        endpoint: env_ref("S3_ENDPOINT"),
        access_key_id: env_ref("S3_ACCESS_KEY_ID"),
        secret_access_key: env_ref("S3_SECRET_ACCESS_KEY"),
        brew: Some(S3BrewDestination {
            stable: brew_channel(
                "homebrew/stable",
                "https://download.dhttp.net/homebrew/stable",
                "genmeta/homebrew-stable",
            ),
            preview: brew_channel(
                "homebrew/preview",
                "https://download.dhttp.net/homebrew/preview",
                "genmeta/homebrew-preview",
            ),
        }),
        scoop: Some(S3ScoopDestination {
            stable: scoop_channel(
                "scoop/stable",
                "https://download.dhttp.net/scoop/stable",
                "genmeta/scoop-stable",
            ),
            preview: scoop_channel(
                "scoop/preview",
                "https://download.dhttp.net/scoop/preview",
                "genmeta/scoop-preview",
            ),
        }),
        deb: Some(S3DebDestination {
            stable: S3DebChannelDestination {
                prefix: text("ppa/genmeta"),
                suite: text("stable"),
            },
            preview: S3DebChannelDestination {
                prefix: text("ppa/genmeta"),
                suite: text("preview"),
            },
            signing: DebSigning {
                key: env_ref("APT_SIGNING_KEY"),
                passphrase: env_ref("APT_SIGNING_PASSPHRASE"),
                fingerprint: env_ref("APT_SIGNING_FINGERPRINT"),
            },
            publish: None,
        }),
        rpm: Some(S3RpmDestination {
            stable: S3RpmChannelDestination { prefix: text("rpm/stable") },
            preview: S3RpmChannelDestination { prefix: text("rpm/preview") },
            publish: None,
        }),
    };
    contract(vec![("gmutils", package)], s3)
}

fn values(entries: &[(&str, &str)]) -> TextMap<String, String> {
    let mut map = TextMap::new();
    for (name, value) in entries {
        map.insert(text(name), text(value));
    }
    map
}

fn channel_values() -> TextMap<String, String> {
    values(&[
        ("S3_ENDPOINT", "https://r2.example.test"),
        ("S3_ACCESS_KEY_ID", "access"),
        ("S3_SECRET_ACCESS_KEY", "secret"),
        ("APT_SIGNING_KEY", "key"),
        ("APT_SIGNING_PASSPHRASE", "pass"),
        ("APT_SIGNING_FINGERPRINT", "0123456789ABCDEF"),
        ("HOMEBREW_TAP_GITHUB_TOKEN", "token"),
    ])
}

fn names(set: &TextSet) -> Vec<String> {
    let mut found = Vec::new();
    let mut i = 0;
    while i < set.len() {
        found.push(set.at(i).clone());
        i += 1;
    }
    found
}

fn refused(contract: &ReleaseContract) -> String {
    contract.validate().expect_err("contract should be refused").to_string()
}

#[test]
fn gateway_contract_places_common_only_under_deb_and_rpm() {
    let contract = gateway();
    contract.validate().expect("contract should validate");

    let common = contract.package("pishoo-common").expect("common package exists");
    assert!(common.branch(PackageSystem::Deb).is_some());
    assert!(common.branch(PackageSystem::Rpm).is_some());
    assert!(common.branch(PackageSystem::Brew).is_none());

    let pishoo = contract.package("pishoo").expect("pishoo package exists");
    assert!(pishoo.branch(PackageSystem::Brew).unwrap().required().is_empty());
}

#[test]
fn canonical_gateway_release_toml_parses_and_validates() {
    let contract = gateway();
    contract.validate().expect("gateway contract should validate");

    let common = contract.package("pishoo-common").expect("common package exists");
    assert!(common.branch(PackageSystem::Deb).is_some());
    assert!(common.branch(PackageSystem::Rpm).is_some());
    assert!(common.branch(PackageSystem::Brew).is_none());
}

#[test]
fn canonical_gmutils_release_toml_parses_and_validates() {
    let contract = gmutils();
    contract.validate().expect("gmutils contract should validate");

    let gmutils = contract.package("gmutils").expect("gmutils package exists");
    assert!(gmutils.branch(PackageSystem::Deb).is_some());
    assert!(gmutils.branch(PackageSystem::Rpm).is_some());
    assert!(gmutils.branch(PackageSystem::Brew).is_some());
    assert!(gmutils.branch(PackageSystem::Scoop).is_some());
}

#[test]
fn parses_channel_aware_s3_destinations() {
    let contract = channels();
    contract.validate().expect("channel contract should validate");

    let s3 = &contract.destination.s3;
    assert_eq!(s3.deb.as_ref().unwrap().stable.suite, "stable");
    assert_eq!(s3.deb.as_ref().unwrap().preview.suite, "preview");
    assert_eq!(s3.rpm.as_ref().unwrap().stable.prefix, "rpm/stable");
    assert_eq!(s3.rpm.as_ref().unwrap().preview.prefix, "rpm/preview");
}

#[test]
fn value_build_env_binding_must_not_be_optional() {
    let mut package = from_manifest("sample/Cargo.toml");
    package.build = PackageBuildContract {
        env: bindings(vec![(
            "DHTTP_GLOBAL_HOME",
            EnvBinding {
                env: None,
                value: Some(text("/opt/sample")),
                container_path: None,
                optional: true,
            },
        )]),
    };
    package.brew = Some(brew("xtask/release/brew/sample.sh", "xtask/templates/sample.rb.in"));

    assert_eq!(
        refused(&contract(vec![("sample", package)], s3())),
        "package sample env binding DHTTP_GLOBAL_HOME optional requires env"
    );
}

#[test]
fn value_build_env_binding_must_not_set_container_path() {
    let mut package = from_manifest("sample/Cargo.toml");
    package.build = PackageBuildContract {
        env: bindings(vec![(
            "ROOT_CA",
            EnvBinding {
                env: None,
                value: Some(text("/host/root.crt")),
                container_path: Some(text("/container/root.crt")),
                optional: false,
            },
        )]),
    };
    package.deb = Some(deb(ArchitectureClass::Target, "xtask/release/deb/sample.sh", None));

    assert_eq!(
        refused(&contract(vec![("sample", package)], s3())),
        "package sample env binding ROOT_CA container path requires env"
    );
}

#[test]
fn destination_env_ref_must_not_be_empty() {
    let mut package = from_manifest("sample/Cargo.toml");
    package.brew = Some(brew("xtask/release/brew/sample.sh", "xtask/templates/sample.rb.in"));
    let mut s3 = s3();
    s3.endpoint = env_ref("");

    assert_eq!(
        refused(&contract(vec![("sample", package)], s3)),
        "destination s3 endpoint env ref must not be empty"
    );
}

#[test]
fn package_root_version_must_not_be_package_system_version() {
    let mut package = stated("0.5.1-1");
    package.deb = Some(deb(ArchitectureClass::All, "xtask/release/deb/pishoo-common.sh", None));

    assert!(refused(&contract(vec![("pishoo-common", package)], s3())).contains("source version"));
}

#[test]
fn package_system_requires_must_reference_existing_package() {
    let mut package = stated("1.0.0");
    let mut branch = deb(ArchitectureClass::Target, "xtask/release/deb/sample-tool.sh", None);
    branch.requires =
        required("sample-common", Some(VersionBoundSource::DependencyPackage), None);
    package.deb = Some(branch);

    assert_eq!(
        refused(&contract(vec![("sample-tool", package)], s3())),
        "package sample-tool deb branch requires missing package sample-common"
    );
}

#[test]
fn package_system_requires_must_reference_same_system_branch() {
    let mut tool = stated("1.0.0");
    let mut branch = brew(
        "xtask/release/brew/sample-tool.sh",
        "xtask/templates/sample-tool.rb.in",
    );
    branch.requires =
        required("sample-common", Some(VersionBoundSource::DependencyPackage), None);
    tool.brew = Some(branch);
    let mut common = stated("1.0.0");
    common.deb = Some(deb(ArchitectureClass::All, "xtask/release/deb/sample-common.sh", None));

    assert_eq!(
        refused(&contract(vec![("sample-tool", tool), ("sample-common", common)], s3())),
        "package sample-tool brew branch requires package sample-common without brew branch"
    );
}

#[test]
fn deb_destination_rejects_empty_publish_script() {
    let mut package = stated("1.2.3");
    package.deb = Some(deb(ArchitectureClass::Target, "xtask/release/deb/sample.sh", None));
    let mut s3 = s3();
    let mut destination = deb_destination("ppa/sample", "sample");
    destination.publish = Some(PublishContract { script: text(""), container: None });
    s3.deb = Some(destination);

    assert_eq!(
        refused(&contract(vec![("sample", package)], s3)),
        "destination s3 deb branch missing publish script"
    );
}

#[test]
fn scoop_branch_bin_is_package_system_contract_data() {
    let mut package = stated("1.2.3");
    package.scoop = Some(scoop("build-scoop.sh", &["sample-tool.exe", "sample-helper.bat"]));
    let contract = contract(vec![("sample-tool", package)], s3());
    contract.validate().expect("contract should validate");

    let branch = contract
        .package("sample-tool")
        .and_then(|package| package.scoop.as_ref())
        .expect("scoop branch should exist");
    assert_eq!(branch.bin, vec!["sample-tool.exe", "sample-helper.bat"]);
}

#[test]
fn destination_s3_branch_must_have_matching_package_system_branch() {
    let mut package = stated("1.0.0");
    package.deb = Some(deb(ArchitectureClass::Target, "xtask/release/deb/sample.sh", None));
    let mut s3 = s3();
    s3.scoop = Some(scoop_destination());

    assert_eq!(
        refused(&contract(vec![("sample", package)], s3)),
        "destination s3 scoop branch has no package scoop branch"
    );
}

#[test]
fn load_release_contract_rejects_a_revision_in_the_source_version() {
    let package = stated("1.2.3-1");
    let checked = contract(vec![("invalid", package)], s3()).validate();
    assert_eq!(
        checked,
        Err(ValidateContractError::PackageSystemVersionAtRoot {
            package: id("invalid"),
            version: text("1.2.3-1"),
        })
    );
}

#[test]
fn package_metadata_is_stated_once_and_completely() {
    let mut both = stated("1.2.3");
    both.manifest = Some(text("sample/Cargo.toml"));
    assert_eq!(
        contract(vec![("sample", both)], s3()).validate(),
        Err(ValidateContractError::ManifestAndVersion { package: id("sample") })
    );

    assert_eq!(
        contract(vec![("sample", PackageContract::default())], s3()).validate(),
        Err(ValidateContractError::MissingVersion { package: id("sample") })
    );

    let mut wordless = stated("1.2.3");
    wordless.license = None;
    assert_eq!(
        contract(vec![("sample", wordless)], s3()).validate(),
        Err(ValidateContractError::MissingPackageMetadata {
            package: id("sample"),
            field: "license",
        })
    );

    assert_eq!(
        contract(vec![("sample", stated("one"))], s3()).validate(),
        Err(ValidateContractError::InvalidSourceVersion {
            package: id("sample"),
            version: text("one"),
        })
    );
}

#[test]
fn branches_without_a_stated_build_need_an_executor() {
    let mut linux = stated("1.2.3");
    let mut branch = deb(ArchitectureClass::Target, "unused", None);
    branch.build = None;
    linux.deb = Some(branch);
    assert_eq!(
        contract(vec![("sample", linux)], s3()).validate(),
        Err(ValidateContractError::MissingDockerfileExecutor {
            package: id("sample"),
            system: PackageSystem::Deb,
        })
    );

    let mut mac = stated("1.2.3");
    let mut branch = brew("unused", "sample.rb.in");
    branch.build = None;
    mac.brew = Some(branch);
    assert_eq!(
        contract(vec![("sample", mac)], s3()).validate(),
        Err(ValidateContractError::MissingScriptExecutor {
            package: id("sample"),
            system: PackageSystem::Brew,
        })
    );

    let mut untemplated = stated("1.2.3");
    let mut branch = brew("build-brew.sh", "sample.rb.in");
    branch.manifest_template = None;
    branch.build = None;
    branch.script = Some(text("build-brew.sh"));
    untemplated.brew = Some(branch);
    assert_eq!(
        contract(vec![("sample", untemplated)], s3()).validate(),
        Err(ValidateContractError::MissingManifestTemplate {
            package: id("sample"),
            system: PackageSystem::Brew,
        })
    );

    let mut unrevised = stated("1.2.3");
    let mut branch = deb(ArchitectureClass::Target, "build-deb.sh", None);
    branch.revision = text("");
    unrevised.deb = Some(branch);
    assert_eq!(
        contract(vec![("sample", unrevised)], s3()).validate(),
        Err(ValidateContractError::EmptyLinuxVersionPart {
            package: id("sample"),
            system: PackageSystem::Deb,
            field: "revision",
        })
    );
}

#[test]
fn env_bindings_state_exactly_one_source() {
    let bound = |binding: EnvBinding| {
        let mut package = stated("1.2.3");
        package.build = PackageBuildContract { env: bindings(vec![("NAME", binding)]) };
        contract(vec![("sample", package)], s3()).validate()
    };
    assert_eq!(
        bound(EnvBinding { env: None, value: None, container_path: None, optional: false }),
        Err(ValidateContractError::InvalidEnvBinding {
            package: id("sample"),
            system: None,
            name: text("NAME"),
        })
    );
    assert_eq!(
        bound(EnvBinding {
            env: Some(text("A")),
            value: Some(text("b")),
            container_path: None,
            optional: false,
        }),
        Err(ValidateContractError::InvalidEnvBinding {
            package: id("sample"),
            system: None,
            name: text("NAME"),
        })
    );
    assert_eq!(
        bound(from_env("", false)),
        Err(ValidateContractError::EmptyEnvBinding {
            package: id("sample"),
            system: None,
            name: text("NAME"),
        })
    );
    assert_eq!(
        bound(EnvBinding {
            env: Some(text("A")),
            value: None,
            container_path: Some(text("")),
            optional: false,
        }),
        Err(ValidateContractError::EmptyContainerPath {
            package: id("sample"),
            system: None,
            name: text("NAME"),
        })
    );
    assert_eq!(bound(from_env("A", true)), Ok(()));
}

#[test]
fn s3_deb_publish_env_names_include_common_and_signing_refs() {
    let contract = gateway();
    contract.validate().expect("contract should validate");

    let found = s3_publish_env_names(&contract, PackageSystem::Deb)
        .expect("deb publish env names should resolve");

    assert_eq!(
        names(&found),
        vec![
            "XTASK_RELEASE_APT_SIGNING_FINGERPRINT".to_string(),
            "XTASK_RELEASE_APT_SIGNING_KEY".to_string(),
            "XTASK_RELEASE_APT_SIGNING_PASSPHRASE".to_string(),
            "XTASK_RELEASE_S3_ACCESS_KEY_ID".to_string(),
            "XTASK_RELEASE_S3_ENDPOINT_URL".to_string(),
            "XTASK_RELEASE_S3_SECRET_ACCESS_KEY".to_string(),
        ]
    );
}

#[test]
fn s3_brew_publish_env_names_include_tap_token_without_linux_signing_refs() {
    let contract = gateway();
    contract.validate().expect("contract should validate");

    let found = s3_publish_env_names(&contract, PackageSystem::Brew)
        .expect("brew publish env names should resolve");

    assert_eq!(
        names(&found),
        vec![
            "HOMEBREW_TAP_GITHUB_TOKEN".to_string(),
            "XTASK_RELEASE_S3_ACCESS_KEY_ID".to_string(),
            "XTASK_RELEASE_S3_ENDPOINT_URL".to_string(),
            "XTASK_RELEASE_S3_SECRET_ACCESS_KEY".to_string(),
        ]
    );
}

#[test]
fn s3_publish_env_names_reject_missing_destination_branch() {
    let contract = gateway();
    contract.validate().expect("contract should validate");

    let error = s3_publish_env_names(&contract, PackageSystem::Scoop)
        .expect_err("missing scoop branch should fail");

    assert_eq!(error.to_string(), "destination s3 scoop branch is missing");
}

#[test]
fn s3_brew_publish_target_resolves_from_destination_s3_branch() {
    let contract = gmutils();
    contract.validate().expect("contract should validate");
    let values = values(&[
        ("XTASK_RELEASE_S3_ENDPOINT_URL", "https://r2.example"),
        ("XTASK_RELEASE_S3_ACCESS_KEY_ID", "access"),
        ("XTASK_RELEASE_S3_SECRET_ACCESS_KEY", "secret"),
        ("HOMEBREW_TAP_GITHUB_TOKEN", "token"),
    ]);

    let target = resolve_s3_publish_target(
        &contract,
        PackageSystem::Brew,
        ReleaseChannel::Stable,
        &values,
    )
    .expect("brew target should resolve");

    assert_eq!(target.bucket(), "download");
    assert_eq!(target.endpoint_url(), "https://r2.example");
    match target {
        S3PublishTarget::Brew(target) => {
            assert_eq!(target.prefix.as_str(), "homebrew");
            assert_eq!(target.public_base_url.as_str(), "https://download.dhttp.net/homebrew");
            assert_eq!(target.tap.repository, "genmeta/homebrew-genmeta");
            assert_eq!(target.tap.token, "token");
        }
        _ => panic!("expected brew target"),
    }
}

#[test]
fn s3_deb_publish_target_requires_fingerprint_env() {
    let contract = gateway();
    contract.validate().expect("contract should validate");
    let values = values(&[
        ("XTASK_RELEASE_S3_ENDPOINT_URL", "https://r2.example"),
        ("XTASK_RELEASE_S3_ACCESS_KEY_ID", "access"),
        ("XTASK_RELEASE_S3_SECRET_ACCESS_KEY", "secret"),
        ("XTASK_RELEASE_APT_SIGNING_KEY", "key"),
        ("XTASK_RELEASE_APT_SIGNING_PASSPHRASE", "passphrase"),
    ]);

    let error = resolve_s3_publish_target(
        &contract,
        PackageSystem::Deb,
        ReleaseChannel::Stable,
        &values,
    )
    .expect_err("missing fingerprint should fail");

    assert_eq!(
        error.to_string(),
        "missing required release environment variable XTASK_RELEASE_APT_SIGNING_FINGERPRINT"
    );
}

#[test]
fn s3_deb_publish_target_allows_missing_local_signing_passphrase() {
    let contract = gateway();
    contract.validate().expect("contract should validate");
    let values = values(&[
        ("XTASK_RELEASE_S3_ENDPOINT_URL", "https://r2.example"),
        ("XTASK_RELEASE_S3_ACCESS_KEY_ID", "access"),
        ("XTASK_RELEASE_S3_SECRET_ACCESS_KEY", "secret"),
        ("XTASK_RELEASE_APT_SIGNING_KEY", "key"),
        ("XTASK_RELEASE_APT_SIGNING_FINGERPRINT", "fingerprint"),
    ]);

    let target = resolve_s3_publish_target(
        &contract,
        PackageSystem::Deb,
        ReleaseChannel::Stable,
        &values,
    )
    .expect("deb publish target should allow missing local passphrase");

    match target {
        S3PublishTarget::Deb(target) => {
            assert_eq!(target.signing_key, "key");
            assert_eq!(target.signing_passphrase, None);
            assert_eq!(target.fingerprint, "fingerprint");
        }
        _ => panic!("expected deb target"),
    }
}

#[test]
fn s3_deb_publish_target_rejects_empty_signing_passphrase() {
    let contract = gateway();
    contract.validate().expect("contract should validate");
    let values = values(&[
        ("XTASK_RELEASE_S3_ENDPOINT_URL", "https://r2.example"),
        ("XTASK_RELEASE_S3_ACCESS_KEY_ID", "access"),
        ("XTASK_RELEASE_S3_SECRET_ACCESS_KEY", "secret"),
        ("XTASK_RELEASE_APT_SIGNING_KEY", "key"),
        ("XTASK_RELEASE_APT_SIGNING_PASSPHRASE", ""),
        ("XTASK_RELEASE_APT_SIGNING_FINGERPRINT", "fingerprint"),
    ]);

    let error = resolve_s3_publish_target(
        &contract,
        PackageSystem::Deb,
        ReleaseChannel::Stable,
        &values,
    )
    .expect_err("empty passphrase should fail");

    assert_eq!(
        error.to_string(),
        "release environment variable XTASK_RELEASE_APT_SIGNING_PASSPHRASE must not be empty"
    );
}

#[test]
fn s3_publish_target_rejects_empty_prefix() {
    let mut package = stated("1.2.3");
    package.brew = Some(brew("build-brew.sh", "sample.rb.in"));
    let mut s3 = s3();
    s3.brew = Some(brew_destination("///"));
    let contract = contract(vec![("sample", package)], s3);
    contract.validate().expect("contract should validate");
    let values = values(&[
        ("XTASK_RELEASE_S3_ENDPOINT_URL", "https://r2.example"),
        ("XTASK_RELEASE_S3_ACCESS_KEY_ID", "access"),
        ("XTASK_RELEASE_S3_SECRET_ACCESS_KEY", "secret"),
        ("HOMEBREW_TAP_GITHUB_TOKEN", "token"),
    ]);

    let error = resolve_s3_publish_target(
        &contract,
        PackageSystem::Brew,
        ReleaseChannel::Stable,
        &values,
    )
    .expect_err("empty prefix should fail");

    assert_eq!(error.to_string(), "invalid remote prefix");
}

#[test]
fn preview_channel_selects_preview_destinations() {
    let contract = channels();
    let values = channel_values();
    let resolve = |system: PackageSystem| {
        resolve_s3_publish_target(&contract, system, ReleaseChannel::Preview, &values)
            .expect("target should resolve")
    };

    let S3PublishTarget::Deb(target) = resolve(PackageSystem::Deb) else {
        panic!("expected deb target");
    };
    assert_eq!(target.prefix.as_str(), "ppa/genmeta");
    assert_eq!(target.suite, "preview");

    let S3PublishTarget::Rpm(target) = resolve(PackageSystem::Rpm) else {
        panic!("expected rpm target");
    };
    assert_eq!(target.prefix.as_str(), "rpm/preview");

    let S3PublishTarget::Brew(target) = resolve(PackageSystem::Brew) else {
        panic!("expected brew target");
    };
    assert_eq!(target.prefix.as_str(), "homebrew/preview");
    assert_eq!(target.tap.repository, "genmeta/homebrew-preview");

    let S3PublishTarget::Scoop(target) = resolve(PackageSystem::Scoop) else {
        panic!("expected scoop target");
    };
    assert_eq!(target.prefix.as_str(), "scoop/preview");
    assert_eq!(target.bucket.repository, "genmeta/scoop-preview");
}

#[test]
fn destinations_are_shown_in_one_line_or_one_for_each_setting() {
    let contract = channels();
    let values = channel_values();
    let lines = |system: PackageSystem, one_each: bool| {
        let target =
            resolve_s3_publish_target(&contract, system, ReleaseChannel::Preview, &values)
                .expect("target should resolve");
        destination_lines(ReleaseChannel::Preview, &target, one_each)
    };

    assert_eq!(
        lines(PackageSystem::Deb, false),
        vec!["channel=preview prefix=ppa/genmeta suite=preview"]
    );
    assert_eq!(
        lines(PackageSystem::Deb, true),
        vec!["channel=preview", "prefix=ppa/genmeta", "suite=preview"]
    );
    assert_eq!(
        lines(PackageSystem::Brew, true),
        vec!["channel=preview", "prefix=homebrew/preview", "tap=genmeta/homebrew-preview"]
    );
    assert_eq!(
        lines(PackageSystem::Scoop, true),
        vec!["channel=preview", "prefix=scoop/preview", "bucket=genmeta/scoop-preview"]
    );
    assert_eq!(
        lines(PackageSystem::Rpm, true),
        vec!["channel=preview", "prefix=rpm/preview"]
    );
}

#[test]
fn stable_channel_selects_stable_destinations() {
    let contract = channels();
    let values = channel_values();

    let target = resolve_s3_publish_target(
        &contract,
        PackageSystem::Brew,
        ReleaseChannel::Stable,
        &values,
    )
    .expect("brew target should resolve");
    let S3PublishTarget::Brew(target) = target else {
        panic!("expected brew target");
    };
    assert_eq!(target.prefix.as_str(), "homebrew/stable");
    assert_eq!(target.tap.repository, "genmeta/homebrew-stable");
}

fn triple(name: &str) -> RequestedTarget {
    RequestedTarget::Triple(text(name))
}

fn selection(system: PackageSystem, targets: Vec<RequestedTarget>) -> BuildSelectionRequest {
    BuildSelectionRequest { system, targets, features: Vec::new() }
}

#[test]
fn common_target_selects_architecture_class_not_package_name() {
    let contract = gateway();
    contract.validate().expect("contract should validate");

    let deb =
        select_build_branches(&contract, selection(PackageSystem::Deb, vec![RequestedTarget::Common]))
            .expect("deb common selection should resolve");
    assert_eq!(
        deb.iter().map(|branch| branch.package_id.as_str()).collect::<Vec<_>>(),
        vec!["pishoo-common"]
    );

    let rpm =
        select_build_branches(&contract, selection(PackageSystem::Rpm, vec![RequestedTarget::Common]))
            .expect("rpm common selection should resolve");
    assert_eq!(
        rpm.iter().map(|branch| branch.package_id.as_str()).collect::<Vec<_>>(),
        vec!["pishoo-common"]
    );
}

#[test]
fn build_selection_preserves_each_matching_target() {
    let contract = gateway();
    contract.validate().expect("contract should validate");

    let selected = select_build_branches(
        &contract,
        selection(
            PackageSystem::Deb,
            vec![
                RequestedTarget::Common,
                triple("x86_64-unknown-linux-gnu"),
                triple("aarch64-unknown-linux-gnu"),
            ],
        ),
    )
    .expect("deb selection should resolve");

    assert_eq!(
        selected
            .iter()
            .map(|branch| (
                branch.package_id.as_str(),
                match &branch.target {
                    RequestedTarget::Common => "common",
                    RequestedTarget::Triple(target) => target.as_str(),
                }
            ))
            .collect::<Vec<_>>(),
        vec![
            ("pishoo", "x86_64-unknown-linux-gnu"),
            ("pishoo", "aarch64-unknown-linux-gnu"),
            ("pishoo-common", "common"),
        ]
    );
}

#[test]
fn gmutils_contract_has_scoop_and_no_common_target() {
    let contract = gmutils();
    contract.validate().expect("contract should validate");

    let gmutils = contract.package("gmutils").expect("gmutils package exists");
    assert!(gmutils.branch(PackageSystem::Scoop).is_some());

    let common =
        select_build_branches(&contract, selection(PackageSystem::Deb, vec![RequestedTarget::Common]));
    assert!(common.is_err());
}

#[test]
fn build_invocation_uses_script_and_container_from_contract() {
    let contract = gateway();
    contract.validate().expect("contract should validate");

    let plan = build_invocation_for(
        &contract,
        "pishoo",
        PackageSystem::Deb,
        triple("x86_64-unknown-linux-gnu"),
        &vec![text("pam")],
    )
    .expect("build invocation should plan");

    assert_eq!(plan.script, "xtask/release/deb/pishoo.sh");
    assert_eq!(
        plan.container.as_ref().map(|container| container.image.as_str()),
        Some("xtask-release:build-pishoo-deb")
    );
}

#[test]
fn build_invocation_keeps_branch_open_when_only_some_targets_have_env_overrides() {
    let contract = gateway();
    contract.validate().expect("contract should validate");

    let plan = build_invocation_for(
        &contract,
        "pishoo",
        PackageSystem::Brew,
        triple("x86_64-apple-darwin"),
        &Vec::new(),
    )
    .expect("target without explicit env override should still plan");

    assert_eq!(plan.script, "xtask/release/brew/pishoo.sh");
    assert_eq!(
        plan.env.get("XTASK_RELEASE_TARGET").map(String::as_str),
        Some("x86_64-apple-darwin")
    );
}

#[test]
fn publish_invocation_uses_destination_system_branch() {
    let contract = gateway();
    contract.validate().expect("contract should validate");

    let plan =
        publish_invocation_for(&contract, PackageSystem::Rpm).expect("rpm publish should plan");

    assert_eq!(plan.script, "xtask/release/publish/rpm.sh");
    assert_eq!(
        plan.container.as_ref().map(|container| container.image.as_str()),
        Some("xtask-release:publish-rpm")
    );
}

#[test]
fn build_invocation_resolves_package_env_and_target_override() {
    let contract = gateway();
    contract.validate().expect("contract should validate");
    let values = values(&[
        ("DHTTP_ROOT_CA", "/tmp/root.crt"),
        ("DHTTP_GLOBAL_HOME", "/runtime/should-be-overridden"),
    ]);

    let plan = build_invocation_with_env_values(
        &contract,
        "pishoo",
        PackageSystem::Brew,
        triple("aarch64-apple-darwin"),
        &Vec::new(),
        &values,
    )
    .expect("build invocation should plan");

    assert_eq!(plan.env.get("DHTTP_ROOT_CA").map(String::as_str), Some("/tmp/root.crt"));
    assert_eq!(
        plan.env.get("DHTTP_GLOBAL_HOME").map(String::as_str),
        Some("/opt/homebrew/etc/dhttp")
    );
}

#[test]
fn optional_build_env_is_skipped_when_missing() {
    let contract = gateway();
    contract.validate().expect("contract should validate");
    let values = values(&[("DHTTP_ROOT_CA", "/tmp/root.crt")]);

    let plan = build_invocation_with_env_values(
        &contract,
        "pishoo",
        PackageSystem::Deb,
        triple("x86_64-unknown-linux-gnu"),
        &Vec::new(),
        &values,
    )
    .expect("build invocation should plan");

    assert_eq!(plan.env.get("DHTTP_ROOT_CA").map(String::as_str), Some("/tmp/root.crt"));
    assert!(!plan.env.contains_key("DHTTP_GLOBAL_HOME"));
}

#[test]
fn required_build_env_is_asked_for_when_missing() {
    let contract = gateway();
    let error = build_invocation_with_env_values(
        &contract,
        "pishoo",
        PackageSystem::Deb,
        triple("x86_64-unknown-linux-gnu"),
        &Vec::new(),
        &TextMap::new(),
    )
    .expect_err("missing required value should fail");
    assert!(error.to_string().contains("DHTTP_ROOT_CA"));
}

#[test]
fn optional_target_build_env_override_suppresses_package_env_value_when_missing() {
    let mut package = from_manifest("sample/Cargo.toml");
    package.build = PackageBuildContract {
        env: bindings(vec![("DHTTP_GLOBAL_HOME", from_env("DHTTP_GLOBAL_HOME", false))]),
    };
    let mut branch = brew("xtask/release/brew/sample.sh", "xtask/templates/sample.rb.in");
    branch.target.insert(
        text("aarch64-apple-darwin"),
        PackageTargetContract {
            env: bindings(vec![(
                "DHTTP_GLOBAL_HOME",
                from_env("TARGET_DHTTP_GLOBAL_HOME", true),
            )]),
        },
    );
    package.brew = Some(branch);
    let contract = contract(vec![("sample", package)], s3());
    contract.validate().expect("contract should validate");
    let values = values(&[("DHTTP_GLOBAL_HOME", "/package/default")]);

    let plan = build_invocation_with_env_values(
        &contract,
        "sample",
        PackageSystem::Brew,
        triple("aarch64-apple-darwin"),
        &Vec::new(),
        &values,
    )
    .expect("build invocation should plan");

    assert!(!plan.env.contains_key("DHTTP_GLOBAL_HOME"));
}

#[test]
fn common_target_build_env_override_applies_to_common_target() {
    let mut package = stated("1.2.3");
    package.build =
        PackageBuildContract { env: bindings(vec![("CONFIG_DIR", from_env("CONFIG_DIR", false))]) };
    let mut branch = deb(ArchitectureClass::All, "xtask/release/deb/sample-common.sh", None);
    branch.target.insert(
        text("common"),
        PackageTargetContract {
            env: bindings(vec![("CONFIG_DIR", with_value("/usr/share/sample"))]),
        },
    );
    package.deb = Some(branch);
    let contract = contract(vec![("sample-common", package)], s3());
    contract.validate().expect("contract should validate");
    let values = values(&[("CONFIG_DIR", "/runtime")]);

    let plan = build_invocation_with_env_values(
        &contract,
        "sample-common",
        PackageSystem::Deb,
        RequestedTarget::Common,
        &Vec::new(),
        &values,
    )
    .expect("common build invocation should plan");
    let names = build_env_names(
        &contract,
        "sample-common",
        PackageSystem::Deb,
        RequestedTarget::Common,
    )
    .expect("common build env names should resolve");

    assert_eq!(plan.env.get("CONFIG_DIR").map(String::as_str), Some("/usr/share/sample"));
    assert!(!names.required.contains("CONFIG_DIR"));
    assert!(!names.optional.contains("CONFIG_DIR"));
}

/// The gateway contract with every build variable of its package.
fn gateway_with_build_env() -> ReleaseContract {
    let mut contract = gateway();
    let mut package = TextMap::new();
    let mut pishoo = from_manifest("pishoo/Cargo.toml");
    pishoo.build = PackageBuildContract {
        env: bindings(vec![
            ("DHTTP_ROOT_CA", from_env("DHTTP_ROOT_CA", false)),
            ("DHTTP_STUN_SERVER", from_env("DHTTP_STUN_SERVER", false)),
            ("DHTTP_H3_DNS_SERVER", from_env("DHTTP_H3_DNS_SERVER", false)),
            ("DHTTP_HTTP_DNS_SERVER", from_env("DHTTP_HTTP_DNS_SERVER", false)),
            ("DHTTP_MDNS_SERVICE", from_env("DHTTP_MDNS_SERVICE", false)),
            ("DHTTP_CERT_SERVER_URL", from_env("DHTTP_CERT_SERVER_URL", false)),
            ("DHTTP_GLOBAL_HOME", from_env("DHTTP_GLOBAL_HOME", true)),
        ]),
    };
    pishoo.deb = Some(deb(
        ArchitectureClass::Target,
        "xtask/release/deb/pishoo.sh",
        Some("xtask/release/deb/Dockerfile"),
    ));
    pishoo.rpm = Some(rpm(
        ArchitectureClass::Target,
        "xtask/release/rpm/pishoo.sh",
        Some("xtask/release/rpm/Dockerfile"),
    ));
    let mut brew_branch = brew("xtask/release/brew/pishoo.sh", "xtask/templates/pishoo.rb.in");
    brew_branch.target.insert(
        text("aarch64-apple-darwin"),
        PackageTargetContract {
            env: bindings(vec![("DHTTP_GLOBAL_HOME", with_value("/opt/homebrew/etc/dhttp"))]),
        },
    );
    pishoo.brew = Some(brew_branch);
    package.insert(id("pishoo"), pishoo);
    contract.package = package;
    contract
}

#[test]
fn build_and_s3_publish_env_names_union_build_and_publish_refs() {
    let contract = gateway_with_build_env();
    contract.validate().expect("gateway contract should validate");

    let found = build_and_s3_publish_env_names(
        &contract,
        "pishoo",
        PackageSystem::Deb,
        triple("x86_64-unknown-linux-gnu"),
    )
    .expect("env names should resolve");

    assert_eq!(
        names(&found.required),
        vec![
            "DHTTP_CERT_SERVER_URL".to_string(),
            "DHTTP_H3_DNS_SERVER".to_string(),
            "DHTTP_HTTP_DNS_SERVER".to_string(),
            "DHTTP_MDNS_SERVICE".to_string(),
            "DHTTP_ROOT_CA".to_string(),
            "DHTTP_STUN_SERVER".to_string(),
            "XTASK_RELEASE_APT_SIGNING_FINGERPRINT".to_string(),
            "XTASK_RELEASE_APT_SIGNING_KEY".to_string(),
            "XTASK_RELEASE_APT_SIGNING_PASSPHRASE".to_string(),
            "XTASK_RELEASE_S3_ACCESS_KEY_ID".to_string(),
            "XTASK_RELEASE_S3_ENDPOINT_URL".to_string(),
            "XTASK_RELEASE_S3_SECRET_ACCESS_KEY".to_string(),
        ]
    );
    assert_eq!(names(&found.optional), vec!["DHTTP_GLOBAL_HOME".to_string()]);
}

#[test]
fn build_and_s3_publish_env_names_respects_target_value_overrides() {
    let contract = gateway_with_build_env();
    contract.validate().expect("gateway contract should validate");

    let names = build_and_s3_publish_env_names(
        &contract,
        "pishoo",
        PackageSystem::Brew,
        triple("aarch64-apple-darwin"),
    )
    .expect("env names should resolve");

    assert!(names.required.contains("HOMEBREW_TAP_GITHUB_TOKEN"));
    assert!(names.required.contains("XTASK_RELEASE_S3_ENDPOINT_URL"));
    assert!(!names.required.contains("DHTTP_GLOBAL_HOME"));
    assert!(!names.optional.contains("DHTTP_GLOBAL_HOME"));
}

#[test]
fn build_env_names_reports_package_level_env_refs() {
    let contract = gateway();
    contract.validate().expect("contract should validate");

    let names = build_env_names(
        &contract,
        "pishoo",
        PackageSystem::Deb,
        triple("x86_64-unknown-linux-gnu"),
    )
    .expect("build env names should resolve");

    assert!(names.required.contains("DHTTP_ROOT_CA"));
    assert!(names.optional.contains("DHTTP_GLOBAL_HOME"));
}

#[test]
fn build_env_names_applies_target_value_overrides() {
    let contract = gateway();
    contract.validate().expect("contract should validate");

    let names = build_env_names(
        &contract,
        "pishoo",
        PackageSystem::Brew,
        triple("aarch64-apple-darwin"),
    )
    .expect("build env names should resolve");

    assert!(names.required.contains("DHTTP_ROOT_CA"));
    assert!(!names.optional.contains("DHTTP_GLOBAL_HOME"));
    assert!(!names.required.contains("DHTTP_GLOBAL_HOME"));
}

#[test]
fn build_container_can_be_defined_by_dockerfile() {
    let mut package = from_manifest("sample/Cargo.toml");
    package.deb = Some(deb(
        ArchitectureClass::Target,
        "xtask/release/deb/sample.sh",
        Some("xtask/release/deb/Dockerfile"),
    ));
    let contract = contract(vec![("sample", package)], s3());
    contract.validate().expect("contract should validate");

    let plan = build_invocation_for(
        &contract,
        "sample",
        PackageSystem::Deb,
        triple("x86_64-unknown-linux-gnu"),
        &Vec::new(),
    )
    .expect("dockerfile container build should plan");

    let container = plan.container.expect("container should be planned");
    assert_eq!(container.image, "xtask-release:build-sample-deb");
    assert_eq!(
        container.build.expect("container image build should be planned").dockerfile,
        "xtask/release/deb/Dockerfile"
    );
}

#[test]
fn publish_container_can_be_defined_by_dockerfile() {
    let mut package = from_manifest("sample/Cargo.toml");
    package.deb = Some(deb(ArchitectureClass::Target, "xtask/release/deb/sample.sh", None));
    let mut s3 = s3();
    s3.deb = Some(deb_destination("ppa/sample", "sample"));
    let contract = contract(vec![("sample", package)], s3);
    contract.validate().expect("contract should validate");

    let plan = publish_invocation_for(&contract, PackageSystem::Deb)
        .expect("dockerfile container publish should plan");

    let container = plan.container.expect("container should be planned");
    assert_eq!(container.image, "xtask-release:publish-deb");
    assert_eq!(
        container.build.expect("container image build should be planned").dockerfile,
        "xtask/release/publish/deb/Dockerfile"
    );
}

#[test]
fn publish_invocations_need_a_stated_script() {
    let contract = channels();
    assert!(publish_invocation_for(&contract, PackageSystem::Deb).is_err());
    assert!(publish_invocation_for(&contract, PackageSystem::Brew).is_err());
}

#[test]
fn build_invocation_includes_generic_script_environment() {
    let contract = gateway();
    contract.validate().expect("contract should validate");
    let values = values(&[("DHTTP_ROOT_CA", "/tmp/root.crt")]);

    let plan = build_invocation_with_env_values(
        &contract,
        "pishoo",
        PackageSystem::Deb,
        triple("x86_64-unknown-linux-gnu"),
        &vec![text("pam")],
        &values,
    )
    .expect("build invocation should plan");

    assert_eq!(plan.env.get("XTASK_RELEASE_PACKAGE_ID").map(String::as_str), Some("pishoo"));
    assert_eq!(plan.env.get("XTASK_RELEASE_SYSTEM").map(String::as_str), Some("deb"));
    assert_eq!(
        plan.env.get("XTASK_RELEASE_TARGET").map(String::as_str),
        Some("x86_64-unknown-linux-gnu")
    );
    assert_eq!(plan.env.get("XTASK_RELEASE_FEATURES").map(String::as_str), Some("pam"));
}

#[test]
fn build_invocation_for_profile_sets_script_profile_environment() {
    let contract = gateway();
    contract.validate().expect("contract should validate");

    let plan = build_invocation_for_profile(
        &contract,
        "pishoo",
        PackageSystem::Deb,
        triple("x86_64-unknown-linux-gnu"),
        BuildProfile::Debug,
        &Vec::new(),
    )
    .expect("debug build invocation should plan");

    assert_eq!(plan.env.get("XTASK_RELEASE_PROFILE").map(String::as_str), Some("debug"));
}

#[test]
fn build_invocation_for_profile_with_env_values_preserves_profile_and_resolves_env() {
    let contract = gateway();
    contract.validate().expect("contract should validate");
    let values = values(&[("DHTTP_ROOT_CA", "/tmp/root.crt")]);

    let plan = build_invocation_for_profile_with_env_values(
        &contract,
        "pishoo",
        PackageSystem::Deb,
        triple("x86_64-unknown-linux-gnu"),
        BuildProfile::Debug,
        &vec![text("pam")],
        &values,
    )
    .expect("debug build invocation with env values should plan");

    assert_eq!(plan.env.get("XTASK_RELEASE_PROFILE").map(String::as_str), Some("debug"));
    assert_eq!(plan.env.get("DHTTP_ROOT_CA").map(String::as_str), Some("/tmp/root.crt"));
    assert_eq!(plan.env.get("XTASK_RELEASE_FEATURES").map(String::as_str), Some("pam"));
}

#[test]
fn container_build_env_binding_mounts_env_source_and_uses_container_path() {
    let mut package = from_manifest("sample/Cargo.toml");
    package.build = PackageBuildContract {
        env: bindings(vec![(
            "ROOT_CA",
            EnvBinding {
                env: Some(text("ROOT_CA")),
                value: None,
                container_path: Some(text("/container/root.crt")),
                optional: false,
            },
        )]),
    };
    let mut branch = deb(ArchitectureClass::Target, "xtask/release/deb/sample.sh", None);
    branch.build = Some(BranchBuildContract {
        script: text("xtask/release/deb/sample.sh"),
        container: Some(ContainerContract {
            image: Some(text("linux-builder")),
            dockerfile: None,
        }),
    });
    package.deb = Some(branch);
    package.brew = Some(brew("xtask/release/brew/sample.sh", "xtask/templates/sample.rb.in"));
    let contract = contract(vec![("sample", package)], s3());
    contract.validate().expect("contract should validate");
    let values = values(&[("ROOT_CA", "/host/root.crt")]);

    let deb = build_invocation_for_profile_with_env_values(
        &contract,
        "sample",
        PackageSystem::Deb,
        triple("x86_64-unknown-linux-gnu"),
        BuildProfile::Release,
        &Vec::new(),
        &values,
    )
    .expect("container build should plan");

    assert_eq!(deb.env.get("ROOT_CA").map(String::as_str), Some("/container/root.crt"));
    assert_eq!(
        deb.env_mounts,
        [PlannedEnvMount {
            source: text("/host/root.crt"),
            destination: text("/container/root.crt"),
            read_only: true,
        }]
    );

    let brew = build_invocation_for_profile_with_env_values(
        &contract,
        "sample",
        PackageSystem::Brew,
        triple("aarch64-apple-darwin"),
        BuildProfile::Release,
        &Vec::new(),
        &values,
    )
    .expect("non-container build should plan");

    assert_eq!(brew.env.get("ROOT_CA").map(String::as_str), Some("/host/root.crt"));
    assert!(brew.env_mounts.is_empty());
}

fn cargo_package(name: &str, version: &str, manifest: &str) -> CargoPackage {
    CargoPackage {
        name: text(name),
        manifest_path: text(manifest),
        version: SourceVersion::parse(version).expect("version should parse"),
        description: Some(text("Sample package")),
        license: Some(text("Apache-2.0")),
        homepage: Some(text("https://dhttp.net")),
        repository: None,
    }
}

fn cargo_table(manifest: &str, package: CargoPackage) -> TextMap<String, CargoMetadata> {
    let mut cargo = TextMap::new();
    cargo.insert(
        text(manifest),
        CargoMetadata::Read { root: Some(package), packages: Vec::new() },
    );
    cargo
}

#[test]
fn requires_bounds_resolve_from_self_and_dependency() {
    let contract = gateway();
    contract.validate().expect("contract should validate");
    let manifest = cargo_manifest_path("/work", "pishoo/Cargo.toml");
    assert_eq!(manifest, "/work/pishoo/Cargo.toml");
    let cargo = cargo_table(&manifest, cargo_package("pishoo", "0.7.0", &manifest));

    let bounds =
        resolve_requires_for(&contract, "/work", "pishoo", PackageSystem::Deb, &cargo)
            .expect("requires should resolve");

    let common = bounds.get("pishoo-common").expect("common bound exists");
    assert_eq!(common.minimum.as_deref(), Some("0.5.1-1"));
    assert_eq!(common.maximum.as_deref(), Some("0.7.0-1"));
}

#[test]
fn requires_dependency_bound_uses_dependency_manifest_version() {
    let mut tool = stated("2.0.0");
    let mut branch = deb(ArchitectureClass::Target, "xtask/release/deb/sample-tool.sh", None);
    branch.requires = required("sample-lib", Some(VersionBoundSource::DependencyPackage), None);
    tool.deb = Some(branch);
    let mut lib = from_manifest("sample-lib/Cargo.toml");
    let mut branch = deb(ArchitectureClass::All, "xtask/release/deb/sample-lib.sh", None);
    branch.revision = text("2");
    lib.deb = Some(branch);
    let contract = contract(vec![("sample-tool", tool), ("sample-lib", lib)], s3());
    contract.validate().expect("contract should validate");
    let manifest = "/work/sample-lib/Cargo.toml";
    let cargo = cargo_table(manifest, cargo_package("sample-lib", "1.4.0", manifest));

    let bounds =
        resolve_requires_for(&contract, "/work", "sample-tool", PackageSystem::Deb, &cargo)
            .expect("requires should resolve");

    let dependency = bounds.get("sample-lib").expect("dependency bound should exist");
    assert_eq!(dependency.minimum.as_deref(), Some("1.4.0-2"));
    assert_eq!(dependency.maximum.as_deref(), None);
}

#[test]
fn requires_self_bound_uses_self_manifest_version() {
    let mut tool = from_manifest("sample-tool/Cargo.toml");
    let mut branch = rpm(ArchitectureClass::Target, "xtask/release/rpm/sample-tool.sh", None);
    branch.release = text("3");
    branch.requires = required("sample-lib", None, Some(VersionBoundSource::SelfPackage));
    tool.rpm = Some(branch);
    let mut lib = stated("1.4.0");
    lib.rpm = Some(rpm(ArchitectureClass::Noarch, "xtask/release/rpm/sample-lib.sh", None));
    let contract = contract(vec![("sample-tool", tool), ("sample-lib", lib)], s3());
    contract.validate().expect("contract should validate");
    let manifest = "/work/sample-tool/Cargo.toml";
    let cargo = cargo_table(manifest, cargo_package("sample-tool", "2.5.0", manifest));

    let bounds =
        resolve_requires_for(&contract, "/work", "sample-tool", PackageSystem::Rpm, &cargo)
            .expect("requires should resolve");

    let dependency = bounds.get("sample-lib").expect("dependency bound should exist");
    assert_eq!(dependency.minimum.as_deref(), None);
    assert_eq!(dependency.maximum.as_deref(), Some("2.5.0-3"));
}

#[test]
fn cargo_manifest_metadata_resolves_source_package_metadata() {
    let manifest = "/work/Cargo.toml";
    let mut package = from_manifest(manifest);
    package.brew =
        Some(brew("xtask/release/brew/sample-tool.sh", "xtask/templates/sample-tool.rb.in"));
    let contract = contract(vec![("sample-tool", package)], s3());
    contract.validate().expect("contract should validate");
    let mut root = cargo_package("sample-tool", "1.2.3", manifest);
    root.description = Some(text("Sample tool"));
    root.repository = Some(text("https://github.com/genmeta/sample-tool"));

    let metadata =
        resolve_metadata(&contract, "sample-tool", "/work", &cargo_table(manifest, root))
            .expect("metadata should resolve");

    assert_eq!(metadata.source_version, SourceVersion::parse("1.2.3").unwrap());
    assert_eq!(metadata.description, "Sample tool");
    assert_eq!(metadata.license, "Apache-2.0");
    assert_eq!(metadata.homepage, "https://dhttp.net");
    assert_eq!(
        metadata.repository.as_deref(),
        Some("https://github.com/genmeta/sample-tool")
    );
}

#[test]
fn explicit_package_metadata_resolves_non_cargo_package() {
    let contract = gateway();
    contract.validate().expect("contract should validate");

    let metadata = resolve_metadata(&contract, "pishoo-common", ".", &TextMap::new())
        .expect("metadata should resolve");

    assert_eq!(metadata.source_version, SourceVersion::parse("0.5.1").unwrap());
    assert_eq!(metadata.description, "Common files for pishoo");
    assert_eq!(metadata.license, "Apache-2.0");
    assert_eq!(metadata.homepage, "https://dhttp.net");
    assert_eq!(metadata.repository.as_deref(), Some("https://github.com/genmeta/gateway"));
}

#[test]
fn metadata_of_an_unknown_package_or_a_failed_manifest_is_refused() {
    let contract = gateway();
    assert!(resolve_metadata(&contract, "missing", "/work", &TextMap::new()).is_err());
    let mut cargo = TextMap::new();
    cargo.insert(text("/work/pishoo/Cargo.toml"), CargoMetadata::Failed);
    assert!(resolve_metadata(&contract, "pishoo", "/work", &cargo).is_err());
}

fn options(targets: Vec<RequestedTarget>) -> PackageSectionOptions {
    PackageSectionOptions {
        targets,
        features: Vec::new(),
        siblings: Vec::new(),
        patches: Vec::new(),
        debug: false,
    }
}

fn tokens(words: &[&str]) -> Vec<CommandToken> {
    words.iter().map(|word| CommandToken::Text(text(word))).collect()
}

#[test]
fn package_command_invocations_with_primary_source_overlay_only_applies_to_container_builds() {
    let contract = gateway();
    contract.validate().expect("contract should validate");
    let words = tokens(&[
        "deb",
        "--target",
        "x86_64-unknown-linux-gnu",
        "--sibling",
        "dhttp=/workspace/dhttp",
        "--patch",
        "crates-io",
        "dhttp",
        "dhttp/dhttp",
        "brew",
        "--target",
        "aarch64-apple-darwin",
    ]);
    let mut first = options(vec![triple("x86_64-unknown-linux-gnu")]);
    first.siblings = tokens(&["dhttp=/workspace/dhttp"]);
    first.patches = vec![text("crates-io"), text("dhttp"), text("dhttp/dhttp")];
    let readings = vec![
        SectionReading::Options(first),
        SectionReading::Options(options(vec![triple("aarch64-apple-darwin")])),
    ];
    let command = package_command_request(&contract, false, &words, &readings)
        .expect("package command should parse");
    let values = values(&[
        ("DHTTP_ROOT_CA", "/tmp/root.crt"),
        ("DHTTP_STUN_SERVER", "nat.example"),
        ("DHTTP_H3_DNS_SERVER", "https://dns.example:4433"),
        ("DHTTP_HTTP_DNS_SERVER", "https://dns.example"),
        ("DHTTP_MDNS_SERVICE", "_dhttp.local"),
        ("DHTTP_CERT_SERVER_URL", "https://license.example"),
    ]);

    let builds = package_command_invocations_with_primary_source(
        &contract,
        &command,
        SiblingSource { name: text("gateway"), host_path: text("/workspace/gateway") },
        &values,
    )
    .expect("package command should plan");

    let deb = builds
        .iter()
        .find(|build| build.system == PackageSystem::Deb)
        .expect("deb build should be planned");
    assert_eq!(deb.package_id.as_str(), "pishoo");
    let overlay =
        deb.source_overlay.as_ref().expect("container deb build should include source overlay");
    assert_eq!(
        overlay.mounts,
        [
            ContainerMount {
                source: text("/workspace/gateway"),
                destination: text("/sources/gateway"),
                read_only: true,
            },
            ContainerMount {
                source: text("/workspace/dhttp"),
                destination: text("/sources/dhttp"),
                read_only: true,
            },
        ]
    );
    assert_eq!(
        overlay.cargo_config,
        "[patch.crates-io]\ndhttp = { path = \"/sources/dhttp/dhttp\" }\n\n"
    );

    let brew = builds
        .iter()
        .find(|build| build.system == PackageSystem::Brew)
        .expect("brew build should be planned");
    assert!(brew.source_overlay.is_none());
}

#[test]
fn package_command_invocations_connect_cli_sections_to_selected_package_builds() {
    let contract = gateway();
    contract.validate().expect("contract should validate");
    let words = tokens(&[
        "deb",
        "--target",
        "common",
        "brew",
        "--target",
        "aarch64-apple-darwin",
        "--features",
        "pam",
        "--sibling",
        "dhttp=/workspace/dhttp",
        "--patch",
        "crates-io",
        "dhttp",
        "dhttp/dhttp",
        "--debug",
    ]);
    let mut second = options(vec![triple("aarch64-apple-darwin")]);
    second.features = vec![text("pam")];
    second.siblings = tokens(&["dhttp=/workspace/dhttp"]);
    second.patches = vec![text("crates-io"), text("dhttp"), text("dhttp/dhttp")];
    second.debug = true;
    let readings = vec![
        SectionReading::Options(options(vec![RequestedTarget::Common])),
        SectionReading::Options(second),
    ];
    let command = package_command_request(&contract, false, &words, &readings)
        .expect("package command should parse");
    let values = values(&[("DHTTP_ROOT_CA", "/workspace/root.crt")]);

    let builds = package_command_invocations(&contract, &command, &values)
        .expect("package command should plan invocations");

    assert_eq!(builds.len(), 2);
    assert_eq!(builds[0].package_id.as_str(), "pishoo-common");
    assert_eq!(builds[0].system, PackageSystem::Deb);
    assert_eq!(
        builds[0].invocation.env.get("XTASK_RELEASE_TARGET").map(String::as_str),
        Some("common")
    );
    assert_eq!(builds[1].package_id.as_str(), "pishoo");
    assert_eq!(builds[1].system, PackageSystem::Brew);
    assert_eq!(
        builds[1].invocation.env.get("XTASK_RELEASE_PROFILE").map(String::as_str),
        Some("debug")
    );
    assert_eq!(
        builds[1].invocation.env.get("XTASK_RELEASE_FEATURES").map(String::as_str),
        Some("pam")
    );
    assert_eq!(
        builds[1].invocation.env.get("DHTTP_GLOBAL_HOME").map(String::as_str),
        Some("/opt/homebrew/etc/dhttp")
    );
    let overlay = builds[1]
        .source_overlay
        .as_ref()
        .expect("brew build should carry section source overlay");
    assert_eq!(
        overlay.mounts,
        [ContainerMount {
            source: text("/workspace/dhttp"),
            destination: text("/sources/dhttp"),
            read_only: true,
        }]
    );
    assert_eq!(
        overlay.cargo_config,
        "[patch.crates-io]\ndhttp = { path = \"/sources/dhttp/dhttp\" }\n\n"
    );
}

#[test]
fn s3_publish_command_plan_connects_cli_systems_to_targets_and_scripts() {
    let contract = gmutils();
    contract.validate().expect("contract should validate");
    let command = s3_publish_command_request(
        &contract,
        true,
        vec![PackageSystem::Deb, PackageSystem::Scoop],
    )
    .expect("s3 publish command should parse");
    let values = values(&[
        ("XTASK_RELEASE_S3_ENDPOINT_URL", "https://r2.example"),
        ("XTASK_RELEASE_S3_ACCESS_KEY_ID", "access"),
        ("XTASK_RELEASE_S3_SECRET_ACCESS_KEY", "secret"),
        ("XTASK_RELEASE_APT_SIGNING_KEY", "key"),
        ("XTASK_RELEASE_APT_SIGNING_PASSPHRASE", "passphrase"),
        ("XTASK_RELEASE_APT_SIGNING_FINGERPRINT", "fingerprint"),
        ("HOMEBREW_TAP_GITHUB_TOKEN", "token"),
    ]);

    let plans = s3_publish_command_plan(&contract, &command, ReleaseChannel::Stable, &values)
        .expect("s3 publish command should plan");

    assert_eq!(plans.len(), 2);
    assert_eq!(plans[0].system, PackageSystem::Deb);
    assert!(plans[0].dry_run);
    assert_eq!(
        plans[0].invocation.as_ref().map(|invocation| invocation.script.as_str()),
        Some("xtask/release/publish/deb.sh")
    );
    match &plans[0].target {
        S3PublishTarget::Deb(target) => {
            assert_eq!(target.prefix.as_str(), "ppa/genmeta");
            assert_eq!(target.fingerprint, "fingerprint");
        }
        _ => panic!("expected deb publish target"),
    }

    assert_eq!(plans[1].system, PackageSystem::Scoop);
    assert!(plans[1].dry_run);
    assert!(plans[1].invocation.is_none());
    match &plans[1].target {
        S3PublishTarget::Scoop(target) => {
            assert_eq!(target.prefix.as_str(), "scoop");
            assert_eq!(target.public_base_url.as_str(), "https://download.dhttp.net/scoop");
        }
        _ => panic!("expected scoop publish target"),
    }
}

#[test]
fn package_build_requests_are_limited_to_package_system_branches_in_contract() {
    let contract = gateway();
    let words =
        tokens(&["deb", "--target", "common", "brew", "--target", "aarch64-apple-darwin"]);
    let readings = vec![
        SectionReading::Options(options(vec![RequestedTarget::Common])),
        SectionReading::Options(options(vec![triple("aarch64-apple-darwin")])),
    ];
    let requests = parse_package_build_requests(&contract, &words, &readings)
        .expect("package build requests should parse");

    assert_eq!(requests.len(), 2);
    assert_eq!(requests[0].system, PackageSystem::Deb);
    assert_eq!(requests[0].args.targets, [RequestedTarget::Common]);
    assert_eq!(requests[1].system, PackageSystem::Brew);
}

#[test]
fn package_build_requests_reject_package_system_without_contract_branch() {
    let contract = gateway();
    let error = parse_package_build_requests(
        &contract,
        &tokens(&["scoop", "--target", "x86_64-pc-windows-msvc"]),
        &vec![SectionReading::Options(options(vec![triple("x86_64-pc-windows-msvc")]))],
    )
    .expect_err("scoop should fail because gateway has no scoop branch");

    assert_eq!(
        error.to_string(),
        "package system scoop is not defined by any package branch"
    );
}

#[test]
fn package_build_requests_hand_on_what_a_section_was_refused_for() {
    let contract = gateway();
    let error = parse_package_build_requests(
        &contract,
        &tokens(&["deb", "--unknown"]),
        &vec![SectionReading::Refused { reason: text("unexpected argument '--unknown'") }],
    )
    .expect_err("a refused section should fail");
    assert!(matches!(
        error,
        ParsePackageBuildRequestsError::SectionArgs { .. }
    ));
}

#[test]
fn package_command_request_parses_overwrite_manifest_before_package_systems() {
    let contract = gateway();
    let words = tokens(&[
        "deb",
        "--target",
        "common",
        "--target",
        "x86_64-unknown-linux-gnu",
        "rpm",
        "--target",
        "x86_64-unknown-linux-gnu",
    ]);
    let readings = vec![
        SectionReading::Options(options(vec![
            RequestedTarget::Common,
            triple("x86_64-unknown-linux-gnu"),
        ])),
        SectionReading::Options(options(vec![triple("x86_64-unknown-linux-gnu")])),
    ];
    let request = package_command_request(&contract, true, &words, &readings)
        .expect("package command request should parse");

    assert!(request.overwrite_manifest);
    assert_eq!(request.builds.len(), 2);
    assert_eq!(request.builds[0].system, PackageSystem::Deb);
    assert_eq!(
        request.builds[0].args.targets,
        [RequestedTarget::Common, triple("x86_64-unknown-linux-gnu")]
    );
    assert_eq!(request.builds[1].system, PackageSystem::Rpm);
}

#[test]
fn package_command_request_defaults_overwrite_manifest_to_false() {
    let contract = gmutils();
    let request = package_command_request(
        &contract,
        false,
        &tokens(&["scoop", "--target", "x86_64-pc-windows-msvc"]),
        &vec![SectionReading::Options(options(vec![triple("x86_64-pc-windows-msvc")]))],
    )
    .expect("package command request should parse");

    assert!(!request.overwrite_manifest);
    assert_eq!(request.builds.len(), 1);
    assert_eq!(request.builds[0].system, PackageSystem::Scoop);
}

#[test]
fn package_command_uses_clap_for_grouped_package_sections() {
    let contract = channels();
    let words = tokens(&[
        "rpm",
        "--target",
        "common",
        "--target",
        "x86_64-unknown-linux-gnu",
        "--features",
        "sshd,pam",
        "--sibling",
        "dhttp=../dhttp",
        "--patch",
        "crates-io",
        "dhttp",
        "dhttp/dhttp",
    ]);
    let mut reading =
        options(vec![RequestedTarget::Common, triple("x86_64-unknown-linux-gnu")]);
    reading.features = vec![text("sshd"), text("pam")];
    reading.siblings = tokens(&["dhttp=../dhttp"]);
    reading.patches = vec![text("crates-io"), text("dhttp"), text("dhttp/dhttp")];
    let command =
        package_command_request(&contract, true, &words, &vec![SectionReading::Options(reading)])
            .expect("package command should parse");

    assert!(command.overwrite_manifest);
    assert_eq!(command.builds.len(), 1);
    let build = &command.builds[0];
    assert_eq!(
        build.args.targets,
        vec![RequestedTarget::Common, triple("x86_64-unknown-linux-gnu")]
    );
    assert_eq!(build.args.features, vec!["sshd", "pam"]);
    assert_eq!(build.args.sibling_sources[0].name, "dhttp");
    assert_eq!(build.args.patches[0].package, "dhttp");
}

#[test]
fn package_command_request_preserves_unknown_package_system_error() {
    let contract = gmutils();
    let error = package_command_request(
        &contract,
        false,
        &tokens(&["homebrew", "--target", "aarch64-apple-darwin"]),
        &Vec::new(),
    )
    .expect_err("unknown package system should fail through package-system parsing");

    let ParsePackageCommandRequestError::BuildRequests { source } = error else {
        panic!("expected a build request error");
    };
    let ParsePackageBuildRequestsError::PackageSystems { source } = source else {
        panic!("expected a section error");
    };
    assert_eq!(source.to_string(), "unknown package system homebrew");
}

#[test]
fn package_command_request_rejects_unknown_global_option() {
    let contract = gmutils();
    let error = package_command_request(
        &contract,
        false,
        &tokens(&["--dry-run", "deb", "--target", "common"]),
        &Vec::new(),
    )
    .expect_err("unknown global package option should fail");

    let ParsePackageCommandRequestError::BuildRequests { source } = error else {
        panic!("expected a build request error");
    };
    let ParsePackageBuildRequestsError::PackageSystems { source } = source else {
        panic!("expected a section error");
    };
    assert_eq!(source.to_string(), "expected a package system before argument --dry-run");
}

#[test]
fn s3_publish_requests_are_limited_to_destination_branches() {
    let contract = gmutils();
    let requests =
        parse_s3_publish_requests(&contract, &tokens(&["deb", "rpm", "brew", "scoop"]))
            .expect("s3 publish requests should parse");

    assert_eq!(
        requests,
        [PackageSystem::Deb, PackageSystem::Rpm, PackageSystem::Brew, PackageSystem::Scoop]
    );
}

#[test]
fn s3_publish_requests_reject_system_without_destination_branch() {
    let contract = gateway();
    let error = parse_s3_publish_requests(&contract, &tokens(&["scoop"]))
        .expect_err("scoop should fail without an s3 scoop destination");

    assert_eq!(error.to_string(), "destination s3 scoop branch is not defined");
}

#[test]
fn s3_publish_requests_reject_target_local_arguments() {
    let contract = gmutils();
    let error = parse_s3_publish_requests(
        &contract,
        &tokens(&["deb", "--target", "x86_64-unknown-linux-gnu"]),
    )
    .expect_err("publish s3 target-local args should fail");

    assert_eq!(
        error.to_string(),
        "destination s3 deb branch does not accept target-local arguments"
    );
}

#[test]
fn s3_publish_requests_require_matching_package_system_branch() {
    let mut package = from_manifest("sample/Cargo.toml");
    let mut branch = deb(ArchitectureClass::Target, "unused", None);
    branch.build = None;
    branch.dockerfile = Some(text("xtask/release/deb/Dockerfile"));
    package.deb = Some(branch);
    let mut s3 = s3();
    s3.scoop = Some(scoop_destination());
    let contract = contract(vec![("sample", package)], s3);

    let error = parse_s3_publish_requests(&contract, &tokens(&["scoop"]))
        .expect_err("scoop publish should fail without a package scoop branch");

    assert_eq!(
        error.to_string(),
        "package system scoop is not defined by any package branch"
    );
}

#[test]
fn s3_publish_command_request_parses_dry_run_before_package_systems() {
    let contract = gmutils();
    let request = s3_publish_command_request(
        &contract,
        true,
        vec![PackageSystem::Deb, PackageSystem::Rpm, PackageSystem::Scoop],
    )
    .expect("s3 publish command request should parse");

    assert!(request.dry_run);
    assert_eq!(
        request.systems,
        [PackageSystem::Deb, PackageSystem::Rpm, PackageSystem::Scoop]
    );
}

#[test]
fn s3_publish_command_request_defaults_dry_run_to_false() {
    let contract = gateway();
    let request = s3_publish_command_request(
        &contract,
        false,
        vec![PackageSystem::Deb, PackageSystem::Rpm, PackageSystem::Brew],
    )
    .expect("s3 publish command request should parse");

    assert!(!request.dry_run);
    assert_eq!(
        request.systems,
        [PackageSystem::Deb, PackageSystem::Rpm, PackageSystem::Brew]
    );
}

#[test]
fn s3_publish_command_uses_clap_for_flags_and_systems() {
    let command = s3_publish_command_request(
        &channels(),
        true,
        vec![PackageSystem::Deb, PackageSystem::Rpm],
    )
    .expect("s3 publish command should parse");

    assert!(command.dry_run);
    assert_eq!(command.systems.len(), 2);
}

#[test]
fn show_s3_destination_parses_system_and_github_output_flag() {
    let command = show_command_request(&channels(), PackageSystem::Brew, true)
        .expect("show command should parse");

    let ShowCommandRequest::S3Destination(command) = command;
    assert_eq!(command.system, PackageSystem::Brew);
    assert!(command.github_output);
}

fn artifact(target: &str, path: &str, package: &str, version: &str, architecture: &str, name: &str)
    -> PackageArtifact {
    PackageArtifact {
        target: text(target),
        path: text(path),
        sha256: "0".repeat(64),
        size: 0,
        package_name: Some(text(package)),
        package_version: Some(text(version)),
        architecture: Some(text(architecture)),
        archive_name: Some(text(name)),
        features: Vec::new(),
        profile: Some(text("release")),
    }
}

fn manifest(kind: PackageSystem, package: &str, version: &str, artifacts: Vec<PackageArtifact>)
    -> PackageManifest {
    PackageManifest {
        schema_version: 1,
        kind,
        package: text(package),
        version: text(version),
        generated_at: text("2026-06-29T00:00:00Z"),
        git_commit: None,
        git_dirty: false,
        artifacts,
    }
}

#[test]
fn validate_manifest_against_contract_rejects_semver_as_deb_package_version() {
    let mut package = stated("1.2.3");
    package.deb = Some(deb(ArchitectureClass::Target, "xtask/release/deb/sample.sh", None));
    let mut s3 = s3();
    s3.deb = Some(deb_destination("ppa/sample", "sample"));
    let contract = contract(vec![("sample", package)], s3);
    contract.validate().expect("contract should validate");
    let manifest = manifest(
        PackageSystem::Deb,
        "sample",
        "1.2.3",
        vec![artifact(
            "x86_64-unknown-linux-gnu",
            "x86_64-unknown-linux-gnu/release/deb/sample.deb",
            "sample",
            "1.2.3",
            "amd64",
            "sample.deb",
        )],
    );

    let error = validate_manifest_against_contract(&manifest, &contract)
        .expect_err("deb package version must include revision");

    assert_eq!(
        error.to_string(),
        "linux package artifact sample deb version 1.2.3 does not match expected 1.2.3-1"
    );
}

#[test]
fn validate_manifest_against_contract_rejects_cargo_semver_as_deb_package_version() {
    let contract = gateway();
    contract.validate().expect("contract should validate");
    let manifest = manifest(
        PackageSystem::Deb,
        "pishoo",
        "0.5.1",
        vec![artifact(
            "x86_64-unknown-linux-gnu",
            "x86_64-unknown-linux-gnu/release/deb/pishoo.deb",
            "pishoo",
            "0.5.1",
            "amd64",
            "pishoo.deb",
        )],
    );

    let error = validate_manifest_against_contract(&manifest, &contract)
        .expect_err("cargo package deb artifact version must include revision");

    assert_eq!(
        error.to_string(),
        "linux package artifact pishoo deb version 0.5.1 does not match expected 0.5.1-1"
    );
}

#[test]
fn validate_manifest_against_contract_checks_linux_artifact_package_branches() {
    let contract = gateway();
    contract.validate().expect("contract should validate");
    let manifest = manifest(
        PackageSystem::Deb,
        "pishoo",
        "0.5.1",
        vec![artifact(
            "common",
            "common/release/deb/missing-common.deb",
            "missing-common",
            "0.5.1-1",
            "all",
            "missing-common.deb",
        )],
    );

    let error = validate_manifest_against_contract(&manifest, &contract)
        .expect_err("unknown linux artifact package should fail");

    assert_eq!(error.to_string(), "linux package artifact missing-common does not exist");
}

#[test]
fn validate_package_command_manifest_uses_cli_requested_targets() {
    let contract = gateway();
    contract.validate().expect("contract should validate");
    let command = package_command_request(
        &contract,
        false,
        &tokens(&["brew", "--target", "aarch64-apple-darwin", "--target", "x86_64-apple-darwin"]),
        &vec![SectionReading::Options(options(vec![
            triple("aarch64-apple-darwin"),
            triple("x86_64-apple-darwin"),
        ]))],
    )
    .expect("package command should parse");
    let mut built = artifact(
        "aarch64-apple-darwin",
        "aarch64-apple-darwin/release/brew/pishoo-0.5.1-aarch64-apple-darwin.tar.gz",
        "pishoo",
        "0.5.1",
        "aarch64",
        "pishoo-0.5.1-aarch64-apple-darwin.tar.gz",
    );
    built.package_name = None;
    built.package_version = None;
    built.architecture = None;
    let manifest = manifest(PackageSystem::Brew, "pishoo", "0.5.1", vec![built]);

    let error = validate_package_command_manifest(&manifest, &contract, &command)
        .expect_err("manifest missing cli-requested x86_64 target should fail");

    assert_eq!(error.to_string(), "failed to validate package manifest targets");
}

#[test]
fn validate_package_command_manifest_only_uses_targets_that_select_manifest_package() {
    let contract = gateway();
    contract.validate().expect("contract should validate");
    let command = package_command_request(
        &contract,
        false,
        &tokens(&[
            "deb",
            "--target",
            "common",
            "deb",
            "--target",
            "x86_64-unknown-linux-gnu",
        ]),
        &vec![
            SectionReading::Options(options(vec![RequestedTarget::Common])),
            SectionReading::Options(options(vec![triple("x86_64-unknown-linux-gnu")])),
        ],
    )
    .expect("package command should parse");
    let manifest = manifest(
        PackageSystem::Deb,
        "pishoo-common",
        "0.5.1",
        vec![artifact(
            "common",
            "common/release/deb/pishoo-common.deb",
            "pishoo-common",
            "0.5.1-1",
            "all",
            "pishoo-common.deb",
        )],
    );

    validate_package_command_manifest(&manifest, &contract, &command)
        .expect("pishoo-common manifest should ignore targets that select pishoo");

    let other = package_command_request(
        &contract,
        false,
        &tokens(&["rpm", "--target", "common"]),
        &vec![SectionReading::Options(options(vec![RequestedTarget::Common]))],
    )
    .expect("package command should parse");
    assert_eq!(
        validate_package_command_manifest(&manifest, &contract, &other)
            .expect_err("a system that was not requested should fail")
            .to_string(),
        "package command did not request deb build"
    );
}

#[test]
fn variables_that_a_build_names_are_those_that_it_needs() {
    let contract = gateway_with_build_env();
    let names = build_env_names(
        &contract,
        "pishoo",
        PackageSystem::Deb,
        triple("x86_64-unknown-linux-gnu"),
    )
    .expect("names should resolve");
    let mut given = TextMap::new();
    let mut i = 0;
    while i < names.required.len() {
        given.insert(names.required.at(i).clone(), text("value"));
        i += 1;
    }
    let plan = |values: &TextMap<String, String>| {
        build_invocation_with_env_values(
            &contract,
            "pishoo",
            PackageSystem::Deb,
            triple("x86_64-unknown-linux-gnu"),
            &Vec::new(),
            values,
        )
    };
    let first = plan(&given).expect("required variables should suffice");
    given.insert(text("UNRELATED"), text("value"));
    assert_eq!(plan(&given), Ok(first));
    given.insert(text("DHTTP_ROOT_CA"), text(""));
    assert_eq!(
        plan(&given).expect_err("an empty variable should fail").to_string(),
        "build environment variable DHTTP_ROOT_CA must not be empty"
    );
}

#[test]
fn planned_units_know_their_versions_and_requirements() {
    let contract = gateway();
    let words = tokens(&["deb", "--target", "x86_64-unknown-linux-gnu"]);
    let readings =
        vec![SectionReading::Options(options(vec![triple("x86_64-unknown-linux-gnu")]))];
    let command = package_command_request(&contract, false, &words, &readings)
        .expect("package command should parse");
    let builds = package_command_invocations_with_primary_source(
        &contract,
        &command,
        primary_source("/work/gateway").expect("primary source should have a name"),
        &values(&[("DHTTP_ROOT_CA", "/tmp/root.crt")]),
    )
    .expect("package command should plan");
    assert_eq!(builds.len(), 1);
    assert_eq!(
        package_output_dir("/work/gateway/target", &builds[0]),
        "/work/gateway/target/x86_64-unknown-linux-gnu/release/deb"
    );
    let manifest = "/work/gateway/pishoo/Cargo.toml";
    let cargo = cargo_table(manifest, cargo_package("pishoo", "0.7.0-rc.1", manifest));
    let env = package_unit_env(
        &contract,
        "/work/gateway",
        "/work/gateway/target",
        &cargo,
        &builds[0],
    )
    .expect("unit environment should resolve");
    let value = |name: &str| env.get(name).map(String::as_str);
    assert_eq!(value("XTASK_RELEASE_SOURCE_VERSION"), Some("0.7.0-rc.1"));
    assert_eq!(value("XTASK_RELEASE_PACKAGE_VERSION"), Some("0.7.0~rc.1-1"));
    assert_eq!(
        value("XTASK_RELEASE_REQUIRES"),
        Some("pishoo-common (>= 0.5.1-1), pishoo-common (<= 0.7.0~rc.1-1)")
    );
    assert_eq!(value("XTASK_RELEASE_REPO_ROOT"), Some("/workspace"));
    assert_eq!(value("XTASK_RELEASE_TARGET_DIR"), Some("/workspace/target"));
    assert_eq!(
        value("XTASK_RELEASE_OUT_DIR"),
        Some("/workspace/target/x86_64-unknown-linux-gnu/release/deb")
    );
    assert_eq!(value("DHTTP_ROOT_CA"), Some("/tmp/root.crt"));

    let built = artifact_from_path(
        &builds[0],
        "/work/gateway/target",
        "/work/gateway/target/x86_64-unknown-linux-gnu/release/deb/pishoo_0.7.0~rc.1-1_amd64.deb",
        deb_metadata("Package: pishoo\nVersion: 0.7.0~rc.1-1\nArchitecture: amd64\n"),
        7,
        "0".repeat(64),
    )
    .expect("artifact should lie below the target directory");
    assert_eq!(
        built.path,
        "x86_64-unknown-linux-gnu/release/deb/pishoo_0.7.0~rc.1-1_amd64.deb"
    );
    assert_eq!(built.archive_name.as_deref(), Some("pishoo_0.7.0~rc.1-1_amd64.deb"));
    assert_eq!(built.package_name.as_deref(), Some("pishoo"));
    assert_eq!(built.package_version.as_deref(), Some("0.7.0~rc.1-1"));
    assert_eq!(built.architecture.as_deref(), Some("amd64"));
    assert_eq!(built.profile.as_deref(), Some("release"));
    assert!(artifact_from_path(
        &builds[0],
        "/work/gateway/target",
        "/elsewhere/pishoo.deb",
        PackageFileMetadata::default(),
        7,
        "0".repeat(64),
    )
    .is_err());

    let manifest = package_manifest(
        &contract,
        "/work/gateway",
        &cargo,
        PackageSystem::Deb,
        &vec![built],
        text("2026-06-29T00:00:00Z"),
    )
    .expect("manifest should resolve");
    assert_eq!(manifest.package, "pishoo");
    assert_eq!(manifest.version, "0.7.0-rc.1");
    assert_eq!(manifest.kind, PackageSystem::Deb);
    assert_eq!(
        validate_package_command_manifest(&manifest, &contract, &command),
        Ok(())
    );
}

#[test]
fn announcements_are_rendered_from_the_template_of_their_branch() {
    let contract = gmutils();
    assert_eq!(
        manifest_template_path("/work", &contract, &id("gmutils"), PackageSystem::Brew),
        Ok(text("/work/xtask/templates/gmutils.rb.in"))
    );
    assert_eq!(
        manifest_template_path("/work", &contract, &id("missing"), PackageSystem::Brew)
            .expect_err("a missing package should fail")
            .to_string(),
        "package is missing from release contract"
    );
    assert_eq!(
        manifest_template_path("/work", &gateway(), &id("pishoo-common"), PackageSystem::Brew)
            .expect_err("a missing branch should fail")
            .to_string(),
        "package system branch is missing from release contract"
    );
    assert_eq!(
        manifest_template_path("/work", &contract, &id("gmutils"), PackageSystem::Deb)
            .expect_err("a branch without template should fail")
            .to_string(),
        "package system branch is missing manifest_template"
    );
    let path = "/work/genmeta/Cargo.toml";
    let cargo = cargo_table(path, cargo_package("genmeta", "1.2.3", path));
    let mut built = artifact(
        "x86_64-apple-darwin",
        "x86_64-apple-darwin/release/brew/gmutils.tar.gz",
        "gmutils",
        "1.2.3",
        "x86_64",
        "gmutils.tar.gz",
    );
    built.sha256 = text("intel-sha");
    let manifest = manifest(PackageSystem::Brew, "gmutils", "1.2.3", vec![built]);
    let (package_id, metadata) =
        manifest_package_metadata("/work", &contract, &manifest, &cargo)
            .expect("metadata should resolve");
    let formula = render_brew_formula(
        &package_id,
        &metadata,
        &manifest,
        &PublicBaseUrl::parse("https://download.example/brew").unwrap(),
        "class {{ brew.class }}\n{{ brew.urls }}\nend\n",
    )
    .expect("formula should render");
    assert_eq!(
        formula,
        "class Gmutils\n  on_intel do\n    url \"https://download.example/brew/gmutils.tar.gz\"\n    sha256 \"intel-sha\"\n  end\nend\n"
    );
    let prefix = RemotePrefix::parse("brew").unwrap();
    let uploads = announcement_uploads(
        "/work/target",
        &prefix,
        &package_id,
        PackageSystem::Brew,
        &metadata,
    )
    .expect("announcements should be planned");
    assert_eq!(
        uploads.iter().map(|upload| upload.key.as_str()).collect::<Vec<_>>(),
        vec!["brew/gmutils.rb", "brew/gmutils-1.2.3.rb"]
    );
    assert!(uploads.iter().all(|upload| upload.entry));
}

fn built(target: &str, path: &str, archive: &str, content: &[u8]) -> PackageArtifact {
    PackageArtifact {
        target: text(target),
        path: text(path),
        sha256: sha256_hex(content),
        size: content.len() as u64,
        package_name: None,
        package_version: None,
        architecture: None,
        archive_name: Some(text(archive)),
        features: Vec::new(),
        profile: Some(text("release")),
    }
}

fn listed(kind: PackageSystem, package: &str, artifact: PackageArtifact) -> PackageManifest {
    PackageManifest {
        schema_version: 1,
        kind,
        package: text(package),
        version: text("0.5.1"),
        generated_at: text("2026-06-29T00:00:00Z"),
        git_commit: None,
        git_dirty: false,
        artifacts: vec![artifact],
    }
}

fn stored(manifest: &PackageManifest, content: &[u8]) -> PublishReading {
    PublishReading {
        manifest: ManifestReading::Parsed(manifest.clone()),
        artifacts: vec![ArtifactReading::Read {
            size: content.len() as u64,
            content: content.to_vec(),
        }],
    }
}

#[test]
fn load_s3_publish_command_manifests_reads_requested_manifests_and_verifies_artifacts() {
    let contract = gmutils();
    contract.validate().expect("contract should validate");
    let command = parse_s3_publish_command_request(
        &contract,
        &S3PublishCommandReading::Words {
            dry_run: false,
            systems: vec![PackageSystem::Deb, PackageSystem::Brew],
        },
    )
    .expect("publish command should parse");

    let mut deb_artifact = built(
        "x86_64-unknown-linux-gnu",
        "x86_64-unknown-linux-gnu/release/deb/gmutils.deb",
        "gmutils.deb",
        b"deb-payload",
    );
    deb_artifact.package_name = Some(text("gmutils"));
    deb_artifact.package_version = Some(text("0.5.1-1"));
    deb_artifact.architecture = Some(text("amd64"));
    let deb_manifest = listed(PackageSystem::Deb, "gmutils", deb_artifact);
    let brew_manifest = listed(
        PackageSystem::Brew,
        "gmutils",
        built(
            "aarch64-apple-darwin",
            "aarch64-apple-darwin/release/brew/gmutils.tar.gz",
            "gmutils.tar.gz",
            b"brew-payload",
        ),
    );
    let readings =
        vec![stored(&deb_manifest, b"deb-payload"), stored(&brew_manifest, b"brew-payload")];

    let loaded = load_s3_publish_command_manifests("target", &contract, &command, &readings)
        .expect("publish manifests should load");

    assert_eq!(loaded, [deb_manifest, brew_manifest]);
}

#[test]
fn load_s3_publish_command_manifests_rejects_artifact_hash_mismatch() {
    let contract = gmutils();
    contract.validate().expect("contract should validate");
    let command = parse_s3_publish_command_request(
        &contract,
        &S3PublishCommandReading::Words { dry_run: false, systems: vec![PackageSystem::Brew] },
    )
    .expect("publish command should parse");
    let mut manifest = listed(
        PackageSystem::Brew,
        "gmutils",
        built(
            "aarch64-apple-darwin",
            "aarch64-apple-darwin/release/brew/gmutils.tar.gz",
            "gmutils.tar.gz",
            b"changed",
        ),
    );
    manifest.artifacts[0].sha256 = "0".repeat(64);

    let error = load_s3_publish_command_manifests(
        "target",
        &contract,
        &command,
        &vec![stored(&manifest, b"changed")],
    )
    .expect_err("publish manifest artifact mismatch should fail");

    assert_eq!(error.to_string(), "failed to verify brew package artifacts");
}

#[test]
fn publish_manifests_must_be_read_and_agree_with_the_contract() {
    let contract = gmutils();
    let command = s3_publish_command_request(&contract, false, vec![PackageSystem::Brew])
        .expect("publish command should parse");
    let error = load_s3_publish_command_manifests("target", &contract, &command, &Vec::new())
        .expect_err("an unread manifest should fail");
    assert_eq!(error.to_string(), "failed to load brew package manifest");

    let stranger = listed(
        PackageSystem::Brew,
        "stranger",
        built("aarch64-apple-darwin", "stranger.tar.gz", "stranger.tar.gz", b"bytes"),
    );
    let error = load_s3_publish_command_manifests(
        "target",
        &contract,
        &command,
        &vec![stored(&stranger, b"bytes")],
    )
    .expect_err("a package that the contract does not know should fail");
    assert!(matches!(error, LoadS3PublishCommandManifestsError::Contract { .. }));
    assert_eq!(
        error.to_string(),
        "failed to validate brew package manifest against release contract"
    );
}

fn package_reading(overwrite_manifest: bool) -> PackageCommandReading {
    PackageCommandReading::Words {
        overwrite_manifest,
        targets: ["brew", "--target", "aarch64-apple-darwin"]
            .iter()
            .map(|word| CommandToken::Text(text(word)))
            .collect(),
        readings: vec![SectionReading::Options(PackageSectionOptions {
            targets: vec![RequestedTarget::Triple(text("aarch64-apple-darwin"))],
            features: Vec::new(),
            siblings: Vec::new(),
            patches: Vec::new(),
            debug: false,
        })],
    }
}

#[test]
fn write_package_command_manifest_uses_command_overwrite_flag() {
    let contract = gateway();
    contract.validate().expect("contract should validate");
    let command = parse_package_command_request(&contract, &package_reading(true))
        .expect("package command should parse");
    let mut manifest = listed(
        PackageSystem::Brew,
        "pishoo",
        built(
            "aarch64-apple-darwin",
            "aarch64-apple-darwin/release/brew/pishoo-0.5.1-aarch64-apple-darwin.tar.gz",
            "pishoo-0.5.1-aarch64-apple-darwin.tar.gz",
            b"",
        ),
    );
    manifest.version = text("0.5.2");
    let path = plan_package_command_manifest_write("target", &manifest, &contract, &command, true)
        .expect("command overwrite should allow manifest write");
    assert_eq!(path, "target/common/brew/manifest.toml");
    let loaded =
        load_manifest("target", PackageSystem::Brew, ManifestReading::Parsed(manifest.clone()))
            .expect("manifest should load");
    assert_eq!(loaded.version, "0.5.2");

    let careful = parse_package_command_request(&contract, &package_reading(false))
        .expect("package command should parse");
    assert_eq!(
        plan_package_command_manifest_write("target", &manifest, &contract, &careful, true),
        Err(WritePackageCommandManifestError::Write {
            source: WriteManifestError::AlreadyExists {
                path: text("target/common/brew/manifest.toml"),
            },
        })
    );
}

#[test]
fn load_release_contract_reads_and_validates_file() {
    let contract = load_release_contract("release.toml", ContractReading::Parsed(gmutils()))
        .expect("contract should load");

    assert!(contract.package("gmutils").is_some());
}

#[test]
fn load_release_contract_rejects_invalid_contract_file() {
    let mut package = PackageContract::default();
    package.version = Some(text("1.2.3-1"));
    package.description = Some(text("Invalid"));
    package.license = Some(text("Apache-2.0"));
    package.homepage = Some(text("https://dhttp.net"));
    let invalid = contract(vec![("invalid", package)], s3());

    let error = load_release_contract("release.toml", ContractReading::Parsed(invalid))
        .expect_err("invalid contract should fail");

    assert!(error.to_string().contains("invalid release contract"));
    assert_eq!(
        load_release_contract("release.toml", ContractReading::Unread),
        Err(LoadReleaseContractError::Read { path: text("release.toml") })
    );
    assert_eq!(
        load_release_contract("release.toml", ContractReading::Unparsed),
        Err(LoadReleaseContractError::Parse { path: text("release.toml") })
    );
}

#[test]
fn command_lines_are_read_into_requests() {
    let contract = gmutils();
    let publish = XtaskCommandReading::Publish(S3PublishCommandReading::Words {
        dry_run: true,
        systems: vec![PackageSystem::Scoop],
    });
    let Ok(XtaskCommandRequest::Publish(PublishCommandRequest::S3(request))) =
        parse_xtask_command_request(&contract, &publish)
    else {
        panic!("publish command should parse");
    };
    assert!(request.dry_run);
    assert_eq!(request.systems, vec![PackageSystem::Scoop]);

    let package = XtaskCommandReading::Package(package_reading(true));
    let Ok(XtaskCommandRequest::Package(request)) = parse_xtask_command_request(&contract, &package)
    else {
        panic!("package command should parse");
    };
    assert!(request.overwrite_manifest);

    let show = XtaskCommandReading::Show { system: PackageSystem::Scoop, github_output: true };
    assert!(parse_xtask_command_request(&contract, &show).is_ok());
    assert_eq!(
        parse_xtask_command_request(&gateway(), &show)
            .expect_err("gateway does not publish with scoop")
            .to_string(),
        "failed to parse show command"
    );
    assert_eq!(
        parse_xtask_command_request(
            &contract,
            &XtaskCommandReading::Refused { reason: text("no such command") },
        ),
        Err(ParseXtaskCommandRequestError::Clap { reason: text("no such command") })
    );
}
