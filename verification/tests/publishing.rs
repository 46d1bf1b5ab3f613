use std::cmp::Ordering;
use std::convert::Infallible;

use genmeta_xtask_release::digest::sha256_hex;
use genmeta_xtask_release::manifest::{
    load_manifest, manifest_path, plan_manifest_write, validate_manifest,
    validate_manifest_targets, verify_manifest_artifacts, ArtifactReading, LoadManifestError,
    ManifestReading, PackageArtifact, PackageManifest, ValidateManifestError, WriteManifestError,
};
use genmeta_xtask_release::package::PackageId;
use genmeta_xtask_release::publish::{
    apply_mutable_entry_conditions, linux_package_payloads_from_manifest, linux_payload_key,
    linux_repository_upload_order, mutable_entry_names, mutable_entry_remote_keys,
    plan_automated_publish, plan_immutable_upload, plan_versioned_immutable_payload,
    publish_upload_order, publishable_deb_payloads_from_manifest_and_packages,
    publishable_deb_payloads_from_manifest_packages_and_remote_keys,
    publishable_linux_payloads_from_manifest_and_remote_keys, remote_deb_package_entries_from_keys,
    remote_deb_package_entries_from_packages, remote_deb_payload_version_from_key,
    remote_linux_payload_versions_from_keys, remote_rpm_payload_version_from_key,
    retained_remote_deb_package_entries, retained_remote_linux_package_payloads,
    select_publishable_linux_payloads, stanza_field, AutomatedPublishDecision,
    LinuxPackagePayload, LinuxPackageVersion, PublicBaseUrl, PublishUploadPlan,
    RemoteDebPackageEntry, RemotePayloadState, RemotePrefix, RemotePublishSurface,
    UploadCondition,
};
use genmeta_xtask_release::system::{PackageSystem, RequestedTarget};
use genmeta_xtask_release::textmap::TextMap;
use genmeta_xtask_release::version::SourceVersion;

fn text(value: &str) -> String {
    value.to_string()
}

fn texts(values: &[&str]) -> Vec<String> {
    values.iter().map(|value| value.to_string()).collect()
}

fn prefix(value: &str) -> RemotePrefix {
    RemotePrefix::parse(value).expect("prefix should parse")
}

fn id(value: &str) -> PackageId {
    PackageId::new(value).expect("package id should parse")
}

fn version(value: &str) -> SourceVersion {
    SourceVersion::parse(value).expect("version should parse")
}

fn linux_manifest(kind: PackageSystem, artifacts: Vec<PackageArtifact>) -> PackageManifest {
    PackageManifest {
        schema_version: 1,
        kind,
        package: text("sample"),
        version: text("1.2.3"),
        generated_at: text("2026-06-29T00:00:00Z"),
        git_commit: None,
        git_dirty: false,
        artifacts,
    }
}

fn linux_artifact(package: &str, version: &str, architecture: &str) -> PackageArtifact {
    PackageArtifact {
        target: text("x86_64-unknown-linux-gnu"),
        path: format!("{architecture}/release/{package}-{version}.pkg"),
        sha256: "0".repeat(64),
        size: 1,
        package_name: Some(text(package)),
        package_version: Some(text(version)),
        architecture: Some(text(architecture)),
        archive_name: Some(format!("{package}-{version}.{architecture}.pkg")),
        features: Vec::new(),
        profile: Some(text("release")),
    }
}

fn linux_payload(package: &str, version: &str, architecture: &str) -> LinuxPackagePayload {
    LinuxPackagePayload {
        package: text(package),
        version: text(version),
        architecture: text(architecture),
        archive_name: format!("{package}-{version}.{architecture}.pkg"),
        path: format!("{architecture}/release/{package}-{version}.pkg"),
    }
}

fn linux_version(package: &str, version: &str, architecture: &str) -> LinuxPackageVersion {
    LinuxPackageVersion {
        package: text(package),
        version: text(version),
        architecture: text(architecture),
    }
}

fn remote_deb_entry(package: &str, version: &str, architecture: &str) -> RemoteDebPackageEntry {
    RemoteDebPackageEntry {
        version: linux_version(package, version, architecture),
        filename: format!(
            "pool/main/{}/{package}/{package}_{version}_{architecture}.deb",
            &package[..1]
        ),
    }
}

fn compare_version_strings(left: &str, right: &str) -> Result<Ordering, Infallible> {
    Ok(left.cmp(right))
}

fn writable_manifest(version: &str) -> PackageManifest {
    PackageManifest {
        schema_version: 1,
        kind: PackageSystem::Brew,
        package: text("sample"),
        version: text(version),
        generated_at: text("2026-06-29T00:00:00Z"),
        git_commit: None,
        git_dirty: false,
        artifacts: vec![PackageArtifact {
            target: text("aarch64-apple-darwin"),
            path: text("aarch64-apple-darwin/release/brew/sample.tar.gz"),
            sha256: "0".repeat(64),
            size: 0,
            package_name: None,
            package_version: None,
            architecture: None,
            archive_name: Some(text("sample.tar.gz")),
            features: Vec::new(),
            profile: Some(text("release")),
        }],
    }
}

#[test]
fn manifest_path_uses_target_common_system_directory() {
    assert_eq!(manifest_path("target", PackageSystem::Deb), "target/common/deb/manifest.toml");
}

#[test]
fn validate_manifest_rejects_linux_artifact_without_package_version() {
    let mut manifest = linux_manifest(
        PackageSystem::Deb,
        vec![PackageArtifact {
            target: text("x86_64-unknown-linux-gnu"),
            path: text("x86_64-unknown-linux-gnu/release/deb/sample.deb"),
            sha256: "0".repeat(64),
            size: 7,
            package_name: Some(text("sample")),
            package_version: Some(text("1.2.3-1")),
            architecture: Some(text("amd64")),
            archive_name: Some(text("sample_1.2.3-1_amd64.deb")),
            features: Vec::new(),
            profile: Some(text("release")),
        }],
    );
    manifest.artifacts[0].package_version = None;

    let error = validate_manifest(&manifest).expect_err("missing package version should fail");

    assert_eq!(error.to_string(), "linux package artifact must include package version");
}

#[test]
fn validate_manifest_rejects_archive_artifact_without_archive_name() {
    let mut manifest = writable_manifest("1.2.3");
    manifest.artifacts[0].archive_name = None;

    let error = validate_manifest(&manifest).expect_err("missing archive name should fail");

    assert_eq!(error.to_string(), "package artifact must include archive name");
}

#[test]
fn validate_manifest_accepts_what_a_build_writes() {
    assert_eq!(validate_manifest(&writable_manifest("1.2.3")), Ok(()));
}

/// What stands at the path of the manifest: a write that is planned replaces it.
fn write(stored: &mut ManifestReading, manifest: &PackageManifest, overwrite: bool)
    -> Result<(), WriteManifestError>
{
    let exists = *stored != ManifestReading::Unread;
    let path = plan_manifest_write("target", manifest, exists, overwrite)?;
    assert_eq!(path, manifest_path("target", manifest.kind));
    *stored = ManifestReading::Parsed(manifest.clone());
    Ok(())
}

#[test]
fn load_manifest_reads_target_common_manifest_and_verifies_artifacts() {
    let manifest = linux_manifest(
        PackageSystem::Deb,
        vec![PackageArtifact {
            target: text("x86_64-unknown-linux-gnu"),
            path: text("x86_64-unknown-linux-gnu/release/deb/sample.deb"),
            sha256: sha256_hex(b"package-bytes"),
            size: 13,
            package_name: Some(text("sample")),
            package_version: Some(text("1.2.3-1")),
            architecture: Some(text("amd64")),
            archive_name: None,
            features: Vec::new(),
            profile: Some(text("release")),
        }],
    );
    let loaded =
        load_manifest("target", PackageSystem::Deb, ManifestReading::Parsed(manifest.clone()))
            .expect("manifest should load");
    let readings = vec![ArtifactReading::Read { size: 13, content: b"package-bytes".to_vec() }];
    verify_manifest_artifacts("target", &loaded, &readings).expect("artifacts should verify");
    assert_eq!(loaded, manifest);
}

#[test]
fn manifests_that_are_not_read_are_not_loaded() {
    let path = text("target/common/brew/manifest.toml");
    assert_eq!(
        load_manifest("target", PackageSystem::Brew, ManifestReading::Unread),
        Err(LoadManifestError::ReadManifest { path: path.clone() })
    );
    assert_eq!(
        load_manifest("target", PackageSystem::Brew, ManifestReading::Unparsed),
        Err(LoadManifestError::ParseManifest { path })
    );
    let mut manifest = writable_manifest("1.2.3");
    manifest.artifacts[0].archive_name = None;
    assert_eq!(
        load_manifest("target", PackageSystem::Brew, ManifestReading::Parsed(manifest)),
        Err(LoadManifestError::InvalidManifest {
            source: ValidateManifestError::MissingArchiveName,
        })
    );
}

#[test]
fn write_manifest_refuses_existing_manifest_without_overwrite() {
    let mut stored = ManifestReading::Unread;
    let mut manifest = writable_manifest("1.2.3");
    write(&mut stored, &manifest, false).expect("initial manifest should write");

    manifest.version = text("1.2.4");
    let error = write(&mut stored, &manifest, false)
        .expect_err("existing manifest should require overwrite");

    assert!(error.to_string().contains("package manifest already exists"));
    let loaded =
        load_manifest("target", PackageSystem::Brew, stored).expect("manifest should load");
    assert_eq!(loaded.version, "1.2.3");
}

#[test]
fn write_manifest_overwrites_existing_manifest_when_allowed() {
    let mut stored = ManifestReading::Unread;
    let mut manifest = writable_manifest("1.2.3");
    write(&mut stored, &manifest, false).expect("initial manifest should write");

    manifest.version = text("1.2.4");
    write(&mut stored, &manifest, true).expect("overwrite should write");

    let loaded =
        load_manifest("target", PackageSystem::Brew, stored).expect("manifest should load");
    assert_eq!(loaded.version, "1.2.4");
}

fn pishoo_manifest() -> PackageManifest {
    let mut manifest = writable_manifest("0.5.1");
    manifest.package = text("pishoo");
    manifest.artifacts[0].target = text("aarch64-apple-darwin");
    manifest.artifacts[0].path =
        text("aarch64-apple-darwin/release/brew/pishoo-0.5.1-aarch64-apple-darwin.tar.gz");
    manifest.artifacts[0].archive_name = Some(text("pishoo-0.5.1-aarch64-apple-darwin.tar.gz"));
    manifest
}

fn two_targets() -> Vec<RequestedTarget> {
    vec![
        RequestedTarget::Triple(text("aarch64-apple-darwin")),
        RequestedTarget::Triple(text("x86_64-apple-darwin")),
    ]
}

#[test]
fn validate_manifest_targets_rejects_missing_requested_brew_target() {
    let error = validate_manifest_targets(&pishoo_manifest(), &two_targets())
        .expect_err("missing x86_64 brew target should fail");

    assert_eq!(
        error.to_string(),
        "brew package manifest is missing requested target x86_64-apple-darwin"
    );
}

#[test]
fn validate_manifest_targets_rejects_unrequested_brew_target() {
    let mut manifest = pishoo_manifest();
    let mut x86_64 = manifest.artifacts[0].clone();
    x86_64.target = text("x86_64-apple-darwin");
    x86_64.path = text("x86_64-apple-darwin/release/brew/pishoo-0.5.1-x86_64-apple-darwin.tar.gz");
    x86_64.archive_name = Some(text("pishoo-0.5.1-x86_64-apple-darwin.tar.gz"));
    manifest.artifacts.push(x86_64);
    assert_eq!(validate_manifest_targets(&manifest, &two_targets()), Ok(()));

    let mut linux = manifest.artifacts[0].clone();
    linux.target = text("x86_64-unknown-linux-gnu");
    linux.path = text(
        "x86_64-unknown-linux-gnu/release/brew/pishoo-0.5.1-x86_64-unknown-linux-gnu.tar.gz",
    );
    linux.archive_name = Some(text("pishoo-0.5.1-x86_64-unknown-linux-gnu.tar.gz"));
    manifest.artifacts.push(linux);

    let error = validate_manifest_targets(&manifest, &two_targets())
        .expect_err("unrequested linux brew target should fail");

    assert_eq!(
        error.to_string(),
        "brew package manifest contains unrequested target x86_64-unknown-linux-gnu"
    );
}

#[test]
fn linux_payloads_are_extracted_from_package_manifest_artifacts() {
    let manifest = linux_manifest(
        PackageSystem::Deb,
        vec![PackageArtifact {
            target: text("x86_64-unknown-linux-gnu"),
            path: text("x86_64-unknown-linux-gnu/release/deb/sample.deb"),
            sha256: "0".repeat(64),
            size: 1,
            package_name: Some(text("sample")),
            package_version: Some(text("1.2.3-1")),
            architecture: Some(text("amd64")),
            archive_name: Some(text("sample_1.2.3-1_amd64.deb")),
            features: Vec::new(),
            profile: Some(text("release")),
        }],
    );

    let payloads =
        linux_package_payloads_from_manifest(&manifest).expect("linux payloads should resolve");

    assert_eq!(payloads.len(), 1);
    assert_eq!(payloads[0].package, "sample");
    assert_eq!(payloads[0].version, "1.2.3-1");
    assert_eq!(payloads[0].architecture, "amd64");
    assert_eq!(payloads[0].archive_name, "sample_1.2.3-1_amd64.deb");
    assert_eq!(payloads[0].path, "x86_64-unknown-linux-gnu/release/deb/sample.deb");
}

#[test]
fn linux_payloads_reject_non_linux_package_manifest() {
    let mut manifest = writable_manifest("1.2.3");
    manifest.kind = PackageSystem::Brew;

    let error = linux_package_payloads_from_manifest(&manifest)
        .expect_err("brew manifest should not produce linux payloads");

    assert_eq!(
        error.to_string(),
        "brew package manifest does not contain linux package payloads"
    );
}

#[test]
fn linux_payloads_require_package_version() {
    let mut manifest = linux_manifest(
        PackageSystem::Rpm,
        vec![PackageArtifact {
            target: text("x86_64-unknown-linux-gnu"),
            path: text("x86_64-unknown-linux-gnu/release/rpm/sample.rpm"),
            sha256: "0".repeat(64),
            size: 1,
            package_name: Some(text("sample")),
            package_version: Some(text("1.2.3-1")),
            architecture: Some(text("x86_64")),
            archive_name: Some(text("sample-1.2.3-1.x86_64.rpm")),
            features: Vec::new(),
            profile: Some(text("release")),
        }],
    );
    manifest.artifacts[0].package_version = None;

    let error = linux_package_payloads_from_manifest(&manifest)
        .expect_err("missing package version should fail");

    assert_eq!(error.to_string(), "linux package artifact is missing package version");
}

#[test]
fn linux_payload_key_uses_deb_pool_layout() {
    let payload = LinuxPackagePayload {
        package: text("sample"),
        version: text("1.2.3-1"),
        architecture: text("amd64"),
        archive_name: text("sample_1.2.3-1_amd64.deb"),
        path: text("x86_64-unknown-linux-gnu/release/deb/sample.deb"),
    };

    let key = linux_payload_key(&prefix("apt/sample"), PackageSystem::Deb, &payload)
        .expect("deb payload key should resolve");

    assert_eq!(key, "apt/sample/pool/main/s/sample/sample_1.2.3-1_amd64.deb");
}

#[test]
fn linux_payload_key_uses_rpm_package_version_layout() {
    let payload = LinuxPackagePayload {
        package: text("sample"),
        version: text("1.2.3-1"),
        architecture: text("x86_64"),
        archive_name: text("sample-1.2.3-1.x86_64.rpm"),
        path: text("x86_64-unknown-linux-gnu/release/rpm/sample.rpm"),
    };

    let key = linux_payload_key(&prefix("rpm/sample"), PackageSystem::Rpm, &payload)
        .expect("rpm payload key should resolve");

    assert_eq!(key, "rpm/sample/sample/1.2.3-1/sample-1.2.3-1.x86_64.rpm");
}

#[test]
fn linux_payload_key_is_refused_outside_linux() {
    let payload = linux_payload("sample", "1.2.3-1", "amd64");
    assert!(linux_payload_key(&prefix("brew"), PackageSystem::Brew, &payload).is_err());
}

#[test]
fn remote_deb_payload_version_from_key_uses_pool_layout() {
    let version = remote_deb_payload_version_from_key(
        &prefix("apt/sample"),
        "apt/sample/pool/main/s/sample/sample_1.2.3-1_amd64.deb",
    )
    .expect("remote deb payload version should parse");

    assert_eq!(version.package, "sample");
    assert_eq!(version.version, "1.2.3-1");
    assert_eq!(version.architecture, "amd64");
}

#[test]
fn remote_deb_payload_version_from_key_rejects_unexpected_layout() {
    let error =
        remote_deb_payload_version_from_key(&prefix("apt/sample"), "apt/sample/sample.deb")
            .expect_err("short deb key should fail");

    assert_eq!(
        error.to_string(),
        "remote deb payload key apt/sample/sample.deb has unexpected layout"
    );
}

#[test]
fn remote_deb_payload_version_from_key_requires_deb_filename() {
    let error = remote_deb_payload_version_from_key(
        &prefix("apt/sample"),
        "apt/sample/pool/main/s/sample/sample_1.2.3-1_amd64.zip",
    )
    .expect_err("non-deb key should fail");

    assert_eq!(
        error.to_string(),
        "remote deb payload key apt/sample/pool/main/s/sample/sample_1.2.3-1_amd64.zip is missing deb filename"
    );
}

#[test]
fn remote_rpm_payload_version_from_key_uses_package_version_layout() {
    let version = remote_rpm_payload_version_from_key(
        &prefix("rpm/sample"),
        "rpm/sample/sample/1.2.3-1/sample-1.2.3-1.x86_64.rpm",
    )
    .expect("remote rpm payload version should parse");

    assert_eq!(version.package, "sample");
    assert_eq!(version.version, "1.2.3-1");
    assert_eq!(version.architecture, "x86_64");
}

#[test]
fn remote_rpm_payload_version_from_key_rejects_unexpected_layout() {
    let error =
        remote_rpm_payload_version_from_key(&prefix("rpm/sample"), "rpm/sample/sample.rpm")
            .expect_err("short rpm key should fail");

    assert_eq!(
        error.to_string(),
        "remote rpm payload key rpm/sample/sample.rpm has unexpected layout"
    );
}

#[test]
fn remote_rpm_payload_version_from_key_requires_rpm_extension() {
    let error = remote_rpm_payload_version_from_key(
        &prefix("rpm/sample"),
        "rpm/sample/sample/1.2.3-1/sample-1.2.3-1.x86_64.zip",
    )
    .expect_err("non-rpm key should fail");

    assert_eq!(
        error.to_string(),
        "remote rpm payload key rpm/sample/sample/1.2.3-1/sample-1.2.3-1.x86_64.zip is missing rpm filename"
    );
}

#[test]
fn payload_keys_read_back_what_they_were_made_of() {
    let deb = LinuxPackagePayload {
        package: text("sample-tool"),
        version: text("2.0.0~rc.1-3"),
        architecture: text("arm64"),
        archive_name: text("sample-tool_2.0.0~rc.1-3_arm64.deb"),
        path: text("sample-tool.deb"),
    };
    let apt = prefix("ppa/genmeta");
    let key = linux_payload_key(&apt, PackageSystem::Deb, &deb).expect("key should resolve");
    assert_eq!(
        remote_deb_payload_version_from_key(&apt, &key).expect("key should read back"),
        linux_version("sample-tool", "2.0.0~rc.1-3", "arm64")
    );

    let rpm = LinuxPackagePayload {
        package: text("sample-tool"),
        version: text("2.0.0-3"),
        architecture: text("aarch64"),
        archive_name: text("sample-tool-2.0.0-3.aarch64.rpm"),
        path: text("sample-tool.rpm"),
    };
    let dnf = prefix("rpm/preview");
    let key = linux_payload_key(&dnf, PackageSystem::Rpm, &rpm).expect("key should resolve");
    assert_eq!(
        remote_rpm_payload_version_from_key(&dnf, &key).expect("key should read back"),
        linux_version("sample-tool", "2.0.0-3", "aarch64")
    );
}

#[test]
fn remote_linux_payload_versions_from_keys_dispatches_deb_parser() {
    let versions = remote_linux_payload_versions_from_keys(
        PackageSystem::Deb,
        &prefix("apt/sample"),
        &texts(&[
            "apt/sample/pool/main/s/sample/sample_1.2.3-1_amd64.deb",
            "apt/sample/pool/main/s/sample/sample_1.2.2-1_arm64.deb",
        ]),
    )
    .expect("remote deb payload versions should parse");

    assert_eq!(versions.len(), 2);
    assert_eq!(versions[0].package, "sample");
    assert_eq!(versions[0].version, "1.2.3-1");
    assert_eq!(versions[0].architecture, "amd64");
    assert_eq!(versions[1].package, "sample");
    assert_eq!(versions[1].version, "1.2.2-1");
    assert_eq!(versions[1].architecture, "arm64");
}

#[test]
fn remote_linux_payload_versions_from_keys_dispatches_rpm_parser() {
    let versions = remote_linux_payload_versions_from_keys(
        PackageSystem::Rpm,
        &prefix("rpm/sample"),
        &texts(&[
            "rpm/sample/sample/1.2.3-1/sample-1.2.3-1.x86_64.rpm",
            "rpm/sample/sample/1.2.2-1/sample-1.2.2-1.aarch64.rpm",
        ]),
    )
    .expect("remote rpm payload versions should parse");

    assert_eq!(versions.len(), 2);
    assert_eq!(versions[0].package, "sample");
    assert_eq!(versions[0].version, "1.2.3-1");
    assert_eq!(versions[0].architecture, "x86_64");
    assert_eq!(versions[1].package, "sample");
    assert_eq!(versions[1].version, "1.2.2-1");
    assert_eq!(versions[1].architecture, "aarch64");
}

#[test]
fn remote_linux_payload_versions_from_keys_rejects_non_linux_system() {
    let error = remote_linux_payload_versions_from_keys(
        PackageSystem::Brew,
        &prefix("brew"),
        &texts(&["brew/sample.rb"]),
    )
    .expect_err("brew should not parse as linux payload versions");

    assert_eq!(
        error.to_string(),
        "brew package systems do not define linux payload versions"
    );
}

#[test]
fn linux_repository_upload_order_sorts_deb_payload_before_metadata_and_inrelease_last() {
    let mut keys = vec![
        "apt/sample/dists/sample/InRelease",
        "apt/sample/pool/main/s/sample/sample_1.2.3-1_amd64.deb",
        "apt/sample/dists/sample/main/binary-amd64/Packages.gz",
        "apt/sample/dists/sample/Release.gpg",
        "apt/sample/dists/sample/Release",
    ];

    keys.sort_by_key(|key| {
        (
            linux_repository_upload_order(PackageSystem::Deb, key)
                .expect("deb order should resolve"),
            *key,
        )
    });

    assert_eq!(
        keys,
        vec![
            "apt/sample/pool/main/s/sample/sample_1.2.3-1_amd64.deb",
            "apt/sample/dists/sample/main/binary-amd64/Packages.gz",
            "apt/sample/dists/sample/Release",
            "apt/sample/dists/sample/Release.gpg",
            "apt/sample/dists/sample/InRelease",
        ]
    );
}

#[test]
fn linux_repository_upload_order_sorts_rpm_payload_before_metadata_and_repomd_last() {
    let mut keys = vec![
        "rpm/sample/repodata/repomd.xml",
        "rpm/sample/sample/1.2.3-1/sample-1.2.3-1.x86_64.rpm",
        "rpm/sample/repodata/primary.xml.gz",
    ];

    keys.sort_by_key(|key| {
        (
            linux_repository_upload_order(PackageSystem::Rpm, key)
                .expect("rpm order should resolve"),
            *key,
        )
    });

    assert_eq!(
        keys,
        vec![
            "rpm/sample/sample/1.2.3-1/sample-1.2.3-1.x86_64.rpm",
            "rpm/sample/repodata/primary.xml.gz",
            "rpm/sample/repodata/repomd.xml",
        ]
    );
}

#[test]
fn linux_repository_upload_order_rejects_non_linux_system() {
    let error = linux_repository_upload_order(PackageSystem::Brew, "x")
        .expect_err("brew should not have linux repository upload order");

    assert_eq!(
        error.to_string(),
        "brew repositories do not define linux metadata upload order"
    );
}

#[test]
fn linux_publish_selection_skips_equal_and_older_package_arch_versions() {
    let local = vec![
        linux_payload("sample", "1.2.3-1", "amd64"),
        linux_payload("sample", "1.2.2-1", "arm64"),
    ];
    let remote = vec![
        linux_version("sample", "1.2.3-1", "amd64"),
        linux_version("sample", "1.2.3-1", "arm64"),
    ];

    let selected = select_publishable_linux_payloads(local, &remote, compare_version_strings)
        .expect("publish selection should resolve");

    assert!(selected.is_empty());
}

#[test]
fn linux_publish_selection_compares_against_latest_remote_per_package_arch() {
    let local = vec![
        linux_payload("sample", "1.2.4-1", "amd64"),
        linux_payload("sample", "1.2.2-1", "arm64"),
        linux_payload("sample-common", "1.2.3-1", "all"),
    ];
    let remote = vec![
        linux_version("sample", "1.2.1-1", "amd64"),
        linux_version("sample", "1.2.3-1", "amd64"),
        linux_version("sample", "1.2.3-1", "arm64"),
    ];

    let selected = select_publishable_linux_payloads(local, &remote, compare_version_strings)
        .expect("publish selection should resolve");

    assert_eq!(
        selected,
        vec![
            linux_payload("sample", "1.2.4-1", "amd64"),
            linux_payload("sample-common", "1.2.3-1", "all"),
        ]
    );
}

#[test]
fn linux_publish_selection_hands_on_what_a_comparison_refuses() {
    let refused = select_publishable_linux_payloads(
        vec![linux_payload("sample", "1.2.4-1", "amd64")],
        &[linux_version("sample", "1.2.3-1", "amd64")],
        |_left: &str, right: &str| -> Result<Ordering, String> { Err(format!("not {right}")) },
    );
    assert!(refused.is_err());
    let unasked = select_publishable_linux_payloads(
        vec![linux_payload("sample", "1.2.4-1", "amd64")],
        &[linux_version("sample", "1.2.3-1", "arm64")],
        |_left: &str, right: &str| -> Result<Ordering, String> { Err(format!("not {right}")) },
    );
    assert_eq!(unasked, Ok(vec![linux_payload("sample", "1.2.4-1", "amd64")]));
}

fn three_artifacts() -> PackageManifest {
    linux_manifest(
        PackageSystem::Deb,
        vec![
            linux_artifact("sample", "1.2.4-1", "amd64"),
            linux_artifact("sample", "1.2.2-1", "arm64"),
            linux_artifact("sample-common", "1.2.3-1", "all"),
        ],
    )
}

#[test]
fn publishable_linux_payloads_from_manifest_and_remote_keys_selects_candidates_once() {
    let selected = publishable_linux_payloads_from_manifest_and_remote_keys(
        &three_artifacts(),
        &prefix("apt/sample"),
        &texts(&[
            "apt/sample/pool/main/s/sample/sample_1.2.1-1_amd64.deb",
            "apt/sample/pool/main/s/sample/sample_1.2.3-1_amd64.deb",
            "apt/sample/pool/main/s/sample/sample_1.2.3-1_arm64.deb",
        ]),
        compare_version_strings,
    )
    .expect("publishable payloads should resolve");

    assert_eq!(
        selected,
        vec![
            linux_payload("sample", "1.2.4-1", "amd64"),
            linux_payload("sample-common", "1.2.3-1", "all"),
        ]
    );
}

#[test]
fn publishable_linux_payloads_from_manifest_and_remote_keys_rejects_non_linux_manifest() {
    let manifest = linux_manifest(PackageSystem::Brew, Vec::new());

    let error = publishable_linux_payloads_from_manifest_and_remote_keys(
        &manifest,
        &prefix("brew"),
        &texts(&["brew/sample.rb"]),
        compare_version_strings,
    )
    .expect_err("brew manifest should fail");

    assert_eq!(error.to_string(), "failed to read linux package payloads from manifest");
}

#[test]
fn remote_deb_package_entries_from_packages_parse_required_stanza_fields() {
    let entries = remote_deb_package_entries_from_packages(
        r#"
Package: sample
Version: 1.2.3-1
Architecture: amd64
Filename: pool/main/s/sample/sample_1.2.3-1_amd64.deb
Description: ignored

Package: sample-common
Version: 1.2.3-1
Architecture: all
Filename: pool/main/s/sample-common/sample-common_1.2.3-1_all.deb
"#,
    )
    .expect("remote package entries should parse");

    assert_eq!(entries.len(), 2);
    assert_eq!(entries[0].version.package, "sample");
    assert_eq!(entries[0].version.version, "1.2.3-1");
    assert_eq!(entries[0].version.architecture, "amd64");
    assert_eq!(entries[0].filename, "pool/main/s/sample/sample_1.2.3-1_amd64.deb");
    assert_eq!(entries[1].version.package, "sample-common");
    assert_eq!(entries[1].version.architecture, "all");
}

#[test]
fn remote_deb_package_entries_from_packages_skip_empty_stanzas() {
    let entries = remote_deb_package_entries_from_packages(
        "\n\nPackage: sample\nVersion: 1.2.3-1\nArchitecture: amd64\nFilename: pool/main/s/sample/sample_1.2.3-1_amd64.deb\n\n\n",
    )
    .expect("remote package entries should parse");

    assert_eq!(entries.len(), 1);
    assert_eq!(entries[0].version.package, "sample");
}

#[test]
fn remote_deb_package_entries_from_packages_requires_filename() {
    let error = remote_deb_package_entries_from_packages(
        "Package: sample\nVersion: 1.2.3-1\nArchitecture: amd64\n",
    )
    .expect_err("missing filename should fail");

    assert_eq!(error.to_string(), "remote deb package stanza is missing Filename");
}

#[test]
fn stanza_fields_are_read_by_name() {
    let stanza = "Package: sample\nVersion:  1.2.3-1  \n";
    assert_eq!(stanza_field(stanza, "Version"), Some(text("1.2.3-1")));
    assert_eq!(stanza_field(stanza, "Pack"), None);
}

#[test]
fn publishable_deb_payloads_from_manifest_and_packages_selects_candidates_once() {
    let selected = publishable_deb_payloads_from_manifest_and_packages(
        &three_artifacts(),
        &texts(&[
            "Package: sample\nVersion: 1.2.1-1\nArchitecture: amd64\nFilename: pool/main/s/sample/sample_1.2.1-1_amd64.deb\n\nPackage: sample\nVersion: 1.2.3-1\nArchitecture: amd64\nFilename: pool/main/s/sample/sample_1.2.3-1_amd64.deb\n",
            "Package: sample\nVersion: 1.2.3-1\nArchitecture: arm64\nFilename: pool/main/s/sample/sample_1.2.3-1_arm64.deb\n",
        ]),
        compare_version_strings,
    )
    .expect("publishable deb payloads should resolve");

    assert_eq!(
        selected,
        vec![
            linux_payload("sample", "1.2.4-1", "amd64"),
            linux_payload("sample-common", "1.2.3-1", "all"),
        ]
    );
}

#[test]
fn publishable_deb_payloads_take_index_and_pool_together() {
    let selected = publishable_deb_payloads_from_manifest_packages_and_remote_keys(
        &three_artifacts(),
        &texts(&[
            "Package: sample\nVersion: 1.2.3-1\nArchitecture: arm64\nFilename: pool/main/s/sample/sample_1.2.3-1_arm64.deb\n",
        ]),
        &prefix("apt/sample"),
        &texts(&["apt/sample/pool/main/s/sample/sample_1.2.4-1_amd64.deb"]),
        compare_version_strings,
    )
    .expect("publishable deb payloads should resolve");

    assert_eq!(selected, vec![linux_payload("sample-common", "1.2.3-1", "all")]);
}

#[test]
fn what_was_published_is_not_selected_again() {
    let payloads = vec![
        linux_payload("sample", "1.2.3-1", "amd64"),
        linux_payload("sample", "1.2.4-1", "amd64"),
    ];
    let mut published = vec![linux_version("sample", "1.2.2-1", "amd64")];
    let selected =
        select_publishable_linux_payloads(payloads.clone(), &published, compare_version_strings)
            .expect("versions compare");
    assert_eq!(selected, payloads);
    for payload in &selected {
        published.push(linux_version(
            payload.package.as_str(),
            payload.version.as_str(),
            payload.architecture.as_str(),
        ));
    }
    assert_eq!(
        select_publishable_linux_payloads(payloads, &published, compare_version_strings),
        Ok(Vec::new())
    );
}

#[test]
fn everything_is_publishable_where_nothing_is_published() {
    let refuse =
        |_left: &str, right: &str| -> Result<Ordering, String> { Err(format!("not {right}")) };
    let all = vec![
        linux_payload("sample", "1.2.4-1", "amd64"),
        linux_payload("sample", "1.2.2-1", "arm64"),
        linux_payload("sample-common", "1.2.3-1", "all"),
    ];

    assert_eq!(select_publishable_linux_payloads(all.clone(), &[], refuse), Ok(all.clone()));
    assert_eq!(
        publishable_linux_payloads_from_manifest_and_remote_keys(
            &three_artifacts(),
            &prefix("apt/sample"),
            &texts(&[]),
            refuse,
        )
        .expect("no version is compared"),
        all
    );
    assert_eq!(
        publishable_deb_payloads_from_manifest_and_packages(&three_artifacts(), &texts(&[]), refuse)
            .expect("no version is compared"),
        all
    );
    assert_eq!(
        publishable_deb_payloads_from_manifest_packages_and_remote_keys(
            &three_artifacts(),
            &texts(&[]),
            &prefix("apt/sample"),
            &texts(&[]),
            refuse,
        )
        .expect("no version is compared"),
        all
    );
}

#[test]
fn publishable_deb_payloads_from_manifest_and_packages_rejects_rpm_manifest() {
    let manifest = linux_manifest(
        PackageSystem::Rpm,
        vec![linux_artifact("sample", "1.2.3-1", "x86_64")],
    );

    let error = publishable_deb_payloads_from_manifest_and_packages(
        &manifest,
        &texts(&[
            "Package: sample\nVersion: 1.2.3-1\nArchitecture: x86_64\nFilename: sample.rpm\n",
        ]),
        compare_version_strings,
    )
    .expect_err("rpm manifest should fail");

    assert_eq!(error.to_string(), "rpm package manifest is not a deb package manifest");
}

#[test]
fn remote_deb_package_entries_from_keys_keep_the_place_in_the_pool() {
    let entries = remote_deb_package_entries_from_keys(
        &prefix("apt/sample"),
        &texts(&["apt/sample/pool/main/s/sample/sample_1.2.3-1_amd64.deb"]),
    )
    .expect("keys should read");
    assert_eq!(entries, vec![remote_deb_entry("sample", "1.2.3-1", "amd64")]);
}

#[test]
fn retained_remote_linux_package_payloads_exclude_local_manifest_versions() {
    let manifest = linux_manifest(
        PackageSystem::Rpm,
        vec![
            linux_artifact("sample", "1.2.4-1", "x86_64"),
            linux_artifact("sample", "1.2.4-1", "aarch64"),
        ],
    );
    let remote_payloads = vec![
        linux_payload("sample", "1.2.3-1", "x86_64"),
        linux_payload("sample", "1.2.4-1", "x86_64"),
        linux_payload("sample", "1.2.4-1", "aarch64"),
        linux_payload("sample-common", "1.2.4-1", "noarch"),
    ];

    let retained = retained_remote_linux_package_payloads(&manifest, remote_payloads)
        .expect("retained remote linux payloads should resolve");

    assert_eq!(
        retained,
        vec![
            linux_payload("sample", "1.2.3-1", "x86_64"),
            linux_payload("sample-common", "1.2.4-1", "noarch"),
        ]
    );
}

#[test]
fn retained_remote_deb_package_entries_exclude_local_manifest_versions() {
    let manifest = linux_manifest(
        PackageSystem::Deb,
        vec![
            linux_artifact("sample", "1.2.4-1", "amd64"),
            linux_artifact("sample", "1.2.4-1", "arm64"),
        ],
    );
    let remote_entries = vec![
        remote_deb_entry("sample", "1.2.3-1", "amd64"),
        remote_deb_entry("sample", "1.2.4-1", "amd64"),
        remote_deb_entry("sample", "1.2.4-1", "arm64"),
        remote_deb_entry("sample-common", "1.2.4-1", "all"),
    ];

    let retained = retained_remote_deb_package_entries(&manifest, remote_entries)
        .expect("retained remote package entries should resolve");

    assert_eq!(
        retained,
        vec![
            remote_deb_entry("sample", "1.2.3-1", "amd64"),
            remote_deb_entry("sample-common", "1.2.4-1", "all"),
        ]
    );
}

#[test]
fn automated_publish_requires_manual_gate_when_remote_surface_is_missing() {
    let decision =
        plan_automated_publish(RemotePublishSurface::Missing, vec![text("candidate-payload")]);

    assert_eq!(decision, AutomatedPublishDecision::ManualInitialPublicationRequired);
}

#[test]
fn automated_publish_keeps_candidates_when_remote_surface_exists() {
    let decision =
        plan_automated_publish(RemotePublishSurface::Present, vec![text("candidate-payload")]);

    assert_eq!(
        decision,
        AutomatedPublishDecision::Publish { payloads: vec![text("candidate-payload")] }
    );
}

#[test]
fn immutable_missing_remote_uploads_only_when_absent() {
    let condition = plan_immutable_upload("system/file.tar.gz", "abc", RemotePayloadState::Missing)
        .expect("missing remote should be publishable");

    assert_eq!(condition, Some(UploadCondition::IfMissing));
}

#[test]
fn immutable_same_hash_remote_is_skipped() {
    let condition = plan_immutable_upload(
        "system/file.tar.gz",
        "abc",
        RemotePayloadState::Present { sha256: text("abc") },
    )
    .expect("same hash should be accepted");

    assert_eq!(condition, None);
}

#[test]
fn immutable_different_hash_remote_fails() {
    let error = plan_immutable_upload(
        "system/file.tar.gz",
        "abc",
        RemotePayloadState::Present { sha256: text("def") },
    )
    .expect_err("different hash should fail");

    assert_eq!(
        error.to_string(),
        "remote immutable payload system/file.tar.gz already exists with different sha256 def"
    );
}

#[test]
fn versioned_payload_reuses_remote_sha_for_existing_version() {
    let plan = plan_versioned_immutable_payload(
        "system/file.tar.gz",
        "local-sha",
        RemotePayloadState::Present { sha256: text("published-sha") },
    );

    assert_eq!(plan.metadata_sha256(), "published-sha");
    assert_eq!(plan.upload_condition(), None);
    assert!(plan.reuses_remote_payload());
    assert!(!plan.remote_sha256_matches_local());
}

#[test]
fn versioned_payload_of_a_new_version_is_uploaded() {
    let plan = plan_versioned_immutable_payload(
        "system/file.tar.gz",
        "local-sha",
        RemotePayloadState::Missing,
    );

    assert_eq!(plan.metadata_sha256(), "local-sha");
    assert_eq!(plan.upload_condition(), Some(UploadCondition::IfMissing));
    assert!(!plan.reuses_remote_payload());
}

#[test]
fn brew_mutable_entry_names_use_package_id_and_source_version() {
    let names = mutable_entry_names(&id("sample-tool"), PackageSystem::Brew, &version("1.2.3"))
        .expect("brew names should resolve");

    assert_eq!(names.latest, "sample-tool.rb");
    assert_eq!(names.versioned, "sample-tool-1.2.3.rb");
}

#[test]
fn scoop_mutable_entry_names_use_package_id_and_source_version() {
    let names = mutable_entry_names(&id("sample-tool"), PackageSystem::Scoop, &version("1.2.3"))
        .expect("scoop names should resolve");

    assert_eq!(names.latest, "sample-tool.json");
    assert_eq!(names.versioned, "sample-tool-1.2.3.json");
}

#[test]
fn brew_mutable_entry_remote_keys_use_prefix_package_id_and_source_version() {
    let keys = mutable_entry_remote_keys(
        &prefix("brew"),
        &id("sample-tool"),
        PackageSystem::Brew,
        &version("1.2.3"),
    )
    .expect("brew entry keys should resolve");

    assert_eq!(keys.latest, "brew/sample-tool.rb");
    assert_eq!(keys.versioned, "brew/sample-tool-1.2.3.rb");
}

#[test]
fn scoop_mutable_entry_remote_keys_use_prefix_package_id_and_source_version() {
    let keys = mutable_entry_remote_keys(
        &prefix("scoop"),
        &id("sample-tool"),
        PackageSystem::Scoop,
        &version("1.2.3"),
    )
    .expect("scoop entry keys should resolve");

    assert_eq!(keys.latest, "scoop/sample-tool.json");
    assert_eq!(keys.versioned, "scoop/sample-tool-1.2.3.json");
}

#[test]
fn mutable_entry_remote_keys_reject_linux_package_systems() {
    let error = mutable_entry_remote_keys(
        &prefix("apt"),
        &id("sample-tool"),
        PackageSystem::Deb,
        &version("1.2.3"),
    )
    .expect_err("deb entry keys should fail");

    assert_eq!(error.to_string(), "failed to resolve mutable entry names");
}

#[test]
fn linux_package_systems_do_not_have_package_entry_names() {
    let error = mutable_entry_names(&id("sample-tool"), PackageSystem::Deb, &version("1.2.3"))
        .expect_err("deb should not have package entry names");

    assert_eq!(error.to_string(), "deb does not define per-package mutable entry files");
}

#[derive(Debug, Clone, PartialEq, Eq)]
struct Upload {
    key: &'static str,
    entry: bool,
}

#[test]
fn publish_upload_order_places_payloads_before_mutable_entries() {
    let mut uploads = vec![
        Upload { key: "brew/sample-tool.rb", entry: true },
        Upload { key: "brew/sample-tool-1.2.3-aarch64.tar.gz", entry: false },
        Upload { key: "brew/sample-tool-1.2.3.rb", entry: true },
        Upload { key: "brew/sample-tool-1.2.3-x86_64.tar.gz", entry: false },
    ];

    uploads.sort_by_key(|upload| (publish_upload_order(upload.entry), upload.key));

    assert_eq!(
        uploads.into_iter().map(|upload| upload.key).collect::<Vec<_>>(),
        vec![
            "brew/sample-tool-1.2.3-aarch64.tar.gz",
            "brew/sample-tool-1.2.3-x86_64.tar.gz",
            "brew/sample-tool-1.2.3.rb",
            "brew/sample-tool.rb",
        ]
    );
}

#[test]
fn apply_mutable_entry_conditions_updates_only_entry_uploads() {
    let uploads = vec![
        PublishUploadPlan {
            key: text("apt/sample/pool/main/s/sample/sample_1.2.3-1_amd64.deb"),
            entry: false,
            condition: Some(UploadCondition::IfMissing),
        },
        PublishUploadPlan {
            key: text("apt/sample/dists/sample/InRelease"),
            entry: true,
            condition: None,
        },
    ];
    let mut conditions = TextMap::new();
    conditions.insert(
        text("apt/sample/dists/sample/InRelease"),
        UploadCondition::IfMatch(text("etag")),
    );

    let planned = apply_mutable_entry_conditions(uploads, &conditions)
        .expect("entry conditions should apply");

    assert_eq!(planned[0].condition, Some(UploadCondition::IfMissing));
    assert_eq!(planned[1].condition, Some(UploadCondition::IfMatch(text("etag"))));
}

#[test]
fn apply_mutable_entry_conditions_rejects_missing_entry_baseline() {
    let uploads = vec![PublishUploadPlan {
        key: text("apt/sample/dists/sample/InRelease"),
        entry: true,
        condition: None,
    }];

    let error = apply_mutable_entry_conditions(uploads, &TextMap::new())
        .expect_err("missing entry condition should fail");

    assert_eq!(
        error.to_string(),
        "mutable entry upload apt/sample/dists/sample/InRelease is missing remote baseline condition"
    );
}

#[test]
fn remote_prefix_trims_slashes_and_joins_keys() {
    let prefix = RemotePrefix::parse("/homebrew/").expect("prefix should parse");

    assert_eq!(prefix.as_str(), "homebrew");
    assert_eq!(prefix.join("sample.rb"), "homebrew/sample.rb");
}

#[test]
fn public_base_url_trims_trailing_slashes_and_joins_paths() {
    let base = PublicBaseUrl::parse("https://download.example/homebrew///")
        .expect("public base url should parse");

    assert_eq!(base.as_str(), "https://download.example/homebrew");
    assert_eq!(
        base.join("sample.tar.gz"),
        "https://download.example/homebrew/sample.tar.gz"
    );
}

#[test]
fn prefixes_and_base_urls_hold_something() {
    assert!(RemotePrefix::parse("///").is_err());
    assert!(RemotePrefix::parse("").is_err());
    assert!(PublicBaseUrl::parse("/").is_err());
    let again = RemotePrefix::parse(prefix("//ppa/genmeta/").as_str());
    assert_eq!(again, Ok(prefix("ppa/genmeta")));
}
