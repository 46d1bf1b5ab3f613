use std::cmp::Ordering;

use genmeta_xtask_release::digest::{sha256_hex, short_hash};
use genmeta_xtask_release::manifest::{
    artifact_path, verify_artifact, verify_manifest_artifacts, ArtifactReading, PackageArtifact,
    PackageManifest, VerifyManifestArtifactError,
};
use genmeta_xtask_release::package::{PackageId, PackageVersion};
use genmeta_xtask_release::path::{
    below, component_names, extension, file_name, has_parent_component, is_absolute, join_path,
    parent,
};
use genmeta_xtask_release::plan::PlannedEnvMount;
use genmeta_xtask_release::publish::{
    LinuxPackagePayload, LinuxPackageVersion, RemoteDebPackageEntry, RemotePayloadState,
    RemotePrefix, UploadCondition,
};
use genmeta_xtask_release::report::{S3PublishReport, S3PublishReportManifest};
use genmeta_xtask_release::runner::{
    cargo_cache_directories, container_cargo_home, deb_metadata, docker_build_command,
    docker_image, docker_run_command, host_cargo_home, is_artifact, package_unit_mounts,
    rpm_metadata, rpm_metadata_command, single_artifact,
};
use genmeta_xtask_release::s3::{
    apply_entry_conditions, check_archive_sha256, classify_missing_object, compare_deb_versions,
    compare_rpm_versions, deb_entry_metadata_relative_paths, deb_metadata_command,
    deb_metadata_script, deb_packages_keys, deb_repository_copies, deb_repository_downloads,
    is_precondition_failed_code, normalize_fingerprint, order_publish_uploads,
    order_repository_uploads, plan_deb_repository, plan_repository_upload, plan_rpm_repository,
    plan_versioned_archive, pool_path, remote_rpm_payload_to_linux_payload,
    remote_upload_condition, repository_uploads, rpm_repository_command, rpm_repository_copies,
    rpm_repository_downloads, shell_quote, versioned_archive_key, PlannedUpload, S3PublishError,
};
use genmeta_xtask_release::system::PackageSystem;
use genmeta_xtask_release::textmap::TextMap;
use genmeta_xtask_release::version::SourceVersion;

fn text(value: &str) -> String {
    value.to_string()
}

fn texts(values: &[&str]) -> Vec<String> {
    values.iter().map(|value| value.to_string()).collect()
}

fn prefix(value: &str) -> RemotePrefix {
    RemotePrefix::parse(value).expect("prefix should parse")
}

fn artifact(package: &str, version: &str, architecture: &str, name: &str) -> PackageArtifact {
    PackageArtifact {
        target: text("x86_64-unknown-linux-gnu"),
        path: format!("x86_64-unknown-linux-gnu/release/{name}"),
        sha256: "0".repeat(64),
        size: 1,
        package_name: Some(text(package)),
        package_version: Some(text(version)),
        architecture: Some(text(architecture)),
        archive_name: Some(text(name)),
        features: Vec::new(),
        profile: Some(text("release")),
    }
}

fn manifest(kind: PackageSystem, artifacts: Vec<PackageArtifact>) -> PackageManifest {
    PackageManifest {
        schema_version: 1,
        kind,
        package: text("sample"),
        version: text("1.2.3"),
        generated_at: text("2026-06-29T00:00:00Z"),
        git_commit: None,
        git_dirty: false,
        artifacts,
    }
}

fn upload(key: &str, entry: bool) -> PlannedUpload {
    PlannedUpload { path: format!("/repo/{key}"), key: text(key), entry, condition: None }
}

fn keys(uploads: &Vec<PlannedUpload>) -> Vec<&str> {
    uploads.iter().map(|upload| upload.key.as_str()).collect()
}

#[test]
fn not_found_without_message_is_missing_object() {
    assert!(classify_missing_object(Some("NotFound"), None, None));
    assert!(classify_missing_object(Some("NotFound"), None, Some(404)));
}

#[test]
fn not_found_bucket_message_is_not_missing_object() {
    assert!(!classify_missing_object(Some("NotFound"), Some("bucket does not exist"), None));
}

#[test]
fn not_found_non_404_status_is_not_missing_object() {
    assert!(!classify_missing_object(Some("NotFound"), Some("object not found"), Some(403)));
}

#[test]
fn missing_keys_are_missing_whatever_the_message_says() {
    assert!(classify_missing_object(Some("NoSuchKey"), Some("bucket"), None));
    assert!(classify_missing_object(Some("NotFound"), Some("Object Not Found"), Some(404)));
    assert!(!classify_missing_object(Some("AccessDenied"), None, Some(404)));
    assert!(!classify_missing_object(None, None, None));
}

#[test]
fn failed_preconditions_are_told_by_their_code() {
    assert!(is_precondition_failed_code(Some("PreconditionFailed")));
    assert!(!is_precondition_failed_code(Some("NotFound")));
    assert!(!is_precondition_failed_code(None));
}

#[test]
fn deb_versions_are_ordered_as_debian_orders_them() {
    assert_eq!(compare_deb_versions("1.2.3-1", "1.2.10-1"), Ok(Ordering::Less));
    assert_eq!(compare_deb_versions("1.0~rc.1-1", "1.0-1"), Ok(Ordering::Less));
    assert_eq!(compare_deb_versions("1:0.1-1", "2.0-1"), Ok(Ordering::Greater));
    assert_eq!(compare_deb_versions("1.0-1", "1.0-1"), Ok(Ordering::Equal));
    assert!(compare_deb_versions("not a version", "1.0-1").is_err());
}

#[test]
fn rpm_versions_are_ordered_as_rpm_orders_them() {
    assert_eq!(compare_rpm_versions("1.2.3-1", "1.2.10-1"), Ok(Ordering::Less));
    assert_eq!(compare_rpm_versions("1.0~rc.1-1", "1.0-1"), Ok(Ordering::Less));
    assert_eq!(compare_rpm_versions("2.0-1", "1.0-9"), Ok(Ordering::Greater));
    assert_eq!(compare_rpm_versions("1.0-1", "1.0-1"), Ok(Ordering::Equal));
}

#[test]
fn digests_are_written_in_hexadecimal() {
    assert_eq!(
        sha256_hex(b"abc"),
        "ba7816bf8f01cfea414140de5dae2223b00361a396177a9cb410ff61f20015ad"
    );
    assert_eq!(short_hash(b"abc"), "ba7816bf8f01cfea");
}

#[test]
fn artifacts_are_verified_by_size_and_content() {
    let mut built = artifact("sample", "1.2.3-1", "amd64", "sample.deb");
    built.size = 13;
    built.sha256 = sha256_hex(b"package-bytes");
    assert_eq!(
        artifact_path("target", &built),
        "target/x86_64-unknown-linux-gnu/release/sample.deb"
    );
    let content = b"package-bytes".to_vec();
    let path = text("target/x86_64-unknown-linux-gnu/release/sample.deb");
    let check = |reading: ArtifactReading| verify_artifact("target", &built, &reading);
    assert_eq!(check(ArtifactReading::Read { size: 13, content: content.clone() }), Ok(()));
    assert_eq!(
        check(ArtifactReading::Read { size: 7, content })
            .expect_err("another size should fail")
            .to_string(),
        "package artifact size mismatch for \"target/x86_64-unknown-linux-gnu/release/sample.deb\": expected 13, got 7"
    );
    assert_eq!(
        check(ArtifactReading::Uninspected),
        Err(VerifyManifestArtifactError::Metadata { path: path.clone() })
    );
    assert_eq!(
        check(ArtifactReading::Unopened { size: 13 }),
        Err(VerifyManifestArtifactError::Open { path: path.clone() })
    );
    assert_eq!(
        check(ArtifactReading::Unread { size: 13 }),
        Err(VerifyManifestArtifactError::Read { path })
    );
}

#[test]
fn verify_manifest_artifacts_rejects_hash_mismatch() {
    let mut built = artifact("sample", "1.2.3-1", "amd64", "sample.deb");
    built.size = 7;
    let listed = manifest(PackageSystem::Deb, vec![built]);
    let changed = ArtifactReading::Read { size: 7, content: b"changed".to_vec() };
    let error = verify_manifest_artifacts("target", &listed, &vec![changed])
        .expect_err("hash mismatch should fail");
    assert!(error.to_string().contains("sha256 mismatch"));
    assert!(verify_manifest_artifacts("target", &listed, &Vec::new()).is_err());
}

#[test]
fn repository_files_become_uploads() {
    let uploads = repository_uploads(
        "/tmp/repository",
        &prefix("apt/sample"),
        PackageSystem::Deb,
        &texts(&[
            "/tmp/repository/dists/sample/InRelease",
            "/tmp/repository/pool/main/s/sample/sample_1.2.3-1_amd64.deb",
        ]),
    )
    .expect("uploads should be planned");
    assert_eq!(
        keys(&uploads),
        vec![
            "apt/sample/dists/sample/InRelease",
            "apt/sample/pool/main/s/sample/sample_1.2.3-1_amd64.deb",
        ]
    );
    assert!(uploads[0].entry);
    assert!(!uploads[1].entry);
    assert!(repository_uploads(
        "/tmp/repository",
        &prefix("brew"),
        PackageSystem::Brew,
        &Vec::new(),
    )
    .is_err());
    assert!(repository_uploads(
        "/tmp/repository",
        &prefix("apt"),
        PackageSystem::Deb,
        &texts(&["/elsewhere/sample.deb"]),
    )
    .is_err());
}

#[test]
fn uploads_are_ordered_without_losing_one() {
    let ordered = order_repository_uploads(
        PackageSystem::Deb,
        &vec![
            upload("apt/dists/sample/InRelease", true),
            upload("apt/dists/sample/Release", true),
            upload("apt/pool/main/s/sample/sample.deb", false),
            upload("apt/dists/sample/main/binary-amd64/Packages", true),
        ],
    );
    assert_eq!(
        keys(&ordered),
        vec![
            "apt/pool/main/s/sample/sample.deb",
            "apt/dists/sample/main/binary-amd64/Packages",
            "apt/dists/sample/Release",
            "apt/dists/sample/InRelease",
        ]
    );
    let ordered = order_publish_uploads(&vec![
        upload("brew/sample.rb", true),
        upload("brew/b.tar.gz", false),
        upload("brew/a.tar.gz", false),
    ]);
    assert_eq!(keys(&ordered), vec!["brew/a.tar.gz", "brew/b.tar.gz", "brew/sample.rb"]);
}

#[test]
fn package_files_are_uploaded_once() {
    let planned = plan_repository_upload(
        upload("apt/pool/sample.deb", false),
        "abc",
        RemotePayloadState::Missing,
    )
    .expect("a missing file should be planned");
    assert_eq!(planned.and_then(|upload| upload.condition), Some(UploadCondition::IfMissing));
    assert_eq!(
        plan_repository_upload(
            upload("apt/pool/sample.deb", false),
            "abc",
            RemotePayloadState::Present { sha256: text("abc") },
        ),
        Ok(None)
    );
    assert_eq!(
        plan_repository_upload(
            upload("apt/pool/sample.deb", false),
            "abc",
            RemotePayloadState::Present { sha256: text("def") },
        )
        .expect_err("another file of that name should fail")
        .to_string(),
        "remote package artifact collision"
    );
}

#[test]
fn entries_are_replaced_on_condition() {
    let mut conditions = TextMap::new();
    conditions.insert(text("apt/dists/InRelease"), UploadCondition::IfMatch(text("etag")));
    let uploads =
        vec![upload("apt/pool/sample.deb", false), upload("apt/dists/InRelease", true)];
    let planned = apply_entry_conditions(&uploads, &conditions).expect("conditions should apply");
    assert_eq!(planned[0].condition, None);
    assert_eq!(planned[1].condition, Some(UploadCondition::IfMatch(text("etag"))));
    assert_eq!(
        apply_entry_conditions(&uploads, &TextMap::new())
            .expect_err("an entry without baseline should fail")
            .to_string(),
        "metadata upload is missing remote baseline"
    );
}

#[test]
fn deb_indexes_are_looked_for_in_every_component_and_architecture() {
    let found = deb_packages_keys(&prefix("apt"), "sample");
    assert_eq!(found.len(), 12);
    assert_eq!(found[0], "apt/dists/sample/main/binary-amd64/Packages");
    assert_eq!(found[11], "apt/dists/sample/non-free/binary-i386/Packages");
    let paths = deb_entry_metadata_relative_paths("sample");
    assert_eq!(paths.len(), 39);
    assert_eq!(paths[0], "dists/sample/Release");
    assert_eq!(paths[1], "dists/sample/Release.gpg");
    assert_eq!(paths[2], "dists/sample/InRelease");
    assert!(paths.contains(&text("dists/sample/main/binary-arm64/Packages.gz")));
}

#[test]
fn shell_words_are_quoted() {
    assert_eq!(shell_quote("plain"), "'plain'");
    assert_eq!(shell_quote("it's"), "'it'\\''s'");
    assert_eq!(shell_quote(""), "''");
}

#[test]
fn fingerprints_are_compared_without_case_and_space() {
    assert_eq!(normalize_fingerprint(" ab cd\tef12 "), "ABCDEF12");
    assert_eq!(normalize_fingerprint("stra\u{df}e"), "STRASSE");
}

#[test]
fn deb_metadata_is_made_and_signed_by_one_script() {
    let script = deb_metadata_script("sample", "ab cd", true);
    assert!(script.starts_with("set -eu\n"));
    assert!(script.contains("dpkg-scanpackages --multiversion --arch arm64 pool/main"));
    assert!(script.contains("'APT::FTPArchive::Release::Codename=sample'"));
    assert!(script.contains("--default-key 'ABCD' --passphrase-file /apt-secrets/passphrase"));
    assert!(!deb_metadata_script("sample", "ab cd", false).contains("--passphrase-file"));
    let words = deb_metadata_command("/tmp/repository", "/tmp/secrets", "true");
    assert_eq!(words[0], "run");
    assert!(words.contains(&text("/tmp/repository:/apt-repository")));
    assert_eq!(words.last().map(String::as_str), Some("true"));
    let words = rpm_repository_command("/tmp/repository");
    assert_eq!(words[0], "run");
    assert!(words.iter().any(|word| word.starts_with("/tmp/repository:")));
}

#[test]
fn deb_repositories_take_what_is_new_and_keep_what_is_indexed() {
    let local = manifest(
        PackageSystem::Deb,
        vec![artifact("sample", "1.2.10-1", "amd64", "sample_1.2.10-1_amd64.deb")],
    );
    let plan = plan_deb_repository(
        &local,
        &texts(&[
            "Package: sample\nVersion: 1.2.9-1\nArchitecture: amd64\nFilename: pool/main/s/sample/sample_1.2.9-1_amd64.deb\n",
        ]),
    )
    .expect("repository should be planned");
    assert_eq!(plan.local.len(), 1);
    assert_eq!(plan.local[0].version, "1.2.10-1");
    assert_eq!(plan.retained.len(), 1);
    assert_eq!(plan.retained[0].version.version, "1.2.9-1");

    assert_eq!(
        deb_repository_copies("/repo", "/target", &plan.local)[0].destination,
        "/repo/pool/main/s/sample/sample_1.2.10-1_amd64.deb"
    );
    let downloads = deb_repository_downloads("/repo", &prefix("apt"), &plan.retained);
    assert_eq!(downloads[0].key, "apt/pool/main/s/sample/sample_1.2.9-1_amd64.deb");
    assert_eq!(
        downloads[0].destination,
        "/repo/pool/main/s/sample/sample_1.2.9-1_amd64.deb"
    );
}

#[test]
fn rpm_repositories_take_what_is_new_and_keep_what_is_stored() {
    let local = manifest(
        PackageSystem::Rpm,
        vec![artifact("sample", "1.2.10-1", "x86_64", "sample-1.2.10-1.x86_64.rpm")],
    );
    let plan = plan_rpm_repository(
        &local,
        &prefix("rpm"),
        &texts(&[
            "rpm/repodata/repomd.xml",
            "rpm/sample/1.2.9-1/sample-1.2.9-1.x86_64.rpm",
        ]),
    )
    .expect("repository should be planned");
    assert_eq!(plan.local.len(), 1);
    assert_eq!(plan.retained.len(), 1);
    assert_eq!(plan.retained[0].version, "1.2.9-1");
    assert_eq!(
        rpm_repository_copies("/repo", "/target", &plan.local)[0].destination,
        "/repo/sample/1.2.10-1/sample-1.2.10-1.x86_64.rpm"
    );
    let downloads = rpm_repository_downloads("/repo", &prefix("rpm"), &plan.retained)
        .expect("downloads should be planned");
    assert_eq!(downloads[0].key, "rpm/sample/1.2.9-1/sample-1.2.9-1.x86_64.rpm");
    assert!(remote_rpm_payload_to_linux_payload(&prefix("rpm"), "rpm/sample.rpm").is_err());
    assert!(remote_rpm_payload_to_linux_payload(&prefix("rpm"), "rpm/a/b/sample.zip").is_err());
}

#[test]
fn repeated_publications_keep_what_they_published() {
    let local = manifest(
        PackageSystem::Deb,
        vec![artifact("sample", "1.2.10-1", "amd64", "sample_1.2.10-1_amd64.deb")],
    );
    let plan = plan_deb_repository(
        &local,
        &texts(&[
            "Package: sample\nVersion: 1.2.9-1\nArchitecture: amd64\nFilename: pool/main/s/sample/sample_1.2.9-1_amd64.deb\n\nPackage: sample\nVersion: 1.2.10-1\nArchitecture: amd64\nFilename: pool/main/s/sample/sample_1.2.10-1_amd64.deb\n",
        ]),
    )
    .expect("repository should be planned");
    assert!(plan.local.is_empty());
    let kept: Vec<&str> =
        plan.retained.iter().map(|entry| entry.version.version.as_str()).collect();
    assert_eq!(kept, vec!["1.2.9-1", "1.2.10-1"]);

    let local = manifest(
        PackageSystem::Rpm,
        vec![artifact("sample", "1.2.10-1", "x86_64", "sample-1.2.10-1.x86_64.rpm")],
    );
    let plan = plan_rpm_repository(
        &local,
        &prefix("rpm"),
        &texts(&[
            "rpm/sample/1.2.9-1/sample-1.2.9-1.x86_64.rpm",
            "rpm/sample/1.2.10-1/sample-1.2.10-1.x86_64.rpm",
        ]),
    )
    .expect("repository should be planned");
    assert!(plan.local.is_empty());
    let kept: Vec<&str> = plan.retained.iter().map(|payload| payload.version.as_str()).collect();
    assert_eq!(kept, vec!["1.2.9-1", "1.2.10-1"]);
}

#[test]
fn pool_paths_begin_with_the_first_letter() {
    assert_eq!(pool_path("sample", "sample.deb"), "pool/main/s/sample/sample.deb");
    assert_eq!(pool_path("", "sample.deb"), "pool/main/_/sample.deb");
}

#[test]
fn archives_of_a_version_are_published_once() {
    let mut built = artifact("sample", "1.2.3", "x86_64", "sample.tar.gz");
    built.sha256 = text("local-sha");
    let key = versioned_archive_key(&prefix("brew"), &built).expect("archive should have a name");
    assert_eq!(key, "brew/sample.tar.gz");
    assert_eq!(check_archive_sha256(&built, "local-sha"), Ok(()));
    assert!(check_archive_sha256(&built, "other-sha").is_err());

    let new = plan_versioned_archive(
        "/target",
        &key,
        &built,
        "local-sha",
        RemotePayloadState::Missing,
    );
    assert_eq!(new.artifact.sha256, "local-sha");
    assert_eq!(
        new.upload.map(|upload| upload.condition),
        Some(Some(UploadCondition::IfMissing))
    );
    let old = plan_versioned_archive(
        "/target",
        &key,
        &built,
        "local-sha",
        RemotePayloadState::Present { sha256: text("published-sha") },
    );
    assert_eq!(old.artifact.sha256, "published-sha");
    assert_eq!(old.upload, None);
    assert_eq!(old.remote_matches_local, Some(false));
    built.archive_name = None;
    assert_eq!(
        versioned_archive_key(&prefix("brew"), &built)
            .expect_err("an archive without name should fail")
            .to_string(),
        "package artifact is missing archive name"
    );
}

#[test]
fn rpm_metadata_command_uses_fedora_container() {
    let command = rpm_metadata_command("/tmp/out/sample.rpm")
        .expect("container rpm command should resolve");

    assert_eq!(command.program, "docker");
    assert_eq!(command.args[0], "run");
    assert!(command.args.iter().any(|arg| arg == "/tmp/out:/rpm:ro"));
    assert_eq!(command.args.last().map(String::as_str), Some("/rpm/sample.rpm"));
}

#[test]
fn package_files_tell_their_metadata_line_by_line() {
    let found = rpm_metadata("sample\n1.2.3-1\nx86_64\n");
    assert_eq!(found.package_name.as_deref(), Some("sample"));
    assert_eq!(found.package_version.as_deref(), Some("1.2.3-1"));
    assert_eq!(found.architecture.as_deref(), Some("x86_64"));
    let short = deb_metadata("Package: sample\n");
    assert_eq!(short.package_name.as_deref(), Some("sample"));
    assert_eq!(short.package_version, None);
}

#[test]
fn one_artifact_is_expected_of_a_build() {
    assert!(is_artifact("/out/sample.deb", PackageSystem::Deb));
    assert!(is_artifact("/out/sample.tar.gz", PackageSystem::Brew));
    assert!(!is_artifact("/out/sample.tar.gz", PackageSystem::Scoop));
    assert_eq!(
        single_artifact(
            &texts(&["/out/sample.buildinfo", "/out/sample.deb"]),
            PackageSystem::Deb,
            "/out",
        ),
        Ok(text("/out/sample.deb"))
    );
    assert_eq!(
        single_artifact(&Vec::new(), PackageSystem::Deb, "/out")
            .expect_err("no artifact should fail")
            .to_string(),
        "package script produced no artifact in \"/out\""
    );
    assert_eq!(
        single_artifact(&texts(&["/out/a.deb", "/out/b.deb"]), PackageSystem::Deb, "/out")
            .expect_err("two artifacts should fail")
            .to_string(),
        "package script produced multiple artifacts in \"/out\""
    );
}

#[test]
fn docker_images_are_named_after_what_they_are_built_from() {
    let mut env = TextMap::new();
    env.insert(text("XTASK_RELEASE_TARGET"), text("common"));
    env.insert(text("DHTTP_ROOT_CA"), text("/root.crt"));
    let first = docker_image("xtask-release:build-sample-deb", "Dockerfile", &env);
    assert_eq!(
        first,
        format!(
            "xtask-release:build-sample-deb-{}",
            short_hash(b"DockerfileXTASK_RELEASE_TARGET=common\n")
        )
    );
    env.insert(text("XTASK_RELEASE_TARGET"), text("other"));
    assert_ne!(docker_image("xtask-release:build-sample-deb", "Dockerfile", &env), first);
    let words = docker_build_command("Dockerfile", "image", &env);
    assert!(words.contains(&text("XTASK_RELEASE_TARGET=other")));
    assert!(!words.contains(&text("DHTTP_ROOT_CA=/root.crt")));
    let words = docker_run_command(&texts(&["/a:/b"]), &env, "image", "build.sh");
    assert!(words.contains(&text("/a:/b")));
    assert!(words.contains(&text("DHTTP_ROOT_CA=/root.crt")));
    assert_eq!(words.last().map(String::as_str), Some("build.sh"));
}

#[test]
fn containers_see_the_workspace_and_the_caches() {
    let mounts = package_unit_mounts(
        "/work",
        "/work/target",
        "/home/me/.cargo",
        "/usr/local/cargo/",
        &vec![PlannedEnvMount {
            source: text("/host/root.crt"),
            destination: text("/container/root.crt"),
            read_only: true,
        }],
        &None,
    );
    assert_eq!(
        mounts,
        texts(&[
            "/work:/workspace",
            "/home/me/.cargo/git:/usr/local/cargo/git",
            "/home/me/.cargo/registry:/usr/local/cargo/registry",
            "/host/root.crt:/container/root.crt:ro",
        ])
    );
    assert_eq!(
        cargo_cache_directories("/home/me/.cargo"),
        texts(&["/home/me/.cargo/git", "/home/me/.cargo/registry"])
    );
    assert_eq!(host_cargo_home(None, Some("/home/me")), Ok(text("/home/me/.cargo")));
    assert_eq!(host_cargo_home(Some("/cargo"), Some("/home/me")), Ok(text("/cargo")));
    assert!(host_cargo_home(Some(""), None).is_err());
    assert_eq!(container_cargo_home("image", "/usr/local/cargo\n"), Ok(text("/usr/local/cargo")));
    assert!(container_cargo_home("image", " \n").is_err());
}

#[test]
fn reports_collect_manifests() {
    let entry = |package: &str| S3PublishReportManifest {
        kind: PackageSystem::Deb,
        package: text(package),
        version: text("1.2.3"),
        generated_at: text("2026-06-29T00:00:00Z"),
        git_commit: None,
        git_dirty: false,
        artifacts: Vec::new(),
    };
    let mut report = S3PublishReport::new(true);
    assert!(report.dry_run);
    assert!(report.manifests.is_empty());
    report.add_manifest(entry("a"));
    report.extend_manifests(vec![entry("b"), entry("c")]);
    assert_eq!(
        report.manifests.iter().map(|manifest| manifest.package.as_str()).collect::<Vec<_>>(),
        vec!["a", "b", "c"]
    );
}

#[test]
fn package_ids_and_versions_are_written_as_their_systems_need_them() {
    let id = PackageId::new("sample-tool").expect("id should parse");
    assert_eq!(id.as_str(), "sample-tool");
    assert_eq!(id.env_fragment(), "SAMPLE_TOOL");
    assert_eq!(PackageId::new("").expect_err("empty id").to_string(), "package id must not be empty");
    assert_eq!(PackageId::new("a b").expect_err("space").to_string(), "invalid package id a b");
    assert!(PackageId::new("a.b").is_err());

    let source = SourceVersion::parse("1.2.3-rc.1+build.5").expect("version should parse");
    assert_eq!(source.to_string(), "1.2.3-rc.1+build.5");
    assert_eq!(source.linux_text(), "1.2.3~rc.1+build.5");
    assert!(SourceVersion::parse("1.2").is_err());
    assert!(SourceVersion::parse("01.2.3").is_err());
    assert_eq!(
        PackageVersion::deb(source.clone(), "1").expect("deb version").as_string(),
        "1.2.3~rc.1+build.5-1"
    );
    assert_eq!(
        PackageVersion::rpm(source.clone(), "").expect_err("empty release").to_string(),
        "rpm release must not be empty"
    );
    assert_eq!(PackageVersion::plain(source).as_string(), "1.2.3-rc.1+build.5");
}

#[test]
fn paths_are_taken_apart_by_component() {
    assert!(is_absolute("/a"));
    assert!(!is_absolute("a"));
    assert_eq!(component_names("a//b/./c/"), texts(&["a", "b", "c"]));
    assert!(has_parent_component("a/../b"));
    assert!(!has_parent_component("a/..b"));
    assert_eq!(join_path("a", "b"), "a/b");
    assert_eq!(join_path("a/", "b"), "a/b");
    assert_eq!(join_path("a", "/b"), "/b");
    assert_eq!(file_name("/a/b.tar.gz"), Some(text("b.tar.gz")));
    assert_eq!(file_name("/"), None);
    assert_eq!(parent("/a/b"), Some(text("/a")));
    assert_eq!(parent("a"), Some(text("")));
    assert_eq!(extension("a/b.tar.gz"), Some(text("gz")));
    assert_eq!(extension("a/.hidden"), None);
    assert_eq!(below("/a/b/c", "/a"), Some(text("b/c")));
    assert_eq!(below("/a/b", "/c"), None);
}

fn entry(package: &str, version: &str) -> RemoteDebPackageEntry {
    RemoteDebPackageEntry {
        version: LinuxPackageVersion {
            package: text(package),
            version: text(version),
            architecture: text("amd64"),
        },
        filename: format!("pool/main/s/{package}/{package}_{version}_amd64.deb"),
    }
}

#[test]
fn downloads_follow_the_pool() {
    let downloads =
        deb_repository_downloads("/repo", &prefix("apt"), &vec![entry("sample", "1.0-1")]);
    assert_eq!(downloads.len(), 1);
    assert_eq!(downloads[0].key, "apt/pool/main/s/sample/sample_1.0-1_amd64.deb");
    let payload = LinuxPackagePayload {
        package: text("sample"),
        version: text("1.0-1"),
        architecture: text("amd64"),
        archive_name: text("sample_1.0-1_amd64.deb"),
        path: text("x86_64-unknown-linux-gnu/release/deb/sample_1.0-1_amd64.deb"),
    };
    let copies = deb_repository_copies("/repo", "/target", &vec![payload]);
    assert_eq!(
        copies[0].source,
        "/target/x86_64-unknown-linux-gnu/release/deb/sample_1.0-1_amd64.deb"
    );
}

#[test]
fn an_entry_is_replaced_as_it_was_found() {
    assert!(matches!(
        remote_upload_condition("apt/dists/stable/Release", false, None),
        Ok(UploadCondition::IfMissing)
    ));
    assert!(matches!(
        remote_upload_condition("apt/dists/stable/Release", false, Some("\"tag\"")),
        Ok(UploadCondition::IfMissing)
    ));
    match remote_upload_condition("apt/dists/stable/Release", true, Some("\"tag\"")) {
        Ok(UploadCondition::IfMatch(etag)) => assert_eq!(etag, "\"tag\""),
        other => panic!("{other:?}"),
    }
    match remote_upload_condition("apt/dists/stable/Release", true, None) {
        Err(error) => {
            assert_eq!(error.to_string(), "remote object is missing ETag");
            match error {
                S3PublishError::MissingRemoteEtag { key } => {
                    assert_eq!(key, "apt/dists/stable/Release");
                }
                other => panic!("{other:?}"),
            }
        }
        other => panic!("{other:?}"),
    }
}
