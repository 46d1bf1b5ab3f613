use genmeta_xtask_release::building::{
    advance_build, first_build_step, BuildAction, BuildError, BuildEvent, BuildHost, BuildStage,
};
use genmeta_xtask_release::contract::{
    BrewBranch, DebBranch, DebSigning, DestinationContract, EnvRef, GitIndexDestination,
    PackageContract, ReleaseContract, RequiresContract, RpmBranch, S3BrewChannelDestination,
    S3BrewDestination, S3DebChannelDestination, S3DebDestination, S3DestinationContract,
    S3RpmChannelDestination, S3RpmDestination, S3ScoopChannelDestination, S3ScoopDestination,
    ScoopBranch,
};
use genmeta_xtask_release::manifest::{PackageArtifact, PackageManifest};
use genmeta_xtask_release::package::{CargoMetadata, PackageId};
use genmeta_xtask_release::plan::{
    build_invocation_with_env_values, PlannedContainer, PlannedPackageBuild,
};
use genmeta_xtask_release::publication::{
    advance, begin_publication, first_step, publication_notice, Publication, PublicationAction,
    PublicationError, PublicationEvent, PublicationStage, PublicationStep,
};
use genmeta_xtask_release::publish::{RemotePayloadState, UploadCondition};
use genmeta_xtask_release::runner::{artifacts_by_system, BuiltArtifact, RunCurrentDirError};
use genmeta_xtask_release::s3::S3PublishError;
use genmeta_xtask_release::sibling::ContainerOverlayPlan;
use genmeta_xtask_release::system::{ArchitectureClass, PackageSystem, RequestedTarget};
use genmeta_xtask_release::textmap::TextMap;

fn text(value: &str) -> String {
    value.to_string()
}

fn texts(values: &[&str]) -> Vec<String> {
    values.iter().map(|value| value.to_string()).collect()
}

fn env_ref(name: &str) -> EnvRef {
    EnvRef { env: text(name) }
}

fn index(repository: &str) -> GitIndexDestination {
    GitIndexDestination {
        repository: text(repository),
        base_branch: text("main"),
        token: env_ref("TOKEN"),
    }
}

fn contract() -> ReleaseContract {
    let mut package = PackageContract::default();
    package.version = Some(text("1.2.3"));
    package.description = Some(text("A sample"));
    package.license = Some(text("Apache-2.0"));
    package.homepage = Some(text("https://sample.test"));
    package.deb = Some(DebBranch {
        revision: text("1"),
        architecture: ArchitectureClass::Target,
        dockerfile: Some(text("deb/Dockerfile")),
        build: None,
        requires: RequiresContract::default(),
        target: TextMap::new(),
    });
    package.rpm = Some(RpmBranch {
        release: text("1"),
        architecture: ArchitectureClass::Target,
        dockerfile: Some(text("rpm/Dockerfile")),
        build: None,
        requires: RequiresContract::default(),
        target: TextMap::new(),
    });
    package.brew = Some(BrewBranch {
        script: Some(text("brew/build.sh")),
        manifest_template: Some(text("brew/sample.rb.in")),
        build: None,
        requires: RequiresContract::default(),
        target: TextMap::new(),
    });
    package.scoop = Some(ScoopBranch {
        script: Some(text("scoop/build.sh")),
        manifest_template: Some(text("scoop/sample.json.in")),
        bin: texts(&["sample.exe"]),
        build: None,
        requires: RequiresContract::default(),
        target: TextMap::new(),
    });
    let brew_channel = || S3BrewChannelDestination {
        prefix: text("brew"),
        public_base_url: text("https://download.test/brew"),
        tap: index("sample/tap"),
    };
    let scoop_channel = || S3ScoopChannelDestination {
        prefix: text("scoop"),
        public_base_url: text("https://download.test/scoop"),
        bucket: index("sample/bucket"),
    };
    let deb_channel =
        || S3DebChannelDestination { prefix: text("apt"), suite: text("stable") };
    let contract = ReleaseContract {
        package: TextMap::from_entries(vec![(PackageId::from_key(text("sample")), package)]),
        destination: DestinationContract {
            s3: S3DestinationContract {
                bucket: text("download"),
                endpoint: env_ref("ENDPOINT"),
                access_key_id: env_ref("ACCESS"),
                secret_access_key: env_ref("SECRET"),
                brew: Some(S3BrewDestination { stable: brew_channel(), preview: brew_channel() }),
                scoop: Some(S3ScoopDestination {
                    stable: scoop_channel(),
                    preview: scoop_channel(),
                }),
                deb: Some(S3DebDestination {
                    stable: deb_channel(),
                    preview: deb_channel(),
                    signing: DebSigning {
                        key: env_ref("KEY"),
                        passphrase: env_ref("PASSPHRASE"),
                        fingerprint: env_ref("FINGERPRINT"),
                    },
                    publish: None,
                }),
                rpm: Some(S3RpmDestination {
                    stable: S3RpmChannelDestination { prefix: text("rpm") },
                    preview: S3RpmChannelDestination { prefix: text("rpm") },
                    publish: None,
                }),
            },
        },
    };
    contract.validate().expect("contract should validate");
    contract
}

fn values() -> TextMap<String, String> {
    let mut values = TextMap::new();
    for (name, value) in [
        ("ENDPOINT", "https://r2.test"),
        ("ACCESS", "access"),
        ("SECRET", "secret"),
        ("TOKEN", "token"),
        ("KEY", "armored"),
        ("PASSPHRASE", "phrase"),
        ("FINGERPRINT", "ab cd"),
    ] {
        values.insert(text(name), text(value));
    }
    values
}

fn cargo() -> TextMap<String, CargoMetadata> {
    TextMap::new()
}

fn artifact(target: &str, name: &str, sha256: &str) -> PackageArtifact {
    PackageArtifact {
        target: text(target),
        path: format!("{target}/release/{name}"),
        sha256: text(sha256),
        size: 1,
        package_name: Some(text("sample")),
        package_version: Some(text("1.2.3-1")),
        architecture: Some(text("amd64")),
        archive_name: Some(text(name)),
        features: Vec::new(),
        profile: Some(text("release")),
    }
}

fn manifest(kind: PackageSystem, artifacts: Vec<PackageArtifact>) -> PackageManifest {
    PackageManifest {
        schema_version: 1,
        kind,
        package: text("sample"),
        version: text("1.2.3"),
        generated_at: text("0"),
        git_commit: None,
        git_dirty: false,
        artifacts,
    }
}

fn publication(manifest: PackageManifest, dry_run: bool) -> Publication {
    begin_publication(&contract(), "/work", "/work/target", &cargo(), &values(), manifest, dry_run)
        .expect("publication should begin")
}

fn begin(publication: &Publication) -> PublicationStep {
    first_step(publication, &contract()).expect("publication should take its first step")
}

fn go(publication: &Publication, step: PublicationStep, event: PublicationEvent) -> PublicationStep {
    advance(publication, &contract(), step.stage, event).expect("publication should go on")
}

fn brew_manifest() -> PackageManifest {
    manifest(
        PackageSystem::Brew,
        vec![
            artifact("aarch64-apple-darwin", "sample-arm.tar.gz", "aa"),
            artifact("x86_64-apple-darwin", "sample-intel.tar.gz", "bb"),
        ],
    )
}

/// Publishes to Homebrew up to the first upload: the first archive is new, the second one
/// stands in the storage with another hash.
fn brew_uploads(publication: &Publication) -> PublicationStep {
    let step = begin(publication);
    assert_eq!(
        step.action,
        PublicationAction::HashFile {
            path: text("/work/target/aarch64-apple-darwin/release/sample-arm.tar.gz"),
        }
    );
    let step = go(publication, step, PublicationEvent::Hashed { sha256: text("aa") });
    assert_eq!(
        step.action,
        PublicationAction::InspectObject { key: text("brew/sample-arm.tar.gz") }
    );
    let step =
        go(publication, step, PublicationEvent::Located { remote: RemotePayloadState::Missing });
    assert_eq!(step.notice, None);
    let step = go(publication, step, PublicationEvent::Hashed { sha256: text("bb") });
    let step = go(
        publication,
        step,
        PublicationEvent::Located { remote: RemotePayloadState::Present { sha256: text("cc") } },
    );
    assert_eq!(
        step.notice,
        Some(text(
            "remote immutable package artifact already exists with different sha256; reusing remote payload for metadata: brew/sample-intel.tar.gz"
        ))
    );
    assert_eq!(
        step.action,
        PublicationAction::ReadTemplate { path: text("/work/brew/sample.rb.in") }
    );
    let step = go(
        publication,
        step,
        PublicationEvent::Text { text: text("version \"{{ package.version }}\"") },
    );
    let PublicationAction::WriteAnnouncements { directory, paths, .. } = &step.action else {
        panic!("announcements should be written");
    };
    assert_eq!(directory, "/work/target/common/brew");
    assert_eq!(paths.len(), 2);
    go(publication, step, PublicationEvent::Done)
}

#[test]
fn archives_are_published_before_their_announcements() {
    let publication = publication(brew_manifest(), false);
    assert_eq!(
        publication_notice(&publication),
        "publish s3 brew channel=stable target=prefix=brew tap=sample/tap"
    );
    let mut step = brew_uploads(&publication);
    let mut uploaded = Vec::new();
    while let PublicationAction::Upload { upload } = &step.action {
        uploaded.push((upload.key.clone(), upload.entry, upload.condition.clone()));
        step = go(&publication, step, PublicationEvent::Done);
    }
    assert_eq!(step.action, PublicationAction::Finish);
    assert_eq!(step.stage, PublicationStage::Finished);
    assert_eq!(
        uploaded,
        vec![
            (text("brew/sample-arm.tar.gz"), false, Some(UploadCondition::IfMissing)),
            (text("brew/sample-1.2.3.rb"), true, None),
            (text("brew/sample.rb"), true, None),
        ]
    );
}

#[test]
fn dry_runs_name_their_uploads_and_make_none() {
    let publication = publication(brew_manifest(), true);
    let mut step = brew_uploads(&publication);
    let mut named = 0;
    while let PublicationAction::Report { .. } = &step.action {
        named += 1;
        step = go(&publication, step, PublicationEvent::Done);
    }
    assert_eq!(named, 3);
    assert_eq!(step.action, PublicationAction::Finish);
}

#[test]
fn archives_that_changed_since_the_build_are_refused() {
    let publication = publication(brew_manifest(), false);
    let step = begin(&publication);
    let error = advance(
        &publication,
        &contract(),
        step.stage,
        PublicationEvent::Hashed { sha256: text("changed") },
    )
    .expect_err("another file should be refused");
    assert_eq!(
        error,
        PublicationError::Refused {
            source: S3PublishError::ArtifactSha256Mismatch {
                path: text("aarch64-apple-darwin/release/sample-arm.tar.gz"),
            },
        }
    );
    assert_eq!(error.to_string(), "failed to run s3 publish command");
}

#[test]
fn archives_need_a_name() {
    let mut manifest = brew_manifest();
    manifest.artifacts[0].archive_name = None;
    let publication = publication(manifest, false);
    assert_eq!(
        first_step(&publication, &contract()),
        Err(PublicationError::Refused { source: S3PublishError::MissingArchiveName })
    );
}

#[test]
fn publications_wait_for_one_kind_of_event() {
    let publication = publication(brew_manifest(), false);
    let step = begin(&publication);
    let error = advance(&publication, &contract(), step.stage, PublicationEvent::Done)
        .expect_err("another event should be refused");
    assert_eq!(error.to_string(), "publication does not wait for this event");
    assert!(advance(
        &publication,
        &contract(),
        PublicationStage::Finished,
        PublicationEvent::Done
    )
    .is_err());
}

#[test]
fn scoop_announcements_name_the_programs_of_the_branch() {
    let publication = publication(
        manifest(
            PackageSystem::Scoop,
            vec![artifact("x86_64-pc-windows-msvc", "sample.zip", "aa")],
        ),
        false,
    );
    let step = begin(&publication);
    let step = go(&publication, step, PublicationEvent::Hashed { sha256: text("aa") });
    let step = go(
        &publication,
        step,
        PublicationEvent::Located { remote: RemotePayloadState::Present { sha256: text("aa") } },
    );
    assert_eq!(
        step.notice,
        Some(text(
            "remote immutable package artifact already has matching sha256: scoop/sample.zip"
        ))
    );
    let step = go(
        &publication,
        step,
        PublicationEvent::Text { text: text("{\"bin\": {{ scoop.bin.json }} }") },
    );
    let PublicationAction::WriteAnnouncements { text: written, .. } = &step.action else {
        panic!("announcements should be written");
    };
    assert_eq!(written, "{\"bin\": [\n  \"sample.exe\"\n] }");
}

fn deb_manifest() -> PackageManifest {
    manifest(
        PackageSystem::Deb,
        vec![artifact("x86_64-unknown-linux-gnu", "sample_1.2.3-1_amd64.deb", "aa")],
    )
}

/// Publishes to a Debian repository up to its walk.
fn deb_walk(publication: &Publication, conditions: Vec<(String, UploadCondition)>)
    -> PublicationStep
{
    let step = begin(publication);
    let PublicationAction::FetchIndexes { keys } = &step.action else {
        panic!("indexes should be fetched");
    };
    assert_eq!(keys[0], "apt/dists/stable/main/binary-amd64/Packages");
    let remote = "Package: sample\nVersion: 1.2.2-1\nArchitecture: amd64\nFilename: pool/main/s/sample/sample_1.2.2-1_amd64.deb\n";
    let step =
        go(publication, step, PublicationEvent::Indexes { contents: texts(&[remote]) });
    let PublicationAction::InspectEntries { keys } = &step.action else {
        panic!("entries should be inspected");
    };
    assert_eq!(keys[0], "apt/dists/stable/Release");
    assert_eq!(keys.len(), 39);
    let step = go(
        publication,
        step,
        PublicationEvent::Conditions { conditions: TextMap::from_entries(conditions) },
    );
    assert_eq!(step.action, PublicationAction::CreateRepository);
    let step = go(publication, step, PublicationEvent::Directory { path: text("/tmp/repo") });
    let PublicationAction::FillRepository { copies, downloads } = &step.action else {
        panic!("repository should be filled");
    };
    assert_eq!(copies.len(), 1);
    assert_eq!(
        copies[0].destination,
        "/tmp/repo/pool/main/s/sample/sample_1.2.3-1_amd64.deb"
    );
    assert_eq!(downloads.len(), 1);
    assert_eq!(downloads[0].key, "apt/pool/main/s/sample/sample_1.2.2-1_amd64.deb");
    let step = go(publication, step, PublicationEvent::Done);
    assert_eq!(
        step.action,
        PublicationAction::WriteSecrets {
            signing_key: text("armored"),
            signing_passphrase: Some(text("phrase")),
        }
    );
    let step = go(publication, step, PublicationEvent::Directory { path: text("/tmp/secrets") });
    let PublicationAction::RunContainer { words } = &step.action else {
        panic!("metadata should be made");
    };
    assert_eq!(words[3], "/tmp/repo:/apt-repository");
    assert_eq!(words[5], "/tmp/secrets:/apt-secrets:ro");
    assert!(words[9].contains("--passphrase-file /apt-secrets/passphrase"));
    let step = go(publication, step, PublicationEvent::Done);
    assert_eq!(step.action, PublicationAction::WalkRepository { directory: text("/tmp/repo") });
    step
}

fn deb_files() -> Vec<String> {
    texts(&[
        "/tmp/repo/dists/stable/InRelease",
        "/tmp/repo/pool/main/s/sample/sample_1.2.2-1_amd64.deb",
        "/tmp/repo/pool/main/s/sample/sample_1.2.3-1_amd64.deb",
    ])
}

#[test]
fn debian_packages_are_added_and_metadata_is_replaced_on_condition() {
    let publication = publication(deb_manifest(), false);
    let seen = UploadCondition::IfMatch(text("etag"));
    let step = deb_walk(
        &publication,
        vec![(text("apt/dists/stable/InRelease"), seen.clone())],
    );
    let step = go(&publication, step, PublicationEvent::Files { paths: deb_files() });
    assert_eq!(
        step.action,
        PublicationAction::InspectPayload {
            path: text("/tmp/repo/pool/main/s/sample/sample_1.2.2-1_amd64.deb"),
            key: text("apt/pool/main/s/sample/sample_1.2.2-1_amd64.deb"),
        }
    );
    let step = go(
        &publication,
        step,
        PublicationEvent::Payload {
            sha256: text("old"),
            remote: RemotePayloadState::Present { sha256: text("old") },
        },
    );
    assert_eq!(
        step.notice,
        Some(text(
            "remote immutable package artifact already has matching sha256: apt/pool/main/s/sample/sample_1.2.2-1_amd64.deb"
        ))
    );
    let mut step = go(
        &publication,
        step,
        PublicationEvent::Payload { sha256: text("aa"), remote: RemotePayloadState::Missing },
    );
    let mut uploaded = Vec::new();
    while let PublicationAction::Upload { upload } = &step.action {
        uploaded.push((upload.key.clone(), upload.condition.clone()));
        step = go(&publication, step, PublicationEvent::Done);
    }
    assert_eq!(step.action, PublicationAction::Finish);
    assert_eq!(
        uploaded,
        vec![
            (
                text("apt/pool/main/s/sample/sample_1.2.3-1_amd64.deb"),
                Some(UploadCondition::IfMissing)
            ),
            (text("apt/dists/stable/InRelease"), Some(seen)),
        ]
    );
}

#[test]
fn debian_packages_are_never_replaced() {
    let publication = publication(deb_manifest(), false);
    let step = deb_walk(&publication, Vec::new());
    let step = go(&publication, step, PublicationEvent::Files { paths: deb_files() });
    let error = advance(
        &publication,
        &contract(),
        step.stage,
        PublicationEvent::Payload {
            sha256: text("old"),
            remote: RemotePayloadState::Present { sha256: text("other") },
        },
    )
    .expect_err("another package at the key should be refused");
    let PublicationError::Refused { source } = error else {
        panic!("the package should be refused");
    };
    assert_eq!(source.to_string(), "remote package artifact collision");
}

#[test]
fn debian_metadata_needs_a_condition() {
    let publication = publication(deb_manifest(), false);
    let step = deb_walk(&publication, Vec::new());
    let error = advance(
        &publication,
        &contract(),
        step.stage,
        PublicationEvent::Files { paths: texts(&["/tmp/repo/dists/stable/InRelease"]) },
    )
    .expect_err("metadata without a condition should be refused");
    assert_eq!(
        error,
        PublicationError::Refused { source: S3PublishError::MissingMetadataUploadBaseline }
    );
}

#[test]
fn rpm_repositories_are_sealed_without_secrets() {
    let publication = publication(
        manifest(
            PackageSystem::Rpm,
            vec![artifact("x86_64-unknown-linux-gnu", "sample-1.2.3-1.x86_64.rpm", "aa")],
        ),
        false,
    );
    let step = begin(&publication);
    assert_eq!(step.action, PublicationAction::ListObjects { prefix: text("rpm") });
    let step = go(&publication, step, PublicationEvent::Keys { keys: Vec::new() });
    assert_eq!(step.action, PublicationAction::CreateRepository);
    let step = go(&publication, step, PublicationEvent::Directory { path: text("/tmp/repo") });
    let step = go(&publication, step, PublicationEvent::Done);
    let PublicationAction::RunContainer { words } = &step.action else {
        panic!("metadata should be made");
    };
    assert_eq!(words[3], "/tmp/repo:/rpm-repository");
    let step = go(&publication, step, PublicationEvent::Done);
    let step = go(
        &publication,
        step,
        PublicationEvent::Files { paths: texts(&["/tmp/repo/repodata/repomd.xml"]) },
    );
    let PublicationAction::Upload { upload } = &step.action else {
        panic!("the index should be uploaded");
    };
    assert_eq!(upload.key, "rpm/repodata/repomd.xml");
    assert_eq!(upload.condition, None);
}

#[test]
fn repositories_upload_packages_first_and_each_group_by_key() {
    let publication = publication(
        manifest(
            PackageSystem::Rpm,
            vec![artifact("x86_64-unknown-linux-gnu", "sample-1.2.3-1.x86_64.rpm", "aa")],
        ),
        false,
    );
    let step = begin(&publication);
    let step = go(&publication, step, PublicationEvent::Keys { keys: Vec::new() });
    let step = go(&publication, step, PublicationEvent::Directory { path: text("/tmp/repo") });
    let step = go(&publication, step, PublicationEvent::Done);
    let step = go(&publication, step, PublicationEvent::Done);
    let step = go(
        &publication,
        step,
        PublicationEvent::Files {
            paths: texts(&[
                "/tmp/repo/repodata/zz-primary.xml.gz",
                "/tmp/repo/repodata/repomd.xml",
                "/tmp/repo/repodata/aa-filelists.xml.gz",
                "/tmp/repo/sample/1.2.3-1/sample-1.2.3-1.x86_64.rpm",
            ]),
        },
    );
    let mut step = go(
        &publication,
        step,
        PublicationEvent::Payload { sha256: text("aa"), remote: RemotePayloadState::Missing },
    );
    let mut keys = Vec::new();
    while let PublicationAction::Upload { upload } = &step.action {
        keys.push(upload.key.clone());
        step = go(&publication, step, PublicationEvent::Done);
    }
    assert_eq!(
        keys,
        texts(&[
            "rpm/sample/1.2.3-1/sample-1.2.3-1.x86_64.rpm",
            "rpm/repodata/aa-filelists.xml.gz",
            "rpm/repodata/repomd.xml",
            "rpm/repodata/zz-primary.xml.gz",
        ])
    );
}

#[test]
fn publications_need_their_package_and_their_variables() {
    let mut stranger = brew_manifest();
    stranger.package = text("stranger");
    let start = |manifest: PackageManifest, values: &TextMap<String, String>| {
        begin_publication(&contract(), "/work", "/work/target", &cargo(), values, manifest, false)
    };
    assert_eq!(
        start(stranger, &values()).expect_err("a stranger should be refused").to_string(),
        "failed to resolve package metadata"
    );
    assert_eq!(
        start(brew_manifest(), &TextMap::new())
            .expect_err("missing variables should be refused")
            .to_string(),
        "failed to resolve s3 publish target"
    );
}

fn host() -> BuildHost {
    BuildHost {
        root: text("/work"),
        target_dir: text("/work/target"),
        cargo_home: Some(text("/home/me/.cargo")),
        home: None,
    }
}

fn unit(system: PackageSystem, target: &str) -> PlannedPackageBuild {
    let target = RequestedTarget::Triple(text(target));
    PlannedPackageBuild {
        package_id: PackageId::from_key(text("sample")),
        system,
        target: target.clone(),
        invocation: build_invocation_with_env_values(
            &contract(),
            "sample",
            system,
            target,
            &Vec::new(),
            &values(),
        )
        .expect("invocation should be planned"),
        source_overlay: None,
    }
}

fn build(unit: &PlannedPackageBuild, stage: BuildStage, event: BuildEvent)
    -> Result<(BuildStage, BuildAction), BuildError>
{
    let step = advance_build(&host(), &contract(), &cargo(), unit, stage, event)?;
    Ok((step.stage, step.action))
}

#[test]
fn local_builds_clear_run_and_collect() {
    let unit = unit(PackageSystem::Brew, "aarch64-apple-darwin");
    let step = first_build_step(&host(), &unit);
    let output = "/work/target/aarch64-apple-darwin/release/brew";
    assert_eq!(step.action, BuildAction::ListOutput { directory: text(output) });
    let paths = texts(&[
        "/work/target/aarch64-apple-darwin/release/brew/old.tar.gz",
        "/work/target/aarch64-apple-darwin/release/brew/notes.txt",
    ]);
    let (stage, action) =
        build(&unit, step.stage, BuildEvent::Files { paths }).expect("build should go on");
    assert_eq!(
        action,
        BuildAction::PrepareOutput {
            stale: texts(&["/work/target/aarch64-apple-darwin/release/brew/old.tar.gz"]),
            directory: text(output),
        }
    );
    let (stage, action) = build(&unit, stage, BuildEvent::Done).expect("build should go on");
    let BuildAction::RunScript { script, directory, env } = action else {
        panic!("the script should run");
    };
    assert_eq!(script, "/work/brew/build.sh");
    assert_eq!(directory, "/work");
    assert_eq!(env.value("XTASK_RELEASE_PACKAGE_VERSION"), Some(&text("1.2.3")));
    let (stage, action) = build(&unit, stage, BuildEvent::Done).expect("build should go on");
    assert_eq!(action, BuildAction::ListOutput { directory: text(output) });
    let path = text("/work/target/aarch64-apple-darwin/release/brew/sample.tar.gz");
    let (stage, action) =
        build(&unit, stage, BuildEvent::Files { paths: vec![path.clone()] })
            .expect("build should go on");
    assert_eq!(action, BuildAction::Measure { path });
    let (stage, action) =
        build(&unit, stage, BuildEvent::Measured { size: 7, sha256: text("aa") })
            .expect("build should end");
    assert_eq!(stage, BuildStage::Finished);
    let BuildAction::Finish { artifact } = action else {
        panic!("the build should hand over its artifact");
    };
    assert_eq!(artifact.path, "aarch64-apple-darwin/release/brew/sample.tar.gz");
    assert_eq!(artifact.archive_name, Some(text("sample.tar.gz")));
    assert_eq!((artifact.size, artifact.sha256.as_str()), (7, "aa"));
}

#[test]
fn container_builds_ask_the_image_before_they_run() {
    let mut unit = unit(PackageSystem::Deb, "x86_64-unknown-linux-gnu");
    unit.source_overlay = Some(ContainerOverlayPlan {
        mounts: Vec::new(),
        cargo_config_path: text("/workspace/.cargo/config.toml"),
        cargo_config: text("[patch.crates-io]\n"),
    });
    let (stage, action) =
        build(&unit, BuildStage::Preparing, BuildEvent::Done).expect("build should go on");
    let BuildAction::BuildImage { directory, words } = action else {
        panic!("the image should be built");
    };
    assert_eq!(directory, "/work");
    assert_eq!(words[2], "/work/deb/Dockerfile");
    let image = words[4].clone();
    let (stage, action) = build(&unit, stage, BuildEvent::Done).expect("build should go on");
    let BuildAction::AskImage { words } = action else {
        panic!("the image should be asked");
    };
    assert_eq!(words[4], image);
    let (stage, action) =
        build(&unit, stage, BuildEvent::Text { text: text("/usr/local/cargo\n") })
            .expect("build should go on");
    let BuildAction::ArrangeHost { directories, config } = action else {
        panic!("the host should be arranged");
    };
    assert_eq!(directories, texts(&["/home/me/.cargo/git", "/home/me/.cargo/registry"]));
    let config = config.expect("siblings should be configured");
    assert_eq!(config.path, "/work/target/.genmeta-xtask-release-cargo.toml");
    assert_eq!(config.text, "[patch.crates-io]\n");
    let (stage, action) = build(&unit, stage, BuildEvent::Done).expect("build should go on");
    assert_eq!(stage, BuildStage::Running);
    let BuildAction::RunContainer { words } = action else {
        panic!("the container should run");
    };
    assert!(words.contains(&text("/home/me/.cargo/git:/usr/local/cargo/git")));
    assert!(words.contains(&image));
}

#[test]
fn stated_images_are_not_built() {
    let mut unit = unit(PackageSystem::Deb, "x86_64-unknown-linux-gnu");
    unit.invocation.container =
        Some(PlannedContainer { image: text("debian:bookworm"), build: None });
    let (_, action) =
        build(&unit, BuildStage::Preparing, BuildEvent::Done).expect("build should go on");
    let BuildAction::AskImage { words } = action else {
        panic!("the image should be asked");
    };
    assert_eq!(words[4], "debian:bookworm");
}

#[test]
fn linux_artifacts_tell_about_themselves() {
    let deb = unit(PackageSystem::Deb, "x86_64-unknown-linux-gnu");
    let path = text("/work/target/x86_64-unknown-linux-gnu/release/deb/sample.deb");
    let (stage, action) =
        build(&deb, BuildStage::Collecting, BuildEvent::Files { paths: vec![path.clone()] })
            .expect("build should go on");
    assert_eq!(action, BuildAction::ReadDebFields { path });
    let (stage, _) = build(
        &deb,
        stage,
        BuildEvent::Text {
            text: text("Package: sample\nVersion: 1.2.3-1\nArchitecture: amd64\n"),
        },
    )
    .expect("build should go on");
    let (_, action) = build(&deb, stage, BuildEvent::Measured { size: 1, sha256: text("aa") })
        .expect("build should end");
    let BuildAction::Finish { artifact } = action else {
        panic!("the build should hand over its artifact");
    };
    assert_eq!(artifact.package_version, Some(text("1.2.3-1")));

    let rpm = unit(PackageSystem::Rpm, "x86_64-unknown-linux-gnu");
    let path = text("/work/target/x86_64-unknown-linux-gnu/release/rpm/sample.rpm");
    let (stage, action) =
        build(&rpm, BuildStage::Collecting, BuildEvent::Files { paths: vec![path] })
            .expect("build should go on");
    let BuildAction::QueryRpm { command } = action else {
        panic!("the package should be queried");
    };
    assert_eq!(command.program, "docker");
    let (stage, _) =
        build(&rpm, stage, BuildEvent::Text { text: text("sample\n1.2.3-1\nx86_64\n") })
            .expect("build should go on");
    let (_, action) = build(&rpm, stage, BuildEvent::Measured { size: 1, sha256: text("aa") })
        .expect("build should end");
    let BuildAction::Finish { artifact } = action else {
        panic!("the build should hand over its artifact");
    };
    assert_eq!(artifact.architecture, Some(text("x86_64")));
}

#[test]
fn builds_are_refused_where_the_host_or_the_output_lacks_something() {
    let unit = unit(PackageSystem::Deb, "x86_64-unknown-linux-gnu");
    let output = text("/work/target/x86_64-unknown-linux-gnu/release/deb");
    assert_eq!(
        build(&unit, BuildStage::Collecting, BuildEvent::Files { paths: Vec::new() }),
        Err(BuildError::Refused {
            source: RunCurrentDirError::MissingArtifact { path: output.clone() },
        })
    );
    assert_eq!(
        build(
            &unit,
            BuildStage::Collecting,
            BuildEvent::Files { paths: texts(&["/out/a.deb", "/out/b.deb"]) },
        ),
        Err(BuildError::Refused { source: RunCurrentDirError::MultipleArtifacts { path: output } })
    );
    let asking = || BuildStage::Asking { image: text("image"), env: TextMap::new() };
    assert_eq!(
        build(&unit, asking(), BuildEvent::Text { text: text(" \n") }),
        Err(BuildError::Refused {
            source: RunCurrentDirError::MissingContainerCargoHome { image: text("image") },
        })
    );
    let homeless = BuildHost {
        root: text("/work"),
        target_dir: text("/work/target"),
        cargo_home: None,
        home: None,
    };
    let refused = advance_build(
        &homeless,
        &contract(),
        &cargo(),
        &unit,
        asking(),
        BuildEvent::Text { text: text("/usr/local/cargo") },
    )
    .expect_err("a host without a home should be refused");
    assert_eq!(
        refused,
        BuildError::Refused { source: RunCurrentDirError::MissingHostCargoHome }
    );
    assert_eq!(refused.to_string(), "failed to build package");
    assert_eq!(
        build(&unit, BuildStage::Running, BuildEvent::Text { text: text("") })
            .expect_err("another event should be refused")
            .to_string(),
        "build does not wait for this event"
    );
}

#[test]
fn artifacts_are_grouped_by_their_system() {
    let built = |system: PackageSystem, name: &str| BuiltArtifact {
        system,
        artifact: artifact("x86_64-unknown-linux-gnu", name, "aa"),
    };
    let groups = artifacts_by_system(&vec![
        built(PackageSystem::Scoop, "sample.zip"),
        built(PackageSystem::Deb, "first.deb"),
        built(PackageSystem::Deb, "second.deb"),
    ]);
    assert_eq!(groups.len(), 2);
    assert_eq!(groups[0].system, PackageSystem::Deb);
    assert_eq!(groups[0].artifacts[1].archive_name, Some(text("second.deb")));
    assert_eq!(groups[1].system, PackageSystem::Scoop);
    assert_eq!(groups[1].artifacts.len(), 1);
}
