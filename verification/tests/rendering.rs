use genmeta_xtask_release::brew::brew_template_variables;
use genmeta_xtask_release::channel::ReleaseChannel;
use genmeta_xtask_release::manifest::{PackageArtifact, PackageManifest};
use genmeta_xtask_release::package::{PackageId, ResolvedPackageMetadata};
use genmeta_xtask_release::publish::PublicBaseUrl;
use genmeta_xtask_release::requirements::{linux_requirement_entries, ResolvedVersionBounds};
use genmeta_xtask_release::scoop::{scoop_manifest, scoop_template_variables, JsonText};
use genmeta_xtask_release::sibling::{
    container_overlay_plan, render_cargo_patch_config, ContainerMount, PatchOverride, PatchSource,
    SiblingSource,
};
use genmeta_xtask_release::system::PackageSystem;
use genmeta_xtask_release::template::{
    build_feature_variables, package_template_variables, render_template, ruby_string,
};
use genmeta_xtask_release::textmap::TextMap;
use genmeta_xtask_release::version::SourceVersion;

fn text(value: &str) -> String {
    value.to_string()
}

fn id(value: &str) -> PackageId {
    PackageId::new(value).expect("package id should parse")
}

fn metadata(description: &str, repository: Option<&str>) -> ResolvedPackageMetadata {
    ResolvedPackageMetadata {
        source_version: SourceVersion::parse("1.2.3").unwrap(),
        description: text(description),
        license: text("Apache-2.0"),
        homepage: text("https://dhttp.net"),
        repository: repository.map(text),
    }
}

fn archive(target: &str, path: &str, sha256: &str, name: &str, features: &[&str])
    -> PackageArtifact {
    PackageArtifact {
        target: text(target),
        path: text(path),
        sha256: text(sha256),
        size: 1,
        package_name: None,
        package_version: None,
        architecture: None,
        archive_name: Some(text(name)),
        features: features.iter().map(|feature| feature.to_string()).collect(),
        profile: Some(text("release")),
    }
}

fn manifest(kind: PackageSystem, package: &str, artifacts: Vec<PackageArtifact>)
    -> PackageManifest {
    PackageManifest {
        schema_version: 1,
        kind,
        package: text(package),
        version: text("1.2.3"),
        generated_at: text("2026-06-29T00:00:00Z"),
        git_commit: None,
        git_dirty: false,
        artifacts,
    }
}

fn variables(entries: &[(&str, &str)]) -> TextMap<String, String> {
    let mut map = TextMap::new();
    for (name, value) in entries {
        map.insert(text(name), text(value));
    }
    map
}

fn base(url: &str) -> PublicBaseUrl {
    PublicBaseUrl::parse(url).expect("base url should parse")
}

#[test]
fn stable_version_selects_stable_channel() {
    let version = SourceVersion::parse("0.8.0").expect("version should parse");

    assert_eq!(ReleaseChannel::from_version(&version), ReleaseChannel::Stable);
}

#[test]
fn prerelease_versions_select_preview_channel() {
    for input in ["0.8.0-alpha.1", "0.8.0-beta.1", "0.8.0-rc.1"] {
        let version = SourceVersion::parse(input).expect("version should parse");

        assert_eq!(ReleaseChannel::from_version(&version), ReleaseChannel::Preview);
    }
}

#[test]
fn channel_names_are_release_contract_names() {
    assert_eq!(ReleaseChannel::Stable.as_str(), "stable");
    assert_eq!(ReleaseChannel::Preview.as_str(), "preview");
}

#[test]
fn linux_requires_render_deb_bounds_as_package_relations() {
    let entries = linux_requirement_entries(
        PackageSystem::Deb,
        "sample-common",
        ResolvedVersionBounds { minimum: Some(text("0.5.1-1")), maximum: Some(text("0.7.0-1")) },
    )
    .expect("deb requires should render");

    assert_eq!(
        entries,
        vec![
            "sample-common (>= 0.5.1-1)".to_string(),
            "sample-common (<= 0.7.0-1)".to_string(),
        ]
    );
}

#[test]
fn linux_requires_render_rpm_bounds_as_package_relations() {
    let entries = linux_requirement_entries(
        PackageSystem::Rpm,
        "sample-common",
        ResolvedVersionBounds { minimum: Some(text("0.5.1-1")), maximum: Some(text("0.7.0-1")) },
    )
    .expect("rpm requires should render");

    assert_eq!(
        entries,
        vec![
            "sample-common >= 0.5.1-1".to_string(),
            "sample-common <= 0.7.0-1".to_string(),
        ]
    );
}

#[test]
fn linux_requires_reject_non_linux_package_systems() {
    let error = linux_requirement_entries(
        PackageSystem::Brew,
        "sample-common",
        ResolvedVersionBounds { minimum: Some(text("0.5.1")), maximum: None },
    )
    .expect_err("brew requires should not render as linux dependency entries");

    assert_eq!(
        error.to_string(),
        "brew branch does not support linux dependency entries"
    );
}

#[test]
fn sibling_patch_config_is_generated_only_from_cli_patch_arguments() {
    let config = render_cargo_patch_config(&vec![
        PatchOverride {
            source: PatchSource::CratesIo,
            package: text("dhttp"),
            sibling: text("dhttp"),
            relative_path: text("dhttp"),
        },
        PatchOverride {
            source: PatchSource::Git(text("https://github.com/genmeta/dhttp.git")),
            package: text("dhttp-access"),
            sibling: text("dhttp"),
            relative_path: text("access"),
        },
    ]);

    assert!(config.contains("[patch.crates-io]"));
    assert!(config.contains("dhttp = { path = \"/sources/dhttp/dhttp\" }"));
    assert!(config.contains("[patch.\"https://github.com/genmeta/dhttp.git\"]"));
    assert!(config.contains("dhttp-access = { path = \"/sources/dhttp/access\" }"));
    assert!(!config.contains("h3x"));
    assert!(!config.contains("rankey"));
}

#[test]
fn sibling_container_plan_mounts_cli_sources_and_writes_container_patch_config() {
    let plan = container_overlay_plan(
        &vec![
            SiblingSource { name: text("dhttp"), host_path: text("/workspace/dhttp") },
            SiblingSource { name: text("h3x"), host_path: text("/workspace/h3x") },
        ],
        &vec![
            PatchOverride {
                source: PatchSource::CratesIo,
                package: text("dhttp"),
                sibling: text("dhttp"),
                relative_path: text("."),
            },
            PatchOverride {
                source: PatchSource::Git(text("https://example.invalid/h3x.git")),
                package: text("h3x"),
                sibling: text("h3x"),
                relative_path: text("h3x"),
            },
        ],
    )
    .expect("container overlay should plan");

    assert_eq!(
        plan.mounts,
        vec![
            ContainerMount {
                source: text("/workspace/dhttp"),
                destination: text("/sources/dhttp"),
                read_only: true,
            },
            ContainerMount {
                source: text("/workspace/h3x"),
                destination: text("/sources/h3x"),
                read_only: true,
            },
        ]
    );
    assert_eq!(plan.cargo_config_path, "/opt/cargo/config.toml");
    assert!(plan.cargo_config.contains("dhttp = { path = \"/sources/dhttp/.\" }"));
    assert!(plan.cargo_config.contains("h3x = { path = \"/sources/h3x/h3x\" }"));
}

#[test]
fn patches_name_a_sibling_that_is_mounted() {
    let refused = container_overlay_plan(
        &vec![SiblingSource { name: text("dhttp"), host_path: text("/workspace/dhttp") }],
        &vec![PatchOverride {
            source: PatchSource::CratesIo,
            package: text("h3x"),
            sibling: text("h3x"),
            relative_path: text("."),
        }],
    );
    assert!(refused.is_err());
}

#[test]
fn template_renders_named_variables_with_whitespace() {
    let variables = variables(&[("package.name", "sample"), ("package.version", "1.2.3")]);

    let rendered = render_template("{{ package.name }} {{package.version}}", &variables)
        .expect("template should render");

    assert_eq!(rendered, "sample 1.2.3");
}

#[test]
fn template_rejects_missing_variables() {
    let error = render_template("{{package.name}}", &TextMap::new())
        .expect_err("missing variable should fail");

    assert_eq!(error.to_string(), "template variable package.name is not defined");
}

#[test]
fn template_rejects_unclosed_placeholder() {
    let error = render_template("{{name", &variables(&[("name", "sample")]))
        .expect_err("placeholder should fail");

    assert_eq!(error.to_string(), "template contains unresolved placeholders");
}

#[test]
fn templates_without_placeholders_are_kept() {
    assert_eq!(
        render_template("class Sample < Formula\nend\n", &TextMap::new()),
        Ok(text("class Sample < Formula\nend\n"))
    );
}

#[test]
fn ruby_string_escapes_backslash_and_quote() {
    assert_eq!(ruby_string("a\\\"b"), "a\\\\\\\"b");
}

#[test]
fn build_feature_variables_are_derived_from_manifest_artifacts() {
    let manifest = manifest(
        PackageSystem::Brew,
        "sample",
        vec![
            archive(
                "aarch64-apple-darwin",
                "aarch64/release/sample.tar.gz",
                "a",
                "sample-aarch64.tar.gz",
                &["beta", "alpha"],
            ),
            archive(
                "x86_64-apple-darwin",
                "x86_64/release/sample.tar.gz",
                "b",
                "sample-x86_64.tar.gz",
                &["alpha"],
            ),
        ],
    );

    let variables = build_feature_variables(&manifest);

    assert_eq!(variables.get("build.features.csv").map(String::as_str), Some("alpha,beta"));
    assert_eq!(
        variables.get("build.features.ruby_array").map(String::as_str),
        Some("[\"alpha\", \"beta\"]")
    );
}

#[test]
fn package_template_variables_use_package_id_and_resolved_metadata() {
    let variables = package_template_variables(
        &id("gmutils"),
        &metadata("Sample \"tool\"", Some("https://github.com/genmeta/sample")),
    );

    assert_eq!(variables.get("package.name").map(String::as_str), Some("gmutils"));
    assert_eq!(variables.get("package.version").map(String::as_str), Some("1.2.3"));
    assert_eq!(
        variables.get("package.description").map(String::as_str),
        Some("Sample \\\"tool\\\"")
    );
    assert_eq!(variables.get("package.license").map(String::as_str), Some("Apache-2.0"));
    assert_eq!(variables.get("package.homepage").map(String::as_str), Some("https://dhttp.net"));
}

fn sample_tool_archives() -> Vec<PackageArtifact> {
    vec![
        archive(
            "aarch64-apple-darwin",
            "aarch64-apple-darwin/release/brew/sample-tool.tar.gz",
            "arm-sha",
            "sample-tool-aarch64.tar.gz",
            &["beta", "alpha"],
        ),
        archive(
            "x86_64-apple-darwin",
            "x86_64-apple-darwin/release/brew/sample-tool.tar.gz",
            "intel-sha",
            "sample-tool-x86_64.tar.gz",
            &["alpha"],
        ),
    ]
}

#[test]
fn brew_template_variables_encode_formula_class_and_urls() {
    let manifest = manifest(PackageSystem::Brew, "sample-tool", sample_tool_archives());

    let variables = brew_template_variables(
        &id("sample-tool"),
        &metadata("Sample tool", None),
        &manifest,
        &base("https://download.example/brew/"),
    )
    .expect("variables should resolve");

    assert_eq!(variables.get("brew.class").map(String::as_str), Some("SampleTool"));
    assert_eq!(variables.get("package.version").map(String::as_str), Some("1.2.3"));
    assert_eq!(
        variables.get("brew.urls").map(String::as_str),
        Some(
            "  on_arm do\n    url \"https://download.example/brew/sample-tool-aarch64.tar.gz\"\n    sha256 \"arm-sha\"\n  end\n\n  on_intel do\n    url \"https://download.example/brew/sample-tool-x86_64.tar.gz\"\n    sha256 \"intel-sha\"\n  end"
        )
    );
    assert_eq!(variables.get("build.features.csv").map(String::as_str), Some("alpha,beta"));
    assert_eq!(
        variables.get("build.features.ruby_array").map(String::as_str),
        Some("[\"alpha\", \"beta\"]")
    );
}

fn one_archive(kind: PackageSystem) -> PackageManifest {
    manifest(
        kind,
        "sample",
        vec![archive(
            "aarch64-apple-darwin",
            "aarch64-apple-darwin/release/brew/sample.tar.gz",
            "0",
            "sample.tar.gz",
            &[],
        )],
    )
}

#[test]
fn brew_template_variables_reject_non_brew_manifest() {
    let error = brew_template_variables(
        &id("sample"),
        &metadata("Sample", None),
        &one_archive(PackageSystem::Deb),
        &base("https://download.example/brew"),
    )
    .expect_err("non-brew manifest should fail");

    assert_eq!(error.to_string(), "brew formula requires brew package manifest");
}

#[test]
fn brew_template_variables_require_archive_name() {
    let mut manifest = one_archive(PackageSystem::Brew);
    manifest.artifacts[0].archive_name = None;

    let error = brew_template_variables(
        &id("sample"),
        &metadata("Sample", None),
        &manifest,
        &base("https://download.example/brew"),
    )
    .expect_err("missing archive name should fail");

    assert_eq!(error.to_string(), "brew package artifact is missing archive name");
}

fn windows_manifest(features: &[&str]) -> PackageManifest {
    manifest(
        PackageSystem::Scoop,
        "sample-tool",
        vec![archive(
            "x86_64-pc-windows-msvc",
            "x86_64-pc-windows-msvc/release/scoop/sample-tool.zip",
            "sample-sha",
            "sample-tool-x86_64.zip",
            features,
        )],
    )
}

#[test]
fn scoop_template_variables_expose_manifest_and_branch_values() {
    let variables = scoop_template_variables(
        &id("sample-tool"),
        &metadata("Sample tool", None),
        &windows_manifest(&["alpha"]),
        &base("https://download.example/scoop"),
        &vec![text("sample-tool.exe")],
    )
    .expect("scoop template variables should resolve");

    assert_eq!(variables.get("package.name").map(String::as_str), Some("sample-tool"));
    assert_eq!(variables.get("build.features.csv").map(String::as_str), Some("alpha"));
    assert_eq!(
        variables.get("scoop.bin.json").map(String::as_str),
        Some("[\n  \"sample-tool.exe\"\n]")
    );
    assert_eq!(
        variables.get("scoop.architecture.json").map(String::as_str),
        Some(
            "{\n  \"64bit\": {\n    \"hash\": \"sample-sha\",\n    \"url\": \"https://download.example/scoop/sample-tool-x86_64.zip\"\n  }\n}"
        )
    );
}

fn field(fields: &Vec<JsonText>, name: &str) -> String {
    fields.iter().find(|field| field.name == name).expect("field should exist").text.clone()
}

#[test]
fn render_scoop_json_uses_branch_bin_and_public_base_url() {
    let found = scoop_manifest(
        &id("sample-tool"),
        &metadata("Sample tool", None),
        &windows_manifest(&[]),
        &base("https://download.example/scoop"),
        &vec![text("sample-tool.exe"), text("sample-helper.bat")],
    )
    .expect("scoop manifest should resolve");

    assert_eq!(found.version, "1.2.3");
    assert_eq!(found.description, "Sample tool");
    assert_eq!(found.bin[0], "sample-tool.exe");
    assert_eq!(found.bin[1], "sample-helper.bat");
    assert_eq!(found.architecture[0].name, "64bit");
    assert_eq!(
        field(&found.architecture[0].fields, "url"),
        "https://download.example/scoop/sample-tool-x86_64.zip"
    );
    assert_eq!(field(&found.architecture[0].fields, "hash"), "sample-sha");
    assert_eq!(found.checkver.url, "https://download.example/scoop/sample-tool.json");
    assert_eq!(found.autoupdate[0].name, "64bit");
    assert_eq!(
        field(&found.autoupdate[0].fields, "url"),
        "https://download.example/scoop/sample-tool-x86_64.zip"
    );
}

#[test]
fn scoop_manifests_name_what_they_install() {
    let unnamed = scoop_manifest(
        &id("sample-tool"),
        &metadata("Sample tool", None),
        &windows_manifest(&[]),
        &base("https://download.example/scoop"),
        &Vec::new(),
    );
    assert!(unnamed.is_err());
}
