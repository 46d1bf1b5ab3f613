use genmeta_xtask_release::cli::{
    package_section_args, parse_feature, parse_package_system, parse_package_system_sections,
    parse_patch_override, parse_requested_target, parse_sibling_source, CommandToken,
    PackageSectionOptions, ParsePackageSectionArgsError,
};
use genmeta_xtask_release::sibling::{
    ContainerMount, PatchOverride, PatchSource, SiblingSource,
};
use genmeta_xtask_release::system::{PackageSystem, RequestedTarget};

fn text(value: &str) -> String {
    value.to_string()
}

fn os(value: &str) -> CommandToken {
    CommandToken::Text(text(value))
}

fn tokens(words: &[&str]) -> Vec<CommandToken> {
    words.iter().map(|word| os(word)).collect()
}

fn options(targets: &[&str]) -> PackageSectionOptions {
    PackageSectionOptions {
        targets: targets
            .iter()
            .map(|target| parse_requested_target(target).expect("target should parse"))
            .collect(),
        features: Vec::new(),
        siblings: Vec::new(),
        patches: Vec::new(),
        debug: false,
    }
}

#[test]
fn parses_grouped_package_system_sections() {
    let sections = parse_package_system_sections(&tokens(&[
        "deb",
        "--target",
        "x86_64-unknown-linux-gnu",
        "--target",
        "aarch64-unknown-linux-gnu",
        "rpm",
        "--target",
        "common",
        "brew",
        "--target",
        "aarch64-apple-darwin",
    ]))
    .expect("grouped package-system sections should parse");

    assert_eq!(sections.len(), 3);
    assert_eq!(sections[0].system, PackageSystem::Deb);
    assert_eq!(
        sections[0].args,
        [
            os("--target"),
            os("x86_64-unknown-linux-gnu"),
            os("--target"),
            os("aarch64-unknown-linux-gnu"),
        ]
    );
    assert_eq!(sections[1].system, PackageSystem::Rpm);
    assert_eq!(sections[1].args, [os("--target"), os("common")]);
    assert_eq!(sections[2].system, PackageSystem::Brew);
    assert_eq!(sections[2].args, [os("--target"), os("aarch64-apple-darwin")]);
}

#[test]
fn preserves_repeated_options_inside_package_system_section() {
    let sections = parse_package_system_sections(&tokens(&[
        "scoop",
        "--target",
        "x86_64-pc-windows-msvc",
        "--target",
        "i686-pc-windows-msvc",
        "--sibling",
        "/workspace/dhttp",
        "--sibling",
        "/workspace/h3x",
    ]))
    .expect("repeated options should remain scoped to the section");

    assert_eq!(sections.len(), 1);
    assert_eq!(sections[0].system, PackageSystem::Scoop);
    assert_eq!(
        sections[0].args,
        [
            os("--target"),
            os("x86_64-pc-windows-msvc"),
            os("--target"),
            os("i686-pc-windows-msvc"),
            os("--sibling"),
            os("/workspace/dhttp"),
            os("--sibling"),
            os("/workspace/h3x"),
        ]
    );
}

#[test]
fn rejects_arguments_before_first_package_system() {
    let error = parse_package_system_sections(&tokens(&["--target", "x86_64-unknown-linux-gnu"]))
        .expect_err("arguments before a package-system section should fail");

    assert_eq!(error.to_string(), "expected a package system before argument --target");
}

#[test]
fn rejects_unknown_package_system() {
    let error = parse_package_system_sections(&tokens(&["homebrew"]))
        .expect_err("unknown package system should fail");

    assert_eq!(error.to_string(), "unknown package system homebrew");
}

#[test]
fn sections_need_a_readable_package_system() {
    assert_eq!(
        parse_package_system_sections(&Vec::new())
            .expect_err("no words should fail")
            .to_string(),
        "at least one package system is required"
    );
    assert_eq!(
        parse_package_system_sections(&vec![CommandToken::Raw(vec![0xff])])
            .expect_err("bytes that are no text should fail")
            .to_string(),
        "package system name must be utf-8"
    );
    let sections =
        parse_package_system_sections(&vec![os("deb"), CommandToken::Raw(vec![0xff])])
            .expect("bytes that are no text may be an argument");
    assert_eq!(sections[0].args, [CommandToken::Raw(vec![0xff])]);
}

#[test]
fn parses_package_section_args_without_restricting_target_or_feature_values() {
    let mut read = options(&["common", "aarch64-unknown-linux-gnu"]);
    read.features = vec![
        parse_feature("sshd").expect("feature should parse"),
        parse_feature("pam").expect("feature should parse"),
    ];
    read.siblings = tokens(&["/workspace/dhttp"]);
    read.debug = true;
    let args = package_section_args(read).expect("package section args should parse");

    assert_eq!(
        args.targets,
        [
            RequestedTarget::Common,
            RequestedTarget::Triple(text("aarch64-unknown-linux-gnu")),
        ]
    );
    assert_eq!(args.features, [text("sshd"), text("pam")]);
    assert_eq!(args.siblings, [os("/workspace/dhttp")]);
    assert!(args.debug);
}

fn with_overlay() -> PackageSectionOptions {
    let mut read = options(&["x86_64-unknown-linux-gnu"]);
    read.siblings = tokens(&["dhttp=/workspace/dhttp"]);
    read.patches = vec![text("crates-io"), text("dhttp"), text("dhttp/dhttp")];
    read
}

#[test]
fn package_section_args_parse_explicit_sibling_sources_and_patch_overrides() {
    let mut read = with_overlay();
    read.patches.push(text("https://github.com/genmeta/dhttp.git"));
    read.patches.push(text("dhttp-access"));
    read.patches.push(text("dhttp/access"));
    let args = package_section_args(read)
        .expect("package section args should parse explicit sibling overlays");

    assert_eq!(
        args.sibling_sources,
        [SiblingSource { name: text("dhttp"), host_path: text("/workspace/dhttp") }]
    );
    assert_eq!(
        args.patches,
        [
            PatchOverride {
                source: PatchSource::CratesIo,
                package: text("dhttp"),
                sibling: text("dhttp"),
                relative_path: text("dhttp"),
            },
            PatchOverride {
                source: PatchSource::Git(text("https://github.com/genmeta/dhttp.git")),
                package: text("dhttp-access"),
                sibling: text("dhttp"),
                relative_path: text("access"),
            },
        ]
    );
}

#[test]
fn package_section_args_render_explicit_sibling_overlay_plan() {
    let args = package_section_args(with_overlay())
        .expect("package section args should parse explicit sibling overlays");

    let overlay = args
        .container_overlay_plan()
        .expect("explicit sibling overlay should plan")
        .expect("explicit sibling overlay should exist");

    assert_eq!(
        overlay.mounts,
        [ContainerMount {
            source: text("/workspace/dhttp"),
            destination: text("/sources/dhttp"),
            read_only: true,
        }]
    );
    assert_eq!(
        overlay.cargo_config,
        "[patch.crates-io]\ndhttp = { path = \"/sources/dhttp/dhttp\" }\n\n"
    );
}

#[test]
fn package_section_args_overlay_with_primary_mounts_primary_and_explicit_siblings() {
    let args = package_section_args(with_overlay())
        .expect("package section args should parse explicit sibling overlays");

    let overlay = args
        .container_overlay_plan_with_primary(SiblingSource {
            name: text("gmutils"),
            host_path: text("/workspace/gmutils"),
        })
        .expect("primary source overlay should plan")
        .expect("primary source overlay should exist");

    assert_eq!(
        overlay.mounts,
        [
            ContainerMount {
                source: text("/workspace/gmutils"),
                destination: text("/sources/gmutils"),
                read_only: true,
            },
            ContainerMount {
                source: text("/workspace/dhttp"),
                destination: text("/sources/dhttp"),
                read_only: true,
            },
        ]
    );
    assert_eq!(
        overlay.cargo_config,
        "[patch.crates-io]\ndhttp = { path = \"/sources/dhttp/dhttp\" }\n\n"
    );
}

#[test]
fn sections_without_siblings_have_no_overlay() {
    let args = package_section_args(options(&["common"])).expect("args should parse");
    assert_eq!(args.container_overlay_plan(), Ok(None));
}

#[test]
fn words_of_a_section_are_refused_one_by_one() {
    assert!(parse_requested_target("").is_err());
    assert!(parse_feature("").is_err());
    assert!(parse_package_system("apt").is_err());
    assert_eq!(parse_package_system("rpm"), Ok(PackageSystem::Rpm));
    assert_eq!(
        parse_sibling_source(&os("=/workspace/dhttp")),
        Err(ParsePackageSectionArgsError::InvalidSiblingSource {
            value: text("=/workspace/dhttp"),
        })
    );
    assert_eq!(
        parse_sibling_source(&os("/workspace/dhttp/")),
        Ok(Some(SiblingSource { name: text("dhttp"), host_path: text("/workspace/dhttp/") }))
    );
    assert_eq!(parse_sibling_source(&CommandToken::Raw(vec![0xff])), Ok(None));
    assert_eq!(
        parse_patch_override("", "dhttp", "dhttp"),
        Err(ParsePackageSectionArgsError::InvalidPatchOverride)
    );
    assert_eq!(
        parse_patch_override("crates-io", "dhttp", "/dhttp"),
        Err(ParsePackageSectionArgsError::InvalidPatchPath)
    );
    assert_eq!(
        parse_patch_override("crates-io", "dhttp", "dhttp").expect("patch should parse").relative_path,
        "."
    );
}
