//! Laws of what a build is told and what becomes of its output.

use vstd::prelude::*;

use crate::building::{
    build_advanced, build_opening, BuildActionView, BuildErrorView, BuildEventView, BuildHostView,
    BuildStageView,
};
use crate::contract::{package_of, ReleaseContract};
use crate::laws::paths::{lemma_paths_are_found_below, lemma_paths_are_joined};
use crate::package::{metadata_of, CargoMetadataView};
use crate::path::{path_below, path_extension, path_file_name, path_join, path_parent};
use crate::plan::PlannedPackageBuildView;
use crate::publish::{field_value, line_value};
use crate::runner::{
    artifact_paths, line_at, names_artifact, output_directory, unit_env, PackageFileMetadataView,
};
use crate::system::{system_name, PackageSystem, RequestedTargetView};
use crate::text::{has_prefix, text_lines, trimmed_space};
use crate::version::SourceVersionView;

verus! {

/// The name of a package system.
pub open spec fn is_named(system: PackageSystem, name: Seq<char>) -> bool {
    match system {
        PackageSystem::Deb => name == "deb"@,
        PackageSystem::Rpm => name == "rpm"@,
        PackageSystem::Brew => name == "brew"@,
        PackageSystem::Scoop => name == "scoop"@,
    }
}

/// Whether a directory is the one that a build puts its artifact in: below the target and the
/// profile that it is for, or below the common directory, under the name of the package system.
pub open spec fn is_output_directory(
    target_dir: Seq<char>,
    unit: PlannedPackageBuildView,
    directory: Seq<char>,
) -> bool {
    exists|name: Seq<char>| #[trigger]
        is_named(unit.system, name) && directory == path_join(
            match unit.target {
                RequestedTargetView::Common => path_join(target_dir, "common"@),
                RequestedTargetView::Triple(triple) => path_join(
                    path_join(target_dir, triple),
                    if unit.invocation.env.contains_key("XTASK_RELEASE_PROFILE"@) {
                        unit.invocation.env["XTASK_RELEASE_PROFILE"@]
                    } else {
                        "release"@
                    },
                ),
            },
            name,
        )
}

proof fn lemma_told_names()
    ensures
        "XTASK_RELEASE_CONTRACT_ROOT"@ != "XTASK_RELEASE_REPO_ROOT"@,
        "XTASK_RELEASE_CONTRACT_ROOT"@ != "XTASK_RELEASE_TARGET_DIR"@,
        "XTASK_RELEASE_CONTRACT_ROOT"@ != "XTASK_RELEASE_OUT_DIR"@,
        "XTASK_RELEASE_CONTRACT_ROOT"@ != "XTASK_RELEASE_SOURCE_VERSION"@,
        "XTASK_RELEASE_CONTRACT_ROOT"@ != "XTASK_RELEASE_PACKAGE_VERSION"@,
        "XTASK_RELEASE_CONTRACT_ROOT"@ != "XTASK_RELEASE_REQUIRES"@,
        "XTASK_RELEASE_REPO_ROOT"@ != "XTASK_RELEASE_TARGET_DIR"@,
        "XTASK_RELEASE_REPO_ROOT"@ != "XTASK_RELEASE_OUT_DIR"@,
        "XTASK_RELEASE_REPO_ROOT"@ != "XTASK_RELEASE_SOURCE_VERSION"@,
        "XTASK_RELEASE_REPO_ROOT"@ != "XTASK_RELEASE_PACKAGE_VERSION"@,
        "XTASK_RELEASE_REPO_ROOT"@ != "XTASK_RELEASE_REQUIRES"@,
        "XTASK_RELEASE_TARGET_DIR"@ != "XTASK_RELEASE_OUT_DIR"@,
        "XTASK_RELEASE_TARGET_DIR"@ != "XTASK_RELEASE_SOURCE_VERSION"@,
        "XTASK_RELEASE_TARGET_DIR"@ != "XTASK_RELEASE_PACKAGE_VERSION"@,
        "XTASK_RELEASE_TARGET_DIR"@ != "XTASK_RELEASE_REQUIRES"@,
        "XTASK_RELEASE_OUT_DIR"@ != "XTASK_RELEASE_SOURCE_VERSION"@,
        "XTASK_RELEASE_OUT_DIR"@ != "XTASK_RELEASE_PACKAGE_VERSION"@,
        "XTASK_RELEASE_OUT_DIR"@ != "XTASK_RELEASE_REQUIRES"@,
        "XTASK_RELEASE_SOURCE_VERSION"@ != "XTASK_RELEASE_PACKAGE_VERSION"@,
        "XTASK_RELEASE_SOURCE_VERSION"@ != "XTASK_RELEASE_REQUIRES"@,
        "XTASK_RELEASE_PACKAGE_VERSION"@ != "XTASK_RELEASE_REQUIRES"@,
{
    reveal_strlit("XTASK_RELEASE_CONTRACT_ROOT");
    reveal_strlit("XTASK_RELEASE_REPO_ROOT");
    reveal_strlit("XTASK_RELEASE_TARGET_DIR");
    reveal_strlit("XTASK_RELEASE_OUT_DIR");
    reveal_strlit("XTASK_RELEASE_SOURCE_VERSION");
    reveal_strlit("XTASK_RELEASE_PACKAGE_VERSION");
    reveal_strlit("XTASK_RELEASE_REQUIRES");
    assert("XTASK_RELEASE_CONTRACT_ROOT"@[14] == 'C');
    assert("XTASK_RELEASE_REPO_ROOT"@[14] == 'R' && "XTASK_RELEASE_REPO_ROOT"@[16] == 'P');
    assert("XTASK_RELEASE_TARGET_DIR"@[14] == 'T');
    assert("XTASK_RELEASE_OUT_DIR"@[14] == 'O');
    assert("XTASK_RELEASE_SOURCE_VERSION"@[14] == 'S');
    assert("XTASK_RELEASE_PACKAGE_VERSION"@[14] == 'P');
    assert("XTASK_RELEASE_REQUIRES"@[14] == 'R' && "XTASK_RELEASE_REQUIRES"@[16] == 'Q');
}

/// A build is told where the contract stands, where it sees the repository and the target
/// directory, where it puts its artifact, and which version it makes: in a container as the
/// container sees them, else as the host does. Everything else it is told as it was planned.
pub proof fn lemma_builds_are_told_where_they_are(
    contract: ReleaseContract,
    root: Seq<char>,
    target_dir: Seq<char>,
    cargo: Map<Seq<char>, CargoMetadataView>,
    unit: PlannedPackageBuildView,
)
    ensures
        unit_env(contract, root, target_dir, cargo, unit) matches Ok(env) ==> {
            let inside = unit.invocation.container is Some;
            &&& env.contains_key("XTASK_RELEASE_CONTRACT_ROOT"@)
                && env["XTASK_RELEASE_CONTRACT_ROOT"@] == root
            &&& env.contains_key("XTASK_RELEASE_REPO_ROOT"@) && env["XTASK_RELEASE_REPO_ROOT"@]
                == if inside {
                "/workspace"@
            } else {
                root
            }
            &&& env.contains_key("XTASK_RELEASE_TARGET_DIR"@) && env["XTASK_RELEASE_TARGET_DIR"@]
                == if inside {
                "/workspace/target"@
            } else {
                target_dir
            }
            &&& env.contains_key("XTASK_RELEASE_OUT_DIR"@)
            &&& !inside ==> is_output_directory(
                target_dir,
                unit,
                env["XTASK_RELEASE_OUT_DIR"@],
            )
            &&& inside ==> exists|directory: Seq<char>| #[trigger]
                is_output_directory(target_dir, unit, directory) && (path_below(
                    directory,
                    target_dir,
                ) matches Some(rest) ==> env["XTASK_RELEASE_OUT_DIR"@] == path_join(
                    path_join("/workspace"@, "target"@),
                    rest,
                ))
            &&& metadata_of(contract, unit.package_id, root, cargo) matches Ok(metadata)
            &&& env.contains_key("XTASK_RELEASE_SOURCE_VERSION"@)
                && env["XTASK_RELEASE_SOURCE_VERSION"@] == metadata.source_version.text()
            &&& env.contains_key("XTASK_RELEASE_PACKAGE_VERSION"@)
            &&& package_of(contract, unit.package_id) matches Some(package)
            &&& unit.system is Deb ==> (package.deb matches Some(branch)
                && env["XTASK_RELEASE_PACKAGE_VERSION"@] == metadata.source_version.linux_text()
                + "-"@ + branch.revision@)
            &&& unit.system is Rpm ==> (package.rpm matches Some(branch)
                && env["XTASK_RELEASE_PACKAGE_VERSION"@] == metadata.source_version.linux_text()
                + "-"@ + branch.release@)
            &&& unit.system is Brew || unit.system is Scoop
                ==> env["XTASK_RELEASE_PACKAGE_VERSION"@] == metadata.source_version.text()
            &&& unit.system is Brew || unit.system is Scoop ==> env.contains_key(
                "XTASK_RELEASE_REQUIRES"@,
            ) == unit.invocation.env.contains_key("XTASK_RELEASE_REQUIRES"@)
                && env["XTASK_RELEASE_REQUIRES"@]
                == unit.invocation.env["XTASK_RELEASE_REQUIRES"@]
            &&& forall|name: Seq<char>|
                name != "XTASK_RELEASE_CONTRACT_ROOT"@ && name != "XTASK_RELEASE_REPO_ROOT"@
                    && name != "XTASK_RELEASE_TARGET_DIR"@ && name != "XTASK_RELEASE_OUT_DIR"@
                    && name != "XTASK_RELEASE_SOURCE_VERSION"@ && name
                    != "XTASK_RELEASE_PACKAGE_VERSION"@ && name != "XTASK_RELEASE_REQUIRES"@
                    ==> #[trigger] env.contains_key(name) == unit.invocation.env.contains_key(name)
                    && env[name] == unit.invocation.env[name]
        },
{
    lemma_told_names();
    if let Ok(env) = unit_env(contract, root, target_dir, cargo, unit) {
        let directory = output_directory(target_dir, unit);
        assert(is_named(unit.system, system_name(unit.system)));
        assert(is_output_directory(target_dir, unit, directory));
    }
}

/// Whether a text is a plain relative path: it begins with a name that is not hidden, and ends
/// in neither a slash nor a dot.
pub open spec fn is_plain(path: Seq<char>) -> bool {
    path.len() > 0 && path[0] != '/' && path[0] != '.' && path.last() != '/' && path.last() != '.'
}

/// A build in a container puts its artifact where the host looks for it: at the same place below
/// the target directory, which the container sees below the repository.
pub proof fn lemma_containers_put_out_where_the_host_looks(
    contract: ReleaseContract,
    root: Seq<char>,
    target_dir: Seq<char>,
    cargo: Map<Seq<char>, CargoMetadataView>,
    unit: PlannedPackageBuildView,
    name: Seq<char>,
)
    requires
        unit.invocation.container is Some,
        target_dir.len() > 0 && target_dir.last() != '/',
        is_named(unit.system, name),
        unit.target matches RequestedTargetView::Triple(triple) ==> is_plain(triple),
        unit.invocation.env.contains_key("XTASK_RELEASE_PROFILE"@) && is_plain(
            unit.invocation.env["XTASK_RELEASE_PROFILE"@],
        ),
    ensures
        unit_env(contract, root, target_dir, cargo, unit) matches Ok(env) ==> {
            let below = match unit.target {
                RequestedTargetView::Common => "common"@ + "/"@ + name,
                RequestedTargetView::Triple(triple) => triple + "/"@
                    + unit.invocation.env["XTASK_RELEASE_PROFILE"@] + "/"@ + name,
            };
            &&& env["XTASK_RELEASE_OUT_DIR"@] == path_join("/workspace/target"@, below)
            &&& build_opening(
                BuildHostView { root, target_dir, cargo_home: None, home: None },
                unit,
            ).action matches BuildActionView::ListOutput { directory }
            &&& directory == path_join(target_dir, below)
        },
{
    if let Ok(env) = unit_env(contract, root, target_dir, cargo, unit) {
        lemma_told_names();
        reveal_strlit("/");
        reveal_strlit("common");
        reveal_strlit("deb");
        reveal_strlit("rpm");
        reveal_strlit("brew");
        reveal_strlit("scoop");
        let profile = unit.invocation.env["XTASK_RELEASE_PROFILE"@];
        let below = match unit.target {
            RequestedTargetView::Common => "common"@ + "/"@ + name,
            RequestedTargetView::Triple(triple) => triple + "/"@ + profile + "/"@ + name,
        };
        assert(is_plain(below));
        let directory = output_directory(target_dir, unit);
        match unit.target {
            RequestedTargetView::Common => {
                lemma_paths_are_joined(target_dir, "common"@);
                lemma_paths_are_joined(target_dir + "/"@ + "common"@, name);
            },
            RequestedTargetView::Triple(triple) => {
                lemma_paths_are_joined(target_dir, triple);
                lemma_paths_are_joined(target_dir + "/"@ + triple, profile);
                lemma_paths_are_joined(target_dir + "/"@ + triple + "/"@ + profile, name);
            },
        }
        lemma_paths_are_joined(target_dir, below);
        assert(directory =~= path_join(target_dir, below));
        lemma_paths_are_found_below(target_dir, below);
        lemma_workspace();
    }
}

proof fn lemma_workspace()
    ensures
        path_join("/workspace"@, "target"@) == "/workspace/target"@,
{
    reveal_strlit("/");
    reveal_strlit("/workspace");
    reveal_strlit("target");
    reveal_strlit("/workspace/target");
    assert("/workspace"@ + "/"@ + "target"@ =~= "/workspace/target"@);
}

/// The version of a Linux package stands before its release where the package system sorts it:
/// it is written as the source writes it, but for a tilde before what precedes the release.
pub proof fn lemma_linux_versions_sort_before_the_release(source: SourceVersionView)
    ensures
        source.pre.len() == 0 ==> source.linux_text() == source.text(),
        source.pre.len() > 0 ==> exists|rest: Seq<char>|
            {
                &&& source.text() == source.numbers() + "-"@ + source.pre + rest
                &&& #[trigger] (source.numbers() + "~"@ + source.pre + rest) == source.linux_text()
            },
{
    if source.pre.len() > 0 {
        let rest = if source.build.len() == 0 {
            Seq::empty()
        } else {
            "+"@ + source.build
        };
        assert(source.text() =~= source.numbers() + "-"@ + source.pre + rest);
        assert(source.numbers() + "~"@ + source.pre + rest =~= source.linux_text());
    }
}

/// Whether an action clears the directory that the artifact of a build is put in.
pub open spec fn clears_output(
    target_dir: Seq<char>,
    unit: PlannedPackageBuildView,
    action: BuildActionView,
) -> bool {
    action matches BuildActionView::PrepareOutput { stale, directory } && is_output_directory(
        target_dir,
        unit,
        directory,
    )
}

/// A build begins and ends with a look at the directory that its artifact is put in.
pub proof fn lemma_builds_look_at_their_output(
    host: BuildHostView,
    contract: ReleaseContract,
    cargo: Map<Seq<char>, CargoMetadataView>,
    unit: PlannedPackageBuildView,
    paths: Seq<Seq<char>>,
)
    ensures
        build_opening(host, unit).stage is Clearing,
        build_advanced(
            host,
            contract,
            cargo,
            unit,
            BuildStageView::Clearing,
            BuildEventView::Files { paths },
        ) matches Ok(next) && next.stage is Preparing && clears_output(
            host.target_dir,
            unit,
            next.action,
        ),
        build_opening(host, unit).action matches BuildActionView::ListOutput { directory }
            && is_output_directory(host.target_dir, unit, directory),
        build_advanced(
            host,
            contract,
            cargo,
            unit,
            BuildStageView::Running,
            BuildEventView::Done,
        ) matches Ok(next) && {
            &&& next.stage is Collecting
            &&& next.action matches BuildActionView::ListOutput { directory }
            &&& is_output_directory(host.target_dir, unit, directory)
        },
{
    assert(is_named(unit.system, system_name(unit.system)));
}

/// A file is an artifact of a package system exactly where it has the ending of its packages:
/// that of Debian and RPM packages, of compressed archives for Homebrew, and of zip archives for
/// Scoop.
pub proof fn lemma_artifacts_are_told_by_their_ending(path: Seq<char>, system: PackageSystem)
    ensures
        names_artifact(path, system) <==> path_extension(path) == Some(
            match system {
                PackageSystem::Deb => "deb"@,
                PackageSystem::Rpm => "rpm"@,
                PackageSystem::Brew => "gz"@,
                PackageSystem::Scoop => "zip"@,
            },
        ),
{
}

/// Whether a line is that of a field.
pub open spec fn is_line_of(line: Seq<char>, name: Seq<char>) -> bool {
    has_prefix(line, name + ":"@)
}

proof fn lemma_line_value(lines: Seq<Seq<char>>, name: Seq<char>, from: int)
    requires
        0 <= from <= lines.len(),
    ensures
        match line_value(lines, name + ":"@, from) {
            Some(value) => exists|i: int|
                {
                    &&& from <= i < lines.len() && is_line_of(#[trigger] lines[i], name)
                    &&& value == trimmed_space(lines[i].skip(name.len() as int + 1))
                    &&& forall|k: int| from <= k < i ==> !is_line_of(#[trigger] lines[k], name)
                },
            None => forall|i: int|
                from <= i < lines.len() ==> !is_line_of(#[trigger] lines[i], name),
        },
    decreases lines.len() - from,
{
    reveal_strlit(":");
    if from < lines.len() {
        if is_line_of(lines[from], name) {
            assert((name + ":"@).len() == name.len() + 1);
        } else {
            lemma_line_value(lines, name, from + 1);
        }
    }
}

/// The value of a field is what follows its name and a colon on the first line that begins so,
/// without the spaces around it; there is none exactly where no line does.
pub proof fn lemma_fields_are_found_by_name(text: Seq<char>, name: Seq<char>)
    ensures
        match field_value(text, name) {
            Some(value) => exists|i: int|
                {
                    &&& 0 <= i < text_lines(text).len() && is_line_of(
                        #[trigger] text_lines(text)[i],
                        name,
                    )
                    &&& value == trimmed_space(text_lines(text)[i].skip(name.len() as int + 1))
                    &&& forall|k: int|
                        0 <= k < i ==> !is_line_of(#[trigger] text_lines(text)[k], name)
                },
            None => forall|i: int|
                0 <= i < text_lines(text).len() ==> !is_line_of(
                    #[trigger] text_lines(text)[i],
                    name,
                ),
        },
{
    lemma_line_value(text_lines(text), name, 0);
}

/// A build is accepted exactly where it left one artifact. A Debian package is asked for its
/// fields and an RPM package for its name, version and architecture, by name of its file below
/// its directory; an archive is measured at once.
pub proof fn lemma_one_artifact_is_collected(
    host: BuildHostView,
    contract: ReleaseContract,
    cargo: Map<Seq<char>, CargoMetadataView>,
    unit: PlannedPackageBuildView,
    paths: Seq<Seq<char>>,
)
    ensures
        ({
            let found = artifact_paths(paths, unit.system);
            let answer = build_advanced(
                host,
                contract,
                cargo,
                unit,
                BuildStageView::Collecting,
                BuildEventView::Files { paths },
            );
            &&& found.len() == 0 ==> (answer matches Err(BuildErrorView::Refused { source })
                && source is MissingArtifact)
            &&& found.len() > 1 ==> (answer matches Err(BuildErrorView::Refused { source })
                && source is MultipleArtifacts)
            &&& found.len() == 1 && unit.system is Deb ==> (answer matches Ok(next) && next.stage
                == (BuildStageView::Reading { path: found[0] }) && next.action == (
            BuildActionView::ReadDebFields { path: found[0] }))
            &&& found.len() == 1 && unit.system is Rpm ==> (path_parent(found[0]) matches Some(
                directory,
            ) ==> (path_file_name(found[0]) matches Some(name) ==> {
                &&& answer matches Ok(next)
                &&& next.stage == (BuildStageView::Reading { path: found[0] })
                &&& next.action matches BuildActionView::QueryRpm { command }
                &&& command.program == "docker"@
                &&& command.args == seq![
                    "run"@,
                    "--rm"@,
                    "--volume"@,
                    directory + ":/rpm:ro"@,
                    "fedora:40"@,
                    "rpm"@,
                    "-qp"@,
                    "--queryformat"@,
                    "%{NAME}\n%{VERSION}-%{RELEASE}\n%{ARCH}\n"@,
                    "/rpm/"@ + name,
                ]
            }))
            &&& found.len() == 1 && (unit.system is Brew || unit.system is Scoop) ==> (
            answer matches Ok(next) && next.stage == (BuildStageView::Measuring {
                path: found[0],
                metadata: PackageFileMetadataView {
                    package_name: None,
                    package_version: None,
                    architecture: None,
                },
            }) && next.action == (BuildActionView::Measure { path: found[0] }))
        }),
{
}

/// What a package tells of itself is its name, its version and its architecture: those fields
/// of a Debian package, those lines of the answer for an RPM package.
pub proof fn lemma_packages_tell_of_themselves(
    host: BuildHostView,
    contract: ReleaseContract,
    cargo: Map<Seq<char>, CargoMetadataView>,
    unit: PlannedPackageBuildView,
    path: Seq<char>,
    text: Seq<char>,
)
    requires
        unit.system is Deb || unit.system is Rpm,
    ensures
        build_advanced(
            host,
            contract,
            cargo,
            unit,
            BuildStageView::Reading { path },
            BuildEventView::Text { text },
        ) matches Ok(next) && {
            &&& next.action == (BuildActionView::Measure { path })
            &&& next.stage matches BuildStageView::Measuring { path: measured, metadata }
            &&& measured == path
            &&& unit.system is Deb ==> metadata.package_name == field_value(text, "Package"@)
                && metadata.package_version == field_value(text, "Version"@)
                && metadata.architecture == field_value(text, "Architecture"@)
            &&& unit.system is Rpm ==> metadata.package_name == line_at(text, 0)
                && metadata.package_version == line_at(text, 1) && metadata.architecture
                == line_at(text, 2)
        },
{
}

/// The artifact that a build hands on states what was measured and what the package told, the
/// target and the profile that it was built for, and its place below the target directory. It
/// is refused where it does not stand below it.
pub proof fn lemma_artifacts_state_what_was_built(
    host: BuildHostView,
    contract: ReleaseContract,
    cargo: Map<Seq<char>, CargoMetadataView>,
    unit: PlannedPackageBuildView,
    path: Seq<char>,
    metadata: PackageFileMetadataView,
    size: u64,
    sha256: Seq<char>,
)
    ensures
        ({
            let answer = build_advanced(
                host,
                contract,
                cargo,
                unit,
                BuildStageView::Measuring { path, metadata },
                BuildEventView::Measured { size, sha256 },
            );
            match path_below(path, host.target_dir) {
                None => answer matches Err(BuildErrorView::Refused { source })
                    && source is ArtifactTargetRelative,
                Some(relative) => {
                    &&& answer matches Ok(next)
                    &&& next.stage is Finished
                    &&& next.action matches BuildActionView::Finish { artifact }
                    &&& artifact.path == relative
                    &&& artifact.size == size
                    &&& artifact.sha256 == sha256
                    &&& artifact.package_name == metadata.package_name
                    &&& artifact.package_version == metadata.package_version
                    &&& artifact.architecture == metadata.architecture
                    &&& artifact.archive_name == path_file_name(path)
                    &&& artifact.target == match unit.target {
                        RequestedTargetView::Triple(triple) => triple,
                        RequestedTargetView::Common => "common"@,
                    }
                    &&& unit.invocation.env.contains_key("XTASK_RELEASE_PROFILE"@)
                        ==> artifact.profile == Some(
                        unit.invocation.env["XTASK_RELEASE_PROFILE"@],
                    )
                    &&& !unit.invocation.env.contains_key("XTASK_RELEASE_PROFILE"@)
                        ==> artifact.profile is None
                    &&& !unit.invocation.env.contains_key("XTASK_RELEASE_FEATURES"@)
                        ==> artifact.features.len() == 0
                },
            }
        }),
{
}

} // verus!
