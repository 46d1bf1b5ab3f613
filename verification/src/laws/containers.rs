//! Laws of build containers: what they see of the host, and what they are told.

use vstd::prelude::*;
use vstd::utf8::encode_utf8;

use crate::building::{
    build_advanced, BuildActionView, BuildEventView, BuildHostView, BuildStageView, HostFileView,
};
use crate::contract::ReleaseContract;
use crate::digest::{hex, sha256};
use crate::laws::texts::{lemma_contained_twice, lemma_middle_is_contained};
use crate::package::CargoMetadataView;
use crate::path::path_join;
use crate::plan::PlannedPackageBuildView;
use crate::runner::{
    build_arg_words, docker_run_words, env_words, hashed_image, image_key, release_lines,
    unit_env, unit_mounts,
};
use crate::s3::mount_words;
use crate::text::{char_is, contains_text, has_prefix, trimmed_end, trimmed_space};
use crate::textmap::{lemma_sorted_members, listing, members, sorted};

verus! {

/// Whether two words stand at a place among the words of a command, one behind the other.
pub open spec fn pair_at(words: Seq<Seq<char>>, i: int, option: Seq<char>, word: Seq<char>) -> bool {
    0 <= i && i + 1 < words.len() && words[i] == option && words[i + 1] == word
}

/// Whether a word stands directly behind another among the words of a command.
pub open spec fn stands_behind(words: Seq<Seq<char>>, option: Seq<char>, word: Seq<char>) -> bool {
    exists|i: int| #[trigger] pair_at(words, i, option, word)
}

/// How a mount is told to Docker: the place on the host, the place in the container, and
/// whether it is only read.
pub open spec fn told_mount(source: Seq<char>, destination: Seq<char>, read_only: bool) -> Seq<char> {
    if read_only {
        source + ":"@ + destination + ":ro"@
    } else {
        source + ":"@ + destination
    }
}

proof fn lemma_mount_words(mounts: Seq<Seq<char>>)
    ensures
        mount_words(mounts).len() == 2 * mounts.len(),
        forall|i: int|
            0 <= i < mounts.len() ==> pair_at(
                mount_words(mounts),
                2 * i,
                "--volume"@,
                #[trigger] mounts[i],
            ),
    decreases mounts.len(),
{
    if mounts.len() > 0 {
        let rest = mounts.drop_last();
        lemma_mount_words(rest);
        let before = mount_words(rest);
        let words = mount_words(mounts);
        assert forall|i: int| 0 <= i < mounts.len() implies pair_at(
            words,
            2 * i,
            "--volume"@,
            #[trigger] mounts[i],
        ) by {
            if i < rest.len() {
                assert(pair_at(before, 2 * i, "--volume"@, rest[i]));
                assert(words[2 * i] == before[2 * i]);
                assert(words[2 * i + 1] == before[2 * i + 1]);
            }
        }
    }
}

proof fn lemma_env_words(env: Seq<(Seq<char>, Seq<char>)>, count: int)
    requires
        0 <= count <= env.len(),
    ensures
        env_words(env, count).len() == 2 * count,
        forall|i: int|
            0 <= i < count ==> pair_at(
                env_words(env, count),
                2 * i,
                "--env"@,
                (#[trigger] env[i]).0 + "="@ + env[i].1,
            ),
    decreases count,
{
    if count > 0 {
        lemma_env_words(env, count - 1);
        let before = env_words(env, count - 1);
        let words = env_words(env, count);
        assert forall|i: int| 0 <= i < count implies pair_at(
            words,
            2 * i,
            "--env"@,
            (#[trigger] env[i]).0 + "="@ + env[i].1,
        ) by {
            if i < count - 1 {
                assert(pair_at(before, 2 * i, "--env"@, env[i].0 + "="@ + env[i].1));
                assert(words[2 * i] == before[2 * i]);
                assert(words[2 * i + 1] == before[2 * i + 1]);
            }
        }
    }
}

/// Every variable of a finite set is listed once, under its name and with its value.
proof fn lemma_listing_holds(env: Map<Seq<char>, Seq<char>>, names: Seq<Seq<char>>, name: Seq<char>)
    requires
        env.dom() == members(names),
        env.contains_key(name),
    ensures
        listing(env).contains((name, env[name])),
{
    lemma_sorted_members(names);
    let keys = sorted(env.dom());
    assert(members(keys).contains(name));
    let i = choose|i: int| 0 <= i < keys.len() && keys[i] == name;
    assert(listing(env)[i] == (name, env[name]));
}

/// Whatever it is made of, the command of a build container names every mount behind its option
/// and every variable behind its own, then the image, and the script where there is one; and
/// nothing else.
proof fn lemma_run_words(
    mounts: Seq<Seq<char>>,
    env: Seq<(Seq<char>, Seq<char>)>,
    image: Seq<char>,
    script: Seq<char>,
)
    ensures
        ({
            let words = docker_run_words(mounts, env, image, script);
            let last = if script.len() == 0 {
                seq![image]
            } else {
                seq![image, script]
            };
            &&& words.len() == 2 + 2 * mounts.len() + 2 * env.len() + last.len()
            &&& words[0] == "run"@ && words[1] == "--rm"@
            &&& words.skip((2 + 2 * mounts.len() + 2 * env.len()) as int) == last
            &&& forall|i: int|
                0 <= i < mounts.len() ==> stands_behind(words, "--volume"@, #[trigger] mounts[i])
            &&& forall|i: int|
                0 <= i < env.len() ==> stands_behind(
                    words,
                    "--env"@,
                    (#[trigger] env[i]).0 + "="@ + env[i].1,
                )
        }),
{
    let words = docker_run_words(mounts, env, image, script);
    lemma_mount_words(mounts);
    lemma_env_words(env, env.len() as int);
    let last = if script.len() == 0 {
        seq![image]
    } else {
        seq![image, script]
    };
    assert(words.skip((2 + 2 * mounts.len() + 2 * env.len()) as int) =~= last);
    assert forall|i: int| 0 <= i < mounts.len() implies stands_behind(
        words,
        "--volume"@,
        #[trigger] mounts[i],
    ) by {
        let told = mount_words(mounts);
        assert(pair_at(told, 2 * i, "--volume"@, mounts[i]));
        assert(words[2 + 2 * i] == told[2 * i]);
        assert(words[(2 + 2 * i) + 1] == told[2 * i + 1]);
        assert(pair_at(words, 2 + 2 * i, "--volume"@, mounts[i]));
    }
    assert forall|i: int| 0 <= i < env.len() implies stands_behind(
        words,
        "--env"@,
        (#[trigger] env[i]).0 + "="@ + env[i].1,
    ) by {
        let at = 2 + 2 * mounts.len();
        let told = env_words(env, env.len() as int);
        assert(pair_at(told, 2 * i, "--env"@, env[i].0 + "="@ + env[i].1));
        assert(words[at + 2 * i] == told[2 * i]);
        assert(words[(at + 2 * i) + 1] == told[2 * i + 1]);
        assert(pair_at(words, at + 2 * i, "--env"@, env[i].0 + "="@ + env[i].1));
    }
}

/// A build container sees the repository, the Cargo caches of the host, every mount that its
/// variables ask for, every source of its overlay, and the Cargo configuration that patches
/// lead to those sources with, below the Cargo home of the container. It sees nothing else.
pub proof fn lemma_containers_see_their_mounts(
    host: BuildHostView,
    contract: ReleaseContract,
    cargo: Map<Seq<char>, CargoMetadataView>,
    unit: PlannedPackageBuildView,
    image: Seq<char>,
    env: Map<Seq<char>, Seq<char>>,
    host_home: Seq<char>,
    container_home: Seq<char>,
)
    ensures
        build_advanced(
            host,
            contract,
            cargo,
            unit,
            BuildStageView::Arranging { image, env, host_home, container_home },
            BuildEventView::Done,
        ) matches Ok(next) && {
            let home = trimmed_end(container_home, char_is('/'));
            let count = 3 + unit.invocation.env_mounts.len() + match unit.source_overlay {
                Some(overlay) => overlay.mounts.len() + 1,
                None => 0,
            };
            &&& next.stage is Running
            &&& next.action matches BuildActionView::RunContainer { words }
            &&& words.len() == 2 + 2 * count + 2 * listing(env).len() + if unit.invocation.script.len()
                == 0 {
                1int
            } else {
                2
            }
            &&& words[0] == "run"@ && words[1] == "--rm"@
            &&& stands_behind(words, "--volume"@, host.root + ":/workspace"@)
            &&& stands_behind(
                words,
                "--volume"@,
                path_join(host_home, "git"@) + ":"@ + home + "/"@ + "git"@,
            )
            &&& stands_behind(
                words,
                "--volume"@,
                path_join(host_home, "registry"@) + ":"@ + home + "/"@ + "registry"@,
            )
            &&& forall|i: int|
                0 <= i < unit.invocation.env_mounts.len() ==> stands_behind(
                    words,
                    "--volume"@,
                    told_mount(
                        (#[trigger] unit.invocation.env_mounts[i]).source,
                        unit.invocation.env_mounts[i].destination,
                        unit.invocation.env_mounts[i].read_only,
                    ),
                )
            &&& unit.source_overlay matches Some(overlay) ==> stands_behind(
                words,
                "--volume"@,
                told_mount(
                    path_join(host.target_dir, ".genmeta-xtask-release-cargo.toml"@),
                    path_join(container_home, "config.toml"@),
                    true,
                ),
            ) && forall|i: int|
                0 <= i < overlay.mounts.len() ==> stands_behind(
                    words,
                    "--volume"@,
                    told_mount(
                        (#[trigger] overlay.mounts[i]).source,
                        overlay.mounts[i].destination,
                        overlay.mounts[i].read_only,
                    ),
                )
            &&& words.skip((2 + 2 * count + 2 * listing(env).len()) as int)
                == if unit.invocation.script.len() == 0 {
                seq![image]
            } else {
                seq![image, unit.invocation.script]
            }
        },
{
    let mounts = unit_mounts(
        host.root,
        host.target_dir,
        host_home,
        container_home,
        unit.invocation.env_mounts,
        unit.source_overlay,
    );
    let asked = unit.invocation.env_mounts;
    let words = docker_run_words(mounts, listing(env), image, unit.invocation.script);
    lemma_run_words(mounts, listing(env), image, unit.invocation.script);
    reveal_strlit("");
    let home = trimmed_end(container_home, char_is('/'));
    assert(mounts[0] == host.root + ":/workspace"@);
    assert(mounts[1] == path_join(host_home, "git"@) + ":"@ + home + "/"@ + "git"@);
    assert(mounts[2] == path_join(host_home, "registry"@) + ":"@ + home + "/"@ + "registry"@);
    assert forall|i: int| 0 <= i < asked.len() implies stands_behind(
        words,
        "--volume"@,
        told_mount((#[trigger] asked[i]).source, asked[i].destination, asked[i].read_only),
    ) by {
        assert(mounts[3 + i] =~= told_mount(
            asked[i].source,
            asked[i].destination,
            asked[i].read_only,
        ));
    }
    if let Some(overlay) = unit.source_overlay {
        let seen = overlay.mounts;
        let from = 3 + asked.len();
        assert(mounts[(from + seen.len()) as int] == told_mount(
            path_join(host.target_dir, ".genmeta-xtask-release-cargo.toml"@),
            path_join(container_home, "config.toml"@),
            true,
        ));
        assert forall|i: int| 0 <= i < seen.len() implies stands_behind(
            words,
            "--volume"@,
            told_mount((#[trigger] seen[i]).source, seen[i].destination, seen[i].read_only),
        ) by {
            assert(mounts[from + i] =~= told_mount(
                seen[i].source,
                seen[i].destination,
                seen[i].read_only,
            ));
        }
    }
}

/// A build container is told every variable of the build, each with its value.
pub proof fn lemma_containers_are_told_their_variables(
    host: BuildHostView,
    contract: ReleaseContract,
    cargo: Map<Seq<char>, CargoMetadataView>,
    unit: PlannedPackageBuildView,
    image: Seq<char>,
    env: Map<Seq<char>, Seq<char>>,
    names: Seq<Seq<char>>,
    host_home: Seq<char>,
    container_home: Seq<char>,
    name: Seq<char>,
)
    requires
        env.dom() == members(names),
        env.contains_key(name),
    ensures
        build_advanced(
            host,
            contract,
            cargo,
            unit,
            BuildStageView::Arranging { image, env, host_home, container_home },
            BuildEventView::Done,
        ) matches Ok(next) && next.action matches BuildActionView::RunContainer { words }
            && stands_behind(words, "--env"@, name + "="@ + env[name]),
{
    let mounts = unit_mounts(
        host.root,
        host.target_dir,
        host_home,
        container_home,
        unit.invocation.env_mounts,
        unit.source_overlay,
    );
    lemma_run_words(mounts, listing(env), image, unit.invocation.script);
    lemma_listing_holds(env, names, name);
    let listed = listing(env);
    let i = choose|i: int| 0 <= i < listed.len() && listed[i] == (name, env[name]);
    assert(listed[i].0 + "="@ + listed[i].1 == name + "="@ + env[name]);
}

/// Before a container runs, the host has the Cargo caches that it mounts, and exactly where the
/// build has an overlay, the Cargo configuration of that overlay at the place that it mounts.
/// The Cargo home of the container is what the image answered, without the spaces around it.
pub proof fn lemma_hosts_are_arranged(
    host: BuildHostView,
    contract: ReleaseContract,
    cargo: Map<Seq<char>, CargoMetadataView>,
    unit: PlannedPackageBuildView,
    image: Seq<char>,
    env: Map<Seq<char>, Seq<char>>,
    answer: Seq<char>,
)
    ensures
        build_advanced(
            host,
            contract,
            cargo,
            unit,
            BuildStageView::Asking { image, env },
            BuildEventView::Text { text: answer },
        ) matches Ok(next) ==> {
            &&& next.stage matches BuildStageView::Arranging {
                image: seen,
                env: told,
                host_home,
                container_home,
            }
            &&& seen == image && told == env
            &&& container_home == trimmed_space(answer) && container_home.len() > 0
            &&& host.cargo_home matches Some(home) ==> (home.len() > 0 ==> host_home == home)
            &&& host.cargo_home is None || host.cargo_home->0.len() == 0 ==> (
            host.home matches Some(home) && home.len() > 0 && host_home == path_join(
                home,
                ".cargo"@,
            ))
            &&& next.action matches BuildActionView::ArrangeHost { directories, config }
            &&& directories == seq![path_join(host_home, "git"@), path_join(host_home, "registry"@)]
            &&& unit.source_overlay matches Some(overlay) ==> config == Some(
                HostFileView {
                    path: path_join(host.target_dir, ".genmeta-xtask-release-cargo.toml"@),
                    text: overlay.cargo_config,
                },
            )
            &&& unit.source_overlay is None ==> config is None
        },
{
}

/// The words that hand a variable to the build of an image stand behind its option, and only
/// variables of the release are handed over.
proof fn lemma_build_arg_words(env: Seq<(Seq<char>, Seq<char>)>, count: int)
    requires
        0 <= count <= env.len(),
    ensures
        forall|i: int|
            0 <= i < count && has_prefix((#[trigger] env[i]).0, "XTASK_RELEASE_"@)
                ==> stands_behind(
                build_arg_words(env, count),
                "--build-arg"@,
                env[i].0 + "="@ + env[i].1,
            ),
    decreases count,
{
    if count > 0 {
        lemma_build_arg_words(env, count - 1);
        let before = build_arg_words(env, count - 1);
        let now = build_arg_words(env, count);
        assert forall|i: int|
            0 <= i < count && has_prefix((#[trigger] env[i]).0, "XTASK_RELEASE_"@) implies stands_behind(
            now,
            "--build-arg"@,
            env[i].0 + "="@ + env[i].1,
        ) by {
            let word = env[i].0 + "="@ + env[i].1;
            if i < count - 1 {
                assert(stands_behind(before, "--build-arg"@, word));
                let k = choose|k: int| #[trigger] pair_at(before, k, "--build-arg"@, word);
                assert(now[k] == before[k] && now[k + 1] == before[k + 1]);
                assert(pair_at(now, k, "--build-arg"@, word));
            } else {
                let k = before.len() as int;
                assert(pair_at(now, k, "--build-arg"@, word));
            }
        }
    }
}

/// Only variables of the release are handed to the build of an image, and only they tell images
/// apart: one of them adds its words and its line, and any other variable adds nothing.
pub proof fn lemma_only_release_variables_are_handed_over(
    env: Seq<(Seq<char>, Seq<char>)>,
    count: int,
    start: Seq<char>,
)
    requires
        0 <= count < env.len(),
    ensures
        build_arg_words(env, 0).len() == 0,
        release_lines(env, 0, start) == start,
        has_prefix(env[count].0, "XTASK_RELEASE_"@) ==> build_arg_words(env, count + 1)
            == build_arg_words(env, count) + seq![
            "--build-arg"@,
            env[count].0 + "="@ + env[count].1,
        ] && release_lines(env, count + 1, start) == release_lines(env, count, start)
            + env[count].0 + "="@ + env[count].1 + "\n"@,
        !has_prefix(env[count].0, "XTASK_RELEASE_"@) ==> build_arg_words(env, count + 1)
            == build_arg_words(env, count) && release_lines(env, count + 1, start)
            == release_lines(env, count, start),
{
    if has_prefix(env[count].0, "XTASK_RELEASE_"@) {
        assert(build_arg_words(env, count + 1) =~= build_arg_words(env, count) + seq![
            "--build-arg"@,
            env[count].0 + "="@ + env[count].1,
        ]);
    }
}

/// A build that names no container runs its script from the root of the contract, with the
/// variables of the build. One that names an image asks it; one that builds an image builds it
/// from its Dockerfile at the root of the contract, with every variable of the release, under
/// the name that it asks and runs afterwards.
pub proof fn lemma_builds_start(
    host: BuildHostView,
    contract: ReleaseContract,
    cargo: Map<Seq<char>, CargoMetadataView>,
    unit: PlannedPackageBuildView,
    names: Seq<Seq<char>>,
)
    requires
        unit_env(contract, host.root, host.target_dir, cargo, unit) matches Ok(env) ==> env.dom()
            == members(names),
    ensures
        build_advanced(
            host,
            contract,
            cargo,
            unit,
            BuildStageView::Preparing,
            BuildEventView::Done,
        ) matches Ok(next) ==> {
            &&& unit_env(contract, host.root, host.target_dir, cargo, unit) matches Ok(env)
            &&& unit.invocation.container is None ==> next.stage is Running && next.action == (
            BuildActionView::RunScript {
                script: path_join(host.root, unit.invocation.script),
                directory: host.root,
                env,
            })
            &&& unit.invocation.container matches Some(container) ==> (container.build is None
                ==> next.stage == (BuildStageView::Asking { image: container.image, env })
                && asks_image(next.action, container.image))
            &&& unit.invocation.container matches Some(container) ==> (
            container.build matches Some(build) ==> {
                &&& next.stage matches BuildStageView::Imaging { image, env: told }
                &&& told == env
                &&& has_prefix(image, container.image + "-"@)
                &&& next.action matches BuildActionView::BuildImage { directory, words }
                &&& directory == host.root
                &&& words == seq![
                    "build"@,
                    "-f"@,
                    path_join(host.root, build.dockerfile),
                    "-t"@,
                    image,
                ] + build_arg_words(listing(env), listing(env).len() as int) + seq!["."@]
                &&& forall|name: Seq<char>| #[trigger]
                    env.contains_key(name) && has_prefix(name, "XTASK_RELEASE_"@) ==> stands_behind(
                        words,
                        "--build-arg"@,
                        name + "="@ + env[name],
                    )
                &&& build_advanced(
                    host,
                    contract,
                    cargo,
                    unit,
                    next.stage,
                    BuildEventView::Done,
                ) matches Ok(asked)
                &&& asked.stage == (BuildStageView::Asking { image, env })
                &&& asks_image(asked.action, image)
            })
        },
{
    if let Ok(next) = build_advanced(
        host,
        contract,
        cargo,
        unit,
        BuildStageView::Preparing,
        BuildEventView::Done,
    ) {
        let env = unit_env(contract, host.root, host.target_dir, cargo, unit)->Ok_0;
        if let Some(container) = unit.invocation.container {
            if let Some(build) = container.build {
                let image = next.stage->Imaging_image;
                let words = next.action->BuildImage_words;
                let start = container.image + "-"@;
                assert(image.subrange(0, start.len() as int) =~= start);
                let listed = listing(env);
                let args = build_arg_words(listed, listed.len() as int);
                let dockerfile = path_join(host.root, build.dockerfile);
                assert(words =~= seq!["build"@, "-f"@, dockerfile, "-t"@, image] + args + seq![
                    "."@,
                ]);
                lemma_build_arg_words(listed, listed.len() as int);
                assert forall|name: Seq<char>| #[trigger]
                    env.contains_key(name) && has_prefix(name, "XTASK_RELEASE_"@) implies stands_behind(
                    words,
                    "--build-arg"@,
                    name + "="@ + env[name],
                ) by {
                    lemma_listing_holds(env, names, name);
                    let i = choose|i: int|
                        0 <= i < listed.len() && listed[i] == (name, env[name]);
                    let word = name + "="@ + env[name];
                    assert(listed[i].0 + "="@ + listed[i].1 == word);
                    assert(stands_behind(args, "--build-arg"@, word));
                    let k = choose|k: int| #[trigger] pair_at(args, k, "--build-arg"@, word);
                    assert(words[5 + k] == args[k]);
                    assert(words[(5 + k) + 1] == args[k + 1]);
                    assert(pair_at(words, 5 + k, "--build-arg"@, word));
                }
            }
        }
    }
}

proof fn lemma_release_lines(env: Seq<(Seq<char>, Seq<char>)>, count: int, start: Seq<char>)
    requires
        0 <= count <= env.len(),
    ensures
        has_prefix(release_lines(env, count, start), start),
        forall|i: int|
            0 <= i < count && has_prefix((#[trigger] env[i]).0, "XTASK_RELEASE_"@) ==> contains_text(
                release_lines(env, count, start),
                env[i].0 + "="@ + env[i].1 + "\n"@,
            ),
    decreases count,
{
    let none = Seq::<char>::empty();
    let all = release_lines(env, count, start);
    if count > 0 {
        lemma_release_lines(env, count - 1, start);
        let before = release_lines(env, count - 1, start);
        let last = env[count - 1].0 + "="@ + env[count - 1].1 + "\n"@;
        if has_prefix(env[count - 1].0, "XTASK_RELEASE_"@) {
            assert(all =~= before + last);
            assert(all.subrange(0, start.len() as int) =~= before.subrange(0, start.len() as int));
            lemma_middle_is_contained(none, before, last);
            assert(none + before + last =~= all);
            lemma_middle_is_contained(before, last, none);
            assert(before + last + none =~= all);
            assert forall|i: int|
                0 <= i < count && has_prefix((#[trigger] env[i]).0, "XTASK_RELEASE_"@) implies contains_text(
            all, env[i].0 + "="@ + env[i].1 + "\n"@) by {
                if i < count - 1 {
                    lemma_contained_twice(all, before, env[i].0 + "="@ + env[i].1 + "\n"@);
                }
            }
        }
    } else {
        assert(all.subrange(0, start.len() as int) =~= start);
    }
}

/// The name of an image that is built tells apart what it is built from: it ends in the hash of
/// its Dockerfile and of every variable of the release, with its value, and of nothing else.
pub proof fn lemma_images_are_told_apart(
    image: Seq<char>,
    dockerfile: Seq<char>,
    env: Seq<(Seq<char>, Seq<char>)>,
    others: Seq<(Seq<char>, Seq<char>)>,
)
    ensures
        has_prefix(image_key(dockerfile, env), dockerfile),
        forall|i: int|
            0 <= i < env.len() && has_prefix((#[trigger] env[i]).0, "XTASK_RELEASE_"@)
                ==> contains_text(
                image_key(dockerfile, env),
                env[i].0 + "="@ + env[i].1 + "\n"@,
            ),
        (forall|i: int|
            0 <= i < others.len() ==> !has_prefix((#[trigger] others[i]).0, "XTASK_RELEASE_"@))
            ==> image_key(dockerfile, others) == dockerfile,
        hashed_image(image, image_key(dockerfile, env)) == image + "-"@ + hex(
            sha256(encode_utf8(image_key(dockerfile, env))).take(8),
        ),
{
    lemma_release_lines(env, env.len() as int, dockerfile);
    if forall|i: int|
        0 <= i < others.len() ==> !has_prefix((#[trigger] others[i]).0, "XTASK_RELEASE_"@) {
        lemma_no_release_lines(others, others.len() as int, dockerfile);
    }
}

proof fn lemma_no_release_lines(env: Seq<(Seq<char>, Seq<char>)>, count: int, start: Seq<char>)
    requires
        0 <= count <= env.len(),
        forall|i: int|
            0 <= i < env.len() ==> !has_prefix((#[trigger] env[i]).0, "XTASK_RELEASE_"@),
    ensures
        release_lines(env, count, start) == start,
    decreases count,
{
    if count > 0 {
        lemma_no_release_lines(env, count - 1, start);
        assert(!has_prefix(env[count - 1].0, "XTASK_RELEASE_"@));
    }
}

/// Whether an action asks an image for the Cargo home that it defines.
pub open spec fn asks_image(action: BuildActionView, image: Seq<char>) -> bool {
    action == (BuildActionView::AskImage {
        words: seq![
            "run"@,
            "--rm"@,
            "--entrypoint"@,
            "/bin/sh"@,
            image,
            "-lc"@,
            "printf %s \"${CARGO_HOME:-}\""@,
        ],
    })
}

} // verus!
