//! Laws of commands: everything that a command line asks for is asked for, in order, and what
//! it may not ask for is refused.

use vstd::prelude::*;

use crate::cli::{
    patch_override, patch_overrides, publish_requests, publish_systems,
    read_command, read_package_command, read_publish_command, reading_args, requested_target,
    requests_from, section_args, sections_from, sections_of, sibling_source, sibling_sources,
    systems_fault, token_system, with_argument, CommandTokenView, PackageBuildRequestView,
    PackageCommandReadingView, PackageSectionOptionsView, PackageSystemSectionView,
    ParsePackageSectionArgsErrorView, PublishCommandRequestView, S3PublishCommandReadingView,
    SectionReadingView, ShowCommandRequestView, XtaskCommandReadingView, XtaskCommandRequestView,
};
use crate::contract::{has_destination, some_branch, ReleaseContract};
use crate::laws::keys::{lacks, lemma_cut_first, lemma_no_char};
use crate::path::path_file_name;
use crate::sibling::{PatchOverrideView, PatchSourceView, SiblingSourceView};
use crate::system::{PackageSystem, RequestedTargetView};

verus! {

/// A command line names what it is for exactly where its first word is the name of a package
/// system.
pub proof fn lemma_sections_begin_with_a_system(tokens: Seq<CommandTokenView>)
    ensures
        sections_of(tokens) is Ok <==> tokens.len() > 0 && (tokens[0] == CommandTokenView::Text(
            "deb"@,
        ) || tokens[0] == CommandTokenView::Text("rpm"@) || tokens[0] == CommandTokenView::Text(
            "brew"@,
        ) || tokens[0] == CommandTokenView::Text("scoop"@)),
{
    let none = Seq::<PackageSystemSectionView>::empty();
    if tokens.len() > 0 {
        if let Some(system) = token_system(tokens[0]) {
            let first = PackageSystemSectionView { system, args: Seq::empty() };
            lemma_sections_go_on(tokens, 1, none.push(first));
        }
    }
}

proof fn lemma_sections_go_on(
    tokens: Seq<CommandTokenView>,
    from: int,
    found: Seq<PackageSystemSectionView>,
)
    requires
        0 <= from <= tokens.len(),
        found.len() > 0,
    ensures
        sections_from(tokens, from, found) is Ok,
    decreases tokens.len() - from,
{
    if from < tokens.len() {
        match token_system(tokens[from]) {
            Some(system) => {
                let next = PackageSystemSectionView { system, args: Seq::empty() };
                lemma_sections_go_on(tokens, from + 1, found.push(next));
            },
            None => {
                lemma_sections_go_on(
                    tokens,
                    from + 1,
                    with_argument(found, tokens[from]),
                );
            },
        }
    }
}

/// A target is the common one where it is named so, any other text but none is a triple.
pub proof fn lemma_targets_are_triples(value: Seq<char>)
    ensures
        match requested_target(value) {
            Ok(RequestedTargetView::Common) => value == "common"@,
            Ok(RequestedTargetView::Triple(triple)) => triple == value && value.len() > 0 && value
                != "common"@,
            Err(_) => value.len() == 0,
        },
{
    reveal_strlit("common");
}

/// A sibling source is named by the word before its first equals sign, or by the last name of
/// its path; the rest, or the whole, is its path. A word that names nothing or leads nowhere is
/// refused.
pub proof fn lemma_siblings_are_named(name: Seq<char>, path: Seq<char>)
    requires
        lacks(name, '='),
    ensures
        name.len() > 0 && path.len() > 0 ==> sibling_source(
            CommandTokenView::Text(name.push('=') + path),
        ) == Ok::<_, ParsePackageSectionArgsErrorView>(
            Some(SiblingSourceView { name, host_path: path }),
        ),
        name.len() == 0 || path.len() == 0 ==> sibling_source(
            CommandTokenView::Text(name.push('=') + path),
        ) is Err,
        match path_file_name(name) {
            Some(last) => sibling_source(CommandTokenView::Text(name)) == Ok::<
                _,
                ParsePackageSectionArgsErrorView,
            >(Some(SiblingSourceView { name: last, host_path: name })),
            None => sibling_source(CommandTokenView::Text(name)) is Err,
        },
{
    lemma_cut_first(name, '=', path);
    lemma_no_char(name, '=', 0);
}

/// A patch says where a package comes from, which package it is, and where its source stands:
/// in a sibling, below its root or at a path in it. Crates.io is named as such; any other
/// source is a repository. Nothing of it may be empty.
pub proof fn lemma_patches_are_read(
    source: Seq<char>,
    package: Seq<char>,
    sibling: Seq<char>,
    relative: Seq<char>,
)
    requires
        lacks(sibling, '/'),
    ensures
        source.len() > 0 && package.len() > 0 && sibling.len() > 0 ==> {
            let from = if source == "crates-io"@ {
                PatchSourceView::CratesIo
            } else {
                PatchSourceView::Git(source)
            };
            &&& patch_override(source, package, sibling) == Ok::<
                _,
                ParsePackageSectionArgsErrorView,
            >(PatchOverrideView { source: from, package, sibling, relative_path: "."@ })
            &&& relative.len() > 0 ==> patch_override(
                source,
                package,
                sibling.push('/') + relative,
            ) == Ok::<_, ParsePackageSectionArgsErrorView>(
                PatchOverrideView { source: from, package, sibling, relative_path: relative },
            )
        },
        source.len() == 0 || package.len() == 0 || sibling.len() == 0 ==> patch_override(
            source,
            package,
            sibling,
        ) is Err && patch_override(source, package, sibling.push('/') + relative) is Err,
        patch_override(source, package, sibling.push('/')) is Err,
{
    lemma_cut_first(sibling, '/', relative);
    lemma_cut_first(sibling, '/', Seq::empty());
    assert(sibling.push('/') + Seq::empty() =~= sibling.push('/'));
    lemma_no_char(sibling, '/', 0);
}

proof fn lemma_siblings_from(
    tokens: Seq<CommandTokenView>,
    from: int,
    found: Seq<SiblingSourceView>,
)
    requires
        0 <= from <= tokens.len(),
    ensures
        sibling_sources(tokens, from, found) matches Ok(sources) ==> {
            &&& forall|i: int| 0 <= i < found.len() ==> sources.contains(#[trigger] found[i])
            &&& forall|i: int|
                from <= i < tokens.len() ==> (sibling_source(#[trigger] tokens[i]) matches Ok(named)
                    && (named matches Some(source) ==> sources.contains(source)))
        },
        (forall|i: int| from <= i < tokens.len() ==> sibling_source(#[trigger] tokens[i]) is Ok)
            ==> sibling_sources(tokens, from, found) is Ok,
    decreases tokens.len() - from,
{
    if from < tokens.len() {
        if let Ok(named) = sibling_source(tokens[from]) {
            let next = match named {
                Some(source) => found.push(source),
                None => found,
            };
            lemma_siblings_from(tokens, from + 1, next);
            if let Ok(sources) = sibling_sources(tokens, from, found) {
                assert forall|i: int| 0 <= i < found.len() implies sources.contains(
                    #[trigger] found[i],
                ) by {
                    assert(next[i] == found[i]);
                }
                if let Some(source) = named {
                    assert(next[found.len() as int] == source);
                }
            }
        }
    }
}

proof fn lemma_patches_from(words: Seq<Seq<char>>, from: int, found: Seq<PatchOverrideView>)
    requires
        0 <= from <= words.len(),
    ensures
        patch_overrides(words, from, found) matches Ok(patches) ==> {
            &&& patches.len() == found.len() + (words.len() - from) / 3
            &&& forall|i: int| 0 <= i < found.len() ==> patches[i] == #[trigger] found[i]
            &&& forall|i: int|
                found.len() <= i < patches.len() ==> {
                    let at = from + 3 * (i - found.len());
                    patch_override(words[at], words[at + 1], words[at + 2]) == Ok::<
                        _,
                        ParsePackageSectionArgsErrorView,
                    >(#[trigger] patches[i])
                }
        },
    decreases words.len() - from,
{
    if from + 3 <= words.len() {
        if let Ok(patch) = patch_override(words[from], words[from + 1], words[from + 2]) {
            let next = found.push(patch);
            lemma_patches_from(words, from + 3, next);
            if let Ok(patches) = patch_overrides(words, from, found) {
                assert forall|i: int| 0 <= i < found.len() implies patches[i]
                    == #[trigger] found[i] by {
                    assert(next[i] == found[i]);
                }
                assert(patches[found.len() as int] == next[found.len() as int]);
                assert forall|i: int| found.len() <= i < patches.len() implies ({
                    let at = from + 3 * (i - found.len());
                    patch_override(words[at], words[at + 1], words[at + 2]) == Ok::<
                        _,
                        ParsePackageSectionArgsErrorView,
                    >(#[trigger] patches[i])
                }) by {
                    if i > found.len() {
                        assert(from + 3 * (i - found.len()) == (from + 3) + 3 * (i - next.len()));
                    }
                }
            }
        }
    }
}

/// What a section asks for is what its words say: the targets, the features and the profile are
/// kept as they are, every sibling that is named is a source, and every three words after
/// another are a patch, in order.
pub proof fn lemma_sections_ask_for_what_they_say(options: PackageSectionOptionsView)
    ensures
        section_args(options) matches Ok(args) ==> {
            &&& args.targets == options.targets
            &&& args.features == options.features
            &&& args.debug == options.debug
            &&& args.siblings == options.siblings
            &&& forall|i: int|
                0 <= i < options.siblings.len() ==> (sibling_source(
                    #[trigger] options.siblings[i],
                ) matches Ok(named) && (named matches Some(source)
                    ==> args.sibling_sources.contains(source)))
            &&& args.patches.len() == options.patches.len() / 3
            &&& forall|i: int|
                0 <= i < args.patches.len() ==> patch_override(
                    options.patches[3 * i],
                    options.patches[3 * i + 1],
                    options.patches[3 * i + 2],
                ) == Ok::<_, ParsePackageSectionArgsErrorView>(#[trigger] args.patches[i])
        },
{
    lemma_siblings_from(options.siblings, 0, Seq::empty());
    lemma_patches_from(options.patches, 0, Seq::empty());
}

proof fn lemma_requests_from(
    contract: ReleaseContract,
    sections: Seq<PackageSystemSectionView>,
    readings: Seq<SectionReadingView>,
    from: int,
    found: Seq<PackageBuildRequestView>,
)
    requires
        0 <= from <= sections.len(),
    ensures
        requests_from(contract, sections, readings, from, found) matches Ok(requests) ==> {
            &&& requests.len() == found.len() + sections.len() - from
            &&& forall|i: int| 0 <= i < found.len() ==> requests[i] == #[trigger] found[i]
            &&& forall|i: int|
                from <= i < sections.len() ==> {
                    let request = requests[found.len() + i - from];
                    &&& request.system == (#[trigger] sections[i]).system
                    &&& some_branch(contract, request.system)
                    &&& reading_args(readings[i]) == Ok::<_, ParsePackageSectionArgsErrorView>(
                        request.args,
                    )
                }
        },
        (forall|i: int|
            from <= i < sections.len() ==> some_branch(contract, (#[trigger] sections[i]).system)
                && reading_args(readings[i]) is Ok) ==> requests_from(
            contract,
            sections,
            readings,
            from,
            found,
        ) is Ok,
    decreases sections.len() - from,
{
    if from < sections.len() {
        let system = sections[from].system;
        if let Ok(args) = reading_args(readings[from]) {
            if some_branch(contract, system) {
                let next = found.push(PackageBuildRequestView { system, args });
                lemma_requests_from(contract, sections, readings, from + 1, next);
                if let Ok(requests) = requests_from(contract, sections, readings, from, found) {
                    assert forall|i: int| 0 <= i < found.len() implies requests[i]
                        == #[trigger] found[i] by {
                        assert(next[i] == found[i]);
                    }
                    assert(requests[found.len() as int] == next[found.len() as int]);
                }
            }
        }
    }
}

/// A build command asks for one build for each section, in order: for the package system of the
/// section, with what the section asks for. It is refused exactly where its words make no
/// sections, where a section names a package system that no package has a branch of, or where
/// what it asks for cannot be read.
pub proof fn lemma_every_section_is_a_request(
    contract: ReleaseContract,
    overwrite_manifest: bool,
    targets: Seq<CommandTokenView>,
    readings: Seq<SectionReadingView>,
)
    ensures
        ({
            let answer = read_package_command(
                contract,
                PackageCommandReadingView::Words { overwrite_manifest, targets, readings },
            );
            &&& answer matches Ok(request) ==> {
                &&& sections_of(targets) matches Ok(sections)
                &&& request.overwrite_manifest == overwrite_manifest
                &&& request.builds.len() == sections.len()
                &&& forall|i: int|
                    0 <= i < sections.len() ==> {
                        &&& (#[trigger] request.builds[i]).system == sections[i].system
                        &&& some_branch(contract, sections[i].system)
                        &&& reading_args(readings[i]) == Ok::<_, ParsePackageSectionArgsErrorView>(
                            request.builds[i].args,
                        )
                    }
            }
            &&& sections_of(targets) matches Ok(sections) ==> ((forall|i: int|
                0 <= i < sections.len() ==> some_branch(contract, (#[trigger] sections[i]).system)
                    && reading_args(readings[i]) is Ok) ==> answer is Ok)
        }),
{
    if let Ok(sections) = sections_of(targets) {
        lemma_requests_from(contract, sections, readings, 0, Seq::empty());
        if let Ok(requests) = requests_from(contract, sections, readings, 0, Seq::empty()) {
            assert forall|i: int| 0 <= i < sections.len() implies (#[trigger] requests[i]).system
                == sections[i].system && some_branch(contract, sections[i].system)
                && reading_args(readings[i]) == Ok::<_, ParsePackageSectionArgsErrorView>(
                requests[i].args,
            ) by {
                assert(requests[0 + i - 0].system == sections[i].system);
            }
        }
    }
}

/// Whether something can be published for a package system: the contract has a destination for
/// it, and a package with a branch of it.
pub open spec fn can_be_published(contract: ReleaseContract, system: PackageSystem) -> bool {
    has_destination(contract, system) && some_branch(contract, system)
}

proof fn lemma_systems_from(contract: ReleaseContract, systems: Seq<PackageSystem>, from: int)
    requires
        0 <= from <= systems.len(),
    ensures
        systems_fault(contract, systems, from) is None <==> forall|i: int|
            from <= i < systems.len() ==> can_be_published(contract, #[trigger] systems[i]),
    decreases systems.len() - from,
{
    if from < systems.len() {
        lemma_systems_from(contract, systems, from + 1);
    }
}

/// A publish command asks for exactly the package systems that it names, and for changes unless
/// it says that there are to be none. It is refused exactly where something cannot be
/// published.
pub proof fn lemma_publish_commands_name_what_they_publish(
    contract: ReleaseContract,
    dry_run: bool,
    systems: Seq<PackageSystem>,
)
    ensures
        ({
            let answer = read_publish_command(
                contract,
                S3PublishCommandReadingView::Words { dry_run, systems },
            );
            &&& answer is Ok <==> forall|i: int|
                0 <= i < systems.len() ==> can_be_published(contract, #[trigger] systems[i])
            &&& answer matches Ok(request) ==> request.dry_run == dry_run && request.systems
                == systems
        }),
{
    lemma_systems_from(contract, systems, 0);
}

proof fn lemma_publish_systems_from(
    contract: ReleaseContract,
    sections: Seq<PackageSystemSectionView>,
    from: int,
    found: Seq<PackageSystem>,
)
    requires
        0 <= from <= sections.len(),
    ensures
        publish_systems(contract, sections, from, found) is Ok <==> forall|i: int|
            from <= i < sections.len() ==> (#[trigger] sections[i]).args.len() == 0
                && can_be_published(contract, sections[i].system),
        publish_systems(contract, sections, from, found) matches Ok(systems) ==> {
            &&& systems.len() == found.len() + sections.len() - from
            &&& forall|i: int| 0 <= i < found.len() ==> systems[i] == #[trigger] found[i]
            &&& forall|i: int|
                from <= i < sections.len() ==> systems[found.len() + i - from] == (
                #[trigger] sections[i]).system
        },
    decreases sections.len() - from,
{
    if from < sections.len() {
        let system = sections[from].system;
        let next = found.push(system);
        lemma_publish_systems_from(contract, sections, from + 1, next);
        if let Ok(systems) = publish_systems(contract, sections, from, found) {
            assert forall|i: int| 0 <= i < found.len() implies systems[i]
                == #[trigger] found[i] by {
                assert(next[i] == found[i]);
            }
            assert(systems[found.len() as int] == next[found.len() as int]);
        }
    }
}

/// The words of a publish command are accepted exactly where they are names of package systems
/// for which something can be published, and nothing else; they then stand for those systems,
/// in order.
pub proof fn lemma_publish_words_are_systems(
    contract: ReleaseContract,
    tokens: Seq<CommandTokenView>,
)
    ensures
        publish_requests(contract, tokens) matches Ok(systems) ==> {
            &&& sections_of(tokens) matches Ok(sections)
            &&& systems.len() == sections.len()
            &&& forall|i: int|
                0 <= i < sections.len() ==> (#[trigger] sections[i]).args.len() == 0 && systems[i]
                    == sections[i].system && can_be_published(contract, systems[i])
        },
        sections_of(tokens) matches Ok(sections) ==> ((forall|i: int|
            0 <= i < sections.len() ==> (#[trigger] sections[i]).args.len() == 0
                && can_be_published(contract, sections[i].system)) ==> publish_requests(
            contract,
            tokens,
        ) is Ok),
{
    if let Ok(sections) = sections_of(tokens) {
        lemma_publish_systems_from(contract, sections, 0, Seq::empty());
        if let Ok(systems) = publish_systems(contract, sections, 0, Seq::empty()) {
            assert forall|i: int| 0 <= i < sections.len() implies (
            #[trigger] sections[i]).args.len() == 0 && systems[i] == sections[i].system
                && can_be_published(contract, systems[i]) by {
                assert(systems[0 + i - 0] == sections[i].system);
            }
        }
    }
}

/// A command is read as what it is: a build command, a publish command, or one that shows a
/// destination, which is refused exactly where the contract has none for the package system.
pub proof fn lemma_commands_are_read_as_what_they_are(
    contract: ReleaseContract,
    reading: XtaskCommandReadingView,
)
    ensures
        match reading {
            XtaskCommandReadingView::Refused { .. } => read_command(contract, reading) is Err,
            XtaskCommandReadingView::Package(words) => {
                &&& read_command(contract, reading) is Ok <==> read_package_command(
                    contract,
                    words,
                ) is Ok
                &&& read_command(contract, reading) matches Ok(command) ==> command
                    == XtaskCommandRequestView::Package(
                    read_package_command(contract, words)->Ok_0,
                )
            },
            XtaskCommandReadingView::Publish(words) => {
                &&& read_command(contract, reading) is Ok <==> read_publish_command(
                    contract,
                    words,
                ) is Ok
                &&& read_command(contract, reading) matches Ok(command) ==> command
                    == XtaskCommandRequestView::Publish(
                    PublishCommandRequestView::S3(read_publish_command(contract, words)->Ok_0),
                )
            },
            XtaskCommandReadingView::Show { system, github_output } => {
                &&& read_command(contract, reading) is Ok <==> has_destination(contract, system)
                &&& read_command(contract, reading) matches Ok(command) ==> (
                command matches XtaskCommandRequestView::Show(
                    ShowCommandRequestView::S3Destination(shown),
                ) && shown.system == system && shown.github_output == github_output)
            },
        },
{
}

} // verus!
