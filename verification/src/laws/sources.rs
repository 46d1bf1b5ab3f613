//! Laws of where a build takes its sources and its metadata from.

use vstd::prelude::*;

use crate::contract::{package_of, ReleaseContract};
use crate::laws::texts::{lemma_contained_twice, lemma_middle_is_contained};
use crate::package::{
    cargo_package, metadata_of, package_at, same_path, CargoMetadataView, CargoPackageView,
    ResolvePackageMetadataErrorView, ResolvedPackageMetadataView,
};
use crate::path::{absolute, path_join};
use crate::sibling::{
    git_urls, has_source, overlay_plan, patch_lines, patch_sections,
    PatchOverrideView, PatchSourceView, SiblingSourceView,
};
use crate::text::contains_text;
use crate::textmap::{lemma_sorted_members, members, sorted};
use crate::version::parsed_version;

verus! {

/// The line that leads a package to its source in a sibling.
pub open spec fn leading_line(patch: PatchOverrideView) -> Seq<char> {
    patch.package + " = { path = \"/sources/"@ + patch.sibling + "/"@ + patch.relative_path
        + "\" }\n"@
}

/// The head of the section that patches what comes from a source.
pub open spec fn section_head(source: PatchSourceView) -> Seq<char> {
    match source {
        PatchSourceView::CratesIo => "[patch.crates-io]\n"@,
        PatchSourceView::Git(url) => "[patch.\""@ + url + "\"]\n"@,
    }
}

/// The lines of a section are those of the patches for its source, one for each, in order: a
/// patch adds its line to the section of its own source and changes no other.
pub proof fn lemma_patches_add_their_line(
    overrides: Seq<PatchOverrideView>,
    patch: PatchOverrideView,
    source: PatchSourceView,
)
    ensures
        patch_lines(Seq::empty(), source) == Seq::<char>::empty(),
        patch_lines(overrides.push(patch), source) == if patch.source == source {
            patch_lines(overrides, source) + leading_line(patch)
        } else {
            patch_lines(overrides, source)
        },
{
    assert(overrides.push(patch).drop_last() =~= overrides);
}

proof fn lemma_line_is_there(overrides: Seq<PatchOverrideView>, i: int)
    requires
        0 <= i < overrides.len(),
    ensures
        contains_text(patch_lines(overrides, overrides[i].source), leading_line(overrides[i])),
    decreases overrides.len(),
{
    let none = Seq::<char>::empty();
    let rest = overrides.drop_last();
    let source = overrides[i].source;
    let line = leading_line(overrides[i]);
    let before = patch_lines(rest, source);
    let last = leading_line(overrides.last());
    if i == rest.len() {
        lemma_middle_is_contained(before, line, none);
        assert(before + line + none =~= patch_lines(overrides, source));
    } else {
        lemma_line_is_there(rest, i);
        if overrides.last().source == source {
            lemma_middle_is_contained(none, before, last);
            assert(none + before + last =~= patch_lines(overrides, source));
            lemma_contained_twice(patch_lines(overrides, source), before, line);
        }
    }
}

proof fn lemma_section_is_there(
    overrides: Seq<PatchOverrideView>,
    urls: Seq<Seq<char>>,
    count: int,
    source: PatchSourceView,
)
    requires
        0 <= count <= urls.len(),
        has_source(overrides, source),
        source is CratesIo || exists|k: int|
            0 <= k < count && #[trigger] urls[k] == source->Git_0,
    ensures
        contains_text(
            patch_sections(overrides, urls, count),
            section_head(source) + patch_lines(overrides, source) + "\n"@,
        ),
    decreases count,
{
    let none = Seq::<char>::empty();
    let section = section_head(source) + patch_lines(overrides, source) + "\n"@;
    let all = patch_sections(overrides, urls, count);
    if count == 0 {
        lemma_middle_is_contained(none, section, none);
        assert(none + section + none =~= all);
    } else {
        let before = patch_sections(overrides, urls, count - 1);
        let url = urls[count - 1];
        let last = section_head(PatchSourceView::Git(url)) + patch_lines(
            overrides,
            PatchSourceView::Git(url),
        ) + "\n"@;
        assert(all =~= before + last);
        if source == PatchSourceView::Git(url) {
            lemma_middle_is_contained(before, section, none);
            assert(before + section + none =~= all);
        } else {
            lemma_section_is_there(overrides, urls, count - 1, source);
            lemma_middle_is_contained(none, before, last);
            assert(none + before + last =~= all);
            lemma_contained_twice(all, before, section);
        }
    }
}

/// The Cargo configuration of an overlay leads every package that is patched to its source, in
/// the section for where the package would come from. The overlay mounts each sibling, read
/// only, under its name below the place that the configuration leads to.
pub proof fn lemma_overlays_lead_to_sources(
    siblings: Seq<SiblingSourceView>,
    overrides: Seq<PatchOverrideView>,
    i: int,
)
    ensures
        overlay_plan(siblings, overrides) matches Ok(plan) ==> {
            &&& 0 <= i < overrides.len() ==> exists|lines: Seq<char>|
                {
                    &&& #[trigger] contains_text(
                        plan.cargo_config,
                        section_head(overrides[i].source) + lines + "\n"@,
                    )
                    &&& contains_text(lines, leading_line(overrides[i]))
                }
            &&& plan.mounts.len() == siblings.len()
            &&& 0 <= i < siblings.len() ==> {
                &&& plan.mounts[i].source == siblings[i].host_path
                &&& plan.mounts[i].read_only
                &&& !absolute(siblings[i].name) ==> plan.mounts[i].destination == "/sources/"@
                    + siblings[i].name
            }
            &&& overrides.len() == 0 ==> plan.cargo_config.len() == 0
        },
{
    if let Ok(plan) = overlay_plan(siblings, overrides) {
        let urls = sorted(git_urls(overrides));
        let named = url_texts(overrides);
        lemma_urls(overrides);
        lemma_sorted_members(named);
        if 0 <= i < overrides.len() {
            let source = overrides[i].source;
            assert(has_source(overrides, source));
            if let PatchSourceView::Git(url) = source {
                assert(git_urls(overrides).contains(url));
                assert(members(urls).contains(url));
                let k = choose|k: int| 0 <= k < urls.len() && urls[k] == url;
                assert(urls[k] == source->Git_0);
            }
            lemma_section_is_there(overrides, urls, urls.len() as int, source);
            lemma_line_is_there(overrides, i);
            let lines = patch_lines(overrides, source);
            assert(contains_text(
                plan.cargo_config,
                section_head(overrides[i].source) + lines + "\n"@,
            ));
        }
        if 0 <= i < siblings.len() && !absolute(siblings[i].name) {
            reveal_strlit("/sources");
            reveal_strlit("/");
            reveal_strlit("/sources/");
            assert("/sources"@ + "/"@ =~= "/sources/"@);
            assert(path_join("/sources"@, siblings[i].name) =~= "/sources/"@ + siblings[i].name);
        }
        if overrides.len() == 0 {
            if urls.len() > 0 {
                assert(members(urls).contains(urls[0]));
                assert(has_source(overrides, PatchSourceView::Git(urls[0])));
            }
        }
    }
}

/// The addresses of patched repositories, in the order of the patches.
spec fn url_texts(overrides: Seq<PatchOverrideView>) -> Seq<Seq<char>>
    decreases overrides.len(),
{
    if overrides.len() == 0 {
        Seq::empty()
    } else if let PatchSourceView::Git(url) = overrides.last().source {
        url_texts(overrides.drop_last()).push(url)
    } else {
        url_texts(overrides.drop_last())
    }
}

proof fn lemma_urls(overrides: Seq<PatchOverrideView>)
    ensures
        git_urls(overrides) == members(url_texts(overrides)),
    decreases overrides.len(),
{
    if overrides.len() > 0 {
        let rest = overrides.drop_last();
        let before = url_texts(rest);
        let texts = url_texts(overrides);
        lemma_urls(rest);
        assert forall|url: Seq<char>| has_source(overrides, PatchSourceView::Git(url))
            == #[trigger] texts.contains(url) by {
            if has_source(overrides, PatchSourceView::Git(url)) {
                let k = choose|k: int|
                    0 <= k < overrides.len() && (#[trigger] overrides[k]).source
                        == PatchSourceView::Git(url);
                if k < rest.len() {
                    assert(rest[k].source == PatchSourceView::Git(url));
                    assert(git_urls(rest).contains(url));
                    assert(members(before).contains(url));
                    let j = choose|j: int| 0 <= j < before.len() && before[j] == url;
                    assert(texts[j] == url);
                } else {
                    assert(texts.last() == url);
                }
            }
            if texts.contains(url) {
                let j = choose|j: int| 0 <= j < texts.len() && texts[j] == url;
                if j < before.len() {
                    assert(before[j] == url);
                    assert(members(before).contains(url));
                    assert(git_urls(rest).contains(url));
                    let k = choose|k: int|
                        0 <= k < rest.len() && (#[trigger] rest[k]).source
                            == PatchSourceView::Git(url);
                    assert(overrides[k].source == PatchSourceView::Git(url));
                } else {
                    assert(overrides[overrides.len() - 1].source == PatchSourceView::Git(url));
                }
            }
        }
        assert(git_urls(overrides) =~= members(texts));
    } else {
        assert(git_urls(overrides) =~= members(url_texts(overrides)));
    }
}

/// Whether a package of Cargo is the one of a manifest: the root of what was read, where there
/// is one, or else a package whose manifest stands at the same path.
pub open spec fn is_package_of(
    read: CargoMetadataView,
    manifest: Seq<char>,
    package: CargoPackageView,
) -> bool {
    match read {
        CargoMetadataView::Failed => false,
        CargoMetadataView::Read { root: Some(root), .. } => package == root,
        CargoMetadataView::Read { root: None, packages } => packages.contains(package)
            && same_path(package.manifest_path, manifest),
    }
}

proof fn lemma_package_at(packages: Seq<CargoPackageView>, manifest: Seq<char>, from: int)
    requires
        0 <= from <= packages.len(),
    ensures
        package_at(packages, manifest, from) matches Some(package) ==> packages.contains(package)
            && same_path(package.manifest_path, manifest),
        package_at(packages, manifest, from) is None ==> forall|i: int|
            from <= i < packages.len() ==> !same_path(
                (#[trigger] packages[i]).manifest_path,
                manifest,
            ),
    decreases packages.len() - from,
{
    if from < packages.len() && !same_path(packages[from].manifest_path, manifest) {
        lemma_package_at(packages, manifest, from + 1);
    }
}

/// Where a manifest that a contract names stands.
pub open spec fn manifest_place(root: Seq<char>, manifest: Seq<char>) -> Seq<char> {
    if absolute(manifest) {
        manifest
    } else {
        path_join(root, manifest)
    }
}

/// Whether metadata are what Cargo says of a package.
pub open spec fn is_said_by(
    package: CargoPackageView,
    metadata: ResolvedPackageMetadataView,
) -> bool {
    &&& package.version == metadata.source_version
    &&& package.description == Some(metadata.description)
    &&& package.license == Some(metadata.license)
    &&& package.homepage == Some(metadata.homepage)
    &&& package.repository == metadata.repository
}

/// The metadata of a package are what its contract states, or what Cargo says of the manifest
/// that the contract names, below the root of the contract or at an absolute path. Each of
/// them is there.
pub proof fn lemma_metadata_are_those_of_the_package(
    contract: ReleaseContract,
    package: Seq<char>,
    root: Seq<char>,
    cargo: Map<Seq<char>, CargoMetadataView>,
)
    ensures
        metadata_of(contract, package, root, cargo) matches Ok(metadata) ==> {
            &&& package_of(contract, package) matches Some(stated)
            &&& match stated.manifest {
                None => {
                    &&& stated.version is Some && parsed_version(stated.version->0@) == Some(
                        metadata.source_version,
                    )
                    &&& stated.description is Some && stated.description->0@
                        == metadata.description && metadata.description.len() > 0
                    &&& stated.license is Some && stated.license->0@ == metadata.license
                        && metadata.license.len() > 0
                    &&& stated.homepage is Some && stated.homepage->0@ == metadata.homepage
                        && metadata.homepage.len() > 0
                    &&& stated.repository.deep_view() == metadata.repository
                },
                Some(manifest) => {
                    let path = manifest_place(root, manifest@);
                    &&& cargo.contains_key(path)
                    &&& exists|found: CargoPackageView| #[trigger]
                        is_package_of(cargo[path], path, found) && is_said_by(found, metadata)
                },
            }
        },
        package_of(contract, package) is None ==> metadata_of(contract, package, root, cargo)
            == Err::<ResolvedPackageMetadataView, ResolvePackageMetadataErrorView>(
            ResolvePackageMetadataErrorView::MissingPackage { package },
        ),
{
    if let Ok(metadata) = metadata_of(contract, package, root, cargo) {
        let stated = package_of(contract, package)->0;
        if let Some(manifest) = stated.manifest {
            let path = manifest_place(root, manifest@);
            let found = cargo_package(cargo[path], path)->0;
            if let CargoMetadataView::Read { root: None, packages } = cargo[path] {
                lemma_package_at(packages, path, 0);
            }
            assert(is_package_of(cargo[path], path, found));
            assert(is_said_by(found, metadata));
        }
    }
}

} // verus!
