//! Laws of what a package command writes down: artifacts lie below the target directory, and a
//! manifest holds all of them, in order.

use vstd::prelude::*;

use crate::contract::ReleaseContract;
use crate::manifest::PackageArtifactView;
use crate::package::CargoMetadataView;
use crate::path::{absolute, lemma_spans, no_component, path_below, piece_end, spans, spans_from};
use crate::plan::PlannedPackageBuildView;
use crate::runner::{
    artifact_before, artifact_place, optional_lt, ordered_artifacts, system_manifest,
    unit_artifact, PackageFileMetadataView,
};
use crate::system::PackageSystem;
use crate::text::{
    lemma_text_lt_irreflexive, lemma_text_lt_total, lemma_text_lt_transitive, text_lt,
};

verus! {

proof fn lemma_spans_start_within(path: Seq<char>, from: int)
    requires
        0 <= from,
    ensures
        forall|i: int|
            0 <= i < spans_from(path, from).len() ==> path[(#[trigger] spans_from(
                path,
                from,
            )[i]).0] != '/',
    decreases path.len() - from + 1,
{
    if from < path.len() {
        let to = piece_end(path, from);
        if from <= to <= path.len() {
            let rest = spans_from(path, to + 1);
            lemma_spans_start_within(path, to + 1);
            if !no_component(path, from, to) {
                assert(path[from] != '/');
                assert forall|i: int| 0 <= i < spans_from(path, from).len() implies path[(
                #[trigger] spans_from(path, from)[i]).0] != '/' by {
                    if i > 0 {
                        assert(spans_from(path, from)[i] == rest[i - 1]);
                    }
                }
            }
        }
    }
}

/// The rest of a path below a directory is not an absolute path.
pub proof fn lemma_rest_is_relative(path: Seq<char>, base: Seq<char>)
    ensures
        path_below(path, base) matches Some(rest) ==> !absolute(rest),
{
    if let Some(rest) = path_below(path, base) {
        let places = spans(path);
        let count = spans(base).len() as int;
        lemma_spans(path, 0);
        lemma_spans_start_within(path, 0);
        if places.len() != count {
            let names = crate::path::components(path);
            assert(crate::path::components(base).len() == count);
            assert(names.len() == places.len());
            assert(count < places.len());
            let last = places.len() - 1;
            if count < last {
                assert(places[count].1 < places[last].0);
            }
            assert(rest[0] == path[places[count].0]);
        }
    }
}

/// The artifact of a build is named by a path that leads from the target directory, never by an
/// absolute one.
pub proof fn lemma_artifacts_are_target_relative(
    unit: PlannedPackageBuildView,
    target_dir: Seq<char>,
    path: Seq<char>,
    metadata: PackageFileMetadataView,
    size: u64,
    sha256: Seq<char>,
)
    ensures
        unit_artifact(unit, target_dir, path, metadata, size, sha256) matches Ok(artifact)
            ==> !absolute(artifact.path),
{
    lemma_rest_is_relative(path, target_dir);
}

proof fn lemma_optional_order(a: Option<Seq<char>>, b: Option<Seq<char>>, c: Option<Seq<char>>)
    ensures
        !optional_lt(a, b) && !optional_lt(b, c) ==> !optional_lt(a, c),
        optional_lt(a, b) ==> !optional_lt(b, a),
{
    if let (Some(x), Some(y)) = (a, b) {
        lemma_text_lt_irreflexive(x);
        if text_lt(x, y) && text_lt(y, x) {
            lemma_text_lt_transitive(x, y, x);
        }
        if let Some(z) = c {
            lemma_not_less(x, y, z);
        }
    }
}

proof fn lemma_not_less(x: Seq<char>, y: Seq<char>, z: Seq<char>)
    ensures
        !text_lt(x, y) && !text_lt(y, z) ==> !text_lt(x, z),
{
    lemma_text_lt_total(x, y);
    lemma_text_lt_total(y, z);
    lemma_text_lt_irreflexive(x);
    lemma_text_lt_irreflexive(y);
    lemma_text_lt_irreflexive(z);
    if text_lt(x, z) {
        if text_lt(y, x) {
            lemma_text_lt_transitive(y, x, z);
        }
        if text_lt(z, y) {
            lemma_text_lt_transitive(x, z, y);
        }
    }
}

proof fn lemma_artifact_order(
    a: PackageArtifactView,
    b: PackageArtifactView,
    c: PackageArtifactView,
)
    ensures
        !artifact_before(a, b) && !artifact_before(b, c) ==> !artifact_before(a, c),
        artifact_before(a, b) ==> !artifact_before(b, a),
{
    lemma_text_lt_total(a.target, b.target);
    lemma_text_lt_total(b.target, c.target);
    lemma_not_less(a.target, b.target, c.target);
    lemma_text_lt_irreflexive(a.target);
    lemma_optional_order(a.package_name, b.package_name, c.package_name);
    if text_lt(a.target, b.target) && text_lt(b.target, a.target) {
        lemma_text_lt_transitive(a.target, b.target, a.target);
    }
    if !artifact_before(a, b) && !artifact_before(b, c) && a.target == c.target {
        if text_lt(b.target, a.target) {
            lemma_text_lt_total(b.target, c.target);
        }
    }
}

/// Whether no artifact stands behind one that it comes before.
pub open spec fn artifacts_in_order(artifacts: Seq<PackageArtifactView>) -> bool {
    forall|i: int, j: int|
        0 <= i < j < artifacts.len() ==> !#[trigger] artifact_before(artifacts[j], artifacts[i])
}

proof fn lemma_artifact_place(
    ordered: Seq<PackageArtifactView>,
    item: PackageArtifactView,
    count: int,
)
    requires
        0 <= count <= ordered.len(),
    ensures
        0 <= artifact_place(ordered, item, count) <= count,
        artifact_place(ordered, item, count) > 0 ==> !artifact_before(
            item,
            ordered[artifact_place(ordered, item, count) - 1],
        ),
        forall|i: int|
            artifact_place(ordered, item, count) <= i < count ==> artifact_before(
                item,
                #[trigger] ordered[i],
            ),
    decreases count,
{
    if count > 0 && artifact_before(item, ordered[count - 1]) {
        lemma_artifact_place(ordered, item, count - 1);
    }
}

proof fn lemma_ordered_artifacts(artifacts: Seq<PackageArtifactView>)
    ensures
        artifacts_in_order(ordered_artifacts(artifacts)),
        ordered_artifacts(artifacts).to_multiset() == artifacts.to_multiset(),
    decreases artifacts.len(),
{
    if artifacts.len() > 0 {
        let item = artifacts.last();
        let ordered = ordered_artifacts(artifacts.drop_last());
        lemma_ordered_artifacts(artifacts.drop_last());
        let place = artifact_place(ordered, item, ordered.len() as int);
        lemma_artifact_place(ordered, item, ordered.len() as int);
        let result = ordered.insert(place, item);
        assert forall|i: int, j: int| 0 <= i < j < result.len() implies !#[trigger] artifact_before(
            result[j],
            result[i],
        ) by {
            if j == place {
                let last = ordered[place - 1];
                if i < place - 1 {
                    assert(!artifact_before(last, ordered[i]));
                    lemma_artifact_order(item, last, ordered[i]);
                }
            } else if i == place {
                lemma_artifact_order(item, ordered[j - 1], item);
            } else {
                let (k, l) = (if i < place { i } else { i - 1 }, if j < place { j } else { j - 1 });
                assert(result[i] == ordered[k] && result[j] == ordered[l]);
                assert(!artifact_before(ordered[l], ordered[k]));
            }
        }
        assert(artifacts =~= artifacts.drop_last().push(item));
        vstd::seq_lib::to_multiset_build(artifacts.drop_last(), item);
        vstd::seq_lib::to_multiset_insert(ordered, place, item);
    } else {
        assert(artifacts =~= ordered_artifacts(artifacts));
    }
}

/// The manifest of a package system holds exactly the artifacts that were built for it, by
/// target and by package.
pub proof fn lemma_manifest_holds_every_artifact(
    contract: ReleaseContract,
    contract_root: Seq<char>,
    cargo: Map<Seq<char>, CargoMetadataView>,
    system: PackageSystem,
    artifacts: Seq<PackageArtifactView>,
    generated_at: Seq<char>,
)
    ensures
        system_manifest(contract, contract_root, cargo, system, artifacts, generated_at)
            matches Ok(manifest) ==> manifest.kind == system && artifacts_in_order(
            manifest.artifacts,
        ) && manifest.artifacts.to_multiset() == artifacts.to_multiset(),
{
    lemma_ordered_artifacts(artifacts);
}

} // verus!
