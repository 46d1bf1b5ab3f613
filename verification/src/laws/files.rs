//! Laws of manifests on disk: what is published is what was built, what is written is loaded
//! again, and an existing manifest stays unless it may be overwritten.

use vstd::prelude::*;

use crate::cli::PackageBuildRequestView;
use crate::contract::{
    contract_fault, loaded_contract, ContractReading, LoadReleaseContractErrorView,
    ReleaseContract,
};
use crate::digest::{hex, sha256};
use crate::manifest::{
    command_manifest_destination, contradiction, file_fault, files_fault, loaded_manifest,
    manifest_destination, manifest_fault, manifest_file, publish_reading_at,
    publishable_manifest, publishable_manifests, reading_at, verification_fault,
    ArtifactReadingView, LoadManifestErrorView, ManifestReadingView, PackageArtifactView,
    PackageManifestView, PublishReadingView, WriteManifestErrorView,
};
use crate::system::PackageSystem;

verus! {

/// Whether a file that was read is the one of an artifact.
pub open spec fn is_file_of(artifact: PackageArtifactView, reading: ArtifactReadingView) -> bool {
    reading matches ArtifactReadingView::Read { size, content } && size == artifact.size && hex(
        sha256(content),
    ) == artifact.sha256
}

proof fn lemma_files_from(
    target_dir: Seq<char>,
    artifacts: Seq<PackageArtifactView>,
    readings: Seq<ArtifactReadingView>,
    from: int,
)
    requires
        0 <= from <= artifacts.len(),
    ensures
        files_fault(target_dir, artifacts, readings, from) is None <==> forall|i: int|
            from <= i < artifacts.len() ==> is_file_of(
                #[trigger] artifacts[i],
                reading_at(readings, i),
            ),
    decreases artifacts.len() - from,
{
    if from < artifacts.len() {
        lemma_files_from(target_dir, artifacts, readings, from + 1);
        assert(is_file_of(artifacts[from], reading_at(readings, from))
            <==> file_fault(
            target_dir,
            artifacts[from],
            reading_at(readings, from),
        ) is None);
    }
}

/// The artifacts of a manifest are verified exactly where the manifest is valid and every
/// file has the size and the hash that the manifest states.
pub proof fn lemma_verified_files_are_listed(
    target_dir: Seq<char>,
    manifest: PackageManifestView,
    readings: Seq<ArtifactReadingView>,
)
    ensures
        verification_fault(target_dir, manifest, readings) is None <==> manifest_fault(
            manifest,
        ) is None && forall|i: int|
            0 <= i < manifest.artifacts.len() ==> is_file_of(
                #[trigger] manifest.artifacts[i],
                reading_at(readings, i),
            ),
{
    lemma_files_from(target_dir, manifest.artifacts, readings, 0);
}

/// Whether a manifest may be published: it is valid, agrees with the contract, and lists
/// the files that were read.
pub open spec fn is_publishable(
    contract: ReleaseContract,
    manifest: PackageManifestView,
    readings: Seq<ArtifactReadingView>,
) -> bool {
    &&& manifest_fault(manifest) is None
    &&& contradiction(contract, manifest) is None
    &&& forall|i: int|
        0 <= i < manifest.artifacts.len() ==> is_file_of(
            #[trigger] manifest.artifacts[i],
            reading_at(readings, i),
        )
}

proof fn lemma_loaded_from(
    target_dir: Seq<char>,
    contract: ReleaseContract,
    systems: Seq<PackageSystem>,
    readings: Seq<PublishReadingView>,
    from: int,
    loaded: Seq<PackageManifestView>,
)
    requires
        0 <= from <= systems.len(),
        loaded.len() == from,
    ensures
        publishable_manifests(target_dir, contract, systems, readings, from, loaded) matches Ok(
            manifests,
        ) ==> {
            &&& manifests.len() == systems.len()
            &&& forall|i: int| 0 <= i < from ==> #[trigger] manifests[i] == loaded[i]
            &&& forall|i: int|
                from <= i < systems.len() ==> is_publishable(
                    contract,
                    #[trigger] manifests[i],
                    publish_reading_at(readings, i).artifacts,
                )
        },
    decreases systems.len() - from,
{
    if from < systems.len() {
        let reading = publish_reading_at(readings, from);
        if let Ok(manifest) = publishable_manifest(target_dir, contract, systems[from], reading) {
            lemma_verified_files_are_listed(target_dir, manifest, reading.artifacts);
            let next = loaded.push(manifest);
            lemma_loaded_from(target_dir, contract, systems, readings, from + 1, next);
            if let Ok(manifests) = publishable_manifests(
                target_dir,
                contract,
                systems,
                readings,
                from + 1,
                next,
            ) {
                assert(manifests[from] == next[from]);
                assert forall|i: int| 0 <= i < from implies #[trigger] manifests[i]
                    == loaded[i] by {
                    assert(manifests[i] == next[i]);
                }
            }
        }
    }
}

/// Only what was built is published: there is one manifest for each package system that is
/// named, and each is valid, agrees with the contract, and lists the files on disk.
pub proof fn lemma_only_what_was_built_is_published(
    target_dir: Seq<char>,
    contract: ReleaseContract,
    systems: Seq<PackageSystem>,
    readings: Seq<PublishReadingView>,
)
    ensures
        publishable_manifests(target_dir, contract, systems, readings, 0, Seq::empty()) matches Ok(
            manifests,
        ) ==> {
            &&& manifests.len() == systems.len()
            &&& forall|i: int|
                0 <= i < systems.len() ==> is_publishable(
                    contract,
                    #[trigger] manifests[i],
                    publish_reading_at(readings, i).artifacts,
                )
        },
{
    lemma_loaded_from(target_dir, contract, systems, readings, 0, Seq::empty());
}

/// An existing manifest stays unless the command says that it may be overwritten.
pub proof fn lemma_existing_manifest_stays(
    target_dir: Seq<char>,
    contract: ReleaseContract,
    manifest: PackageManifestView,
    builds: Seq<PackageBuildRequestView>,
)
    ensures
        manifest_destination(target_dir, manifest, true, false) is Err,
        command_manifest_destination(
            target_dir,
            contract,
            manifest,
            builds,
            true,
            false,
        ) is Err,
        forall|exists: bool| #[trigger]
            manifest_destination(target_dir, manifest, exists, true) == manifest_destination(
                target_dir,
                manifest,
                false,
                false,
            ),
        manifest_fault(manifest) is None ==> manifest_destination(
            target_dir,
            manifest,
            false,
            false,
        ) == Ok::<Seq<char>, WriteManifestErrorView>(manifest_file(target_dir, manifest.kind)),
{
}

/// The manifests of files once a manifest is written, or refused.
pub open spec fn files_after(
    files: Map<Seq<char>, PackageManifestView>,
    manifest: PackageManifestView,
    destination: Result<Seq<char>, WriteManifestErrorView>,
) -> Map<Seq<char>, PackageManifestView> {
    match destination {
        Ok(path) => files.insert(path, manifest),
        Err(_) => files,
    }
}

/// What reading a file gives, where files hold these manifests.
pub open spec fn reading_of(
    files: Map<Seq<char>, PackageManifestView>,
    path: Seq<char>,
) -> ManifestReadingView {
    if files.contains_key(path) {
        ManifestReadingView::Parsed(files[path])
    } else {
        ManifestReadingView::Unread
    }
}

/// A valid manifest that is written is loaded as it stands, and no other file changes. Where
/// one stands already and may not be overwritten, it is refused and nothing changes. Files are
/// taken for the manifests that their texts stand for.
pub proof fn lemma_written_manifest_is_loaded(
    files: Map<Seq<char>, PackageManifestView>,
    target_dir: Seq<char>,
    manifest: PackageManifestView,
    overwrite: bool,
)
    requires
        manifest_fault(manifest) is None,
    ensures
        ({
            let path = manifest_file(target_dir, manifest.kind);
            let destination = manifest_destination(
                target_dir,
                manifest,
                files.contains_key(path),
                overwrite,
            );
            let after = files_after(files, manifest, destination);
            if files.contains_key(path) && !overwrite {
                destination == Err::<Seq<char>, WriteManifestErrorView>(
                    WriteManifestErrorView::AlreadyExists { path },
                ) && after == files
            } else {
                &&& destination == Ok::<Seq<char>, WriteManifestErrorView>(path)
                &&& after.remove(path) == files.remove(path)
                &&& loaded_manifest(target_dir, manifest.kind, reading_of(after, path)) == Ok::<
                    PackageManifestView,
                    LoadManifestErrorView,
                >(manifest)
            }
        }),
{
    let path = manifest_file(target_dir, manifest.kind);
    assert(files.insert(path, manifest).remove(path) =~= files.remove(path));
}

/// A contract that is loaded is valid, and a valid one is loaded as it stands.
pub proof fn lemma_loaded_contract_is_valid(path: Seq<char>, reading: ContractReading)
    ensures
        loaded_contract(path, reading) matches Ok(contract) ==> contract_fault(contract) is None
            && reading == ContractReading::Parsed(contract),
        reading matches ContractReading::Parsed(contract) ==> (contract_fault(contract) is None
            ==> loaded_contract(path, reading) == Ok::<
            ReleaseContract,
            LoadReleaseContractErrorView,
        >(contract)),
{
}

} // verus!
