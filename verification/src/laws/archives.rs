//! Laws of archives: each is uploaded once, and what announces it states the hash of what stands
//! in the storage.

use vstd::prelude::*;

use crate::brew::{
    brew_variables, url_block, url_blocks, url_section, BrewTemplateVariableErrorView,
};
use crate::contract::{package_of, ReleaseContract};
use crate::laws::texts::lemma_joined_holds_every_part;
use crate::laws::uploads::lemma_publish_uploads_in_order;
use crate::manifest::{PackageArtifactView, PackageManifestView};
use crate::model::deep;
use crate::package::ResolvedPackageMetadataView;
use crate::path::path_join;
use crate::publication::{
    advanced, opening, upload_order, PublicationActionView, PublicationErrorView, PublicationEventView,
    PublicationStageView, PublicationStepView, PublicationView,
};
use crate::publish::{RemotePayloadStateView, S3PublishTargetView, UploadConditionView};
use crate::s3::{PlannedUploadView, S3PublishErrorView};
use crate::scoop::{
    artifact_member, artifact_members, layout, manifest_of, pretty_json, scoop_variables, JsonDocumentView,
    JsonMemberView, JsonTextView,
};
use crate::template::rendered;
use crate::text::{contains_text, joined};

verus! {

/// What a publication is told of an archive: the hash of its file, and what stands at its key.
pub struct ArchiveAnswer {
    pub sha256: Seq<char>,
    pub remote: RemotePayloadStateView,
}

/// The step of a publication that was told of as many archives as there are answers.
pub open spec fn told_of_archives(
    publication: PublicationView,
    contract: ReleaseContract,
    answers: Seq<ArchiveAnswer>,
) -> Result<PublicationStepView, PublicationErrorView>
    decreases answers.len(),
{
    if answers.len() == 0 {
        opening(publication, contract)
    } else {
        match told_of_archives(publication, contract, answers.drop_last()) {
            Err(error) => Err(error),
            Ok(asked) => match advanced(
                publication,
                contract,
                asked.stage,
                PublicationEventView::Hashed { sha256: answers.last().sha256 },
            ) {
                Err(error) => Err(error),
                Ok(hashed) => advanced(
                    publication,
                    contract,
                    hashed.stage,
                    PublicationEventView::Located { remote: answers.last().remote },
                ),
            },
        }
    }
}

/// The hash of what stands at the key of an archive once everything is uploaded: that of what
/// stands there already, or that of the file that is uploaded.
pub open spec fn stored_hash(answer: ArchiveAnswer) -> Seq<char> {
    match answer.remote {
        RemotePayloadStateView::Present { sha256 } => sha256,
        RemotePayloadStateView::Missing => answer.sha256,
    }
}

/// The places of the archives that are missing in the storage, in order.
pub open spec fn missing_places(answers: Seq<ArchiveAnswer>) -> Seq<int>
    decreases answers.len(),
{
    if answers.len() == 0 {
        Seq::empty()
    } else if answers.last().remote is Missing {
        missing_places(answers.drop_last()).push(answers.len() - 1)
    } else {
        missing_places(answers.drop_last())
    }
}

/// The prefix of what Homebrew and Scoop publish.
pub open spec fn archive_prefix(publication: PublicationView) -> Seq<char> {
    match publication.target {
        S3PublishTargetView::Brew(target) => target.prefix,
        S3PublishTargetView::Scoop(target) => target.prefix,
        _ => Seq::empty(),
    }
}

/// Whether what a publication gathered is what it was told: each archive as its manifest states
/// it but for the hash, which is that of what will stand in the storage; and for each missing
/// one, its upload, on condition that nothing stands at its key.
pub open spec fn gathers_what_is_stored(
    publication: PublicationView,
    answers: Seq<ArchiveAnswer>,
    artifacts: Seq<PackageArtifactView>,
    uploads: Seq<PlannedUploadView>,
) -> bool {
    let all = publication.manifest.artifacts;
    let places = missing_places(answers);
    &&& artifacts.len() == answers.len()
    &&& forall|i: int|
        0 <= i < answers.len() ==> (#[trigger] artifacts[i]).sha256 == stored_hash(answers[i])
            && artifacts[i] == (PackageArtifactView { sha256: artifacts[i].sha256, ..all[i] })
            && answers[i].sha256 == all[i].sha256 && all[i].archive_name is Some
    &&& uploads.len() == places.len()
    &&& forall|k: int|
        0 <= k < places.len() ==> 0 <= #[trigger] places[k] < answers.len() && uploads[k] == (
        PlannedUploadView {
            path: path_join(publication.target_dir, all[places[k]].path),
            key: archive_prefix(publication) + "/"@ + all[places[k]].archive_name->0,
            entry: false,
            condition: Some(UploadConditionView::IfMissing),
        })
}

/// However the storage answers, a publication of Homebrew or Scoop archives gathers what it is
/// told, archive by archive, and asks for the hash of each file and for what stands at each
/// key. It reads its template exactly when it was told of every archive, with the hash of what
/// stands in the storage for each of them.
pub proof fn lemma_archives_are_described_as_stored(
    publication: PublicationView,
    contract: ReleaseContract,
    answers: Seq<ArchiveAnswer>,
)
    requires
        publication.target is Brew || publication.target is Scoop,
        answers.len() <= publication.manifest.artifacts.len(),
    ensures
        told_of_archives(publication, contract, answers) matches Ok(next) ==> {
            let all = publication.manifest.artifacts;
            if answers.len() == all.len() {
                &&& next.stage matches PublicationStageView::Describing { artifacts, uploads }
                &&& gathers_what_is_stored(publication, answers, artifacts, uploads)
                &&& next.action is ReadTemplate
            } else {
                let asked = all[answers.len() as int];
                &&& next.stage matches PublicationStageView::Hashing { artifacts, uploads, key }
                &&& gathers_what_is_stored(publication, answers, artifacts, uploads)
                &&& asked.archive_name matches Some(name) && key == archive_prefix(publication)
                    + "/"@ + name
                &&& next.action == (PublicationActionView::HashFile {
                    path: path_join(publication.target_dir, asked.path),
                })
            }
        },
    decreases answers.len(),
{
    if answers.len() > 0 {
        let before = answers.drop_last();
        lemma_archives_are_described_as_stored(publication, contract, before);
        if let Ok(next) = told_of_archives(publication, contract, answers) {
            let asked = told_of_archives(publication, contract, before)->Ok_0;
            let artifacts = asked.stage->Hashing_artifacts;
            let uploads = asked.stage->Hashing_uploads;
            let places = missing_places(before);
            let all = publication.manifest.artifacts;
            let (now, gathered) = match next.stage {
                PublicationStageView::Hashing { artifacts, uploads, .. } => (artifacts, uploads),
                PublicationStageView::Describing { artifacts, uploads } => (artifacts, uploads),
                _ => (artifacts, uploads),
            };
            assert(now.len() == answers.len());
            assert(now.drop_last() =~= artifacts);
            assert forall|i: int| 0 <= i < answers.len() implies (#[trigger] now[i]).sha256
                == stored_hash(answers[i]) && now[i] == (PackageArtifactView {
                sha256: now[i].sha256,
                ..all[i]
            }) && answers[i].sha256 == all[i].sha256 && all[i].archive_name is Some by {
                if i < before.len() {
                    assert(artifacts[i] == now[i]);
                    assert(before[i] == answers[i]);
                }
            }
            assert forall|k: int| 0 <= k < missing_places(answers).len() implies 0
                <= #[trigger] missing_places(answers)[k] < answers.len() && gathered[k] == (
            PlannedUploadView {
                path: path_join(
                    publication.target_dir,
                    all[missing_places(answers)[k]].path,
                ),
                key: archive_prefix(publication) + "/"@
                    + all[missing_places(answers)[k]].archive_name->0,
                entry: false,
                condition: Some(UploadConditionView::IfMissing),
            }) by {
                if k < places.len() {
                    assert(places[k] == missing_places(answers)[k]);
                }
            }
        }
    }
}

/// The object of an archive is asked for before anything is planned for it, and only where its
/// file has the hash that the manifest states; any other file is refused.
pub proof fn lemma_archives_are_checked(
    publication: PublicationView,
    contract: ReleaseContract,
    artifacts: Seq<PackageArtifactView>,
    uploads: Seq<PlannedUploadView>,
    key: Seq<char>,
    sha256: Seq<char>,
)
    requires
        artifacts.len() < publication.manifest.artifacts.len(),
    ensures
        advanced(
            publication,
            contract,
            PublicationStageView::Hashing { artifacts, uploads, key },
            PublicationEventView::Hashed { sha256 },
        ) matches Ok(next) <==> publication.manifest.artifacts[artifacts.len() as int].sha256
            == sha256,
        advanced(
            publication,
            contract,
            PublicationStageView::Hashing { artifacts, uploads, key },
            PublicationEventView::Hashed { sha256 },
        ) matches Ok(next) ==> next.action == (PublicationActionView::InspectObject { key })
            && next.stage == (PublicationStageView::Locating { artifacts, uploads, key, sha256 }),
        advanced(
            publication,
            contract,
            PublicationStageView::Hashing { artifacts, uploads, key },
            PublicationEventView::Hashed { sha256 },
        ) matches Err(error) ==> error == (PublicationErrorView::Refused {
            source: S3PublishErrorView::ArtifactSha256Mismatch {
                path: publication.manifest.artifacts[artifacts.len() as int].path,
            },
        }),
{
}

/// The template that a publication reads is the one that the branch of its package names, below
/// the root of the contract.
pub proof fn lemma_template_is_that_of_the_branch(
    publication: PublicationView,
    contract: ReleaseContract,
    answers: Seq<ArchiveAnswer>,
)
    requires
        publication.target is Brew || publication.target is Scoop,
        answers.len() == publication.manifest.artifacts.len(),
    ensures
        told_of_archives(publication, contract, answers) matches Ok(next) ==> {
            &&& package_of(contract, publication.package_id) matches Some(package)
            &&& next.action matches PublicationActionView::ReadTemplate { path }
            &&& publication.target is Brew ==> (package.brew matches Some(branch)
                && branch.manifest_template matches Some(template) && path == path_join(
                publication.root,
                template@,
            ))
            &&& publication.target is Scoop ==> (package.scoop matches Some(branch)
                && branch.manifest_template matches Some(template) && path == path_join(
                publication.root,
                template@,
            ))
        },
{
    lemma_archives_are_described_as_stored(publication, contract, answers);
    if answers.len() > 0 {
        lemma_archives_are_described_as_stored(publication, contract, answers.drop_last());
    }
}

/// What announces a package is rendered from the template that was read, with the hashes that
/// were gathered. It is written to two files and uploaded from there, after the archives: under
/// the name of the package, and under the name of the package and its version.
pub proof fn lemma_announcements_are_made(
    publication: PublicationView,
    contract: ReleaseContract,
    artifacts: Seq<PackageArtifactView>,
    uploads: Seq<PlannedUploadView>,
    template: Seq<char>,
)
    requires
        publication.target is Brew || publication.target is Scoop,
    ensures
        advanced(
            publication,
            contract,
            PublicationStageView::Describing { artifacts, uploads },
            PublicationEventView::Text { text: template },
        ) matches Ok(next) ==> {
            let brew = publication.target is Brew;
            let manifest = PackageManifestView { artifacts, ..publication.manifest };
            let (directory, ending) = if brew {
                (path_join(path_join(publication.target_dir, "common"@), "brew"@), ".rb"@)
            } else {
                (path_join(path_join(publication.target_dir, "common"@), "scoop"@), ".json"@)
            };
            let latest = publication.package_id + ending;
            let versioned = publication.package_id + "-"@
                + publication.metadata.source_version.text() + ending;
            &&& next.action matches PublicationActionView::WriteAnnouncements {
                directory: written,
                paths,
                text,
            }
            &&& written == directory
            &&& paths == seq![path_join(directory, latest), path_join(directory, versioned)]
            &&& publication.target matches S3PublishTargetView::Brew(target) ==> (brew_variables(
                publication.package_id,
                publication.metadata,
                manifest,
                target.public_base_url,
            ) matches Ok(variables) && rendered(template, variables) matches Ok(filled)
                && filled == text)
            &&& publication.target matches S3PublishTargetView::Scoop(target) ==> (
            package_of(contract, publication.package_id) matches Some(package)
                && package.scoop matches Some(branch) && scoop_variables(
                publication.package_id,
                publication.metadata,
                manifest,
                target.public_base_url,
                deep(branch.bin@),
            ) matches Ok(variables) && rendered(template, variables) matches Ok(filled)
                && filled == text)
            &&& next.stage matches PublicationStageView::Announcing { uploads: all }
            &&& all == uploads + seq![
                PlannedUploadView {
                    path: path_join(directory, latest),
                    key: archive_prefix(publication) + "/"@ + latest,
                    entry: true,
                    condition: None,
                },
                PlannedUploadView {
                    path: path_join(directory, versioned),
                    key: archive_prefix(publication) + "/"@ + versioned,
                    entry: true,
                    condition: None,
                },
            ]
        },
{
    if let Ok(next) = advanced(
        publication,
        contract,
        PublicationStageView::Describing { artifacts, uploads },
        PublicationEventView::Text { text: template },
    ) {
        let paths = next.action->paths;
        assert(paths =~= seq![paths[0], paths[1]]);
    }
}

proof fn lemma_blocks_from(
    artifacts: Seq<PackageArtifactView>,
    base_url: Seq<char>,
    from: int,
    found: Seq<Seq<char>>,
)
    requires
        0 <= from <= artifacts.len(),
    ensures
        url_blocks(artifacts, base_url, from, found) matches Ok(blocks) ==> {
            &&& blocks.len() == found.len() + artifacts.len() - from
            &&& forall|i: int| 0 <= i < found.len() ==> blocks[i] == #[trigger] found[i]
            &&& forall|i: int|
                from <= i < artifacts.len() ==> (url_block(#[trigger] artifacts[i], base_url)
                    matches Ok(block) && blocks[found.len() + i - from] == block)
        },
    decreases artifacts.len() - from,
{
    if from < artifacts.len() {
        if let Ok(block) = url_block(artifacts[from], base_url) {
            let next = found.push(block);
            lemma_blocks_from(artifacts, base_url, from + 1, next);
            if let Ok(blocks) = url_blocks(artifacts, base_url, from, found) {
                assert forall|i: int| 0 <= i < found.len() implies blocks[i]
                    == #[trigger] found[i] by {
                    assert(next[i] == found[i]);
                }
                assert(blocks[found.len() as int] == next[found.len() as int]);
            }
        }
    }
}

/// The formula of a package names for each of its archives, under the processor that it is for,
/// the address below the public address of the storage and the hash.
pub proof fn lemma_formulas_name_every_archive(
    package_id: Seq<char>,
    metadata: ResolvedPackageMetadataView,
    manifest: PackageManifestView,
    base_url: Seq<char>,
    i: int,
)
    requires
        0 <= i < manifest.artifacts.len(),
    ensures
        brew_variables(package_id, metadata, manifest, base_url) matches Ok(variables) ==> {
            let artifact = manifest.artifacts[i];
            let urls = variables["brew.urls"@];
            &&& variables.contains_key("brew.urls"@)
            &&& variables.contains_key("homebrew.urls"@)
            &&& variables["homebrew.urls"@] == urls
            &&& exists|blocks: Seq<Seq<char>>|
                blocks.len() == manifest.artifacts.len() && urls == #[trigger] joined(
                    blocks,
                    "\n\n"@,
                )
            &&& artifact.archive_name matches Some(name) && (artifact.target
                == "aarch64-apple-darwin"@ && contains_text(
                urls,
                "  on_arm do\n    url \""@ + base_url + "/"@ + name + "\"\n    sha256 \""@
                    + artifact.sha256 + "\"\n  end"@,
            ) || artifact.target == "x86_64-apple-darwin"@ && contains_text(
                urls,
                "  on_intel do\n    url \""@ + base_url + "/"@ + name + "\"\n    sha256 \""@
                    + artifact.sha256 + "\"\n  end"@,
            ))
        },
{
    if let Ok(variables) = brew_variables(package_id, metadata, manifest, base_url) {
        let artifact = manifest.artifacts[i];
        let blocks = url_blocks(manifest.artifacts, base_url, 0, Seq::empty())->Ok_0;
        lemma_blocks_from(manifest.artifacts, base_url, 0, Seq::empty());
        assert(url_block(artifact, base_url) == Ok::<
            Seq<char>,
            BrewTemplateVariableErrorView,
        >(blocks[i]));
        lemma_joined_holds_every_part(blocks, "\n\n"@, i);
        assert(joined(blocks, "\n\n"@) == url_section(manifest, base_url)->Ok_0);
        lemma_variable_names();
        reveal_strlit("  ");
        reveal_strlit(" do\n    url \"");
        reveal_strlit("  on_arm do\n    url \"");
        reveal_strlit("  on_intel do\n    url \"");
        reveal_strlit("on_arm");
        reveal_strlit("on_intel");
        assert("  "@ + "on_arm"@ + " do\n    url \""@ =~= "  on_arm do\n    url \""@);
        assert("  "@ + "on_intel"@ + " do\n    url \""@ =~= "  on_intel do\n    url \""@);
        let name = artifact.archive_name->0;
        if artifact.target == "aarch64-apple-darwin"@ {
            assert(blocks[i] =~= "  on_arm do\n    url \""@ + base_url + "/"@ + name
                + "\"\n    sha256 \""@ + artifact.sha256 + "\"\n  end"@);
        } else {
            assert(blocks[i] =~= "  on_intel do\n    url \""@ + base_url + "/"@ + name
                + "\"\n    sha256 \""@ + artifact.sha256 + "\"\n  end"@);
        }
    }
}

proof fn lemma_members_from(
    artifacts: Seq<PackageArtifactView>,
    base_url: Seq<char>,
    hashed: bool,
    from: int,
    found: Seq<JsonMemberView>,
)
    requires
        0 <= from <= artifacts.len(),
    ensures
        artifact_members(artifacts, base_url, hashed, from, found) matches Ok(members) ==> {
            &&& members.len() == found.len() + artifacts.len() - from
            &&& forall|i: int| 0 <= i < found.len() ==> members[i] == #[trigger] found[i]
            &&& forall|i: int|
                from <= i < artifacts.len() ==> (artifact_member(
                    #[trigger] artifacts[i],
                    base_url,
                    hashed,
                ) matches Ok(member) && members[found.len() + i - from] == member)
        },
    decreases artifacts.len() - from,
{
    if from < artifacts.len() {
        if let Ok(member) = artifact_member(artifacts[from], base_url, hashed) {
            let next = found.push(member);
            lemma_members_from(artifacts, base_url, hashed, from + 1, next);
            if let Ok(members) = artifact_members(artifacts, base_url, hashed, from, found) {
                assert forall|i: int| 0 <= i < found.len() implies members[i]
                    == #[trigger] found[i] by {
                    assert(next[i] == found[i]);
                }
                assert(members[found.len() as int] == next[found.len() as int]);
            }
        }
    }
}

/// Whether a member of a Scoop manifest is the one of an archive: it is named after the width
/// of the processor, and its first field is the address of the archive below the public address
/// of the storage.
pub open spec fn names_archive(
    member: JsonMemberView,
    artifact: PackageArtifactView,
    base_url: Seq<char>,
) -> bool {
    &&& artifact.target == "x86_64-pc-windows-msvc"@ ==> member.name == "64bit"@
    &&& artifact.target == "i686-pc-windows-msvc"@ ==> member.name == "32bit"@
    &&& artifact.target == "x86_64-pc-windows-msvc"@ || artifact.target
        == "i686-pc-windows-msvc"@
    &&& artifact.archive_name matches Some(name) && member.fields.len() > 0
        && member.fields[0] == (JsonTextView {
        name: "url"@,
        text: base_url + "/"@ + name,
    })
}

/// The Scoop manifest of a package names each of its archives, in order, with the hash where it
/// is installed from and without one where it is looked up again. It names every program of the
/// package.
pub proof fn lemma_scoop_names_every_archive(
    package_id: Seq<char>,
    metadata: ResolvedPackageMetadataView,
    manifest: PackageManifestView,
    base_url: Seq<char>,
    bin: Seq<Seq<char>>,
)
    ensures
        scoop_variables(package_id, metadata, manifest, base_url, bin) matches Ok(variables) ==> {
            &&& layout(manifest, base_url, true) matches Ok(installed)
            &&& layout(manifest, base_url, false) matches Ok(updated)
            &&& variables["scoop.bin.json"@] == pretty_json(JsonDocumentView::List(bin))
            &&& variables["scoop.architecture.json"@] == pretty_json(
                JsonDocumentView::Object(installed),
            )
            &&& variables["scoop.autoupdate.json"@] == pretty_json(
                JsonDocumentView::Object(updated),
            )
            &&& installed.len() == manifest.artifacts.len()
            &&& updated.len() == manifest.artifacts.len()
            &&& forall|i: int|
                0 <= i < manifest.artifacts.len() ==> names_archive(
                    #[trigger] installed[i],
                    manifest.artifacts[i],
                    base_url,
                ) && installed[i].fields.len() == 2 && installed[i].fields[1] == (JsonTextView {
                    name: "hash"@,
                    text: manifest.artifacts[i].sha256,
                })
            &&& forall|i: int|
                0 <= i < manifest.artifacts.len() ==> names_archive(
                    #[trigger] updated[i],
                    manifest.artifacts[i],
                    base_url,
                ) && updated[i].fields.len() == 1
        },
{
    if let Ok(variables) = scoop_variables(package_id, metadata, manifest, base_url, bin) {
        reveal_strlit("scoop.bin.json");
        reveal_strlit("scoop.architecture.json");
        reveal_strlit("scoop.autoupdate.json");
        assert("scoop.bin.json"@.len() == 14);
        assert("scoop.architecture.json"@.len() == 23);
        assert("scoop.autoupdate.json"@.len() == 21);
        reveal_strlit("x86_64-pc-windows-msvc");
        reveal_strlit("i686-pc-windows-msvc");
        assert("x86_64-pc-windows-msvc"@.len() == 22);
        assert("i686-pc-windows-msvc"@.len() == 20);
        let artifacts = manifest.artifacts;
        lemma_members_from(artifacts, base_url, true, 0, Seq::empty());
        lemma_members_from(artifacts, base_url, false, 0, Seq::empty());
        let installed = layout(manifest, base_url, true)->Ok_0;
        let updated = layout(manifest, base_url, false)->Ok_0;
        assert forall|i: int| 0 <= i < artifacts.len() implies names_archive(
            #[trigger] installed[i],
            artifacts[i],
            base_url,
        ) && installed[i].fields.len() == 2 && installed[i].fields[1] == (JsonTextView {
            name: "hash"@,
            text: artifacts[i].sha256,
        }) by {
            assert(artifact_member(artifacts[i], base_url, true)->Ok_0 == installed[i]);
        }
        assert forall|i: int| 0 <= i < artifacts.len() implies names_archive(
            #[trigger] updated[i],
            artifacts[i],
            base_url,
        ) && updated[i].fields.len() == 1 by {
            assert(artifact_member(artifacts[i], base_url, false)->Ok_0 == updated[i]);
        }
    }
}

/// A Scoop manifest says of its package what it is, which programs it has, and where to look for
/// a newer one: at the manifest that is replaced with each version.
pub proof fn lemma_scoop_manifests_say_what_they_install(
    package_id: Seq<char>,
    metadata: ResolvedPackageMetadataView,
    manifest: PackageManifestView,
    base_url: Seq<char>,
    bin: Seq<Seq<char>>,
)
    ensures
        manifest_of(package_id, metadata, manifest, base_url, bin) matches Ok(said) ==> {
            &&& said.version == metadata.source_version.text()
            &&& said.description == metadata.description
            &&& said.license == metadata.license
            &&& said.homepage == metadata.homepage
            &&& said.bin == bin && bin.len() > 0
            &&& layout(manifest, base_url, true) matches Ok(installed)
            &&& said.architecture == installed
            &&& layout(manifest, base_url, false) matches Ok(updated)
            &&& said.autoupdate == updated
            &&& said.checkver.url == base_url + "/"@ + (package_id + ".json"@)
            &&& said.checkver.re == "\"version\"\\s*:\\s*\"([^\"]+)\""@
        },
{
}

/// Once the announcements are written, everything that was gathered is uploaded, each once,
/// and the archives before what announces them.
pub proof fn lemma_gathered_uploads_are_made(
    publication: PublicationView,
    contract: ReleaseContract,
    uploads: Seq<PlannedUploadView>,
)
    requires
        uploads.len() > 0,
    ensures
        advanced(
            publication,
            contract,
            PublicationStageView::Announcing { uploads },
            PublicationEventView::Done,
        ) matches Ok(next) && {
            &&& next.stage matches PublicationStageView::Uploading { waiting }
            &&& next.action matches PublicationActionView::Upload { upload: first }
                ==> !publication.dry_run && is_made_of(uploads, first, waiting)
            &&& next.action matches PublicationActionView::Report { upload: first }
                ==> publication.dry_run && is_made_of(uploads, first, waiting)
            &&& next.action is Upload || next.action is Report
        },
{
    lemma_publish_uploads_in_order(uploads);
    let ordered = upload_order(uploads);
    vstd::seq_lib::to_multiset_len(ordered);
    vstd::seq_lib::to_multiset_len(uploads);
    assert(seq![ordered[0]] + ordered.drop_first() =~= ordered);
}

/// Whether an upload and those that wait are what was gathered, in an order in which nothing
/// that is replaced comes before something that is not.
pub open spec fn is_made_of(
    uploads: Seq<PlannedUploadView>,
    first: PlannedUploadView,
    waiting: Seq<PlannedUploadView>,
) -> bool {
    let made = seq![first] + waiting;
    &&& made.to_multiset() == uploads.to_multiset()
    &&& forall|i: int, j: int|
        0 <= i < j < made.len() && (#[trigger] made[i]).entry ==> (#[trigger] made[j]).entry
}

/// While uploads wait, the first of them is made next and the others go on waiting; once none
/// waits, the publication ends.
pub proof fn lemma_uploads_are_made_one_by_one(
    publication: PublicationView,
    contract: ReleaseContract,
    waiting: Seq<PlannedUploadView>,
)
    ensures
        advanced(
            publication,
            contract,
            PublicationStageView::Uploading { waiting },
            PublicationEventView::Done,
        ) matches Ok(next) && if waiting.len() == 0 {
            next.action is Finish && next.stage is Finished
        } else {
            &&& next.stage matches PublicationStageView::Uploading { waiting: left }
            &&& waiting == seq![waiting[0]] + left
            &&& next.action == if publication.dry_run {
                PublicationActionView::Report { upload: waiting[0] }
            } else {
                PublicationActionView::Upload { upload: waiting[0] }
            }
        },
{
    if waiting.len() > 0 {
        assert(waiting =~= seq![waiting[0]] + waiting.drop_first());
    }
}

/// The names of the variables of a formula differ.
proof fn lemma_variable_names()
    ensures
        "brew.urls"@ != "homebrew.urls"@,
        "brew.urls"@ != "homebrew.class"@,
        "brew.urls"@ != "homebrew.ssh_session_install"@,
        "homebrew.urls"@ != "homebrew.ssh_session_install"@,
        "brew.urls"@ != "build.features.csv"@,
        "brew.urls"@ != "build.features.ruby_array"@,
        "homebrew.urls"@ != "build.features.csv"@,
        "homebrew.urls"@ != "build.features.ruby_array"@,
{
    reveal_strlit("brew.urls");
    reveal_strlit("homebrew.urls");
    reveal_strlit("homebrew.class");
    reveal_strlit("homebrew.ssh_session_install");
    reveal_strlit("build.features.csv");
    reveal_strlit("build.features.ruby_array");
    assert("brew.urls"@.len() == 9);
    assert("homebrew.urls"@.len() == 13);
}

} // verus!
