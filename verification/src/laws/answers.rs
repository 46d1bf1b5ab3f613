//! Laws of when an answer is owed: on which inputs the library goes on, and on which alone it
//! refuses.

use vstd::prelude::*;

use crate::brew::{brew_variables, url_block, url_blocks};
use crate::building::{build_advanced, BuildEventView, BuildHostView, BuildStageView};
use crate::channel::ReleaseChannel;
use crate::cli::{
    patch_override, patch_overrides, section_args, sibling_source, sibling_sources,
    CommandTokenView, PackageBuildRequestView, PackageSectionOptionsView,
};
use crate::contract::{branch_of, package_of, template_of, PackageContract, ReleaseContract};
use crate::laws::sources::manifest_place;
use crate::laws::uploading::{has_conditions, lemma_looking_on_succeeds};
use crate::manifest::{PackageArtifactView, PackageManifestView};
use crate::package::{
    cargo_package, is_package_id, metadata_of, CargoMetadataView, PackageId,
    ResolvedPackageMetadataView,
};
use crate::plan::{
    bound_build, planned_units, request_overlay, request_units, requested_profile,
    selected_branches, PlannedPackageBuildView, SelectedBuildBranchView,
};
use crate::publication::{
    advanced, bin_of, opening, publication_of, target_system_of, PublicationEventView,
    PublicationStageView, PublicationView,
};
use crate::publish::{
    publish_env_names, publish_target, RemotePayloadStateView, S3PublishTargetView,
    UploadConditionView,
};
use crate::requirements::{branch_version, package_version_of, resolved_requires};
use crate::runner::{first_cargo_package, system_manifest, unit_env};
use crate::s3::{deb_repository, rpm_repository, PlannedUploadView};
use crate::scoop::{artifact_member, artifact_members, scoop_variables, JsonMemberView};
use crate::sibling::{ContainerOverlayPlanView, PatchOverrideView, SiblingSourceView};
use crate::system::PackageSystem;
use crate::template::rendered;
use crate::text::trimmed_space;
use crate::version::parsed_version;

verus! {

/// Whether a text is there and not empty.
pub open spec fn is_filled(text: Option<Seq<char>>) -> bool {
    text is Some && text->0.len() > 0
}

/// A host is arranged exactly where the image defines its Cargo home, and the host defines its
/// own or a home to keep it in.
pub proof fn lemma_hosts_can_be_arranged(
    host: BuildHostView,
    contract: ReleaseContract,
    cargo: Map<Seq<char>, CargoMetadataView>,
    unit: PlannedPackageBuildView,
    image: Seq<char>,
    env: Map<Seq<char>, Seq<char>>,
    answer: Seq<char>,
)
    ensures
        build_advanced(
            host,
            contract,
            cargo,
            unit,
            BuildStageView::Asking { image, env },
            BuildEventView::Text { text: answer },
        ) is Ok <==> trimmed_space(answer).len() > 0 && (is_filled(host.cargo_home) || is_filled(
            host.home,
        )),
{
}

/// What a build is told can be told exactly where the metadata of its package resolve, its
/// branch gives them a version, and, for a Linux package, what it requires resolves.
pub proof fn lemma_builds_can_be_told(
    contract: ReleaseContract,
    root: Seq<char>,
    target_dir: Seq<char>,
    cargo: Map<Seq<char>, CargoMetadataView>,
    unit: PlannedPackageBuildView,
)
    ensures
        unit_env(contract, root, target_dir, cargo, unit) is Ok <==> {
            &&& metadata_of(contract, unit.package_id, root, cargo) is Ok
            &&& package_of(contract, unit.package_id) is Some
            &&& branch_of(package_of(contract, unit.package_id)->0, unit.system) is Some
            &&& branch_version(
                branch_of(package_of(contract, unit.package_id)->0, unit.system)->0,
                metadata_of(contract, unit.package_id, root, cargo)->Ok_0.source_version,
            ) is Ok
            &&& unit.system is Deb || unit.system is Rpm ==> resolved_requires(
                contract,
                root,
                unit.package_id,
                unit.system,
                cargo,
            ) is Ok
        },
{
}

/// The version of a package in a package system is that of its metadata with the revision or the
/// release of its branch; it is there exactly where the metadata resolve, the branch is there,
/// and a Linux branch states its part of the version.
pub proof fn lemma_packages_have_their_version(
    contract: ReleaseContract,
    root: Seq<char>,
    package: Seq<char>,
    system: PackageSystem,
    cargo: Map<Seq<char>, CargoMetadataView>,
    dependency: bool,
)
    ensures
        ({
            let answer = package_version_of(contract, root, package, system, cargo, dependency);
            &&& answer is Ok <==> {
                &&& package_of(contract, package) is Some
                &&& metadata_of(contract, package, root, cargo) is Ok
                &&& branch_of(package_of(contract, package)->0, system) is Some
                &&& system is Deb ==> package_of(contract, package)->0.deb->0.revision@.len() > 0
                &&& system is Rpm ==> package_of(contract, package)->0.rpm->0.release@.len() > 0
            }
            &&& answer matches Ok(version) ==> {
                let source = metadata_of(contract, package, root, cargo)->Ok_0.source_version;
                let stated = package_of(contract, package)->0;
                &&& system is Deb ==> version.text() == source.linux_text() + "-"@
                    + stated.deb->0.revision@
                &&& system is Rpm ==> version.text() == source.linux_text() + "-"@
                    + stated.rpm->0.release@
                &&& system is Brew || system is Scoop ==> version.text() == source.text()
            }
        }),
{
}

/// A publication begins exactly where the manifest names a package, its metadata resolve, and
/// there is a target for it.
pub proof fn lemma_publications_can_begin(
    contract: ReleaseContract,
    root: Seq<char>,
    target_dir: Seq<char>,
    cargo: Map<Seq<char>, CargoMetadataView>,
    values: Map<Seq<char>, Seq<char>>,
    manifest: PackageManifestView,
    dry_run: bool,
)
    ensures
        publication_of(contract, root, target_dir, cargo, values, manifest, dry_run) is Ok <==> {
            &&& is_package_id(manifest.package)
            &&& metadata_of(contract, manifest.package, root, cargo) is Ok
            &&& publish_target(
                contract,
                manifest.kind,
                if metadata_of(
                    contract,
                    manifest.package,
                    root,
                    cargo,
                )->Ok_0.source_version.pre.len() == 0 {
                    ReleaseChannel::Stable
                } else {
                    ReleaseChannel::Preview
                },
                values,
            ) is Ok
        },
{
}

/// The metadata of a package that states them resolve exactly where it states a version and what
/// describes it; those of a package with a Cargo manifest, exactly where Cargo read the manifest
/// and says of its package what describes it.
pub proof fn lemma_metadata_can_be_resolved(
    contract: ReleaseContract,
    package: Seq<char>,
    root: Seq<char>,
    cargo: Map<Seq<char>, CargoMetadataView>,
)
    requires
        package_of(contract, package) is Some,
    ensures
        ({
            let stated = package_of(contract, package)->0;
            match stated.manifest {
                None => metadata_of(contract, package, root, cargo) is Ok <==> {
                    &&& stated.version is Some && parsed_version(stated.version->0@) is Some
                    &&& stated.description is Some && stated.description->0@.len() > 0
                    &&& stated.license is Some && stated.license->0@.len() > 0
                    &&& stated.homepage is Some && stated.homepage->0@.len() > 0
                },
                Some(manifest) => {
                    let path = manifest_place(root, manifest@);
                    metadata_of(contract, package, root, cargo) is Ok <==> {
                        &&& cargo.contains_key(path) && cargo[path] is Read
                        &&& cargo_package(cargo[path], path) is Some
                        &&& cargo_package(cargo[path], path)->0.description is Some
                        &&& cargo_package(cargo[path], path)->0.license is Some
                        &&& cargo_package(cargo[path], path)->0.homepage is Some
                    }
                },
            }
        }),
{
}

proof fn lemma_blocks_can_be_made(
    artifacts: Seq<PackageArtifactView>,
    base_url: Seq<char>,
    from: int,
    found: Seq<Seq<char>>,
)
    requires
        0 <= from <= artifacts.len(),
    ensures
        url_blocks(artifacts, base_url, from, found) is Ok <==> forall|i: int|
            from <= i < artifacts.len() ==> is_mac_archive(#[trigger] artifacts[i]),
    decreases artifacts.len() - from,
{
    if from < artifacts.len() {
        assert(url_block(artifacts[from], base_url) is Ok <==> is_mac_archive(artifacts[from]));
        if let Ok(block) = url_block(artifacts[from], base_url) {
            lemma_blocks_can_be_made(artifacts, base_url, from + 1, found.push(block));
        }
    }
}

/// Whether an artifact is an archive for one of the processors that Homebrew knows.
pub open spec fn is_mac_archive(artifact: PackageArtifactView) -> bool {
    artifact.archive_name is Some && (artifact.target == "aarch64-apple-darwin"@
        || artifact.target == "x86_64-apple-darwin"@)
}

/// Whether an artifact is an archive for one of the processors that Scoop knows.
pub open spec fn is_windows_archive(artifact: PackageArtifactView) -> bool {
    artifact.archive_name is Some && (artifact.target == "x86_64-pc-windows-msvc"@
        || artifact.target == "i686-pc-windows-msvc"@)
}

/// A formula can be filled exactly where its manifest is one of Homebrew whose artifacts are all
/// archives for processors that Homebrew knows.
pub proof fn lemma_formulas_can_be_filled(
    package_id: Seq<char>,
    metadata: ResolvedPackageMetadataView,
    manifest: PackageManifestView,
    base_url: Seq<char>,
)
    ensures
        brew_variables(package_id, metadata, manifest, base_url) is Ok <==> manifest.kind is Brew
            && forall|i: int|
            0 <= i < manifest.artifacts.len() ==> is_mac_archive(#[trigger] manifest.artifacts[i]),
{
    lemma_blocks_can_be_made(manifest.artifacts, base_url, 0, Seq::empty());
}

proof fn lemma_members_can_be_made(
    artifacts: Seq<PackageArtifactView>,
    base_url: Seq<char>,
    hashed: bool,
    from: int,
    found: Seq<JsonMemberView>,
)
    requires
        0 <= from <= artifacts.len(),
    ensures
        artifact_members(artifacts, base_url, hashed, from, found) is Ok <==> forall|i: int|
            from <= i < artifacts.len() ==> is_windows_archive(#[trigger] artifacts[i]),
    decreases artifacts.len() - from,
{
    if from < artifacts.len() {
        assert(artifact_member(artifacts[from], base_url, hashed) is Ok <==> is_windows_archive(
            artifacts[from],
        ));
        if let Ok(member) = artifact_member(artifacts[from], base_url, hashed) {
            lemma_members_can_be_made(
                artifacts,
                base_url,
                hashed,
                from + 1,
                found.push(member),
            );
        }
    }
}

/// A Scoop manifest can be filled exactly where its manifest is one of Scoop whose artifacts are
/// all archives for processors that Scoop knows, and the package has a program.
pub proof fn lemma_scoop_manifests_can_be_filled(
    package_id: Seq<char>,
    metadata: ResolvedPackageMetadataView,
    manifest: PackageManifestView,
    base_url: Seq<char>,
    bin: Seq<Seq<char>>,
)
    ensures
        scoop_variables(package_id, metadata, manifest, base_url, bin) is Ok
            <==> manifest.kind is Scoop && bin.len() > 0 && forall|i: int|
            0 <= i < manifest.artifacts.len() ==> is_windows_archive(
                #[trigger] manifest.artifacts[i],
            ),
{
    lemma_members_can_be_made(manifest.artifacts, base_url, true, 0, Seq::empty());
    lemma_members_can_be_made(manifest.artifacts, base_url, false, 0, Seq::empty());
}

/// Whatever stands at the key of an archive, the publication goes on: with the next archive,
/// where that has a name, or with the template, where the branch names one. It says what stands
/// there where it is not uploaded.
pub proof fn lemma_located_archives_go_on(
    publication: PublicationView,
    contract: ReleaseContract,
    artifacts: Seq<PackageArtifactView>,
    uploads: Seq<PlannedUploadView>,
    key: Seq<char>,
    sha256: Seq<char>,
    remote: RemotePayloadStateView,
)
    requires
        artifacts.len() < publication.manifest.artifacts.len(),
    ensures
        ({
            let all = publication.manifest.artifacts;
            let answer = advanced(
                publication,
                contract,
                PublicationStageView::Locating { artifacts, uploads, key, sha256 },
                PublicationEventView::Located { remote },
            );
            &&& artifacts.len() + 1 < all.len() ==> (answer is Ok <==> all[artifacts.len() as int
                + 1].archive_name is Some)
            &&& artifacts.len() + 1 == all.len() ==> (answer is Ok <==> {
                &&& package_of(contract, publication.package_id) is Some
                &&& branch_of(
                    package_of(contract, publication.package_id)->0,
                    target_system_of(publication.target),
                ) is Some
                &&& template_of(
                    branch_of(
                        package_of(contract, publication.package_id)->0,
                        target_system_of(publication.target),
                    )->0,
                ) is Some
            })
            &&& answer matches Ok(next) ==> match remote {
                RemotePayloadStateView::Missing => next.notice is None,
                RemotePayloadStateView::Present { sha256: stored } => next.notice == Some(
                    if stored == sha256 {
                        "remote immutable package artifact already has matching sha256: "@ + key
                    } else {
                        "remote immutable package artifact already exists with different sha256; reusing remote payload for metadata: "@
                            + key
                    },
                ),
            }
        }),
{
}

/// A publication of archives begins with the first of them, where it has a name.
pub proof fn lemma_first_archives_are_asked_for(
    publication: PublicationView,
    contract: ReleaseContract,
)
    requires
        publication.target is Brew || publication.target is Scoop,
        publication.manifest.artifacts.len() > 0,
    ensures
        opening(publication, contract) is Ok
            <==> publication.manifest.artifacts[0].archive_name is Some,
{
}

/// The publication of a repository goes on from what is stored exactly where the repository can
/// be planned from it.
pub proof fn lemma_planned_repositories_go_on(
    publication: PublicationView,
    contract: ReleaseContract,
    texts: Seq<Seq<char>>,
)
    ensures
        publication.target is Deb ==> (advanced(
            publication,
            contract,
            PublicationStageView::Indexing,
            PublicationEventView::Indexes { contents: texts },
        ) is Ok <==> deb_repository(publication.manifest, texts) is Ok),
        publication.target matches S3PublishTargetView::Rpm(target) ==> (advanced(
            publication,
            contract,
            PublicationStageView::Listing,
            PublicationEventView::Keys { keys: texts },
        ) is Ok <==> rpm_repository(publication.manifest, target.prefix, texts) is Ok),
{
}

/// A build starts exactly where it can be told what it is told.
pub proof fn lemma_told_builds_start(
    host: BuildHostView,
    contract: ReleaseContract,
    cargo: Map<Seq<char>, CargoMetadataView>,
    unit: PlannedPackageBuildView,
)
    ensures
        build_advanced(
            host,
            contract,
            cargo,
            unit,
            BuildStageView::Preparing,
            BuildEventView::Done,
        ) is Ok <==> unit_env(contract, host.root, host.target_dir, cargo, unit) is Ok,
{
}

/// What announces a package can be made exactly where the variables of its template can be
/// filled in and the template names no others.
pub proof fn lemma_announcements_can_be_made(
    publication: PublicationView,
    contract: ReleaseContract,
    artifacts: Seq<PackageArtifactView>,
    uploads: Seq<PlannedUploadView>,
    template: Seq<char>,
)
    ensures
        ({
            let answer = advanced(
                publication,
                contract,
                PublicationStageView::Describing { artifacts, uploads },
                PublicationEventView::Text { text: template },
            );
            let manifest = PackageManifestView { artifacts, ..publication.manifest };
            &&& publication.target matches S3PublishTargetView::Brew(target) ==> (answer is Ok <==> (
            brew_variables(
                publication.package_id,
                publication.metadata,
                manifest,
                target.public_base_url,
            ) matches Ok(variables) && rendered(template, variables) is Ok))
            &&& publication.target matches S3PublishTargetView::Scoop(target) ==> (answer is Ok
                <==> (scoop_variables(
                publication.package_id,
                publication.metadata,
                manifest,
                target.public_base_url,
                bin_of(contract, publication.package_id),
            ) matches Ok(variables) && rendered(template, variables) is Ok))
        }),
{
}

/// A package that is missing or the same in the storage lets the publication go on as long as
/// another package is to be looked at, or every entry has its condition.
pub proof fn lemma_inspected_packages_go_on(
    publication: PublicationView,
    contract: ReleaseContract,
    upload: PlannedUploadView,
    pending: Seq<PlannedUploadView>,
    planned: Seq<PlannedUploadView>,
    conditions: Option<Map<Seq<char>, UploadConditionView>>,
    sha256: Seq<char>,
    remote: RemotePayloadStateView,
)
    requires
        !upload.entry,
        remote matches RemotePayloadStateView::Present { sha256: stored } ==> stored == sha256,
    ensures
        advanced(
            publication,
            contract,
            PublicationStageView::Inspecting { upload, pending, planned, conditions },
            PublicationEventView::Payload { sha256, remote },
        ) is Ok <==> (exists|i: int| 0 <= i < pending.len() && !(#[trigger] pending[i]).entry)
            || has_conditions(planned + pending, conditions),
{
    let made = PlannedUploadView { condition: Some(UploadConditionView::IfMissing), ..upload };
    let added = planned.push(made);
    lemma_looking_on_succeeds(publication, pending, added, conditions, None);
    lemma_looking_on_succeeds(
        publication,
        pending,
        planned,
        conditions,
        Some(
            "remote immutable package artifact already has matching sha256: "@ + upload.key,
        ),
    );
    let with = added + pending;
    let without = planned + pending;
    if has_conditions(with, conditions) {
        if let Some(read) = conditions {
            assert forall|i: int|
                0 <= i < without.len() && (#[trigger] without[i]).entry implies read.contains_key(
                without[i].key,
            ) by {
                if i < planned.len() {
                    assert(with[i] == without[i]);
                } else {
                    assert(with[i + 1] == without[i]);
                }
            }
        }
    }
    if has_conditions(without, conditions) {
        if let Some(read) = conditions {
            assert forall|i: int|
                0 <= i < with.len() && (#[trigger] with[i]).entry implies read.contains_key(
                with[i].key,
            ) by {
                if i < planned.len() {
                    assert(with[i] == without[i]);
                } else if i > planned.len() {
                    assert(with[i] == without[i - 1]);
                }
            }
        }
    }
}

proof fn lemma_units_can_be_planned(
    contract: ReleaseContract,
    selected: Seq<SelectedBuildBranchView<'_>>,
    build: PackageBuildRequestView,
    overlay: Option<ContainerOverlayPlanView>,
    with_primary: bool,
    values: Map<Seq<char>, Seq<char>>,
    from: int,
    found: Seq<PlannedPackageBuildView>,
)
    requires
        0 <= from <= selected.len(),
    ensures
        planned_units(
            contract,
            selected,
            build,
            overlay,
            with_primary,
            values,
            from,
            found,
        ) is Ok <==> forall|i: int|
            from <= i < selected.len() ==> can_be_bound(
                contract,
                #[trigger] selected[i],
                build,
                values,
            ),
    decreases selected.len() - from,
{
    if from < selected.len() {
        let unit = selected[from];
        if can_be_bound(contract, unit, build, values) {
            let invocation = bound_build(
                contract,
                unit.package_id,
                unit.system,
                unit.target,
                requested_profile(build.args.debug),
                build.args.features,
                values,
            )->Ok_0;
            lemma_units_can_be_planned(
                contract,
                selected,
                build,
                overlay,
                with_primary,
                values,
                from + 1,
                found.push(
                    PlannedPackageBuildView {
                        package_id: unit.package_id,
                        system: unit.system,
                        target: unit.target,
                        invocation,
                        source_overlay: if with_primary && invocation.container is None {
                            None
                        } else {
                            overlay
                        },
                    },
                ),
            );
        }
    }
}

/// Whether the variables of a build that was selected can be bound.
pub open spec fn can_be_bound(
    contract: ReleaseContract,
    unit: SelectedBuildBranchView<'_>,
    build: PackageBuildRequestView,
    values: Map<Seq<char>, Seq<char>>,
) -> bool {
    bound_build(
        contract,
        unit.package_id,
        unit.system,
        unit.target,
        requested_profile(build.args.debug),
        build.args.features,
        values,
    ) is Ok
}

/// A request for builds is answered exactly where it selects something, its overlay can be
/// planned, and the variables of every build can be bound.
pub proof fn lemma_requests_can_be_planned(
    contract: ReleaseContract,
    build: PackageBuildRequestView,
    primary: Option<SiblingSourceView>,
    values: Map<Seq<char>, Seq<char>>,
    found: Seq<PlannedPackageBuildView>,
)
    ensures
        request_units(contract, build, primary, values, found) is Ok <==> {
            &&& selected_branches(contract, build.system, build.args.targets) is Ok
            &&& request_overlay(build, primary) is Ok
            &&& forall|i: int|
                0 <= i < selected_branches(
                    contract,
                    build.system,
                    build.args.targets,
                )->Ok_0.len() ==> can_be_bound(
                    contract,
                    #[trigger] selected_branches(
                        contract,
                        build.system,
                        build.args.targets,
                    )->Ok_0[i],
                    build,
                    values,
                )
        },
{
    if let Ok(selected) = selected_branches(contract, build.system, build.args.targets) {
        if let Ok(overlay) = request_overlay(build, primary) {
            lemma_units_can_be_planned(
                contract,
                selected,
                build,
                overlay,
                primary is Some,
                values,
                0,
                found,
            );
        }
    }
}

proof fn lemma_siblings_can_be_read(
    tokens: Seq<CommandTokenView>,
    from: int,
    found: Seq<SiblingSourceView>,
)
    requires
        0 <= from <= tokens.len(),
    ensures
        sibling_sources(tokens, from, found) is Ok <==> forall|i: int|
            from <= i < tokens.len() ==> sibling_source(#[trigger] tokens[i]) is Ok,
    decreases tokens.len() - from,
{
    if from < tokens.len() {
        if let Ok(named) = sibling_source(tokens[from]) {
            let next = match named {
                Some(source) => found.push(source),
                None => found,
            };
            lemma_siblings_can_be_read(tokens, from + 1, next);
        }
    }
}

/// Whether three words after another are a patch.
pub open spec fn is_patch(words: Seq<Seq<char>>, i: int) -> bool {
    patch_override(words[3 * i], words[3 * i + 1], words[3 * i + 2]) is Ok
}

proof fn lemma_patches_can_be_read(words: Seq<Seq<char>>, at: int, found: Seq<PatchOverrideView>)
    requires
        0 <= at,
        3 * at <= words.len(),
    ensures
        patch_overrides(words, 3 * at, found) is Ok <==> forall|i: int|
            at <= i < words.len() / 3 ==> #[trigger] is_patch(words, i),
    decreases words.len() - 3 * at,
{
    if 3 * at + 3 <= words.len() {
        assert(patch_override(words[3 * at], words[3 * at + 1], words[3 * at + 2]) is Ok
            <==> is_patch(words, at));
        if let Ok(patch) = patch_override(words[3 * at], words[3 * at + 1], words[3 * at + 2]) {
            assert(3 * at + 3 == 3 * (at + 1));
            lemma_patches_can_be_read(words, at + 1, found.push(patch));
        }
    }
}

/// What a section asks for can be read exactly where every sibling can, and every three words
/// after another are a patch.
pub proof fn lemma_sections_can_be_read(options: PackageSectionOptionsView)
    ensures
        section_args(options) is Ok <==> {
            &&& forall|i: int|
                0 <= i < options.siblings.len() ==> sibling_source(
                    #[trigger] options.siblings[i],
                ) is Ok
            &&& forall|i: int|
                0 <= i < options.patches.len() / 3 ==> #[trigger] is_patch(options.patches, i)
        },
{
    lemma_siblings_can_be_read(options.siblings, 0, Seq::empty());
    lemma_patches_can_be_read(options.patches, 0, Seq::empty());
}

/// A manifest can be written exactly where the contract has a package whose metadata resolve:
/// the one that it is written for.
pub proof fn lemma_manifests_can_be_made(
    contract: ReleaseContract,
    contract_root: Seq<char>,
    cargo: Map<Seq<char>, CargoMetadataView>,
    system: PackageSystem,
    artifacts: Seq<PackageArtifactView>,
    generated_at: Seq<char>,
)
    ensures
        contract.package.items().len() == 0 ==> system_manifest(
            contract,
            contract_root,
            cargo,
            system,
            artifacts,
            generated_at,
        ) is Err,
        contract.package.items().len() > 0 && (forall|i: int|
            0 <= i < contract.package.items().len() ==> metadata_of(
                contract,
                (#[trigger] contract.package.items()[i]).0.deep_view(),
                contract_root,
                cargo,
            ) is Ok) ==> system_manifest(
            contract,
            contract_root,
            cargo,
            system,
            artifacts,
            generated_at,
        ) is Ok,
{
    let packages = contract.package.items();
    lemma_first_is_a_package(packages, 0);
    if packages.len() > 0 {
        assert(packages[0].0.deep_view() == packages[0].0.deep_view());
    }
}

proof fn lemma_first_is_a_package(
    packages: Seq<(PackageId, PackageContract)>,
    from: int,
)
    requires
        0 <= from <= packages.len(),
    ensures
        first_cargo_package(packages, from) matches Some(package) ==> exists|i: int|
            0 <= i < packages.len() && (#[trigger] packages[i]).0.deep_view() == package,
    decreases packages.len() - from,
{
    if from < packages.len() && packages[from].1.manifest is None {
        lemma_first_is_a_package(packages, from + 1);
    }
}

/// A publication reads exactly these variables: those of the storage, and those of the tokens of
/// an index, or of the key that signs a Debian repository.
pub proof fn lemma_publish_variables_are_those_of_the_contract(
    contract: ReleaseContract,
    system: PackageSystem,
    name: Seq<char>,
)
    ensures
        publish_env_names(contract, system) matches Ok(names) ==> {
            let s3 = contract.destination.s3;
            names.contains(name) <==> {
                ||| name == s3.endpoint.env@
                ||| name == s3.access_key_id.env@
                ||| name == s3.secret_access_key.env@
                ||| system is Brew && (name == s3.brew->0.stable.tap.token.env@ || name
                    == s3.brew->0.preview.tap.token.env@)
                ||| system is Scoop && (name == s3.scoop->0.stable.bucket.token.env@ || name
                    == s3.scoop->0.preview.bucket.token.env@)
                ||| system is Deb && (name == s3.deb->0.signing.key.env@ || name
                    == s3.deb->0.signing.passphrase.env@ || name
                    == s3.deb->0.signing.fingerprint.env@)
            }
        },
        publish_env_names(contract, system) is Ok <==> match system {
            PackageSystem::Brew => contract.destination.s3.brew is Some,
            PackageSystem::Scoop => contract.destination.s3.scoop is Some,
            PackageSystem::Deb => contract.destination.s3.deb is Some,
            PackageSystem::Rpm => contract.destination.s3.rpm is Some,
        },
{
}

} // verus!
