//! Laws of publish targets: what is published goes where the contract says for its channel, with
//! the secrets that the variables hold.

use vstd::prelude::*;

use crate::channel::ReleaseChannel;
use crate::contract::{GitIndexDestination, ReleaseContract};
use crate::laws::signing::{is_architecture, is_component};
use crate::manifest::PackageManifestView;
use crate::package::{metadata_of, CargoMetadataView};
use crate::publication::{
    advanced, entry_keys, opening, publication_line, publication_of, PublicationActionView, PublicationEventView,
    PublicationStageView, PublicationView,
};
use crate::publish::{
    common_of, public_base_url, publish_target, remote_prefix, GitIndexPublishTargetView,
    PublicBaseUrlErrorView, RemotePrefixErrorView, S3PublishTargetView, UploadConditionView,
};
use crate::s3::{index_directory, index_keys, suite_metadata, DebRepositoryPlanView};
use crate::system::PackageSystem;

verus! {

/// Whether a value is that of a variable, which is set and not empty.
pub open spec fn is_value_of(
    values: Map<Seq<char>, Seq<char>>,
    name: Seq<char>,
    value: Seq<char>,
) -> bool {
    values.contains_key(name) && values[name] == value && value.len() > 0
}

/// Whether an index is published where the contract says, with the token that its variable
/// holds.
pub open spec fn is_index_of(
    index: GitIndexDestination,
    values: Map<Seq<char>, Seq<char>>,
    target: GitIndexPublishTargetView,
) -> bool {
    &&& target.repository == index.repository@
    &&& target.base_branch == index.base_branch@
    &&& is_value_of(values, index.token.env@, target.token)
}

/// Whether a prefix is the one that a text stands for.
pub open spec fn is_prefix_of(text: Seq<char>, prefix: Seq<char>) -> bool {
    remote_prefix(text) == Ok::<Seq<char>, RemotePrefixErrorView>(prefix)
}

/// Whether an address is the one that a text stands for.
pub open spec fn is_address_of(text: Seq<char>, address: Seq<char>) -> bool {
    public_base_url(text) == Ok::<Seq<char>, PublicBaseUrlErrorView>(address)
}

/// What a contract says of where a channel is published is where it is published: stable
/// releases where it says for stable ones, previews where it says for previews. The storage is
/// reached, and packages are signed, with what the variables hold that the contract names; a
/// passphrase is used exactly where its variable is set.
pub proof fn lemma_targets_are_those_of_the_channel(
    contract: ReleaseContract,
    system: PackageSystem,
    channel: ReleaseChannel,
    values: Map<Seq<char>, Seq<char>>,
)
    ensures
        publish_target(contract, system, channel, values) matches Ok(target) ==> {
            let s3 = contract.destination.s3;
            let stable = channel is Stable;
            let common = common_of(target);
            &&& common.bucket == s3.bucket@
            &&& is_value_of(values, s3.endpoint.env@, common.endpoint_url)
            &&& is_value_of(values, s3.access_key_id.env@, common.access_key_id)
            &&& is_value_of(values, s3.secret_access_key.env@, common.secret_access_key)
            &&& match target {
                S3PublishTargetView::Brew(target) => {
                    &&& system is Brew
                    &&& s3.brew matches Some(branch)
                    &&& stable ==> is_prefix_of(branch.stable.prefix@, target.prefix)
                        && is_address_of(branch.stable.public_base_url@, target.public_base_url)
                        && is_index_of(branch.stable.tap, values, target.tap)
                    &&& !stable ==> is_prefix_of(branch.preview.prefix@, target.prefix)
                        && is_address_of(branch.preview.public_base_url@, target.public_base_url)
                        && is_index_of(branch.preview.tap, values, target.tap)
                },
                S3PublishTargetView::Scoop(target) => {
                    &&& system is Scoop
                    &&& s3.scoop matches Some(branch)
                    &&& stable ==> is_prefix_of(branch.stable.prefix@, target.prefix)
                        && is_address_of(branch.stable.public_base_url@, target.public_base_url)
                        && is_index_of(branch.stable.bucket, values, target.bucket)
                    &&& !stable ==> is_prefix_of(branch.preview.prefix@, target.prefix)
                        && is_address_of(branch.preview.public_base_url@, target.public_base_url)
                        && is_index_of(branch.preview.bucket, values, target.bucket)
                },
                S3PublishTargetView::Deb(target) => {
                    &&& system is Deb
                    &&& s3.deb matches Some(branch)
                    &&& stable ==> is_prefix_of(branch.stable.prefix@, target.prefix)
                        && target.suite == branch.stable.suite@
                    &&& !stable ==> is_prefix_of(branch.preview.prefix@, target.prefix)
                        && target.suite == branch.preview.suite@
                    &&& is_value_of(values, branch.signing.key.env@, target.signing_key)
                    &&& is_value_of(values, branch.signing.fingerprint.env@, target.fingerprint)
                    &&& match target.signing_passphrase {
                        Some(passphrase) => is_value_of(
                            values,
                            branch.signing.passphrase.env@,
                            passphrase,
                        ),
                        None => !values.contains_key(branch.signing.passphrase.env@),
                    }
                },
                S3PublishTargetView::Rpm(target) => {
                    &&& system is Rpm
                    &&& s3.rpm matches Some(branch)
                    &&& stable ==> is_prefix_of(branch.stable.prefix@, target.prefix)
                    &&& !stable ==> is_prefix_of(branch.preview.prefix@, target.prefix)
                },
            }
        },
{
}

/// A publication is one of the package that its manifest names, for the package system of the
/// manifest and on the channel of its version: a version with something before its release is a
/// preview, any other is stable.
pub proof fn lemma_publications_go_to_their_channel(
    contract: ReleaseContract,
    root: Seq<char>,
    target_dir: Seq<char>,
    cargo: Map<Seq<char>, CargoMetadataView>,
    values: Map<Seq<char>, Seq<char>>,
    manifest: PackageManifestView,
    dry_run: bool,
)
    ensures
        publication_of(
            contract,
            root,
            target_dir,
            cargo,
            values,
            manifest,
            dry_run,
        ) matches Ok(publication) ==> {
            &&& publication.dry_run == dry_run
            &&& publication.root == root
            &&& publication.target_dir == target_dir
            &&& publication.package_id == manifest.package
            &&& publication.manifest == manifest
            &&& metadata_of(contract, manifest.package, root, cargo) matches Ok(metadata)
            &&& publication.metadata == metadata
            &&& publish_target(
                contract,
                manifest.kind,
                if metadata.source_version.pre.len() == 0 {
                    ReleaseChannel::Stable
                } else {
                    ReleaseChannel::Preview
                },
                values,
            ) matches Ok(target)
            &&& publication.target == target
        },
{
}

/// A publication says what it publishes, on which channel, and where to.
pub proof fn lemma_publications_say_what_they_do(publication: PublicationView)
    ensures
        publication_line(publication) == "publish s3 "@ + match publication.manifest.kind {
            PackageSystem::Deb => "deb"@,
            PackageSystem::Rpm => "rpm"@,
            PackageSystem::Brew => "brew"@,
            PackageSystem::Scoop => "scoop"@,
        } + " channel="@ + (if publication.metadata.source_version.pre.len() == 0 {
            "stable"@
        } else {
            "preview"@
        }) + " target="@ + match publication.target {
            S3PublishTargetView::Brew(target) => "prefix="@ + target.prefix + " tap="@
                + target.tap.repository,
            S3PublishTargetView::Scoop(target) => "prefix="@ + target.prefix + " bucket="@
                + target.bucket.repository,
            S3PublishTargetView::Deb(target) => "prefix="@ + target.prefix + " suite="@
                + target.suite,
            S3PublishTargetView::Rpm(target) => "prefix="@ + target.prefix,
        },
{
}

proof fn lemma_index_is_fetched(prefix: Seq<char>, suite: Seq<char>, at: int, count: int)
    requires
        0 <= at < count <= 12,
    ensures
        index_keys(prefix, suite, count).len() == count,
        index_keys(prefix, suite, count)[at] == prefix + "/"@ + (index_directory(suite, at)
            + "/Packages"@),
    decreases count,
{
    if count - 1 > at {
        lemma_index_is_fetched(prefix, suite, at, count - 1);
    } else if count > 1 {
        lemma_index_is_fetched(prefix, suite, 0, count - 1);
    } else {
        assert(index_keys(prefix, suite, 0).len() == 0);
    }
}

/// The place of a component and an architecture among all of them.
proof fn lemma_index_place(
    suite: Seq<char>,
    component: Seq<char>,
    architecture: Seq<char>,
) -> (at: int)
    requires
        is_component(component),
        is_architecture(architecture),
    ensures
        0 <= at < 12,
        index_directory(suite, at) == "dists/"@ + suite + "/"@ + component + "/binary-"@
            + architecture,
{
    let c: int = if component == "main"@ {
        0
    } else if component == "contrib"@ {
        1
    } else {
        2
    };
    let a: int = if architecture == "amd64"@ {
        0
    } else if architecture == "arm64"@ {
        1
    } else if architecture == "armhf"@ {
        2
    } else {
        3
    };
    let at = 4 * c + a;
    assert(at / 4 == c && at % 4 == a);
    at
}

/// The publication of a Debian repository begins with a look at the index of every component
/// for every architecture, and at nothing else; that of an RPM repository with a list of what
/// stands below its prefix.
pub proof fn lemma_publications_begin_with_what_is_stored(
    publication: PublicationView,
    contract: ReleaseContract,
    component: Seq<char>,
    architecture: Seq<char>,
)
    requires
        is_component(component),
        is_architecture(architecture),
    ensures
        publication.target matches S3PublishTargetView::Deb(target) ==> {
            &&& opening(publication, contract) matches Ok(next)
            &&& next.stage is Indexing
            &&& next.action matches PublicationActionView::FetchIndexes { keys }
            &&& keys.len() == 12
            &&& keys.contains(
                target.prefix + "/"@ + ("dists/"@ + target.suite + "/"@ + component + "/binary-"@
                    + architecture + "/Packages"@),
            )
        },
        publication.target matches S3PublishTargetView::Rpm(target) ==> {
            &&& opening(publication, contract) matches Ok(next)
            &&& next.stage is Listing
            &&& next.action == (PublicationActionView::ListObjects { prefix: target.prefix })
        },
{
    if let S3PublishTargetView::Deb(target) = publication.target {
        let at = lemma_index_place(target.suite, component, architecture);
        lemma_index_is_fetched(target.prefix, target.suite, at, 12);
    }
}

proof fn lemma_suite_metadata(suite: Seq<char>, at: int, count: int)
    requires
        0 <= count <= 12,
        0 <= at < count || count == 0,
    ensures
        suite_metadata(suite, count).len() == 3 + 3 * count,
        suite_metadata(suite, count)[0] == "dists/"@ + suite + "/Release"@,
        suite_metadata(suite, count)[1] == "dists/"@ + suite + "/Release.gpg"@,
        suite_metadata(suite, count)[2] == "dists/"@ + suite + "/InRelease"@,
        count > 0 ==> suite_metadata(suite, count)[3 + 3 * at] == index_directory(suite, at)
            + "/Packages"@ && suite_metadata(suite, count)[4 + 3 * at] == index_directory(
            suite,
            at,
        ) + "/Packages.gz"@ && suite_metadata(suite, count)[5 + 3 * at] == index_directory(
            suite,
            at,
        ) + "/Release"@,
    decreases count,
{
    if count > 0 {
        if at < count - 1 {
            lemma_suite_metadata(suite, at, count - 1);
        } else if count > 1 {
            lemma_suite_metadata(suite, 0, count - 1);
        } else {
            lemma_suite_metadata(suite, 0, 0);
        }
    }
}

/// Before a Debian repository is filled, the storage is asked for the state of everything that
/// will be replaced: the release of the suite with its two signatures, and for every component
/// and every architecture the index, its compressed form and its release.
pub proof fn lemma_everything_replaced_is_inspected(
    publication: PublicationView,
    contract: ReleaseContract,
    contents: Seq<Seq<char>>,
    component: Seq<char>,
    architecture: Seq<char>,
)
    requires
        publication.target is Deb,
        is_component(component),
        is_architecture(architecture),
    ensures
        advanced(
            publication,
            contract,
            PublicationStageView::Indexing,
            PublicationEventView::Indexes { contents },
        ) matches Ok(next) ==> {
            &&& publication.target matches S3PublishTargetView::Deb(target)
            &&& next.action matches PublicationActionView::InspectEntries { keys }
            &&& keys.len() == 39
            &&& keys.contains(target.prefix + "/"@ + ("dists/"@ + target.suite + "/Release"@))
            &&& keys.contains(target.prefix + "/"@ + ("dists/"@ + target.suite + "/Release.gpg"@))
            &&& keys.contains(target.prefix + "/"@ + ("dists/"@ + target.suite + "/InRelease"@))
            &&& keys.contains(
                target.prefix + "/"@ + ("dists/"@ + target.suite + "/"@ + component + "/binary-"@
                    + architecture + "/Packages"@),
            )
            &&& keys.contains(
                target.prefix + "/"@ + ("dists/"@ + target.suite + "/"@ + component + "/binary-"@
                    + architecture + "/Packages.gz"@),
            )
            &&& keys.contains(
                target.prefix + "/"@ + ("dists/"@ + target.suite + "/"@ + component + "/binary-"@
                    + architecture + "/Release"@),
            )
        },
{
    if let S3PublishTargetView::Deb(target) = publication.target {
        let at = lemma_index_place(target.suite, component, architecture);
        lemma_suite_metadata(target.suite, at, 12);
        let keys = entry_keys(target.prefix, target.suite);
        let paths = suite_metadata(target.suite, 12);
        assert(keys.len() == paths.len());
        assert(keys[0] == target.prefix + "/"@ + paths[0]);
        assert(keys[1] == target.prefix + "/"@ + paths[1]);
        assert(keys[2] == target.prefix + "/"@ + paths[2]);
        assert(keys[3 + 3 * at] == target.prefix + "/"@ + paths[3 + 3 * at]);
        assert(keys[4 + 3 * at] == target.prefix + "/"@ + paths[4 + 3 * at]);
        assert(keys[5 + 3 * at] == target.prefix + "/"@ + paths[5 + 3 * at]);
    }
}

/// What the storage answers about what will be replaced is kept as it is, with the plan.
pub proof fn lemma_conditions_are_kept(
    publication: PublicationView,
    contract: ReleaseContract,
    plan: DebRepositoryPlanView,
    conditions: Map<Seq<char>, UploadConditionView>,
)
    ensures
        advanced(
            publication,
            contract,
            PublicationStageView::Conditioning { plan },
            PublicationEventView::Conditions { conditions },
        ) matches Ok(next) && next.stage == (PublicationStageView::OpeningDeb {
            plan,
            conditions,
        }) && next.action is CreateRepository,
{
}

} // verus!
