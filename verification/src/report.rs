//! Reports on publications.

use vstd::prelude::*;

use crate::model::deep;
use crate::system::PackageSystem;

verus! {

broadcast use crate::model::group_deep;

/// What was published.
#[derive(Debug, PartialEq, Eq)]
pub struct S3PublishReport {
    pub schema_version: u32,
    pub dry_run: bool,
    pub manifests: Vec<S3PublishReportManifest>,
}

/// What a [`S3PublishReport`] holds.
pub struct S3PublishReportView {
    pub schema_version: u32,
    pub dry_run: bool,
    pub manifests: Seq<S3PublishReportManifestView>,
}

impl DeepView for S3PublishReport {
    type V = S3PublishReportView;

    open spec fn deep_view(&self) -> S3PublishReportView {
        S3PublishReportView {
            schema_version: self.schema_version,
            dry_run: self.dry_run,
            manifests: deep(self.manifests@),
        }
    }
}

impl Clone for S3PublishReport {
    fn clone(&self) -> (copy: Self)
        ensures
            copy.deep_view() == self.deep_view(),
    {
        let copy = S3PublishReport {
            schema_version: self.schema_version,
            dry_run: self.dry_run,
            manifests: self.manifests.clone(),
        };
        assert(deep(copy.manifests@) =~= deep(self.manifests@));
        copy
    }
}

/// What was published of one manifest.
#[derive(Debug, PartialEq, Eq)]
pub struct S3PublishReportManifest {
    pub kind: PackageSystem,
    pub package: String,
    pub version: String,
    pub generated_at: String,
    pub git_commit: Option<String>,
    pub git_dirty: bool,
    pub artifacts: Vec<S3PublishReportArtifact>,
}

/// What a [`S3PublishReportManifest`] holds.
pub struct S3PublishReportManifestView {
    pub kind: PackageSystem,
    pub package: Seq<char>,
    pub version: Seq<char>,
    pub generated_at: Seq<char>,
    pub git_commit: Option<Seq<char>>,
    pub git_dirty: bool,
    pub artifacts: Seq<S3PublishReportArtifactView>,
}

impl DeepView for S3PublishReportManifest {
    type V = S3PublishReportManifestView;

    open spec fn deep_view(&self) -> S3PublishReportManifestView {
        S3PublishReportManifestView {
            kind: self.kind,
            package: self.package@,
            version: self.version@,
            generated_at: self.generated_at@,
            git_commit: self.git_commit.deep_view(),
            git_dirty: self.git_dirty,
            artifacts: deep(self.artifacts@),
        }
    }
}

impl Clone for S3PublishReportManifest {
    fn clone(&self) -> (copy: Self)
        ensures
            copy.deep_view() == self.deep_view(),
    {
        let copy = S3PublishReportManifest {
            kind: self.kind,
            package: self.package.clone(),
            version: self.version.clone(),
            generated_at: self.generated_at.clone(),
            git_commit: self.git_commit.clone(),
            git_dirty: self.git_dirty,
            artifacts: self.artifacts.clone(),
        };
        assert(deep(copy.artifacts@) =~= deep(self.artifacts@));
        copy
    }
}

/// What was published of one artifact.
#[derive(Debug, PartialEq, Eq)]
pub struct S3PublishReportArtifact {
    pub target: String,
    pub path: String,
    pub local_path: String,
    pub sha256: String,
    pub size: u64,
    pub package_name: Option<String>,
    pub package_version: Option<String>,
    pub architecture: Option<String>,
    pub archive_name: Option<String>,
    pub key: String,
}

/// What a [`S3PublishReportArtifact`] holds.
pub struct S3PublishReportArtifactView {
    pub target: Seq<char>,
    pub path: Seq<char>,
    pub local_path: Seq<char>,
    pub sha256: Seq<char>,
    pub size: u64,
    pub package_name: Option<Seq<char>>,
    pub package_version: Option<Seq<char>>,
    pub architecture: Option<Seq<char>>,
    pub archive_name: Option<Seq<char>>,
    pub key: Seq<char>,
}

impl DeepView for S3PublishReportArtifact {
    type V = S3PublishReportArtifactView;

    open spec fn deep_view(&self) -> S3PublishReportArtifactView {
        S3PublishReportArtifactView {
            target: self.target@,
            path: self.path@,
            local_path: self.local_path@,
            sha256: self.sha256@,
            size: self.size,
            package_name: self.package_name.deep_view(),
            package_version: self.package_version.deep_view(),
            architecture: self.architecture.deep_view(),
            archive_name: self.archive_name.deep_view(),
            key: self.key@,
        }
    }
}

impl Clone for S3PublishReportArtifact {
    fn clone(&self) -> (copy: Self)
        ensures
            copy.deep_view() == self.deep_view(),
    {
        let copy = S3PublishReportArtifact {
            target: self.target.clone(),
            path: self.path.clone(),
            local_path: self.local_path.clone(),
            sha256: self.sha256.clone(),
            size: self.size,
            package_name: self.package_name.clone(),
            package_version: self.package_version.clone(),
            architecture: self.architecture.clone(),
            archive_name: self.archive_name.clone(),
            key: self.key.clone(),
        };
        copy
    }
}

impl S3PublishReport {
    /// The report on nothing.
    pub fn new(dry_run: bool) -> (report: Self)
        ensures
            report.deep_view() == (S3PublishReportView {
                schema_version: 1,
                dry_run,
                manifests: Seq::empty(),
            }),
    {
        S3PublishReport { schema_version: 1, dry_run, manifests: Vec::new() }
    }

    /// Adds a manifest at the end.
    pub fn add_manifest(&mut self, manifest: S3PublishReportManifest)
        ensures
            final(self).deep_view() == (S3PublishReportView {
                manifests: old(self).deep_view().manifests.push(manifest.deep_view()),
                ..old(self).deep_view()
            }),
    {
        self.manifests.push(manifest);
    }

    /// Adds manifests at the end, in their order.
    pub fn extend_manifests(&mut self, manifests: Vec<S3PublishReportManifest>)
        ensures
            final(self).deep_view() == (S3PublishReportView {
                manifests: old(self).deep_view().manifests + deep(manifests@),
                ..old(self).deep_view()
            }),
    {
        let ghost before = self.manifests@;
        let ghost added = manifests@;
        let mut manifests = manifests;
        self.manifests.append(&mut manifests);
        assert(self.manifests@ == before + added);
        assert(deep(self.manifests@) =~= deep(before) + deep(added));
    }
}

} // verus!
