//! Scoop manifests.

use vstd::prelude::*;

use crate::manifest::{PackageArtifact, PackageArtifactView, PackageManifest, PackageManifestView};
use crate::model::{deep, outcome, outcomes};
use crate::package::{PackageId, ResolvedPackageMetadata, ResolvedPackageMetadataView};
use crate::publish::{
    below_prefix, entry_names, mutable_entry_names, MutableEntryNamesError,
    MutableEntryNamesErrorView, PublicBaseUrl,
};
use crate::system::PackageSystem;
use crate::template::{
    extend_with_features, extended, feature_variables, package_template_variables,
    package_variables,
};
use crate::text::same_text;
use crate::textmap::TextMap;

verus! {

broadcast use crate::model::group_deep;

/// Why there is no Scoop manifest.
#[derive(Debug, PartialEq, Eq)]
pub enum RenderScoopJsonError {
    /// Reported as `scoop json requires scoop package manifest`.
    WrongKind,
    /// Reported as `scoop branch requires at least one bin entry`.
    MissingBin,
    /// Reported as `scoop package artifact is missing archive name`.
    MissingArchiveName { target: String },
    /// Reported as `unsupported scoop target {target}`.
    UnsupportedTarget { target: String },
    /// Reported as `failed to resolve scoop mutable entry names`.
    MutableEntryNames { source: MutableEntryNamesError },
    /// Reported as `failed to serialize scoop json`.
    Serialize,
}

/// What a [`RenderScoopJsonError`] holds.
pub enum RenderScoopJsonErrorView {
    WrongKind,
    MissingBin,
    MissingArchiveName { target: Seq<char> },
    UnsupportedTarget { target: Seq<char> },
    MutableEntryNames { source: MutableEntryNamesErrorView },
    Serialize,
}

impl DeepView for RenderScoopJsonError {
    type V = RenderScoopJsonErrorView;

    open spec fn deep_view(&self) -> RenderScoopJsonErrorView {
        match self {
            RenderScoopJsonError::WrongKind => RenderScoopJsonErrorView::WrongKind,
            RenderScoopJsonError::MissingBin => RenderScoopJsonErrorView::MissingBin,
            RenderScoopJsonError::MissingArchiveName { target } => RenderScoopJsonErrorView::MissingArchiveName {
                target: target@,
            },
            RenderScoopJsonError::UnsupportedTarget { target } => RenderScoopJsonErrorView::UnsupportedTarget {
                target: target@,
            },
            RenderScoopJsonError::MutableEntryNames { source } => RenderScoopJsonErrorView::MutableEntryNames {
                source: source.deep_view(),
            },
            RenderScoopJsonError::Serialize => RenderScoopJsonErrorView::Serialize,
        }
    }
}

impl RenderScoopJsonErrorView {
    /// The message of the error.
    pub open spec fn message(self) -> Seq<char> {
        match self {
            RenderScoopJsonErrorView::WrongKind => "scoop json requires scoop package manifest"@,
            RenderScoopJsonErrorView::MissingBin => "scoop branch requires at least one bin entry"@,
            RenderScoopJsonErrorView::MissingArchiveName { .. } => "scoop package artifact is missing archive name"@,
            RenderScoopJsonErrorView::UnsupportedTarget { target } => "unsupported scoop target "@ + target,
            RenderScoopJsonErrorView::MutableEntryNames { .. } => "failed to resolve scoop mutable entry names"@,
            RenderScoopJsonErrorView::Serialize => "failed to serialize scoop json"@,
        }
    }
}

impl RenderScoopJsonError {
    /// The message of the error.
    pub fn to_string(&self) -> (text: String)
        ensures
            text@ == self.deep_view().message(),
    {
        match self {
            RenderScoopJsonError::WrongKind => "scoop json requires scoop package manifest".to_owned(),
            RenderScoopJsonError::MissingBin => "scoop branch requires at least one bin entry".to_owned(),
            RenderScoopJsonError::MissingArchiveName { .. } => "scoop package artifact is missing archive name".to_owned(),
            RenderScoopJsonError::UnsupportedTarget { target } => {
                let mut text = "unsupported scoop target ".to_owned();
                text.append(target.as_str());
                text
            },
            RenderScoopJsonError::MutableEntryNames { .. } => "failed to resolve scoop mutable entry names".to_owned(),
            RenderScoopJsonError::Serialize => "failed to serialize scoop json".to_owned(),
        }
    }
}

// ---------------------------------------------------------------------------
// JSON
// ---------------------------------------------------------------------------
/// A member of a JSON object that is a text.
#[derive(Debug, PartialEq, Eq)]
pub struct JsonText {
    pub name: String,
    pub text: String,
}

/// What a [`JsonText`] holds.
pub struct JsonTextView {
    pub name: Seq<char>,
    pub text: Seq<char>,
}

impl DeepView for JsonText {
    type V = JsonTextView;

    open spec fn deep_view(&self) -> JsonTextView {
        JsonTextView {
            name: self.name@,
            text: self.text@,
        }
    }
}

impl Clone for JsonText {
    fn clone(&self) -> (copy: Self)
        ensures
            copy.deep_view() == self.deep_view(),
    {
        let copy = JsonText {
            name: self.name.clone(),
            text: self.text.clone(),
        };
        copy
    }
}

/// A member of a JSON object that is itself an object of texts.
#[derive(Debug, PartialEq, Eq)]
pub struct JsonMember {
    pub name: String,
    pub fields: Vec<JsonText>,
}

/// What a [`JsonMember`] holds.
pub struct JsonMemberView {
    pub name: Seq<char>,
    pub fields: Seq<JsonTextView>,
}

impl DeepView for JsonMember {
    type V = JsonMemberView;

    open spec fn deep_view(&self) -> JsonMemberView {
        JsonMemberView {
            name: self.name@,
            fields: deep(self.fields@),
        }
    }
}

impl Clone for JsonMember {
    fn clone(&self) -> (copy: Self)
        ensures
            copy.deep_view() == self.deep_view(),
    {
        let copy = JsonMember {
            name: self.name.clone(),
            fields: self.fields.clone(),
        };
        assert(deep(copy.fields@) =~= deep(self.fields@));
        copy
    }
}

/// A JSON document: a list of texts, or an object of objects of texts. Of two members
/// with one name the later one counts.
#[derive(Debug, PartialEq, Eq)]
pub enum JsonDocument {
    List(Vec<String>),
    Object(Vec<JsonMember>),
}

/// What a [`JsonDocument`] holds.
pub enum JsonDocumentView {
    List(Seq<Seq<char>>),
    Object(Seq<JsonMemberView>),
}

impl DeepView for JsonDocument {
    type V = JsonDocumentView;

    open spec fn deep_view(&self) -> JsonDocumentView {
        match self {
            JsonDocument::List(value) => JsonDocumentView::List(deep(value@)),
            JsonDocument::Object(value) => JsonDocumentView::Object(deep(value@)),
        }
    }
}

/// What `serde_json::to_string_pretty` writes for a document.
pub uninterp spec fn pretty_json(document: JsonDocumentView) -> Seq<char>;

/// The error of `serde_json::to_string_pretty`.
#[verifier::external_type_specification]
#[verifier::external_body]
pub struct ExJsonError(serde_json::Error);

/// `serde_json::to_string_pretty`, applied to the list, or to the `serde_json::Map` into
/// which the members are collected. It fails only on a value that refuses to be written
/// or on a map whose keys are no texts, and a document is neither. What it writes depends
/// on the document alone.
#[verifier::external_body]
fn to_string_pretty(document: &JsonDocument) -> (written: Result<String, serde_json::Error>)
    ensures
        written is Ok,
        written->Ok_0@ == pretty_json(document.deep_view()),
{
    match document {
        JsonDocument::List(items) => serde_json::to_string_pretty(items),
        JsonDocument::Object(members) => serde_json::to_string_pretty(
            &members.iter().map(|member| (member.name.clone(), serde_json::Value::Object(
                member.fields.iter().map(|field| (field.name.clone(), serde_json::Value::String(
                    field.text.clone(),
                ))).collect(),
            ))).collect::<serde_json::Map<String, serde_json::Value>>(),
        ),
    }
}

fn render_json(document: &JsonDocument) -> (text: Result<String, RenderScoopJsonError>)
    ensures
        outcome(text) == Ok::<Seq<char>, RenderScoopJsonErrorView>(
            pretty_json(document.deep_view()),
        ),
{
    match to_string_pretty(document) {
        Ok(text) => Ok(text),
        Err(_) => Err(RenderScoopJsonError::Serialize),
    }
}

// ---------------------------------------------------------------------------
// Layout
// ---------------------------------------------------------------------------
/// The key of an architecture in a Scoop manifest.
pub open spec fn architecture_key(target: Seq<char>) -> Option<Seq<char>> {
    if target == "x86_64-pc-windows-msvc"@ {
        Some("64bit"@)
    } else if target == "i686-pc-windows-msvc"@ {
        Some("32bit"@)
    } else {
        None
    }
}

/// The member for an artifact: where it is downloaded, and its hash where `hashed`.
pub open spec fn artifact_member(
    artifact: PackageArtifactView,
    base_url: Seq<char>,
    hashed: bool,
) -> Result<JsonMemberView, RenderScoopJsonErrorView> {
    match (architecture_key(artifact.target), artifact.archive_name) {
        (None, _) => Err(RenderScoopJsonErrorView::UnsupportedTarget { target: artifact.target }),
        (Some(_), None) => Err(
            RenderScoopJsonErrorView::MissingArchiveName { target: artifact.target },
        ),
        (Some(name), Some(archive_name)) => {
            let url = JsonTextView {
                name: "url"@,
                text: below_prefix(base_url, archive_name),
            };
            Ok(
                JsonMemberView {
                    name,
                    fields: if hashed {
                        seq![url, JsonTextView { name: "hash"@, text: artifact.sha256 }]
                    } else {
                        seq![url]
                    },
                },
            )
        },
    }
}

/// The members for the artifacts from `from` on, after those already `found`.
pub open spec fn artifact_members(
    artifacts: Seq<PackageArtifactView>,
    base_url: Seq<char>,
    hashed: bool,
    from: int,
    found: Seq<JsonMemberView>,
) -> Result<Seq<JsonMemberView>, RenderScoopJsonErrorView>
    decreases artifacts.len() - from,
{
    if from < 0 || from >= artifacts.len() {
        Ok(found)
    } else {
        match artifact_member(artifacts[from], base_url, hashed) {
            Err(error) => Err(error),
            Ok(member) => artifact_members(
                artifacts,
                base_url,
                hashed,
                from + 1,
                found.push(member),
            ),
        }
    }
}

/// The members that tell, by architecture, where the artifacts are downloaded.
pub open spec fn layout(manifest: PackageManifestView, base_url: Seq<char>, hashed: bool) -> Result<
    Seq<JsonMemberView>,
    RenderScoopJsonErrorView,
> {
    artifact_members(manifest.artifacts, base_url, hashed, 0, Seq::empty())
}

fn member_of(
    artifact: &PackageArtifact,
    public_base_url: &PublicBaseUrl,
    hashed: bool,
) -> (member: Result<JsonMember, RenderScoopJsonError>)
    ensures
        outcome(member) == artifact_member(
            artifact.deep_view(),
            public_base_url.deep_view(),
            hashed,
        ),
{
    let name = if same_text(artifact.target.as_str(), "x86_64-pc-windows-msvc") {
        "64bit"
    } else if same_text(artifact.target.as_str(), "i686-pc-windows-msvc") {
        "32bit"
    } else {
        return Err(
            RenderScoopJsonError::UnsupportedTarget { target: artifact.target.clone() },
        );
    };
    let archive_name = match &artifact.archive_name {
        Some(name) => name,
        None => {
            return Err(
                RenderScoopJsonError::MissingArchiveName { target: artifact.target.clone() },
            );
        },
    };
    let mut fields: Vec<JsonText> = Vec::new();
    fields.push(
        JsonText { name: "url".to_owned(), text: public_base_url.join(archive_name.as_str()) },
    );
    if hashed {
        fields.push(JsonText { name: "hash".to_owned(), text: artifact.sha256.clone() });
    }
    let member = JsonMember { name: name.to_owned(), fields };
    assert(member.deep_view().fields =~= artifact_member(
        artifact.deep_view(),
        public_base_url.deep_view(),
        hashed,
    )->Ok_0.fields);
    Ok(member)
}

/// The members that tell, by architecture, where the artifacts are downloaded.
pub fn scoop_layout(
    manifest: &PackageManifest,
    public_base_url: &PublicBaseUrl,
    hashed: bool,
) -> (members: Result<Vec<JsonMember>, RenderScoopJsonError>)
    ensures
        outcomes(members) == layout(manifest.deep_view(), public_base_url.deep_view(), hashed),
{
    let mut members: Vec<JsonMember> = Vec::new();
    let mut i: usize = 0;
    while i < manifest.artifacts.len()
        invariant
            i <= manifest.artifacts@.len(),
            layout(manifest.deep_view(), public_base_url.deep_view(), hashed)
                == artifact_members(
                deep(manifest.artifacts@),
                public_base_url.deep_view(),
                hashed,
                i as int,
                deep(members@),
            ),
        decreases manifest.artifacts@.len() - i,
    {
        assert(deep(manifest.artifacts@)[i as int] == manifest.artifacts@[i as int].deep_view());
        match member_of(&manifest.artifacts[i], public_base_url, hashed) {
            Ok(member) => {
                members.push(member);
            },
            Err(error) => {
                return Err(error);
            },
        }
        i = i + 1;
    }
    Ok(members)
}

// ---------------------------------------------------------------------------
// Manifests and template variables
// ---------------------------------------------------------------------------
/// How Scoop finds out about new versions.
#[derive(Debug, PartialEq, Eq)]
pub struct CheckVer {
    pub url: String,
    pub re: String,
}

/// What a [`CheckVer`] holds.
pub struct CheckVerView {
    pub url: Seq<char>,
    pub re: Seq<char>,
}

impl DeepView for CheckVer {
    type V = CheckVerView;

    open spec fn deep_view(&self) -> CheckVerView {
        CheckVerView {
            url: self.url@,
            re: self.re@,
        }
    }
}

/// A Scoop manifest.
#[derive(Debug, PartialEq, Eq)]
pub struct ScoopManifest {
    pub version: String,
    pub description: String,
    pub license: String,
    pub homepage: String,
    pub architecture: Vec<JsonMember>,
    pub bin: Vec<String>,
    pub checkver: CheckVer,
    pub autoupdate: Vec<JsonMember>,
}

/// What a [`ScoopManifest`] holds.
pub struct ScoopManifestView {
    pub version: Seq<char>,
    pub description: Seq<char>,
    pub license: Seq<char>,
    pub homepage: Seq<char>,
    pub architecture: Seq<JsonMemberView>,
    pub bin: Seq<Seq<char>>,
    pub checkver: CheckVerView,
    pub autoupdate: Seq<JsonMemberView>,
}

impl DeepView for ScoopManifest {
    type V = ScoopManifestView;

    open spec fn deep_view(&self) -> ScoopManifestView {
        ScoopManifestView {
            version: self.version@,
            description: self.description@,
            license: self.license@,
            homepage: self.homepage@,
            architecture: deep(self.architecture@),
            bin: deep(self.bin@),
            checkver: self.checkver.deep_view(),
            autoupdate: deep(self.autoupdate@),
        }
    }
}

/// The Scoop manifest of a package.
pub open spec fn manifest_of(
    package_id: Seq<char>,
    metadata: ResolvedPackageMetadataView,
    manifest: PackageManifestView,
    base_url: Seq<char>,
    bin: Seq<Seq<char>>,
) -> Result<ScoopManifestView, RenderScoopJsonErrorView> {
    if !(manifest.kind is Scoop) {
        Err(RenderScoopJsonErrorView::WrongKind)
    } else if bin.len() == 0 {
        Err(RenderScoopJsonErrorView::MissingBin)
    } else {
        match (
            entry_names(package_id, PackageSystem::Scoop, metadata.source_version),
            layout(manifest, base_url, true),
            layout(manifest, base_url, false),
        ) {
            (Err(source), _, _) => Err(RenderScoopJsonErrorView::MutableEntryNames { source }),
            (Ok(_), Err(error), _) => Err(error),
            (Ok(_), Ok(_), Err(error)) => Err(error),
            (Ok(names), Ok(architecture), Ok(autoupdate)) => Ok(
                ScoopManifestView {
                    version: metadata.source_version.text(),
                    description: metadata.description,
                    license: metadata.license,
                    homepage: metadata.homepage,
                    architecture,
                    bin,
                    checkver: CheckVerView {
                        url: below_prefix(base_url, names.latest),
                        re: "\"version\"\\s*:\\s*\"([^\"]+)\""@,
                    },
                    autoupdate,
                },
            ),
        }
    }
}

/// The Scoop manifest of a package.
pub fn scoop_manifest(
    package_id: &PackageId,
    metadata: &ResolvedPackageMetadata,
    manifest: &PackageManifest,
    public_base_url: &PublicBaseUrl,
    bin: &Vec<String>,
) -> (result: Result<ScoopManifest, RenderScoopJsonError>)
    ensures
        outcome(result) == manifest_of(
            package_id.deep_view(),
            metadata.deep_view(),
            manifest.deep_view(),
            public_base_url.deep_view(),
            deep(bin@),
        ),
{
    match manifest.kind {
        PackageSystem::Scoop => {},
        _ => {
            return Err(RenderScoopJsonError::WrongKind);
        },
    }
    if bin.len() == 0 {
        return Err(RenderScoopJsonError::MissingBin);
    }
    let names = match mutable_entry_names(
        package_id,
        PackageSystem::Scoop,
        &metadata.source_version,
    ) {
        Ok(names) => names,
        Err(source) => {
            return Err(RenderScoopJsonError::MutableEntryNames { source });
        },
    };
    let architecture = match scoop_layout(manifest, public_base_url, true) {
        Ok(members) => members,
        Err(error) => {
            return Err(error);
        },
    };
    let autoupdate = match scoop_layout(manifest, public_base_url, false) {
        Ok(members) => members,
        Err(error) => {
            return Err(error);
        },
    };
    let programs = bin.clone();
    assert(deep(programs@) =~= deep(bin@));
    Ok(
        ScoopManifest {
            version: metadata.source_version.to_string(),
            description: metadata.description.clone(),
            license: metadata.license.clone(),
            homepage: metadata.homepage.clone(),
            architecture,
            bin: programs,
            checkver: CheckVer {
                url: public_base_url.join(names.latest.as_str()),
                re: "\"version\"\\s*:\\s*\"([^\"]+)\"".to_owned(),
            },
            autoupdate,
        },
    )
}

/// The variables of a Scoop template.
pub open spec fn scoop_variables(
    package_id: Seq<char>,
    metadata: ResolvedPackageMetadataView,
    manifest: PackageManifestView,
    base_url: Seq<char>,
    bin: Seq<Seq<char>>,
) -> Result<Map<Seq<char>, Seq<char>>, RenderScoopJsonErrorView> {
    if !(manifest.kind is Scoop) {
        Err(RenderScoopJsonErrorView::WrongKind)
    } else if bin.len() == 0 {
        Err(RenderScoopJsonErrorView::MissingBin)
    } else {
        match (layout(manifest, base_url, true), layout(manifest, base_url, false)) {
            (Err(error), _) => Err(error),
            (Ok(_), Err(error)) => Err(error),
            (Ok(architecture), Ok(autoupdate)) => Ok(
                extended(
                    package_variables(package_id, metadata),
                    feature_variables(manifest),
                ).insert("scoop.bin.json"@, pretty_json(JsonDocumentView::List(bin))).insert(
                    "scoop.architecture.json"@,
                    pretty_json(JsonDocumentView::Object(architecture)),
                ).insert(
                    "scoop.autoupdate.json"@,
                    pretty_json(JsonDocumentView::Object(autoupdate)),
                ),
            ),
        }
    }
}

/// The variables of a Scoop template.
pub fn scoop_template_variables(
    package_id: &PackageId,
    metadata: &ResolvedPackageMetadata,
    manifest: &PackageManifest,
    public_base_url: &PublicBaseUrl,
    bin: &Vec<String>,
) -> (result: Result<TextMap<String, String>, RenderScoopJsonError>)
    ensures
        outcome(result) == scoop_variables(
            package_id.deep_view(),
            metadata.deep_view(),
            manifest.deep_view(),
            public_base_url.deep_view(),
            deep(bin@),
        ),
{
    match manifest.kind {
        PackageSystem::Scoop => {},
        _ => {
            return Err(RenderScoopJsonError::WrongKind);
        },
    }
    if bin.len() == 0 {
        return Err(RenderScoopJsonError::MissingBin);
    }
    let architecture = match scoop_layout(manifest, public_base_url, true) {
        Ok(members) => members,
        Err(error) => {
            return Err(error);
        },
    };
    let autoupdate = match scoop_layout(manifest, public_base_url, false) {
        Ok(members) => members,
        Err(error) => {
            return Err(error);
        },
    };
    let mut variables = package_template_variables(package_id, metadata);
    extend_with_features(&mut variables, manifest);
    let programs = bin.clone();
    assert(deep(programs@) =~= deep(bin@));
    match render_json(&JsonDocument::List(programs)) {
        Ok(text) => {
            variables.insert("scoop.bin.json".to_owned(), text);
        },
        Err(error) => {
            return Err(error);
        },
    }
    match render_json(&JsonDocument::Object(architecture)) {
        Ok(text) => {
            variables.insert("scoop.architecture.json".to_owned(), text);
        },
        Err(error) => {
            return Err(error);
        },
    }
    match render_json(&JsonDocument::Object(autoupdate)) {
        Ok(text) => {
            variables.insert("scoop.autoupdate.json".to_owned(), text);
        },
        Err(error) => {
            return Err(error);
        },
    }
    Ok(variables)
}

} // verus!
