//! Package identifiers, package versions and package metadata.

use vstd::prelude::*;

use crate::contract::{package_of, PackageContract, ReleaseContract};
use crate::model::{deep, outcome};
use crate::path::{components, component_names, absolute, is_absolute, join_path, path_join};
use crate::text::{chars_of, same_text};
use crate::textmap::{TextKey, TextMap};
use crate::version::{parsed_version, SourceVersion, SourceVersionView};

verus! {

broadcast use crate::model::group_deep;

// ---------------------------------------------------------------------------
// Package identifiers
// ---------------------------------------------------------------------------
/// The name under which a package stands in a release contract.
#[derive(Debug, PartialEq, Eq, PartialOrd, Ord, Hash)]
pub struct PackageId(String);

impl DeepView for PackageId {
    type V = Seq<char>;

    closed spec fn deep_view(&self) -> Seq<char> {
        self.0@
    }
}

impl Clone for PackageId {
    fn clone(&self) -> (copy: Self)
        ensures
            copy.deep_view() == self.deep_view(),
    {
        PackageId(self.0.clone())
    }
}

impl TextKey for PackageId {
    fn key(&self) -> (text: &str) {
        self.0.as_str()
    }
}

/// ASCII white space: space, tab, line feed, form feed and carriage return.
pub open spec fn is_ascii_space(c: char) -> bool {
    c == ' ' || c == '\t' || c == '\n' || c == '\u{c}' || c == '\r'
}

/// A character that no package identifier holds.
pub open spec fn breaks_id(c: char) -> bool {
    c == '.' || is_ascii_space(c)
}

/// A text that can name a package.
pub open spec fn is_package_id(text: Seq<char>) -> bool {
    text.len() > 0 && forall|i: int| 0 <= i < text.len() ==> !breaks_id(#[trigger] text[i])
}

/// The character that stands for `c` in the name of an environment variable.
pub open spec fn fragment_char(c: char) -> char {
    if 'a' <= c && c <= 'z' {
        ((c as u8) - 32) as char
    } else if ('A' <= c && c <= 'Z') || ('0' <= c && c <= '9') {
        c
    } else {
        '_'
    }
}

/// A text that names no package.
#[derive(Debug, PartialEq, Eq)]
pub enum ParsePackageIdError {
    /// Reported as `package id must not be empty`.
    Empty,
    /// Reported as `invalid package id {value}`.
    Invalid { value: String },
}

/// What a [`ParsePackageIdError`] holds.
pub enum ParsePackageIdErrorView {
    Empty,
    Invalid { value: Seq<char> },
}

impl DeepView for ParsePackageIdError {
    type V = ParsePackageIdErrorView;

    open spec fn deep_view(&self) -> ParsePackageIdErrorView {
        match self {
            ParsePackageIdError::Empty => ParsePackageIdErrorView::Empty,
            ParsePackageIdError::Invalid { value } => ParsePackageIdErrorView::Invalid {
                value: value@,
            },
        }
    }
}

impl ParsePackageIdErrorView {
    /// The message of the error.
    pub open spec fn message(self) -> Seq<char> {
        match self {
            ParsePackageIdErrorView::Empty => "package id must not be empty"@,
            ParsePackageIdErrorView::Invalid { value } => "invalid package id "@ + value,
        }
    }
}

impl ParsePackageIdError {
    /// The message of the error.
    pub fn to_string(&self) -> (text: String)
        ensures
            text@ == self.deep_view().message(),
    {
        match self {
            ParsePackageIdError::Empty => "package id must not be empty".to_owned(),
            ParsePackageIdError::Invalid { value } => {
                let mut text = "invalid package id ".to_owned();
                text.append(value.as_str());
                text
            },
        }
    }
}

impl PackageId {
    /// The identifier with the given text. It is neither empty nor holds a dot or ASCII
    /// white space.
    pub fn new(value: &str) -> (id: Result<Self, ParsePackageIdError>)
        ensures
            outcome(id) == (if value@.len() == 0 {
                Err(ParsePackageIdErrorView::Empty)
            } else if is_package_id(value@) {
                Ok(value@)
            } else {
                Err(ParsePackageIdErrorView::Invalid { value: value@ })
            }),
    {
        if value.is_empty() {
            return Err(ParsePackageIdError::Empty);
        }
        let chars = chars_of(value);
        let mut i: usize = 0;
        while i < chars.len()
            invariant
                i <= chars@.len(),
                chars@ == value@,
                value@.len() > 0,
                forall|j: int| 0 <= j < i ==> !breaks_id(#[trigger] value@[j]),
            decreases chars@.len() - i,
        {
            let c = chars[i];
            if c == '.' || c == ' ' || c == '\t' || c == '\n' || c == '\u{c}' || c == '\r' {
                assert(breaks_id(value@[i as int]));
                return Err(ParsePackageIdError::Invalid { value: value.to_owned() });
            }
            i = i + 1;
        }
        Ok(PackageId(value.to_owned()))
    }

    /// The identifier with the given text, whatever it holds.
    pub fn from_key(value: String) -> (id: Self)
        ensures
            id.deep_view() == value@,
    {
        PackageId(value)
    }

    /// The text of the identifier.
    pub fn as_str(&self) -> (text: &str)
        ensures
            text@ == self.deep_view(),
    {
        self.0.as_str()
    }

    /// The identifier as part of the name of an environment variable: ASCII letters in
    /// upper case, ASCII digits, and underscores for everything else.
    pub fn env_fragment(&self) -> (fragment: String)
        ensures
            fragment@ == self.deep_view().map_values(|c: char| fragment_char(c)),
    {
        let chars = chars_of(self.0.as_str());
        let mut fragment = String::new();
        let mut i: usize = 0;
        assert(fragment@ =~= self.0@.map_values(|c: char| fragment_char(c)).take(0));
        while i < chars.len()
            invariant
                i <= chars@.len(),
                chars@ == self.0@,
                fragment@ == self.0@.map_values(|c: char| fragment_char(c)).take(i as int),
            decreases chars@.len() - i,
        {
            let c = chars[i];
            let kept = if 'a' <= c && c <= 'z' {
                ((c as u8) - 32) as char
            } else if ('A' <= c && c <= 'Z') || ('0' <= c && c <= '9') {
                c
            } else {
                '_'
            };
            fragment.push(kept);
            assert(self.0@.map_values(|c: char| fragment_char(c)).take(i + 1)
                =~= self.0@.map_values(|c: char| fragment_char(c)).take(i as int).push(kept));
            i = i + 1;
        }
        assert(self.0@.map_values(|c: char| fragment_char(c)).take(i as int)
            =~= self.0@.map_values(|c: char| fragment_char(c)));
        fragment
    }
}

// ---------------------------------------------------------------------------
// Package versions
// ---------------------------------------------------------------------------
/// The version under which a package system knows a package.
#[derive(Debug, PartialEq, Eq)]
pub enum PackageVersion {
    Deb { source: SourceVersion, revision: String },
    Rpm { source: SourceVersion, release: String },
    Plain { source: SourceVersion },
}

/// What a [`PackageVersion`] holds.
pub enum PackageVersionView {
    Deb { source: SourceVersionView, revision: Seq<char> },
    Rpm { source: SourceVersionView, release: Seq<char> },
    Plain { source: SourceVersionView },
}

impl DeepView for PackageVersion {
    type V = PackageVersionView;

    open spec fn deep_view(&self) -> PackageVersionView {
        match self {
            PackageVersion::Deb { source, revision } => PackageVersionView::Deb {
                source: source.deep_view(),
                revision: revision@,
            },
            PackageVersion::Rpm { source, release } => PackageVersionView::Rpm {
                source: source.deep_view(),
                release: release@,
            },
            PackageVersion::Plain { source } => PackageVersionView::Plain {
                source: source.deep_view(),
            },
        }
    }
}

impl Clone for PackageVersion {
    fn clone(&self) -> (copy: Self)
        ensures
            copy.deep_view() == self.deep_view(),
    {
        match self {
            PackageVersion::Deb { source, revision } => PackageVersion::Deb { source: source.clone(), revision: revision.clone() },
            PackageVersion::Rpm { source, release } => PackageVersion::Rpm { source: source.clone(), release: release.clone() },
            PackageVersion::Plain { source } => PackageVersion::Plain { source: source.clone() },
        }
    }
}

/// Why a package version cannot be composed.
#[derive(Debug, PartialEq, Eq)]
pub enum PackageVersionError {
    /// Reported as `{name} must not be empty`.
    EmptySegment { name: &'static str },
}

/// What a [`PackageVersionError`] holds.
pub enum PackageVersionErrorView {
    EmptySegment { name: Seq<char> },
}

impl DeepView for PackageVersionError {
    type V = PackageVersionErrorView;

    open spec fn deep_view(&self) -> PackageVersionErrorView {
        match self {
            PackageVersionError::EmptySegment { name } => PackageVersionErrorView::EmptySegment {
                name: name@,
            },
        }
    }
}

impl PackageVersionErrorView {
    /// The message of the error.
    pub open spec fn message(self) -> Seq<char> {
        match self {
            PackageVersionErrorView::EmptySegment { name } => name + " must not be empty"@,
        }
    }
}

impl PackageVersionError {
    /// The message of the error.
    pub fn to_string(&self) -> (text: String)
        ensures
            text@ == self.deep_view().message(),
    {
        match self {
            PackageVersionError::EmptySegment { name } => {
                let mut text = (*name).to_owned();
                text.append(" must not be empty");
                text
            },
        }
    }
}

impl PackageVersionView {
    /// How the package version is written.
    pub open spec fn text(self) -> Seq<char> {
        match self {
            PackageVersionView::Deb { source, revision } => source.linux_text() + "-"@ + revision,
            PackageVersionView::Rpm { source, release } => source.linux_text() + "-"@ + release,
            PackageVersionView::Plain { source } => source.text(),
        }
    }
}

/// A Debian version: the revision is not empty.
pub open spec fn deb_version(source: SourceVersionView, revision: Seq<char>) -> Result<
    PackageVersionView,
    PackageVersionErrorView,
> {
    if revision.len() == 0 {
        Err(PackageVersionErrorView::EmptySegment { name: "deb revision"@ })
    } else {
        Ok(PackageVersionView::Deb { source, revision })
    }
}

/// An RPM version: the release is not empty.
pub open spec fn rpm_version(source: SourceVersionView, release: Seq<char>) -> Result<
    PackageVersionView,
    PackageVersionErrorView,
> {
    if release.len() == 0 {
        Err(PackageVersionErrorView::EmptySegment { name: "rpm release"@ })
    } else {
        Ok(PackageVersionView::Rpm { source, release })
    }
}

impl PackageVersion {
    /// The Debian version of a source version.
    pub fn deb(source: SourceVersion, revision: &str) -> (version: Result<
        Self,
        PackageVersionError,
    >)
        ensures
            outcome(version) == deb_version(source.deep_view(), revision@),
    {
        if revision.is_empty() {
            return Err(PackageVersionError::EmptySegment { name: "deb revision" });
        }
        Ok(PackageVersion::Deb { source, revision: revision.to_owned() })
    }

    /// The RPM version of a source version.
    pub fn rpm(source: SourceVersion, release: &str) -> (version: Result<
        Self,
        PackageVersionError,
    >)
        ensures
            outcome(version) == rpm_version(source.deep_view(), release@),
    {
        if release.is_empty() {
            return Err(PackageVersionError::EmptySegment { name: "rpm release" });
        }
        Ok(PackageVersion::Rpm { source, release: release.to_owned() })
    }

    /// The source version itself.
    pub fn plain(source: SourceVersion) -> (version: Self)
        ensures
            version.deep_view() == (PackageVersionView::Plain { source: source.deep_view() }),
    {
        PackageVersion::Plain { source }
    }

    /// How the package version is written.
    pub fn as_string(&self) -> (text: String)
        ensures
            text@ == self.deep_view().text(),
    {
        match self {
            PackageVersion::Deb { source, revision } => {
                let mut text = source.linux_text();
                text.append("-");
                text.append(revision.as_str());
                text
            },
            PackageVersion::Rpm { source, release } => {
                let mut text = source.linux_text();
                text.append("-");
                text.append(release.as_str());
                text
            },
            PackageVersion::Plain { source } => source.to_string(),
        }
    }
}

// ---------------------------------------------------------------------------
// Package metadata
// ---------------------------------------------------------------------------
/// What is known of a package, whichever place it was read from.
#[derive(Debug, PartialEq, Eq)]
pub struct ResolvedPackageMetadata {
    pub source_version: SourceVersion,
    pub description: String,
    pub license: String,
    pub homepage: String,
    pub repository: Option<String>,
}

/// What a [`ResolvedPackageMetadata`] holds.
pub struct ResolvedPackageMetadataView {
    pub source_version: SourceVersionView,
    pub description: Seq<char>,
    pub license: Seq<char>,
    pub homepage: Seq<char>,
    pub repository: Option<Seq<char>>,
}

impl DeepView for ResolvedPackageMetadata {
    type V = ResolvedPackageMetadataView;

    open spec fn deep_view(&self) -> ResolvedPackageMetadataView {
        ResolvedPackageMetadataView {
            source_version: self.source_version.deep_view(),
            description: self.description@,
            license: self.license@,
            homepage: self.homepage@,
            repository: self.repository.deep_view(),
        }
    }
}

impl Clone for ResolvedPackageMetadata {
    fn clone(&self) -> (copy: Self)
        ensures
            copy.deep_view() == self.deep_view(),
    {
        let copy = ResolvedPackageMetadata {
            source_version: self.source_version.clone(),
            description: self.description.clone(),
            license: self.license.clone(),
            homepage: self.homepage.clone(),
            repository: self.repository.clone(),
        };
        copy
    }
}

/// What Cargo reports of one package.
#[derive(Debug, PartialEq, Eq)]
pub struct CargoPackage {
    pub name: String,
    pub manifest_path: String,
    pub version: SourceVersion,
    pub description: Option<String>,
    pub license: Option<String>,
    pub homepage: Option<String>,
    pub repository: Option<String>,
}

/// What a [`CargoPackage`] holds.
pub struct CargoPackageView {
    pub name: Seq<char>,
    pub manifest_path: Seq<char>,
    pub version: SourceVersionView,
    pub description: Option<Seq<char>>,
    pub license: Option<Seq<char>>,
    pub homepage: Option<Seq<char>>,
    pub repository: Option<Seq<char>>,
}

impl DeepView for CargoPackage {
    type V = CargoPackageView;

    open spec fn deep_view(&self) -> CargoPackageView {
        CargoPackageView {
            name: self.name@,
            manifest_path: self.manifest_path@,
            version: self.version.deep_view(),
            description: self.description.deep_view(),
            license: self.license.deep_view(),
            homepage: self.homepage.deep_view(),
            repository: self.repository.deep_view(),
        }
    }
}

/// What asking Cargo about a manifest gave.
#[derive(Debug, PartialEq, Eq)]
pub enum CargoMetadata {
    /// Cargo failed.
    Failed,
    /// Cargo reported packages, among them perhaps a root package.
    Read { root: Option<CargoPackage>, packages: Vec<CargoPackage> },
}

/// What a [`CargoMetadata`] holds.
pub enum CargoMetadataView {
    Failed,
    Read { root: Option<CargoPackageView>, packages: Seq<CargoPackageView> },
}

impl DeepView for CargoMetadata {
    type V = CargoMetadataView;

    open spec fn deep_view(&self) -> CargoMetadataView {
        match self {
            CargoMetadata::Failed => CargoMetadataView::Failed,
            CargoMetadata::Read { root, packages } => CargoMetadataView::Read {
                root: root.deep_view(),
                packages: deep(packages@),
            },
        }
    }
}

/// Why the metadata of a package cannot be resolved.
#[derive(Debug, PartialEq, Eq)]
pub enum ResolvePackageMetadataError {
    /// Reported as `package {package} does not exist`.
    MissingPackage { package: String },
    /// Reported as `package {package} is missing source version`.
    MissingVersion { package: String },
    /// Reported as `package {package} has invalid source version {version}`.
    InvalidSourceVersion { package: String, version: String },
    /// Reported as `package {package} is missing metadata field {field}`.
    MissingExplicitMetadata { package: String, field: &'static str },
    /// Reported as `failed to read cargo metadata`.
    CargoMetadata { manifest: String },
    /// Reported as `cargo metadata did not include package for manifest`.
    MissingCargoPackage { manifest: String },
    /// Reported as `cargo package {package} is missing metadata field {field}`.
    MissingCargoMetadata { package: String, field: &'static str },
}

/// What a [`ResolvePackageMetadataError`] holds.
pub enum ResolvePackageMetadataErrorView {
    MissingPackage { package: Seq<char> },
    MissingVersion { package: Seq<char> },
    InvalidSourceVersion { package: Seq<char>, version: Seq<char> },
    MissingExplicitMetadata { package: Seq<char>, field: Seq<char> },
    CargoMetadata { manifest: Seq<char> },
    MissingCargoPackage { manifest: Seq<char> },
    MissingCargoMetadata { package: Seq<char>, field: Seq<char> },
}

impl DeepView for ResolvePackageMetadataError {
    type V = ResolvePackageMetadataErrorView;

    open spec fn deep_view(&self) -> ResolvePackageMetadataErrorView {
        match self {
            ResolvePackageMetadataError::MissingPackage { package } => ResolvePackageMetadataErrorView::MissingPackage {
                package: package@,
            },
            ResolvePackageMetadataError::MissingVersion { package } => ResolvePackageMetadataErrorView::MissingVersion {
                package: package@,
            },
            ResolvePackageMetadataError::InvalidSourceVersion { package, version } => ResolvePackageMetadataErrorView::InvalidSourceVersion {
                package: package@,
                version: version@,
            },
            ResolvePackageMetadataError::MissingExplicitMetadata { package, field } => ResolvePackageMetadataErrorView::MissingExplicitMetadata {
                package: package@,
                field: field@,
            },
            ResolvePackageMetadataError::CargoMetadata { manifest } => ResolvePackageMetadataErrorView::CargoMetadata {
                manifest: manifest@,
            },
            ResolvePackageMetadataError::MissingCargoPackage { manifest } => ResolvePackageMetadataErrorView::MissingCargoPackage {
                manifest: manifest@,
            },
            ResolvePackageMetadataError::MissingCargoMetadata { package, field } => ResolvePackageMetadataErrorView::MissingCargoMetadata {
                package: package@,
                field: field@,
            },
        }
    }
}

impl ResolvePackageMetadataErrorView {
    /// The message of the error.
    pub open spec fn message(self) -> Seq<char> {
        match self {
            ResolvePackageMetadataErrorView::MissingPackage { package } => "package "@ + package + " does not exist"@,
            ResolvePackageMetadataErrorView::MissingVersion { package } => "package "@ + package + " is missing source version"@,
            ResolvePackageMetadataErrorView::InvalidSourceVersion { package, version } => "package "@ + package + " has invalid source version "@ + version,
            ResolvePackageMetadataErrorView::MissingExplicitMetadata { package, field } => "package "@ + package + " is missing metadata field "@ + field,
            ResolvePackageMetadataErrorView::CargoMetadata { .. } => "failed to read cargo metadata"@,
            ResolvePackageMetadataErrorView::MissingCargoPackage { .. } => "cargo metadata did not include package for manifest"@,
            ResolvePackageMetadataErrorView::MissingCargoMetadata { package, field } => "cargo package "@ + package + " is missing metadata field "@ + field,
        }
    }
}

impl ResolvePackageMetadataError {
    /// The message of the error.
    pub fn to_string(&self) -> (text: String)
        ensures
            text@ == self.deep_view().message(),
    {
        match self {
            ResolvePackageMetadataError::MissingPackage { package } => {
                let mut text = "package ".to_owned();
                text.append(package.as_str());
                text.append(" does not exist");
                text
            },
            ResolvePackageMetadataError::MissingVersion { package } => {
                let mut text = "package ".to_owned();
                text.append(package.as_str());
                text.append(" is missing source version");
                text
            },
            ResolvePackageMetadataError::InvalidSourceVersion { package, version } => {
                let mut text = "package ".to_owned();
                text.append(package.as_str());
                text.append(" has invalid source version ");
                text.append(version.as_str());
                text
            },
            ResolvePackageMetadataError::MissingExplicitMetadata { package, field } => {
                let mut text = "package ".to_owned();
                text.append(package.as_str());
                text.append(" is missing metadata field ");
                text.append(field);
                text
            },
            ResolvePackageMetadataError::CargoMetadata { .. } => "failed to read cargo metadata".to_owned(),
            ResolvePackageMetadataError::MissingCargoPackage { .. } => "cargo metadata did not include package for manifest".to_owned(),
            ResolvePackageMetadataError::MissingCargoMetadata { package, field } => {
                let mut text = "cargo package ".to_owned();
                text.append(package.as_str());
                text.append(" is missing metadata field ");
                text.append(field);
                text
            },
        }
    }
}

/// Two paths that lead through the same components.
pub open spec fn same_path(path: Seq<char>, other: Seq<char>) -> bool {
    absolute(path) == absolute(other) && components(path) == components(other)
}

/// The first package of `packages`, from `from` on, whose manifest is at `manifest`.
pub open spec fn package_at(packages: Seq<CargoPackageView>, manifest: Seq<char>, from: int) -> Option<
    CargoPackageView,
>
    decreases packages.len() - from,
{
    if from < 0 || from >= packages.len() {
        None
    } else if same_path(packages[from].manifest_path, manifest) {
        Some(packages[from])
    } else {
        package_at(packages, manifest, from + 1)
    }
}

/// The package that Cargo reports for the manifest at `manifest`: the root package, or
/// else the one whose manifest is there.
pub open spec fn cargo_package(metadata: CargoMetadataView, manifest: Seq<char>) -> Option<
    CargoPackageView,
> {
    match metadata {
        CargoMetadataView::Failed => None,
        CargoMetadataView::Read { root: Some(package), .. } => Some(package),
        CargoMetadataView::Read { root: None, packages } => package_at(packages, manifest, 0),
    }
}

/// The metadata of a Cargo package, which needs a description, a license and a homepage.
pub open spec fn cargo_package_metadata(package: CargoPackageView) -> Result<
    ResolvedPackageMetadataView,
    ResolvePackageMetadataErrorView,
> {
    match (package.description, package.license, package.homepage) {
        (None, _, _) => Err(
            ResolvePackageMetadataErrorView::MissingCargoMetadata {
                package: package.name,
                field: "description"@,
            },
        ),
        (Some(_), None, _) => Err(
            ResolvePackageMetadataErrorView::MissingCargoMetadata {
                package: package.name,
                field: "license"@,
            },
        ),
        (Some(_), Some(_), None) => Err(
            ResolvePackageMetadataErrorView::MissingCargoMetadata {
                package: package.name,
                field: "homepage"@,
            },
        ),
        (Some(description), Some(license), Some(homepage)) => Ok(
            ResolvedPackageMetadataView {
                source_version: package.version,
                description,
                license,
                homepage,
                repository: package.repository,
            },
        ),
    }
}

/// The manifest that a contract names, taken from the directory of the contract.
pub open spec fn manifest_at(contract_root: Seq<char>, manifest: Seq<char>) -> Seq<char> {
    if absolute(manifest) {
        manifest
    } else {
        path_join(contract_root, manifest)
    }
}

/// The metadata of a package whose contract names a Cargo manifest.
pub open spec fn cargo_metadata_of(
    contract_root: Seq<char>,
    manifest: Seq<char>,
    cargo: Map<Seq<char>, CargoMetadataView>,
) -> Result<ResolvedPackageMetadataView, ResolvePackageMetadataErrorView> {
    let path = manifest_at(contract_root, manifest);
    if !cargo.contains_key(path) || cargo[path] is Failed {
        Err(ResolvePackageMetadataErrorView::CargoMetadata { manifest: path })
    } else {
        match cargo_package(cargo[path], path) {
            None => Err(ResolvePackageMetadataErrorView::MissingCargoPackage { manifest: path }),
            Some(package) => cargo_package_metadata(package),
        }
    }
}

/// The field is absent or empty.
pub open spec fn lacks_text(field: Option<String>) -> bool {
    match field {
        Some(text) => text@.len() == 0,
        None => true,
    }
}

/// The metadata of a package whose contract states its version and its metadata.
pub open spec fn explicit_metadata_of(package: Seq<char>, contract: PackageContract) -> Result<
    ResolvedPackageMetadataView,
    ResolvePackageMetadataErrorView,
> {
    match contract.version {
        None => Err(ResolvePackageMetadataErrorView::MissingVersion { package }),
        Some(version) => match parsed_version(version@) {
            None => Err(
                ResolvePackageMetadataErrorView::InvalidSourceVersion { package, version: version@ },
            ),
            Some(source_version) => if lacks_text(contract.description) {
                Err(
                    ResolvePackageMetadataErrorView::MissingExplicitMetadata {
                        package,
                        field: "description"@,
                    },
                )
            } else if lacks_text(contract.license) {
                Err(
                    ResolvePackageMetadataErrorView::MissingExplicitMetadata {
                        package,
                        field: "license"@,
                    },
                )
            } else if lacks_text(contract.homepage) {
                Err(
                    ResolvePackageMetadataErrorView::MissingExplicitMetadata {
                        package,
                        field: "homepage"@,
                    },
                )
            } else {
                Ok(
                    ResolvedPackageMetadataView {
                        source_version,
                        description: contract.description->0@,
                        license: contract.license->0@,
                        homepage: contract.homepage->0@,
                        repository: contract.repository.deep_view(),
                    },
                )
            },
        },
    }
}

/// The metadata of a package of the contract.
pub open spec fn metadata_of(
    contract: ReleaseContract,
    package: Seq<char>,
    contract_root: Seq<char>,
    cargo: Map<Seq<char>, CargoMetadataView>,
) -> Result<ResolvedPackageMetadataView, ResolvePackageMetadataErrorView> {
    match package_of(contract, package) {
        None => Err(ResolvePackageMetadataErrorView::MissingPackage { package }),
        Some(found) => match found.manifest {
            Some(manifest) => cargo_metadata_of(contract_root, manifest@, cargo),
            None => explicit_metadata_of(package, found),
        },
    }
}

/// Whether two paths lead through the same components.
fn is_same_path(path: &str, other: &str) -> (same: bool)
    ensures
        same == same_path(path@, other@),
{
    if is_absolute(path) != is_absolute(other) {
        return false;
    }
    let names = component_names(path);
    let others = component_names(other);
    if names.len() != others.len() {
        assert(deep(names@).len() != deep(others@).len());
        return false;
    }
    let mut i: usize = 0;
    while i < names.len()
        invariant
            i <= names@.len() == others@.len(),
            deep(names@) == components(path@),
            deep(others@) == components(other@),
            forall|j: int| 0 <= j < i ==> #[trigger] components(path@)[j] == components(other@)[j],
        decreases names@.len() - i,
    {
        assert(deep(names@)[i as int] == names@[i as int]@);
        assert(deep(others@)[i as int] == others@[i as int]@);
        if !same_text(names[i].as_str(), others[i].as_str()) {
            return false;
        }
        i = i + 1;
    }
    assert(components(path@) =~= components(other@));
    true
}

fn find_package<'a>(packages: &'a Vec<CargoPackage>, manifest: &str) -> (found: Option<
    &'a CargoPackage,
>)
    ensures
        match found {
            Some(package) => package_at(deep(packages@), manifest@, 0) == Some(package.deep_view()),
            None => package_at(deep(packages@), manifest@, 0) is None,
        },
{
    let mut i: usize = 0;
    while i < packages.len()
        invariant
            i <= packages@.len(),
            package_at(deep(packages@), manifest@, 0) == package_at(
                deep(packages@),
                manifest@,
                i as int,
            ),
        decreases packages@.len() - i,
    {
        assert(deep(packages@)[i as int] == packages@[i as int].deep_view());
        if is_same_path(packages[i].manifest_path.as_str(), manifest) {
            return Some(&packages[i]);
        }
        i = i + 1;
    }
    None
}

/// The metadata of a Cargo package.
fn package_metadata(package: &CargoPackage) -> (metadata: Result<
    ResolvedPackageMetadata,
    ResolvePackageMetadataError,
>)
    ensures
        outcome(metadata) == cargo_package_metadata(package.deep_view()),
{
    let description = match &package.description {
        Some(text) => text.clone(),
        None => {
            return Err(
                ResolvePackageMetadataError::MissingCargoMetadata {
                    package: package.name.clone(),
                    field: "description",
                },
            );
        },
    };
    let license = match &package.license {
        Some(text) => text.clone(),
        None => {
            return Err(
                ResolvePackageMetadataError::MissingCargoMetadata {
                    package: package.name.clone(),
                    field: "license",
                },
            );
        },
    };
    let homepage = match &package.homepage {
        Some(text) => text.clone(),
        None => {
            return Err(
                ResolvePackageMetadataError::MissingCargoMetadata {
                    package: package.name.clone(),
                    field: "homepage",
                },
            );
        },
    };
    Ok(
        ResolvedPackageMetadata {
            source_version: package.version.clone(),
            description,
            license,
            homepage,
            repository: package.repository.clone(),
        },
    )
}

/// The metadata of a package whose contract names a Cargo manifest. `cargo` holds, by
/// the path of the manifest, what Cargo reported.
pub fn resolve_cargo_metadata(
    contract_root: &str,
    manifest: &str,
    cargo: &TextMap<String, CargoMetadata>,
) -> (metadata: Result<ResolvedPackageMetadata, ResolvePackageMetadataError>)
    ensures
        outcome(metadata) == cargo_metadata_of(contract_root@, manifest@, cargo.deep_view()),
{
    let path = cargo_manifest_path(contract_root, manifest);
    match cargo.value(path.as_str()) {
        Some(CargoMetadata::Read { root, packages }) => {
            let found = match root {
                Some(package) => Some(package),
                None => find_package(packages, path.as_str()),
            };
            match found {
                Some(package) => package_metadata(package),
                None => Err(ResolvePackageMetadataError::MissingCargoPackage { manifest: path }),
            }
        },
        _ => Err(ResolvePackageMetadataError::CargoMetadata { manifest: path }),
    }
}

/// The manifest that a contract names, taken from the directory of the contract.
pub fn cargo_manifest_path(contract_root: &str, manifest: &str) -> (path: String)
    ensures
        path@ == manifest_at(contract_root@, manifest@),
{
    if is_absolute(manifest) {
        manifest.to_owned()
    } else {
        join_path(contract_root, manifest)
    }
}

/// The text of a metadata field that must be there and not be empty.
fn required_metadata_field(
    package: &str,
    field: &'static str,
    value: &Option<String>,
) -> (text: Result<String, ResolvePackageMetadataError>)
    ensures
        outcome(text) == (if lacks_text(*value) {
            Err(
                ResolvePackageMetadataErrorView::MissingExplicitMetadata {
                    package: package@,
                    field: field@,
                },
            )
        } else {
            Ok(value->0@)
        }),
{
    match value {
        Some(text) if !text.as_str().is_empty() => Ok(text.clone()),
        _ => Err(
            ResolvePackageMetadataError::MissingExplicitMetadata {
                package: package.to_owned(),
                field,
            },
        ),
    }
}

/// The metadata of a package of the contract: what Cargo reports where the contract
/// names a Cargo manifest, and what the contract itself states where it does not.
pub fn resolve_metadata(
    contract: &ReleaseContract,
    package: &str,
    contract_root: &str,
    cargo: &TextMap<String, CargoMetadata>,
) -> (metadata: Result<ResolvedPackageMetadata, ResolvePackageMetadataError>)
    ensures
        outcome(metadata) == metadata_of(
            *contract,
            package@,
            contract_root@,
            cargo.deep_view(),
        ),
{
    let found = match contract.package(package) {
        Some(found) => found,
        None => {
            return Err(
                ResolvePackageMetadataError::MissingPackage { package: package.to_owned() },
            );
        },
    };
    if let Some(manifest) = &found.manifest {
        return resolve_cargo_metadata(contract_root, manifest.as_str(), cargo);
    }
    let version = match &found.version {
        Some(version) => version,
        None => {
            return Err(
                ResolvePackageMetadataError::MissingVersion { package: package.to_owned() },
            );
        },
    };
    let source_version = match SourceVersion::parse(version.as_str()) {
        Ok(source_version) => source_version,
        Err(_) => {
            return Err(
                ResolvePackageMetadataError::InvalidSourceVersion {
                    package: package.to_owned(),
                    version: version.clone(),
                },
            );
        },
    };
    let description = match required_metadata_field(package, "description", &found.description) {
        Ok(text) => text,
        Err(error) => {
            return Err(error);
        },
    };
    let license = match required_metadata_field(package, "license", &found.license) {
        Ok(text) => text,
        Err(error) => {
            return Err(error);
        },
    };
    let homepage = match required_metadata_field(package, "homepage", &found.homepage) {
        Ok(text) => text,
        Err(error) => {
            return Err(error);
        },
    };
    Ok(
        ResolvedPackageMetadata {
            source_version,
            description,
            license,
            homepage,
            repository: found.repository.clone(),
        },
    )
}

} // verus!
