//! Package systems, build targets and profiles.

use vstd::prelude::*;

use crate::text::same_text;

verus! {

/// The systems a package can be released for.
#[derive(Debug, Clone, Copy, PartialEq, Eq, PartialOrd, Ord, Hash, Structural)]
pub enum PackageSystem {
    Deb,
    Rpm,
    Brew,
    Scoop,
}

/// The name of a package system.
pub open spec fn system_name(system: PackageSystem) -> Seq<char> {
    match system {
        PackageSystem::Deb => "deb"@,
        PackageSystem::Rpm => "rpm"@,
        PackageSystem::Brew => "brew"@,
        PackageSystem::Scoop => "scoop"@,
    }
}

/// The package system with the given name.
pub open spec fn system_named(name: Seq<char>) -> Option<PackageSystem> {
    if name == "deb"@ {
        Some(PackageSystem::Deb)
    } else if name == "rpm"@ {
        Some(PackageSystem::Rpm)
    } else if name == "brew"@ {
        Some(PackageSystem::Brew)
    } else if name == "scoop"@ {
        Some(PackageSystem::Scoop)
    } else {
        None
    }
}

impl DeepView for PackageSystem {
    type V = PackageSystem;

    open spec fn deep_view(&self) -> PackageSystem {
        *self
    }
}

impl PackageSystem {
    /// The name of the package system.
    pub fn as_str(self) -> (name: &'static str)
        ensures
            name@ == system_name(self),
    {
        match self {
            PackageSystem::Deb => "deb",
            PackageSystem::Rpm => "rpm",
            PackageSystem::Brew => "brew",
            PackageSystem::Scoop => "scoop",
        }
    }

    /// The package system with the given name.
    pub fn from_str(value: &str) -> (system: Result<Self, ParsePackageSystemError>)
        ensures
            match system {
                Ok(system) => system_named(value@) == Some(system),
                Err(error) => system_named(value@) is None && error.deep_view().value == value@,
            },
    {
        if same_text(value, "deb") {
            Ok(PackageSystem::Deb)
        } else if same_text(value, "rpm") {
            Ok(PackageSystem::Rpm)
        } else if same_text(value, "brew") {
            Ok(PackageSystem::Brew)
        } else if same_text(value, "scoop") {
            Ok(PackageSystem::Scoop)
        } else {
            Err(ParsePackageSystemError { value: value.to_owned() })
        }
    }

    /// Whether the package system is one of the Linux package systems.
    pub fn is_linux(self) -> (linux: bool)
        ensures
            linux == is_linux_system(self),
    {
        match self {
            PackageSystem::Deb | PackageSystem::Rpm => true,
            PackageSystem::Brew | PackageSystem::Scoop => false,
        }
    }
}

/// Debian and RPM packages are Linux packages.
pub open spec fn is_linux_system(system: PackageSystem) -> bool {
    system is Deb || system is Rpm
}

/// Every package system is found by its name.
pub proof fn lemma_system_found_by_name(system: PackageSystem)
    ensures
        system_named(system_name(system)) == Some(system),
{
    reveal_strlit("deb");
    reveal_strlit("rpm");
    reveal_strlit("brew");
    reveal_strlit("scoop");
    assert("deb"@[0] != "rpm"@[0]);
    assert("deb"@.len() == 3 && "rpm"@.len() == 3 && "brew"@.len() == 4 && "scoop"@.len() == 5);
}

/// The names of the package systems differ.
pub proof fn lemma_system_names_distinct()
    ensures
        forall|a: PackageSystem, b: PackageSystem|
            #[trigger] system_name(a) == #[trigger] system_name(b) ==> a == b,
{
    reveal_strlit("deb");
    reveal_strlit("rpm");
    reveal_strlit("brew");
    reveal_strlit("scoop");
    assert("deb"@[0] != "rpm"@[0]);
    assert("deb"@.len() == 3 && "rpm"@.len() == 3 && "brew"@.len() == 4 && "scoop"@.len() == 5);
}

/// A text that names no package system.
#[derive(Debug, PartialEq, Eq)]
pub struct ParsePackageSystemError {
    value: String,
}

/// What a [`ParsePackageSystemError`] holds.
pub struct ParsePackageSystemErrorView {
    pub value: Seq<char>,
}

impl DeepView for ParsePackageSystemError {
    type V = ParsePackageSystemErrorView;

    closed spec fn deep_view(&self) -> ParsePackageSystemErrorView {
        ParsePackageSystemErrorView { value: self.value@ }
    }
}

impl ParsePackageSystemError {
    /// The message of the error.
    pub fn to_string(&self) -> (text: String)
        ensures
            text@ == "unknown package system "@ + self.deep_view().value,
    {
        let mut text = "unknown package system ".to_owned();
        text.append(self.value.as_str());
        text
    }
}

/// How the architecture of a Linux package follows the build target.
#[derive(Debug, Clone, Copy, PartialEq, Eq, Structural)]
pub enum ArchitectureClass {
    /// One package for each target.
    Target,
    /// One Debian package for all targets.
    All,
    /// One RPM package for all targets.
    Noarch,
}

impl DeepView for ArchitectureClass {
    type V = ArchitectureClass;

    open spec fn deep_view(&self) -> ArchitectureClass {
        *self
    }
}

/// One package serves every target.
pub open spec fn is_common_class(class: ArchitectureClass) -> bool {
    class is All || class is Noarch
}

impl ArchitectureClass {
    /// Whether the package is built for the common target.
    pub fn matches_common_target(self) -> (matches: bool)
        ensures
            matches == is_common_class(self),
    {
        match self {
            ArchitectureClass::All | ArchitectureClass::Noarch => true,
            ArchitectureClass::Target => false,
        }
    }
}

/// What a build is requested for.
#[derive(Debug, PartialEq, Eq)]
pub enum RequestedTarget {
    /// A target triple.
    Triple(String),
    /// Every target at once.
    Common,
}

/// What a [`RequestedTarget`] holds.
pub enum RequestedTargetView {
    Triple(Seq<char>),
    Common,
}

impl DeepView for RequestedTarget {
    type V = RequestedTargetView;

    open spec fn deep_view(&self) -> RequestedTargetView {
        match self {
            RequestedTarget::Triple(value) => RequestedTargetView::Triple(value@),
            RequestedTarget::Common => RequestedTargetView::Common,
        }
    }
}

impl Clone for RequestedTarget {
    fn clone(&self) -> (copy: Self)
        ensures
            copy.deep_view() == self.deep_view(),
    {
        match self {
            RequestedTarget::Triple(value) => RequestedTarget::Triple(value.clone()),
            RequestedTarget::Common => RequestedTarget::Common,
        }
    }
}

/// The optimisation profile of a build.
#[derive(Debug, Clone, Copy, PartialEq, Eq, Structural)]
pub enum BuildProfile {
    Release,
    Debug,
}

/// The name of a build profile.
pub open spec fn profile_name(profile: BuildProfile) -> Seq<char> {
    match profile {
        BuildProfile::Release => "release"@,
        BuildProfile::Debug => "debug"@,
    }
}

impl BuildProfile {
    /// The name of the profile.
    pub fn as_str(self) -> (name: &'static str)
        ensures
            name@ == profile_name(self),
    {
        match self {
            BuildProfile::Release => "release",
            BuildProfile::Debug => "debug",
        }
    }
}

} // verus!
