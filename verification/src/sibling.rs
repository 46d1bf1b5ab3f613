//! Sibling sources: local checkouts that replace Cargo dependencies inside a container.

use vstd::prelude::*;

use crate::model::{deep, outcome};
use crate::path::{join_path, path_join};
use crate::text::same_text;
use crate::textmap::{sorted, TextSet};

verus! {

broadcast use crate::model::group_deep;

/// Where the replaced dependency comes from.
#[derive(Debug, PartialEq, Eq)]
pub enum PatchSource {
    CratesIo,
    Git(String),
}

/// What a [`PatchSource`] holds.
pub enum PatchSourceView {
    CratesIo,
    Git(Seq<char>),
}

impl DeepView for PatchSource {
    type V = PatchSourceView;

    open spec fn deep_view(&self) -> PatchSourceView {
        match self {
            PatchSource::CratesIo => PatchSourceView::CratesIo,
            PatchSource::Git(value) => PatchSourceView::Git(value@),
        }
    }
}

impl Clone for PatchSource {
    fn clone(&self) -> (copy: Self)
        ensures
            copy.deep_view() == self.deep_view(),
    {
        match self {
            PatchSource::CratesIo => PatchSource::CratesIo,
            PatchSource::Git(value) => PatchSource::Git(value.clone()),
        }
    }
}

/// A dependency that is taken from a sibling.
#[derive(Debug, PartialEq, Eq)]
pub struct PatchOverride {
    pub source: PatchSource,
    pub package: String,
    pub sibling: String,
    pub relative_path: String,
}

/// What a [`PatchOverride`] holds.
pub struct PatchOverrideView {
    pub source: PatchSourceView,
    pub package: Seq<char>,
    pub sibling: Seq<char>,
    pub relative_path: Seq<char>,
}

impl DeepView for PatchOverride {
    type V = PatchOverrideView;

    open spec fn deep_view(&self) -> PatchOverrideView {
        PatchOverrideView {
            source: self.source.deep_view(),
            package: self.package@,
            sibling: self.sibling@,
            relative_path: self.relative_path@,
        }
    }
}

impl Clone for PatchOverride {
    fn clone(&self) -> (copy: Self)
        ensures
            copy.deep_view() == self.deep_view(),
    {
        let copy = PatchOverride {
            source: self.source.clone(),
            package: self.package.clone(),
            sibling: self.sibling.clone(),
            relative_path: self.relative_path.clone(),
        };
        copy
    }
}

/// A local checkout.
#[derive(Debug, PartialEq, Eq)]
pub struct SiblingSource {
    pub name: String,
    pub host_path: String,
}

/// What a [`SiblingSource`] holds.
pub struct SiblingSourceView {
    pub name: Seq<char>,
    pub host_path: Seq<char>,
}

impl DeepView for SiblingSource {
    type V = SiblingSourceView;

    open spec fn deep_view(&self) -> SiblingSourceView {
        SiblingSourceView {
            name: self.name@,
            host_path: self.host_path@,
        }
    }
}

impl Clone for SiblingSource {
    fn clone(&self) -> (copy: Self)
        ensures
            copy.deep_view() == self.deep_view(),
    {
        let copy = SiblingSource {
            name: self.name.clone(),
            host_path: self.host_path.clone(),
        };
        copy
    }
}

/// A directory of the host that a container sees.
#[derive(Debug, PartialEq, Eq)]
pub struct ContainerMount {
    pub source: String,
    pub destination: String,
    pub read_only: bool,
}

/// What a [`ContainerMount`] holds.
pub struct ContainerMountView {
    pub source: Seq<char>,
    pub destination: Seq<char>,
    pub read_only: bool,
}

impl DeepView for ContainerMount {
    type V = ContainerMountView;

    open spec fn deep_view(&self) -> ContainerMountView {
        ContainerMountView {
            source: self.source@,
            destination: self.destination@,
            read_only: self.read_only,
        }
    }
}

impl Clone for ContainerMount {
    fn clone(&self) -> (copy: Self)
        ensures
            copy.deep_view() == self.deep_view(),
    {
        let copy = ContainerMount {
            source: self.source.clone(),
            destination: self.destination.clone(),
            read_only: self.read_only,
        };
        copy
    }
}

/// The siblings that a container sees, and the Cargo configuration that makes use of them.
#[derive(Debug, PartialEq, Eq)]
pub struct ContainerOverlayPlan {
    pub mounts: Vec<ContainerMount>,
    pub cargo_config_path: String,
    pub cargo_config: String,
}

/// What a [`ContainerOverlayPlan`] holds.
pub struct ContainerOverlayPlanView {
    pub mounts: Seq<ContainerMountView>,
    pub cargo_config_path: Seq<char>,
    pub cargo_config: Seq<char>,
}

impl DeepView for ContainerOverlayPlan {
    type V = ContainerOverlayPlanView;

    open spec fn deep_view(&self) -> ContainerOverlayPlanView {
        ContainerOverlayPlanView {
            mounts: deep(self.mounts@),
            cargo_config_path: self.cargo_config_path@,
            cargo_config: self.cargo_config@,
        }
    }
}

impl Clone for ContainerOverlayPlan {
    fn clone(&self) -> (copy: Self)
        ensures
            copy.deep_view() == self.deep_view(),
    {
        let copy = ContainerOverlayPlan {
            mounts: self.mounts.clone(),
            cargo_config_path: self.cargo_config_path.clone(),
            cargo_config: self.cargo_config.clone(),
        };
        assert(deep(copy.mounts@) =~= deep(self.mounts@));
        copy
    }
}

/// A dependency is taken from a sibling that is not there.
#[derive(Debug, PartialEq, Eq)]
pub enum ContainerOverlayPlanError {
    /// Reported as `sibling source {sibling} is not mounted`.
    UnknownSibling { sibling: String },
}

/// What a [`ContainerOverlayPlanError`] holds.
pub enum ContainerOverlayPlanErrorView {
    UnknownSibling { sibling: Seq<char> },
}

impl DeepView for ContainerOverlayPlanError {
    type V = ContainerOverlayPlanErrorView;

    open spec fn deep_view(&self) -> ContainerOverlayPlanErrorView {
        match self {
            ContainerOverlayPlanError::UnknownSibling { sibling } => ContainerOverlayPlanErrorView::UnknownSibling {
                sibling: sibling@,
            },
        }
    }
}

impl ContainerOverlayPlanErrorView {
    /// The message of the error.
    pub open spec fn message(self) -> Seq<char> {
        match self {
            ContainerOverlayPlanErrorView::UnknownSibling { sibling } => "sibling source "@ + sibling + " is not mounted"@,
        }
    }
}

impl ContainerOverlayPlanError {
    /// The message of the error.
    pub fn to_string(&self) -> (text: String)
        ensures
            text@ == self.deep_view().message(),
    {
        match self {
            ContainerOverlayPlanError::UnknownSibling { sibling } => {
                let mut text = "sibling source ".to_owned();
                text.append(sibling.as_str());
                text.append(" is not mounted");
                text
            },
        }
    }
}

// ---------------------------------------------------------------------------
// Cargo configuration
// ---------------------------------------------------------------------------
/// The line of the Cargo configuration for one dependency.
pub open spec fn patch_line(patch: PatchOverrideView) -> Seq<char> {
    patch.package + " = { path = \"/sources/"@ + patch.sibling + "/"@ + patch.relative_path
        + "\" }\n"@
}

/// The lines for the dependencies that come from `source`.
pub open spec fn patch_lines(overrides: Seq<PatchOverrideView>, source: PatchSourceView) -> Seq<char>
    decreases overrides.len(),
{
    if overrides.len() == 0 {
        Seq::empty()
    } else if overrides.last().source == source {
        patch_lines(overrides.drop_last(), source) + patch_line(overrides.last())
    } else {
        patch_lines(overrides.drop_last(), source)
    }
}

/// Some dependency comes from `source`.
pub open spec fn has_source(overrides: Seq<PatchOverrideView>, source: PatchSourceView) -> bool {
    exists|i: int| 0 <= i < overrides.len() && (#[trigger] overrides[i]).source == source
}

/// The addresses of the Git repositories that dependencies come from.
pub open spec fn git_urls(overrides: Seq<PatchOverrideView>) -> Set<Seq<char>> {
    Set::new(|url: Seq<char>| has_source(overrides, PatchSourceView::Git(url)))
}

/// The section of crates.io, then the sections of the first `count` repositories.
pub open spec fn patch_sections(
    overrides: Seq<PatchOverrideView>,
    urls: Seq<Seq<char>>,
    count: int,
) -> Seq<char>
    decreases count,
{
    if count <= 0 {
        if has_source(overrides, PatchSourceView::CratesIo) {
            "[patch.crates-io]\n"@ + patch_lines(overrides, PatchSourceView::CratesIo) + "\n"@
        } else {
            Seq::empty()
        }
    } else {
        patch_sections(overrides, urls, count - 1) + "[patch.\""@ + urls[count - 1] + "\"]\n"@
            + patch_lines(overrides, PatchSourceView::Git(urls[count - 1])) + "\n"@
    }
}

/// The Cargo configuration: one section for each source, crates.io first and then the
/// repositories in the order of their addresses, the dependencies in the given order.
pub open spec fn patch_config(overrides: Seq<PatchOverrideView>) -> Seq<char> {
    let urls = sorted(git_urls(overrides));
    patch_sections(overrides, urls, urls.len() as int)
}

/// Whether a dependency comes from a Git repository, and from which, or from crates.io.
fn comes_from(patch: &PatchOverride, url: Option<&str>) -> (found: bool)
    ensures
        found == (patch.deep_view().source == (match url {
            Some(url) => PatchSourceView::Git(url@),
            None => PatchSourceView::CratesIo,
        })),
{
    match (&patch.source, url) {
        (PatchSource::CratesIo, None) => true,
        (PatchSource::Git(own), Some(url)) => same_text(own.as_str(), url),
        _ => false,
    }
}

/// The lines for the dependencies that come from a source.
fn render_lines(overrides: &Vec<PatchOverride>, url: Option<&str>) -> (lines: String)
    ensures
        lines@ == patch_lines(
            deep(overrides@),
            match url {
                Some(url) => PatchSourceView::Git(url@),
                None => PatchSourceView::CratesIo,
            },
        ),
{
    let ghost source = match url {
        Some(url) => PatchSourceView::Git(url@),
        None => PatchSourceView::CratesIo,
    };
    let ghost all = deep(overrides@);
    let mut lines = String::new();
    let mut i: usize = 0;
    assert(all.take(0) =~= Seq::empty());
    while i < overrides.len()
        invariant
            i <= overrides@.len(),
            all == deep(overrides@),
            source == (match url {
                Some(url) => PatchSourceView::Git(url@),
                None => PatchSourceView::CratesIo,
            }),
            lines@ == patch_lines(all.take(i as int), source),
        decreases overrides@.len() - i,
    {
        let patch = &overrides[i];
        assert(all[i as int] == patch.deep_view());
        assert(all.take(i + 1).drop_last() =~= all.take(i as int));
        if comes_from(patch, url) {
            let mut line = patch.package.clone();
            line.append(" = { path = \"/sources/");
            line.append(patch.sibling.as_str());
            line.append("/");
            line.append(patch.relative_path.as_str());
            line.append("\" }\n");
            lines.append(line.as_str());
        }
        i = i + 1;
    }
    assert(all.take(i as int) =~= all);
    lines
}

/// The addresses of the Git repositories, and whether crates.io occurs.
fn patch_sources(overrides: &Vec<PatchOverride>) -> (sources: (bool, TextSet))
    ensures
        sources.0 == has_source(deep(overrides@), PatchSourceView::CratesIo),
        sources.1.deep_view() == git_urls(deep(overrides@)),
{
    let ghost all = deep(overrides@);
    let mut crates_io = false;
    let mut urls = TextSet::new();
    let mut i: usize = 0;
    assert(urls.deep_view() =~= git_urls(all.take(0)));
    while i < overrides.len()
        invariant
            i <= overrides@.len(),
            all == deep(overrides@),
            crates_io == has_source(all.take(i as int), PatchSourceView::CratesIo),
            urls.deep_view() == git_urls(all.take(i as int)),
        decreases overrides@.len() - i,
    {
        let patch = &overrides[i];
        let ghost before = all.take(i as int);
        let ghost after = all.take(i + 1);
        proof {
            assert(all[i as int] == patch.deep_view());
            assert(after =~= before.push(patch.deep_view()));
            assert forall|source: PatchSourceView| #[trigger]
                has_source(after, source) == (has_source(before, source)
                    || patch.deep_view().source == source) by {
                if has_source(before, source) {
                    let j = choose|j: int|
                        0 <= j < before.len() && (#[trigger] before[j]).source == source;
                    assert(after[j] == before[j]);
                }
                if patch.deep_view().source == source {
                    assert(after[i as int].source == source);
                }
                if has_source(after, source) {
                    let j = choose|j: int|
                        0 <= j < after.len() && (#[trigger] after[j]).source == source;
                    if j < i {
                        assert(before[j] == after[j]);
                    }
                }
            }
        }
        match &patch.source {
            PatchSource::CratesIo => {
                crates_io = true;
                assert(git_urls(after) =~= git_urls(before));
            },
            PatchSource::Git(url) => {
                urls.insert(url.clone());
                assert(git_urls(after) =~= git_urls(before).insert(url@));
            },
        }
        i = i + 1;
    }
    assert(all.take(i as int) =~= all);
    (crates_io, urls)
}

/// The Cargo configuration that takes dependencies from siblings.
pub fn render_cargo_patch_config(overrides: &Vec<PatchOverride>) -> (config: String)
    ensures
        config@ == patch_config(deep(overrides@)),
{
    let (crates_io, urls) = patch_sources(overrides);
    let mut config = String::new();
    if crates_io {
        config = "[patch.crates-io]\n".to_owned();
        config.append(render_lines(overrides, None).as_str());
        config.append("\n");
    }
    let count: usize = urls.len();
    let mut i: usize = 0;
    while i < count
        invariant
            i <= count == urls.items().len(),
            config@ == patch_sections(deep(overrides@), urls.items(), i as int),
        decreases count - i,
    {
        let url = urls.at(i);
        config.append("[patch.\"");
        config.append(url.as_str());
        config.append("\"]\n");
        config.append(render_lines(overrides, Some(url.as_str())).as_str());
        config.append("\n");
        i = i + 1;
    }
    config
}

// ---------------------------------------------------------------------------
// Overlay plans
// ---------------------------------------------------------------------------
/// Some sibling has this name.
pub open spec fn has_sibling(siblings: Seq<SiblingSourceView>, name: Seq<char>) -> bool {
    exists|i: int| 0 <= i < siblings.len() && (#[trigger] siblings[i]).name == name
}

/// The first dependency, from `from` on, that is taken from an unknown sibling.
pub open spec fn unknown_sibling(
    siblings: Seq<SiblingSourceView>,
    overrides: Seq<PatchOverrideView>,
    from: int,
) -> Option<ContainerOverlayPlanErrorView>
    decreases overrides.len() - from,
{
    if from < 0 || from >= overrides.len() {
        None
    } else if has_sibling(siblings, overrides[from].sibling) {
        unknown_sibling(siblings, overrides, from + 1)
    } else {
        Some(
            ContainerOverlayPlanErrorView::UnknownSibling { sibling: overrides[from].sibling },
        )
    }
}

/// How a container sees a sibling.
pub open spec fn sibling_mount(sibling: SiblingSourceView) -> ContainerMountView {
    ContainerMountView {
        source: sibling.host_path,
        destination: path_join("/sources"@, sibling.name),
        read_only: true,
    }
}

/// The overlay of a container: every sibling is mounted, and the Cargo configuration takes
/// the dependencies from them.
pub open spec fn overlay_plan(
    siblings: Seq<SiblingSourceView>,
    overrides: Seq<PatchOverrideView>,
) -> Result<ContainerOverlayPlanView, ContainerOverlayPlanErrorView> {
    match unknown_sibling(siblings, overrides, 0) {
        Some(error) => Err(error),
        None => Ok(
            ContainerOverlayPlanView {
                mounts: siblings.map_values(|sibling: SiblingSourceView| sibling_mount(sibling)),
                cargo_config_path: "/opt/cargo/config.toml"@,
                cargo_config: patch_config(overrides),
            },
        ),
    }
}

fn knows_sibling(siblings: &Vec<SiblingSource>, name: &str) -> (found: bool)
    ensures
        found == has_sibling(deep(siblings@), name@),
{
    let mut i: usize = 0;
    while i < siblings.len()
        invariant
            i <= siblings@.len(),
            forall|j: int| 0 <= j < i ==> (#[trigger] deep(siblings@)[j]).name != name@,
        decreases siblings@.len() - i,
    {
        assert(deep(siblings@)[i as int] == siblings@[i as int].deep_view());
        if same_text(siblings[i].name.as_str(), name) {
            assert(deep(siblings@)[i as int].name == name@);
            return true;
        }
        i = i + 1;
    }
    false
}

/// The overlay of a container that sees `siblings` and takes `overrides` from them.
pub fn container_overlay_plan(
    siblings: &Vec<SiblingSource>,
    overrides: &Vec<PatchOverride>,
) -> (plan: Result<ContainerOverlayPlan, ContainerOverlayPlanError>)
    ensures
        outcome(plan) == overlay_plan(deep(siblings@), deep(overrides@)),
{
    let mut i: usize = 0;
    while i < overrides.len()
        invariant
            i <= overrides@.len(),
            unknown_sibling(deep(siblings@), deep(overrides@), 0) == unknown_sibling(
                deep(siblings@),
                deep(overrides@),
                i as int,
            ),
        decreases overrides@.len() - i,
    {
        assert(deep(overrides@)[i as int] == overrides@[i as int].deep_view());
        if !knows_sibling(siblings, overrides[i].sibling.as_str()) {
            return Err(
                ContainerOverlayPlanError::UnknownSibling { sibling: overrides[i].sibling.clone() },
            );
        }
        i = i + 1;
    }
    let ghost wanted = deep(siblings@).map_values(
        |sibling: SiblingSourceView| sibling_mount(sibling),
    );
    let mut mounts: Vec<ContainerMount> = Vec::new();
    let mut k: usize = 0;
    assert(wanted.take(0) =~= Seq::empty());
    while k < siblings.len()
        invariant
            k <= siblings@.len(),
            wanted == deep(siblings@).map_values(
                |sibling: SiblingSourceView| sibling_mount(sibling),
            ),
            deep(mounts@) == wanted.take(k as int),
        decreases siblings@.len() - k,
    {
        let sibling = &siblings[k];
        let mount = ContainerMount {
            source: sibling.host_path.clone(),
            destination: join_path("/sources", sibling.name.as_str()),
            read_only: true,
        };
        assert(wanted[k as int] == mount.deep_view());
        assert(wanted.take(k + 1) =~= wanted.take(k as int).push(mount.deep_view()));
        mounts.push(mount);
        k = k + 1;
    }
    assert(wanted.take(k as int) =~= wanted);
    Ok(
        ContainerOverlayPlan {
            mounts,
            cargo_config_path: "/opt/cargo/config.toml".to_owned(),
            cargo_config: render_cargo_patch_config(overrides),
        },
    )
}

} // verus!
