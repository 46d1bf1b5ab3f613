//! Templates with `{{ name }}` placeholders, and the variables that fill them.

use vstd::prelude::*;

use crate::manifest::{PackageArtifactView, PackageManifest, PackageManifestView};
use crate::model::{deep, outcome};
use crate::package::{PackageId, ResolvedPackageMetadata, ResolvedPackageMetadataView};
use crate::text::{
    chars_of, contains, contains_text, find_part, first_at, join, joined, lemma_first_at,
    replace_char, replaced, text_between, trim, trimmed_space,
};
use crate::textmap::{sorted, TextMap, TextSet};

verus! {

broadcast use crate::model::group_deep;

/// Why a template cannot be filled.
#[derive(Debug, PartialEq, Eq)]
pub enum RenderTemplateError {
    /// Reported as `template variable {name} is not defined`.
    MissingVariable { name: String },
    /// Reported as `template contains unresolved placeholders`.
    UnresolvedPlaceholder,
}

/// What a [`RenderTemplateError`] holds.
pub enum RenderTemplateErrorView {
    MissingVariable { name: Seq<char> },
    UnresolvedPlaceholder,
}

impl DeepView for RenderTemplateError {
    type V = RenderTemplateErrorView;

    open spec fn deep_view(&self) -> RenderTemplateErrorView {
        match self {
            RenderTemplateError::MissingVariable { name } => RenderTemplateErrorView::MissingVariable {
                name: name@,
            },
            RenderTemplateError::UnresolvedPlaceholder => RenderTemplateErrorView::UnresolvedPlaceholder,
        }
    }
}

impl RenderTemplateErrorView {
    /// The message of the error.
    pub open spec fn message(self) -> Seq<char> {
        match self {
            RenderTemplateErrorView::MissingVariable { name } => "template variable "@ + name + " is not defined"@,
            RenderTemplateErrorView::UnresolvedPlaceholder => "template contains unresolved placeholders"@,
        }
    }
}

impl RenderTemplateError {
    /// The message of the error.
    pub fn to_string(&self) -> (text: String)
        ensures
            text@ == self.deep_view().message(),
    {
        match self {
            RenderTemplateError::MissingVariable { name } => {
                let mut text = "template variable ".to_owned();
                text.append(name.as_str());
                text.append(" is not defined");
                text
            },
            RenderTemplateError::UnresolvedPlaceholder => "template contains unresolved placeholders".to_owned(),
        }
    }
}

/// A text with an opening or a closing mark of a placeholder.
pub open spec fn has_placeholder_mark(text: Seq<char>) -> bool {
    contains_text(text, "{{"@) || contains_text(text, "}}"@)
}

/// A filled text, which must not hold a mark of a placeholder.
pub open spec fn filled(text: Seq<char>) -> Result<Seq<char>, RenderTemplateErrorView> {
    if has_placeholder_mark(text) {
        Err(RenderTemplateErrorView::UnresolvedPlaceholder)
    } else {
        Ok(text)
    }
}

/// The template from `from` on, filled, after the text that is already `done`. A
/// placeholder reaches from `{{` to the next `}}`; white space around the name between
/// them does not count.
pub open spec fn filled_from(
    template: Seq<char>,
    variables: Map<Seq<char>, Seq<char>>,
    from: int,
    done: Seq<char>,
) -> Result<Seq<char>, RenderTemplateErrorView>
    decreases template.len() - from,
{
    match first_at(template, "{{"@, from) {
        Some(start) if from <= start && start + 2 <= template.len() => {
            match first_at(template, "}}"@, start + 2) {
                Some(end) if start + 2 <= end && end + 2 <= template.len() => {
                    let name = trimmed_space(template.subrange(start + 2, end));
                    if variables.contains_key(name) {
                        filled_from(
                            template,
                            variables,
                            end + 2,
                            done + template.subrange(from, start) + variables[name],
                        )
                    } else {
                        Err(RenderTemplateErrorView::MissingVariable { name })
                    }
                },
                _ => Err(RenderTemplateErrorView::UnresolvedPlaceholder),
            }
        },
        _ => filled(done + template.skip(from)),
    }
}

/// The template with its placeholders replaced by the values of the variables.
pub open spec fn rendered(template: Seq<char>, variables: Map<Seq<char>, Seq<char>>) -> Result<
    Seq<char>,
    RenderTemplateErrorView,
> {
    filled_from(template, variables, 0, Seq::empty())
}

/// Replaces the placeholders of a template by the values of the variables.
pub fn render_template(template: &str, variables: &TextMap<String, String>) -> (output: Result<
    String,
    RenderTemplateError,
>)
    ensures
        outcome(output) == rendered(template@, variables.deep_view()),
{
    proof {
        reveal_strlit("{{");
        reveal_strlit("}}");
    }
    let chars = chars_of(template);
    let opening = chars_of("{{");
    let closing = chars_of("}}");
    let mut output = String::new();
    let mut from: usize = 0;
    loop
        invariant
            from <= chars@.len(),
            chars@ == template@,
            opening@ == "{{"@,
            closing@ == "}}"@,
            opening@.len() == 2,
            closing@.len() == 2,
            rendered(template@, variables.deep_view()) == filled_from(
                chars@,
                variables.deep_view(),
                from as int,
                output@,
            ),
        decreases chars@.len() - from,
    {
        let start = match find_part(&chars, &opening, from) {
            Some(start) => start,
            None => {
                let rest = text_between(&chars, from, chars.len());
                assert(rest@ =~= chars@.skip(from as int));
                output.append(rest.as_str());
                if contains(output.as_str(), "{{") || contains(output.as_str(), "}}") {
                    return Err(RenderTemplateError::UnresolvedPlaceholder);
                }
                return Ok(output);
            },
        };
        let end = match find_part(&chars, &closing, start + 2) {
            Some(end) => end,
            None => {
                return Err(RenderTemplateError::UnresolvedPlaceholder);
            },
        };
        let name = trim(text_between(&chars, start + 2, end).as_str());
        match variables.value(name.as_str()) {
            Some(value) => {
                output.append(text_between(&chars, from, start).as_str());
                output.append(value.as_str());
            },
            None => {
                return Err(RenderTemplateError::MissingVariable { name });
            },
        }
        from = end + 2;
    }
}

/// A rendered template holds no mark of a placeholder, whatever the values hold.
pub proof fn lemma_rendered_is_resolved(template: Seq<char>, variables: Map<Seq<char>, Seq<char>>)
    ensures
        rendered(template, variables) matches Ok(output) ==> !has_placeholder_mark(output),
{
    lemma_filled_is_resolved(template, variables, 0, Seq::empty());
}

proof fn lemma_filled_is_resolved(
    template: Seq<char>,
    variables: Map<Seq<char>, Seq<char>>,
    from: int,
    done: Seq<char>,
)
    ensures
        filled_from(template, variables, from, done) matches Ok(output) ==> !has_placeholder_mark(
            output,
        ),
    decreases template.len() - from,
{
    match first_at(template, "{{"@, from) {
        Some(start) if from <= start && start + 2 <= template.len() => {
            match first_at(template, "}}"@, start + 2) {
                Some(end) if start + 2 <= end && end + 2 <= template.len() => {
                    let name = trimmed_space(template.subrange(start + 2, end));
                    if variables.contains_key(name) {
                        lemma_filled_is_resolved(
                            template,
                            variables,
                            end + 2,
                            done + template.subrange(from, start) + variables[name],
                        );
                    }
                },
                _ => {},
            }
        },
        _ => {},
    }
}

/// A template without marks of placeholders is rendered as it stands.
pub proof fn lemma_plain_template_is_kept(template: Seq<char>, variables: Map<Seq<char>, Seq<char>>)
    requires
        !has_placeholder_mark(template),
    ensures
        rendered(template, variables) == Ok::<Seq<char>, RenderTemplateErrorView>(template),
{
    lemma_first_at(template, "{{"@, 0);
    assert(first_at(template, "{{"@, 0) is None);
    assert(Seq::<char>::empty() + template.skip(0) =~= template);
}

// ---------------------------------------------------------------------------
// Variables
// ---------------------------------------------------------------------------
/// A text as it stands inside the quotes of a Ruby string.
pub open spec fn ruby_escaped(value: Seq<char>) -> Seq<char> {
    replaced(replaced(value, '\\', "\\\\"@), '"', "\\\""@)
}

/// A text as it stands inside the quotes of a Ruby string.
pub fn ruby_string(value: &str) -> (escaped: String)
    ensures
        escaped@ == ruby_escaped(value@),
{
    replace_char(replace_char(value, '\\', "\\\\").as_str(), '"', "\\\"")
}

/// Some artifact was built with the feature.
pub open spec fn built_with(artifacts: Seq<PackageArtifactView>, feature: Seq<char>) -> bool {
    exists|i: int|
        0 <= i < artifacts.len() && (#[trigger] artifacts[i]).features.contains(feature)
}

/// The features with which artifacts were built.
pub open spec fn all_features(artifacts: Seq<PackageArtifactView>) -> Set<Seq<char>> {
    Set::new(|feature: Seq<char>| built_with(artifacts, feature))
}

/// A text in the quotes of a Ruby string.
pub open spec fn ruby_quoted(value: Seq<char>) -> Seq<char> {
    "\""@ + ruby_escaped(value) + "\""@
}

/// The variables that tell with which features a manifest was built.
pub open spec fn feature_variables(manifest: PackageManifestView) -> Map<Seq<char>, Seq<char>> {
    let features = sorted(all_features(manifest.artifacts));
    Map::empty().insert("build.features.csv"@, joined(features, ","@)).insert(
        "build.features.ruby_array"@,
        "["@ + joined(features.map_values(|feature: Seq<char>| ruby_quoted(feature)), ", "@)
            + "]"@,
    )
}

/// `variables`, with those of `others` added or replaced.
pub open spec fn extended(
    variables: Map<Seq<char>, Seq<char>>,
    others: Map<Seq<char>, Seq<char>>,
) -> Map<Seq<char>, Seq<char>> {
    variables.union_prefer_right(others)
}

/// Adds the features of an artifact.
fn add_features(names: &mut TextSet, features: &Vec<String>)
    ensures
        final(names).deep_view() == old(names).deep_view().union(
            Set::new(|feature: Seq<char>| deep(features@).contains(feature)),
        ),
{
    let ghost start = names.deep_view();
    let ghost all = deep(features@);
    let mut i: usize = 0;
    assert(start.union(Set::new(|feature: Seq<char>| all.take(0).contains(feature))) =~= start);
    while i < features.len()
        invariant
            i <= features@.len(),
            all == deep(features@),
            names.deep_view() == start.union(
                Set::new(|feature: Seq<char>| all.take(i as int).contains(feature)),
            ),
        decreases features@.len() - i,
    {
        let ghost before = names.deep_view();
        names.insert(features[i].clone());
        proof {
            let one = features@[i as int]@;
            assert(all[i as int] == one);
            assert forall|feature: Seq<char>| #[trigger]
                all.take(i + 1).contains(feature) == (all.take(i as int).contains(feature)
                    || feature == one) by {
                if all.take(i as int).contains(feature) {
                    let k = all.take(i as int).index_of(feature);
                    assert(all.take(i + 1)[k] == feature);
                }
                if feature == one {
                    assert(all.take(i + 1)[i as int] == feature);
                }
                if all.take(i + 1).contains(feature) {
                    let k = all.take(i + 1).index_of(feature);
                    if k < i {
                        assert(all.take(i as int)[k] == feature);
                    }
                }
            }
            assert(before.insert(one) =~= start.union(
                Set::new(|feature: Seq<char>| all.take(i + 1).contains(feature)),
            ));
        }
        i = i + 1;
    }
    assert(all.take(i as int) =~= all);
}

/// The features with which the artifacts of a manifest were built.
pub fn manifest_features(manifest: &PackageManifest) -> (features: TextSet)
    ensures
        features.deep_view() == all_features(deep(manifest.artifacts@)),
{
    let ghost all = deep(manifest.artifacts@);
    let mut features = TextSet::new();
    let mut i: usize = 0;
    assert(features.deep_view() =~= all_features(all.take(0)));
    while i < manifest.artifacts.len()
        invariant
            i <= manifest.artifacts@.len(),
            all == deep(manifest.artifacts@),
            features.deep_view() == all_features(all.take(i as int)),
        decreases manifest.artifacts@.len() - i,
    {
        let ghost before = features.deep_view();
        let artifact = &manifest.artifacts[i];
        add_features(&mut features, &artifact.features);
        proof {
            let one = artifact.deep_view();
            assert(all[i as int] == one);
            assert forall|feature: Seq<char>| #[trigger]
                built_with(all.take(i + 1), feature) == (built_with(all.take(i as int), feature)
                    || one.features.contains(feature)) by {
                if built_with(all.take(i as int), feature) {
                    let k = choose|k: int|
                        0 <= k < all.take(i as int).len() && (#[trigger] all.take(
                            i as int,
                        )[k]).features.contains(feature);
                    assert(all.take(i + 1)[k] == all.take(i as int)[k]);
                }
                if one.features.contains(feature) {
                    assert(all.take(i + 1)[i as int] == one);
                }
                if built_with(all.take(i + 1), feature) {
                    let k = choose|k: int|
                        0 <= k < all.take(i + 1).len() && (#[trigger] all.take(
                            i + 1,
                        )[k]).features.contains(feature);
                    if k < i {
                        assert(all.take(i as int)[k] == all.take(i + 1)[k]);
                    }
                }
            }
            assert(features.deep_view() =~= all_features(all.take(i + 1)));
        }
        i = i + 1;
    }
    assert(all.take(i as int) =~= all);
    features
}

/// The variables that tell with which features a manifest was built.
pub fn build_feature_variables(manifest: &PackageManifest) -> (variables: TextMap<String, String>)
    ensures
        variables.deep_view() == feature_variables(manifest.deep_view()),
{
    let features = manifest_features(manifest);
    let count: usize = features.len();
    let ghost all = sorted(all_features(deep(manifest.artifacts@)));
    let ghost quoted_all = all.map_values(|feature: Seq<char>| ruby_quoted(feature));
    let mut names: Vec<String> = Vec::new();
    let mut quoted: Vec<String> = Vec::new();
    let mut i: usize = 0;
    while i < count
        invariant
            i <= count,
            count == features.items().len(),
            features.items() == all,
            quoted_all == all.map_values(|feature: Seq<char>| ruby_quoted(feature)),
            deep(names@) == all.take(i as int),
            deep(quoted@) == quoted_all.take(i as int),
        decreases count - i,
    {
        let feature = features.at(i);
        names.push(feature.clone());
        let mut text = "\"".to_owned();
        text.append(ruby_string(feature.as_str()).as_str());
        text.append("\"");
        quoted.push(text);
        assert(all.take(i + 1) =~= all.take(i as int).push(feature@));
        assert(quoted_all.take(i + 1) =~= quoted_all.take(i as int).push(text@));
        i = i + 1;
    }
    assert(all.take(i as int) =~= all);
    assert(quoted_all.take(i as int) =~= quoted_all);
    let mut ruby_array = "[".to_owned();
    ruby_array.append(join(&quoted, ", ").as_str());
    ruby_array.append("]");
    let mut variables: TextMap<String, String> = TextMap::new();
    variables.insert("build.features.csv".to_owned(), join(&names, ","));
    variables.insert("build.features.ruby_array".to_owned(), ruby_array);
    variables
}

/// The variables that describe a package.
pub open spec fn package_variables(
    package_id: Seq<char>,
    metadata: ResolvedPackageMetadataView,
) -> Map<Seq<char>, Seq<char>> {
    Map::empty().insert("package.name"@, ruby_escaped(package_id)).insert(
        "package.version"@,
        ruby_escaped(metadata.source_version.text()),
    ).insert("package.description"@, ruby_escaped(metadata.description)).insert(
        "package.homepage"@,
        ruby_escaped(metadata.homepage),
    ).insert("package.license"@, ruby_escaped(metadata.license))
}

/// The variables that describe a package.
pub fn package_template_variables(
    package_id: &PackageId,
    metadata: &ResolvedPackageMetadata,
) -> (variables: TextMap<String, String>)
    ensures
        variables.deep_view() == package_variables(package_id.deep_view(), metadata.deep_view()),
{
    let mut variables: TextMap<String, String> = TextMap::new();
    variables.insert("package.name".to_owned(), ruby_string(package_id.as_str()));
    variables.insert(
        "package.version".to_owned(),
        ruby_string(metadata.source_version.to_string().as_str()),
    );
    variables.insert(
        "package.description".to_owned(),
        ruby_string(metadata.description.as_str()),
    );
    variables.insert("package.homepage".to_owned(), ruby_string(metadata.homepage.as_str()));
    variables.insert("package.license".to_owned(), ruby_string(metadata.license.as_str()));
    variables
}

/// Adds the feature variables of a manifest.
pub fn extend_with_features(variables: &mut TextMap<String, String>, manifest: &PackageManifest)
    ensures
        final(variables).deep_view() == extended(
            old(variables).deep_view(),
            feature_variables(manifest.deep_view()),
        ),
{
    let features = build_feature_variables(manifest);
    variables.extend_from(&features);
}

} // verus!
