//! Laws of templates: what stands in place of a placeholder, and what a template may name.

use vstd::prelude::*;

use crate::brew::{brew_variables, class_name, class_name_from, separates_words};
use crate::laws::keys::lacks;
use crate::laws::texts::lemma_first_in_the_rest;
use crate::manifest::PackageManifestView;
use crate::package::ResolvedPackageMetadataView;
use crate::scoop::scoop_variables;
use crate::template::{
    all_features, filled_from, has_placeholder_mark, package_variables, rendered, ruby_escaped, ruby_quoted,
    RenderTemplateErrorView,
};
use crate::text::{
    first_at, joined, lemma_first_at, occurs_at, trimmed_space, upper_case,
};
use crate::textmap::sorted;

verus! {

/// What a template becomes from a place on.
spec fn filling(template: Seq<char>, variables: Map<Seq<char>, Seq<char>>, from: int) -> Seq<char>
    decreases template.len() - from,
{
    match first_at(template, "{{"@, from) {
        Some(start) if from <= start && start + 2 <= template.len() => {
            match first_at(template, "}}"@, start + 2) {
                Some(end) if start + 2 <= end && end + 2 <= template.len() => {
                    template.subrange(from, start) + variables[trimmed_space(
                        template.subrange(start + 2, end),
                    )] + filling(template, variables, end + 2)
                },
                _ => Seq::empty(),
            }
        },
        _ => template.skip(from),
    }
}

proof fn lemma_filling(
    template: Seq<char>,
    variables: Map<Seq<char>, Seq<char>>,
    from: int,
    done: Seq<char>,
)
    ensures
        filled_from(template, variables, from, done) matches Ok(output) ==> output == done
            + filling(template, variables, from),
    decreases template.len() - from,
{
    match first_at(template, "{{"@, from) {
        Some(start) if from <= start && start + 2 <= template.len() => {
            match first_at(template, "}}"@, start + 2) {
                Some(end) if start + 2 <= end && end + 2 <= template.len() => {
                    let name = trimmed_space(template.subrange(start + 2, end));
                    if variables.contains_key(name) {
                        let next = done + template.subrange(from, start) + variables[name];
                        lemma_filling(template, variables, end + 2, next);
                        assert(next + filling(template, variables, end + 2) =~= done + (
                        template.subrange(from, start) + variables[name] + filling(
                            template,
                            variables,
                            end + 2,
                        )));
                    }
                },
                _ => {},
            }
        },
        _ => {},
    }
}

proof fn lemma_filling_of_the_rest(
    whole: Seq<char>,
    base: int,
    rest: Seq<char>,
    variables: Map<Seq<char>, Seq<char>>,
    from: int,
)
    requires
        0 <= base <= whole.len(),
        0 <= from <= rest.len(),
        rest == whole.skip(base),
    ensures
        filling(whole, variables, base + from) == filling(rest, variables, from),
    decreases rest.len() - from,
{
    reveal_strlit("{{");
    reveal_strlit("}}");
    lemma_first_in_the_rest(whole, base, rest, "{{"@, from);
    lemma_first_at(rest, "{{"@, from);
    match first_at(rest, "{{"@, from) {
        Some(start) => {
            lemma_first_in_the_rest(whole, base, rest, "}}"@, start + 2);
            lemma_first_at(rest, "}}"@, start + 2);
            match first_at(rest, "}}"@, start + 2) {
                Some(end) => {
                    lemma_filling_of_the_rest(whole, base, rest, variables, end + 2);
                    assert(rest.subrange(from, start) =~= whole.subrange(
                        base + from,
                        base + start,
                    ));
                    assert(rest.subrange(start + 2, end) =~= whole.subrange(
                        base + start + 2,
                        base + end,
                    ));
                },
                None => {},
            }
        },
        None => {
            assert(whole.skip(base + from) =~= rest.skip(from));
        },
    }
}

/// Whether every placeholder of a template from a place on is closed and names a variable.
spec fn names_variables(
    template: Seq<char>,
    variables: Map<Seq<char>, Seq<char>>,
    from: int,
) -> bool
    decreases template.len() - from,
{
    match first_at(template, "{{"@, from) {
        Some(start) if from <= start && start + 2 <= template.len() => {
            match first_at(template, "}}"@, start + 2) {
                Some(end) if start + 2 <= end && end + 2 <= template.len() => {
                    variables.contains_key(trimmed_space(template.subrange(start + 2, end)))
                        && names_variables(template, variables, end + 2)
                },
                _ => false,
            }
        },
        _ => true,
    }
}

proof fn lemma_filling_succeeds(
    template: Seq<char>,
    variables: Map<Seq<char>, Seq<char>>,
    from: int,
    done: Seq<char>,
)
    ensures
        filled_from(template, variables, from, done) is Ok <==> names_variables(
            template,
            variables,
            from,
        ) && !has_placeholder_mark(done + filling(template, variables, from)),
    decreases template.len() - from,
{
    match first_at(template, "{{"@, from) {
        Some(start) if from <= start && start + 2 <= template.len() => {
            match first_at(template, "}}"@, start + 2) {
                Some(end) if start + 2 <= end && end + 2 <= template.len() => {
                    let name = trimmed_space(template.subrange(start + 2, end));
                    if variables.contains_key(name) {
                        let next = done + template.subrange(from, start) + variables[name];
                        lemma_filling_succeeds(template, variables, end + 2, next);
                        assert(next + filling(template, variables, end + 2) =~= done + (
                        template.subrange(from, start) + variables[name] + filling(
                            template,
                            variables,
                            end + 2,
                        )));
                    }
                },
                _ => {},
            }
        },
        _ => {},
    }
}

proof fn lemma_names_in_the_rest(
    whole: Seq<char>,
    base: int,
    rest: Seq<char>,
    variables: Map<Seq<char>, Seq<char>>,
    from: int,
)
    requires
        0 <= base <= whole.len(),
        0 <= from <= rest.len(),
        rest == whole.skip(base),
    ensures
        names_variables(whole, variables, base + from) == names_variables(rest, variables, from),
    decreases rest.len() - from,
{
    reveal_strlit("{{");
    reveal_strlit("}}");
    lemma_first_in_the_rest(whole, base, rest, "{{"@, from);
    lemma_first_at(rest, "{{"@, from);
    match first_at(rest, "{{"@, from) {
        Some(start) => {
            lemma_first_in_the_rest(whole, base, rest, "}}"@, start + 2);
            lemma_first_at(rest, "}}"@, start + 2);
            match first_at(rest, "}}"@, start + 2) {
                Some(end) => {
                    lemma_names_in_the_rest(whole, base, rest, variables, end + 2);
                    assert(rest.subrange(start + 2, end) =~= whole.subrange(
                        base + start + 2,
                        base + end,
                    ));
                },
                None => {},
            }
        },
        None => {},
    }
}

/// A placeholder is replaced by the variable that it names, spaces around the name aside; what
/// stands before it is kept, and what stands behind it becomes what it would become alone. A
/// placeholder that names no variable is refused, and one that names a variable is not, unless
/// the outcome looks like a placeholder itself.
pub proof fn lemma_placeholders_are_filled(
    before: Seq<char>,
    name: Seq<char>,
    after: Seq<char>,
    variables: Map<Seq<char>, Seq<char>>,
)
    requires
        lacks(before, '{'),
        lacks(name, '}'),
    ensures
        ({
            let template = before + "{{"@ + name + "}}"@ + after;
            let named = trimmed_space(name);
            &&& !variables.contains_key(named) ==> rendered(template, variables) == Err::<
                Seq<char>,
                RenderTemplateErrorView,
            >(RenderTemplateErrorView::MissingVariable { name: named })
            &&& rendered(template, variables) matches Ok(output) ==> (rendered(
                after,
                variables,
            ) matches Ok(rest) ==> output == before + variables[named] + rest)
            &&& variables.contains_key(named) ==> (rendered(after, variables) matches Ok(rest) ==> (
            !has_placeholder_mark(before + variables[named] + rest) ==> rendered(
                template,
                variables,
            ) is Ok))
        }),
{
    reveal_strlit("{{");
    reveal_strlit("}}");
    let template = before + "{{"@ + name + "}}"@ + after;
    let start = before.len() as int;
    let end = start + 2 + name.len();
    assert(template.subrange(start, start + 2) =~= "{{"@);
    lemma_first_at(template, "{{"@, 0);
    assert(occurs_at(template, "{{"@, start));
    let first = first_at(template, "{{"@, 0)->0;
    if first < start {
        assert(template.subrange(first, first + 2)[0] == '{');
        assert(template[first] == before[first]);
    }
    assert(template.subrange(end, end + 2) =~= "}}"@);
    lemma_first_at(template, "}}"@, start + 2);
    assert(occurs_at(template, "}}"@, end));
    let second = first_at(template, "}}"@, start + 2)->0;
    if second < end {
        assert(template.subrange(second, second + 2)[0] == '}');
        assert(template[second] == name[second - start - 2]);
    }
    assert(template.subrange(start + 2, end) =~= name);
    assert(template.subrange(0, start) =~= before);
    let named = trimmed_space(name);
    if variables.contains_key(named) {
        let done = Seq::empty() + before + variables[named];
        assert(done =~= before + variables[named]);
        assert(rendered(template, variables) == filled_from(template, variables, end + 2, done));
        lemma_filling(template, variables, end + 2, done);
        assert(template.skip(end + 2) =~= after);
        lemma_filling_of_the_rest(template, end + 2, after, variables, 0);
        lemma_filling(after, variables, 0, Seq::empty());
        if let Ok(rest) = rendered(after, variables) {
            assert(Seq::empty() + filling(after, variables, 0) =~= filling(after, variables, 0));
            lemma_filling_succeeds(after, variables, 0, Seq::empty());
            lemma_names_in_the_rest(template, end + 2, after, variables, 0);
            lemma_filling_succeeds(template, variables, end + 2, done);
        }
    }
}

proof fn lemma_package_names()
    ensures
        "package.name"@ != "package.version"@,
        "package.name"@ != "package.description"@,
        "package.name"@ != "package.homepage"@,
        "package.name"@ != "package.license"@,
        "package.version"@ != "package.description"@,
        "package.version"@ != "package.homepage"@,
        "package.version"@ != "package.license"@,
        "package.description"@ != "package.homepage"@,
        "package.description"@ != "package.license"@,
        "package.homepage"@ != "package.license"@,
{
    reveal_strlit("package.name");
    reveal_strlit("package.version");
    reveal_strlit("package.description");
    reveal_strlit("package.homepage");
    reveal_strlit("package.license");
    assert("package.name"@[8] == 'n');
    assert("package.version"@[8] == 'v');
    assert("package.description"@[8] == 'd');
    assert("package.homepage"@[8] == 'h');
    assert("package.license"@[8] == 'l');
}

/// A template may name what a package is: each of its descriptions stands under its own name.
pub proof fn lemma_packages_are_described(
    package_id: Seq<char>,
    metadata: ResolvedPackageMetadataView,
)
    ensures
        ({
            let variables = package_variables(package_id, metadata);
            &&& variables.dom() == set![
                "package.name"@,
                "package.version"@,
                "package.description"@,
                "package.homepage"@,
                "package.license"@,
            ]
            &&& variables["package.name"@] == ruby_escaped(package_id)
            &&& variables["package.version"@] == ruby_escaped(metadata.source_version.text())
            &&& variables["package.description"@] == ruby_escaped(metadata.description)
            &&& variables["package.homepage"@] == ruby_escaped(metadata.homepage)
            &&& variables["package.license"@] == ruby_escaped(metadata.license)
        }),
{
    lemma_package_names();
    assert(package_variables(package_id, metadata).dom() =~= set![
        "package.name"@,
        "package.version"@,
        "package.description"@,
        "package.homepage"@,
        "package.license"@,
    ]);
}

proof fn lemma_formula_names()
    ensures
        "brew.class"@.len() == 10,
        "homebrew.class"@.len() == 14,
        "homebrew.ssh_session_install"@.len() == 28,
        "brew.urls"@.len() == 9,
        "homebrew.urls"@.len() == 13,
        "build.features.csv"@.len() == 18,
        "build.features.ruby_array"@.len() == 25,
        "brew.class"@[0] == 'b',
        "homebrew.class"@[0] == 'h',
        "homebrew.ssh_session_install"@[0] == 'h',
        "brew.urls"@[0] == 'b',
        "homebrew.urls"@[0] == 'h',
        "build.features.csv"@[0] == 'b',
        "build.features.ruby_array"@[0] == 'b',
        "package.name"@[0] == 'p',
        "package.version"@[0] == 'p',
        "package.description"@[0] == 'p',
        "package.homepage"@[0] == 'p',
        "package.license"@[0] == 'p',
{
    reveal_strlit("brew.class");
    reveal_strlit("homebrew.class");
    reveal_strlit("homebrew.ssh_session_install");
    reveal_strlit("brew.urls");
    reveal_strlit("homebrew.urls");
    reveal_strlit("build.features.csv");
    reveal_strlit("build.features.ruby_array");
    reveal_strlit("package.name");
    reveal_strlit("package.version");
    reveal_strlit("package.description");
    reveal_strlit("package.homepage");
    reveal_strlit("package.license");
}

/// The template of a formula may name what its package is, the class of the formula, the
/// features that its archives were built with, and the command that installs the session
/// helper, which is there exactly where an archive was built with sessions.
pub proof fn lemma_formulas_describe_their_package(
    package_id: Seq<char>,
    metadata: ResolvedPackageMetadataView,
    manifest: PackageManifestView,
    base_url: Seq<char>,
)
    ensures
        brew_variables(package_id, metadata, manifest, base_url) matches Ok(variables) ==> {
            let described = package_variables(package_id, metadata);
            let features = all_features(manifest.artifacts);
            &&& forall|name: Seq<char>| #[trigger]
                described.contains_key(name) ==> variables.contains_key(name) && variables[name]
                    == described[name]
            &&& variables.contains_key("brew.class"@) && variables["brew.class"@] == class_name(
                package_id,
            )
            &&& variables.contains_key("homebrew.class"@) && variables["homebrew.class"@]
                == class_name(package_id)
            &&& variables.contains_key("build.features.csv"@) && variables["build.features.csv"@]
                == joined(sorted(features), ","@)
            &&& variables.contains_key("build.features.ruby_array"@)
            &&& variables["build.features.ruby_array"@] == "["@ + joined(
                sorted(features).map_values(
                    |feature: Seq<char>| "\""@ + ruby_escaped(feature) + "\""@,
                ),
                ", "@,
            ) + "]"@
            &&& variables.contains_key("homebrew.ssh_session_install"@)
            &&& variables["homebrew.ssh_session_install"@] == if features.contains("sshd"@)
                || features.contains("pam"@) {
                "    libexec.install \"pishoo-ssh-session\"\n"@
            } else {
                Seq::empty()
            }
        },
{
    lemma_formula_names();
    lemma_packages_are_described(package_id, metadata);
    let features = sorted(all_features(manifest.artifacts));
    assert(features.map_values(|feature: Seq<char>| ruby_quoted(feature)) =~= features.map_values(
        |feature: Seq<char>| "\""@ + ruby_escaped(feature) + "\""@,
    ));
}

/// The template of a Scoop manifest may name what its package is and the features that its
/// archives were built with.
pub proof fn lemma_scoop_describes_its_package(
    package_id: Seq<char>,
    metadata: ResolvedPackageMetadataView,
    manifest: PackageManifestView,
    base_url: Seq<char>,
    bin: Seq<Seq<char>>,
)
    ensures
        scoop_variables(package_id, metadata, manifest, base_url, bin) matches Ok(variables) ==> {
            let described = package_variables(package_id, metadata);
            &&& forall|name: Seq<char>| #[trigger]
                described.contains_key(name) ==> variables.contains_key(name) && variables[name]
                    == described[name]
            &&& variables.contains_key("build.features.csv"@) && variables["build.features.csv"@]
                == joined(sorted(all_features(manifest.artifacts)), ","@)
        },
{
    lemma_formula_names();
    lemma_packages_are_described(package_id, metadata);
    reveal_strlit("scoop.bin.json");
    reveal_strlit("scoop.architecture.json");
    reveal_strlit("scoop.autoupdate.json");
    assert("scoop.bin.json"@[0] == 's');
    assert("scoop.architecture.json"@[0] == 's');
    assert("scoop.autoupdate.json"@[0] == 's');
}

/// The class of a formula has its words run together: each begins with a capital, and what
/// separates them is left out.
pub proof fn lemma_classes_run_words_together(first: char, rest: Seq<char>)
    requires
        !separates_words(first),
        forall|i: int| 0 <= i < rest.len() ==> !separates_words(#[trigger] rest[i]),
    ensures
        class_name(seq![first] + rest) == upper_case(first) + rest,
{
    let word = seq![first] + rest;
    let done = Seq::empty() + upper_case(first);
    assert(class_name(word) == class_name_from(word, 1, false, done));
    lemma_word_is_kept(word, 1, done);
    assert(done + word.skip(1) =~= upper_case(first) + rest);
}

proof fn lemma_word_is_kept(word: Seq<char>, from: int, done: Seq<char>)
    requires
        0 <= from <= word.len(),
        forall|i: int| from <= i < word.len() ==> !separates_words(#[trigger] word[i]),
    ensures
        class_name_from(word, from, false, done) == done + word.skip(from),
    decreases word.len() - from,
{
    if from < word.len() {
        lemma_word_is_kept(word, from + 1, done.push(word[from]));
        assert(done.push(word[from]) + word.skip(from + 1) =~= done + word.skip(from));
    } else {
        assert(done + word.skip(from) =~= done);
    }
}

} // verus!
