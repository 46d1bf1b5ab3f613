//! Slash-separated paths, as texts. A path is read as Unix hosts read it: only a slash parts
//! its components, and a leading slash alone makes it absolute.

use vstd::prelude::*;

use crate::model::deep;
use crate::text::{chars_of, cut_last, join, joined, rsplit_once, same_text, text_between};

verus! {

broadcast use crate::model::group_deep;

/// How `std::path::Path` writes a path for debugging: quoted and escaped.
pub uninterp spec fn debug_path(path: Seq<char>) -> Seq<char>;

/// The `Debug` form of `std::path::Path`. It depends on the path alone: which characters are
/// escaped may differ from one build target to another, never from one call to the next in
/// one build.
#[verifier::external_body]
pub(crate) fn debug_path_text(path: &str) -> (text: String)
    ensures
        text@ == debug_path(path@),
{
    format!("{:?}", std::path::Path::new(path))
}

// ---------------------------------------------------------------------------
// Models
// ---------------------------------------------------------------------------
/// The path starts at the root.
pub open spec fn absolute(path: Seq<char>) -> bool {
    path.len() > 0 && path[0] == '/'
}

/// The position of the first slash at or after `from`, or the end of the path.
pub open spec fn piece_end(path: Seq<char>, from: int) -> int
    decreases path.len() - from,
{
    if from < 0 || from >= path.len() || path[from] == '/' {
        from
    } else {
        piece_end(path, from + 1)
    }
}

/// What stands between two slashes is no component: it is empty, or it is a dot
/// that does not open the path.
pub open spec fn no_component(path: Seq<char>, from: int, to: int) -> bool {
    from == to || (from > 0 && to == from + 1 && path[from] == '.')
}

/// The places of the components of the path, from `from` on. The root is not among them.
pub open spec fn spans_from(path: Seq<char>, from: int) -> Seq<(int, int)>
    decreases path.len() - from + 1,
{
    if from < 0 || from >= path.len() {
        Seq::empty()
    } else {
        let to = piece_end(path, from);
        if to < from || to > path.len() {
            Seq::empty()
        } else if no_component(path, from, to) {
            spans_from(path, to + 1)
        } else {
            seq![(from, to)] + spans_from(path, to + 1)
        }
    }
}

/// The places of the components of the path.
pub open spec fn spans(path: Seq<char>) -> Seq<(int, int)> {
    spans_from(path, 0)
}

/// The components of the path, without the root.
pub open spec fn components(path: Seq<char>) -> Seq<Seq<char>> {
    spans(path).map_values(|span: (int, int)| path.subrange(span.0, span.1))
}

/// The components of the path, the root included.
pub open spec fn parts(path: Seq<char>) -> Seq<Seq<char>> {
    if absolute(path) {
        seq!["/"@] + components(path)
    } else {
        components(path)
    }
}

/// The path leads through a parent directory.
pub open spec fn leads_upward(path: Seq<char>) -> bool {
    components(path).contains(".."@)
}

/// `relative`, taken from the directory `base`.
pub open spec fn path_join(base: Seq<char>, relative: Seq<char>) -> Seq<char> {
    if absolute(relative) || base.len() == 0 {
        relative
    } else if base.last() == '/' {
        base + relative
    } else {
        base + "/"@ + relative
    }
}

/// The last component of the path, where it names a file.
pub open spec fn path_file_name(path: Seq<char>) -> Option<Seq<char>> {
    let names = components(path);
    if names.len() == 0 || names.last() == ".."@ || names.last() == "."@ {
        None
    } else {
        Some(names.last())
    }
}

/// The path without its last component, where it has one.
pub open spec fn path_parent(path: Seq<char>) -> Option<Seq<char>> {
    let places = spans(path);
    if places.len() == 0 {
        None
    } else if places.len() > 1 {
        Some(path.take(places[places.len() - 2].1))
    } else if absolute(path) {
        Some("/"@)
    } else {
        Some(Seq::empty())
    }
}

/// What follows the last dot of the file name, where something precedes that dot.
pub open spec fn path_extension(path: Seq<char>) -> Option<Seq<char>> {
    match path_file_name(path) {
        None => None,
        Some(name) => match cut_last(name, '.') {
            Some((stem, extension)) if stem.len() > 0 => Some(extension),
            _ => None,
        },
    }
}

/// The part of the path that lies below `base`, where all of `base` leads to it.
pub open spec fn path_below(path: Seq<char>, base: Seq<char>) -> Option<Seq<char>> {
    let places = spans(path);
    let count = spans(base).len() as int;
    if absolute(path) != absolute(base) || !components(base).is_prefix_of(components(path)) {
        None
    } else if places.len() == count {
        Some(Seq::empty())
    } else {
        Some(path.subrange(places[count].0, places.last().1))
    }
}

// ---------------------------------------------------------------------------
// Facts about the models
// ---------------------------------------------------------------------------
proof fn lemma_piece_end(path: Seq<char>, from: int)
    requires
        0 <= from <= path.len(),
    ensures
        from <= piece_end(path, from) <= path.len(),
    decreases path.len() - from,
{
    if from < path.len() && path[from] != '/' {
        lemma_piece_end(path, from + 1);
    }
}

/// Components stand one after the other inside the path.
pub proof fn lemma_spans(path: Seq<char>, from: int)
    requires
        0 <= from,
    ensures
        forall|i: int|
            0 <= i < spans_from(path, from).len() ==> from <= (#[trigger] spans_from(
                path,
                from,
            )[i]).0 < spans_from(path, from)[i].1 <= path.len(),
        forall|i: int, j: int|
            0 <= i < j < spans_from(path, from).len() ==> (#[trigger] spans_from(path, from)[i]).1
                < (#[trigger] spans_from(path, from)[j]).0,
    decreases path.len() - from + 1,
{
    if from < path.len() {
        let to = piece_end(path, from);
        lemma_piece_end(path, from);
        lemma_spans(path, to + 1);
        let tail = spans_from(path, to + 1);
        if !no_component(path, from, to) {
            let all = spans_from(path, from);
            assert(all =~= seq![(from, to)] + tail);
            assert forall|i: int| 0 <= i < all.len() implies from <= (#[trigger] all[i]).0
                < all[i].1 <= path.len() by {
                if i > 0 {
                    assert(all[i] == tail[i - 1]);
                }
            }
            assert forall|i: int, j: int| 0 <= i < j < all.len() implies (#[trigger] all[i]).1 < (
            #[trigger] all[j]).0 by {
                assert(all[j] == tail[j - 1]);
                if i > 0 {
                    assert(all[i] == tail[i - 1]);
                }
            }
        }
    }
}

// ---------------------------------------------------------------------------
// Operations
// ---------------------------------------------------------------------------
/// Whether the path starts at the root.
pub fn is_absolute(path: &str) -> (rooted: bool)
    ensures
        rooted == absolute(path@),
{
    let chars = chars_of(path);
    chars.len() > 0 && chars[0] == '/'
}

/// The places of the components.
fn places(chars: &Vec<char>) -> (places: Vec<(usize, usize)>)
    ensures
        places@.len() == spans(chars@).len(),
        forall|i: int|
            0 <= i < places@.len() ==> spans(chars@)[i] == ((#[trigger] places@[i]).0 as int, places@[i].1 as int),
        forall|i: int|
            0 <= i < places@.len() ==> (#[trigger] places@[i]).0 < places@[i].1 <= chars@.len(),
{
    let mut found: Vec<(usize, usize)> = Vec::new();
    let mut from: usize = 0;
    let ghost mut known: Seq<(int, int)> = Seq::empty();
    assert(known + spans_from(chars@, 0) =~= spans(chars@));
    while from < chars.len()
        invariant
            from <= chars@.len() + 1,
            known.len() == found@.len(),
            forall|i: int|
                0 <= i < found@.len() ==> known[i] == ((#[trigger] found@[i]).0 as int, found@[i].1 as int),
            spans(chars@) == known + spans_from(chars@, from as int),
        decreases chars@.len() + 1 - from,
    {
        let mut to: usize = from;
        while to < chars.len() && chars[to] != '/'
            invariant
                from <= to <= chars@.len(),
                piece_end(chars@, from as int) == piece_end(chars@, to as int),
            decreases chars@.len() - to,
        {
            to = to + 1;
        }
        let skipped = from == to || (from > 0 && to == from + 1 && chars[from] == '.');
        if !skipped {
            found.push((from, to));
            proof {
                let added = known.push((from as int, to as int));
                assert(known + (seq![(from as int, to as int)] + spans_from(chars@, to + 1))
                    =~= added + spans_from(chars@, to + 1));
                known = added;
            }
        }
        if to == chars.len() {
            assert(spans_from(chars@, to + 1) =~= Seq::empty());
            assert(spans(chars@) =~= known);
            proof {
                lemma_spans(chars@, 0);
                assert forall|i: int| 0 <= i < found@.len() implies (#[trigger] found@[i]).0
                    < found@[i].1 <= chars@.len() by {
                    assert(spans_from(chars@, 0)[i] == known[i]);
                }
            }
            return found;
        }
        from = to + 1;
    }
    assert(spans_from(chars@, from as int) =~= Seq::empty());
    assert(spans(chars@) =~= known);
    proof {
        lemma_spans(chars@, 0);
        assert forall|i: int| 0 <= i < found@.len() implies (#[trigger] found@[i]).0 < found@[i].1
            <= chars@.len() by {
            assert(spans_from(chars@, 0)[i] == known[i]);
        }
    }
    found
}

/// The components of the path, without the root.
pub fn component_names(path: &str) -> (names: Vec<String>)
    ensures
        deep(names@) == components(path@),
{
    let chars = chars_of(path);
    let found = places(&chars);
    let mut names: Vec<String> = Vec::new();
    let mut i: usize = 0;
    while i < found.len()
        invariant
            i <= found@.len(),
            found@.len() == spans(chars@).len(),
            forall|j: int|
                0 <= j < found@.len() ==> spans(chars@)[j] == ((#[trigger] found@[j]).0 as int, found@[j].1 as int),
            forall|j: int|
                0 <= j < found@.len() ==> (#[trigger] found@[j]).0 < found@[j].1 <= chars@.len(),
            deep(names@) == components(chars@).take(i as int),
        decreases found@.len() - i,
    {
        let name = text_between(&chars, found[i].0, found[i].1);
        names.push(name);
        assert(components(chars@).take(i + 1) =~= components(chars@).take(i as int).push(name@));
        i = i + 1;
    }
    assert(components(chars@).take(i as int) =~= components(chars@));
    names
}

/// Whether the path leads through a parent directory.
pub fn has_parent_component(path: &str) -> (upward: bool)
    ensures
        upward == leads_upward(path@),
{
    let names = component_names(path);
    let mut i: usize = 0;
    while i < names.len()
        invariant
            i <= names@.len(),
            deep(names@) == components(path@),
            forall|j: int| 0 <= j < i ==> #[trigger] components(path@)[j] != ".."@,
        decreases names@.len() - i,
    {
        assert(deep(names@)[i as int] == names@[i as int]@);
        if same_text(names[i].as_str(), "..") {
            assert(components(path@)[i as int] == ".."@);
            return true;
        }
        i = i + 1;
    }
    false
}

/// `relative`, taken from the directory `base`.
pub fn join_path(base: &str, relative: &str) -> (path: String)
    ensures
        path@ == path_join(base@, relative@),
{
    let chars = chars_of(base);
    if is_absolute(relative) || chars.len() == 0 {
        return relative.to_owned();
    }
    let mut path = base.to_owned();
    if chars[chars.len() - 1] != '/' {
        path.append("/");
    }
    path.append(relative);
    path
}

/// The last component of the path, where it names a file.
pub fn file_name(path: &str) -> (name: Option<String>)
    ensures
        name.deep_view() == path_file_name(path@),
{
    let mut names = component_names(path);
    let ghost all = names@;
    match names.pop() {
        Some(name) => {
            assert(components(path@).last() == name@) by {
                assert(deep(all).last() == all.last()@);
            }
            if same_text(name.as_str(), "..") || same_text(name.as_str(), ".") {
                None
            } else {
                Some(name)
            }
        },
        None => {
            assert(deep(all).len() == 0);
            None
        },
    }
}

/// The path without its last component, where it has one.
pub fn parent(path: &str) -> (directory: Option<String>)
    ensures
        directory.deep_view() == path_parent(path@),
{
    let chars = chars_of(path);
    let found = places(&chars);
    if found.len() == 0 {
        None
    } else if found.len() > 1 {
        let last: usize = found.len() - 2;
        let directory = text_between(&chars, 0, found[last].1);
        assert(directory@ =~= path@.take(found@[last as int].1 as int));
        Some(directory)
    } else if is_absolute(path) {
        Some("/".to_owned())
    } else {
        let directory = String::new();
        assert(directory@ =~= Seq::<char>::empty());
        Some(directory)
    }
}

/// What follows the last dot of the file name, where something precedes that dot.
pub fn extension(path: &str) -> (found: Option<String>)
    ensures
        found.deep_view() == path_extension(path@),
{
    match file_name(path) {
        None => None,
        Some(name) => match rsplit_once(name.as_str(), '.') {
            Some((stem, extension)) => {
                if stem.as_str().is_empty() {
                    None
                } else {
                    Some(extension)
                }
            },
            None => None,
        },
    }
}

/// The part of the path that lies below `base`, where all of `base` leads to it.
pub fn below(path: &str, base: &str) -> (rest: Option<String>)
    ensures
        rest.deep_view() == path_below(path@, base@),
{
    let chars = chars_of(path);
    let found = places(&chars);
    let names = component_names(path);
    let wanted = component_names(base);
    assert(deep(names@).len() == found@.len());
    assert(deep(wanted@).len() == spans(base@).len());
    if is_absolute(path) != is_absolute(base) || wanted.len() > names.len() {
        return None;
    }
    let mut i: usize = 0;
    while i < wanted.len()
        invariant
            i <= wanted@.len() <= names@.len(),
            deep(names@) == components(path@),
            deep(wanted@) == components(base@),
            forall|j: int| 0 <= j < i ==> #[trigger] components(base@)[j] == components(path@)[j],
        decreases wanted@.len() - i,
    {
        assert(deep(names@)[i as int] == names@[i as int]@);
        assert(deep(wanted@)[i as int] == wanted@[i as int]@);
        if !same_text(names[i].as_str(), wanted[i].as_str()) {
            assert(components(path@).take(components(base@).len() as int)[i as int]
                != components(base@)[i as int]);
            return None;
        }
        i = i + 1;
    }
    assert(components(base@) =~= components(path@).take(components(base@).len() as int));
    if found.len() == wanted.len() {
        let rest = String::new();
        assert(rest@ =~= Seq::<char>::empty());
        Some(rest)
    } else {
        let first: usize = wanted.len();
        let last: usize = found.len() - 1;
        proof {
            lemma_spans(path@, 0);
            assert(spans_from(path@, 0)[first as int].0 <= spans_from(path@, 0)[last as int].1);
        }
        Some(text_between(&chars, found[first].0, found[last].1))
    }
}

/// The components of the path, the root included, with slashes between them.
pub fn path_to_slash(path: &str) -> (text: String)
    ensures
        text@ == joined(parts(path@), "/"@),
{
    let mut names: Vec<String> = Vec::new();
    if is_absolute(path) {
        names.push("/".to_owned());
        assert(deep(names@) =~= seq!["/"@]);
    }
    let ghost root = deep(names@);
    let mut rest = component_names(path);
    let ghost tail = rest@;
    let ghost lead = names@;
    names.append(&mut rest);
    assert(names@ == lead + tail);
    assert(deep(names@) =~= root + deep(tail));
    assert(deep(names@) =~= parts(path@));
    join(&names, "/")
}

} // verus!
