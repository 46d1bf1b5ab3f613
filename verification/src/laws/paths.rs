//! Laws of paths: what is put together can be taken apart again.

use vstd::prelude::*;

use crate::laws::keys::{lacks, lemma_cut_last};
use crate::laws::texts::lemma_joined_from_the_front;
use crate::path::{
    absolute, components, lemma_spans, no_component, path_below, path_extension, path_file_name,
    path_join, piece_end, spans, spans_from,
};
use crate::text::joined;

verus! {

/// A relative path is put below a directory with one slash between them; an absolute one stands
/// for itself.
pub proof fn lemma_paths_are_joined(base: Seq<char>, relative: Seq<char>)
    ensures
        absolute(relative) ==> path_join(base, relative) == relative,
        base.len() > 0 && base.last() != '/' && !absolute(relative) ==> path_join(base, relative)
            == base + "/"@ + relative,
        base.len() > 0 && base.last() == '/' && !absolute(relative) ==> path_join(base, relative)
            == base + relative,
        base.len() == 0 ==> path_join(base, relative) == relative,
{
}

proof fn lemma_end_of_piece(path: Seq<char>, from: int, to: int)
    requires
        0 <= from <= to <= path.len(),
        to == path.len() || path[to] == '/',
        forall|i: int| from <= i < to ==> #[trigger] path[i] != '/',
    ensures
        piece_end(path, from) == to,
    decreases to - from,
{
    if from < to {
        assert(path[from] != '/');
        lemma_end_of_piece(path, from + 1, to);
    }
}

proof fn lemma_piece_ends(path: Seq<char>, from: int)
    requires
        0 <= from <= path.len(),
    ensures
        from <= piece_end(path, from) <= path.len(),
        piece_end(path, from) < path.len() ==> path[piece_end(path, from)] == '/',
        forall|i: int| from <= i < piece_end(path, from) ==> #[trigger] path[i] != '/',
    decreases path.len() - from,
{
    if from < path.len() && path[from] != '/' {
        lemma_piece_ends(path, from + 1);
    }
}

/// The last name of a path is its last span.
proof fn lemma_last_span(path: Seq<char>, from: int, at: int)
    requires
        0 <= from <= at < path.len(),
        0 < at,
        path[at - 1] == '/',
        from == at || from < at,
        forall|i: int| at <= i < path.len() ==> #[trigger] path[i] != '/',
        !(at + 1 == path.len() && path[at] == '.'),
    ensures
        spans_from(path, from).len() > 0,
        spans_from(path, from).last() == (at, path.len() as int),
    decreases at - from,
{
    if from == at {
        lemma_end_of_piece(path, at, path.len() as int);
        assert(spans_from(path, path.len() as int + 1) =~= Seq::empty());
        assert(spans_from(path, from) =~= seq![(at, path.len() as int)]);
    } else {
        lemma_piece_ends(path, from);
        let to = piece_end(path, from);
        if to >= at {
            assert(path[at - 1] != '/');
        }
        lemma_last_span(path, to + 1, at);
    }
}

/// A file below a directory has the name that it was put there under.
pub proof fn lemma_files_have_their_name(directory: Seq<char>, name: Seq<char>)
    requires
        name.len() > 0,
        lacks(name, '/'),
        name != "."@,
        name != ".."@,
    ensures
        path_file_name(directory + "/"@ + name) == Some(name),
{
    reveal_strlit("/");
    reveal_strlit(".");
    let path = directory + "/"@ + name;
    let at = directory.len() + 1;
    assert forall|i: int| at <= i < path.len() implies #[trigger] path[i] != '/' by {
        assert(path[i] == name[i - at]);
    }
    if at + 1 == path.len() && path[at as int] == '.' {
        assert(name =~= "."@);
    }
    lemma_last_span(path, 0, at as int);
    assert(path.subrange(at as int, path.len() as int) =~= name);
    assert(components(path).last() == name);
}

/// The extension of a file is what follows the last dot of its name, where something stands
/// before it.
pub proof fn lemma_files_have_their_extension(
    directory: Seq<char>,
    stem: Seq<char>,
    extension: Seq<char>,
)
    requires
        stem.len() > 0,
        extension.len() > 0,
        lacks(stem, '/'),
        lacks(extension, '/'),
        lacks(extension, '.'),
    ensures
        path_extension(directory + "/"@ + (stem.push('.') + extension)) == Some(extension),
{
    reveal_strlit(".");
    reveal_strlit("..");
    let name = stem.push('.') + extension;
    assert forall|i: int| 0 <= i < name.len() implies #[trigger] name[i] != '/' by {
        if i < stem.len() {
            assert(name[i] == stem[i]);
        } else if i > stem.len() {
            assert(name[i] == extension[i - stem.len() - 1]);
        }
    }
    assert(name.last() == extension[extension.len() - 1]);
    assert(name.last() != '.');
    lemma_files_have_their_name(directory, name);
    lemma_cut_last(stem, '.', extension);
}

/// The spans of a path that is put below another are the spans of that one, and then its own.
proof fn lemma_spans_of_both(base: Seq<char>, whole: Seq<char>, from: int)
    requires
        base.len() < whole.len(),
        whole.take(base.len() as int) == base,
        whole[base.len() as int] == '/',
        0 <= from <= base.len(),
    ensures
        spans_from(whole, from) == spans_from(base, from) + spans_from(whole, base.len() as int + 1),
    decreases base.len() - from,
{
    let end = base.len() as int;
    let rest = spans_from(whole, end + 1);
    assert forall|i: int| 0 <= i < end implies #[trigger] whole[i] == base[i] by {
        assert(whole.take(end)[i] == base[i]);
    }
    if from == end {
        lemma_end_of_piece(whole, end, end);
        assert(spans_from(base, from) + rest =~= rest);
    } else {
        lemma_piece_ends(base, from);
        let to = piece_end(base, from);
        assert forall|i: int| from <= i < to implies #[trigger] whole[i] != '/' by {
            assert(base[i] != '/');
        }
        lemma_end_of_piece(whole, from, to);
        assert(no_component(whole, from, to) == no_component(base, from, to));
        if to < end {
            lemma_spans_of_both(base, whole, to + 1);
            assert(seq![(from, to)] + (spans_from(base, to + 1) + rest) =~= (seq![(from, to)]
                + spans_from(base, to + 1)) + rest);
        } else {
            assert(spans_from(base, to + 1) =~= Seq::empty());
            assert(Seq::empty() + rest =~= rest);
            assert(seq![(from, to)] + Seq::empty() =~= seq![(from, to)]);
        }
    }
}

/// A path whose last character is neither a slash nor a dot has its last span at its end.
proof fn lemma_spans_reach_the_end(path: Seq<char>, from: int)
    requires
        0 <= from < path.len(),
        path.last() != '/',
        path.last() != '.',
    ensures
        spans_from(path, from).len() > 0,
        spans_from(path, from).last().1 == path.len(),
    decreases path.len() - from,
{
    lemma_piece_ends(path, from);
    let to = piece_end(path, from);
    if to == path.len() {
        assert(spans_from(path, to + 1) =~= Seq::empty());
        assert(path.last() == path[path.len() - 1]);
        assert(spans_from(path, from) =~= seq![(from, to)]);
    } else {
        assert(path[path.len() - 1] != '/');
        lemma_spans_reach_the_end(path, to + 1);
    }
}

/// What was put below a directory is found below it again, as it was.
pub proof fn lemma_paths_are_found_below(base: Seq<char>, relative: Seq<char>)
    requires
        base.len() > 0,
        base.last() != '/',
        relative.len() > 0,
        relative[0] != '/' && relative[0] != '.',
        relative.last() != '/' && relative.last() != '.',
    ensures
        path_below(path_join(base, relative), base) == Some(relative),
{
    reveal_strlit("/");
    let whole = path_join(base, relative);
    assert(whole == base + "/"@ + relative);
    let end = base.len() as int;
    assert(whole.take(end) =~= base);
    assert(whole.last() == relative.last());
    lemma_spans_of_both(base, whole, 0);
    lemma_spans_reach_the_end(whole, end + 1);
    lemma_piece_ends(whole, end + 1);
    assert(whole[end + 1] == relative[0]);
    let first = spans_from(whole, end + 1);
    let to = piece_end(whole, end + 1);
    if to == end + 1 {
        assert(whole[to] == '/');
    }
    assert(first[0] == (end + 1, to));
    let own = spans(base);
    let all = spans(whole);
    assert(all == own + first);
    lemma_spans(base, 0);
    assert forall|i: int| 0 <= i < components(base).len() implies #[trigger] components(base)[i]
        == components(whole)[i] by {
        assert(all[i] == own[i]);
        assert(base.subrange(own[i].0, own[i].1) =~= whole.subrange(own[i].0, own[i].1));
    }
    assert(components(base).is_prefix_of(components(whole))) by {
        assert(components(whole).subrange(0, components(base).len() as int) =~= components(base));
    }
    assert(all[own.len() as int] == first[0]);
    assert(all.last() == first.last());
    assert(whole.subrange(end + 1, whole.len() as int) =~= relative);
}

/// Whether a text is the name of something below a directory.
pub open spec fn is_name(text: Seq<char>) -> bool {
    text.len() > 0 && lacks(text, '/') && text != "."@
}

proof fn lemma_spans_of_the_rest(whole: Seq<char>, base: int, rest: Seq<char>, from: int)
    requires
        0 < base <= whole.len(),
        0 <= from,
        rest == whole.skip(base),
        from > 0 || !no_component(whole, base, piece_end(whole, base)),
    ensures
        spans_from(whole, base + from) == spans_from(rest, from).map_values(
            |span: (int, int)| (span.0 + base, span.1 + base),
        ),
    decreases rest.len() - from + 1,
{
    let shift = |span: (int, int)| (span.0 + base, span.1 + base);
    if from < rest.len() {
        lemma_piece_ends(rest, from);
        let to = piece_end(rest, from);
        assert forall|i: int| base + from <= i < base + to implies #[trigger] whole[i] != '/' by {
            assert(rest[i - base] != '/');
        }
        if to < rest.len() {
            assert(whole[base + to] == rest[to]);
        }
        lemma_end_of_piece(whole, base + from, base + to);
        lemma_spans_of_the_rest(whole, base, rest, to + 1);
        assert(whole[base + from] == rest[from]);
        let later = spans_from(rest, to + 1);
        if no_component(rest, from, to) {
            assert(no_component(whole, base + from, base + to));
        } else {
            assert(!no_component(whole, base + from, base + to));
            assert((seq![(from, to)] + later).map_values(shift) =~= seq![(base + from, base + to)]
                + later.map_values(shift));
        }
    } else {
        assert(spans_from(rest, from).map_values(shift) =~= Seq::empty());
    }
}

/// Names with slashes between them are the components of the path that they make.
pub proof fn lemma_names_are_components(names: Seq<Seq<char>>)
    requires
        forall|i: int| 0 <= i < names.len() ==> is_name(#[trigger] names[i]),
    ensures
        components(joined(names, "/"@)) == names,
        names.len() > 0 ==> !absolute(joined(names, "/"@)),
    decreases names.len(),
{
    reveal_strlit("/");
    reveal_strlit(".");
    let path = joined(names, "/"@);
    if names.len() == 0 {
        assert(components(path) =~= names);
    } else {
        let first = names[0];
        let end = first.len() as int;
        assert(is_name(first));
        if names.len() == 1 {
            assert(path == first);
            lemma_end_of_piece(path, 0, end);
            assert(spans_from(path, end + 1) =~= Seq::empty());
            assert(spans(path) =~= seq![(0int, end)]);
            assert(path.subrange(0, end) =~= first);
            assert(components(path) =~= names);
            assert(path[0] == first[0]);
        } else {
            let others = names.skip(1);
            let rest = joined(others, "/"@);
            lemma_joined_from_the_front(names, "/"@);
            assert forall|i: int| 0 <= i < others.len() implies is_name(#[trigger] others[i]) by {
                assert(others[i] == names[i + 1]);
            }
            lemma_names_are_components(others);
            assert(path == first + "/"@ + rest);
            assert(path[end] == '/');
            assert forall|i: int| 0 <= i < end implies #[trigger] path[i] != '/' by {
                assert(path[i] == first[i]);
            }
            lemma_end_of_piece(path, 0, end);
            assert(path.skip(end + 1) =~= rest);
            lemma_first_name(others);
            let second = others[0];
            let place = end + 1 + second.len();
            assert forall|i: int| end + 1 <= i < place implies #[trigger] path[i] != '/' by {
                assert(path[i] == rest[i - end - 1]);
                assert(rest[i - end - 1] == second[i - end - 1]);
            }
            if place < path.len() {
                assert(path[place] == rest[second.len() as int]);
            }
            lemma_end_of_piece(path, end + 1, place);
            if second.len() == 1 && path[end + 1] == '.' {
                assert(rest[0] == second[0]);
                assert(second =~= "."@);
            }
            lemma_spans_of_the_rest(path, end + 1, rest, 0);
            let own = spans(rest);
            let all = spans(path);
            assert(all =~= seq![(0int, end)] + own.map_values(
                |span: (int, int)| (span.0 + (end + 1), span.1 + (end + 1)),
            ));
            lemma_spans(rest, 0);
            assert(path.subrange(0, end) =~= first);
            assert forall|i: int| 0 <= i < names.len() implies #[trigger] components(path)[i]
                == names[i] by {
                if i > 0 {
                    let span = own[i - 1];
                    assert(components(rest)[i - 1] == others[i - 1]);
                    assert(all[i] == (span.0 + (end + 1), span.1 + (end + 1)));
                    assert(path.subrange(span.0 + (end + 1), span.1 + (end + 1))
                        =~= rest.subrange(span.0, span.1));
                }
            }
            assert(components(rest).len() == others.len());
            assert(components(path) =~= names);
            assert(path[0] == first[0]);
        }
    }
}

proof fn lemma_first_name(names: Seq<Seq<char>>)
    requires
        names.len() > 0,
    ensures
        ({
            let path = joined(names, "/"@);
            let end = names[0].len() as int;
            &&& end <= path.len()
            &&& path.take(end) == names[0]
            &&& forall|i: int| 0 <= i < end ==> #[trigger] path[i] == names[0][i]
            &&& end < path.len() ==> path[end] == '/'
        }),
{
    reveal_strlit("/");
    let path = joined(names, "/"@);
    let end = names[0].len() as int;
    if names.len() > 1 {
        lemma_joined_from_the_front(names, "/"@);
    }
    assert(path.take(end) =~= names[0]);
}

} // verus!
