//! Laws of texts that are made of others: what goes into a text can be found in it again.

use vstd::prelude::*;

use crate::laws::keys::{lacks, lemma_first_char, lemma_no_char};
use crate::text::{contains_text, first_at, joined, lemma_first_at, occurs_at, pieces, pieces_from};

verus! {

/// What stands between two texts can be found in the whole.
pub proof fn lemma_middle_is_contained(before: Seq<char>, part: Seq<char>, after: Seq<char>)
    ensures
        contains_text(before + part + after, part),
{
    let whole = before + part + after;
    let at = before.len() as int;
    assert(whole.subrange(at, at + part.len()) =~= part);
    assert(occurs_at(whole, part, at));
}

/// What a part of a text holds, the text holds.
pub proof fn lemma_contained_twice(whole: Seq<char>, part: Seq<char>, inner: Seq<char>)
    requires
        contains_text(whole, part),
        contains_text(part, inner),
    ensures
        contains_text(whole, inner),
{
    let outer = choose|at: int| #[trigger] occurs_at(whole, part, at);
    let at = choose|at: int| #[trigger] occurs_at(part, inner, at);
    assert(whole.subrange(outer + at, outer + at + inner.len()) =~= part.subrange(
        at,
        at + inner.len(),
    ));
    assert(occurs_at(whole, inner, outer + at));
}

/// Each part of a joined text can be found in it.
pub proof fn lemma_joined_holds_every_part(parts: Seq<Seq<char>>, separator: Seq<char>, i: int)
    requires
        0 <= i < parts.len(),
    ensures
        contains_text(joined(parts, separator), parts[i]),
    decreases parts.len(),
{
    let none = Seq::<char>::empty();
    let rest = joined(parts.drop_last(), separator);
    if parts.len() == 1 {
        lemma_middle_is_contained(none, parts[0], none);
        assert(none + parts[0] + none =~= joined(parts, separator));
    } else if i == parts.len() - 1 {
        lemma_middle_is_contained(rest + separator, parts[i], none);
        assert(rest + separator + parts[i] + none =~= joined(parts, separator));
    } else {
        lemma_joined_holds_every_part(parts.drop_last(), separator, i);
        lemma_middle_is_contained(none, rest, separator + parts.last());
        assert(none + rest + (separator + parts.last()) =~= joined(parts, separator));
        lemma_contained_twice(joined(parts, separator), rest, parts[i]);
    }
}

/// How long a joined text is: its parts, and one separator between each two of them.
pub open spec fn joined_length(parts: Seq<Seq<char>>, separator: nat) -> nat
    decreases parts.len(),
{
    if parts.len() == 0 {
        0
    } else if parts.len() == 1 {
        parts[0].len()
    } else {
        joined_length(parts.drop_last(), separator) + separator + parts.last().len()
    }
}

/// A joined text holds nothing but its parts and one separator between each two of them.
pub proof fn lemma_joined_adds_only_separators(parts: Seq<Seq<char>>, separator: Seq<char>)
    ensures
        joined(parts, separator).len() == joined_length(parts, separator.len()),
    decreases parts.len(),
{
    if parts.len() > 1 {
        lemma_joined_adds_only_separators(parts.drop_last(), separator);
    }
}

/// The first place of a part in what is left of a text is its first place there in the text.
pub proof fn lemma_first_in_the_rest(
    whole: Seq<char>,
    base: int,
    rest: Seq<char>,
    part: Seq<char>,
    from: int,
)
    requires
        0 <= base <= whole.len(),
        0 <= from,
        rest == whole.skip(base),
    ensures
        first_at(whole, part, base + from) == (match first_at(rest, part, from) {
            Some(at) => Some(base + at),
            None => None,
        }),
    decreases rest.len() - from + 1,
{
    if from + part.len() <= rest.len() {
        assert(rest.subrange(from, from + part.len()) =~= whole.subrange(
            base + from,
            base + from + part.len(),
        ));
        lemma_first_in_the_rest(whole, base, rest, part, from + 1);
    }
}

proof fn lemma_pieces_of_the_rest(
    whole: Seq<char>,
    base: int,
    rest: Seq<char>,
    separator: Seq<char>,
    from: int,
)
    requires
        0 <= base <= whole.len(),
        0 <= from <= rest.len(),
        rest == whole.skip(base),
    ensures
        pieces_from(whole, separator, base + from) == pieces_from(rest, separator, from),
    decreases rest.len() - from,
{
    lemma_first_in_the_rest(whole, base, rest, separator, from);
    lemma_first_at(rest, separator, from);
    match first_at(rest, separator, from) {
        Some(at) => {
            if separator.len() > 0 {
                lemma_pieces_of_the_rest(whole, base, rest, separator, at + separator.len());
                assert(rest.subrange(from, at) =~= whole.subrange(base + from, base + at));
            } else {
                assert(rest.subrange(from, rest.len() as int) =~= whole.subrange(
                    base + from,
                    whole.len() as int,
                ));
            }
        },
        None => {
            assert(rest.subrange(from, rest.len() as int) =~= whole.subrange(
                base + from,
                whole.len() as int,
            ));
        },
    }
}

/// A joined text begins with its first part, a separator, and the other parts joined.
pub proof fn lemma_joined_from_the_front(parts: Seq<Seq<char>>, separator: Seq<char>)
    requires
        parts.len() > 1,
    ensures
        joined(parts, separator) == parts[0] + separator + joined(parts.skip(1), separator),
    decreases parts.len(),
{
    let rest = parts.skip(1);
    if parts.len() > 2 {
        lemma_joined_from_the_front(parts.drop_last(), separator);
        assert(parts.drop_last().skip(1) =~= rest.drop_last());
        assert(joined(parts, separator) =~= parts[0] + separator + joined(rest, separator));
    } else {
        assert(parts.drop_last() =~= seq![parts[0]]);
        assert(joined(parts.drop_last(), separator) == parts[0]);
        assert(joined(rest, separator) == parts[1]);
        assert(joined(parts, separator) =~= parts[0] + separator + joined(rest, separator));
    }
}

/// Texts that were joined by a character that none of them holds are found again by cutting
/// there.
pub proof fn lemma_joined_texts_are_found_again(parts: Seq<Seq<char>>, c: char)
    requires
        parts.len() > 0,
        forall|i: int| 0 <= i < parts.len() ==> lacks(#[trigger] parts[i], c),
    ensures
        pieces(joined(parts, seq![c]), seq![c]) == parts,
    decreases parts.len(),
{
    let text = joined(parts, seq![c]);
    if parts.len() == 1 {
        lemma_no_char(text, c, 0);
        assert(text.subrange(0, text.len() as int) =~= parts[0]);
        assert(pieces(text, seq![c]) =~= parts);
    } else {
        let rest = parts.skip(1);
        let first = parts[0];
        let tail = joined(rest, seq![c]);
        lemma_joined_from_the_front(parts, seq![c]);
        assert forall|i: int| 0 <= i < rest.len() implies lacks(#[trigger] rest[i], c) by {
            assert(rest[i] == parts[i + 1]);
        }
        lemma_joined_texts_are_found_again(rest, c);
        let at = first.len() as int;
        assert(text[at] == c);
        assert forall|i: int| 0 <= i < at implies #[trigger] text[i] != c by {
            assert(text[i] == first[i]);
        }
        lemma_first_char(text, c, 0, at);
        assert(text.subrange(0, at) =~= first);
        assert(text.skip(at + 1) =~= tail);
        lemma_pieces_of_the_rest(text, at + 1, tail, seq![c], 0);
        assert(seq![first] + rest =~= parts);
    }
}

} // verus!
