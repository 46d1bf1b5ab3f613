//! Character-level text operations.
//!
//! A text is modelled by the sequence of its characters. Every operation states
//! its result over that sequence; nothing here depends on byte offsets.

use vstd::prelude::*;

use crate::model::deep;

verus! {

broadcast use crate::model::group_deep;

/// `String::push`: the character becomes the last one of the text, and nothing
/// else changes.
pub assume_specification[ String::push ](text: &mut String, c: char)
    ensures
        final(text)@ == old(text)@.push(c),
;

/// What `char::to_uppercase` gives for a character: its upper case in Unicode, which can
/// be several characters.
pub uninterp spec fn upper_case(c: char) -> Seq<char>;

/// `char::to_uppercase`, its characters taken as a text. The result depends on the
/// character alone.
#[verifier::external_body]
pub(crate) fn to_upper_case(c: char) -> (text: String)
    ensures
        text@ == upper_case(c),
{
    c.to_uppercase().to_string()
}

// ---------------------------------------------------------------------------
// Models
// ---------------------------------------------------------------------------
/// `part` stands in `text` at position `at`.
pub open spec fn occurs_at(text: Seq<char>, part: Seq<char>, at: int) -> bool {
    0 <= at && at + part.len() <= text.len() && text.subrange(at, at + part.len()) == part
}

/// `part` stands somewhere in `text`.
pub open spec fn contains_text(text: Seq<char>, part: Seq<char>) -> bool {
    exists|at: int| #[trigger] occurs_at(text, part, at)
}

/// `text` begins with `prefix`.
pub open spec fn has_prefix(text: Seq<char>, prefix: Seq<char>) -> bool {
    occurs_at(text, prefix, 0)
}

/// `text` ends with `suffix`.
pub open spec fn has_suffix(text: Seq<char>, suffix: Seq<char>) -> bool {
    occurs_at(text, suffix, text.len() - suffix.len())
}

/// What follows `prefix` in `text`, where `text` begins with it.
pub open spec fn after_prefix(text: Seq<char>, prefix: Seq<char>) -> Option<Seq<char>> {
    if has_prefix(text, prefix) {
        Some(text.skip(prefix.len() as int))
    } else {
        None
    }
}

/// What precedes `suffix` in `text`, where `text` ends with it.
pub open spec fn before_suffix(text: Seq<char>, suffix: Seq<char>) -> Option<Seq<char>> {
    if has_suffix(text, suffix) {
        Some(text.take(text.len() - suffix.len()))
    } else {
        None
    }
}

/// The first position at or after `from` at which `part` stands in `text`.
pub open spec fn first_at(text: Seq<char>, part: Seq<char>, from: int) -> Option<int>
    decreases text.len() - from + 1,
{
    if from < 0 || from + part.len() > text.len() {
        None
    } else if occurs_at(text, part, from) {
        Some(from)
    } else {
        first_at(text, part, from + 1)
    }
}

/// The last position before `before` at which the character `c` stands.
pub open spec fn last_char_at(text: Seq<char>, c: char, before: int) -> Option<int>
    decreases before,
{
    if before <= 0 || before > text.len() {
        None
    } else if text[before - 1] == c {
        Some(before - 1)
    } else {
        last_char_at(text, c, before - 1)
    }
}

/// The pieces of `text` between the occurrences of `separator`, read from `from`.
pub open spec fn pieces_from(text: Seq<char>, separator: Seq<char>, from: int) -> Seq<Seq<char>>
    decreases text.len() - from,
{
    match first_at(text, separator, from) {
        Some(at) if separator.len() > 0 && from <= at && at + separator.len() <= text.len() => {
            seq![text.subrange(from, at)] + pieces_from(text, separator, at + separator.len())
        },
        _ => seq![text.subrange(from, text.len() as int)],
    }
}

/// The pieces of `text` between the occurrences of `separator`.
pub open spec fn pieces(text: Seq<char>, separator: Seq<char>) -> Seq<Seq<char>> {
    pieces_from(text, separator, 0)
}

/// What stands before and after the first `c` of `text`.
pub open spec fn cut_first(text: Seq<char>, c: char) -> Option<(Seq<char>, Seq<char>)> {
    match first_at(text, seq![c], 0) {
        Some(at) => Some((text.take(at), text.skip(at + 1))),
        None => None,
    }
}

/// What stands before and after the last `c` of `text`.
pub open spec fn cut_last(text: Seq<char>, c: char) -> Option<(Seq<char>, Seq<char>)> {
    match last_char_at(text, c, text.len() as int) {
        Some(at) => Some((text.take(at), text.skip(at + 1))),
        None => None,
    }
}

/// The number of leading characters of `text`, from `from` on, that satisfy `drop`.
pub open spec fn leading(text: Seq<char>, drop: spec_fn(char) -> bool, from: int) -> int
    decreases text.len() - from,
{
    if from < 0 || from >= text.len() || !drop(text[from]) {
        from
    } else {
        leading(text, drop, from + 1)
    }
}

/// The length of `text`, cut at `to`, without its trailing characters that satisfy `drop`.
pub open spec fn trailing(text: Seq<char>, drop: spec_fn(char) -> bool, to: int) -> int
    decreases to,
{
    if to <= 0 || to > text.len() || !drop(text[to - 1]) {
        to
    } else {
        trailing(text, drop, to - 1)
    }
}

/// `text` without the trailing characters that satisfy `drop`.
pub open spec fn trimmed_end(text: Seq<char>, drop: spec_fn(char) -> bool) -> Seq<char> {
    text.take(trailing(text, drop, text.len() as int))
}

/// `text` without the leading and trailing characters that satisfy `drop`.
pub open spec fn trimmed(text: Seq<char>, drop: spec_fn(char) -> bool) -> Seq<char> {
    let rest = text.skip(leading(text, drop, 0));
    trimmed_end(rest, drop)
}

/// Characters with the Unicode property `White_Space`.
pub open spec fn is_space(c: char) -> bool {
    let code = c as u32;
    ||| 0x09 <= code <= 0x0d
    ||| code == 0x20
    ||| code == 0x85
    ||| code == 0xa0
    ||| code == 0x1680
    ||| 0x2000 <= code <= 0x200a
    ||| code == 0x2028
    ||| code == 0x2029
    ||| code == 0x202f
    ||| code == 0x205f
    ||| code == 0x3000
}

/// The characters equal to `c`.
pub open spec fn char_is(c: char) -> spec_fn(char) -> bool {
    |x: char| x == c
}

/// The white space characters.
pub open spec fn spaces() -> spec_fn(char) -> bool {
    |c: char| is_space(c)
}

/// `text` without surrounding white space.
pub open spec fn trimmed_space(text: Seq<char>) -> Seq<char> {
    trimmed(text, spaces())
}

/// The lines of `text`: the pieces between line feeds, each without one trailing
/// carriage return, and without the empty piece after a final line feed.
pub open spec fn text_lines(text: Seq<char>) -> Seq<Seq<char>> {
    let parts = pieces(text, seq!['\n']);
    let kept = if parts.last().len() == 0 {
        parts.drop_last()
    } else {
        parts
    };
    kept.map(|i: int, line: Seq<char>|
        if i + 1 < parts.len() && line.len() > 0 && line.last() == '\r' {
            line.drop_last()
        } else {
            line
        })
}

/// The parts with `separator` between each two of them.
pub open spec fn joined(parts: Seq<Seq<char>>, separator: Seq<char>) -> Seq<char>
    decreases parts.len(),
{
    if parts.len() == 0 {
        Seq::empty()
    } else if parts.len() == 1 {
        parts[0]
    } else {
        joined(parts.drop_last(), separator) + separator + parts.last()
    }
}

/// `text` with each `c` replaced by `with`.
pub open spec fn replaced(text: Seq<char>, c: char, with: Seq<char>) -> Seq<char>
    decreases text.len(),
{
    if text.len() == 0 {
        Seq::empty()
    } else if text.last() == c {
        replaced(text.drop_last(), c, with) + with
    } else {
        replaced(text.drop_last(), c, with).push(text.last())
    }
}

/// The decimal digit of `value`.
pub open spec fn digit(value: nat) -> char {
    (('0' as u32) + value) as char
}

/// `value` in decimal notation.
pub open spec fn decimal(value: nat) -> Seq<char>
    decreases value,
{
    if value < 10 {
        seq![digit(value)]
    } else {
        decimal(value / 10).push(digit(value % 10))
    }
}

/// `text` comes before `other` in the order of code points.
pub open spec fn text_lt(text: Seq<char>, other: Seq<char>) -> bool
    decreases text.len(),
{
    if other.len() == 0 {
        false
    } else if text.len() == 0 {
        true
    } else if text[0] != other[0] {
        text[0] < other[0]
    } else {
        text_lt(text.drop_first(), other.drop_first())
    }
}

// ---------------------------------------------------------------------------
// Facts about the models
// ---------------------------------------------------------------------------
/// No text comes before itself.
pub proof fn lemma_text_lt_irreflexive(text: Seq<char>)
    ensures
        !text_lt(text, text),
    decreases text.len(),
{
    if text.len() > 0 {
        lemma_text_lt_irreflexive(text.drop_first());
    }
}

/// The order of texts is transitive.
pub proof fn lemma_text_lt_transitive(a: Seq<char>, b: Seq<char>, c: Seq<char>)
    requires
        text_lt(a, b),
        text_lt(b, c),
    ensures
        text_lt(a, c),
    decreases a.len(),
{
    if a.len() > 0 && b.len() > 0 && c.len() > 0 && a[0] == b[0] && b[0] == c[0] {
        lemma_text_lt_transitive(a.drop_first(), b.drop_first(), c.drop_first());
    }
}

/// Two different texts come one before the other.
pub proof fn lemma_text_lt_total(a: Seq<char>, b: Seq<char>)
    ensures
        a == b || text_lt(a, b) || text_lt(b, a),
    decreases a.len(),
{
    if a.len() == 0 || b.len() == 0 {
        assert(a.len() == 0 && b.len() == 0 ==> a =~= b);
    } else if a[0] == b[0] {
        lemma_text_lt_total(a.drop_first(), b.drop_first());
        if a.drop_first() == b.drop_first() {
            assert(a =~= seq![a[0]] + a.drop_first());
            assert(b =~= seq![b[0]] + b.drop_first());
        }
    }
}

/// What `first_at` finds: the first occurrence, if there is one.
pub proof fn lemma_first_at(text: Seq<char>, part: Seq<char>, from: int)
    requires
        0 <= from,
    ensures
        first_at(text, part, from) matches Some(at) ==> from <= at && occurs_at(text, part, at),
        forall|at: int|
            from <= at && #[trigger] occurs_at(text, part, at) ==> (first_at(
                text,
                part,
                from,
            ) matches Some(first) && first <= at),
    decreases text.len() - from + 1,
{
    if from + part.len() > text.len() {
    } else if occurs_at(text, part, from) {
    } else {
        lemma_first_at(text, part, from + 1);
    }
}

/// What `last_char_at` finds: the last occurrence, if there is one.
pub proof fn lemma_last_char_at(text: Seq<char>, c: char, before: int)
    requires
        0 <= before <= text.len(),
    ensures
        last_char_at(text, c, before) matches Some(at) ==> 0 <= at < before && text[at] == c,
        forall|at: int|
            0 <= at < before && #[trigger] text[at] == c ==> (last_char_at(
                text,
                c,
                before,
            ) matches Some(last) && at <= last),
    decreases before,
{
    if before > 0 && text[before - 1] != c {
        lemma_last_char_at(text, c, before - 1);
    }
}

/// A leading count lies between its start and the length.
pub proof fn lemma_leading_bounds(text: Seq<char>, drop: spec_fn(char) -> bool, from: int)
    requires
        0 <= from <= text.len(),
    ensures
        from <= leading(text, drop, from) <= text.len(),
        leading(text, drop, from) < text.len() ==> !drop(text[leading(text, drop, from)]),
        forall|i: int| from <= i < leading(text, drop, from) ==> drop(#[trigger] text[i]),
    decreases text.len() - from,
{
    if from < text.len() && drop(text[from]) {
        lemma_leading_bounds(text, drop, from + 1);
    }
}

/// A trailing cut lies between zero and its start.
pub proof fn lemma_trailing_bounds(text: Seq<char>, drop: spec_fn(char) -> bool, to: int)
    requires
        0 <= to <= text.len(),
    ensures
        0 <= trailing(text, drop, to) <= to,
        trailing(text, drop, to) > 0 ==> !drop(text[trailing(text, drop, to) - 1]),
        forall|i: int| trailing(text, drop, to) <= i < to ==> drop(#[trigger] text[i]),
    decreases to,
{
    if to > 0 && drop(text[to - 1]) {
        lemma_trailing_bounds(text, drop, to - 1);
    }
}

// ---------------------------------------------------------------------------
// Operations
// ---------------------------------------------------------------------------
/// The characters of `text`.
pub fn chars_of(text: &str) -> (chars: Vec<char>)
    ensures
        chars@ == text@,
{
    let mut chars: Vec<char> = Vec::new();
    for c in it: text.chars()
        invariant
            chars@.len() == it.index(),
            forall|i: int| 0 <= i < chars@.len() ==> chars@[i] == it.seq()[i],
            it.seq() == text@,
    {
        chars.push(c);
    }
    assert(chars@ =~= text@);
    chars
}

/// The text of the characters from `from` up to `to`.
pub fn text_between(chars: &Vec<char>, from: usize, to: usize) -> (text: String)
    requires
        from <= to <= chars@.len(),
    ensures
        text@ == chars@.subrange(from as int, to as int),
{
    let mut text = String::new();
    let mut i: usize = from;
    assert(text@ =~= chars@.subrange(from as int, i as int));
    while i < to
        invariant
            from <= i <= to <= chars@.len(),
            text@ == chars@.subrange(from as int, i as int),
        decreases to - i,
    {
        text.push(chars[i]);
        assert(chars@.subrange(from as int, i + 1) =~= chars@.subrange(from as int, i as int).push(
            chars@[i as int],
        ));
        i = i + 1;
    }
    text
}

/// Whether two texts are equal.
pub fn same_text(text: &str, other: &str) -> (same: bool)
    ensures
        same == (text@ == other@),
{
    text.to_owned() == other.to_owned()
}

/// Whether `text` comes before `other` in the order of code points.
pub fn less_text(text: &str, other: &str) -> (less: bool)
    ensures
        less == text_lt(text@, other@),
{
    let left = chars_of(text);
    let right = chars_of(other);
    let mut i: usize = 0;
    assert(left@.skip(0) =~= left@);
    assert(right@.skip(0) =~= right@);
    while i < left.len() && i < right.len() && left[i] == right[i]
        invariant
            i <= left@.len(),
            i <= right@.len(),
            text_lt(left@, right@) == text_lt(left@.skip(i as int), right@.skip(i as int)),
        decreases left@.len() - i,
    {
        assert(left@.skip(i as int).drop_first() =~= left@.skip(i + 1));
        assert(right@.skip(i as int).drop_first() =~= right@.skip(i + 1));
        i = i + 1;
    }
    if i >= right.len() {
        false
    } else if i >= left.len() {
        true
    } else {
        left[i] < right[i]
    }
}

/// Whether `part` stands in `chars` at position `at`.
pub fn stands_at(chars: &Vec<char>, part: &Vec<char>, at: usize) -> (stands: bool)
    ensures
        stands == occurs_at(chars@, part@, at as int),
{
    if at > chars.len() || part.len() > chars.len() - at {
        return false;
    }
    let mut i: usize = 0;
    while i < part.len()
        invariant
            i <= part@.len(),
            at + part@.len() <= chars.len(),
            forall|j: int| 0 <= j < i ==> chars@[at + j] == part@[j],
        decreases part@.len() - i,
    {
        if chars[at + i] != part[i] {
            assert(chars@.subrange(at as int, at + part@.len())[i as int] != part@[i as int]);
            return false;
        }
        i = i + 1;
    }
    assert(chars@.subrange(at as int, at + part@.len()) =~= part@);
    true
}

/// The first position at or after `from` at which `part` stands.
pub fn find_part(chars: &Vec<char>, part: &Vec<char>, from: usize) -> (found: Option<usize>)
    ensures
        found matches Some(at) ==> first_at(chars@, part@, from as int) == Some(at as int) && from
            <= at && at + part.len() <= chars.len() && occurs_at(chars@, part@, at as int),
        found is None ==> first_at(chars@, part@, from as int) is None,
{
    let mut at: usize = from;
    while at <= chars.len() && part.len() <= chars.len() - at
        invariant
            from <= at,
            at <= chars@.len() + 1 || at == from,
            first_at(chars@, part@, from as int) == first_at(chars@, part@, at as int),
        decreases chars@.len() + 1 - at,
    {
        if stands_at(chars, part, at) {
            return Some(at);
        }
        if at == chars.len() {
            assert(first_at(chars@, part@, at + 1) is None);
            return None;
        }
        at = at + 1;
    }
    None
}

/// Whether `part` stands somewhere in `text`.
pub fn contains(text: &str, part: &str) -> (found: bool)
    ensures
        found == contains_text(text@, part@),
{
    let chars = chars_of(text);
    let wanted = chars_of(part);
    let found = find_part(&chars, &wanted, 0);
    proof {
        lemma_first_at(text@, part@, 0);
        assert forall|at: int| #[trigger] occurs_at(text@, part@, at) implies found is Some by {
            assert(0 <= at);
        }
    }
    found.is_some()
}

/// Whether `text` begins with `prefix`.
pub fn starts_with(text: &str, prefix: &str) -> (found: bool)
    ensures
        found == has_prefix(text@, prefix@),
{
    stands_at(&chars_of(text), &chars_of(prefix), 0)
}

/// Whether `text` ends with `suffix`.
pub fn ends_with(text: &str, suffix: &str) -> (found: bool)
    ensures
        found == has_suffix(text@, suffix@),
{
    let chars = chars_of(text);
    let wanted = chars_of(suffix);
    if wanted.len() > chars.len() {
        return false;
    }
    stands_at(&chars, &wanted, chars.len() - wanted.len())
}

/// What follows `prefix` in `text`, where `text` begins with it.
pub fn strip_prefix(text: &str, prefix: &str) -> (rest: Option<String>)
    ensures
        rest.deep_view() == after_prefix(text@, prefix@),
{
    let chars = chars_of(text);
    let wanted = chars_of(prefix);
    if stands_at(&chars, &wanted, 0) {
        let rest = text_between(&chars, wanted.len(), chars.len());
        assert(rest@ =~= text@.skip(prefix@.len() as int));
        Some(rest)
    } else {
        None
    }
}

/// What precedes `suffix` in `text`, where `text` ends with it.
pub fn strip_suffix(text: &str, suffix: &str) -> (rest: Option<String>)
    ensures
        rest.deep_view() == before_suffix(text@, suffix@),
{
    let chars = chars_of(text);
    let wanted = chars_of(suffix);
    if wanted.len() <= chars.len() && stands_at(&chars, &wanted, chars.len() - wanted.len()) {
        let rest = text_between(&chars, 0, chars.len() - wanted.len());
        assert(rest@ =~= text@.take(text@.len() - suffix@.len()));
        Some(rest)
    } else {
        None
    }
}

/// The pieces of `text` between the occurrences of `separator`.
pub fn split(text: &str, separator: &str) -> (parts: Vec<String>)
    requires
        separator@.len() > 0,
    ensures
        deep(parts@) == pieces(text@, separator@),
        parts@.len() > 0,
{
    let chars = chars_of(text);
    let wanted = chars_of(separator);
    let mut parts: Vec<String> = Vec::new();
    let mut from: usize = 0;
    assert(deep(parts@) + pieces_from(chars@, wanted@, 0) =~= pieces_from(chars@, wanted@, 0));
    loop
        invariant
            from <= chars@.len(),
            wanted@.len() > 0,
            pieces(chars@, wanted@) == deep(parts@) + pieces_from(chars@, wanted@, from as int),
        ensures
            pieces(chars@, wanted@) == deep(parts@) + seq![
                chars@.subrange(from as int, chars@.len() as int),
            ],
            from <= chars@.len(),
        decreases chars@.len() - from,
    {
        match find_part(&chars, &wanted, from) {
            Some(at) => {
                let part = text_between(&chars, from, at);
                let ghost before = parts@;
                parts.push(part);
                assert(deep(before) + (seq![part@] + pieces_from(
                    chars@,
                    wanted@,
                    at + wanted@.len(),
                )) =~= deep(parts@) + pieces_from(chars@, wanted@, at + wanted@.len()));
                from = at + wanted.len();
            },
            None => {
                break;
            },
        }
    }
    let part = text_between(&chars, from, chars.len());
    let ghost before = parts@;
    parts.push(part);
    assert(deep(parts@) =~= deep(before) + seq![part@]);
    parts
}

/// What stands before and after the first `c` of `text`.
pub fn split_once(text: &str, c: char) -> (cut: Option<(String, String)>)
    ensures
        cut.deep_view() == cut_first(text@, c),
{
    let chars = chars_of(text);
    let mut wanted: Vec<char> = Vec::new();
    wanted.push(c);
    assert(wanted@ =~= seq![c]);
    match find_part(&chars, &wanted, 0) {
        Some(at) => {
            let head = text_between(&chars, 0, at);
            let tail = text_between(&chars, at + 1, chars.len());
            assert(head@ =~= text@.take(at as int));
            assert(tail@ =~= text@.skip(at + 1));
            Some((head, tail))
        },
        None => None,
    }
}

/// What stands before and after the last `c` of `text`.
pub fn rsplit_once(text: &str, c: char) -> (cut: Option<(String, String)>)
    ensures
        cut.deep_view() == cut_last(text@, c),
{
    let chars = chars_of(text);
    let mut end: usize = chars.len();
    while end > 0
        invariant
            end <= chars@.len(),
            last_char_at(chars@, c, chars@.len() as int) == last_char_at(chars@, c, end as int),
            chars@ == text@,
        decreases end,
    {
        if chars[end - 1] == c {
            let head = text_between(&chars, 0, end - 1);
            let tail = text_between(&chars, end, chars.len());
            assert(head@ =~= text@.take(end - 1));
            assert(tail@ =~= text@.skip(end as int));
            return Some((head, tail));
        }
        end = end - 1;
    }
    None
}

/// `text` without the trailing characters equal to `c`.
pub fn trim_end_matches(text: &str, c: char) -> (trimmed_text: String)
    ensures
        trimmed_text@ == trimmed_end(text@, char_is(c)),
{
    let chars = chars_of(text);
    let mut to: usize = chars.len();
    while to > 0 && chars[to - 1] == c
        invariant
            to <= chars@.len(),
            trailing(chars@, char_is(c), chars@.len() as int) == trailing(
                chars@,
                char_is(c),
                to as int,
            ),
        decreases to,
    {
        to = to - 1;
    }
    let result = text_between(&chars, 0, to);
    assert(result@ =~= chars@.take(to as int));
    result
}

/// `text` without the leading and trailing characters equal to `c`.
pub fn trim_matches(text: &str, c: char) -> (trimmed_text: String)
    ensures
        trimmed_text@ == trimmed(text@, char_is(c)),
{
    let chars = chars_of(text);
    let mut from: usize = 0;
    while from < chars.len() && chars[from] == c
        invariant
            from <= chars@.len(),
            leading(chars@, char_is(c), 0) == leading(chars@, char_is(c), from as int),
        decreases chars@.len() - from,
    {
        from = from + 1;
    }
    let rest = text_between(&chars, from, chars.len());
    assert(rest@ =~= chars@.skip(from as int));
    trim_end_matches(rest.as_str(), c)
}

/// Whether `c` is white space.
pub fn is_whitespace(c: char) -> (space: bool)
    ensures
        space == is_space(c),
{
    let code: u32 = c as u32;
    (0x09 <= code && code <= 0x0d) || code == 0x20 || code == 0x85 || code == 0xa0 || code
        == 0x1680 || (0x2000 <= code && code <= 0x200a) || code == 0x2028 || code == 0x2029 || code
        == 0x202f || code == 0x205f || code == 0x3000
}

/// `text` without surrounding white space.
pub fn trim(text: &str) -> (trimmed_text: String)
    ensures
        trimmed_text@ == trimmed_space(text@),
{
    let chars = chars_of(text);
    let mut from: usize = 0;
    while from < chars.len() && is_whitespace(chars[from])
        invariant
            from <= chars@.len(),
            leading(chars@, spaces(), 0) == leading(chars@, spaces(), from as int),
        decreases chars@.len() - from,
    {
        from = from + 1;
    }
    let ghost rest = chars@.skip(from as int);
    let mut to: usize = chars.len();
    while to > from && is_whitespace(chars[to - 1])
        invariant
            from <= to <= chars@.len(),
            rest == chars@.skip(from as int),
            trailing(rest, spaces(), rest.len() as int) == trailing(rest, spaces(), to - from),
        decreases to,
    {
        assert(rest[to - from - 1] == chars@[to - 1]);
        to = to - 1;
    }
    proof {
        if to > from {
            assert(rest[to - from - 1] == chars@[to - 1]);
        }
    }
    let result = text_between(&chars, from, to);
    assert(result@ =~= rest.take(to - from));
    result
}

/// The parts with `separator` between each two of them.
pub fn join(parts: &Vec<String>, separator: &str) -> (text: String)
    ensures
        text@ == joined(deep(parts@), separator@),
{
    if parts.len() == 0 {
        return String::new();
    }
    let mut text = parts[0].clone();
    let mut i: usize = 1;
    assert(deep(parts@).take(1) =~= seq![parts@[0]@]);
    while i < parts.len()
        invariant
            1 <= i <= parts@.len(),
            text@ == joined(deep(parts@).take(i as int), separator@),
        decreases parts@.len() - i,
    {
        text.append(separator);
        text.append(parts[i].as_str());
        assert(deep(parts@).take(i + 1).drop_last() =~= deep(parts@).take(i as int));
        i = i + 1;
    }
    assert(deep(parts@).take(i as int) =~= deep(parts@));
    text
}

/// `text` with each `c` replaced by `with`.
pub fn replace_char(text: &str, c: char, with: &str) -> (result: String)
    ensures
        result@ == replaced(text@, c, with@),
{
    let chars = chars_of(text);
    let mut result = String::new();
    let mut i: usize = 0;
    assert(chars@.take(0) =~= Seq::<char>::empty());
    while i < chars.len()
        invariant
            i <= chars@.len(),
            result@ == replaced(chars@.take(i as int), c, with@),
        decreases chars@.len() - i,
    {
        assert(chars@.take(i + 1).drop_last() =~= chars@.take(i as int));
        if chars[i] == c {
            result.append(with);
        } else {
            result.push(chars[i]);
        }
        i = i + 1;
    }
    assert(chars@.take(i as int) =~= chars@);
    result
}

/// The lines of `text`.
pub fn lines(text: &str) -> (result: Vec<String>)
    ensures
        deep(result@) == text_lines(text@),
{
    proof {
        reveal_strlit("\n");
        assert("\n"@ =~= seq!['\n']);
    }
    let parts = split(text, "\n");
    let ghost whole = deep(parts@);
    let count: usize = if parts[parts.len() - 1].as_str().is_empty() {
        parts.len() - 1
    } else {
        parts.len()
    };
    let mut result: Vec<String> = Vec::new();
    let mut i: usize = 0;
    while i < count
        invariant
            i <= count <= parts@.len(),
            parts@.len() > 0,
            whole == deep(parts@),
            whole == pieces(text@, seq!['\n']),
            count == (if whole.last().len() == 0 {
                whole.len() - 1
            } else {
                whole.len() as int
            }),
            deep(result@) == text_lines(text@).take(i as int),
        decreases count - i,
    {
        let line = chars_of(parts[i].as_str());
        let kept = if i + 1 < parts.len() && line.len() > 0 && line[line.len() - 1] == '\r' {
            text_between(&line, 0, line.len() - 1)
        } else {
            parts[i].clone()
        };
        result.push(kept);
        assert(text_lines(text@)[i as int] =~= kept@);
        assert(text_lines(text@).take(i + 1) =~= text_lines(text@).take(i as int).push(kept@));
        i = i + 1;
    }
    assert(text_lines(text@).take(i as int) =~= text_lines(text@));
    result
}

/// `value` in decimal notation.
pub fn decimal_text(value: u64) -> (text: String)
    ensures
        text@ == decimal(value as nat),
    decreases value,
{
    let last: char = (48u8 + (value % 10) as u8) as char;
    if value < 10 {
        let mut text = String::new();
        text.push(last);
        assert(text@ =~= seq![digit(value as nat)]);
        text
    } else {
        let mut text = decimal_text(value / 10);
        text.push(last);
        text
    }
}

} // verus!
