//! Laws of maps with text keys: what is put in is found, and what is put in later is found in
//! its place.

use vstd::prelude::*;

use crate::digest::{hex, hex_digit};
use crate::textmap::{inserted, TextKey};

verus! {

/// A map that is made of entries holds, for each key among them, the value of the last entry
/// with that key; what it held before under other keys stays.
pub proof fn lemma_later_entries_count<K: TextKey, V: DeepView>(
    map: Map<Seq<char>, V::V>,
    entries: Seq<(K, V)>,
    count: int,
)
    requires
        0 <= count <= entries.len(),
    ensures
        forall|i: int|
            0 <= i < count && (forall|j: int|
                i < j < count ==> (#[trigger] entries[j]).0.deep_view()
                    != entries[i].0.deep_view()) ==> inserted(map, entries, count).contains_key(
                (#[trigger] entries[i]).0.deep_view(),
            ) && inserted(map, entries, count)[entries[i].0.deep_view()]
                == entries[i].1.deep_view(),
        forall|key: Seq<char>|
            (forall|j: int| 0 <= j < count ==> (#[trigger] entries[j]).0.deep_view() != key)
                ==> #[trigger] inserted(map, entries, count).contains_key(key) == map.contains_key(
                key,
            ) && inserted(map, entries, count)[key] == map[key],
    decreases count,
{
    if count > 0 {
        lemma_later_entries_count(map, entries, count - 1);
        let before = inserted(map, entries, count - 1);
        let now = inserted(map, entries, count);
        let last = entries[count - 1];
        assert forall|i: int|
            0 <= i < count && (forall|j: int|
                i < j < count ==> (#[trigger] entries[j]).0.deep_view()
                    != entries[i].0.deep_view()) implies now.contains_key(
            (#[trigger] entries[i]).0.deep_view(),
        ) && now[entries[i].0.deep_view()] == entries[i].1.deep_view() by {
            if i < count - 1 {
                assert(entries[count - 1].0.deep_view() != entries[i].0.deep_view());
                assert(before.contains_key(entries[i].0.deep_view()));
            }
        }
        assert forall|key: Seq<char>|
            (forall|j: int|
                0 <= j < count ==> (#[trigger] entries[j]).0.deep_view()
                    != key) implies #[trigger] now.contains_key(key) == map.contains_key(key)
            && now[key] == map[key] by {
            assert(entries[count - 1].0.deep_view() != key);
            assert(before.contains_key(key) == map.contains_key(key));
        }
    }
}

/// The hexadecimal text of bytes has two digits for each of them, in order: the higher half
/// first.
pub proof fn lemma_bytes_have_two_digits(bytes: Seq<u8>)
    ensures
        hex(bytes).len() == 2 * bytes.len(),
        forall|i: int|
            0 <= i < bytes.len() ==> hex(bytes)[2 * i] == hex_digit(
                #[trigger] bytes[i] as int / 16,
            ) && hex(bytes)[2 * i + 1] == hex_digit(bytes[i] as int % 16),
    decreases bytes.len(),
{
    if bytes.len() > 0 {
        let rest = bytes.drop_last();
        lemma_bytes_have_two_digits(rest);
        let before = hex(rest);
        let text = hex(bytes);
        assert forall|i: int| 0 <= i < bytes.len() implies text[2 * i] == hex_digit(
            #[trigger] bytes[i] as int / 16,
        ) && text[2 * i + 1] == hex_digit(bytes[i] as int % 16) by {
            if i < rest.len() {
                assert(rest[i] == bytes[i]);
                assert(text[2 * i] == before[2 * i]);
                assert(text[2 * i + 1] == before[2 * i + 1]);
            }
        }
    }
}

/// The digits are told apart: zero to nine, then a to f.
pub proof fn lemma_digits_are_told_apart(value: int)
    requires
        0 <= value < 16,
    ensures
        hex_digit(value) == "0123456789abcdef"@[value],
{
    reveal_strlit("0123456789abcdef");
}

} // verus!
