//! Maps and sets whose keys are texts, held in the order of their keys.

use vstd::prelude::*;

use crate::model::deep;
use crate::text::{
    lemma_text_lt_irreflexive, lemma_text_lt_total, lemma_text_lt_transitive, less_text, same_text,
    text_lt,
};

verus! {

broadcast use crate::model::group_deep;

/// A key that is compared and found by its text.
pub trait TextKey: DeepView<V = Seq<char>> + Sized {
    /// The text of the key.
    fn key(&self) -> (text: &str)
        ensures
            text@ == self.deep_view(),
    ;
}

impl TextKey for String {
    fn key(&self) -> (text: &str) {
        self.as_str()
    }
}

/// The keys stand in strictly increasing order, so no key stands twice.
pub open spec fn keys_ordered<K: TextKey, V>(items: Seq<(K, V)>) -> bool {
    forall|i: int, j: int|
        0 <= i < j < items.len() ==> #[trigger] text_lt(
            items[i].0.deep_view(),
            items[j].0.deep_view(),
        )
}

/// The texts stand in strictly increasing order, so none stands twice.
pub open spec fn texts_ordered(items: Seq<Seq<char>>) -> bool {
    forall|i: int, j: int| 0 <= i < j < items.len() ==> #[trigger] text_lt(items[i], items[j])
}

/// The entry at `i` has the key `key`.
pub open spec fn key_at<K: TextKey, V>(items: Seq<(K, V)>, key: Seq<char>, i: int) -> bool {
    0 <= i < items.len() && items[i].0.deep_view() == key
}

/// Some entry has the key `key`.
pub open spec fn has_key<K: TextKey, V>(items: Seq<(K, V)>, key: Seq<char>) -> bool {
    exists|i: int| #[trigger] key_at(items, key, i)
}

/// The entry whose key is `key`.
pub open spec fn entry_of<K: TextKey, V>(items: Seq<(K, V)>, key: Seq<char>) -> Option<(K, V)> {
    if has_key(items, key) {
        Some(items[choose|i: int| #[trigger] key_at(items, key, i)])
    } else {
        None
    }
}

/// The value whose key is `key`.
pub open spec fn lookup<K: TextKey, V>(items: Seq<(K, V)>, key: Seq<char>) -> Option<V> {
    match entry_of(items, key) {
        Some(entry) => Some(entry.1),
        None => None,
    }
}

/// The mapping from the texts of the keys to what the values hold.
pub open spec fn mapping<K: TextKey, V: DeepView>(items: Seq<(K, V)>) -> Map<Seq<char>, V::V> {
    Map::new(
        |key: Seq<char>| has_key(items, key),
        |key: Seq<char>| lookup(items, key)->0.deep_view(),
    )
}

/// In ordered entries a key has one place.
pub proof fn lemma_key_once<K: TextKey, V>(items: Seq<(K, V)>, i: int, j: int)
    requires
        keys_ordered(items),
        0 <= i < items.len(),
        0 <= j < items.len(),
        items[i].0.deep_view() == items[j].0.deep_view(),
    ensures
        i == j,
{
    lemma_text_lt_irreflexive(items[i].0.deep_view());
    if i < j {
        assert(text_lt(items[i].0.deep_view(), items[j].0.deep_view()));
    } else if j < i {
        assert(text_lt(items[j].0.deep_view(), items[i].0.deep_view()));
    }
}

/// In ordered entries, looking up the key of an entry gives that entry.
pub proof fn lemma_entry_of<K: TextKey, V>(items: Seq<(K, V)>, i: int)
    requires
        keys_ordered(items),
        0 <= i < items.len(),
    ensures
        entry_of(items, items[i].0.deep_view()) == Some(items[i]),
        lookup(items, items[i].0.deep_view()) == Some(items[i].1),
{
    let key = items[i].0.deep_view();
    assert(key_at(items, key, i));
    let j = choose|j: int| #[trigger] key_at(items, key, j);
    lemma_key_once(items, i, j);
}

/// Placing an entry where its key belongs keeps the order and adds it to the mapping.
proof fn lemma_place<K: TextKey, V: DeepView>(items: Seq<(K, V)>, at: int, key: K, value: V)
    requires
        keys_ordered(items),
        0 <= at <= items.len(),
        forall|i: int| 0 <= i < at ==> text_lt(#[trigger] items[i].0.deep_view(), key.deep_view()),
        at < items.len() ==> text_lt(key.deep_view(), items[at].0.deep_view()),
    ensures
        keys_ordered(items.insert(at, (key, value))),
        mapping(items.insert(at, (key, value))) == mapping(items).insert(
            key.deep_view(),
            value.deep_view(),
        ),
{
    lemma_place_order(items, at, key, value);
    let placed = items.insert(at, (key, value));
    let added = mapping(items).insert(key.deep_view(), value.deep_view());
    assert forall|k: Seq<char>| mapping(placed).contains_key(k) == added.contains_key(k) by {
        if has_key(items, k) {
            let i = choose|i: int| #[trigger] key_at(items, k, i);
            let j = if i < at {
                i
            } else {
                i + 1
            };
            assert(key_at(placed, k, j));
        }
        if has_key(placed, k) && k != key.deep_view() {
            let j = choose|j: int| #[trigger] key_at(placed, k, j);
            let i = if j < at {
                j
            } else {
                j - 1
            };
            assert(key_at(items, k, i));
        }
        if k == key.deep_view() {
            assert(key_at(placed, k, at));
        }
    }
    assert forall|k: Seq<char>| mapping(placed).contains_key(k) implies mapping(placed)[k]
        == added[k] by {
        if k == key.deep_view() {
            lemma_entry_of(placed, at);
        } else {
            let j = choose|j: int| #[trigger] key_at(placed, k, j);
            assert(key_at(
                items,
                k,
                if j < at {
                    j
                } else {
                    j - 1
                },
            ));
            let i = choose|i: int| #[trigger] key_at(items, k, i);
            lemma_entry_of(items, i);
            let j = if i < at {
                i
            } else {
                i + 1
            };
            lemma_entry_of(placed, j);
        }
    }
    assert(mapping(placed) =~= added);
}

proof fn lemma_place_order<K: TextKey, V>(items: Seq<(K, V)>, at: int, key: K, value: V)
    requires
        keys_ordered(items),
        0 <= at <= items.len(),
        forall|i: int| 0 <= i < at ==> text_lt(#[trigger] items[i].0.deep_view(), key.deep_view()),
        at < items.len() ==> text_lt(key.deep_view(), items[at].0.deep_view()),
    ensures
        keys_ordered(items.insert(at, (key, value))),
{
    let placed = items.insert(at, (key, value));
    assert forall|i: int, j: int| 0 <= i < j < placed.len() implies #[trigger] text_lt(
        placed[i].0.deep_view(),
        placed[j].0.deep_view(),
    ) by {
        let i0 = if i < at {
            i
        } else {
            i - 1
        };
        let j0 = if j < at {
            j
        } else {
            j - 1
        };
        if i != at && j != at {
            assert(text_lt(items[i0].0.deep_view(), items[j0].0.deep_view()));
        } else if j == at {
            assert(text_lt(items[i0].0.deep_view(), key.deep_view()));
        } else {
            assert(text_lt(key.deep_view(), items[at].0.deep_view()));
            if j0 > at {
                assert(text_lt(items[at].0.deep_view(), items[j0].0.deep_view()));
                lemma_text_lt_transitive(
                    key.deep_view(),
                    items[at].0.deep_view(),
                    items[j0].0.deep_view(),
                );
            }
        }
    }
}

/// Changing the value of an entry changes the mapping at its key alone.
proof fn lemma_change<K: TextKey, V: DeepView>(items: Seq<(K, V)>, at: int, key: K, value: V)
    requires
        keys_ordered(items),
        0 <= at < items.len(),
        key.deep_view() == items[at].0.deep_view(),
    ensures
        keys_ordered(items.update(at, (key, value))),
        mapping(items.update(at, (key, value))) == mapping(items).insert(
            items[at].0.deep_view(),
            value.deep_view(),
        ),
{
    let changed = items.update(at, (key, value));
    let added = mapping(items).insert(key.deep_view(), value.deep_view());
    assert forall|i: int, j: int| 0 <= i < j < changed.len() implies #[trigger] text_lt(
        changed[i].0.deep_view(),
        changed[j].0.deep_view(),
    ) by {
        assert(text_lt(items[i].0.deep_view(), items[j].0.deep_view()));
    }
    assert forall|k: Seq<char>| mapping(changed).contains_key(k) == added.contains_key(k) by {
        if has_key(items, k) {
            let i = choose|i: int| #[trigger] key_at(items, k, i);
            assert(key_at(changed, k, i));
        }
        if has_key(changed, k) {
            let i = choose|i: int| #[trigger] key_at(changed, k, i);
            assert(key_at(items, k, i));
        }
        if k == key.deep_view() {
            assert(key_at(changed, k, at));
        }
    }
    assert forall|k: Seq<char>| mapping(changed).contains_key(k) implies mapping(changed)[k]
        == added[k] by {
        let i = choose|i: int| #[trigger] key_at(changed, k, i);
        lemma_entry_of(changed, i);
        lemma_entry_of(items, i);
        if k == key.deep_view() {
            lemma_key_once(changed, i, at);
        }
    }
    assert(mapping(changed) =~= added);
}

/// A map whose keys are texts. Its entries stand in the order of their keys.
#[derive(Debug, PartialEq, Eq)]
pub struct TextMap<K: TextKey, V> {
    entries: Vec<(K, V)>,
}

impl<K: TextKey, V: DeepView> DeepView for TextMap<K, V> {
    type V = Map<Seq<char>, V::V>;

    open spec fn deep_view(&self) -> Map<Seq<char>, V::V> {
        mapping(self.items())
    }
}

impl<K: TextKey, V> TextMap<K, V> {
    /// The entries in the order of their keys.
    pub closed spec fn items(&self) -> Seq<(K, V)> {
        self.entries@
    }

    #[verifier::type_invariant]
    spec fn ordered(self) -> bool {
        keys_ordered(self.entries@)
    }

    /// The number of entries.
    pub fn len(&self) -> (count: usize)
        ensures
            count == self.items().len(),
            keys_ordered(self.items()),
    {
        proof {
            use_type_invariant(self);
        }
        self.entries.len()
    }

    /// Whether there is no entry.
    pub fn is_empty(&self) -> (empty: bool)
        ensures
            empty == (self.items().len() == 0),
    {
        self.entries.len() == 0
    }

    /// The key of the entry at `i`, in the order of the keys.
    pub fn key_at(&self, i: usize) -> (key: &K)
        requires
            i < self.items().len(),
        ensures
            *key == self.items()[i as int].0,
    {
        &self.entries[i].0
    }

    /// The value of the entry at `i`, in the order of the keys.
    pub fn value_at(&self, i: usize) -> (value: &V)
        requires
            i < self.items().len(),
        ensures
            *value == self.items()[i as int].1,
    {
        &self.entries[i].1
    }

    /// The place of the entry whose key is `key`.
    pub fn position(&self, key: &str) -> (place: Option<usize>)
        ensures
            keys_ordered(self.items()),
            match place {
                Some(i) => i < self.items().len() && self.items()[i as int].0.deep_view() == key@
                    && entry_of(self.items(), key@) == Some(self.items()[i as int]) && lookup(
                    self.items(),
                    key@,
                ) == Some(self.items()[i as int].1),
                None => !has_key(self.items(), key@),
            },
    {
        proof {
            use_type_invariant(self);
        }
        let mut i: usize = 0;
        while i < self.entries.len()
            invariant
                i <= self.entries@.len(),
                keys_ordered(self.entries@),
                forall|j: int| 0 <= j < i ==> !#[trigger] key_at(self.entries@, key@, j),
            decreases self.entries@.len() - i,
        {
            if same_text(self.entries[i].0.key(), key) {
                proof {
                    lemma_entry_of(self.entries@, i as int);
                }
                return Some(i);
            }
            i = i + 1;
        }
        None
    }

    /// The value whose key is `key`.
    pub fn get(&self, key: &str) -> (value: Option<&V>)
        ensures
            match value {
                Some(found) => lookup(self.items(), key@) == Some(*found),
                None => lookup(self.items(), key@) is None,
            },
            value is Some == has_key(self.items(), key@),
    {
        match self.position(key) {
            Some(i) => Some(&self.entries[i].1),
            None => None,
        }
    }

    /// Whether some entry has the key `key`.
    pub fn contains_key(&self, key: &str) -> (found: bool)
        ensures
            found == has_key(self.items(), key@),
    {
        self.position(key).is_some()
    }
}

impl<K: TextKey, V: DeepView> TextMap<K, V> {
    /// The map without entries.
    pub fn new() -> (map: Self)
        ensures
            map.deep_view() == Map::<Seq<char>, V::V>::empty(),
            map.items().len() == 0,
    {
        let map = TextMap { entries: Vec::new() };
        assert(mapping(map.entries@) =~= Map::<Seq<char>, V::V>::empty());
        map
    }

    /// Sets the value at `key`.
    pub fn insert(&mut self, key: K, value: V)
        ensures
            final(self).deep_view() == old(self).deep_view().insert(
                key.deep_view(),
                value.deep_view(),
            ),
    {
        proof {
            use_type_invariant(&*self);
        }
        let mut at: usize = 0;
        while at < self.entries.len() && less_text(self.entries[at].0.key(), key.key())
            invariant
                at <= self.entries@.len(),
                *self == *old(self),
                keys_ordered(self.entries@),
                forall|i: int|
                    0 <= i < at ==> text_lt(
                        #[trigger] self.entries@[i].0.deep_view(),
                        key.deep_view(),
                    ),
            decreases self.entries@.len() - at,
        {
            at = at + 1;
        }
        if at < self.entries.len() && same_text(self.entries[at].0.key(), key.key()) {
            proof {
                lemma_change(self.entries@, at as int, key, value);
            }
            let mut entries: Vec<(K, V)> = Vec::new();
            core::mem::swap(&mut self.entries, &mut entries);
            entries.set(at, (key, value));
            self.entries = entries;
        } else {
            proof {
                if at < self.entries@.len() {
                    lemma_text_lt_total(self.entries@[at as int].0.deep_view(), key.deep_view());
                }
                lemma_place(self.entries@, at as int, key, value);
            }
            let mut entries: Vec<(K, V)> = Vec::new();
            core::mem::swap(&mut self.entries, &mut entries);
            entries.insert(at, (key, value));
            self.entries = entries;
        }
    }

    /// The value at `key`, by what it holds.
    pub fn value(&self, key: &str) -> (value: Option<&V>)
        ensures
            match value {
                Some(found) => self.deep_view().contains_key(key@) && self.deep_view()[key@]
                    == found.deep_view(),
                None => !self.deep_view().contains_key(key@),
            },
    {
        self.get(key)
    }
}

impl<K: TextKey, V: DeepView> TextMap<K, V> {
    /// The map of the given entries; of two with one key the later one counts.
    pub fn from_entries(entries: Vec<(K, V)>) -> (map: Self)
        ensures
            map.deep_view() == inserted(Map::empty(), entries@, entries@.len() as int),
    {
        let mut map: TextMap<K, V> = TextMap::new();
        let ghost all = entries@;
        let count: usize = entries.len();
        let mut rest = entries;
        let mut reversed: Vec<(K, V)> = Vec::new();
        while rest.len() > 0
            invariant
                count == all.len(),
                rest@.len() + reversed@.len() == count,
                rest@ == all.take(rest@.len() as int),
                forall|i: int| 0 <= i < reversed@.len() ==> reversed@[i] == all[count - 1 - i],
            decreases rest@.len(),
        {
            let entry = rest.pop();
            match entry {
                Some(entry) => {
                    reversed.push(entry);
                },
                None => {},
            }
        }
        let mut done: usize = 0;
        while done < count
            invariant
                done <= count == all.len(),
                reversed@.len() == count - done,
                forall|i: int| 0 <= i < reversed@.len() ==> reversed@[i] == all[count - 1 - i],
                map.deep_view() == inserted(Map::empty(), all, done as int),
            decreases count - done,
        {
            let entry = reversed.pop();
            match entry {
                Some(entry) => {
                    map.insert(entry.0, entry.1);
                },
                None => {},
            }
            done = done + 1;
        }
        map
    }
}

/// `map` after the first `count` of `entries` have been inserted in turn.
pub open spec fn inserted<K: TextKey, V: DeepView>(
    map: Map<Seq<char>, V::V>,
    entries: Seq<(K, V)>,
    count: int,
) -> Map<Seq<char>, V::V>
    decreases count,
{
    if count <= 0 {
        map
    } else {
        inserted(map, entries, count - 1).insert(
            entries[count - 1].0.deep_view(),
            entries[count - 1].1.deep_view(),
        )
    }
}

impl<V: DeepView + Clone> TextMap<String, V> {
    /// A map with the same entries, where cloning keeps what a value holds.
    pub fn duplicate(&self) -> (map: Self)
        requires
            forall|value: V, copy: V|
                #![trigger call_ensures(V::clone, (&value,), copy)]
                call_ensures(V::clone, (&value,), copy) ==> copy.deep_view() == value.deep_view(),
            forall|value: &V| #[trigger] call_requires(V::clone, (value,)),
        ensures
            map.deep_view() == self.deep_view(),
    {
        proof {
            use_type_invariant(self);
        }
        let mut entries: Vec<(String, V)> = Vec::new();
        let mut i: usize = 0;
        while i < self.entries.len()
            invariant
                i == entries@.len() <= self.entries@.len(),
                forall|j: int|
                    0 <= j < i ==> #[trigger] entries@[j].0@ == self.entries@[j].0@
                        && entries@[j].1.deep_view() == self.entries@[j].1.deep_view(),
                forall|value: V, copy: V|
                    #![trigger call_ensures(V::clone, (&value,), copy)]
                    call_ensures(V::clone, (&value,), copy) ==> copy.deep_view()
                        == value.deep_view(),
                forall|value: &V| #[trigger] call_requires(V::clone, (value,)),
            decreases self.entries@.len() - i,
        {
            let key = self.entries[i].0.clone();
            let value = self.entries[i].1.clone();
            entries.push((key, value));
            i = i + 1;
        }
        proof {
            lemma_same_mapping(self.entries@, entries@);
        }
        TextMap { entries }
    }
}

/// The keys of entries.
pub open spec fn key_set<K: TextKey, V>(items: Seq<(K, V)>) -> Set<Seq<char>> {
    Set::new(|key: Seq<char>| has_key(items, key))
}

impl<K: TextKey, V> TextMap<K, V> {
    /// Adds the keys to a set.
    pub fn add_keys(&self, set: &mut TextSet)
        ensures
            final(set).deep_view() == old(set).deep_view().union(key_set(self.items())),
    {
        let ghost start = set.deep_view();
        let ghost items = self.entries@;
        let mut i: usize = 0;
        assert(start.union(key_set(items.take(0))) =~= start);
        while i < self.entries.len()
            invariant
                i <= self.entries@.len(),
                items == self.entries@,
                set.deep_view() == start.union(key_set(items.take(i as int))),
            decreases self.entries@.len() - i,
        {
            let ghost before = set.deep_view();
            let ghost one = items[i as int].0.deep_view();
            set.insert(self.entries[i].0.key().to_owned());
            proof {
                assert forall|key: Seq<char>| #[trigger]
                    has_key(items.take(i + 1), key) == (has_key(items.take(i as int), key) || key
                        == one) by {
                    if has_key(items.take(i as int), key) {
                        let k = choose|k: int| #[trigger] key_at(items.take(i as int), key, k);
                        assert(key_at(items.take(i + 1), key, k));
                    }
                    if key == one {
                        assert(key_at(items.take(i + 1), key, i as int));
                    }
                    if has_key(items.take(i + 1), key) {
                        let k = choose|k: int| #[trigger] key_at(items.take(i + 1), key, k);
                        if k < i {
                            assert(key_at(items.take(i as int), key, k));
                        }
                    }
                }
                assert(before.insert(one) =~= start.union(key_set(items.take(i + 1))));
            }
            i = i + 1;
        }
        assert(items.take(i as int) =~= items);
    }
}

impl TextMap<String, String> {
    /// Adds the entries of `others`; where both have a key, that of `others` counts.
    pub fn extend_from(&mut self, others: &TextMap<String, String>)
        ensures
            final(self).deep_view() == old(self).deep_view().union_prefer_right(
                others.deep_view(),
            ),
    {
        let ghost start = self.deep_view();
        let ghost items = others.items();
        let count: usize = others.len();
        let mut i: usize = 0;
        proof {
            assert(mapping(items.take(0)) =~= Map::empty());
            assert(start.union_prefer_right(mapping(items.take(0))) =~= start);
        }
        while i < count
            invariant
                i <= count == items.len(),
                items == others.items(),
                keys_ordered(items),
                self.deep_view() == start.union_prefer_right(mapping(items.take(i as int))),
            decreases count - i,
        {
            let key = others.key_at(i).clone();
            let value = others.value_at(i).clone();
            let ghost before = self.deep_view();
            proof {
                lemma_mapping_grows(items, i as int);
                assert(before.insert(key@, value@) =~= start.union_prefer_right(
                    mapping(items.take(i + 1)),
                ));
            }
            self.insert(key, value);
            i = i + 1;
        }
        assert(items.take(i as int) =~= items);
    }
}

/// One more entry of ordered entries adds its value to the mapping.
pub proof fn lemma_mapping_grows<K: TextKey, V: DeepView>(items: Seq<(K, V)>, at: int)
    requires
        keys_ordered(items),
        0 <= at < items.len(),
    ensures
        keys_ordered(items.take(at)),
        mapping(items.take(at + 1)) == mapping(items.take(at)).insert(
            items[at].0.deep_view(),
            items[at].1.deep_view(),
        ),
{
    let before = items.take(at);
    assert forall|i: int, j: int| 0 <= i < j < before.len() implies #[trigger] text_lt(
        before[i].0.deep_view(),
        before[j].0.deep_view(),
    ) by {
        assert(text_lt(items[i].0.deep_view(), items[j].0.deep_view()));
    }
    assert forall|i: int| 0 <= i < at implies text_lt(
        #[trigger] before[i].0.deep_view(),
        items[at].0.deep_view(),
    ) by {
        assert(text_lt(items[i].0.deep_view(), items[at].0.deep_view()));
    }
    lemma_place(before, at, items[at].0, items[at].1);
    assert(items.take(at + 1) =~= before.insert(at, items[at]));
}

/// Entries that hold the same in the same places are ordered alike and map alike.
proof fn lemma_same_mapping<V: DeepView>(items: Seq<(String, V)>, others: Seq<(String, V)>)
    requires
        keys_ordered(items),
        items.len() == others.len(),
        forall|j: int|
            0 <= j < items.len() ==> #[trigger] others[j].0@ == items[j].0@
                && others[j].1.deep_view() == items[j].1.deep_view(),
    ensures
        keys_ordered(others),
        mapping(others) == mapping(items),
{
    assert forall|i: int, j: int| 0 <= i < j < others.len() implies #[trigger] text_lt(
        others[i].0.deep_view(),
        others[j].0.deep_view(),
    ) by {
        assert(others[i].0@ == items[i].0@);
        assert(others[j].0@ == items[j].0@);
        assert(text_lt(items[i].0.deep_view(), items[j].0.deep_view()));
    }
    assert forall|k: Seq<char>| has_key(others, k) == has_key(items, k) by {
        if has_key(items, k) {
            let i = choose|i: int| #[trigger] key_at(items, k, i);
            assert(others[i].0@ == items[i].0@);
            assert(key_at(others, k, i));
        }
        if has_key(others, k) {
            let i = choose|i: int| #[trigger] key_at(others, k, i);
            assert(others[i].0@ == items[i].0@);
            assert(key_at(items, k, i));
        }
    }
    assert forall|k: Seq<char>| mapping(items).contains_key(k) implies mapping(others)[k]
        == mapping(items)[k] by {
        let i = choose|i: int| #[trigger] key_at(items, k, i);
        assert(others[i].0@ == items[i].0@);
        lemma_entry_of(items, i);
        lemma_entry_of(others, i);
    }
    assert(mapping(others) =~= mapping(items));
}

// ---------------------------------------------------------------------------
// Sets
// ---------------------------------------------------------------------------
/// The set of the texts that stand in `items`.
pub open spec fn members(items: Seq<Seq<char>>) -> Set<Seq<char>> {
    Set::new(|text: Seq<char>| items.contains(text))
}

/// The members of a set of texts in their order.
pub open spec fn sorted(texts: Set<Seq<char>>) -> Seq<Seq<char>> {
    choose|items: Seq<Seq<char>>| texts_ordered(items) && #[trigger] members(items) == texts
}

/// Two ordered sequences of the same texts are one sequence.
pub proof fn lemma_ordered_once(items: Seq<Seq<char>>, others: Seq<Seq<char>>)
    requires
        texts_ordered(items),
        texts_ordered(others),
        members(items) == members(others),
    ensures
        items == others,
    decreases items.len(),
{
    if items.len() == 0 {
        if others.len() > 0 {
            assert(others.contains(others[0]));
            assert(members(others).contains(others[0]));
            assert(members(items).contains(others[0]));
        }
        assert(items =~= others);
    } else {
        let last = items.last();
        assert(items.contains(last));
        assert(members(items).contains(last));
        assert(members(others).contains(last));
        let j = others.index_of(last);
        assert(others.contains(others.last()));
        assert(members(others).contains(others.last()));
        assert(members(items).contains(others.last()));
        let i = items.index_of(others.last());
        if last != others.last() {
            assert(text_lt(others[j], others[others.len() - 1]));
            assert(text_lt(items[i], items[items.len() - 1]));
            lemma_text_lt_transitive(last, others.last(), last);
            lemma_text_lt_irreflexive(last);
        }
        lemma_take_text(items, items.len() - 1);
        lemma_take_text(others, others.len() - 1);
        assert(items.drop_last() =~= items.remove(items.len() - 1));
        assert(others.drop_last() =~= others.remove(others.len() - 1));
        lemma_ordered_once(items.drop_last(), others.drop_last());
        assert(items =~= items.drop_last().push(last));
        assert(others =~= others.drop_last().push(last));
    }
}

/// An ordered sequence is the ordered sequence of its members.
pub proof fn lemma_sorted(items: Seq<Seq<char>>)
    requires
        texts_ordered(items),
    ensures
        sorted(members(items)) == items,
{
    let found = sorted(members(items));
    assert(texts_ordered(found) && members(found) == members(items));
    lemma_ordered_once(found, items);
}

/// The entries of a map in the order of its keys.
pub open spec fn listing<T>(map: Map<Seq<char>, T>) -> Seq<(Seq<char>, T)> {
    let keys = sorted(map.dom());
    Seq::new(keys.len(), |i: int| (keys[i], map[keys[i]]))
}

/// The entries of a map are listed as they stand.
pub proof fn lemma_listing<K: TextKey, V: DeepView>(items: Seq<(K, V)>)
    requires
        keys_ordered(items),
    ensures
        listing(mapping(items)).len() == items.len(),
        forall|i: int|
            0 <= i < items.len() ==> #[trigger] listing(mapping(items))[i] == (
                items[i].0.deep_view(),
                items[i].1.deep_view(),
            ),
{
    let map = mapping(items);
    let keys = Seq::new(items.len(), |i: int| items[i].0.deep_view());
    assert(texts_ordered(keys));
    assert forall|key: Seq<char>| members(keys).contains(key) == map.dom().contains(key) by {
        if keys.contains(key) {
            let i = choose|i: int| 0 <= i < keys.len() && keys[i] == key;
            assert(key_at(items, key, i));
        }
        if has_key(items, key) {
            let i = choose|i: int| #[trigger] key_at(items, key, i);
            assert(keys[i] == key);
        }
    }
    assert(members(keys) =~= map.dom());
    lemma_sorted(keys);
    assert forall|i: int| 0 <= i < items.len() implies #[trigger] listing(map)[i] == (
        items[i].0.deep_view(),
        items[i].1.deep_view(),
    ) by {
        lemma_entry_of(items, i);
        assert(key_at(items, keys[i], i));
    }
}

/// The place in an ordered listing before which every text is smaller than another one.
spec fn place_below(items: Seq<Seq<char>>, text: Seq<char>, from: int) -> int
    decreases items.len() - from,
{
    if from < 0 || from >= items.len() || !text_lt(items[from], text) {
        from
    } else {
        place_below(items, text, from + 1)
    }
}

proof fn lemma_place_below(items: Seq<Seq<char>>, text: Seq<char>, from: int)
    requires
        0 <= from <= items.len(),
        forall|i: int| 0 <= i < from ==> text_lt(#[trigger] items[i], text),
    ensures
        from <= place_below(items, text, from) <= items.len(),
        forall|i: int|
            0 <= i < place_below(items, text, from) ==> text_lt(#[trigger] items[i], text),
        place_below(items, text, from) < items.len() ==> !text_lt(
            items[place_below(items, text, from)],
            text,
        ),
    decreases items.len() - from,
{
    if from < items.len() && text_lt(items[from], text) {
        lemma_place_below(items, text, from + 1);
    }
}

/// The texts of any listing can be listed in their order, each of them once.
pub proof fn lemma_sorted_members(items: Seq<Seq<char>>)
    ensures
        texts_ordered(sorted(members(items))),
        members(sorted(members(items))) == members(items),
    decreases items.len(),
{
    if items.len() == 0 {
        lemma_sorted(items);
    } else {
        let rest = items.drop_last();
        let text = items.last();
        lemma_sorted_members(rest);
        let ordered = sorted(members(rest));
        let at = place_below(ordered, text, 0);
        lemma_place_below(ordered, text, 0);
        assert(members(items) =~= members(rest).insert(text)) by {
            assert forall|t: Seq<char>| #[trigger] items.contains(t) == (rest.contains(t) || t
                == text) by {
                if rest.contains(t) {
                    let i = rest.index_of(t);
                    assert(items[i] == t);
                }
                if items.contains(t) && t != text {
                    let i = items.index_of(t);
                    assert(rest[i] == t);
                }
                if t == text {
                    assert(items[items.len() - 1] == t);
                }
            }
        }
        if at < ordered.len() && ordered[at] == text {
            assert(ordered.contains(text));
            assert(members(ordered).contains(text));
            assert(members(rest).insert(text) =~= members(rest));
            lemma_sorted(ordered);
        } else {
            if at < ordered.len() {
                lemma_text_lt_total(ordered[at], text);
            }
            lemma_place_text(ordered, at, text);
            lemma_sorted(ordered.insert(at, text));
        }
    }
}

/// A set of texts. Its members stand in their order.
#[derive(Debug, PartialEq, Eq)]
pub struct TextSet {
    names: Vec<String>,
}

impl DeepView for TextSet {
    type V = Set<Seq<char>>;

    open spec fn deep_view(&self) -> Set<Seq<char>> {
        members(self.items())
    }
}

/// Placing a text where it belongs keeps the order and adds it to the set.
proof fn lemma_place_text(items: Seq<Seq<char>>, at: int, text: Seq<char>)
    requires
        texts_ordered(items),
        0 <= at <= items.len(),
        forall|i: int| 0 <= i < at ==> text_lt(#[trigger] items[i], text),
        at < items.len() ==> text_lt(text, items[at]),
    ensures
        texts_ordered(items.insert(at, text)),
        members(items.insert(at, text)) == members(items).insert(text),
{
    let placed = items.insert(at, text);
    assert forall|i: int, j: int| 0 <= i < j < placed.len() implies #[trigger] text_lt(
        placed[i],
        placed[j],
    ) by {
        let i0 = if i < at {
            i
        } else {
            i - 1
        };
        let j0 = if j < at {
            j
        } else {
            j - 1
        };
        if i != at && j != at {
            assert(text_lt(items[i0], items[j0]));
        } else if j == at {
            assert(text_lt(items[i0], text));
        } else {
            assert(text_lt(text, items[at]));
            if j0 > at {
                assert(text_lt(items[at], items[j0]));
                lemma_text_lt_transitive(text, items[at], items[j0]);
            }
        }
    }
    assert forall|t: Seq<char>| #[trigger] placed.contains(t) == (items.contains(t) || t
        == text) by {
        if items.contains(t) {
            let i = items.index_of(t);
            let j = if i < at {
                i
            } else {
                i + 1
            };
            assert(placed[j] == t);
        }
        if t == text {
            assert(placed[at] == t);
        }
        if placed.contains(t) && t != text {
            let j = placed.index_of(t);
            let i = if j < at {
                j
            } else {
                j - 1
            };
            assert(items[i] == t);
        }
    }
    assert(members(placed) =~= members(items).insert(text));
}

/// Taking a text out of an ordered sequence keeps the order and takes it out of the set.
proof fn lemma_take_text(items: Seq<Seq<char>>, at: int)
    requires
        texts_ordered(items),
        0 <= at < items.len(),
    ensures
        texts_ordered(items.remove(at)),
        members(items.remove(at)) == members(items).remove(items[at]),
{
    let rest = items.remove(at);
    assert forall|i: int, j: int| 0 <= i < j < rest.len() implies #[trigger] text_lt(
        rest[i],
        rest[j],
    ) by {
        let i0 = if i < at {
            i
        } else {
            i + 1
        };
        let j0 = if j < at {
            j
        } else {
            j + 1
        };
        assert(text_lt(items[i0], items[j0]));
    }
    assert forall|t: Seq<char>| #[trigger] rest.contains(t) == (items.contains(t) && t
        != items[at]) by {
        if items.contains(t) && t != items[at] {
            let i = items.index_of(t);
            let j = if i < at {
                i
            } else {
                i - 1
            };
            assert(rest[j] == t);
        }
        if rest.contains(t) {
            let j = rest.index_of(t);
            let i = if j < at {
                j
            } else {
                j + 1
            };
            assert(items[i] == t);
            if t == items[at] {
                lemma_text_lt_irreflexive(t);
                if i < at {
                    assert(text_lt(items[i], items[at]));
                } else {
                    assert(text_lt(items[at], items[i]));
                }
            }
        }
    }
    assert(members(rest) =~= members(items).remove(items[at]));
}

impl TextSet {
    /// The members in their order.
    pub closed spec fn items(&self) -> Seq<Seq<char>> {
        deep(self.names@)
    }

    #[verifier::type_invariant]
    spec fn ordered(self) -> bool {
        texts_ordered(deep(self.names@))
    }

    /// The set without members.
    pub fn new() -> (set: Self)
        ensures
            set.deep_view() == Set::<Seq<char>>::empty(),
            set.items() == Seq::<Seq<char>>::empty(),
    {
        let set = TextSet { names: Vec::new() };
        assert(members(deep(set.names@)) =~= Set::<Seq<char>>::empty());
        set
    }

    /// The set of the given texts.
    pub fn from_texts(texts: &Vec<String>) -> (set: Self)
        ensures
            set.deep_view() == members(deep(texts@)),
    {
        let ghost all = deep(texts@);
        let mut set = TextSet::new();
        let mut i: usize = 0;
        assert(members(all.take(0)) =~= Set::<Seq<char>>::empty());
        while i < texts.len()
            invariant
                i <= texts@.len(),
                all == deep(texts@),
                set.deep_view() == members(all.take(i as int)),
            decreases texts@.len() - i,
        {
            let ghost before = set.deep_view();
            set.insert(texts[i].clone());
            proof {
                let one = texts@[i as int]@;
                assert(all[i as int] == one);
                assert forall|text: Seq<char>| #[trigger]
                    all.take(i + 1).contains(text) == (all.take(i as int).contains(text) || text
                        == one) by {
                    if all.take(i as int).contains(text) {
                        let k = all.take(i as int).index_of(text);
                        assert(all.take(i + 1)[k] == text);
                    }
                    if text == one {
                        assert(all.take(i + 1)[i as int] == text);
                    }
                    if all.take(i + 1).contains(text) {
                        let k = all.take(i + 1).index_of(text);
                        if k < i {
                            assert(all.take(i as int)[k] == text);
                        }
                    }
                }
                assert(before.insert(one) =~= members(all.take(i + 1)));
            }
            i = i + 1;
        }
        assert(all.take(i as int) =~= all);
        set
    }

    /// The number of members.
    pub fn len(&self) -> (count: usize)
        ensures
            count == self.items().len(),
            texts_ordered(self.items()),
            self.items() == sorted(self.deep_view()),
    {
        proof {
            use_type_invariant(self);
            lemma_sorted(self.items());
        }
        self.names.len()
    }

    /// The member at `i`, in the order of the members.
    pub fn at(&self, i: usize) -> (name: &String)
        requires
            i < self.items().len(),
        ensures
            name@ == self.items()[i as int],
    {
        &self.names[i]
    }

    /// The place at which `text` stands or belongs.
    fn place(&self, text: &str) -> (at: usize)
        ensures
            texts_ordered(self.items()),
            at <= self.items().len(),
            forall|i: int| 0 <= i < at ==> text_lt(#[trigger] self.items()[i], text@),
            at < self.items().len() ==> self.items()[at as int] == text@ || text_lt(
                text@,
                self.items()[at as int],
            ),
    {
        proof {
            use_type_invariant(self);
        }
        let mut at: usize = 0;
        while at < self.names.len() && less_text(self.names[at].as_str(), text)
            invariant
                at <= self.names@.len(),
                texts_ordered(deep(self.names@)),
                forall|i: int| 0 <= i < at ==> text_lt(#[trigger] deep(self.names@)[i], text@),
            decreases self.names@.len() - at,
        {
            at = at + 1;
        }
        proof {
            if at < self.names@.len() {
                lemma_text_lt_total(self.names@[at as int]@, text@);
            }
        }
        at
    }

    /// Whether `text` is a member.
    pub fn contains(&self, text: &str) -> (found: bool)
        ensures
            found == self.deep_view().contains(text@),
    {
        let at = self.place(text);
        if at < self.names.len() && same_text(self.names[at].as_str(), text) {
            assert(self.items()[at as int] == text@);
            true
        } else {
            proof {
                if self.items().contains(text@) {
                    let i = self.items().index_of(text@);
                    lemma_text_lt_irreflexive(text@);
                    if i < at {
                        assert(text_lt(self.items()[i], text@));
                    } else if i > at {
                        assert(text_lt(text@, self.items()[at as int]));
                        assert(text_lt(self.items()[at as int], self.items()[i]));
                        lemma_text_lt_transitive(text@, self.items()[at as int], text@);
                    }
                }
            }
            false
        }
    }

    /// Adds `text`.
    pub fn insert(&mut self, text: String)
        ensures
            final(self).deep_view() == old(self).deep_view().insert(text@),
    {
        let at = self.place(text.as_str());
        if at < self.names.len() && same_text(self.names[at].as_str(), text.as_str()) {
            assert(self.items()[at as int] == text@);
            assert(self.deep_view() =~= self.deep_view().insert(text@));
        } else {
            proof {
                lemma_place_text(deep(self.names@), at as int, text@);
                assert(deep(self.names@.insert(at as int, text)) =~= deep(self.names@).insert(
                    at as int,
                    text@,
                ));
            }
            let mut names: Vec<String> = Vec::new();
            core::mem::swap(&mut self.names, &mut names);
            names.insert(at, text);
            self.names = names;
        }
    }

    /// Takes `text` out.
    pub fn remove(&mut self, text: &str)
        ensures
            final(self).deep_view() == old(self).deep_view().remove(text@),
    {
        if !self.contains(text) {
            assert(self.deep_view() =~= self.deep_view().remove(text@));
            return ;
        }
        let at = self.place(text);
        proof {
            let i = self.items().index_of(text@);
            lemma_text_lt_irreflexive(text@);
            if i < at {
                assert(text_lt(self.items()[i], text@));
            } else if i > at && self.items()[at as int] != text@ {
                assert(text_lt(text@, self.items()[at as int]));
                assert(text_lt(self.items()[at as int], self.items()[i]));
                lemma_text_lt_transitive(text@, self.items()[at as int], text@);
            }
            lemma_take_text(deep(self.names@), at as int);
            assert(deep(self.names@.remove(at as int)) =~= deep(self.names@).remove(at as int));
        }
        let mut names: Vec<String> = Vec::new();
        core::mem::swap(&mut self.names, &mut names);
        let _removed = names.remove(at);
        self.names = names;
    }
}

} // verus!
