//! A small map keyed by text.

use vstd::prelude::*;

use crate::text::{lists_text, same_text};
#[allow(unused_imports)]
use crate::text::texts;

verus! {

/// A map from texts to values, kept as a list of entries; of two entries for one key the later
/// counts.
#[derive(Debug, PartialEq)]
pub struct TextMap<V> {
    /// The entries, oldest first.
    pub entries: Vec<(String, V)>,
}

/// The map that a list of entries stands for.
pub open spec fn entries_map<V>(entries: Seq<(String, V)>) -> Map<Seq<char>, V>
    decreases entries.len(),
{
    if entries.len() == 0 {
        Map::empty()
    } else {
        entries_map(entries.drop_last()).insert(entries.last().0@, entries.last().1)
    }
}

impl<V> View for TextMap<V> {
    type V = Map<Seq<char>, V>;

    open spec fn view(&self) -> Map<Seq<char>, V> {
        entries_map(self.entries@)
    }
}

/// The contents of a map of strings.
pub open spec fn text_values(map: Map<Seq<char>, String>) -> Map<Seq<char>, Seq<char>> {
    map.map_values(|value: String| value@)
}

/// A map kept as a list has finitely many keys.
pub proof fn lemma_entries_finite<V>(entries: Seq<(String, V)>)
    ensures
        entries_map(entries).dom().finite(),
    decreases entries.len(),
{
    if entries.len() > 0 {
        lemma_entries_finite(entries.drop_last());
    }
}

/// Appending an entry sets its key.
pub proof fn lemma_entries_push<V>(entries: Seq<(String, V)>, key: String, value: V)
    ensures
        entries_map(entries.push((key, value))) == entries_map(entries).insert(key@, value),
{
    assert(entries.push((key, value)).drop_last() =~= entries);
}

/// The keys of the map are the keys of its entries.
pub proof fn lemma_entries_keys<V>(entries: Seq<(String, V)>, key: Seq<char>)
    ensures
        entries_map(entries).contains_key(key) <==> exists|i: int|
            0 <= i < entries.len() && #[trigger] entries[i].0@ == key,
    decreases entries.len(),
{
    if entries.len() > 0 {
        let rest = entries.drop_last();
        lemma_entries_keys(rest, key);
        if rest.len() > 0 && entries_map(rest).contains_key(key) {
            let i = choose|i: int| 0 <= i < rest.len() && #[trigger] rest[i].0@ == key;
            assert(entries[i].0@ == key);
        }
        if exists|i: int| 0 <= i < entries.len() && #[trigger] entries[i].0@ == key {
            let i = choose|i: int| 0 <= i < entries.len() && #[trigger] entries[i].0@ == key;
            if i < rest.len() {
                assert(rest[i].0@ == key);
            }
        }
        if entries.last().0@ == key {
            assert(entries[entries.len() - 1].0@ == key);
        }
    }
}

/// Taking an entry out of the list leaves the other keys as they were.
proof fn lemma_entries_remove<V>(entries: Seq<(String, V)>, i: int, key: Seq<char>)
    requires
        0 <= i < entries.len(),
        entries[i].0@ != key,
    ensures
        entries_map(entries.remove(i)).contains_key(key) == entries_map(entries).contains_key(key),
        entries_map(entries).contains_key(key) ==> entries_map(entries.remove(i))[key]
            == entries_map(entries)[key],
    decreases entries.len(),
{
    if i == entries.len() - 1 {
        assert(entries.remove(i) =~= entries.drop_last());
    } else {
        let rest = entries.drop_last();
        assert(entries.remove(i).drop_last() =~= rest.remove(i));
        assert(entries.remove(i).last() == entries.last());
        lemma_entries_remove(rest, i, key);
    }
}

impl<V> TextMap<V> {
    /// The map without keys.
    pub fn new() -> (map: Self)
        ensures
            map@ == Map::<Seq<char>, V>::empty(),
    {
        TextMap { entries: Vec::new() }
    }

    /// The value of a key.
    pub fn get(&self, key: &str) -> (value: Option<&V>)
        ensures
            match value {
                Some(value) => self@.contains_key(key@) && self@[key@] == *value,
                None => !self@.contains_key(key@),
            },
    {
        let mut i: usize = self.entries.len();
        assert(self.entries@.take(i as int) =~= self.entries@);
        while i > 0
            invariant
                i <= self.entries@.len(),
                entries_map(self.entries@.take(i as int)).contains_key(key@) == self@.contains_key(
                    key@,
                ),
                self@.contains_key(key@) ==> entries_map(self.entries@.take(i as int))[key@]
                    == self@[key@],
            decreases i,
        {
            assert(self.entries@.take(i as int).drop_last() =~= self.entries@.take(i - 1));
            if same_text(self.entries[i - 1].0.as_str(), key) {
                return Some(&self.entries[i - 1].1);
            }
            i -= 1;
        }
        None
    }

    /// Whether a key is present.
    pub fn contains(&self, key: &str) -> (present: bool)
        ensures
            present == self@.contains_key(key@),
    {
        self.get(key).is_some()
    }

    /// The keys, each once.
    pub fn keys(&self) -> (keys: Vec<String>)
        ensures
            texts(keys@).no_duplicates(),
            forall|key: Seq<char>| #[trigger] texts(keys@).contains(key) <==> self@.contains_key(key),
    {
        let mut keys: Vec<String> = Vec::new();
        let mut i: usize = 0;
        assert(self.entries@.take(0) =~= seq![]);
        while i < self.entries.len()
            invariant
                i <= self.entries@.len(),
                texts(keys@).no_duplicates(),
                forall|key: Seq<char>| #[trigger]
                    texts(keys@).contains(key) <==> entries_map(
                        self.entries@.take(i as int),
                    ).contains_key(key),
            decreases self.entries@.len() - i,
        {
            let ghost before = texts(keys@);
            let ghost key = self.entries@[i as int].0@;
            assert(self.entries@.take(i + 1).drop_last() =~= self.entries@.take(i as int));
            if !lists_text(&keys, self.entries[i].0.as_str()) {
                keys.push(self.entries[i].0.clone());
                assert(texts(keys@) =~= before.push(key));
            }
            assert forall|k: Seq<char>| #[trigger] texts(keys@).contains(k) <==> before.contains(k)
                || k == key by {
                if before.contains(k) && texts(keys@) == before.push(key) {
                    let j = choose|j: int| 0 <= j < before.len() && before[j] == k;
                    assert(before.push(key)[j] == k);
                }
                if k == key && texts(keys@) == before.push(key) {
                    assert(before.push(key)[before.len() as int] == k);
                }
            }
            i += 1;
        }
        assert(self.entries@.take(i as int) =~= self.entries@);
        keys
    }

    /// Takes a key out.
    pub fn remove(&mut self, key: &str)
        ensures
            final(self)@ == old(self)@.remove(key@),
    {
        let ghost before = self@;
        let mut i: usize = 0;
        while i < self.entries.len()
            invariant
                i <= self.entries@.len(),
                forall|j: int| 0 <= j < i ==> #[trigger] self.entries@[j].0@ != key@,
                forall|k: Seq<char>|
                    k != key@ ==> (#[trigger] self@.contains_key(k) == before.contains_key(k) && (
                    before.contains_key(k) ==> self@[k] == before[k])),
            decreases self.entries@.len() - i,
        {
            if same_text(self.entries[i].0.as_str(), key) {
                let ghost list = self.entries@;
                let ghost map = self@;
                self.entries.remove(i);
                proof {
                    assert(self.entries@ =~= list.remove(i as int));
                    assert forall|k: Seq<char>| k != key@ implies (#[trigger] self@.contains_key(k)
                        == before.contains_key(k) && (before.contains_key(k) ==> self@[k]
                        == before[k])) by {
                        lemma_entries_remove(list, i as int, k);
                        assert(map.contains_key(k) == before.contains_key(k));
                    }
                }
            } else {
                i += 1;
            }
        }
        proof {
            lemma_entries_keys(self.entries@, key@);
            assert(self@ =~= before.remove(key@));
        }
    }

    /// Sets the value of a key.
    pub fn insert(&mut self, key: String, value: V)
        ensures
            final(self)@ == old(self)@.insert(key@, value),
    {
        let ghost before = self@;
        self.remove(key.as_str());
        proof {
            lemma_entries_push(self.entries@, key, value);
            assert(before.remove(key@).insert(key@, value) =~= before.insert(key@, value));
        }
        self.entries.push((key, value));
    }
}

/// The value of a key is that of the last entry with the key; a key that no entry has is not there.
pub proof fn law_the_last_entry_counts<V>(entries: Seq<(String, V)>, key: Seq<char>, last: int)
    requires
        -1 <= last < entries.len(),
        last >= 0 ==> entries[last].0@ == key,
        forall|i: int| last < i < entries.len() ==> (#[trigger] entries[i]).0@ != key,
    ensures
        entries_map(entries).contains_key(key) <==> last >= 0,
        last >= 0 ==> entries_map(entries)[key] == entries[last].1,
    decreases entries.len(),
{
    if entries.len() > 0 && last < entries.len() - 1 {
        let rest = entries.drop_last();
        assert(entries[entries.len() - 1].0@ != key);
        assert forall|i: int| last < i < rest.len() implies (#[trigger] rest[i]).0@ != key by {
            assert(rest[i] == entries[i]);
        }
        law_the_last_entry_counts(rest, key, last);
    }
}

/// Reading a key gives what was last set under it, and setting or taking out a key leaves the
/// others.
pub proof fn law_keys_are_independent<V>(
    map: &mut TextMap<V>,
    key: String,
    value: V,
    name: &str,
    read: Option<&V>,
    other: Seq<char>,
)
    requires
        call_ensures(TextMap::<V>::insert, (map, key, value), ()),
        call_ensures(TextMap::<V>::get, (&*final(map), name), read),
        name@ == key@,
    ensures
        read matches Some(found) && *found == value,
        other != key@ ==> final(map)@.contains_key(other) == old(map)@.contains_key(other),
        other != key@ && old(map)@.contains_key(other) ==> final(map)@[other] == old(map)@[other],
{
}

/// The texts of a map stand under the keys of their strings.
pub proof fn law_text_values_keep_their_keys(map: Map<Seq<char>, String>, key: Seq<char>)
    ensures
        text_values(map).contains_key(key) <==> map.contains_key(key),
        map.contains_key(key) ==> text_values(map)[key] == map[key]@,
{
}

/// Taking a key out leaves the others, and the keys are listed each once.
pub proof fn law_a_key_is_taken_out_alone<V>(
    map: &mut TextMap<V>,
    key: &str,
    keys: Vec<String>,
    present: bool,
    other: Seq<char>,
)
    requires
        call_ensures(TextMap::<V>::remove, (map, key), ()),
        call_ensures(TextMap::<V>::keys, (&*old(map),), keys),
        call_ensures(TextMap::<V>::contains, (&*old(map), key), present),
    ensures
        !final(map)@.contains_key(key@),
        other != key@ ==> final(map)@.contains_key(other) == old(map)@.contains_key(other),
        other != key@ && old(map)@.contains_key(other) ==> final(map)@[other] == old(map)@[other],
        texts(keys@).no_duplicates(),
        texts(keys@).contains(other) <==> old(map)@.contains_key(other),
        present <==> old(map)@.contains_key(key@),
{
}

/// A new map holds nothing.
pub proof fn law_a_map_begins_empty<V>(map: TextMap<V>, key: Seq<char>)
    requires
        call_ensures(TextMap::<V>::new, (), map),
    ensures
        !map@.contains_key(key),
{
}

} // verus!
