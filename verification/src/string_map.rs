//! A map from strings to values, kept as a list of entries in the order in which
//! their keys first appeared.

use crate::text::str_eq;
use vstd::prelude::*;

verus! {

/// No key occurs at two places of `entries`.
pub open spec fn keys_distinct<V>(entries: Seq<(Seq<char>, V)>) -> bool {
    forall|i: int, j: int|
        #![trigger entries[i], entries[j]]
        0 <= i < j < entries.len() ==> entries[i].0 != entries[j].0
}

/// `key` is the key of some entry.
pub open spec fn has_key<V>(entries: Seq<(Seq<char>, V)>, key: Seq<char>) -> bool {
    exists|i: int| 0 <= i < entries.len() && (#[trigger] entries[i]).0 == key
}

/// The place of the entry with this key.
pub open spec fn place_of<V>(entries: Seq<(Seq<char>, V)>, key: Seq<char>) -> int {
    choose|i: int| 0 <= i < entries.len() && (#[trigger] entries[i]).0 == key
}

/// The map that takes the key of each entry to the entry's value.
pub open spec fn entries_map<V>(entries: Seq<(Seq<char>, V)>) -> Map<Seq<char>, V> {
    Map::new(|key: Seq<char>| has_key(entries, key), |key: Seq<char>| entries[place_of(entries, key)].1)
}

/// The entries after `key` was given the value `value`: an entry that has the key keeps
/// its place, and a new one goes to the end.
pub open spec fn entries_insert<V>(entries: Seq<(Seq<char>, V)>, key: Seq<char>, value: V) -> Seq<
    (Seq<char>, V),
> {
    if has_key(entries, key) {
        entries.update(place_of(entries, key), (key, value))
    } else {
        entries.push((key, value))
    }
}

/// The entries without the one that has the key `key`.
pub open spec fn entries_remove<V>(entries: Seq<(Seq<char>, V)>, key: Seq<char>) -> Seq<
    (Seq<char>, V),
> {
    if has_key(entries, key) {
        entries.remove(place_of(entries, key))
    } else {
        entries
    }
}

/// An entry is where its key is.
pub proof fn lemma_place_of<V>(entries: Seq<(Seq<char>, V)>, i: int)
    requires
        keys_distinct(entries),
        0 <= i < entries.len(),
    ensures
        has_key(entries, entries[i].0),
        place_of(entries, entries[i].0) == i,
{
    let p = place_of(entries, entries[i].0);
    assert(has_key(entries, entries[i].0));
    assert(entries[p].0 == entries[i].0);
    if p < i {
        assert(entries[p].0 != entries[i].0);
    }
}

/// Every entry is in the map, and everything in the map is an entry.
pub proof fn lemma_entries_map<V>(entries: Seq<(Seq<char>, V)>)
    requires
        keys_distinct(entries),
    ensures
        forall|j: int|
            0 <= j < entries.len() ==> entries_map(entries).contains_key((#[trigger] entries[j]).0)
                && entries_map(entries)[entries[j].0] == entries[j].1,
        forall|c: Seq<char>| #[trigger]
            entries_map(entries).contains_key(c) ==> 0 <= place_of(entries, c) < entries.len()
                && entries[place_of(entries, c)] == (c, entries_map(entries)[c]),
{
    assert forall|j: int| 0 <= j < entries.len() implies entries_map(entries).contains_key(
        (#[trigger] entries[j]).0,
    ) && entries_map(entries)[entries[j].0] == entries[j].1 by {
        lemma_place_of(entries, j);
    }
}

/// Inserting into the entries inserts into the map, and keeps the keys distinct.
pub proof fn lemma_entries_insert<V>(entries: Seq<(Seq<char>, V)>, key: Seq<char>, value: V)
    requires
        keys_distinct(entries),
    ensures
        keys_distinct(entries_insert(entries, key, value)),
        entries_map(entries_insert(entries, key, value)) == entries_map(entries).insert(key, value),
{
    let after = entries_insert(entries, key, value);
    let p = if has_key(entries, key) {
        place_of(entries, key)
    } else {
        entries.len() as int
    };
    assert(after[p] == (key, value));
    assert forall|i: int| 0 <= i < after.len() && i != p implies after[i] == entries[i]
        && after[i].0 != key by {
        if has_key(entries, key) {
            lemma_place_of(entries, i);
        }
    }
    assert(keys_distinct(after));
    assert forall|k: Seq<char>| #[trigger]
        entries_map(after).dom().contains(k) == entries_map(entries).insert(
            key,
            value,
        ).dom().contains(k) by {
        if has_key(after, k) {
            let i = place_of(after, k);
            if i != p {
                assert(entries[i].0 == k);
            }
        }
        if has_key(entries, k) && k != key {
            let i = place_of(entries, k);
            assert(after[i].0 == k);
        }
        if k == key {
            assert(after[p].0 == k);
        }
    }
    assert forall|k: Seq<char>| #[trigger] entries_map(after).dom().contains(k) implies entries_map(
        after,
    )[k] == entries_map(entries).insert(key, value)[k] by {
        let i = place_of(after, k);
        if k == key {
            lemma_place_of(after, p);
        } else {
            assert(after[i] == entries[i]);
            lemma_place_of(entries, i);
        }
    }
    assert(entries_map(after) =~= entries_map(entries).insert(key, value));
}

/// Removing from the entries removes from the map, and keeps the keys distinct.
pub proof fn lemma_entries_remove<V>(entries: Seq<(Seq<char>, V)>, key: Seq<char>)
    requires
        keys_distinct(entries),
    ensures
        keys_distinct(entries_remove(entries, key)),
        entries_map(entries_remove(entries, key)) == entries_map(entries).remove(key),
{
    let after = entries_remove(entries, key);
    if has_key(entries, key) {
        let p = place_of(entries, key);
        assert(after == entries.remove(p));
        assert forall|i: int| 0 <= i < after.len() implies #[trigger] after[i] == entries[if i < p {
            i
        } else {
            i + 1
        }] by {}
        assert(keys_distinct(after));
        assert forall|k: Seq<char>| #[trigger]
            entries_map(after).dom().contains(k) == entries_map(entries).remove(key).dom().contains(
                k,
            ) by {
            if has_key(after, k) {
                let i = place_of(after, k);
                let j = if i < p {
                    i
                } else {
                    i + 1
                };
                assert(after[i] == entries[j]);
                lemma_place_of(entries, j);
            }
            if has_key(entries, k) && k != key {
                let j = place_of(entries, k);
                let i = if j < p {
                    j
                } else {
                    j - 1
                };
                assert(after[i].0 == k);
            }
        }
        assert forall|k: Seq<char>| #[trigger]
            entries_map(after).dom().contains(k) implies entries_map(after)[k] == entries_map(
            entries,
        ).remove(key)[k] by {
            let i = place_of(after, k);
            let j = if i < p {
                i
            } else {
                i + 1
            };
            assert(after[i] == entries[j]);
            lemma_place_of(entries, j);
        }
        assert(entries_map(after) =~= entries_map(entries).remove(key));
    } else {
        assert(entries_map(entries) =~= entries_map(entries).remove(key));
    }
}

/// A map from strings to values.
#[derive(Debug)]
pub struct StringMap<V> {
    entries: Vec<(String, V)>,
}

impl<V> StringMap<V> {
    #[verifier::type_invariant]
    spec fn well_formed(&self) -> bool {
        forall|i: int, j: int|
            #![trigger self.entries@[i], self.entries@[j]]
            0 <= i < j < self.entries@.len() ==> self.entries@[i].0@ != self.entries@[j].0@
    }
}

impl<V> StringMap<V> {
    /// The keys, in the order in which they first appeared.
    pub closed spec fn keys(&self) -> Seq<Seq<char>> {
        Seq::new(self.entries@.len(), |i: int| self.entries@[i].0@)
    }

    /// The values, each at the place of its key.
    pub closed spec fn values(&self) -> Seq<V> {
        Seq::new(self.entries@.len(), |i: int| self.entries@[i].1)
    }
}

impl<V: View> StringMap<V> {
    /// The entries, in the order in which their keys first appeared.
    pub closed spec fn entries(&self) -> Seq<(Seq<char>, V::V)> {
        Seq::new(self.entries@.len(), |i: int| (self.entries@[i].0@, self.entries@[i].1@))
    }
}

impl<V: View> View for StringMap<V> {
    type V = Map<Seq<char>, V::V>;

    open spec fn view(&self) -> Map<Seq<char>, V::V> {
        entries_map(self.entries())
    }
}

impl<V: View> StringMap<V> {
    /// The map without entries.
    pub fn new() -> (map: StringMap<V>)
        ensures
            map.entries() == Seq::<(Seq<char>, V::V)>::empty(),
            map@ == Map::<Seq<char>, V::V>::empty(),
    {
        let map = StringMap { entries: Vec::new() };
        assert(map.entries() =~= Seq::<(Seq<char>, V::V)>::empty());
        assert(map@ =~= Map::<Seq<char>, V::V>::empty());
        map
    }

    /// The number of entries.
    pub fn len(&self) -> (len: usize)
        ensures
            len == self.entries().len(),
            keys_distinct(self.entries()),
    {
        proof {
            use_type_invariant(self);
        }
        self.entries.len()
    }

    /// Whether there are no entries.
    pub fn is_empty(&self) -> (empty: bool)
        ensures
            empty == (self.entries().len() == 0),
    {
        self.entries.len() == 0
    }

    /// The key of the entry at this place.
    pub fn key_at(&self, i: usize) -> (key: &String)
        requires
            i < self.entries().len(),
        ensures
            key@ == self.entries()[i as int].0,
    {
        &self.entries[i].0
    }

    /// The value of the entry at this place.
    pub fn value_at(&self, i: usize) -> (value: &V)
        requires
            i < self.entries().len(),
        ensures
            value@ == self.entries()[i as int].1,
    {
        &self.entries[i].1
    }

    fn find(&self, key: &str) -> (place: Option<usize>)
        ensures
            keys_distinct(self.entries()),
            match place {
                Some(i) => {
                    &&& i < self.entries().len()
                    &&& has_key(self.entries(), key@)
                    &&& place_of(self.entries(), key@) == i
                },
                None => !has_key(self.entries(), key@),
            },
    {
        proof {
            use_type_invariant(self);
        }
        let mut i: usize = 0;
        while i < self.entries.len()
            invariant
                i <= self.entries.len(),
                keys_distinct(self.entries()),
                forall|j: int| 0 <= j < i ==> (#[trigger] self.entries()[j]).0 != key@,
            decreases self.entries.len() - i,
        {
            if str_eq(self.entries[i].0.as_str(), key) {
                proof {
                    lemma_place_of(self.entries(), i as int);
                }
                return Some(i);
            }
            i += 1;
        }
        None
    }

    /// Whether there is an entry with this key.
    pub fn contains_key(&self, key: &str) -> (found: bool)
        ensures
            found == self@.contains_key(key@),
    {
        match self.find(key) {
            Some(_) => true,
            None => false,
        }
    }

    /// The value of the entry with this key.
    pub fn get(&self, key: &str) -> (value: Option<&V>)
        ensures
            match value {
                Some(v) => self@.contains_key(key@) && v@ == self@[key@],
                None => !self@.contains_key(key@),
            },
    {
        match self.find(key) {
            Some(i) => Some(&self.entries[i].1),
            None => None,
        }
    }

    /// Gives `key` the value `value`, whether or not it had one before.
    pub fn insert(&mut self, key: String, value: V)
        ensures
            final(self)@ == old(self)@.insert(key@, value@),
            final(self).entries() == entries_insert(old(self).entries(), key@, value@),
    {
        let ghost before = self.entries();
        let place = self.find(key.as_str());
        proof {
            lemma_entries_insert(before, key@, value@);
        }
        let ghost after = entries_insert(before, key@, value@);
        let mut entries: Vec<(String, V)> = Vec::new();
        std::mem::swap(&mut entries, &mut self.entries);
        match place {
            Some(i) => {
                entries.set(i, (key, value));
            },
            None => {
                entries.push((key, value));
            },
        }
        assert(after =~= Seq::new(entries@.len(), |i: int| (entries@[i].0@, entries@[i].1@)));
        assert forall|i: int, j: int|
            #![trigger entries@[i], entries@[j]]
            0 <= i < j < entries@.len() implies entries@[i].0@ != entries@[j].0@ by {
            assert(after[i].0 != after[j].0);
        }
        self.entries = entries;
    }

    /// Drops the entry with this key, if there is one, and gives its value.
    pub fn remove(&mut self, key: &str) -> (removed: Option<V>)
        ensures
            match removed {
                Some(v) => old(self)@.contains_key(key@) && v@ == old(self)@[key@],
                None => !old(self)@.contains_key(key@),
            },
            final(self)@ == old(self)@.remove(key@),
            final(self).entries() == entries_remove(old(self).entries(), key@),
    {
        let ghost before = self.entries();
        let place = self.find(key);
        proof {
            lemma_entries_remove(before, key@);
        }
        if let Some(i) = place {
            let ghost after = entries_remove(before, key@);
            let mut entries: Vec<(String, V)> = Vec::new();
            std::mem::swap(&mut entries, &mut self.entries);
            let ghost held = entries@;
            let dropped = entries.remove(i);
            assert((held[i as int].0@, held[i as int].1@) == before[i as int]);
            assert(after =~= Seq::new(entries@.len(), |i: int| (entries@[i].0@, entries@[i].1@)));
            assert forall|i: int, j: int|
                #![trigger entries@[i], entries@[j]]
                0 <= i < j < entries@.len() implies entries@[i].0@ != entries@[j].0@ by {
                assert(after[i].0 != after[j].0);
            }
            self.entries = entries;
            Some(dropped.1)
        } else {
            None
        }
    }
}

impl<V: Clone> Clone for StringMap<V> {
    /// A map with the same keys, and clones of the values.
    fn clone(&self) -> (copy: StringMap<V>)
        ensures
            copy.keys() == self.keys(),
            copy.values().len() == self.values().len(),
            forall|i: int|
                0 <= i < self.values().len() ==> cloned::<V>(
                    #[trigger] self.values()[i],
                    copy.values()[i],
                ),
    {
        proof {
            use_type_invariant(self);
        }
        let mut entries: Vec<(String, V)> = Vec::new();
        let mut i: usize = 0;
        while i < self.entries.len()
            invariant
                i <= self.entries@.len(),
                entries@.len() == i,
                forall|j: int|
                    0 <= j < i ==> (#[trigger] entries@[j]).0 == self.entries@[j].0 && cloned::<V>(
                        self.entries@[j].1,
                        entries@[j].1,
                    ),
            decreases self.entries@.len() - i,
        {
            let entry = &self.entries[i];
            entries.push((entry.0.clone(), entry.1.clone()));
            i += 1;
        }
        let copy = StringMap { entries };
        assert(copy.keys() =~= self.keys());
        assert forall|i: int| 0 <= i < self.values().len() implies cloned::<V>(
            #[trigger] self.values()[i],
            copy.values()[i],
        ) by {
            assert(copy.entries@[i].0 == self.entries@[i].0);
        }
        copy
    }
}

impl StringMap<String> {
    /// Another map with the same entries.
    pub fn duplicate(&self) -> (copy: StringMap<String>)
        ensures
            copy.entries() == self.entries(),
            copy@ == self@,
    {
        proof {
            use_type_invariant(self);
        }
        let mut entries: Vec<(String, String)> = Vec::new();
        let mut i: usize = 0;
        while i < self.entries.len()
            invariant
                i <= self.entries@.len(),
                entries@.len() == i,
                forall|j: int| 0 <= j < i ==> #[trigger] entries@[j] == self.entries@[j],
            decreases self.entries@.len() - i,
        {
            let entry = &self.entries[i];
            entries.push((entry.0.clone(), entry.1.clone()));
            i += 1;
        }
        let copy = StringMap { entries };
        assert(copy.entries() =~= self.entries());
        copy
    }
}

/// Entries keep their places when a key is given a value; a key that is new goes to the end. When
/// one is removed, those after it move up.
pub proof fn law_entries_keep_order<V>(
    entries: Seq<(Seq<char>, V)>,
    key: Seq<char>,
    value: V,
    i: int,
)
    requires
        keys_distinct(entries),
        0 <= i < entries.len(),
    ensures
        entries[i].0 != key ==> entries_insert(entries, key, value)[i] == entries[i],
        entries[i].0 == key ==> {
            &&& entries_insert(entries, key, value)[i] == (key, value)
            &&& entries_insert(entries, key, value).len() == entries.len()
            &&& entries_remove(entries, key) == entries.take(i) + entries.skip(i + 1)
        },
        (forall|j: int| 0 <= j < entries.len() ==> (#[trigger] entries[j]).0 != key) ==> {
            &&& entries_insert(entries, key, value) == entries.push((key, value))
            &&& entries_remove(entries, key) == entries
        },
{
    lemma_place_of(entries, i);
    if entries[i].0 == key {
        assert(entries.remove(i) =~= entries.take(i) + entries.skip(i + 1));
    }
}

} // verus!
