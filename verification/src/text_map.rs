//! Maps with texts for keys.

use crate::text;
use vstd::prelude::*;

verus! {

/// A map from texts to small values.
#[derive(Debug, PartialEq, Eq)]
pub struct TextMap<T> {
    entries: Vec<(String, T)>,
}

/// The map that a list of entries stands for: the last entry of a key counts.
pub open spec fn map_of<T>(entries: Seq<(String, T)>) -> Map<Seq<char>, T>
    decreases entries.len(),
{
    if entries.len() == 0 {
        Map::empty()
    } else {
        map_of(entries.drop_last()).insert(entries.last().0@, entries.last().1)
    }
}

proof fn lemma_map_of_push<T>(entries: Seq<(String, T)>, key: String, value: T)
    ensures
        map_of(entries.push((key, value))) == map_of(entries).insert(key@, value),
{
    assert(entries.push((key, value)).drop_last() =~= entries);
}

proof fn lemma_map_of_keys<T>(entries: Seq<(String, T)>, key: Seq<char>)
    ensures
        map_of(entries).contains_key(key) == (exists|i: int|
            0 <= i < entries.len() && (#[trigger] entries[i]).0@ == key),
    decreases entries.len(),
{
    if entries.len() > 0 {
        let before = entries.drop_last();
        lemma_map_of_keys(before, key);
        if map_of(before).contains_key(key) {
            let i = choose|i: int| 0 <= i < before.len() && (#[trigger] before[i]).0@ == key;
            assert(entries[i].0@ == key);
        }
        if exists|i: int| 0 <= i < entries.len() && (#[trigger] entries[i]).0@ == key {
            let i = choose|i: int| 0 <= i < entries.len() && (#[trigger] entries[i]).0@ == key;
            if i < before.len() {
                assert(before[i].0@ == key);
            }
        }
        assert(entries[entries.len() - 1].0@ == entries.last().0@);
    }
}

impl<T> View for TextMap<T> {
    type V = Map<Seq<char>, T>;

    closed spec fn view(&self) -> Map<Seq<char>, T> {
        map_of(self.entries@)
    }
}

impl<T: Copy> TextMap<T> {
    /// The empty map.
    pub fn new() -> (r: Self)
        ensures
            r@ == Map::<Seq<char>, T>::empty(),
    {
        TextMap { entries: Vec::new() }
    }

    /// What the map holds under `key`.
    pub fn get(&self, key: &str) -> (r: Option<T>)
        ensures
            r == (if self@.contains_key(key@) {
                Some(self@[key@])
            } else {
                None
            }),
    {
        let mut i: usize = self.entries.len();
        proof {
            assert(self.entries@.take(i as int) =~= self.entries@);
        }
        while i > 0
            invariant
                i <= self.entries@.len(),
                map_of(self.entries@).contains_key(key@) == map_of(
                    self.entries@.take(i as int),
                ).contains_key(key@),
                map_of(self.entries@).contains_key(key@) ==> map_of(self.entries@)[key@] == map_of(
                    self.entries@.take(i as int),
                )[key@],
            decreases i,
        {
            i = i - 1;
            let ghost first = self.entries@.take(i + 1);
            proof {
                assert(first.drop_last() =~= self.entries@.take(i as int));
                assert(first.last() == self.entries@[i as int]);
            }
            if text::same(self.entries[i].0.as_str(), key) {
                return Some(self.entries[i].1);
            }
        }
        None
    }

    /// Takes `key` out of the map.
    pub fn remove(&mut self, key: &str) -> (r: Option<T>)
        ensures
            final(self)@ == old(self)@.remove(key@),
            r == (if old(self)@.contains_key(key@) {
                Some(old(self)@[key@])
            } else {
                None
            }),
    {
        let found = self.get(key);
        let mut kept: Vec<(String, T)> = Vec::new();
        let mut i: usize = 0;
        proof {
            assert(map_of(self.entries@.take(0)).remove(key@) =~= Map::<Seq<char>, T>::empty());
        }
        while i < self.entries.len()
            invariant
                i <= self.entries@.len(),
                map_of(kept@) == map_of(self.entries@.take(i as int)).remove(key@),
            decreases self.entries@.len() - i,
        {
            let ghost before = kept@;
            let ghost first = self.entries@.take(i + 1);
            proof {
                assert(first.drop_last() =~= self.entries@.take(i as int));
                assert(first.last() == self.entries@[i as int]);
            }
            if !text::same(self.entries[i].0.as_str(), key) {
                let name = self.entries[i].0.clone();
                let value = self.entries[i].1;
                kept.push((name, value));
                proof {
                    lemma_map_of_push(before, name, value);
                    assert(map_of(kept@) =~= map_of(first).remove(key@));
                }
            } else {
                proof {
                    assert(map_of(kept@) =~= map_of(first).remove(key@));
                }
            }
            i = i + 1;
        }
        proof {
            assert(self.entries@.take(i as int) =~= self.entries@);
        }
        self.entries = kept;
        found
    }

    /// Puts `value` under `key`.
    pub fn insert(&mut self, key: String, value: T)
        ensures
            final(self)@ == old(self)@.insert(key@, value),
    {
        let ghost before = self@;
        self.remove(key.as_str());
        proof {
            lemma_map_of_push(self.entries@, key, value);
            assert(before.remove(key@).insert(key@, value) =~= before.insert(key@, value));
        }
        self.entries.push((key, value));
    }

    /// Takes everything out of the map.
    pub fn clear(&mut self)
        ensures
            final(self)@ == Map::<Seq<char>, T>::empty(),
    {
        self.entries = Vec::new();
    }

    /// The entries of the map.
    pub fn to_entries(&self) -> (r: Vec<(String, T)>)
        ensures
            map_of(r@) == self@,
    {
        let mut r: Vec<(String, T)> = Vec::new();
        let mut i: usize = 0;
        while i < self.entries.len()
            invariant
                i <= self.entries@.len(),
                map_of(r@) == map_of(self.entries@.take(i as int)),
            decreases self.entries@.len() - i,
        {
            let ghost before = r@;
            let name = self.entries[i].0.clone();
            let value = self.entries[i].1;
            r.push((name, value));
            proof {
                lemma_map_of_push(before, name, value);
                assert(self.entries@.take(i + 1).drop_last() =~= self.entries@.take(i as int));
            }
            i = i + 1;
        }
        proof {
            assert(self.entries@.take(i as int) =~= self.entries@);
        }
        r
    }

    /// Whether the map holds nothing.
    pub fn is_empty(&self) -> (r: bool)
        ensures
            r == (self@ == Map::<Seq<char>, T>::empty()),
    {
        let r = self.entries.len() == 0;
        proof {
            if !r {
                let key = self.entries@[0].0@;
                lemma_map_of_keys(self.entries@, key);
                assert(self@.contains_key(key));
            }
        }
        r
    }
}

}
