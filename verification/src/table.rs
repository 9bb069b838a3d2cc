//! A small map with keys that are compared through their models, kept in the
//! order of insertion.

use vstd::prelude::*;
use crate::model::Model;
use crate::text::{owned, same_text};

verus! {

/// A value that can serve as a key: two keys are the same when their models are.
pub trait Key: Model + Sized {
    fn same(&self, other: &Self) -> (same: bool)
        ensures
            same == (self.model() == other.model()),
    ;
}

impl Key for String {
    fn same(&self, other: &Self) -> (same: bool) {
        same_text(self.as_str(), other.as_str())
    }
}

/// A finite map. A later entry under a key replaces an earlier one.
#[derive(Debug, Clone)]
pub struct Table<K, V> {
    entries: Vec<(K, V)>,
}

/// A table keyed by text.
pub type Keyed<V> = Table<String, V>;

/// The map that a sequence of entries stands for: each entry is inserted in
/// turn, so the last entry under a key is the one that counts.
pub open spec fn map_of<K: Model, V>(entries: Seq<(K, V)>) -> Map<K::M, V>
    decreases entries.len(),
{
    if entries.len() == 0 {
        Map::empty()
    } else {
        map_of(entries.drop_last()).insert(entries.last().0.model(), entries.last().1)
    }
}

/// A key that no entry carries is not in the map.
pub proof fn lemma_map_of_absent<K: Model, V>(entries: Seq<(K, V)>, key: K::M)
    requires
        forall|j: int| 0 <= j < entries.len() ==> (#[trigger] entries[j]).0.model() != key,
    ensures
        !map_of(entries).contains_key(key),
    decreases entries.len(),
{
    if entries.len() > 0 {
        lemma_map_of_absent(entries.drop_last(), key);
    }
}

/// The last entry under a key is the value of the map at that key.
pub proof fn lemma_map_of_last<K: Model, V>(entries: Seq<(K, V)>, key: K::M, at: int)
    requires
        0 <= at < entries.len(),
        entries[at].0.model() == key,
        forall|j: int| at < j < entries.len() ==> (#[trigger] entries[j]).0.model() != key,
    ensures
        map_of(entries).contains_key(key),
        map_of(entries)[key] == entries[at].1,
    decreases entries.len(),
{
    if at < entries.len() - 1 {
        lemma_map_of_last(entries.drop_last(), key, at);
    }
}

impl<K: Model, V> View for Table<K, V> {
    type V = Map<K::M, V>;

    closed spec fn view(&self) -> Map<K::M, V> {
        map_of(self.entries@)
    }
}

impl<K: Model, V: Model> Model for Table<K, V> {
    type M = Map<K::M, V::M>;

    open spec fn model(&self) -> Map<K::M, V::M> {
        Map::new(|k: K::M| self@.contains_key(k), |k: K::M| self@[k].model())
    }
}

impl<K: Key, V> Table<K, V> {
    /// The table without entries.
    pub fn new() -> (empty: Self)
        ensures
            empty@ == Map::<K::M, V>::empty(),
    {
        Table { entries: Vec::new() }
    }

    /// The value under `key`, if there is one.
    pub fn get(&self, key: &K) -> (found: Option<&V>)
        ensures
            found.is_some() == self@.contains_key(key.model()),
            found matches Some(value) ==> *value == self@[key.model()],
    {
        let mut i: usize = self.entries.len();
        while i > 0
            invariant
                i <= self.entries.len(),
                forall|j: int|
                    i <= j < self.entries.len() ==> (#[trigger] self.entries@[j]).0.model()
                        != key.model(),
            decreases i,
        {
            i = i - 1;
            if self.entries[i].0.same(key) {
                proof {
                    lemma_map_of_last(self.entries@, key.model(), i as int);
                }
                return Some(&self.entries[i].1);
            }
        }
        proof {
            lemma_map_of_absent(self.entries@, key.model());
        }
        None
    }

    /// Puts `value` under `key`, in place of what was there.
    pub fn put(&mut self, key: K, value: V)
        ensures
            final(self)@ == old(self)@.insert(key.model(), value),
    {
        self.entries.push((key, value));
        assert(self.entries@.drop_last() == old(self).entries@);
    }

    /// Whether the table holds nothing.
    pub fn is_empty(&self) -> (empty: bool)
        ensures
            empty == (self@.dom() == Set::<K::M>::empty()),
    {
        let empty = self.entries.len() == 0;
        proof {
            if !empty {
                let last = self.entries@.last();
                assert(self@.dom().contains(last.0.model()));
            } else {
                assert(self@.dom() =~= Set::<K::M>::empty());
            }
        }
        empty
    }

    /// The entries in the order in which they were put.
    pub fn entries(&self) -> (all: &Vec<(K, V)>)
        ensures
            map_of(all@) == self@,
    {
        &self.entries
    }
}

impl<V> Table<String, V> {
    /// The value under the text `key`, if there is one.
    pub fn get_text(&self, key: &str) -> (found: Option<&V>)
        ensures
            found.is_some() == self@.contains_key(key@),
            found matches Some(value) ==> *value == self@[key@],
    {
        let key = owned(key);
        self.get(&key)
    }
}

} // verus!
