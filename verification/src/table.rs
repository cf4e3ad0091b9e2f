//! A table of records under integer keys.

use vstd::prelude::*;
use std::collections::HashMap;

verus! {

broadcast use vstd::std_specs::hash::group_hash_axioms;

/// Records of type `V`, each under a key of its own.
pub struct Table<V> {
    map: HashMap<u64, V>,
}

impl<V> View for Table<V> {
    type V = Map<u64, V>;

    closed spec fn view(&self) -> Map<u64, V> {
        self.map@
    }
}

impl<V> Table<V> {
    /// An empty table.
    pub fn new() -> (t: Self)
        ensures
            t@ == Map::<u64, V>::empty(),
    {
        Table { map: HashMap::new() }
    }

    /// Whether a record is kept under `key`.
    pub fn contains(&self, key: u64) -> (r: bool)
        ensures
            r == self@.contains_key(key),
    {
        self.map.contains_key(&key)
    }

    /// The record under `key`.
    pub fn get(&self, key: u64) -> (r: Option<&V>)
        ensures
            match r {
                Some(v) => self@.contains_key(key) && *v == self@[key],
                None => !self@.contains_key(key),
            },
    {
        self.map.get(&key)
    }

    /// Takes the record under `key` out of the table.
    pub fn take(&mut self, key: u64) -> (r: Option<V>)
        ensures
            final(self)@ == old(self)@.remove(key),
            match r {
                Some(v) => old(self)@.contains_key(key) && v == old(self)@[key],
                None => !old(self)@.contains_key(key),
            },
    {
        self.map.remove(&key)
    }

    /// Puts `value` under `key`, in place of what was there.
    pub fn put(&mut self, key: u64, value: V)
        ensures
            final(self)@ == old(self)@.insert(key, value),
    {
        let _ = self.map.insert(key, value);
    }

    /// The number of records.
    pub fn len(&self) -> (n: usize)
        ensures
            n == self@.len(),
            self@.dom().finite(),
    {
        self.map.len()
    }
}

} // verus!
