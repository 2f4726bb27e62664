//! Data shown by the debug panel, one value per key.
use vstd::prelude::*;
use std::collections::HashMap;
use std::collections::hash_map::Entry;

verus! {

broadcast use vstd::std_specs::hash::group_hash_axioms;

/// Values published for the debug panel, one per key.
pub struct DebugData<V> {
    data: HashMap<u64, V>,
}

impl<V> View for DebugData<V> {
    type V = Map<u64, V>;

    closed spec fn view(&self) -> Map<u64, V> {
        self.data@
    }
}

impl<V> DebugData<V> {
    /// No data.
    pub fn new() -> (d: Self)
        ensures
            d@ == Map::<u64, V>::empty(),
    {
        DebugData { data: HashMap::new() }
    }

    /// Publishes `value` under `key`, replacing what was there.
    pub fn insert(&mut self, key: u64, value: V)
        ensures
            final(self)@ == old(self)@.insert(key, value),
    {
        self.data.insert(key, value);
    }

    /// The value published under `key`, if any.
    pub fn read(&self, key: u64) -> (r: Option<&V>)
        ensures
            match r {
                Some(v) => self@.contains_key(key) && *v == self@[key],
                None => !self@.contains_key(key),
            },
    {
        self.data.get(&key)
    }

    /// Write access to the value published under `key`, if any.
    pub fn update_data(&mut self, key: u64) -> (r: Option<&mut V>)
        ensures
            match r {
                Some(v) => {
                    &&& old(self)@.contains_key(key)
                    &&& *v == old(self)@[key]
                    &&& final(self)@ == old(self)@.insert(key, *final(v))
                },
                None => !old(self)@.contains_key(key) && final(self)@ == old(self)@,
            },
    {
        match self.data.entry(key) {
            Entry::Occupied(o) => Some(o.into_mut()),
            Entry::Vacant(_) => None,
        }
    }
}

} // verus!
