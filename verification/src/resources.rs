//! Registry of the client's shared resources, one per key.
//!
//! Each resource is stored under its key; inserting under a key that is
//! already taken replaces the stored resource.
use vstd::prelude::*;
use std::collections::HashMap;
use std::collections::hash_map::Entry;

verus! {

broadcast use vstd::std_specs::hash::group_hash_axioms;

/// Centralised store of resources, one per key.
pub struct Resources<V> {
    map: HashMap<u64, V>,
}

impl<V> View for Resources<V> {
    type V = Map<u64, V>;

    closed spec fn view(&self) -> Map<u64, V> {
        self.map@
    }
}

impl<V> Resources<V> {
    /// An empty registry.
    pub fn new() -> (r: Self)
        ensures
            r@ == Map::<u64, V>::empty(),
    {
        Resources { map: HashMap::new() }
    }

    /// Stores `resource` under `key`, replacing what was stored there.
    pub fn insert(&mut self, key: u64, resource: V)
        ensures
            final(self)@ == old(self)@.insert(key, resource),
    {
        self.map.insert(key, resource);
    }

    /// Whether something is stored under `key`.
    pub fn contains(&self, key: u64) -> (r: bool)
        ensures
            r == self@.contains_key(key),
    {
        self.map.contains_key(&key)
    }

    /// Read access to the resource stored under `key`.
    pub fn read_resource(&self, key: u64) -> (r: &V)
        requires
            self@.contains_key(key),
        ensures
            *r == self@[key],
    {
        match self.map.get(&key) {
            Some(v) => v,
            None => vstd::pervasive::unreached(),
        }
    }

    /// Write access to the resource stored under `key`; whatever is written
    /// through it is what the registry holds afterwards.
    pub fn write_resource(&mut self, key: u64) -> (r: &mut V)
        requires
            old(self)@.contains_key(key),
        ensures
            *r == old(self)@[key],
            final(self)@ == old(self)@.insert(key, *final(r)),
    {
        match self.map.entry(key) {
            Entry::Occupied(o) => o.into_mut(),
            Entry::Vacant(_) => vstd::pervasive::unreached(),
        }
    }
}

/// What a read gives back is what was last inserted under that key; an insert
/// under one key leaves every other key as it was.
pub proof fn law_read_after_insert<V>(m: Map<u64, V>, key: u64, resource: V, other: u64)
    requires
        other != key,
    ensures
        m.insert(key, resource).contains_key(key),
        m.insert(key, resource)[key] == resource,
        m.insert(key, resource).contains_key(other) == m.contains_key(other),
        m.contains_key(other) ==> m.insert(key, resource)[other] == m[other],
{
}

} // verus!
