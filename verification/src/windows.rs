//! Request times per key, kept in a `dashmap::DashMap`.
use dashmap::DashMap;
use std::collections::hash_map::RandomState;
use vstd::prelude::*;

verus! {

/// The concurrent hash map.
#[verifier::external_type_specification]
#[verifier::external_body]
#[verifier::reject_recursive_types(K)]
#[verifier::reject_recursive_types(V)]
#[verifier::reject_recursive_types(S)]
pub struct ExDashMap<K, V, S>(DashMap<K, V, S>);

/// The times that the map holds under each key.
pub uninterp spec fn times_in(map: DashMap<String, Vec<u64>, RandomState>) -> Map<
    Seq<char>,
    Seq<u64>,
>;

/// No times under any key.
pub open spec fn no_times() -> Map<Seq<char>, Seq<u64>> {
    Map::empty()
}

/// Calls `DashMap::new`, which makes an empty map.
#[verifier::external_body]
fn new_map() -> (r: DashMap<String, Vec<u64>, RandomState>)
    ensures
        times_in(r) == no_times(),
{
    DashMap::new()
}

/// Calls `DashMap::remove`, which takes the entry under a key out of the map
/// and returns it, if there is one.
#[verifier::external_body]
fn remove_entry(map: &mut DashMap<String, Vec<u64>, RandomState>, key: &String) -> (r: Option<
    Vec<u64>,
>)
    ensures
        match r {
            Some(times) => times_in(*old(map)).contains_key(key@) && times@ == times_in(
                *old(map),
            )[key@],
            None => !times_in(*old(map)).contains_key(key@),
        },
        times_in(*final(map)) == times_in(*old(map)).remove(key@),
{
    map.remove(key).map(|entry| entry.1)
}

/// Calls `DashMap::insert`, which stores a value under a key in place of what
/// was there.
#[verifier::external_body]
fn insert_entry(map: &mut DashMap<String, Vec<u64>, RandomState>, key: String, times: Vec<u64>)
    ensures
        times_in(*final(map)) == times_in(*old(map)).insert(key@, times@),
{
    let _ = map.insert(key, times);
}

/// Request times per key.
pub struct LocalWindows {
    map: DashMap<String, Vec<u64>, RandomState>,
}

impl View for LocalWindows {
    type V = Map<Seq<char>, Seq<u64>>;

    closed spec fn view(&self) -> Map<Seq<char>, Seq<u64>> {
        times_in(self.map)
    }
}

impl LocalWindows {
    /// No request times.
    pub fn new() -> (r: LocalWindows)
        ensures
            r@ == no_times(),
    {
        LocalWindows { map: new_map() }
    }

    /// Takes the times under a key out; none if there are none.
    pub fn take(&mut self, key: &String) -> (r: Vec<u64>)
        ensures
            r@ == if old(self)@.contains_key(key@) {
                old(self)@[key@]
            } else {
                Seq::empty()
            },
            final(self)@ == old(self)@.remove(key@),
    {
        match remove_entry(&mut self.map, key) {
            Some(times) => times,
            None => Vec::new(),
        }
    }

    /// Stores the times under a key.
    pub fn put(&mut self, key: String, times: Vec<u64>)
        ensures
            final(self)@ == old(self)@.insert(key@, times@),
    {
        insert_entry(&mut self.map, key, times);
    }
}

} // verus!
