//! The concurrent slot map (`dashmap::DashMap<u64, LeaderInfo>`) that the cache
//! keeps its entries in, as far as the cache uses it.
//!
//! Its contents are named by `slot_map_contents`; each method that the cache
//! calls has a wrapper whose contract says, over that name, what the method does
//! to the contents and what it returns, as dashmap's source shows it. Mutating
//! methods take `&mut` here, though dashmap takes `&self`: the cache holds the
//! map alone, so the contents change only through these calls.

use dashmap::DashMap;
use vstd::prelude::*;

use crate::cache::slot_is_kept;
use crate::LeaderInfo;

verus! {

#[verifier::external_type_specification]
#[verifier::external_body]
#[verifier::reject_recursive_types(K)]
#[verifier::reject_recursive_types(V)]
#[verifier::reject_recursive_types(S)]
pub struct ExDashMap<K, V, S>(DashMap<K, V, S>);

/// The entries of a slot map, by slot.
pub uninterp spec fn slot_map_contents(m: DashMap<u64, LeaderInfo>) -> Map<u64, LeaderInfo>;

/// A map of slots without entries.
pub open spec fn no_entries() -> Map<u64, LeaderInfo> {
    Map::empty()
}

/// `DashMap::new`: a map without entries.
#[verifier::external_body]
pub(crate) fn slot_map_new() -> (r: DashMap<u64, LeaderInfo>)
    ensures
        slot_map_contents(r) == no_entries(),
{
    DashMap::new()
}

/// `DashMap::insert`: `info` becomes the entry of `slot`; the entry it replaced,
/// if any, is returned.
#[verifier::external_body]
pub(crate) fn slot_map_insert(m: &mut DashMap<u64, LeaderInfo>, slot: u64, info: LeaderInfo) -> (prev: Option<LeaderInfo>)
    ensures
        slot_map_contents(*final(m)) == slot_map_contents(*old(m)).insert(slot, info),
        prev == slot_map_contents(*old(m)).get(slot),
{
    m.insert(slot, info)
}

/// `DashMap::get`, then a clone of the entry: the entry of `slot`, if any.
#[verifier::external_body]
pub(crate) fn slot_map_get(m: &DashMap<u64, LeaderInfo>, slot: u64) -> (r: Option<LeaderInfo>)
    ensures
        r == slot_map_contents(*m).get(slot),
{
    match m.get(&slot) {
        Some(entry) => Some(entry.value().clone()),
        None => None,
    }
}

/// `DashMap::retain` with a predicate that keeps the slots from `first_slot` on:
/// the entries of earlier slots leave, the others stay as they were.
#[verifier::external_body]
pub(crate) fn slot_map_retain_from(m: &mut DashMap<u64, LeaderInfo>, first_slot: u64)
    ensures
        slot_map_contents(*final(m)) == slot_map_contents(*old(m)).restrict(
            Set::new(|s: u64| s >= first_slot),
        ),
{
    m.retain(|slot, _| slot_is_kept(*slot, first_slot))
}

/// `DashMap::len`: the number of entries.
#[verifier::external_body]
pub(crate) fn slot_map_len(m: &DashMap<u64, LeaderInfo>) -> (r: usize)
    ensures
        r == slot_map_contents(*m).len(),
{
    m.len()
}

/// `DashMap::is_empty`: whether the number of entries is zero.
#[verifier::external_body]
pub(crate) fn slot_map_is_empty(m: &DashMap<u64, LeaderInfo>) -> (r: bool)
    ensures
        r == (slot_map_contents(*m).len() == 0),
{
    m.is_empty()
}

} // verus!
