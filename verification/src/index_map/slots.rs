//! The ordered map from identifiers to places in a list.

use crate::index_map::entries;
use indexmap::IndexMap;
use vstd::prelude::*;

verus! {

/// The map from identifiers to places in a list.
pub type SlotMap = IndexMap<u64, u64>;

/// The entries of `map`, in its order.
pub uninterp spec fn slot_entries(map: IndexMap<u64, u64>) -> Seq<(u64, u64)>;

/// `IndexMap::default` makes a map without entries.
#[verifier::external_body]
pub(crate) fn new_slots() -> (map: SlotMap)
    ensures
        slot_entries(map) == Seq::<(u64, u64)>::empty(),
{
    IndexMap::default()
}

/// `IndexMap::get` finds the value that is held under a key.
#[verifier::external_body]
pub(crate) fn get_slot(map: &SlotMap, key: u64) -> (slot: Option<u64>)
    ensures
        slot == entries::lookup(slot_entries(*map), key),
{
    map.get(&key).copied()
}

/// `IndexMap::insert` keeps the place of a key that is present and puts a new key last.
#[verifier::external_body]
pub(crate) fn insert_slot(map: &mut SlotMap, key: u64, slot: u64)
    ensures
        slot_entries(*final(map)) == entries::inserted(slot_entries(*old(map)), key, slot),
{
    map.insert(key, slot);
}

/// `Entry::or_insert` leaves a key that is present alone and puts a new key last. It gives
/// the value that is held under the key then.
#[verifier::external_body]
pub(crate) fn slot_or_insert(map: &mut SlotMap, key: u64, slot: u64) -> (held: u64)
    ensures
        match entries::lookup(slot_entries(*old(map)), key) {
            Some(present) => slot_entries(*final(map)) == slot_entries(*old(map)) && held == present,
            None => slot_entries(*final(map)) == slot_entries(*old(map)).push((key, slot)) && held
                == slot,
        },
{
    *map.entry(key).or_insert(slot)
}

/// `IndexMap::iter` walks the entries in order.
#[verifier::external_body]
pub(crate) fn list_slots(map: &SlotMap) -> (list: Vec<(u64, u64)>)
    ensures
        list@ == slot_entries(*map),
{
    map.iter().map(|(key, slot)| (*key, *slot)).collect()
}

} // verus!
