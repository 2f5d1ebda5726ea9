//! The ordered map from socket addresses to endpoints.

use crate::index_map::entries;
use crate::net::SocketAddr;
use indexmap::IndexMap;
use vstd::prelude::*;

verus! {

/// The insertion-ordered hash map of the `indexmap` crate.
#[verifier::external_type_specification]
#[verifier::external_body]
#[verifier::reject_recursive_types(K)]
#[verifier::reject_recursive_types(V)]
#[verifier::reject_recursive_types(S)]
pub struct ExIndexMap<K, V, S>(IndexMap<K, V, S>);

/// The map from addresses to the identifiers of their endpoints.
pub type AddrMap = IndexMap<SocketAddr, u64>;

/// The entries of `map`, in its order.
pub uninterp spec fn addr_entries(map: IndexMap<SocketAddr, u64>) -> Seq<(SocketAddr, u64)>;

/// `IndexMap::new` makes a map without entries.
#[verifier::external_body]
pub(crate) fn new_addr_map() -> (map: AddrMap)
    ensures
        addr_entries(map) == Seq::<(SocketAddr, u64)>::empty(),
{
    IndexMap::new()
}

/// `IndexMap::insert` keeps the place of a key that is present and puts a new key
/// last. The keys stay distinct.
#[verifier::external_body]
pub(crate) fn insert_addr(map: &mut AddrMap, key: SocketAddr, value: u64)
    ensures
        addr_entries(*final(map)) == entries::inserted(addr_entries(*old(map)), key, value),
        entries::distinct(addr_entries(*final(map))),
{
    map.insert(key, value);
}

/// `IndexMap::get` finds the value that is held under a key.
#[verifier::external_body]
pub(crate) fn get_addr(map: &AddrMap, key: &SocketAddr) -> (value: Option<u64>)
    ensures
        value == entries::lookup(addr_entries(*map), *key),
{
    map.get(key).copied()
}

/// `IndexMap::remove` fills the place of the entry that leaves with the last entry.
#[verifier::external_body]
pub(crate) fn remove_addr(map: &mut AddrMap, key: &SocketAddr)
    ensures
        addr_entries(*final(map)) == entries::swap_removed(addr_entries(*old(map)), *key),
        entries::distinct(addr_entries(*final(map))),
{
    map.remove(key);
}

/// `IndexMap::drain` over the full range leaves the map without entries.
#[verifier::external_body]
pub(crate) fn drain_addrs(map: &mut AddrMap)
    ensures
        addr_entries(*final(map)) == Seq::<(SocketAddr, u64)>::empty(),
{
    map.drain(..);
}

/// `IndexMap::iter` walks the entries in order. No key comes twice.
#[verifier::external_body]
pub(crate) fn list_addrs(map: &AddrMap) -> (list: Vec<(SocketAddr, u64)>)
    ensures
        list@ == addr_entries(*map),
        entries::distinct(list@),
{
    map.iter().map(|(key, value)| (*key, *value)).collect()
}

} // verus!
