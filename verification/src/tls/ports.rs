//! A set of ports.

use indexmap::IndexSet;
use vstd::prelude::*;

verus! {

/// The insertion-ordered hash set of the `indexmap` crate.
#[verifier::external_type_specification]
#[verifier::external_body]
#[verifier::reject_recursive_types(T)]
#[verifier::reject_recursive_types(S)]
pub struct ExIndexSet<T, S>(IndexSet<T, S>);

/// A set of ports.
pub type Ports = IndexSet<u16>;

/// The ports in a set.
pub uninterp spec fn ports_in(ports: IndexSet<u16>) -> Set<u16>;

/// `IndexSet::default` makes a set that holds nothing.
#[verifier::external_body]
pub(crate) fn no_ports() -> (ports: Ports)
    ensures
        ports_in(ports) == Set::<u16>::empty(),
{
    IndexSet::default()
}

/// `IndexSet::contains` says whether a value is in the set.
#[verifier::external_body]
pub(crate) fn has_port(ports: &Ports, port: u16) -> (has: bool)
    ensures
        has == ports_in(*ports).contains(port),
{
    ports.contains(&port)
}

} // verus!
