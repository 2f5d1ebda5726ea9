//! The endpoints that a consumer knows.

use crate::index_map::entries;
use crate::net::{same, SocketAddr};
use vstd::prelude::*;

verus! {

/// The endpoints that are known, each under its address.
pub struct Active {
    list: Vec<(SocketAddr, u64)>,
}

impl View for Active {
    type V = Map<SocketAddr, u64>;

    closed spec fn view(&self) -> Map<SocketAddr, u64> {
        entries::as_map(self.list@)
    }
}

impl Active {
    /// Whether no address is held twice.
    pub closed spec fn wf(&self) -> bool {
        entries::distinct(self.list@)
    }

    pub fn new() -> (active: Self)
        ensures
            active.wf(),
            active@ == Map::<SocketAddr, u64>::empty(),
    {
        let active = Active { list: Vec::new() };
        assert(active@ =~= Map::empty());
        active
    }

    fn find(&self, addr: &SocketAddr) -> (found: Option<usize>)
        requires
            self.wf(),
        ensures
            match found {
                Some(i) => i < self.list@.len() && self.list@[i as int].0 == *addr
                    && entries::has_key(self.list@, *addr) && entries::position(self.list@, *addr)
                    == i,
                None => !entries::has_key(self.list@, *addr),
            },
    {
        let mut i: usize = 0;
        while i < self.list.len()
            invariant
                self.wf(),
                i <= self.list@.len(),
                forall|j: int| 0 <= j < i ==> #[trigger] self.list@[j].0 != *addr,
            decreases self.list@.len() - i,
        {
            if same(&self.list[i].0, addr) {
                proof {
                    entries::lemma_position(self.list@, i as int);
                }
                return Some(i);
            }
            i += 1;
        }
        None
    }

    /// Holds `endpoint` under `addr`, in place of another that is held there.
    pub fn insert(&mut self, addr: SocketAddr, endpoint: u64)
        requires
            old(self).wf(),
        ensures
            final(self).wf(),
            final(self)@ == old(self)@.insert(addr, endpoint),
    {
        proof {
            entries::lemma_inserted(self.list@, addr, endpoint);
        }
        match self.find(&addr) {
            Some(i) => {
                self.list.set(i, (addr, endpoint));
            },
            None => {
                self.list.push((addr, endpoint));
            },
        }
        assert(self.list@ =~= entries::inserted(old(self).list@, addr, endpoint));
    }

    /// Forgets the endpoint under `addr`, and returns it.
    pub fn remove(&mut self, addr: &SocketAddr) -> (removed: Option<u64>)
        requires
            old(self).wf(),
        ensures
            final(self).wf(),
            final(self)@ == old(self)@.remove(*addr),
            removed == if old(self)@.dom().contains(*addr) {
                Some(old(self)@[*addr])
            } else {
                None
            },
    {
        proof {
            entries::lemma_swap_removed(self.list@, *addr);
        }
        match self.find(addr) {
            Some(i) => {
                let (_, endpoint) = self.list.swap_remove(i);
                assert(self.list@ =~= entries::swap_removed(old(self).list@, *addr));
                Some(endpoint)
            },
            None => None,
        }
    }

    /// Forgets all endpoints, and returns their addresses.
    pub fn drain(&mut self) -> (addrs: Vec<SocketAddr>)
        requires
            old(self).wf(),
        ensures
            final(self).wf(),
            final(self)@ == Map::<SocketAddr, u64>::empty(),
            addrs@.no_duplicates(),
            forall|addr: SocketAddr| #[trigger]
                addrs@.contains(addr) <==> old(self)@.dom().contains(addr),
    {
        let mut addrs: Vec<SocketAddr> = Vec::new();
        let mut i: usize = 0;
        while i < self.list.len()
            invariant
                i <= self.list@.len(),
                addrs@.len() == i,
                forall|j: int| 0 <= j < i ==> #[trigger] addrs@[j] == self.list@[j].0,
            decreases self.list@.len() - i,
        {
            addrs.push(self.list[i].0);
            i += 1;
        }
        proof {
            assert forall|addr: SocketAddr| #[trigger] addrs@.contains(addr) <==> entries::has_key(
                self.list@,
                addr,
            ) by {
                if addrs@.contains(addr) {
                    let j = choose|j: int| 0 <= j < addrs@.len() && addrs@[j] == addr;
                    assert(self.list@[j].0 == addr);
                }
                if entries::has_key(self.list@, addr) {
                    let j = entries::position(self.list@, addr);
                    assert(addrs@[j] == addr);
                }
            }
        }
        self.list.clear();
        assert(self@ =~= Map::empty());
        addrs
    }
}

} // verus!
