//! The per-call store for the connections the host hands over.

use vstd::prelude::*;
use vstd::pervasive::VecAdditionalExecFns;

verus! {

/// One slot per declared port, each holding the connection the host last
/// named for it — zero standing for "not connected".
///
/// The host connects ports one at a time, in no fixed order, and may
/// rebind a port between processing calls; the cache tolerates any arrival
/// order, keeps the last connection named for each slot, and ignores a
/// port index it never declared. Resolution reads only the final state.
pub struct PortPointerCache {
    slots: Vec<u64>,
}

impl PortPointerCache {
    /// The connection stored for each declared port; zero means null.
    pub closed spec fn slots(&self) -> Seq<u64> {
        self.slots@
    }

    /// A cache for `port_count` declared ports, all still unconnected.
    pub fn new(port_count: usize) -> (c: PortPointerCache)
        ensures
            c.slots() == Seq::new(port_count as nat, |i: int| 0u64),
    {
        let mut slots: Vec<u64> = Vec::new();
        let mut i: usize = 0;
        while i < port_count
            invariant
                i <= port_count,
                slots@ =~= Seq::new(i as nat, |k: int| 0u64),
            decreases port_count - i,
        {
            slots.push(0u64);
            proof {
                assert(slots@ =~= Seq::new((i + 1) as nat, |k: int| 0u64));
            }
            i = i + 1;
        }
        PortPointerCache { slots }
    }

    /// How many ports the cache was declared with.
    pub fn port_count(&self) -> (n: usize)
        ensures
            n == self.slots().len(),
    {
        self.slots.len()
    }

    /// Stores the connection the host named for port `index`; the last
    /// write for a given index wins, and an index the cache was never
    /// declared with is ignored.
    pub fn connect_port(&mut self, index: u32, pointer: u64)
        ensures
            final(self).slots() == if index < old(self).slots().len() {
                old(self).slots().update(index as int, pointer)
            } else {
                old(self).slots()
            },
    {
        if (index as usize) < self.slots.len() {
            self.slots.set(index as usize, pointer);
        }
    }

    /// The connection stored for port `index`: zero when the port is
    /// unconnected, explicitly disconnected, or was never declared.
    pub fn connection(&self, index: u32) -> (p: u64)
        ensures
            p == if index < self.slots().len() {
                self.slots()[index as int]
            } else {
                0u64
            },
    {
        if (index as usize) < self.slots.len() {
            self.slots[index as usize]
        } else {
            0
        }
    }
}

} // verus!
