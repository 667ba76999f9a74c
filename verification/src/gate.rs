//! Admission gate: a bounded counting semaphore that caps how many
//! executions run at once. Acquire before launching an execution; release
//! exactly once when it finishes, on every exit path.

use vstd::prelude::*;

verus! {

/// How many executions may run at once.
pub const CONCURRENCY: u32 = 4;

/// Outstanding permits, bounded by the capacity. The I/O shell blocks on a
/// real semaphore that mirrors this count.
pub struct Gate {
    capacity: u32,
    in_flight: u32,
}

impl Gate {
    pub closed spec fn spec_capacity(self) -> u32 {
        self.capacity
    }

    pub closed spec fn spec_in_flight(self) -> u32 {
        self.in_flight
    }

    /// Never more executions in flight than the capacity.
    pub open spec fn wf(self) -> bool {
        self.spec_in_flight() <= self.spec_capacity()
    }

    pub fn new(capacity: u32) -> (r: Gate)
        ensures
            r.wf(),
            r.spec_capacity() == capacity,
            r.spec_in_flight() == 0,
    {
        Gate { capacity: capacity, in_flight: 0 }
    }

    /// Grants a permit exactly when one is free.
    pub fn try_acquire(&mut self) -> (r: bool)
        requires
            old(self).wf(),
        ensures
            final(self).wf(),
            final(self).spec_capacity() == old(self).spec_capacity(),
            r == (old(self).spec_in_flight() < old(self).spec_capacity()),
            r ==> final(self).spec_in_flight() == old(self).spec_in_flight() + 1,
            !r ==> final(self).spec_in_flight() == old(self).spec_in_flight(),
    {
        if self.in_flight < self.capacity {
            self.in_flight = self.in_flight + 1;
            true
        } else {
            false
        }
    }

    /// Returns a permit; called once per granted acquire, so a permit is
    /// outstanding whenever this runs.
    pub fn release(&mut self)
        requires
            old(self).wf(),
            old(self).spec_in_flight() > 0,
        ensures
            final(self).wf(),
            final(self).spec_capacity() == old(self).spec_capacity(),
            final(self).spec_in_flight() == old(self).spec_in_flight() - 1,
    {
        self.in_flight = self.in_flight - 1;
    }

    pub fn in_flight(&self) -> (r: u32)
        ensures
            r == self.spec_in_flight(),
    {
        self.in_flight
    }

    pub fn capacity(&self) -> (r: u32)
        ensures
            r == self.spec_capacity(),
    {
        self.capacity
    }
}

/// Law: at any instant a well-formed gate has at most `capacity` concurrent
/// executions admitted; with the default capacity, at most `CONCURRENCY`.
pub proof fn lemma_gate_bounds_concurrency(g: Gate)
    requires
        g.wf(),
    ensures
        g.spec_in_flight() <= g.spec_capacity(),
{
}

} // verus!
