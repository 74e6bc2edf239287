//! The slots that bound how many files are worked on at once.

use vstd::prelude::*;

verus! {

/// A counting semaphore: a fixed number of slots, some of them taken.
pub struct Pool {
    limit: usize,
    active: usize,
}

impl Pool {
    /// The number of slots.
    pub closed spec fn limit(&self) -> nat {
        self.limit as nat
    }

    /// The number of slots that are taken.
    pub closed spec fn active(&self) -> nat {
        self.active as nat
    }

    /// A pool has at least one slot and never more taken than it has.
    pub open spec fn wf(&self) -> bool {
        1 <= self.limit() && self.active() <= self.limit()
    }

    /// A pool of `limit` free slots.
    pub fn new(limit: usize) -> (pool: Self)
        requires
            limit >= 1,
        ensures
            pool.wf(),
            pool.limit() == limit,
            pool.active() == 0,
    {
        Pool { limit, active: 0 }
    }

    /// The number of slots, as configured.
    pub fn capacity(&self) -> (limit: usize)
        ensures
            limit == self.limit(),
    {
        self.limit
    }

    /// The number of slots taken now.
    pub fn in_use(&self) -> (active: usize)
        ensures
            active == self.active(),
    {
        self.active
    }

    /// Takes a slot if one is free, and says whether it did.
    pub fn try_acquire(&mut self) -> (acquired: bool)
        requires
            old(self).wf(),
        ensures
            final(self).wf(),
            final(self).limit() == old(self).limit(),
            acquired == (old(self).active() < old(self).limit()),
            final(self).active() == old(self).active() + if acquired { 1nat } else { 0nat },
    {
        if self.active < self.limit {
            self.active = self.active + 1;
            true
        } else {
            false
        }
    }

    /// Gives a taken slot back.
    pub fn release(&mut self)
        requires
            old(self).wf(),
            old(self).active() > 0,
        ensures
            final(self).wf(),
            final(self).limit() == old(self).limit(),
            final(self).active() == old(self).active() - 1,
    {
        self.active = self.active - 1;
    }
}

} // verus!
