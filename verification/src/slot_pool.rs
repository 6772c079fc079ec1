//! The execution slot pool: a counter of occupied slots against a fixed
//! capacity, guarding the concurrency cap.

use vstd::prelude::*;

use crate::task::UnderflowError;

verus! {

/// Tracks how many of the `capacity` execution slots are occupied.
pub struct SlotPool {
    occupied: usize,
    capacity: usize,
}

impl SlotPool {
    /// The number of slots currently occupied.
    pub closed spec fn occupied(self) -> int {
        self.occupied as int
    }

    /// The fixed number of slots.
    pub closed spec fn capacity(self) -> int {
        self.capacity as int
    }

    /// At most `capacity` slots are occupied, and there is at least one slot.
    pub open spec fn wf(self) -> bool {
        &&& 1 <= self.capacity()
        &&& 0 <= self.occupied() <= self.capacity()
    }

    /// A pool of `capacity` slots, all free.
    pub fn new(capacity: usize) -> (pool: Self)
        requires
            capacity >= 1,
        ensures
            pool.wf(),
            pool.occupied() == 0,
            pool.capacity() == capacity,
    {
        SlotPool { occupied: 0, capacity }
    }

    /// True exactly when a further task may start.
    pub fn has_capacity(&self) -> (r: bool)
        ensures
            r == (self.occupied() < self.capacity()),
    {
        self.occupied < self.capacity
    }

    /// Takes one free slot. Callers check `has_capacity` first.
    pub fn occupy(&mut self)
        requires
            old(self).wf(),
            old(self).occupied() < old(self).capacity(),
        ensures
            final(self).wf(),
            final(self).occupied() == old(self).occupied() + 1,
            final(self).capacity() == old(self).capacity(),
    {
        self.occupied = self.occupied + 1;
    }

    /// Frees one occupied slot. Releasing when none is occupied is a bug in
    /// the caller and is reported, not clamped.
    pub fn release(&mut self) -> (r: Result<(), UnderflowError>)
        requires
            old(self).wf(),
        ensures
            final(self).wf(),
            final(self).capacity() == old(self).capacity(),
            old(self).occupied() == 0 ==> r == Err::<(), UnderflowError>(UnderflowError)
                && *final(self) == *old(self),
            old(self).occupied() > 0 ==> r == Ok::<(), UnderflowError>(())
                && final(self).occupied() == old(self).occupied() - 1,
    {
        if self.occupied == 0 {
            Err(UnderflowError)
        } else {
            self.occupied = self.occupied - 1;
            Ok(())
        }
    }
}

} // verus!
