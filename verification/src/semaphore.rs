//! The concurrency limiter: a non-blocking counting semaphore that bounds
//! the number of simultaneously in-flight protected operations. `acquire`
//! is a gate, not a wait queue: when every slot is held it refuses at once.
//! The caller must release exactly once per successful acquisition, on
//! every exit path.

use vstd::prelude::*;

verus! {

/// The abstract state of the semaphore: how many slots are currently held,
/// and the fixed capacity that bounds them.
pub struct SemaphoreView {
    pub in_flight: nat,
    pub capacity: nat,
}

/// Whether an acquire on a semaphore in state `s` obtains a slot.
pub open spec fn acquire_grants(s: SemaphoreView) -> bool {
    s.in_flight < s.capacity
}

/// The semaphore state after one acquire attempt: one more holder while a
/// slot is free, unchanged when every slot is held.
pub open spec fn spec_acquire(s: SemaphoreView) -> SemaphoreView {
    if acquire_grants(s) {
        SemaphoreView { in_flight: s.in_flight + 1, capacity: s.capacity }
    } else {
        s
    }
}

/// The semaphore state after one release of a held slot.
pub open spec fn spec_release(s: SemaphoreView) -> SemaphoreView {
    if s.in_flight >= 1 {
        SemaphoreView { in_flight: (s.in_flight - 1) as nat, capacity: s.capacity }
    } else {
        s
    }
}

/// Bounds the number of concurrently held slots by a fixed capacity.
pub struct Semaphore {
    in_flight: u64,
    capacity: u64,
}

impl View for Semaphore {
    type V = SemaphoreView;

    closed spec fn view(&self) -> SemaphoreView {
        SemaphoreView { in_flight: self.in_flight as nat, capacity: self.capacity as nat }
    }
}

impl Semaphore {
    /// The number of held slots never exceeds the capacity.
    #[verifier::type_invariant]
    spec fn wf(self) -> bool {
        self.in_flight <= self.capacity
    }

    /// A fresh semaphore with `limit` slots, none of them held.
    pub fn new(limit: u64) -> (r: Self)
        ensures
            r@ == (SemaphoreView { in_flight: 0, capacity: limit as nat }),
    {
        Semaphore { in_flight: 0, capacity: limit }
    }

    /// Obtains a slot and reports success while a slot is free; refuses,
    /// leaving the count untouched, when every slot is held.
    pub fn acquire(&mut self) -> (r: bool)
        ensures
            final(self)@ == spec_acquire(old(self)@),
            r == acquire_grants(old(self)@),
    {
        if self.in_flight >= self.capacity {
            false
        } else {
            self.in_flight = self.in_flight + 1;
            true
        }
    }

    /// Gives a held slot back. To be called exactly once per successful
    /// acquisition; never with no slot held.
    pub fn release(&mut self)
        requires
            old(self)@.in_flight >= 1,
        ensures
            final(self)@ == spec_release(old(self)@),
    {
        proof {
            use_type_invariant(&*self);
        }
        self.in_flight = self.in_flight - 1;
    }

    /// How many slots are currently held.
    pub fn in_flight(&self) -> (r: u64)
        ensures
            r as nat == self@.in_flight,
    {
        self.in_flight
    }

    /// The fixed number of slots.
    pub fn capacity(&self) -> (r: u64)
        ensures
            r as nat == self@.capacity,
    {
        self.capacity
    }
}

/// The semaphore state after a sequence of operations, each `true` entry an
/// acquire attempt and each `false` entry a release. The entries of the
/// sequence are the guard operations of all concurrent requests in the
/// order in which they won the guard's lock, so the sequence ranges over
/// every interleaving.
pub open spec fn semaphore_after(s: SemaphoreView, ops: Seq<bool>) -> SemaphoreView
    decreases ops.len(),
{
    if ops.len() == 0 {
        s
    } else {
        let prev = semaphore_after(s, ops.drop_last());
        if ops.last() {
            spec_acquire(prev)
        } else {
            spec_release(prev)
        }
    }
}

/// Under every interleaving of acquire and release operations, the number
/// of held slots stays between zero (it is a natural number and a release
/// of the last slot stops at zero) and the capacity.
pub proof fn lemma_in_flight_bounded(s: SemaphoreView, ops: Seq<bool>)
    requires
        s.in_flight <= s.capacity,
    ensures
        semaphore_after(s, ops).capacity == s.capacity,
        semaphore_after(s, ops).in_flight <= s.capacity,
    decreases ops.len(),
{
    if ops.len() > 0 {
        lemma_in_flight_bounded(s, ops.drop_last());
    }
}

} // verus!
