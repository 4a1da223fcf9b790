//! The borrow discipline on the native response buffer.
//!
//! A handle owns one buffer for its most recent execute or receive return;
//! every new execute or receive on the same handle overwrites it. This
//! module states that rule as a generation counter: a response borrow
//! carries the generation it was taken at and is valid exactly while no
//! later call has advanced the counter.

use vstd::prelude::*;

verus! {

/// Generation counter of one handle's response buffer.
pub struct ResponseEpoch {
    pub current: u64,
}

impl ResponseEpoch {
    /// A borrow taken at generation `epoch` may still be read.
    pub open spec fn borrow_valid(self, epoch: u64) -> bool {
        epoch == self.current
    }

    /// A fresh handle: no execute or receive has run yet.
    pub fn new() -> (r: ResponseEpoch)
        ensures
            r.current == 0,
    {
        ResponseEpoch { current: 0 }
    }

    /// A new execute or receive on the handle: the buffer is overwritten,
    /// every borrow taken earlier turns stale, and the value returned is
    /// the generation of the fresh borrow.
    pub fn advance(&mut self) -> (e: u64)
        requires
            old(self).current < u64::MAX,
        ensures
            final(self).current == old(self).current + 1,
            e == final(self).current,
            final(self).borrow_valid(e),
            forall|g: u64| old(self).borrow_valid(g) ==> !final(self).borrow_valid(g),
    {
        self.current = self.current + 1;
        self.current
    }

    /// Whether a borrow taken at generation `epoch` may still be read.
    pub fn is_valid(&self, epoch: u64) -> (b: bool)
        ensures
            b == self.borrow_valid(epoch),
    {
        epoch == self.current
    }
}

/// A borrow taken before any later call on the same handle is never valid
/// after it: the buffer's content must be consumed or copied first.
pub proof fn lemma_stale_borrow_invalid(before: ResponseEpoch, after: ResponseEpoch, epoch: u64)
    requires
        before.borrow_valid(epoch),
        after.current > before.current,
    ensures
        !after.borrow_valid(epoch),
{
}

} // verus!
