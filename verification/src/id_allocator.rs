//! Monotonic id allocation.

use vstd::prelude::*;

verus! {

/// A counter that hands out the ids `0, 1, 2, ...` in order, each once.
///
/// Every kind of record owns its own allocator; allocators share nothing.
pub struct IdAllocator {
    next: u64,
}

impl View for IdAllocator {
    type V = nat;

    /// The id that the next call of [`IdAllocator::next`] returns, which is
    /// also the number of ids handed out so far.
    closed spec fn view(&self) -> nat {
        self.next as nat
    }
}

impl IdAllocator {
    /// A fresh allocator: its first id is 0.
    pub fn new() -> (fresh: Self)
        ensures
            fresh@ == 0,
    {
        IdAllocator { next: 0 }
    }

    /// The id that the next allocation will return, without allocating it.
    pub fn peek(&self) -> (id: u64)
        ensures
            id == self@,
    {
        self.next
    }

    /// Returns the current counter value, then increments the counter.
    pub fn next(&mut self) -> (id: u64)
        requires
            old(self)@ < u64::MAX,
        ensures
            id == old(self)@,
            final(self)@ == old(self)@ + 1,
    {
        let id: u64 = self.next;
        self.next = id + 1;
        id
    }
}

} // verus!
