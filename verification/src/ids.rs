//! Identity allocation: every image gets an id that no other image has.

use vstd::prelude::*;

verus! {

/// Issues ids in strictly increasing order, starting at 1.
///
/// The allocator is plain state: whoever holds the `&mut` borrow is the only
/// issuer, so two images can never be stamped with the same id.
pub struct IdAllocator {
    next: usize,
}

impl IdAllocator {
    /// The id that the next call of [`IdAllocator::next_id`] returns.
    pub closed spec fn peek(&self) -> nat {
        if self.next >= 1 {
            self.next as nat
        } else {
            1
        }
    }

    /// No id is left: the counter has reached the largest `usize`.
    pub open spec fn is_exhausted(&self) -> bool {
        self.peek() >= usize::MAX
    }

    /// `id` was handed out by this allocator at some earlier point.
    pub open spec fn has_issued(&self, id: nat) -> bool {
        1 <= id < self.peek()
    }

    #[verifier::type_invariant]
    spec fn inv(&self) -> bool {
        self.next >= 1
    }

    /// A fresh allocator: nothing issued yet, the first id will be 1.
    pub fn new() -> (ids: IdAllocator)
        ensures
            ids.peek() == 1,
    {
        IdAllocator { next: 1 }
    }

    /// Whether every id has been used up.
    pub fn exhausted(&self) -> (b: bool)
        ensures
            b == self.is_exhausted(),
    {
        self.next == usize::MAX
    }

    /// Issues the next id.
    pub fn next_id(&mut self) -> (id: usize)
        requires
            !old(self).is_exhausted(),
        ensures
            id == old(self).peek(),
            id >= 1,
            final(self).peek() == id + 1,
            !old(self).has_issued(id as nat),
            final(self).has_issued(id as nat),
    {
        proof {
            use_type_invariant(&*self);
        }
        let id = self.next;
        self.next = self.next + 1;
        id
    }
}

/// Ids start at 1: whatever an allocator gives next is at least 1, and it
/// has not issued that id yet.
pub proof fn lemma_next_is_fresh(ids: IdAllocator)
    ensures
        ids.peek() >= 1,
        !ids.has_issued(ids.peek()),
{
}

/// Ids strictly increase in the order of issue: of two ids, the one issued
/// from a later state of the allocator is the greater, and by then the
/// allocator counts the first among those it has issued. A later state is one
/// that has moved on by at least one id.
pub proof fn lemma_ids_increase(earlier: IdAllocator, first: nat, later: IdAllocator, second: nat)
    requires
        first == earlier.peek(),
        earlier.peek() < later.peek(),
        second == later.peek(),
    ensures
        first < second,
        later.has_issued(first),
        !later.has_issued(second),
{
}

} // verus!
