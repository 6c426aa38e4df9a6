//! Surface identities.
//!
//! An [`Id`] names one surface unit for its whole lifetime. It is
//! independent of protocol object ids and is never reused: the engine
//! state owns an [`IdAllocator`] whose counter only grows, so two
//! distinct allocations always yield distinct identities.

use vstd::prelude::*;

verus! {

/// An opaque, unique identity of one surface unit.
#[derive(Debug, Clone, Copy, PartialEq, Eq, Hash, Structural)]
pub struct Id(pub u64);

impl Id {
    /// The raw counter value behind this identity.
    pub fn raw(&self) -> (r: u64)
        ensures
            r == self.0,
    {
        self.0
    }
}

/// The source of fresh identities, owned by the engine state.
///
/// Every identity handed out so far is strictly below `next`, so a fresh
/// allocation differs from all earlier ones.
#[derive(Debug, Clone, Copy, PartialEq, Eq, Structural)]
pub struct IdAllocator {
    pub next: u64,
}

impl IdAllocator {
    /// True while another identity can still be handed out.
    pub open spec fn can_allocate(self) -> bool {
        self.next < u64::MAX
    }

    /// True of every identity this allocator has already handed out.
    pub open spec fn issued(self, id: Id) -> bool {
        id.0 < self.next
    }

    pub fn new() -> (r: IdAllocator)
        ensures
            r.next == 0,
    {
        IdAllocator { next: 0 }
    }

    /// Hand out a fresh identity, distinct from every identity handed out
    /// before.
    pub fn allocate(&mut self) -> (r: Id)
        requires
            old(self).can_allocate(),
        ensures
            r.0 == old(self).next,
            final(self).next == old(self).next + 1,
            old(self).issued(r) == false,
            final(self).issued(r),
            forall|i: Id| old(self).issued(i) ==> final(self).issued(i) && i != r,
    {
        let id = Id(self.next);
        self.next = self.next + 1;
        id
    }
}

/// Two identities from one allocator never collide: whatever was issued
/// before an allocation differs from what the allocation returns.
pub proof fn lemma_identities_unique(a0: IdAllocator, earlier: Id, a1: IdAllocator, fresh: Id)
    requires
        a0.issued(earlier),
        fresh.0 == a0.next,
        a1.next == a0.next + 1,
    ensures
        earlier != fresh,
        a1.issued(earlier),
        a1.issued(fresh),
{
}

} // verus!
