//! Window identity for the hosting shell: identifiers and their
//! allocation. The shell's event loop and rendering are presentation
//! concerns outside this library; only the plain identity values live
//! here.

use vstd::prelude::*;

verus! {

/// Identity of one window of the hosting shell.
#[derive(Clone, Copy, Hash, PartialEq, Eq, PartialOrd, Ord, Debug, Structural)]
pub struct Id(pub u64);

/// A counter handing out window identifiers, each one exactly once.
pub struct IdAllocator {
    next: u64,
}

impl IdAllocator {
    /// How many identifiers have been handed out.
    pub closed spec fn allocated(&self) -> int {
        self.next as int
    }

    /// A fresh allocator; no identifier handed out yet.
    pub fn new() -> (a: IdAllocator)
        ensures
            a.allocated() == 0,
    {
        IdAllocator { next: 0 }
    }

    /// Hand out the next identifier: distinct from every one handed out
    /// before, since each call carries a strictly larger number.
    pub fn next_id(&mut self) -> (id: Id)
        requires
            old(self).allocated() < u64::MAX,
        ensures
            id.0 == old(self).allocated(),
            final(self).allocated() == old(self).allocated() + 1,
    {
        let id = Id(self.next);
        self.next = self.next + 1;
        id
    }
}

} // verus!
