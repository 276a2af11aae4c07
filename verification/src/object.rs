//! Identifiers of scene objects.

use vstd::prelude::*;

verus! {

/// Source of fresh object identifiers: hands out `next`, then counts on.
/// One counter serves the building of one scene.
#[derive(Debug)]
pub struct IdCounter {
    pub next: usize,
}

impl IdCounter {
    /// A counter whose first identifier is zero.
    pub fn new() -> (c: IdCounter)
        ensures
            c.next == 0,
    {
        IdCounter { next: 0 }
    }

    /// A counter whose first identifier is `first`.
    pub fn starting_at(first: usize) -> (c: IdCounter)
        ensures
            c.next == first,
    {
        IdCounter { next: first }
    }

    /// Whether another identifier can be handed out.
    pub open spec fn has_next(&self) -> bool {
        self.next < usize::MAX
    }

    /// Hands out the next identifier.
    pub fn new_id(&mut self) -> (id: usize)
        requires
            old(self).has_next(),
        ensures
            id == old(self).next,
            final(self).next == old(self).next + 1,
    {
        let id = self.next;
        self.next = self.next + 1;
        id
    }
}

} // verus!
