use vstd::prelude::*;

verus! {

/// The Server Loop's id source: each accepted connection takes the next
/// unused non-negative integer; ids are never reused.
pub struct IdCounter {
    pub next: u32,
}

impl IdCounter {
    /// Counting starts at zero.
    pub fn new() -> (r: IdCounter)
        ensures
            r.next == 0,
    {
        IdCounter { next: 0 }
    }

    /// Allocates the next id: the ids handed out are `0, 1, 2, ...` in
    /// acceptance order, each strictly greater than every earlier one.
    pub fn take_next(&mut self) -> (id: u32)
        requires
            old(self).next < u32::MAX,
        ensures
            id == old(self).next,
            final(self).next == old(self).next + 1,
    {
        let id = self.next;
        self.next = self.next + 1;
        id
    }
}

} // verus!
