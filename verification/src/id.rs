//! An identifier allocator: a monotonic counter with a free list for reuse.

use vstd::prelude::*;

verus! {

/// Hands out `usize` identifiers. A fresh identifier comes from a
/// monotonically advancing counter; identifiers returned through
/// [`RecycleAllocator::dealloc`] are kept on a free list and handed out
/// again, most recently returned first, before any fresh one is minted.
pub struct RecycleAllocator {
    current: usize,
    recycled: Vec<usize>,
}

impl RecycleAllocator {
    /// The identifier the counter would mint next, when the free list is
    /// empty.
    pub closed spec fn next_fresh(&self) -> nat {
        self.current as nat
    }

    /// The identifiers currently available for reuse, most recently
    /// returned last.
    pub closed spec fn free_list(&self) -> Seq<usize> {
        self.recycled@
    }

    /// Creates an allocator whose first fresh identifier is `current`, with
    /// an empty free list.
    pub fn new(current: usize) -> (r: Self)
        ensures
            r.next_fresh() == current,
            r.free_list() == Seq::<usize>::empty(),
    {
        Self { current, recycled: Vec::new() }
    }

    /// Allocates an identifier: the most recently recycled one if any is
    /// available, otherwise the fresh one, advancing the counter by one.
    pub fn allocate(&mut self) -> (id: usize)
        requires
            old(self).free_list().len() == 0 ==> old(self).next_fresh() + 1 < usize::MAX,
        ensures
            old(self).free_list().len() > 0 ==> (
                id == old(self).free_list().last()
                && final(self).free_list() == old(self).free_list().drop_last()
                && final(self).next_fresh() == old(self).next_fresh()
            ),
            old(self).free_list().len() == 0 ==> (
                id == old(self).next_fresh()
                && final(self).next_fresh() == old(self).next_fresh() + 1
                && final(self).free_list() == old(self).free_list()
            ),
    {
        if let Some(id) = self.recycled.pop() {
            id
        } else {
            self.current = self.current + 1;
            self.current - 1
        }
    }

    /// Returns an identifier for reuse by pushing it onto the free list.
    /// The counter is untouched.
    pub fn dealloc(&mut self, id: usize)
        ensures
            final(self).free_list() == old(self).free_list().push(id),
            final(self).next_fresh() == old(self).next_fresh(),
    {
        self.recycled.push(id);
    }
}

} // verus!
