use crate::bump::{advance, bump, grant, grant_at};
use crate::layout::{on_oom, Layout, OutOfMemory};
use vstd::prelude::*;

verus! {

/// The address window `[base, limit)` reserved for dynamic allocation.
#[derive(Clone, Copy, Debug, PartialEq, Eq, Structural)]
pub struct Arena {
    base: u32,
    limit: u32,
}

impl Arena {
    pub open spec fn wf(self) -> bool {
        self.base_spec() < self.limit_spec()
    }

    pub closed spec fn base_spec(self) -> nat {
        self.base as nat
    }

    pub closed spec fn limit_spec(self) -> nat {
        self.limit as nat
    }

    /// The window `[base, limit)`, or `None` where it is empty.
    pub fn new(base: u32, limit: u32) -> (r: Option<Arena>)
        ensures
            base < limit ==> (r matches Some(a) && a.base_spec() == base && a.limit_spec() == limit),
            base >= limit ==> r is None,
    {
        if base < limit {
            Some(Arena { base, limit })
        } else {
            None
        }
    }

    pub fn base(&self) -> (r: u32)
        ensures
            r == self.base_spec(),
    {
        self.base
    }

    pub fn limit(&self) -> (r: u32)
        ensures
            r == self.limit_spec(),
    {
        self.limit
    }
}

/// A bump allocator whose next-free address lives in the allocator value
/// itself.
#[derive(Debug)]
pub struct CursorAlloc {
    base: u32,
    head: u32,
    end: u32,
}

impl CursorAlloc {
    pub open spec fn wf(self) -> bool {
        self.base_spec() <= self.head_spec() <= self.end_spec()
    }

    pub closed spec fn base_spec(self) -> nat {
        self.base as nat
    }

    /// The next free address.
    pub closed spec fn head_spec(self) -> nat {
        self.head as nat
    }

    pub closed spec fn end_spec(self) -> nat {
        self.end as nat
    }

    /// Bytes not yet handed out.
    pub open spec fn remaining_spec(self) -> nat {
        (self.end_spec() - self.head_spec()) as nat
    }

    /// The allocator over `arena` that has handed out nothing.
    pub closed spec fn fresh(arena: Arena) -> CursorAlloc {
        CursorAlloc { base: arena.base, head: arena.base, end: arena.limit }
    }

    /// An allocator over `arena` that has handed out nothing.
    pub fn new(arena: Arena) -> (r: CursorAlloc)
        requires
            arena.wf(),
        ensures
            r == CursorAlloc::fresh(arena),
            r.wf(),
            r.base_spec() == arena.base_spec(),
            r.head_spec() == arena.base_spec(),
            r.end_spec() == arena.limit_spec(),
    {
        CursorAlloc { base: arena.base, head: arena.base, end: arena.limit }
    }

    /// Hands out `layout.size` bytes at a multiple of `layout.align`, or
    /// reports exhaustion and leaves the cursor where it was.
    pub fn acquire(&mut self, layout: Layout) -> (r: Result<u32, OutOfMemory>)
        requires
            old(self).wf(),
            layout.wf(),
        ensures
            final(self).wf(),
            final(self).base_spec() == old(self).base_spec(),
            final(self).end_spec() == old(self).end_spec(),
            final(self).head_spec() == advance(old(self).head_spec(), old(self).end_spec(), layout),
            match grant(old(self).head_spec(), old(self).end_spec(), layout) {
                Some(start) => r == Ok::<u32, OutOfMemory>(start as u32),
                None => r == Err::<u32, OutOfMemory>(OutOfMemory { layout }),
            },
    {
        proof {
            layout.lemma_align_positive();
        }
        match bump(self.head, self.end, layout) {
            Some(start) => {
                self.head = start + layout.size;
                Ok(start)
            },
            None => Err(on_oom(layout)),
        }
    }

    /// Gives memory back, which this allocator never reuses: nothing happens.
    pub fn release(&self, _ptr: u32, _layout: Layout) {
    }

    /// Bytes between the cursor and the end of the arena.
    pub fn remaining(&self) -> (r: u32)
        requires
            self.wf(),
        ensures
            r == self.remaining_spec(),
    {
        self.end - self.head
    }

    pub fn head(&self) -> (r: u32)
        ensures
            r == self.head_spec(),
    {
        self.head
    }
}

/// A fresh allocator has the whole arena left: `limit - base` bytes.
pub proof fn lemma_fresh_cursor_capacity(arena: Arena)
    requires
        arena.wf(),
    ensures
        CursorAlloc::fresh(arena).wf(),
        CursorAlloc::fresh(arena).remaining_spec() == arena.limit_spec() - arena.base_spec(),
{
}

/// Addresses handed out in one run of requests are pairwise disjoint, each a
/// multiple of its alignment, and all within `[head, end)` of the arena.
pub proof fn lemma_cursor_grants_disjoint(a: CursorAlloc, reqs: Seq<Layout>, i: int, j: int)
    requires
        a.wf(),
        0 <= i < j < reqs.len(),
        forall|k: int| 0 <= k < reqs.len() ==> (#[trigger] reqs[k]).wf(),
        grant_at(a.head_spec(), a.end_spec(), reqs, i) is Some,
        grant_at(a.head_spec(), a.end_spec(), reqs, j) is Some,
    ensures
        ({
            let p = grant_at(a.head_spec(), a.end_spec(), reqs, i)->0;
            let q = grant_at(a.head_spec(), a.end_spec(), reqs, j)->0;
            &&& a.base_spec() <= a.head_spec() <= p
            &&& p % (reqs[i].align as nat) == 0
            &&& q % (reqs[j].align as nat) == 0
            &&& p + reqs[i].size <= q
            &&& q + reqs[j].size <= a.end_spec()
        }),
{
    crate::bump::lemma_grants_disjoint(a.head_spec(), a.end_spec(), reqs, i, j);
}

} // verus!
