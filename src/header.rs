use crate::bump::{advance, bump, grant, grant_at};
use crate::cursor::Arena;
use crate::layout::{on_oom, Layout, OutOfMemory};
use vstd::prelude::*;

verus! {

/// Bytes reserved at the base of the arena for the header; user blocks
/// begin right after it.
pub const HEADER_SIZE: u32 = 0x100;

/// Words of the arena that initialisation zeroes, counted from the base.
pub const ZEROED_WORDS: u32 = 0x100;

/// One past the last word that initialisation fills with a marker pattern.
pub const FILLED_WORDS: u32 = 0x10000;

/// A bump allocator whose progress counter, the bytes consumed so far, is a
/// 32-bit word stored at the base of the arena. The word outlives the
/// allocator value: it is read before and written after each request by
/// whoever owns the memory, and handed to `acquire` in between.
#[derive(Clone, Copy, Debug)]
pub struct Raspi3Alloc {
    base: u32,
    limit: u32,
}

impl Raspi3Alloc {
    pub closed spec fn base_spec(self) -> nat {
        self.base as nat
    }

    pub closed spec fn limit_spec(self) -> nat {
        self.limit as nat
    }

    pub open spec fn wf(self) -> bool {
        self.base_spec() + HEADER_SIZE <= self.limit_spec()
    }

    /// First address available to user blocks.
    pub open spec fn user_start(self) -> nat {
        self.base_spec() + HEADER_SIZE as nat
    }

    /// Bytes available to user blocks in all.
    pub open spec fn capacity(self) -> nat {
        (self.limit_spec() - self.user_start()) as nat
    }

    /// Bytes still available once `allocated_size` bytes are consumed.
    pub open spec fn remaining_spec(self, allocated_size: nat) -> nat {
        if allocated_size <= self.capacity() {
            (self.capacity() - allocated_size) as nat
        } else {
            0
        }
    }

    /// An allocator over `arena`, or `None` where the arena cannot hold the
    /// header.
    pub fn new(arena: Arena) -> (r: Option<Raspi3Alloc>)
        requires
            arena.wf(),
        ensures
            arena.limit_spec() - arena.base_spec() >= HEADER_SIZE ==> (r matches Some(h) && h.wf()
                && h.base_spec() == arena.base_spec() && h.limit_spec() == arena.limit_spec()),
            arena.limit_spec() - arena.base_spec() < HEADER_SIZE ==> r is None,
    {
        if arena.limit() - arena.base() >= HEADER_SIZE {
            Some(Raspi3Alloc { base: arena.base(), limit: arena.limit() })
        } else {
            None
        }
    }

    /// The address just past the last block handed out when
    /// `allocated_size` bytes are consumed.
    pub open spec fn cursor(self, allocated_size: nat) -> nat {
        self.user_start() + allocated_size
    }

    /// Hands out `layout.size` bytes at the first multiple of `layout.align`
    /// at or after `base + HEADER_SIZE + allocated_size`, and adds size and
    /// padding to the counter; or reports exhaustion and leaves the counter
    /// as it was.
    pub fn acquire(&self, allocated_size: &mut u32, layout: Layout) -> (r: Result<u32, OutOfMemory>)
        requires
            self.wf(),
            layout.wf(),
        ensures
            self.cursor(*final(allocated_size) as nat) == advance(
                self.cursor(*old(allocated_size) as nat),
                self.limit_spec(),
                layout,
            ),
            match grant(self.cursor(*old(allocated_size) as nat), self.limit_spec(), layout) {
                Some(p) => r == Ok::<u32, OutOfMemory>(p as u32),
                None => r == Err::<u32, OutOfMemory>(OutOfMemory { layout }),
            },
    {
        proof {
            layout.lemma_align_positive();
        }
        let user_start = self.base + HEADER_SIZE;
        if *allocated_size > self.limit - user_start {
            return Err(on_oom(layout));
        }
        match bump(user_start + *allocated_size, self.limit, layout) {
            Some(p) => {
                *allocated_size = p + layout.size - user_start;
                Ok(p)
            },
            None => Err(on_oom(layout)),
        }
    }

    /// Gives memory back, which this allocator never reuses: nothing happens.
    pub fn release(&self, _ptr: u32, _layout: Layout) {
    }

    /// Bytes still available once `allocated_size` bytes are consumed.
    pub fn remaining(&self, allocated_size: u32) -> (r: u32)
        requires
            self.wf(),
        ensures
            r == self.remaining_spec(allocated_size as nat),
    {
        let capacity = self.limit - self.base - HEADER_SIZE;
        if allocated_size <= capacity {
            capacity - allocated_size
        } else {
            0
        }
    }

    pub fn base(&self) -> (r: u32)
        ensures
            r == self.base_spec(),
    {
        self.base
    }

    pub fn limit(&self) -> (r: u32)
        ensures
            r == self.limit_spec(),
    {
        self.limit
    }
}

/// What initialisation stores in the arena's word `index`: zero over the
/// header area, a marker holding the index over the words after it, and
/// nothing elsewhere.
pub open spec fn header_fill(index: nat) -> Option<u32> {
    if index < ZEROED_WORDS {
        Some(0)
    } else if ZEROED_WORDS < index < FILLED_WORDS {
        Some((index as u32) | 0xFF00_0000u32)
    } else {
        None
    }
}

/// The value that initialisation writes at the arena's word `index`, or
/// `None` where it leaves the word alone.
pub fn memory_header_word(index: u32) -> (r: Option<u32>)
    ensures
        r == header_fill(index as nat),
{
    if index < ZEROED_WORDS {
        Some(0)
    } else if ZEROED_WORDS < index && index < FILLED_WORDS {
        Some(index | 0xFF00_0000u32)
    } else {
        None
    }
}

/// Pointers handed out in one run of requests, starting from the counter
/// `allocated_size`, are pairwise disjoint, each a multiple of its
/// alignment, and all within the user area.
pub proof fn lemma_header_grants_disjoint(
    h: Raspi3Alloc,
    allocated_size: nat,
    reqs: Seq<Layout>,
    i: int,
    j: int,
)
    requires
        h.wf(),
        0 <= i < j < reqs.len(),
        forall|k: int| 0 <= k < reqs.len() ==> (#[trigger] reqs[k]).wf(),
        grant_at(h.cursor(allocated_size), h.limit_spec(), reqs, i) is Some,
        grant_at(h.cursor(allocated_size), h.limit_spec(), reqs, j) is Some,
    ensures
        ({
            let p = grant_at(h.cursor(allocated_size), h.limit_spec(), reqs, i)->0;
            let q = grant_at(h.cursor(allocated_size), h.limit_spec(), reqs, j)->0;
            &&& h.user_start() <= p
            &&& p % (reqs[i].align as nat) == 0
            &&& q % (reqs[j].align as nat) == 0
            &&& p + reqs[i].size <= q
            &&& q + reqs[j].size <= h.limit_spec()
        }),
{
    crate::bump::lemma_grants_disjoint(h.cursor(allocated_size), h.limit_spec(), reqs, i, j);
}

/// A freshly zeroed header leaves the whole user area available:
/// `limit - base - HEADER_SIZE` bytes.
pub proof fn lemma_fresh_header_capacity(h: Raspi3Alloc)
    requires
        h.wf(),
    ensures
        header_fill(0) == Some(0u32),
        h.remaining_spec(0) == h.limit_spec() - h.base_spec() - HEADER_SIZE,
{
}

} // verus!
