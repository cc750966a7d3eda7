use vstd::arithmetic::power2::is_pow2;
use vstd::prelude::*;

verus! {

/// A request for `size` bytes that must start at a multiple of `align`.
#[derive(Clone, Copy, Debug, PartialEq, Eq, Structural)]
pub struct Layout {
    pub size: u32,
    pub align: u32,
}

/// The allocator's only failure: the request does not fit in what is left
/// of the arena. It carries the request that could not be served.
#[derive(Clone, Copy, Debug, PartialEq, Eq, Structural)]
pub struct OutOfMemory {
    pub layout: Layout,
}

impl Layout {
    /// A request is well formed when its alignment is a power of two.
    pub open spec fn wf(self) -> bool {
        is_pow2(self.align as int)
    }

    pub proof fn lemma_align_positive(self)
        requires
            self.wf(),
        ensures
            self.align > 0,
    {
        reveal(is_pow2);
    }

    /// The request `(size, align)`, or `None` where `align` is not a power of two.
    pub fn from_size_align(size: u32, align: u32) -> (r: Option<Layout>)
        ensures
            is_pow2(align as int) ==> r == Some(Layout { size, align }),
            !is_pow2(align as int) ==> r is None,
    {
        if is_power_of_two(align) {
            Some(Layout { size, align })
        } else {
            None
        }
    }

    pub fn size(&self) -> (r: u32)
        ensures
            r == self.size,
    {
        self.size
    }

    pub fn align(&self) -> (r: u32)
        ensures
            r == self.align,
    {
        self.align
    }
}

/// Whether `n` is a power of two, by halving it down to one.
fn is_power_of_two(n: u32) -> (r: bool)
    ensures
        r == is_pow2(n as int),
{
    let mut m: u32 = n;
    while m > 1 && m % 2 == 0
        invariant
            is_pow2(n as int) == is_pow2(m as int),
        decreases m,
    {
        proof {
            reveal(is_pow2);
        }
        m = m / 2;
    }
    proof {
        reveal(is_pow2);
    }
    m == 1
}

/// What an exhausted arena reports for `layout`. The decision to halt,
/// restart or fall back belongs to the caller; the allocator itself only
/// reports.
pub fn on_oom(layout: Layout) -> (r: OutOfMemory)
    ensures
        r == (OutOfMemory { layout }),
{
    OutOfMemory { layout }
}

} // verus!
