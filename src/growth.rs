use crate::bump::{cursor_after, grant, grant_at};
use crate::header::Raspi3Alloc;
use crate::layout::{Layout, OutOfMemory};
use vstd::arithmetic::power2::is_pow2;
use vstd::prelude::*;

verus! {

/// Capacity of a vector's first buffer; every later buffer doubles it.
pub const FIRST_CAPACITY: u32 = 4;

/// Elements pushed by each of the growth demonstrations.
pub const DEMO_PUSHES: u32 = 32;

/// One move of a growing vector: the buffer it moved to, the length that
/// forced the move, and the capacity of the new buffer in elements.
#[derive(Clone, Copy, Debug, PartialEq, Eq, Structural)]
pub struct Relocation {
    pub start: u32,
    pub len: u32,
    pub capacity: u32,
}

/// What a growth demonstration shows: each move of the vector, then the
/// elements it holds at the end.
#[derive(Debug)]
pub struct GrowthReport {
    pub relocations: Vec<Relocation>,
    pub values: Vec<u32>,
}

/// The capacities a vector of capacity `cap` passes through while it grows
/// to hold `count` elements.
#[verifier::opaque]
pub open spec fn capacities_from(cap: nat, count: nat) -> Seq<nat>
    decreases count - cap,
{
    if cap >= count {
        Seq::empty()
    } else {
        let next: nat = if cap == 0 {
            FIRST_CAPACITY as nat
        } else {
            2 * cap
        };
        if next >= count {
            seq![next]
        } else {
            seq![next] + capacities_from(next, count)
        }
    }
}

/// The buffer requests of a vector of `elem` values growing from empty to
/// `count` elements.
pub open spec fn growth_requests(elem: Layout, count: nat) -> Seq<Layout> {
    let caps = capacities_from(0, count);
    Seq::new(caps.len(), |k: int| Layout { size: (caps[k] * elem.size) as u32, align: elem.align })
}

/// The `k`-th move of that vector, given the address of its new buffer.
#[verifier::opaque]
pub open spec fn relocation_at(count: nat, k: int, start: nat) -> Relocation {
    let caps = capacities_from(0, count);
    Relocation {
        start: start as u32,
        len: if k == 0 {
            1
        } else {
            (caps[k - 1] + 1) as u32
        },
        capacity: caps[k] as u32,
    }
}

proof fn lemma_capacities_bounded(cap: nat, count: nat)
    requires
        cap <= 2 * count + FIRST_CAPACITY,
    ensures
        forall|k: int|
            0 <= k < capacities_from(cap, count).len() ==> cap < #[trigger] capacities_from(
                cap,
                count,
            )[k] <= 2 * count + FIRST_CAPACITY,
    decreases count - cap,
{
    reveal(capacities_from);
    if cap < count {
        let next: nat = if cap == 0 {
            FIRST_CAPACITY as nat
        } else {
            2 * cap
        };
        if next < count {
            lemma_capacities_bounded(next, count);
            let rest = capacities_from(next, count);
            assert forall|k: int| 0 <= k < capacities_from(cap, count).len() implies cap
                < #[trigger] capacities_from(cap, count)[k] <= 2 * count + FIRST_CAPACITY by {
                if k > 0 {
                    assert(capacities_from(cap, count)[k] == rest[k - 1]);
                }
            }
        }
    }
}

proof fn lemma_capacities_step(cap: nat, count: nat)
    requires
        cap < count,
    ensures
        ({
            let next: nat = if cap == 0 {
                FIRST_CAPACITY as nat
            } else {
                2 * cap
            };
            let here = capacities_from(cap, count);
            &&& here.len() > 0
            &&& here[0] == next
            &&& here.skip(1) == capacities_from(next, count)
        }),
{
    reveal(capacities_from);
    let next: nat = if cap == 0 {
        FIRST_CAPACITY as nat
    } else {
        2 * cap
    };
    let here = capacities_from(cap, count);
    if next >= count {
        assert(capacities_from(next, count) =~= Seq::empty());
    }
    assert(here.skip(1) =~= capacities_from(next, count));
}

/// Bytes in a buffer of `capacity` elements of `elem_size` bytes.
fn buffer_bytes(capacity: u32, elem_size: u32) -> (r: u32)
    requires
        capacity <= 2 * 0x10000 + FIRST_CAPACITY,
        elem_size <= 0x1000,
    ensures
        r == capacity * elem_size,
{
    proof {
        vstd::arithmetic::mul::lemma_mul_upper_bound(
            capacity as int,
            2 * 0x10000 + FIRST_CAPACITY as int,
            elem_size as int,
            0x1000,
        );
    }
    capacity * elem_size
}

/// Serves the buffer requests of a vector of `elem` values growing from
/// empty to `count` elements, in order, from the header word
/// `allocated_size`, and records each move. Stops at the first request that
/// does not fit. Elements take 2 to 1024 bytes, the sizes for which a
/// vector's first buffer holds `FIRST_CAPACITY` of them; the count is
/// bounded so that every buffer size fits in 32 bits.
pub fn vec_growth(heap: &Raspi3Alloc, allocated_size: &mut u32, elem: Layout, count: u32) -> (r:
    Result<Vec<Relocation>, OutOfMemory>)
    requires
        heap.wf(),
        elem.wf(),
        2 <= elem.size <= 1024,
        count <= 0x10000,
    ensures
        ({
            let reqs = growth_requests(elem, count as nat);
            let used = heap.cursor(*old(allocated_size) as nat);
            let cap = heap.limit_spec();
            match r {
                Ok(rels) => {
                    &&& rels@.len() == reqs.len()
                    &&& forall|k: int|
                        0 <= k < reqs.len() ==> (#[trigger] grant_at(used, cap, reqs, k) matches Some(s)
                            && rels@[k] == relocation_at(count as nat, k, s))
                    &&& heap.cursor(*final(allocated_size) as nat) == cursor_after(used, cap, reqs)
                },
                Err(e) => exists|k: int|
                    #![trigger reqs.take(k)]
                    0 <= k < reqs.len() && (forall|i: int|
                        0 <= i < k ==> #[trigger] grant_at(used, cap, reqs, i) is Some) && grant_at(
                        used,
                        cap,
                        reqs,
                        k,
                    ) is None && e == (OutOfMemory { layout: reqs[k] }) && heap.cursor(
                        *final(allocated_size) as nat,
                    ) == cursor_after(used, cap, reqs.take(k)),
            }
        }),
{
    let ghost caps_all = capacities_from(0, count as nat);
    let ghost reqs = growth_requests(elem, count as nat);
    let ghost used0 = heap.cursor(*allocated_size as nat);
    proof {
        lemma_capacities_bounded(0, count as nat);
        assert(reqs.take(0) =~= Seq::<Layout>::empty());
    }
    let mut rels: Vec<Relocation> = Vec::new();
    let mut cap: u32 = 0;
    let ghost mut k: int = 0;
    while cap < count
        invariant
            heap.wf(),
            elem.wf(),
            2 <= elem.size <= 1024,
            count <= 0x10000,
            caps_all == capacities_from(0, count as nat),
            reqs == growth_requests(elem, count as nat),
            used0 == heap.cursor(*old(allocated_size) as nat),
            0 <= k <= caps_all.len(),
            caps_all.skip(k) == capacities_from(cap as nat, count as nat),
            k == 0 ==> cap == 0,
            k > 0 ==> cap == caps_all[k - 1],
            cap <= 2 * count + FIRST_CAPACITY,
            rels@.len() == k,
            forall|i: int|
                0 <= i < k ==> (#[trigger] grant_at(used0, heap.limit_spec(), reqs, i) matches Some(s)
                    && rels@[i] == relocation_at(count as nat, i, s)),
            heap.cursor(*allocated_size as nat) == cursor_after(used0, heap.limit_spec(), reqs.take(k)),
        decreases 2 * count + FIRST_CAPACITY - cap,
    {
        let next: u32 = if cap == 0 {
            FIRST_CAPACITY
        } else {
            2 * cap
        };
        proof {
            lemma_capacities_step(cap as nat, count as nat);
            assert(caps_all.skip(k)[0] == caps_all[k]);
            assert(caps_all.skip(k + 1) =~= caps_all.skip(k).skip(1));
        }
        let layout = Layout { size: buffer_bytes(next, elem.size), align: elem.align };
        proof {
            crate::bump::lemma_prefix_step(used0, heap.limit_spec(), reqs, k);
        }
        let ghost before = heap.cursor(*allocated_size as nat);
        match heap.acquire(allocated_size, layout) {
            Ok(start) => {
                let ghost s = grant(before, heap.limit_spec(), layout)->0;
                assert(grant_at(used0, heap.limit_spec(), reqs, k) == Some(s));
                let rel = Relocation { start, len: cap + 1, capacity: next };
                assert(rel == relocation_at(count as nat, k, s)) by {
                    reveal(relocation_at);
                }
                rels.push(rel);
                assert forall|i: int| 0 <= i < k + 1 implies (#[trigger] grant_at(
                    used0,
                    heap.limit_spec(),
                    reqs,
                    i,
                ) matches Some(s) && rels@[i] == relocation_at(
                    count as nat,
                    i,
                    s,
                )) by {}
            },
            Err(e) => {
                return Err(e);
            },
        }
        cap = next;
        proof {
            k = k + 1;
        }
    }
    proof {
        reveal(capacities_from);
        assert(caps_all.skip(k).len() == 0);
        assert(reqs.take(k) =~= reqs);
    }
    Ok(rels)
}

/// The numbers `0..count` in order: what each demonstration pushes.
fn pushed_values(count: u32) -> (r: Vec<u32>)
    ensures
        r@.len() == count,
        forall|i: int| 0 <= i < count ==> r@[i] == i,
{
    let mut v: Vec<u32> = Vec::new();
    let mut i: u32 = 0;
    while i < count
        invariant
            i <= count,
            v@.len() == i,
            forall|j: int| 0 <= j < i ==> v@[j] == j,
        decreases count - i,
    {
        v.push(i);
        i = i + 1;
    }
    v
}

/// What a growth demonstration with `elem`-sized elements reports.
pub open spec fn demo_report(
    heap: Raspi3Alloc,
    used: nat,
    elem: Layout,
    r: Result<GrowthReport, OutOfMemory>,
    final_used: nat,
) -> bool {
    let reqs = growth_requests(elem, DEMO_PUSHES as nat);
    let cap = heap.limit_spec();
    let used = heap.cursor(used);
    match r {
        Ok(report) => {
            &&& report.relocations@.len() == reqs.len()
            &&& forall|k: int|
                0 <= k < reqs.len() ==> (#[trigger] grant_at(used, cap, reqs, k) matches Some(s)
                    && report.relocations@[k] == relocation_at(
                    DEMO_PUSHES as nat,
                    k,
                    s,
                ))
            &&& report.values@.len() == DEMO_PUSHES
            &&& forall|i: int| 0 <= i < DEMO_PUSHES ==> report.values@[i] == i
            &&& heap.cursor(final_used) == cursor_after(used, cap, reqs)
        },
        Err(e) => exists|k: int|
            #![trigger reqs.take(k)]
            0 <= k < reqs.len() && (forall|i: int|
                0 <= i < k ==> #[trigger] grant_at(used, cap, reqs, i) is Some) && grant_at(
                used,
                cap,
                reqs,
                k,
            ) is None && e == (OutOfMemory { layout: reqs[k] }) && heap.cursor(final_used) == cursor_after(
                used,
                cap,
                reqs.take(k),
            ),
    }
}

fn growth_demo(heap: &Raspi3Alloc, allocated_size: &mut u32, elem: Layout) -> (r: Result<
    GrowthReport,
    OutOfMemory,
>)
    requires
        heap.wf(),
        elem.wf(),
        2 <= elem.size <= 1024,
    ensures
        demo_report(*heap, *old(allocated_size) as nat, elem, r, *final(allocated_size) as nat),
{
    match vec_growth(heap, allocated_size, elem, DEMO_PUSHES) {
        Ok(relocations) => Ok(GrowthReport { relocations, values: pushed_values(DEMO_PUSHES) }),
        Err(e) => Err(e),
    }
}

/// Pushes `0..DEMO_PUSHES` as 32-bit integers into a vector backed by the
/// header arena and reports where the vector moved each time it grew.
pub fn alloc_test_u32(heap: &Raspi3Alloc, allocated_size: &mut u32) -> (r: Result<
    GrowthReport,
    OutOfMemory,
>)
    requires
        heap.wf(),
    ensures
        demo_report(
            *heap,
            *old(allocated_size) as nat,
            Layout { size: 4, align: 4 },
            r,
            *final(allocated_size) as nat,
        ),
{
    proof {
        reveal_with_fuel(is_pow2, 4);
        assert(is_pow2(4));
    }
    growth_demo(heap, allocated_size, Layout { size: 4, align: 4 })
}

/// Pushes `0..DEMO_PUSHES` as 64-bit values into a vector backed by the
/// header arena and reports where the vector moved each time it grew. The
/// values are reported as the integers they hold.
pub fn alloc_test_f64(heap: &Raspi3Alloc, allocated_size: &mut u32) -> (r: Result<
    GrowthReport,
    OutOfMemory,
>)
    requires
        heap.wf(),
    ensures
        demo_report(
            *heap,
            *old(allocated_size) as nat,
            Layout { size: 8, align: 8 },
            r,
            *final(allocated_size) as nat,
        ),
{
    proof {
        reveal_with_fuel(is_pow2, 4);
        assert(is_pow2(8));
    }
    growth_demo(heap, allocated_size, Layout { size: 8, align: 8 })
}

} // verus!
