use vstd::prelude::*;

verus! {

/// Marker that the boot sample sets in the upper half of each value it
/// pushes.
pub const VALUE_MARKER: u32 = 0x00FF_0000;

/// Mask of the lower half of a 32-bit value.
pub const LOW_HALF: u32 = 0xFFFF;

/// The values `i | VALUE_MARKER` for `i` in `0..count`, in order.
pub fn marked_values(count: u32) -> (r: Vec<u32>)
    ensures
        r@.len() == count,
        forall|i: int| 0 <= i < count ==> r@[i] == (i as u32 | VALUE_MARKER),
{
    let mut v: Vec<u32> = Vec::new();
    let mut i: u32 = 0;
    while i < count
        invariant
            i <= count,
            v@.len() == i,
            forall|j: int| 0 <= j < i ==> v@[j] == (j as u32 | VALUE_MARKER),
        decreases count - i,
    {
        v.push(i | VALUE_MARKER);
        i = i + 1;
    }
    v
}

/// The sum of the lower halves of `s`.
pub open spec fn low_half_sum(s: Seq<u32>) -> nat
    decreases s.len(),
{
    if s.len() == 0 {
        0
    } else {
        low_half_sum(s.drop_last()) + (s.last() & LOW_HALF) as nat
    }
}

/// Adds up the lower halves of `values`.
pub fn sum_low_halves(values: &Vec<u32>) -> (r: u32)
    requires
        values@.len() <= 0x10000,
    ensures
        r == low_half_sum(values@),
{
    let mut sum: u32 = 0;
    let mut i: usize = 0;
    while i < values.len()
        invariant
            i <= values@.len() <= 0x10000,
            sum == low_half_sum(values@.take(i as int)),
            sum <= LOW_HALF * i,
        decreases values@.len() - i,
    {
        let v = values[i];
        assert(v & 0xFFFFu32 <= 0xFFFFu32) by (bit_vector);
        proof {
            assert(values@.take(i as int + 1).drop_last() =~= values@.take(i as int));
        }
        sum = sum + (v & LOW_HALF);
        i = i + 1;
    }
    assert(values@.take(i as int) =~= values@);
    sum
}

} // verus!
