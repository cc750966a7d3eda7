use crate::layout::Layout;
use vstd::prelude::*;

verus! {

/// Bytes skipped after `cursor` so that the next block starts at a multiple
/// of `align`.
pub open spec fn padding(cursor: nat, align: nat) -> nat {
    if cursor % align == 0 {
        0
    } else {
        (align - cursor % align) as nat
    }
}

/// Where a block for `layout` starts when the free space begins at `cursor`
/// and ends at `end`; `None` when the padded block does not fit.
pub open spec fn grant(cursor: nat, end: nat, layout: Layout) -> Option<nat> {
    let start = cursor + padding(cursor, layout.align as nat);
    if start + layout.size <= end {
        Some(start)
    } else {
        None
    }
}

/// The cursor after serving `layout`: past the block when one was granted,
/// unchanged otherwise.
pub open spec fn advance(cursor: nat, end: nat, layout: Layout) -> nat {
    match grant(cursor, end, layout) {
        Some(start) => start + layout.size as nat,
        None => cursor,
    }
}

/// Padding that brings `cursor` up to a multiple of `align`.
pub fn align_offset(cursor: u32, align: u32) -> (r: u32)
    requires
        align > 0,
    ensures
        r == padding(cursor as nat, align as nat),
        r < align,
{
    let m = cursor % align;
    if m == 0 {
        0
    } else {
        align - m
    }
}

/// Serves `layout` from the free space `[cursor, end)`: the start of the
/// block, or `None` when the padded block would pass `end`.
pub fn bump(cursor: u32, end: u32, layout: Layout) -> (r: Option<u32>)
    requires
        layout.align > 0,
    ensures
        r matches Some(s) ==> grant(cursor as nat, end as nat, layout) == Some(s as nat),
        r is None ==> grant(cursor as nat, end as nat, layout) is None,
{
    let pad = align_offset(cursor, layout.align);
    let start: u64 = cursor as u64 + pad as u64;
    if start + layout.size as u64 <= end as u64 {
        Some(start as u32)
    } else {
        None
    }
}

} // verus!

verus! {

/// The cursor after serving `reqs` in order, starting from `cursor`.
pub open spec fn cursor_after(cursor: nat, end: nat, reqs: Seq<Layout>) -> nat
    decreases reqs.len(),
{
    if reqs.len() == 0 {
        cursor
    } else {
        advance(cursor_after(cursor, end, reqs.drop_last()), end, reqs.last())
    }
}

/// What the `i`-th of `reqs` is granted when they are served in order from
/// `cursor`.
#[verifier::opaque]
pub open spec fn grant_at(cursor: nat, end: nat, reqs: Seq<Layout>, i: int) -> Option<nat> {
    grant(cursor_after(cursor, end, reqs.take(i)), end, reqs[i])
}

pub(crate) proof fn lemma_prefix_step(cursor: nat, end: nat, reqs: Seq<Layout>, k: int)
    requires
        0 <= k < reqs.len(),
    ensures
        cursor_after(cursor, end, reqs.take(k + 1)) == advance(
            cursor_after(cursor, end, reqs.take(k)),
            end,
            reqs[k],
        ),
        grant_at(cursor, end, reqs, k) == grant(cursor_after(cursor, end, reqs.take(k)), end, reqs[k]),
{
    reveal(grant_at);
    assert(reqs.take(k + 1).drop_last() =~= reqs.take(k));
}

proof fn lemma_round_up(c: int, a: int)
    requires
        a > 0,
        c >= 0,
    ensures
        (c + (a - c % a)) % a == 0,
{
    vstd::arithmetic::div_mod::lemma_fundamental_div_mod(c, a);
    vstd::arithmetic::div_mod::lemma_mod_multiples_basic(c / a + 1, a);
    assert(c + (a - c % a) == (c / a + 1) * a) by (nonlinear_arith)
        requires
            c == a * (c / a) + c % a,
    ;
}

/// A granted block starts at a multiple of the alignment, no earlier than the
/// cursor, and ends no later than `end`.
pub proof fn lemma_grant_placed(cursor: nat, end: nat, layout: Layout)
    requires
        layout.wf(),
        grant(cursor, end, layout) is Some,
    ensures
        grant(cursor, end, layout)->0 % (layout.align as nat) == 0,
        cursor <= grant(cursor, end, layout)->0,
        grant(cursor, end, layout)->0 + layout.size <= end,
        advance(cursor, end, layout) == grant(cursor, end, layout)->0 + layout.size,
{
    layout.lemma_align_positive();
    let a = layout.align as nat;
    let s = grant(cursor, end, layout)->0;
    if cursor % a != 0 {
        assert(s == cursor + (a - cursor % a));
        lemma_round_up(cursor as int, a as int);
    }
}

/// The progress counter never moves back: serving any sequence of requests,
/// exhausted ones included, leaves every later cursor at or past every
/// earlier one.
pub proof fn lemma_cursor_never_decreases(cursor: nat, end: nat, reqs: Seq<Layout>, i: int, j: int)
    requires
        0 <= i <= j <= reqs.len(),
    ensures
        cursor <= cursor_after(cursor, end, reqs.take(i)),
        cursor_after(cursor, end, reqs.take(i)) <= cursor_after(cursor, end, reqs.take(j)),
    decreases j,
{
    if j > 0 {
        lemma_prefix_step(cursor, end, reqs, j - 1);
        if i < j {
            lemma_cursor_never_decreases(cursor, end, reqs, i, j - 1);
        } else {
            lemma_cursor_never_decreases(cursor, end, reqs, i - 1, j - 1);
        }
    } else {
        assert(reqs.take(0) =~= Seq::<Layout>::empty());
    }
}

/// Blocks granted in one run of requests are pairwise disjoint, each starts
/// at a multiple of its alignment, and all lie within `[cursor, end)`.
pub proof fn lemma_grants_disjoint(cursor: nat, end: nat, reqs: Seq<Layout>, i: int, j: int)
    requires
        0 <= i < j < reqs.len(),
        forall|k: int| 0 <= k < reqs.len() ==> (#[trigger] reqs[k]).wf(),
        grant_at(cursor, end, reqs, i) is Some,
        grant_at(cursor, end, reqs, j) is Some,
    ensures
        grant_at(cursor, end, reqs, i)->0 % (reqs[i].align as nat) == 0,
        grant_at(cursor, end, reqs, j)->0 % (reqs[j].align as nat) == 0,
        cursor <= grant_at(cursor, end, reqs, i)->0,
        grant_at(cursor, end, reqs, i)->0 + reqs[i].size <= grant_at(cursor, end, reqs, j)->0,
        grant_at(cursor, end, reqs, j)->0 + reqs[j].size <= end,
{
    reveal(grant_at);
    let ci = cursor_after(cursor, end, reqs.take(i));
    let cj = cursor_after(cursor, end, reqs.take(j));
    lemma_grant_placed(ci, end, reqs[i]);
    lemma_grant_placed(cj, end, reqs[j]);
    lemma_prefix_step(cursor, end, reqs, i);
    lemma_cursor_never_decreases(cursor, end, reqs, i, i + 1);
    lemma_cursor_never_decreases(cursor, end, reqs, i + 1, j);
}

/// A request is refused exactly when the bytes it would consume, padding
/// included, pass `end`; a refused request leaves the cursor where it was.
pub proof fn lemma_exhaustion_exact(cursor: nat, end: nat, layout: Layout)
    ensures
        grant(cursor, end, layout) is None <==> cursor + padding(cursor, layout.align as nat)
            + layout.size > end,
        grant(cursor, end, layout) is None ==> advance(cursor, end, layout) == cursor,
{
}

/// Alignment one never pads, and a cursor that is already a multiple of the
/// alignment is not padded either.
pub proof fn lemma_padding_edges(cursor: nat, align: nat)
    requires
        align > 0,
    ensures
        padding(cursor, 1) == 0,
        cursor % align == 0 ==> padding(cursor, align) == 0,
{
}

} // verus!
