use vstd::prelude::*;
use vstd::slice::slice_subrange;

verus! {

/// Borrows the contiguous range `[a, b)` of `s` as a view: a non-owning
/// slice of exactly `b - a` elements that matches the source at offsets
/// `a..b`.
pub fn view_range<'a>(s: &'a [i32], a: usize, b: usize) -> (r: &'a [i32])
    requires
        a <= b <= s@.len(),
    ensures
        r@.len() == b - a,
        forall|k: int| 0 <= k < b - a ==> r@[k] == s@[a + k],
{
    slice_subrange(s, a, b)
}

/// Law: an empty view exposes no elements, and any two empty views are
/// equal, whatever sequences they were borrowed from.
pub proof fn lemma_empty_views_equal(a: Seq<i32>, b: Seq<i32>)
    requires
        a.len() == 0,
        b.len() == 0,
    ensures
        a == b,
{
    assert(a =~= b);
}

} // verus!
