use vstd::prelude::*;
use vstd::slice::slice_index_get;

verus! {

/// Bounds-checked element lookup: returns the stored element when the
/// index is within `[0, length)`, and an absence signal otherwise.
pub fn lookup(s: &[i32], i: usize) -> (r: Option<i32>)
    ensures
        i < s@.len() ==> r == Some(s@[i as int]),
        i >= s@.len() ==> r is None,
{
    if i < s.len() {
        Some(*slice_index_get(s, i))
    } else {
        None
    }
}

/// Direct indexed access: returns the stored element at `i`. The index
/// must be valid; an out-of-range index is excluded by the contract, so
/// no call of this function can abort.
pub fn read_at(s: &[i32], i: usize) -> (r: i32)
    requires
        i < s@.len(),
    ensures
        r == s@[i as int],
{
    *slice_index_get(s, i)
}

/// Direct indexed write: stores `val` at position `i`, leaving every
/// other element as it was. The index must be valid.
pub fn write_at(v: &mut Vec<i32>, i: usize, val: i32)
    requires
        i < old(v)@.len(),
    ensures
        final(v)@ == old(v)@.update(i as int, val),
{
    v[i] = val;
}

/// Narrows a machine-word index to a signed 32-bit value: the same value
/// when it fits, an absence signal when it is too big.
pub fn fit_to_i32(q: usize) -> (r: Option<i32>)
    ensures
        q <= i32::MAX ==> r == Some(q as i32),
        q > i32::MAX ==> r is None,
{
    if q <= i32::MAX as usize {
        Some(q as i32)
    } else {
        None
    }
}

/// The first element of a non-empty sequence.
pub fn first_element(s: &[i32]) -> (r: i32)
    requires
        s@.len() > 0,
    ensures
        r == s@[0],
{
    *slice_index_get(s, 0)
}

/// Writes each counter value `i` of `0..n` at position `i + 1`, leaving
/// position 0 and every position past `n` untouched.
pub fn fill_prefix_with_indices(v: &mut Vec<i32>, n: usize)
    requires
        n < old(v)@.len(),
        n <= i32::MAX,
    ensures
        final(v)@.len() == old(v)@.len(),
        forall|k: int| 0 <= k < n ==> #[trigger] final(v)@[k + 1] == k as i32,
        final(v)@[0] == old(v)@[0],
        forall|k: int| n < k < old(v)@.len() ==> final(v)@[k] == old(v)@[k],
{
    let mut i: usize = 0;
    while i < n
        invariant
            i <= n,
            n < v@.len(),
            n <= i32::MAX,
            v@.len() == old(v)@.len(),
            forall|k: int| 0 <= k < i ==> #[trigger] v@[k + 1] == k as i32,
            v@[0] == old(v)@[0],
            forall|k: int| i < k < v@.len() ==> v@[k] == old(v)@[k],
        decreases n - i,
    {
        v[i + 1] = i as i32;
        i += 1;
    }
}

/// Writes each element of `xs` at the position its own value names, so
/// that afterwards `v` holds the value `x` at index `x` for every `x` in
/// `xs`; every position that no element of `xs` names keeps its value.
pub fn scatter_by_value(v: &mut Vec<i32>, xs: &[i32])
    requires
        forall|j: int| 0 <= j < xs@.len() ==> 0 <= #[trigger] xs@[j] && xs@[j] < old(v)@.len(),
    ensures
        final(v)@.len() == old(v)@.len(),
        forall|j: int| 0 <= j < xs@.len() ==> final(v)@[#[trigger] xs@[j] as int] == xs@[j],
        forall|p: int|
            0 <= p < old(v)@.len() && (forall|j: int|
                0 <= j < xs@.len() ==> #[trigger] xs@[j] as int != p) ==> final(v)@[p] == old(
                v,
            )@[p],
{
    let n = xs.len();
    let mut i: usize = 0;
    while i < n
        invariant
            i <= n,
            n == xs@.len(),
            v@.len() == old(v)@.len(),
            forall|j: int| 0 <= j < xs@.len() ==> 0 <= #[trigger] xs@[j] && xs@[j] < v@.len(),
            forall|j: int| 0 <= j < i ==> v@[#[trigger] xs@[j] as int] == xs@[j],
            forall|p: int|
                0 <= p < v@.len() && (forall|j: int|
                    0 <= j < i ==> #[trigger] xs@[j] as int != p) ==> v@[p] == old(v)@[p],
        decreases n - i,
    {
        let x = *slice_index_get(xs, i);
        v[x as usize] = x;
        i += 1;
    }
}

/// The count of elements the sequence holds.
pub fn length(s: &[i32]) -> (n: usize)
    ensures
        n == s@.len(),
{
    s.len()
}

} // verus!
