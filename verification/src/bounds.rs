//! Bounds-checked access to fixed-length buffers and ordered data.
//!
//! Every access is answered from the container's contents alone: an index or
//! range inside the length yields exactly the element or subrange stored
//! there, and anything at or beyond the length is reported as absent rather
//! than read from adjacent memory.

use vstd::prelude::*;

verus! {

/// Indexed access that never reads out of bounds: the element at `i` when
/// `i` is a valid index, absent otherwise.
pub fn element_at(data: &Vec<i32>, i: usize) -> (r: Option<i32>)
    ensures
        i < data@.len() ==> r == Some(data@[i as int]),
        i >= data@.len() ==> r is None,
{
    if i < data.len() {
        Some(data[i])
    } else {
        None
    }
}

/// The subrange `start..end` when it lies wholly inside the data, absent
/// otherwise.
pub fn sub_range(data: &Vec<i32>, start: usize, end: usize) -> (r: Option<Vec<i32>>)
    ensures
        r is Some <==> start <= end <= data@.len(),
        r matches Some(s) ==> s@ == data@.subrange(start as int, end as int),
{
    if start <= end && end <= data.len() {
        let mut out: Vec<i32> = Vec::new();
        let mut j: usize = start;
        while j < end
            invariant
                start <= j <= end <= data@.len(),
                out@ == data@.subrange(start as int, j as int),
            decreases end - j,
        {
            out.push(data[j]);
            j = j + 1;
            assert(out@ =~= data@.subrange(start as int, j as int));
        }
        Some(out)
    } else {
        None
    }
}

/// The subrange `start..end` with the requested end clamped to the data's
/// length; absent when `start` lies beyond even the clamped end.
pub fn sub_range_clamped(data: &Vec<i32>, start: usize, end: usize) -> (r: Option<Vec<i32>>)
    ensures
        ({
            let e = if end <= data@.len() { end as int } else { data@.len() as int };
            &&& r is Some <==> start <= e
            &&& (r matches Some(s) ==> s@ == data@.subrange(start as int, e))
        }),
{
    let e: usize = if end <= data.len() { end } else { data.len() };
    sub_range(data, start, e)
}

/// Copies into the front of `dst` as many bytes of `src` as fit, never more
/// than `dst` holds: the destination keeps its length, its first `n` bytes
/// become the first `n` bytes of `src`, and the rest is untouched.
pub fn copy_prefix(dst: &mut Vec<u8>, src: &Vec<u8>) -> (n: usize)
    ensures
        n == if old(dst)@.len() <= src@.len() { old(dst)@.len() } else { src@.len() },
        final(dst)@.len() == old(dst)@.len(),
        forall|j: int| 0 <= j < n ==> final(dst)@[j] == src@[j],
        forall|j: int| n <= j < old(dst)@.len() ==> final(dst)@[j] == old(dst)@[j],
{
    let n: usize = if dst.len() <= src.len() { dst.len() } else { src.len() };
    let mut j: usize = 0;
    while j < n
        invariant
            j <= n,
            n <= dst@.len(),
            n <= src@.len(),
            dst@.len() == old(dst)@.len(),
            forall|k: int| 0 <= k < j ==> dst@[k] == src@[k],
            forall|k: int| j <= k < dst@.len() ==> dst@[k] == old(dst)@[k],
        decreases n - j,
    {
        dst[j] = src[j];
        j = j + 1;
    }
    n
}

} // verus!
