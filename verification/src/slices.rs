//! Borrowing a part of a sequence: the returned slice borrows from the
//! argument, with the lifetime left for the compiler to infer.

use vstd::prelude::*;
use vstd::slice::slice_subrange;

verus! {

/// The first two elements of `seq`, or all of it when it is shorter.
pub fn first_two(seq: &[u32]) -> (r: &[u32])
    ensures
        seq@.len() < 2 ==> r@ == seq@,
        seq@.len() >= 2 ==> r@ == seq@.subrange(0, 2),
{
    if seq.len() < 2 {
        seq
    } else {
        slice_subrange(seq, 0, 2)
    }
}

} // verus!
