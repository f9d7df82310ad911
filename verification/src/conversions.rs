//! Number conversions: narrowing keeps the low bits and can change the sign,
//! widening keeps the value, and the checked form refuses what would not
//! fit. Each contract states the exact value that comes out.

use vstd::prelude::*;

verus! {

/// Narrows to the low eight bits.
pub fn narrow_to_u8(x: u32) -> (r: u8)
    ensures
        r == x as u8,
{
    x as u8
}

/// Narrows to eight bits read as a signed value.
pub fn narrow_to_i8(x: u32) -> (r: i8)
    ensures
        r == x as i8,
{
    x as i8
}

/// Widens losslessly: the value comes through unchanged.
pub fn widen_to_i64(x: u32) -> (r: i64)
    ensures
        r == x as i64,
        r == x,
{
    x as i64
}

/// The checked narrowing: the value when it fits a signed byte, nothing
/// when it does not.
pub fn try_narrow_to_i8(x: u32) -> (r: Option<i8>)
    ensures
        x <= i8::MAX ==> r == Some(x as i8),
        x > i8::MAX ==> r is None,
{
    if x <= 127 {
        Some(x as i8)
    } else {
        None
    }
}

} // verus!
