//! Recoverable against unrecoverable failure: plain division panics on a
//! zero divisor, so the checked variant reports the bad input through an
//! `Option` instead.

use vstd::prelude::*;

verus! {

/// The quotient as machine division computes it, rounded towards zero. Spec
/// division `/` rounds so that the remainder is never negative; dividing the
/// negated dividend and negating back gives the machine rounding.
pub open spec fn quotient_towards_zero(a: i32, b: i32) -> i32 {
    if a >= 0 {
        (a / b) as i32
    } else {
        (-((-a) / (b as int))) as i32
    }
}

/// The remainder that machine division leaves, with the sign of the
/// dividend, matching the quotient that rounds towards zero.
pub open spec fn remainder_towards_zero(a: i32, b: i32) -> i32 {
    if a >= 0 {
        (a % b) as i32
    } else {
        (-((-a) % (b as int))) as i32
    }
}

/// Integer division for inputs on which it cannot fail.
pub fn divide(dividend: i32, divisor: i32) -> (q: i32)
    requires
        divisor != 0,
        !(dividend == i32::MIN && divisor == -1),
    ensures
        q == quotient_towards_zero(dividend, divisor),
{
    dividend / divisor
}

/// Division that answers `None` exactly on a zero divisor, and the quotient
/// otherwise.
pub fn safe_divide(dividend: i32, divisor: i32) -> (q: Option<i32>)
    requires
        !(dividend == i32::MIN && divisor == -1),
    ensures
        divisor == 0 ==> q is None,
        divisor != 0 ==> q == Some(quotient_towards_zero(dividend, divisor)),
{
    if divisor == 0 {
        None
    } else {
        Some(dividend / divisor)
    }
}

} // verus!
