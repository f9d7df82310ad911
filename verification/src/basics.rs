//! Loop control: `loop` as an expression, `break` with a value, and labelled
//! loops, together with the two smallest functions of the crate.

use vstd::prelude::*;

verus! {

/// Always returns 42.
pub fn return_42() -> (r: i32)
    ensures
        r == 42,
{
    42
}

/// Adds 40 to its argument.
pub fn frobnicate(x: i32) -> (r: i32)
    requires
        x <= i32::MAX - 40,
    ensures
        r == x + 40,
{
    x + 40
}

/// Counts up to ten and then leaves the loop with the value 32: the result
/// of the function is decided inside the loop.
pub fn break_with_value() -> (r: i32)
    ensures
        r == 32,
{
    let mut counter: i32 = 0;
    loop
        invariant
            0 <= counter < 10,
        decreases 10 - counter,
    {
        counter = counter + 1;
        if counter == 10 {
            return 32;
        }
    }
}

/// Runs a pair of nested loops where the inner loop ends the outer one
/// through a label once the count reaches two, and returns that end count.
pub fn labels() -> (r: i32)
    ensures
        r == 2,
{
    let mut count: i32 = 0;
    'counting_up: loop
        invariant
            0 <= count <= 2,
        ensures
            count == 2,
        decreases 3 - count,
    {
        let mut remaining: i32 = 10;

        loop
            invariant
                9 <= remaining <= 10,
                0 <= count <= 2,
                remaining == 9 ==> count <= 1,
            ensures
                count <= 1,
                remaining == 9,
            decreases remaining,
        {
            if remaining == 9 {
                break;
            }
            if count == 2 {
                break 'counting_up;
            }
            remaining = remaining - 1;
        }

        count = count + 1;
    }
    count
}

} // verus!
