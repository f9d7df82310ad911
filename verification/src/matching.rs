//! Pattern matching as a switch on steroids: matching a remainder, matching
//! ranges of an age, and a guard that looks at parity. The number to match
//! comes from a random draw, so the classifier takes it as an argument and
//! is verified for every value.

use vstd::prelude::*;
use crate::division::remainder_towards_zero;

verus! {

/// How close a number comes to being divisible by seven.
#[derive(Clone, Copy, Debug, PartialEq, Eq, Structural)]
pub enum Divisibility {
    DivisibleBySeven,
    AlmostDivisibleBySeven,
    NotDivisibleBySeven,
}

/// Where the remainder of `n` by seven puts it. A negative `n` leaves a
/// negative remainder, which lands in the last bucket.
pub open spec fn divisibility_of(n: i32) -> Divisibility {
    let r = remainder_towards_zero(n, 7);
    if r == 0 {
        Divisibility::DivisibleBySeven
    } else if r == 1 {
        Divisibility::AlmostDivisibleBySeven
    } else {
        Divisibility::NotDivisibleBySeven
    }
}

/// Matches on the remainder of `number` by seven.
pub fn classify_by_seven(number: i32) -> (c: Divisibility)
    ensures
        c == divisibility_of(number),
{
    match number % 7 {
        0 => Divisibility::DivisibleBySeven,
        1 => Divisibility::AlmostDivisibleBySeven,
        _ => Divisibility::NotDivisibleBySeven,
    }
}

/// Relies on `rand::random`, which draws a value from the standard
/// distribution of the type; nothing is promised of the result.
#[verifier::external_body]
fn random_i32() -> i32 {
    rand::random::<i32>()
}

/// Draws a number and classifies it, returning both so that a caller can
/// report them together; the class is the drawn number's, whatever came out
/// of the draw.
pub fn random_divisibility() -> (r: (i32, Divisibility))
    ensures
        r.1 == divisibility_of(r.0),
{
    let number = random_i32();
    (number, classify_by_seven(number))
}

/// A bucket of ages, from the range match of the lesson on ranges.
#[derive(Clone, Copy, Debug, PartialEq, Eq, Structural)]
pub enum AgeGroup {
    Kid,
    Teenager,
    YoungAdult,
    Adult,
    Mature,
    Old,
}

/// The bucket each age falls in.
pub open spec fn age_group_of(age: u8) -> AgeGroup {
    if age <= 12 {
        AgeGroup::Kid
    } else if age <= 19 {
        AgeGroup::Teenager
    } else if age <= 29 {
        AgeGroup::YoungAdult
    } else if age <= 49 {
        AgeGroup::Adult
    } else if age <= 69 {
        AgeGroup::Mature
    } else {
        AgeGroup::Old
    }
}

/// Matches `age` against the six ranges.
pub fn age_group(age: u8) -> (g: AgeGroup)
    ensures
        g == age_group_of(age),
{
    match age {
        0..=12 => AgeGroup::Kid,
        13..=19 => AgeGroup::Teenager,
        20..=29 => AgeGroup::YoungAdult,
        30..=49 => AgeGroup::Adult,
        50..=69 => AgeGroup::Mature,
        _ => AgeGroup::Old,
    }
}

/// What the guard match makes of an age: an odd teenager, an even man, or
/// nothing remarkable.
#[derive(Clone, Copy, Debug, PartialEq, Eq, Structural)]
pub enum ParityRemark {
    OddTeenager,
    EvenMan,
    Normal,
}

/// The remark the guards pick: teenagers with an odd age come first, then
/// any even age, then the rest.
pub open spec fn parity_remark_of(age: u8) -> ParityRemark {
    if 12 <= age <= 19 && age % 2 == 1 {
        ParityRemark::OddTeenager
    } else if age % 2 == 0 {
        ParityRemark::EvenMan
    } else {
        ParityRemark::Normal
    }
}

/// Matches `age` with guards on its parity.
pub fn parity_remark(age: u8) -> (r: ParityRemark)
    ensures
        r == parity_remark_of(age),
{
    match age {
        a @ 12..=19 if a % 2 == 1 => ParityRemark::OddTeenager,
        a if a % 2 == 0 => ParityRemark::EvenMan,
        _ => ParityRemark::Normal,
    }
}

} // verus!
