//! Generic structs and functions: a pair of two different types, a pair of
//! one comparable type, and cloning through a type parameter. The comparison
//! contracts hold exactly for types whose `<` agrees with its specification;
//! for any type they still pin the result down to one of the two fields.

use vstd::prelude::*;
use vstd::pervasive::cloned;
use vstd::std_specs::cmp::PartialOrdSpec;
use core::cmp::Ordering;

verus! {

/// A value of one type next to a value of another.
pub struct Tuple2<T, U> {
    pub x: T,
    pub y: U,
}

impl<T, U> Tuple2<T, U> {
    /// Puts the two values side by side.
    pub fn new(x: T, y: U) -> (t: Tuple2<T, U>)
        ensures
            t.x == x,
            t.y == y,
    {
        Tuple2 { x, y }
    }
}

/// Two values of one type that can be compared.
pub struct Pair<T> {
    pub x: T,
    pub y: T,
}

impl<T: PartialOrd + Copy> Pair<T> {
    /// The greater of the two fields; `y` when the comparison says neither
    /// is greater, as when they are equal or the order leaves them unrelated.
    pub fn largest(&self) -> (r: T)
        ensures
            r == self.x || r == self.y,
            T::obeys_partial_cmp_spec() ==> r == (if self.x.partial_cmp_spec(&self.y)
                == Some(Ordering::Greater) {
                self.x
            } else {
                self.y
            }),
    {
        if self.x > self.y {
            self.x
        } else {
            self.y
        }
    }
}

impl<T> Pair<T> where T: PartialOrd + Copy {
    /// The lesser of the two fields; `y` when the comparison says neither
    /// is less.
    pub fn smallest(&self) -> (r: T)
        ensures
            r == self.x || r == self.y,
            T::obeys_partial_cmp_spec() ==> r == (if self.x.partial_cmp_spec(&self.y)
                == Some(Ordering::Less) {
                self.x
            } else {
                self.y
            }),
    {
        if self.x < self.y {
            self.x
        } else {
            self.y
        }
    }
}

/// A clone with the argument's concrete type: the caller gets back exactly
/// the type it gave.
pub fn cloning_machine<T: Clone>(item: &T) -> (r: T)
    ensures
        cloned(*item, r),
{
    item.clone()
}

/// A clone whose concrete type the caller no longer sees: only the bound
/// is left, so nothing but cloning can be done with the result.
pub fn erasing_cloning_machine2<T: Clone>(item: &T) -> (r: impl Clone)
    ensures
        cloned(*item, r),
{
    item.clone()
}

/// The same erasure stated without a named type parameter: the argument's
/// type is anonymous on both sides.
pub fn erasing_cloning_machine1(item: &(impl Clone)) -> (r: impl Clone)
    ensures
        cloned(*item, r),
{
    item.clone()
}

} // verus!
