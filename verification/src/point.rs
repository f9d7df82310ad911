//! A constructor in place of public fields: the coordinate is private, so a
//! caller goes through `new` and reads through the getter.

use vstd::prelude::*;

verus! {

/// A point on a line whose coordinate only `new` can set.
pub struct Point {
    x: i32,
}

impl Point {
    /// The coordinate, for contracts: the field itself stays private.
    pub closed spec fn coordinate(&self) -> i32 {
        self.x
    }

    /// Builds a point at coordinate `x`.
    pub fn new(x: i32) -> (p: Point)
        ensures
            p.coordinate() == x,
    {
        Point { x }
    }

    /// Returns the coordinate.
    pub fn x(&self) -> (r: i32)
        ensures
            r == self.coordinate(),
    {
        self.x
    }
}

impl Default for Point {
    /// The default point sits at coordinate 10.
    fn default() -> (p: Point)
        ensures
            p.coordinate() == 10,
    {
        Point { x: 10 }
    }
}

} // verus!
