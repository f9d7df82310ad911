//! Structs and methods: a tuple struct for a position on a grid and a record
//! struct for a game character, with an associated constructor, a borrowing
//! method, and a mutating method.

use vstd::prelude::*;
use vstd::math::abs;

verus! {

/// A point on the grid, as a pair of coordinates.
#[derive(Clone, Copy, Debug, PartialEq, Eq, Structural)]
pub struct Position(pub i32, pub i32);

/// A game character with a name, a level, experience points and a position.
#[derive(Clone, Debug)]
pub struct Hero {
    pub name: String,
    pub level: u32,
    pub experience: u32,
    pub position: Position,
}

impl PartialEq for Hero {
    fn eq(&self, other: &Hero) -> (r: bool) {
        self.name == other.name && self.level == other.level
            && self.experience == other.experience && self.position == other.position
    }
}

impl vstd::std_specs::cmp::PartialEqSpecImpl for Hero {
    open spec fn obeys_eq_spec() -> bool {
        true
    }

    open spec fn eq_spec(&self, other: &Hero) -> bool {
        self.name@ == other.name@ && self.level == other.level
            && self.experience == other.experience && self.position == other.position
    }
}

impl Eq for Hero {
}

/// Relies on `i32::unsigned_abs`, which std documents as the absolute value
/// of the argument, without the wrapping that `abs` would need at the
/// smallest value.
pub assume_specification[ i32::unsigned_abs ](x: i32) -> (r: u32)
    ensures
        r == abs(x as int),
;

impl Hero {
    /// A fresh hero starts at level 1 with no experience, at the origin.
    pub fn new(name: String) -> (hero: Hero)
        ensures
            hero.name@ == name@,
            hero.level == 1,
            hero.experience == 0,
            hero.position == (Position(0, 0)),
    {
        Hero { name, level: 1, experience: 0, position: Position(0, 0) }
    }
}

impl Hero {
    /// The taxicab distance from the hero's position to `pos`.
    pub fn distance(&self, pos: Position) -> (d: u32)
        requires
            i32::MIN <= pos.0 - self.position.0 <= i32::MAX,
            i32::MIN <= pos.1 - self.position.1 <= i32::MAX,
            abs(pos.0 - self.position.0) + abs(pos.1 - self.position.1) <= u32::MAX,
        ensures
            d == abs(pos.0 - self.position.0) + abs(pos.1 - self.position.1),
    {
        (pos.0 - self.position.0).unsigned_abs() + (pos.1 - self.position.1).unsigned_abs()
    }

    /// Levelling up resets the experience and raises the level by one;
    /// the name and the position stay as they were.
    pub fn level_up(&mut self)
        requires
            old(self).level < u32::MAX,
        ensures
            final(self).level == old(self).level + 1,
            final(self).experience == 0,
            final(self).name@ == old(self).name@,
            final(self).position == old(self).position,
    {
        self.experience = 0;
        self.level = self.level + 1;
    }
}

} // verus!
