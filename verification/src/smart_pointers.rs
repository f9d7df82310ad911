//! Owning wrappers: a one-field box that stands in for a smart pointer, and
//! a list made recursive by the indirection a box provides.

use vstd::prelude::*;

verus! {

/// A one-field wrapper around any value, standing in for a smart pointer
/// without the heap allocation.
pub struct MyBox<T>(pub T);

impl<T> MyBox<T> {
    /// Wraps the value.
    pub fn new(x: T) -> (b: MyBox<T>)
        ensures
            b.0 == x,
    {
        MyBox(x)
    }

    /// Borrows the wrapped value, as dereferencing the box would.
    pub fn inner(&self) -> (r: &T)
        ensures
            r == &self.0,
    {
        &self.0
    }
}

/// A list of integers that carries itself: the box breaks the cycle that a
/// directly recursive type would be.
pub enum List {
    Cons(i32, Box<List>),
    Nil,
}

} // verus!
