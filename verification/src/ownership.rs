//! Exclusive and shared access: a cell that one writer updates through the
//! single `&mut` borrow while readers only observe it through `&`.

use vstd::prelude::*;

verus! {

/// The next value for the writer to store.
pub fn next_int() -> (r: i32)
    ensures
        r == 42,
{
    42
}

/// A single integer cell, written through `&mut` and read through `&`.
pub struct Data(pub i32);

impl Data {
    /// A fresh cell holds zero.
    pub fn new() -> (d: Data)
        ensures
            d.0 == 0,
    {
        Data(0)
    }

    /// Reading borrows the cell and returns its value.
    pub fn read(&self) -> (r: i32)
        ensures
            r == self.0,
    {
        self.0
    }

    /// Writing stores `n` in the cell.
    pub fn write(&mut self, n: i32)
        ensures
            final(self).0 == n,
    {
        self.0 = n
    }
}

} // verus!
