//! One trait, two implementors: the call can be resolved per type at compile
//! time or through a trait object at run time; the observable behaviour is
//! the same, which the shared contract states.

use vstd::prelude::*;

verus! {

/// Something that can say a fixed phrase.
pub trait Speak {
    /// The phrase, for contracts.
    spec fn spec_speak(&self) -> Seq<char>;

    /// Says the phrase.
    fn speak(&self) -> (r: &'static str)
        ensures
            r@ == self.spec_speak(),
    ;
}

/// A dog.
pub struct Dog;

impl Speak for Dog {
    open spec fn spec_speak(&self) -> Seq<char> {
        "Hau hau"@
    }

    fn speak(&self) -> (r: &'static str) {
        "Hau hau"
    }
}

/// A human.
pub struct Human;

impl Speak for Human {
    open spec fn spec_speak(&self) -> Seq<char> {
        "Hello world"@
    }

    fn speak(&self) -> (r: &'static str) {
        "Hello world"
    }
}

} // verus!
