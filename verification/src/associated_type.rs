//! A trait with an associated type: each implementation fixes the type of
//! the items once, so a type can implement the trait in one way only.

use vstd::prelude::*;

verus! {

/// A source of items, handed out one at a time.
pub trait Iterator: Sized {
    /// The type of the items.
    type Item;

    /// The item that the next call hands out, if there is one left.
    spec fn upcoming(&self) -> Option<Self::Item>;

    /// The source once that item has been taken.
    spec fn advanced(&self) -> Self;

    /// Hands out the next item and moves on.
    fn next(&mut self) -> (item: Option<Self::Item>)
        ensures
            item == old(self).upcoming(),
            *final(self) == old(self).advanced(),
    ;
}

/// A source that never runs dry and always hands out forty-two.
pub struct Counter;

impl Iterator for Counter {
    type Item = u32;

    open spec fn upcoming(&self) -> Option<u32> {
        Some(42u32)
    }

    open spec fn advanced(&self) -> Counter {
        *self
    }

    fn next(&mut self) -> (item: Option<u32>) {
        Some(42)
    }
}

} // verus!
