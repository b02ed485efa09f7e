//! A bound on an associated type: whatever the items are, they can be
//! displayed.

use vstd::prelude::*;

verus! {

/// A source of items that can be displayed.
pub trait Iterator: Sized {
    /// The type of the items.
    type Item: core::fmt::Display;

    /// The item that the next call hands out, if there is one left.
    spec fn upcoming(&self) -> Option<Self::Item>;

    /// The source once that item has been taken.
    spec fn advanced(&self) -> Self;

    /// Hands out the next item and moves on.
    fn next(&mut self) -> (item: Option<Self::Item>)
        ensures
            item == old(self).upcoming(),
            *final(self) == old(self).advanced(),
    ;
}

/// A source that never runs dry and always hands out forty-two.
pub struct Counter;

impl Iterator for Counter {
    type Item = u32;

    open spec fn upcoming(&self) -> Option<u32> {
        Some(42u32)
    }

    open spec fn advanced(&self) -> Counter {
        *self
    }

    fn next(&mut self) -> (item: Option<u32>) {
        Some(42)
    }
}

} // verus!
