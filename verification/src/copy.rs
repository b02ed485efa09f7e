//! `Copy` is a marker without methods; `Clone` is its supertrait, and the
//! clone of a `Copy` value is the value.

use vstd::prelude::*;

verus! {

/// A value without fields.
#[derive(Debug)]
pub struct MyStruct {}

impl Copy for MyStruct {

}

impl Clone for MyStruct {
    /// The value itself.
    fn clone(&self) -> (copy: MyStruct)
        ensures
            copy == *self,
    {
        *self
    }
}

} // verus!
