//! Conversion between types: `From` written once gives `Into` as well.

use vstd::prelude::*;
use vstd::std_specs::convert::FromSpecImpl;

verus! {

/// A number in a type of its own.
#[derive(Debug)]
pub struct MyNumber {
    pub value: i32,
}

impl From<i32> for MyNumber {
    /// Wraps `number`.
    fn from(number: i32) -> (wrapped: Self) {
        MyNumber { value: number }
    }
}

impl FromSpecImpl<i32> for MyNumber {
    open spec fn obeys_from_spec() -> bool {
        true
    }

    open spec fn from_spec(number: i32) -> Self {
        MyNumber { value: number }
    }
}

} // verus!
