//! One trait, two ways to reach its method: through a type parameter, where
//! the compiler picks the implementation, and through a trait object, where
//! the choice is made while the program runs.

use crate::text::{append_decimal, decimal};
use vstd::prelude::*;
use vstd::string::*;

verus! {

/// A value that can say what it is.
pub trait ShowMySelf {
    /// What the value says of itself.
    spec fn shown(&self) -> Seq<char>;

    /// Composes what the value says of itself.
    fn show(&self) -> (text: String)
        ensures
            text@ == self.shown(),
    ;
}

impl ShowMySelf for u32 {
    /// The type's name, then the number in decimal notation.
    open spec fn shown(&self) -> Seq<char> {
        "I'm u32 "@ + decimal(*self as nat)
    }

    fn show(&self) -> (text: String) {
        let mut text = String::from_str("I'm u32 ");
        append_decimal(&mut text, *self);
        text
    }
}

impl ShowMySelf for String {
    /// The type's name, then the string itself.
    open spec fn shown(&self) -> Seq<char> {
        "I'm String "@ + self@
    }

    fn show(&self) -> (text: String) {
        let mut text = String::from_str("I'm String ");
        text.append(self.as_str());
        text
    }
}

/// The line that shows `x`, for any type that can show itself. Each type
/// that the function is used with gets a copy of its own.
pub fn show_myself<T: ShowMySelf>(x: T) -> (line: String)
    ensures
        line@ == x.shown(),
{
    x.show()
}

/// The line that shows `x`, whatever type is behind the reference.
pub fn show_myself_dyn(x: &dyn ShowMySelf) -> (line: String)
    ensures
        line@ == x.shown(),
{
    x.show()
}

/// The copy of [`show_myself`] for `u32`, written out.
pub fn show_myself_u32(x: u32) -> (line: String)
    ensures
        line@ == "I'm u32 "@ + decimal(x as nat),
{
    x.show()
}

/// The copy of [`show_myself`] for `String`, written out.
pub fn show_myself_string(x: String) -> (line: String)
    ensures
        line@ == "I'm String "@ + x@,
{
    x.show()
}

} // verus!
