//! A closure that gives away what it captured can be called once only, and
//! a function that takes such a closure consumes it.

use vstd::prelude::*;
use vstd::string::*;

verus! {

/// Calls `func`, which may be called this one time only, and reports what
/// it returned: the word `Consumed`, a space and the returned text.
pub fn consuming_call<F>(func: F) -> (report: String) where F: FnOnce() -> String
    requires
        call_requires(func, ()),
    ensures
        exists|returned: String|
            call_ensures(func, (), returned) && report@ == "Consumed "@ + returned@,
{
    let returned = func();
    let mut report = String::from_str("Consumed ");
    report.append(returned.as_str());
    report
}

} // verus!
