//! Commands that the front end can invoke.

use vstd::prelude::*;
use vstd::string::*;

verus! {

/// The greeting for `name`, as a sequence of characters.
pub open spec fn greeting(name: Seq<char>) -> Seq<char> {
    "Hello, "@ + name + "! You've been greeted from Rust!"@
}

/// Greets `name`.
pub fn greet(name: &str) -> (message: String)
    ensures
        message@ == greeting(name@),
{
    String::from_str("Hello, ").concat(name).concat("! You've been greeted from Rust!")
}

} // verus!
