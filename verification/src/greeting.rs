//! The greeting shown when the user interface first reaches the backend.

use vstd::prelude::*;

verus! {

/// The greeting for `name`: a fixed opening, the name as given, a fixed close.
pub open spec fn greeting(name: Seq<char>) -> Seq<char> {
    "Hello, "@ + name + "! You've been greeted from Rust!"@
}

/// Builds the greeting for `name`. The name is not trimmed or checked: an
/// empty name gives the opening directly followed by the close.
pub fn greet(name: &str) -> (message: String)
    ensures
        message@ == greeting(name@),
{
    let mut message = "Hello, ".to_owned();
    message.append(name);
    message.append("! You've been greeted from Rust!");
    message
}

} // verus!
