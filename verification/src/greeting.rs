//! The greeting command: a fixed sentence around the caller's name.

use vstd::prelude::*;

verus! {

/// The greeting for `name`: the name between the two fixed parts of the sentence.
pub open spec fn greeting(name: Seq<char>) -> Seq<char> {
    "Hello, "@ + name + "! You've been greeted from Rust!"@
}

/// Builds the greeting for `name`. The name is taken as it is: nothing in it is
/// checked, trimmed or escaped.
pub fn greet(name: &str) -> (text: String)
    ensures
        text@ == greeting(name@),
{
    let mut text = String::from_str("Hello, ");
    text.append(name);
    text.append("! You've been greeted from Rust!");
    text
}

} // verus!
