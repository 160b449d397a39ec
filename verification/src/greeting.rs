//! The greeting command and the model of the text it returns.

use vstd::prelude::*;
use vstd::string::StringExecFns;

verus! {

/// The characters that open every greeting.
pub open spec fn salutation() -> Seq<char> {
    "Hello, "@
}

/// The characters that close every greeting.
pub open spec fn sign_off() -> Seq<char> {
    "! You've been greeted from Rust!"@
}

/// The greeting owed to `name`: the salutation, then the name exactly as it
/// was given, then the sign-off.
pub open spec fn greeting_for(name: Seq<char>) -> Seq<char> {
    salutation() + name + sign_off()
}

/// Greets `name`.
///
/// Every name is accepted, the empty one too, and nothing in it is escaped,
/// trimmed or otherwise changed.
pub fn greet(name: &str) -> (greeting: String)
    ensures
        greeting@ == greeting_for(name@),
{
    let mut greeting = String::from_str("Hello, ");
    greeting.append(name);
    greeting.append("! You've been greeted from Rust!");
    greeting
}

} // verus!
