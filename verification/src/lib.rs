//! Core logic of the application shell's `greet` command.
//!
//! The shell formats a greeting for a given name off its event loop and, if
//! the worker that formats it fails, substitutes a short fallback greeting.
//! Both behaviours are stated and proved here; the shell itself (the async
//! offload and the GUI runtime) lives outside the verified library.

use vstd::prelude::*;
use vstd::string::StringExecFns;

verus! {

/// The greeting returned for a given name: the name spliced into the fixed
/// greeting text.
pub open spec fn greeting_of(name: Seq<char>) -> Seq<char> {
    "Hello, "@ + name + "! You've been greeted from Rust!"@
}

/// The text returned in place of a greeting when the worker that formats it
/// fails.
pub open spec fn fallback_greeting() -> Seq<char> {
    "Hello!"@
}

/// Formats the greeting for `name`. Deterministic: the result is exactly the
/// fixed greeting text with `name` spliced in.
pub fn greet(name: &str) -> (r: String)
    ensures
        r@ == greeting_of(name@),
{
    let mut r = String::from_str("Hello, ");
    r.append(name);
    r.append("! You've been greeted from Rust!");
    r
}

/// Resolves the outcome of the worker that formats a greeting: a completed
/// greeting is returned as it is, and a failed worker yields the fallback
/// greeting.
pub fn resolve_greeting(outcome: Option<String>) -> (r: String)
    ensures
        outcome matches Some(m) ==> r@ == m@,
        outcome is None ==> r@ == fallback_greeting(),
{
    match outcome {
        Some(m) => m,
        None => String::from_str("Hello!"),
    }
}

} // verus!
