//! Greeting formatter for a desktop application shell.
//!
//! The application around this library is framework glue: it registers a
//! logging plugin and a dialog plugin, exposes one command to the embedded UI,
//! and blocks in the shell's run loop. None of that is logic; the one thing
//! the application computes -- the greeting string for a name -- lives here,
//! with its contract.

use vstd::prelude::*;

verus! {

/// The greeting for `name`: the characters of `"Hello, "`, then `name`
/// itself, then `"!"`.
pub open spec fn greeting(name: Seq<char>) -> Seq<char> {
    "Hello, "@ + name + "!"@
}

/// Format the greeting for `name`.
///
/// For every input string, the result is exactly the concatenation
/// `"Hello, " + name + "!"`.
pub fn greet(name: &str) -> (r: String)
    ensures
        r@ == greeting(name@),
{
    let mut r = String::from_str("Hello, ");
    r.append(name);
    r.append("!");
    r
}

} // verus!
