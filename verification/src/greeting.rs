//! The greeting that the application shows.

use vstd::prelude::*;
use vstd::string::*;

verus! {

/// What the greeting says before the name.
pub const GREETING_HEAD: &'static str = "Hello, ";

/// What the greeting says after the name.
pub const GREETING_TAIL: &'static str = "! Welcome to SERQ.";

/// Greets the user by name.
pub fn greet(name: &str) -> (greeting: String)
    ensures
        greeting@ == GREETING_HEAD@ + name@ + GREETING_TAIL@,
{
    String::from_str(GREETING_HEAD).concat(name).concat(GREETING_TAIL)
}

} // verus!
