//! The greeting the async experiment prints.

use vstd::prelude::*;

verus! {

/// Seconds the greeter waits before greeting.
pub const GREETING_DELAY_SECS: u64 = 1;

/// The greeting.
pub fn hello_world() -> (s: String)
    ensures
        s@ == "hello world!"@,
{
    "hello world!".to_owned()
}

} // verus!
