//! Directory scanning for audio files and resolution of default
//! music-directory candidates.
//!
//! The library is pure: filesystem enumeration, existence probes and the
//! process environment are read by the embedding application, which hands
//! the observations in as plain values and receives the classified results
//! back.

pub mod defaults;
pub mod scan;
pub mod text;

use vstd::prelude::*;
use vstd::string::StringExecFns;

verus! {

/// The greeting echo the application shell exposes alongside the two
/// directory operations.
pub fn greet(name: &str) -> (r: String)
    ensures
        r@ == "Hello, "@ + name@ + "! You've been greeted from Rust!"@,
{
    let s = String::from_str("Hello, ");
    let s = s.concat(name);
    s.concat("! You've been greeted from Rust!")
}

} // verus!
