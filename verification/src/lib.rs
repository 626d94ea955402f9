pub mod content;
pub mod feedback;
pub mod jsontext;
pub mod model;
pub mod numfmt;
pub mod service;
pub mod textscan;

use vstd::prelude::*;

verus! {

use vstd::string::StringExecFns;

/// Builds the greeting line shown by the UI shell.
pub fn greet(name: &str) -> (r: String)
    ensures
        r@ == "Hello, "@ + name@ + "! You've been greeted from Rust!"@,
{
    let mut s = String::from_str("Hello, ");
    s.append(name);
    s.append("! You've been greeted from Rust!");
    s
}

} // verus!
