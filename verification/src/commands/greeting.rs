//! The greeting of the start page.

use vstd::prelude::*;
use crate::text::join3;

verus! {

/// Greets `name`.
pub fn greet(name: &str) -> (greeting: String)
    ensures
        greeting@ == "Hello, "@ + name@ + "! Welcome to Central."@,
{
    join3("Hello, ", name, "! Welcome to Central.")
}

} // verus!
