use vstd::prelude::*;

pub mod laws;
pub mod records;
pub mod session;
pub mod text;

verus! {

/// The greeting served at the root path.
pub fn index() -> (r: &'static str)
    ensures
        r@ == "Hello, world!"@,
{
    "Hello, world!"
}

} // verus!
