//! What the routes share besides their handlers.
use vstd::prelude::*;

verus! {

/// The answer of the root route.
#[derive(Clone, Debug)]
pub struct Test {
    pub name: String,
    pub age: usize,
}

/// A route helper that does nothing.
pub fn test_in_routes() {
}

} // verus!
