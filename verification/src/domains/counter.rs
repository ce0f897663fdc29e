//! The counter as the service presents it.

use vstd::prelude::*;

verus! {

/// A named counter and its current count.
#[derive(Debug)]
pub struct Counter {
    pub name: String,
    pub count: i32,
}

} // verus!
