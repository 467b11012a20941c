//! Builder protocol for image widgets that can draw a border around
//! themselves while selected.

use vstd::prelude::*;

verus! {

/// Implemented by widgets that can switch their border decoration on.
pub trait Bordered {
    fn bordered(self) -> Self;
}

} // verus!
