//! The kitchen's dishes.
use vstd::prelude::*;

verus! {

/// Cooks spaghetti.
pub fn spagetti() {
}

} // verus!
