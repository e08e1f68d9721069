//! Things that grow in the garden.
use vstd::prelude::*;

verus! {

/// A vegetable with nothing more to it.
#[derive(Debug, Clone, Copy, PartialEq, Eq, Structural)]
pub struct Asparagus {}

} // verus!
