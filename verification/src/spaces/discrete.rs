use vstd::prelude::*;

use crate::spaces::space::Space;

verus! {

/// Defines a set of discrete integers starting at 0.
///
/// The value held by this structure is the exclusive upper bound of the set:
/// `Discrete(n)` holds exactly the values `0 <= v < n`.
#[derive(Debug, Clone, PartialEq, Eq, Structural)]
pub struct Discrete(pub usize);

impl Space<usize> for Discrete {
    open spec fn contains_spec(&self, value: usize) -> bool {
        value < self.0
    }

    fn contains(&self, value: usize) -> (r: bool) {
        value < self.0
    }
}

} // verus!
