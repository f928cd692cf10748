use vstd::prelude::*;

verus! {

/// An interface that deals with subspaces.
pub trait Space<T: PartialOrd + PartialEq> {
    /// What membership in the subspace means.
    spec fn contains_spec(&self, value: T) -> bool;

    /// Checks for the existence of a value within the defined subspace.
    ///
    /// Returns `true` if the value exists, `false` otherwise.
    fn contains(&self, value: T) -> (r: bool)
        ensures
            r == self.contains_spec(value),
    ;
}

} // verus!
