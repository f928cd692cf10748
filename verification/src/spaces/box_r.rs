use vstd::prelude::*;

use crate::utils::util_fns::spec_le;
use vstd::std_specs::cmp::PartialOrdSpec;

verus! {

/// Defines a subspace created between two points.
#[derive(Debug, Clone)]
pub struct BoxR<T> {
    /// Defines the lower bound of the subspace where values less than what
    /// is inputted cannot exist.
    pub low: T,
    /// Defines the upper bound of the subspace where values greater than what
    /// is inputted cannot exist.
    pub high: T,
}

impl<T> BoxR<T> {
    /// Builds the subspace from its two bounds.
    pub fn new(low: T, high: T) -> (r: Self)
        ensures
            r.low == low,
            r.high == high,
    {
        BoxR { low, high }
    }
}

impl<T: PartialOrd> BoxR<T> {
    /// A value lies in the box exactly when it is between the two bounds,
    /// inclusively; exact for types whose comparison obeys its specification.
    pub fn contains(&self, value: &T) -> (r: bool)
        ensures
            T::obeys_partial_cmp_spec() ==> r == (spec_le(&self.low, value) && spec_le(
                value,
                &self.high,
            )),
    {
        self.low.le(value) && value.le(&self.high)
    }
}

} // verus!
