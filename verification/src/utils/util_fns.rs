//! Small helpers shared by the space descriptors and the physics models.

use core::cmp::Ordering;
use vstd::prelude::*;
use vstd::std_specs::cmp::PartialOrdSpec;

verus! {

/// What `a <= b` means through `PartialOrd`, at the specification level.
pub open spec fn spec_le<T: PartialOrd>(a: &T, b: &T) -> bool {
    a.partial_cmp_spec(b) matches Some(Ordering::Less | Ordering::Equal)
}

/// What `a > b` means through `PartialOrd`, at the specification level.
pub open spec fn spec_gt<T: PartialOrd>(a: &T, b: &T) -> bool {
    a.partial_cmp_spec(b) == Some(Ordering::Greater)
}

/// The value `clip` returns: the value itself when it lies between the
/// bounds, the nearer bound otherwise.
pub open spec fn spec_clip<T: PartialOrd>(value: T, left_bound: T, right_bound: T) -> T {
    if spec_le(&left_bound, &value) && spec_le(&value, &right_bound) {
        value
    } else if spec_gt(&value, &right_bound) {
        right_bound
    } else {
        left_bound
    }
}

/// Clips a value between the left and right bounds.
///
/// For types whose comparison obeys its specification (all integer types),
/// the result is pinned exactly by `spec_clip`.
pub fn clip<T: PartialOrd>(value: T, left_bound: T, right_bound: T) -> (r: T)
    ensures
        T::obeys_partial_cmp_spec() ==> r == spec_clip(value, left_bound, right_bound),
{
    if left_bound.le(&value) && value.le(&right_bound) {
        value
    } else if value.gt(&right_bound) {
        right_bound
    } else {
        left_bound
    }
}

} // verus!
