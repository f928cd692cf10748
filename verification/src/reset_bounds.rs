//! Parsing and validation of caller-supplied reset bounds.

use vstd::prelude::*;
use vstd::std_specs::cmp::PartialOrdSpec;

use crate::spaces::BoxR;
use crate::utils::util_fns::spec_gt;

verus! {

/// Caller-supplied overrides for the bounds a reset draws the fresh
/// observation from; a missing side falls back to the model's default.
#[derive(Debug, Clone, PartialEq, Eq)]
pub struct MaybeParseResetBoundsOptions<T> {
    /// The lower bound to draw from, when the caller overrides it.
    pub low: Option<T>,
    /// The upper bound to draw from, when the caller overrides it.
    pub high: Option<T>,
}

impl<T> MaybeParseResetBoundsOptions<T> {
    /// Packs the two optional overrides.
    pub fn new(low: Option<T>, high: Option<T>) -> (r: Self)
        ensures
            r.low == low,
            r.high == high,
    {
        MaybeParseResetBoundsOptions { low, high }
    }
}

/// The lower bound a reset resolves: the caller's override when one is
/// given, the model's default otherwise.
pub open spec fn resolved_low<T>(
    options: Option<MaybeParseResetBoundsOptions<T>>,
    default_low: T,
) -> T {
    match options {
        Some(o) => match o.low {
            Some(l) => l,
            None => default_low,
        },
        None => default_low,
    }
}

/// The upper bound a reset resolves, in the same way.
pub open spec fn resolved_high<T>(
    options: Option<MaybeParseResetBoundsOptions<T>>,
    default_high: T,
) -> T {
    match options {
        Some(o) => match o.high {
            Some(h) => h,
            None => default_high,
        },
        None => default_high,
    }
}

/// Resolves the box a reset draws from. Caller-supplied bounds with
/// `low >= high` are a fatal contract violation, so they are excluded
/// here; an unverified caller must test `high > low` itself before calling
/// and fail as loudly.
pub fn maybe_parse_reset_bounds<T: PartialOrd>(
    options: Option<MaybeParseResetBoundsOptions<T>>,
    default_low: T,
    default_high: T,
) -> (r: BoxR<T>)
    requires
        T::obeys_partial_cmp_spec(),
        options is Some ==> spec_gt(
            &resolved_high(options, default_high),
            &resolved_low(options, default_low),
        ),
    ensures
        r.low == resolved_low(options, default_low),
        r.high == resolved_high(options, default_high),
{
    match options {
        None => BoxR::new(default_low, default_high),
        Some(o) => {
            let low = match o.low {
                Some(l) => l,
                None => default_low,
            };
            let high = match o.high {
                Some(h) => h,
                None => default_high,
            };
            BoxR::new(low, high)
        },
    }
}

} // verus!
