//! Designer-tunable randomized configuration values.
//!
//! A `RangedOption` is the single control point for per-particle randomness:
//! every randomized emitter field is one, and sampling either returns the
//! configured constant, draws uniformly from a bounded range, or falls back
//! to a caller-supplied default. Sampling never fails: an inverted range
//! counts as unset.

use vstd::prelude::*;

use rand::Rng;

verus! {

/// A configuration value that is either absent, fixed, or drawn fresh from
/// a bounded inclusive range on every sample.
#[derive(Clone, Copy)]
pub enum RangedOption<T> {
    /// Nothing configured: sampling returns the caller's default.
    Unset,
    /// Sampling always returns exactly this value.
    FixedValue(T),
    /// Sampling draws uniformly from `[low, high]`. An inverted range
    /// (`low > high`) counts as unset and never faults.
    BoundedRange(T, T),
}

/// Exactly which results `sample` may return for a `u32`-valued option:
/// the default for an unset or inverted option, the fixed value itself, and
/// any value within the bounds of a well-formed range.
pub open spec fn sample_ok_u32(o: RangedOption<u32>, default: u32, r: u32) -> bool {
    match o {
        RangedOption::Unset => r == default,
        RangedOption::FixedValue(v) => r == v,
        RangedOption::BoundedRange(lo, hi) => if lo <= hi {
            lo <= r <= hi
        } else {
            r == default
        },
    }
}

/// The same statement for an `i64`-valued option.
pub open spec fn sample_ok_i64(o: RangedOption<i64>, default: i64, r: i64) -> bool {
    match o {
        RangedOption::Unset => r == default,
        RangedOption::FixedValue(v) => r == v,
        RangedOption::BoundedRange(lo, hi) => if lo <= hi {
            lo <= r <= hi
        } else {
            r == default
        },
    }
}

/// Relies on `rand::Rng::gen_range` over an inclusive `u32` range: the draw
/// lies within the bounds; it panics only on an empty range, which the
/// precondition rules out.
#[verifier::external_body]
pub(crate) fn rand_range_u32(lo: u32, hi: u32) -> (r: u32)
    requires
        lo <= hi,
    ensures
        lo <= r <= hi,
{
    rand::thread_rng().gen_range(lo..=hi)
}

/// Relies on `rand::Rng::gen_range` over an inclusive `i64` range: the draw
/// lies within the bounds; it panics only on an empty range, which the
/// precondition rules out.
#[verifier::external_body]
pub(crate) fn rand_range_i64(lo: i64, hi: i64) -> (r: i64)
    requires
        lo <= hi,
    ensures
        lo <= r <= hi,
{
    rand::thread_rng().gen_range(lo..=hi)
}

impl RangedOption<u32> {
    /// Resolves the option to one concrete value: the default when unset or
    /// inverted, the fixed value, or a fresh uniform draw from the range.
    pub fn sample(&self, default: u32) -> (r: u32)
        ensures
            sample_ok_u32(*self, default, r),
    {
        match self {
            RangedOption::Unset => default,
            RangedOption::FixedValue(v) => *v,
            RangedOption::BoundedRange(lo, hi) => {
                if *lo <= *hi {
                    rand_range_u32(*lo, *hi)
                } else {
                    default
                }
            },
        }
    }
}

impl RangedOption<i64> {
    /// Resolves the option to one concrete value, as for `u32` options.
    pub fn sample(&self, default: i64) -> (r: i64)
        ensures
            sample_ok_i64(*self, default, r),
    {
        match self {
            RangedOption::Unset => default,
            RangedOption::FixedValue(v) => *v,
            RangedOption::BoundedRange(lo, hi) => {
                if *lo <= *hi {
                    rand_range_i64(*lo, *hi)
                } else {
                    default
                }
            },
        }
    }
}

} // verus!
