//! Saturating fixed-point arithmetic on 64-bit integers.
//!
//! Continuous quantities are held in thousandths of a unit, so products have
//! to be rescaled by their denominator. Division truncates toward zero and
//! every result saturates at the 64-bit bounds instead of wrapping, so no
//! configuration value can make a simulation step fail.

use vstd::prelude::*;

verus! {

/// A value squeezed into the signed 64-bit range.
pub open spec fn clamp64(v: int) -> int {
    if v > i64::MAX {
        i64::MAX as int
    } else if v < i64::MIN {
        i64::MIN as int
    } else {
        v
    }
}

/// Division truncated toward zero, for a positive divisor.
pub open spec fn tdiv(a: int, d: int) -> int {
    if a >= 0 {
        a / d
    } else {
        -((-a) / d)
    }
}

/// The product of `a` and `b` rescaled by `d`: truncated toward zero and
/// saturated to the 64-bit range.
pub open spec fn scale64(a: int, b: int, d: int) -> int {
    clamp64(tdiv(a * b, d))
}

/// Saturating addition.
pub open spec fn add64(a: int, b: int) -> int {
    clamp64(a + b)
}

/// Saturating subtraction.
pub open spec fn sub64(a: int, b: int) -> int {
    clamp64(a - b)
}

/// Saturating addition at the unsigned 64-bit bound.
pub open spec fn add64u(a: int, b: int) -> int {
    if a + b > u64::MAX {
        u64::MAX as int
    } else {
        a + b
    }
}

/// Adds two unsigned values, saturating at the unsigned 64-bit bound.
pub fn sat_add_u64(a: u64, b: u64) -> (r: u64)
    ensures
        r == add64u(a as int, b as int),
{
    if b <= u64::MAX - a {
        a + b
    } else {
        u64::MAX
    }
}

/// Computes `a * b / d` with truncation toward zero, saturating at the
/// 64-bit bounds.
pub fn mul_div(a: i64, b: i64, d: u64) -> (r: i64)
    requires
        d >= 1,
    ensures
        r == scale64(a as int, b as int, d as int),
{
    let neg: bool = (a < 0) != (b < 0);
    let am: u128 = if a >= 0 { a as u128 } else { (-(a as i128)) as u128 };
    let bm: u128 = if b >= 0 { b as u128 } else { (-(b as i128)) as u128 };
    proof {
        let ai = a as int;
        let bi = b as int;
        vstd::arithmetic::mul::lemma_mul_upper_bound(
            am as int, 0x8000000000000000, bm as int, 0x8000000000000000);
        if a >= 0 && b >= 0 {
            vstd::arithmetic::mul::lemma_mul_nonnegative(ai, bi);
        } else if a < 0 && b >= 0 {
            vstd::arithmetic::mul::lemma_mul_unary_negation(ai, bi);
            vstd::arithmetic::mul::lemma_mul_nonnegative(-ai, bi);
        } else if a >= 0 && b < 0 {
            vstd::arithmetic::mul::lemma_mul_is_commutative(ai, bi);
            vstd::arithmetic::mul::lemma_mul_unary_negation(bi, ai);
            vstd::arithmetic::mul::lemma_mul_is_commutative(-bi, ai);
            vstd::arithmetic::mul::lemma_mul_nonnegative(ai, -bi);
        } else {
            vstd::arithmetic::mul::lemma_mul_unary_negation(ai, -bi);
            vstd::arithmetic::mul::lemma_mul_is_commutative(ai, -bi);
            vstd::arithmetic::mul::lemma_mul_unary_negation(bi, ai);
            vstd::arithmetic::mul::lemma_mul_is_commutative(bi, ai);
            vstd::arithmetic::mul::lemma_mul_nonnegative(-ai, -bi);
        }
        assert(am * bm == if a as int * b as int >= 0 { a as int * b as int } else {
            -(a as int * b as int)
        });
    }
    let prod: u128 = am * bm;
    let q: u128 = prod / (d as u128);
    if neg {
        if q >= 0x8000000000000000u128 {
            i64::MIN
        } else {
            -(q as i64)
        }
    } else {
        if q > 0x7FFFFFFFFFFFFFFFu128 {
            i64::MAX
        } else {
            q as i64
        }
    }
}

/// Adds two values, saturating at the 64-bit bounds.
pub fn sat_add(a: i64, b: i64) -> (r: i64)
    ensures
        r == add64(a as int, b as int),
{
    let s: i128 = (a as i128) + (b as i128);
    if s > 0x7FFFFFFFFFFFFFFFi128 {
        i64::MAX
    } else if s < -0x8000000000000000i128 {
        i64::MIN
    } else {
        s as i64
    }
}

/// Subtracts two values, saturating at the 64-bit bounds.
pub fn sat_sub(a: i64, b: i64) -> (r: i64)
    ensures
        r == sub64(a as int, b as int),
{
    let s: i128 = (a as i128) - (b as i128);
    if s > 0x7FFFFFFFFFFFFFFFi128 {
        i64::MAX
    } else if s < -0x8000000000000000i128 {
        i64::MIN
    } else {
        s as i64
    }
}

} // verus!
