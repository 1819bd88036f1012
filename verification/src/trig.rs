//! Integer trigonometry for hue rotation and emit directions.
//!
//! Angles are given in thousandths of a degree; results are at the fixed
//! scale `TRIG_ONE` (10000 stands for 1.0). The half-turn sine is the
//! classical rational approximation `sin x = 4x(180 - x) / (40500 - x(180 - x))`
//! (x in degrees), which is exact at 0, 90 and 180 degrees and within a few
//! thousandths elsewhere; the full turn follows by symmetry.

use vstd::prelude::*;

verus! {

/// The fixed-point unit of the trigonometric results.
pub const TRIG_ONE: i64 = 10000;

/// Thousandths of a degree in a half turn.
pub const HALF_TURN_MDEG: i64 = 180000;

/// Thousandths of a degree in a full turn.
pub const FULL_TURN_MDEG: i64 = 360000;

/// The sine over the first half turn, `r` in `[0, 180000]` thousandths of a
/// degree, at scale `TRIG_ONE`.
pub open spec fn sin_half(r: int) -> int {
    let p = r * (180000 - r);
    40000 * p / (40500000000 - p)
}

/// The sine of any angle in thousandths of a degree, at scale `TRIG_ONE`:
/// the half-turn approximation, extended over the full turn by sign symmetry
/// and over all angles by periodicity.
pub open spec fn sin_mdeg_spec(m: int) -> int {
    let r = m % 360000;
    if r < 180000 {
        sin_half(r)
    } else {
        -sin_half(r - 180000)
    }
}

/// The cosine, as the sine shifted a quarter turn forward.
pub open spec fn cos_mdeg_spec(m: int) -> int {
    sin_mdeg_spec(m + 90000)
}

/// Reduces an angle to `[0, 360000)` thousandths of a degree.
fn normalize_mdeg(m: i64) -> (r: i64)
    ensures
        r == (m as int) % 360000,
        0 <= r < 360000,
{
    if m >= 0 {
        let r = ((m as u64) % 360000) as i64;
        proof {
            vstd::arithmetic::div_mod::lemma_mod_division_less_than_divisor(m as int, 360000);
        }
        r
    } else {
        let mag: u128 = (-(m as i128)) as u128;
        let s: u128 = mag % 360000;
        proof {
            let mm = -(m as int);
            let t = mm / 360000;
            let ss = mm % 360000;
            vstd::arithmetic::div_mod::lemma_fundamental_div_mod(mm, 360000);
            vstd::arithmetic::div_mod::lemma_mod_division_less_than_divisor(mm, 360000);
            if ss == 0 {
                vstd::arithmetic::div_mod::lemma_fundamental_div_mod_converse_mod(
                    m as int, 360000, -t, 0);
            } else {
                vstd::arithmetic::div_mod::lemma_fundamental_div_mod_converse_mod(
                    m as int, 360000, -t - 1, 360000 - ss);
            }
        }
        if s == 0 {
            0
        } else {
            (360000 - s as i64)
        }
    }
}

/// The sine over the first half turn.
fn sin_half_exec(x: i64) -> (s: i64)
    requires
        0 <= x <= 180000,
    ensures
        s == sin_half(x as int),
        0 <= s <= TRIG_ONE,
{
    proof {
        assert(x * (180000 - x) <= 8100000000int) by (nonlinear_arith)
            requires 0 <= x <= 180000,
        ;
        vstd::arithmetic::mul::lemma_mul_nonnegative(x as int, 180000 - x);
    }
    let p: i64 = x * (180000 - x);
    let num: i64 = 40000 * p;
    let den: i64 = 40500000000 - p;
    let q: u64 = (num as u64) / (den as u64);
    proof {
        vstd::arithmetic::div_mod::lemma_div_pos_is_pos(num as int, den as int);
        assert(num <= 10000 * den);
        vstd::arithmetic::div_mod::lemma_div_is_ordered(num as int, 10000 * (den as int),
            den as int);
        vstd::arithmetic::div_mod::lemma_div_by_multiple(10000, den as int);
    }
    q as i64
}

/// The sine of an angle in thousandths of a degree, at scale `TRIG_ONE`.
pub fn sin_mdeg(m: i64) -> (s: i64)
    ensures
        s == sin_mdeg_spec(m as int),
        -TRIG_ONE <= s <= TRIG_ONE,
{
    let r = normalize_mdeg(m);
    if r < 180000 {
        sin_half_exec(r)
    } else {
        -sin_half_exec(r - 180000)
    }
}

/// The cosine of an angle in thousandths of a degree, at scale `TRIG_ONE`.
pub fn cos_mdeg(m: i64) -> (s: i64)
    ensures
        s == cos_mdeg_spec(m as int),
        -TRIG_ONE <= s <= TRIG_ONE,
{
    let r = normalize_mdeg(m);
    let shifted = if r + 90000 >= 360000 {
        r + 90000 - 360000
    } else {
        r + 90000
    };
    proof {
        vstd::arithmetic::div_mod::lemma_small_mod(90000nat, 360000nat);
        vstd::arithmetic::div_mod::lemma_add_mod_noop(m as int, 90000, 360000);
        if r + 90000 >= 360000 {
            vstd::arithmetic::div_mod::lemma_mod_sub_multiples_vanish(
                r as int + 90000, 360000);
            vstd::arithmetic::div_mod::lemma_small_mod((r + 90000 - 360000) as nat,
                360000nat);
        } else {
            vstd::arithmetic::div_mod::lemma_small_mod((r + 90000) as nat, 360000nat);
        }
        assert(shifted == (m as int + 90000) % 360000);
    }
    let s = sin_norm(shifted);
    s
}

/// The sine on an already reduced angle.
fn sin_norm(r: i64) -> (s: i64)
    requires
        0 <= r < 360000,
    ensures
        s == sin_mdeg_spec(r as int),
        -TRIG_ONE <= s <= TRIG_ONE,
{
    proof {
        vstd::arithmetic::div_mod::lemma_small_mod(r as nat, 360000);
    }
    if r < 180000 {
        sin_half_exec(r)
    } else {
        -sin_half_exec(r - 180000)
    }
}

/// Law: the sine of zero is zero and the cosine of zero is one, exactly,
/// so a rotation by a zero angle is the identity.
pub proof fn lemma_sin_cos_zero()
    ensures
        sin_mdeg_spec(0) == 0,
        cos_mdeg_spec(0) == TRIG_ONE,
{
    vstd::arithmetic::div_mod::lemma_small_mod(0, 360000);
    vstd::arithmetic::div_mod::lemma_small_mod(90000, 360000);
    assert(sin_half(0) == 0) by {
        assert(0int * (180000 - 0) == 0);
        vstd::arithmetic::div_mod::lemma_div_of0(40500000000);
    }
    assert(sin_half(90000) == 10000) by {
        assert(90000int * (180000 - 90000) == 8100000000int);
        vstd::arithmetic::div_mod::lemma_div_by_multiple(10000, 32400000000);
    }
}

} // verus!
