//! Packed 24-bit RGB color math: byte-wise packing and unpacking, channel
//! inversion, and linear interpolation between two colors driven by a
//! rational interpolation factor.
//!
//! A color is a `u32` holding three 8-bit channels: red in bits 16..24,
//! green in bits 8..16, blue in bits 0..8. A packed color is always below
//! `0x1000000`.

use vstd::prelude::*;

use crate::trig;

verus! {

/// Red channel of a packed color, as the arithmetic view of the bit layout.
pub open spec fn chan_r(c: u32) -> u32 {
    (c / 0x10000) % 0x100
}

/// Green channel of a packed color.
pub open spec fn chan_g(c: u32) -> u32 {
    (c / 0x100) % 0x100
}

/// Blue channel of a packed color.
pub open spec fn chan_b(c: u32) -> u32 {
    c % 0x100
}

/// The packed form of three channel values.
pub open spec fn pack_rgb(r: int, g: int, b: int) -> int {
    r * 0x10000 + g * 0x100 + b
}

/// One channel of a linear interpolation from `c1` toward `c2` by the factor
/// `num / den`: the exact rational value, truncated to an integer and clamped
/// to the channel range. Out-of-range factors extrapolate and then saturate.
pub open spec fn lerp_chan(c1: int, c2: int, num: int, den: int) -> int {
    let v = c1 * den + (c2 - c1) * num;
    if v < 0 {
        0
    } else if v / den > 255 {
        255
    } else {
        v / den
    }
}

/// The whole interpolated color: each channel interpolated independently.
pub open spec fn lerp_rgb(a: u32, b: u32, num: int, den: int) -> int {
    pack_rgb(
        lerp_chan(chan_r(a) as int, chan_r(b) as int, num, den),
        lerp_chan(chan_g(a) as int, chan_g(b) as int, num, den),
        lerp_chan(chan_b(a) as int, chan_b(b) as int, num, den),
    )
}

pub struct Color;

impl Color {
    /// Unpacks a color into its three channel bytes.
    pub fn to_rgb(c: u32) -> (rgb: (u8, u8, u8))
        ensures
            rgb.0 == chan_r(c),
            rgb.1 == chan_g(c),
            rgb.2 == chan_b(c),
    {
        let r: u8 = ((c >> 16) & 0xFF) as u8;
        let g: u8 = ((c >> 8) & 0xFF) as u8;
        let b: u8 = (c & 0xFF) as u8;
        proof {
            assert(((c >> 16) & 0xFF) as u8 == (c / 0x10000) % 0x100) by (bit_vector);
            assert(((c >> 8) & 0xFF) as u8 == (c / 0x100) % 0x100) by (bit_vector);
            assert((c & 0xFF) as u8 == c % 0x100) by (bit_vector);
        }
        (r, g, b)
    }

    /// Packs three channel bytes into a color.
    pub fn from_rgb(r: u8, g: u8, b: u8) -> (c: u32)
        ensures
            c == pack_rgb(r as int, g as int, b as int),
            c <= 0xFFFFFF,
    {
        let c: u32 = ((r as u32) << 16) | ((g as u32) << 8) | (b as u32);
        proof {
            let (rr, gg, bb) = (r, g, b);
            assert(((rr as u32) << 16) | ((gg as u32) << 8) | (bb as u32)
                == (rr as u32) * 0x10000 + (gg as u32) * 0x100 + (bb as u32)
                && ((rr as u32) << 16) | ((gg as u32) << 8) | (bb as u32) <= 0xFFFFFF)
                by (bit_vector);
        }
        c
    }

    /// Interpolates each channel of `a` toward `b` by the factor `num / den`.
    /// A factor of zero returns `a` and a factor of one returns `b` exactly;
    /// factors above one extrapolate and saturate per channel.
    pub fn lerp(a: u32, b: u32, num: u64, den: u64) -> (c: u32)
        requires
            den >= 1,
        ensures
            c == lerp_rgb(a, b, num as int, den as int),
            c <= 0xFFFFFF,
    {
        let (r1, g1, b1) = Color::to_rgb(a);
        let (r2, g2, b2) = Color::to_rgb(b);
        let r = Color::lerp_channel(r1, r2, num, den);
        let g = Color::lerp_channel(g1, g2, num, den);
        let bl = Color::lerp_channel(b1, b2, num, den);
        Color::from_rgb(r, g, bl)
    }

    /// One channel of `lerp`, on byte values.
    fn lerp_channel(c1: u8, c2: u8, num: u64, den: u64) -> (r: u8)
        requires
            den >= 1,
        ensures
            r == lerp_chan(c1 as int, c2 as int, num as int, den as int),
    {
        proof {
            vstd::arithmetic::mul::lemma_mul_upper_bound(
                c1 as int, 255, den as int, u64::MAX as int);
            vstd::arithmetic::mul::lemma_mul_upper_bound(
                if c2 >= c1 { (c2 - c1) as int } else { (c1 - c2) as int }, 255,
                num as int, u64::MAX as int);
        }
        let base: u128 = (c1 as u128) * (den as u128);
        let (pos, neg): (u128, u128) = if c2 >= c1 {
            (base + ((c2 - c1) as u128) * (num as u128), 0)
        } else {
            (base, ((c1 - c2) as u128) * (num as u128))
        };
        proof {
            if c1 > c2 {
                vstd::arithmetic::mul::lemma_mul_unary_negation(
                    (c1 - c2) as int, num as int);
            }
            assert(pos - neg == c1 * den + (c2 - c1) * num);
        }
        if pos < neg {
            0
        } else {
            let q: u128 = (pos - neg) / (den as u128);
            if q > 255 {
                255
            } else {
                q as u8
            }
        }
    }

    /// Inverts a color channel by channel: each becomes 255 minus itself.
    pub fn negative(c: u32) -> (n: u32)
        ensures
            n == negated(c),
            n <= 0xFFFFFF,
    {
        let (r, g, b) = Color::to_rgb(c);
        Color::from_rgb(255 - r, 255 - g, 255 - b)
    }
}

/// The channel-wise inversion of a packed color.
pub open spec fn negated(c: u32) -> int {
    pack_rgb(255 - chan_r(c) as int, 255 - chan_g(c) as int, 255 - chan_b(c) as int)
}

/// One channel of a hue rotation before rescaling: `base` is the channel
/// itself, `cross` the matching component of the cross product with the
/// gray axis, `sum` the sum of all three channels, and `cosq`/`sinq` the
/// rotation's cosine and sine at scale 10000. The value is the rotated
/// channel scaled by 3000000000.
pub open spec fn rot_chan_raw(base: int, cross: int, sum: int, cosq: int, sinq: int) -> int {
    (300000 * base) * cosq + (173205 * cross) * sinq + (100000 * sum) * (10000 - cosq)
}

/// One channel of a hue rotation: the raw rotated channel rescaled,
/// truncated and clamped to the channel range.
pub open spec fn rot_chan(base: int, cross: int, sum: int, cosq: int, sinq: int) -> int {
    let v = rot_chan_raw(base, cross, sum, cosq, sinq);
    if v < 0 {
        0
    } else if v / 3000000000 > 255 {
        255
    } else {
        v / 3000000000
    }
}

/// The whole hue-rotated color: the RGB vector turned around the gray axis
/// (1,1,1)/sqrt(3) by `d` thousandths of a degree, per Rodrigues' rotation
/// formula with the integer sine and cosine of `crate::trig`, each channel
/// truncated and clamped on repacking.
pub open spec fn hue_shift_spec(c: u32, d: int) -> int {
    let cosq = trig::cos_mdeg_spec(d);
    let sinq = trig::sin_mdeg_spec(d);
    let r = chan_r(c) as int;
    let g = chan_g(c) as int;
    let b = chan_b(c) as int;
    pack_rgb(
        rot_chan(r, b - g, r + g + b, cosq, sinq),
        rot_chan(g, r - b, r + g + b, cosq, sinq),
        rot_chan(b, g - r, r + g + b, cosq, sinq),
    )
}

impl Color {
    /// Rotates the color's hue by `delta_mdeg` thousandths of a degree
    /// around the gray axis; negative angles counter-rotate. The rotation is
    /// periodic at a full turn.
    pub fn hue_shift(c: u32, delta_mdeg: i64) -> (n: u32)
        ensures
            n == hue_shift_spec(c, delta_mdeg as int),
            n <= 0xFFFFFF,
    {
        let cosq = trig::cos_mdeg(delta_mdeg);
        let sinq = trig::sin_mdeg(delta_mdeg);
        let (r, g, b) = Color::to_rgb(c);
        let sum: i64 = (r as i64) + (g as i64) + (b as i64);
        let rr = Color::rot_channel(r as i64, (b as i64) - (g as i64), sum, cosq, sinq);
        let gg = Color::rot_channel(g as i64, (r as i64) - (b as i64), sum, cosq, sinq);
        let bb = Color::rot_channel(b as i64, (g as i64) - (r as i64), sum, cosq, sinq);
        Color::from_rgb(rr, gg, bb)
    }

    /// One channel of `hue_shift`.
    fn rot_channel(base: i64, cross: i64, sum: i64, cosq: i64, sinq: i64) -> (ch: u8)
        requires
            0 <= base <= 255,
            -255 <= cross <= 255,
            0 <= sum <= 765,
            -10000 <= cosq <= 10000,
            -10000 <= sinq <= 10000,
        ensures
            ch == rot_chan(base as int, cross as int, sum as int, cosq as int, sinq as int),
    {
        proof {
            assert((300000 * base) * cosq <= 765000000000int
                && (300000 * base) * cosq >= -765000000000int
                && (173205 * cross) * sinq <= 441672750000int
                && (173205 * cross) * sinq >= -441672750000int
                && (100000 * sum) * (10000 - cosq) <= 1530000000000int
                && (100000 * sum) * (10000 - cosq) >= 0) by (nonlinear_arith)
                requires
                    0 <= base <= 255,
                    -255 <= cross <= 255,
                    0 <= sum <= 765,
                    -10000 <= cosq <= 10000,
                    -10000 <= sinq <= 10000,
            ;
        }
        let t1: i64 = (300000 * base) * cosq;
        let t2: i64 = (173205 * cross) * sinq;
        let t3: i64 = (100000 * sum) * (10000 - cosq);
        let v: i64 = t1 + t2 + t3;
        if v < 0 {
            0
        } else {
            let q: u64 = (v as u64) / 3000000000u64;
            if q > 255 {
                255
            } else {
                q as u8
            }
        }
    }
}

/// Law: packing three channel bytes and unpacking them again returns the
/// same bytes, for every channel value.
pub proof fn lemma_pack_unpack(r: u8, g: u8, b: u8)
    ensures
        chan_r(pack_rgb(r as int, g as int, b as int) as u32) == r,
        chan_g(pack_rgb(r as int, g as int, b as int) as u32) == g,
        chan_b(pack_rgb(r as int, g as int, b as int) as u32) == b,
{
    let c = pack_rgb(r as int, g as int, b as int) as u32;
    assert((c / 0x10000) % 0x100 == r
        && (c / 0x100) % 0x100 == g
        && c % 0x100 == b)
        by (bit_vector)
        requires c == (r as u32) * 0x10000 + (g as u32) * 0x100 + (b as u32),
    ;
}

/// Law: a packed color decomposes into its channels: repacking the unpacked
/// channels of a valid color gives the color back.
pub proof fn lemma_unpack_pack(c: u32)
    requires
        c <= 0xFFFFFF,
    ensures
        pack_rgb(chan_r(c) as int, chan_g(c) as int, chan_b(c) as int) == c,
{
    assert((c / 0x10000) % 0x100 * 0x10000 + (c / 0x100) % 0x100 * 0x100 + c % 0x100 == c)
        by (bit_vector)
        requires c <= 0xFFFFFF,
    ;
}

/// Law: inverting a color twice gives the original back, for every valid
/// packed color.
pub proof fn lemma_negative_involution(c: u32)
    requires
        c <= 0xFFFFFF,
    ensures
        negated(negated(c) as u32) == c,
{
    lemma_unpack_pack(c);
    lemma_pack_unpack((255 - chan_r(c)) as u8, (255 - chan_g(c)) as u8, (255 - chan_b(c)) as u8);
}

/// Law: rotating the hue by a zero angle is the identity, exactly, for
/// every valid packed color.
pub proof fn lemma_hue_shift_zero(c: u32)
    requires
        c <= 0xFFFFFF,
    ensures
        hue_shift_spec(c, 0) == c,
{
    trig::lemma_sin_cos_zero();
    lemma_rot_chan_zero(chan_r(c) as int, chan_b(c) - chan_g(c), chan_r(c) + chan_g(c) + chan_b(c));
    lemma_rot_chan_zero(chan_g(c) as int, chan_r(c) - chan_b(c), chan_r(c) + chan_g(c) + chan_b(c));
    lemma_rot_chan_zero(chan_b(c) as int, chan_g(c) - chan_r(c), chan_r(c) + chan_g(c) + chan_b(c));
    lemma_unpack_pack(c);
}

proof fn lemma_rot_chan_zero(base: int, cross: int, sum: int)
    requires
        0 <= base <= 255,
    ensures
        rot_chan(base, cross, sum, 10000, 0) == base,
{
    assert((300000 * base) * 10000 == 3000000000 * base) by (nonlinear_arith);
    assert((173205 * cross) * 0 == 0);
    assert((100000 * sum) * (10000 - 10000) == 0);
    vstd::arithmetic::mul::lemma_mul_nonnegative(3000000000, base);
    vstd::arithmetic::mul::lemma_mul_is_commutative(3000000000, base);
    vstd::arithmetic::div_mod::lemma_div_by_multiple(base, 3000000000);
}

/// Law: a gray color — equal channels, a point on the rotation's own axis
/// — is fixed exactly by a hue rotation of any angle whatsoever, so on
/// grays rotating and counter-rotating returns the color unchanged.
pub proof fn lemma_hue_shift_fixes_gray(c: u32, d: int)
    requires
        c <= 0xFFFFFF,
        chan_r(c) == chan_g(c) && chan_g(c) == chan_b(c),
    ensures
        hue_shift_spec(c, d) == c,
{
    lemma_rot_chan_fixes_gray(chan_r(c) as int, trig::cos_mdeg_spec(d), trig::sin_mdeg_spec(d));
    lemma_unpack_pack(c);
}

proof fn lemma_rot_chan_fixes_gray(ch: int, cosq: int, sinq: int)
    requires
        0 <= ch <= 255,
    ensures
        rot_chan(ch, 0, ch + ch + ch, cosq, sinq) == ch,
{
    assert(rot_chan_raw(ch, 0, ch + ch + ch, cosq, sinq) == 3000000000 * ch)
        by (nonlinear_arith);
    vstd::arithmetic::mul::lemma_mul_nonnegative(3000000000, ch);
    vstd::arithmetic::mul::lemma_mul_is_commutative(3000000000, ch);
    vstd::arithmetic::div_mod::lemma_div_by_multiple(ch, 3000000000);
}

/// Law: a hue rotation preserves the sum of the three channels exactly
/// before the final rescaling, truncation and clamping, whatever sine and
/// cosine it uses: the cross terms cancel and the cosine terms recombine,
/// so the color's projection onto the gray axis never moves.
pub proof fn lemma_hue_rotation_preserves_sum(r: int, g: int, b: int, cosq: int, sinq: int)
    ensures
        rot_chan_raw(r, b - g, r + g + b, cosq, sinq)
            + rot_chan_raw(g, r - b, r + g + b, cosq, sinq)
            + rot_chan_raw(b, g - r, r + g + b, cosq, sinq)
            == 3000000000 * (r + g + b),
{
    assert(rot_chan_raw(r, b - g, r + g + b, cosq, sinq)
        + rot_chan_raw(g, r - b, r + g + b, cosq, sinq)
        + rot_chan_raw(b, g - r, r + g + b, cosq, sinq)
        == 3000000000 * (r + g + b)) by (nonlinear_arith);
}

/// Law: interpolating a color with itself is the identity, for every factor.
pub proof fn lemma_lerp_same(c: u32, num: u64, den: u64)
    requires
        c <= 0xFFFFFF,
        den >= 1,
    ensures
        lerp_rgb(c, c, num as int, den as int) == c,
{
    lemma_lerp_chan_same(chan_r(c) as int, num as int, den as int);
    lemma_lerp_chan_same(chan_g(c) as int, num as int, den as int);
    lemma_lerp_chan_same(chan_b(c) as int, num as int, den as int);
    lemma_unpack_pack(c);
}

proof fn lemma_lerp_chan_same(ch: int, num: int, den: int)
    requires
        0 <= ch <= 255,
        den >= 1,
    ensures
        lerp_chan(ch, ch, num, den) == ch,
{
    assert(ch * den + (ch - ch) * num == ch * den);
    vstd::arithmetic::mul::lemma_mul_nonnegative(ch, den);
    vstd::arithmetic::div_mod::lemma_div_by_multiple(ch, den);
}

/// Law: a factor of zero returns the first color and a factor of one returns
/// the second, exactly.
pub proof fn lemma_lerp_ends(a: u32, b: u32, den: u64)
    requires
        a <= 0xFFFFFF,
        b <= 0xFFFFFF,
        den >= 1,
    ensures
        lerp_rgb(a, b, 0, den as int) == a,
        lerp_rgb(a, b, den as int, den as int) == b,
{
    lemma_lerp_chan_ends(chan_r(a) as int, chan_r(b) as int, den as int);
    lemma_lerp_chan_ends(chan_g(a) as int, chan_g(b) as int, den as int);
    lemma_lerp_chan_ends(chan_b(a) as int, chan_b(b) as int, den as int);
    lemma_unpack_pack(a);
    lemma_unpack_pack(b);
}

proof fn lemma_lerp_chan_ends(c1: int, c2: int, den: int)
    requires
        0 <= c1 <= 255,
        0 <= c2 <= 255,
        den >= 1,
    ensures
        lerp_chan(c1, c2, 0, den) == c1,
        lerp_chan(c1, c2, den, den) == c2,
{
    assert(c1 * den + (c2 - c1) * 0 == c1 * den);
    vstd::arithmetic::mul::lemma_mul_nonnegative(c1, den);
    vstd::arithmetic::div_mod::lemma_div_by_multiple(c1, den);
    assert(c1 * den + (c2 - c1) * den == c2 * den) by {
        vstd::arithmetic::mul::lemma_mul_is_distributive_add_other_way(den, c1, c2 - c1);
    }
    vstd::arithmetic::mul::lemma_mul_nonnegative(c2, den);
    vstd::arithmetic::div_mod::lemma_div_by_multiple(c2, den);
}

} // verus!
