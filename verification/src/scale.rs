//! Scaling of axis samples to device ranges.
//!
//! An axis sample arrives on the wire as the 32 raw bits of a binary32
//! value in `[-1.0, 1.0]`. This module reads those bits directly — sign,
//! exponent and fraction — and computes the scaled device value in integer
//! arithmetic: thumb-stick components scale to `-32767..=32767`, triggers to
//! `0..=255`, rounding half away from zero and clamping out-of-range input.
//! A quiet or signalling non-number scales to zero; an infinity clamps.

use vstd::prelude::*;
use vstd::arithmetic::power2::{pow2, lemma_pow2_unfold, lemma_pow2_strictly_increases, lemma2_to64, lemma2_to64_rest};
use vstd::arithmetic::div_mod::lemma_basic_div;
use vstd::arithmetic::power2::lemma_pow2_pos;

verus! {

/// True when the sample's sign bit is set (the value is negative or is a
/// negatively signed zero or non-number).
pub open spec fn fsign(b: u32) -> bool {
    b >= 0x8000_0000
}

/// The biased exponent field of the sample.
pub open spec fn fexp(b: u32) -> nat {
    ((b / 0x0080_0000) % 0x100) as nat
}

/// The fraction field of the sample.
pub open spec fn ffrac(b: u32) -> nat {
    (b % 0x0080_0000) as nat
}

/// True when the bits encode a non-number.
pub open spec fn is_nan_bits(b: u32) -> bool {
    fexp(b) == 255 && ffrac(b) != 0
}

/// Magnitude of the sample scaled by `scale`, rounded half away from zero
/// and clamped to `scale`. With the exponent field `e` and fraction `m`,
/// a finite non-zero sample has magnitude `(2^23 + m) * 2^(e - 150)`, so the
/// scaled magnitude is `(2^23 + m) * scale / 2^(150 - e)`, rounded. Zeros and
/// subnormals round to zero; infinities clamp; non-numbers scale to zero.
pub open spec fn scaled_mag(b: u32, scale: nat) -> nat {
    let e = fexp(b);
    let m = ffrac(b);
    if e == 0 {
        0
    } else if e == 255 {
        if m == 0 {
            scale
        } else {
            0
        }
    } else if e >= 150 {
        scale
    } else {
        let p = (0x0080_0000 + m) * scale;
        let d = pow2((150 - e) as nat);
        let r = (p + d / 2) / d;
        if r > scale {
            scale
        } else {
            r as nat
        }
    }
}

/// The signed thumb-stick component the sample scales to.
pub open spec fn spec_thumb(b: u32) -> int {
    if fsign(b) {
        -(scaled_mag(b, 32767) as int)
    } else {
        scaled_mag(b, 32767) as int
    }
}

/// The trigger magnitude the sample scales to: negative samples clamp to
/// zero, positives scale to `0..=255`.
pub open spec fn spec_trigger(b: u32) -> int {
    if fsign(b) {
        0
    } else {
        scaled_mag(b, 255) as int
    }
}

/// True when the sample compares strictly greater than one half. For
/// non-negative finite values the bit pattern orders as the value does, so
/// this is a plain comparison against the bits of one half.
pub open spec fn spec_gt_half(b: u32) -> bool {
    !is_nan_bits(b) && b < 0x8000_0000 && b > 0x3F00_0000
}

/// True when the sample compares strictly less than minus one half.
pub open spec fn spec_lt_neg_half(b: u32) -> bool {
    !is_nan_bits(b) && b >= 0x8000_0000 && b - 0x8000_0000 > 0x3F00_0000
}

/// Computes `pow2(k)` for small exponents.
fn pow2_u64(k: u32) -> (r: u64)
    requires
        k <= 62,
    ensures
        r == pow2(k as nat),
{
    let mut d: u64 = 1;
    let mut j: u32 = 0;
    proof {
        lemma2_to64();
    }
    while j < k
        invariant
            j <= k <= 62,
            d == pow2(j as nat),
            d < 0x8000_0000_0000_0000u64,
        decreases k - j,
    {
        proof {
            lemma_pow2_unfold((j + 1) as nat);
            lemma_pow2_strictly_increases((j + 1) as nat, 63);
            lemma2_to64();
            lemma2_to64_rest();
        }
        d = d * 2;
        j = j + 1;
    }
    d
}

/// Scales the magnitude of the sample `b` by `scale`, per `scaled_mag`.
fn scale_mag(b: u32, scale: u32) -> (r: u32)
    requires
        0 < scale <= 0x8000,
    ensures
        r == scaled_mag(b, scale as nat),
        r <= scale,
{
    let e: u32 = (b / 0x0080_0000) % 0x100;
    let m: u32 = b % 0x0080_0000;
    if e == 0 {
        0
    } else if e == 255 {
        if m == 0 {
            scale
        } else {
            0
        }
    } else if e >= 150 {
        scale
    } else {
        let sh: u32 = 150 - e;
        proof {
            assert((0x0080_0000u64 + m as u64) * (scale as u64) < 0x80_0000_0000u64)
                by (nonlinear_arith)
                requires
                    m < 0x0080_0000u32,
                    0 < scale <= 0x8000u32,
            ;
        }
        let p: u64 = (0x0080_0000u64 + m as u64) * (scale as u64);
        if sh > 40 {
            proof {
                lemma2_to64_rest();
                lemma_pow2_strictly_increases(39, (sh - 1) as nat);
                lemma_pow2_unfold(sh as nat);
                lemma_basic_div((p + pow2(sh as nat) / 2) as int, pow2(sh as nat) as int);
            }
            0
        } else {
            let d: u64 = pow2_u64(sh);
            proof {
                lemma_pow2_pos(sh as nat);
                lemma_pow2_strictly_increases(sh as nat, 41);
                lemma2_to64_rest();
            }
            let r: u64 = (p + d / 2) / d;
            if r > scale as u64 {
                scale
            } else {
                r as u32
            }
        }
    }
}

/// Scales one stick-axis sample to its signed 16-bit device value.
pub fn thumb_value(b: u32) -> (r: i16)
    ensures
        r as int == spec_thumb(b),
{
    let mag = scale_mag(b, 32767);
    if b >= 0x8000_0000 {
        -(mag as i16)
    } else {
        mag as i16
    }
}

/// Scales one trigger sample to its unsigned 8-bit device value.
pub fn trigger_value(b: u32) -> (r: u8)
    ensures
        r as int == spec_trigger(b),
{
    if b >= 0x8000_0000 {
        0
    } else {
        scale_mag(b, 255) as u8
    }
}

/// Decides whether the sample is strictly greater than one half.
pub fn gt_half(b: u32) -> (r: bool)
    ensures
        r == spec_gt_half(b),
{
    let e: u32 = (b / 0x0080_0000) % 0x100;
    let m: u32 = b % 0x0080_0000;
    let nan = e == 255 && m != 0;
    !nan && b < 0x8000_0000 && b > 0x3F00_0000
}

/// Decides whether the sample is strictly less than minus one half.
pub fn lt_neg_half(b: u32) -> (r: bool)
    ensures
        r == spec_lt_neg_half(b),
{
    let e: u32 = (b / 0x0080_0000) % 0x100;
    let m: u32 = b % 0x0080_0000;
    let nan = e == 255 && m != 0;
    !nan && b >= 0x8000_0000 && b - 0x8000_0000 > 0x3F00_0000
}

} // verus!
