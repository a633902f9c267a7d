//! Quantization of decoded samples.
//!
//! The decoder produces samples as IEEE 754 single-precision values nominally
//! in `[0.0, 1.0]`.  The boundary hands each sample to the caller as one byte
//! computed by `clamp(trunc(sample * 255 + 1/2), 0, 255)`: round-half-up for
//! non-negative samples, saturating for out-of-range ones.  Verified code
//! works on the sample's raw bit pattern, so the whole computation is exact
//! integer arithmetic on the encoded sign, exponent and fraction fields.

use vstd::prelude::*;

verus! {

use vstd::arithmetic::div_mod::lemma_basic_div;
use vstd::arithmetic::div_mod::lemma_div_denominator;
use vstd::arithmetic::div_mod::lemma_div_is_ordered;
use vstd::arithmetic::div_mod::lemma_div_multiples_vanish;
use vstd::arithmetic::power2::lemma2_to64;
use vstd::arithmetic::power2::lemma2_to64_rest;
use vstd::arithmetic::power2::lemma_pow2_adds;
use vstd::arithmetic::power2::lemma_pow2_pos;
use vstd::arithmetic::power2::lemma_pow2_strictly_increases;
use vstd::arithmetic::power2::pow2;
use vstd::bits::lemma_u64_shl_is_mul;

/// The sign bit of a single-precision bit pattern.
pub open spec fn sample_sign(bits: u32) -> u32 {
    bits >> 31u32
}

/// The biased exponent field of a single-precision bit pattern.
pub open spec fn sample_exp(bits: u32) -> u32 {
    (bits >> 23u32) & 0xffu32
}

/// The fraction field of a single-precision bit pattern.
pub open spec fn sample_frac(bits: u32) -> u32 {
    bits & 0x7fffffu32
}

/// `trunc(sample * 255 + 1/2)` for a finite sample with a clear sign bit.
///
/// Such a sample has the exact value `m * 2^(e' - 150)`, where `e'` is the
/// biased exponent (or 1 for subnormals) and `m` is the fraction with the
/// implicit leading bit added for normal numbers.  Then
/// `sample * 255 + 1/2 == (m * 510 * 2^e' + 2^150) / 2^151` exactly, and the
/// floor of that non-negative rational is the integer division below.
pub open spec fn scaled_sample(bits: u32) -> int {
    let exp = sample_exp(bits);
    let frac = sample_frac(bits);
    let eprime: nat = if exp == 0 { 1nat } else { exp as nat };
    let m: int = if exp == 0 { frac as int } else { frac + 0x800000 };
    (m * 510 * pow2(eprime) + pow2(150)) / pow2(151) as int
}

/// The byte produced for one sample: `clamp(trunc(sample * 255 + 1/2), 0, 255)`.
///
/// Samples with the sign bit set (negative values and negative zero) and NaN
/// payloads quantize to 0; positive infinity and every sample above the range
/// saturate to 255.
pub open spec fn quantize_spec(bits: u32) -> u8 {
    let sign = sample_sign(bits);
    let exp = sample_exp(bits);
    let frac = sample_frac(bits);
    if exp == 255 {
        if frac != 0 {
            0u8
        } else if sign == 1 {
            0u8
        } else {
            255u8
        }
    } else if sign == 1 {
        0u8
    } else {
        let q = scaled_sample(bits);
        if q > 255 {
            255u8
        } else {
            q as u8
        }
    }
}

/// A sample below `2^-9` scales to 0: its biased exponent is at most 117.
proof fn lemma_scaled_small(bits: u32)
    requires
        sample_exp(bits) <= 117,
    ensures
        scaled_sample(bits) == 0,
{
    let exp = sample_exp(bits);
    let frac = sample_frac(bits);
    let eprime: nat = if exp == 0 { 1nat } else { exp as nat };
    let m: int = if exp == 0 { frac as int } else { frac + 0x800000 };
    assert(bits & 0x7fffffu32 < 0x800000u32) by (bit_vector);
    lemma2_to64();
    lemma2_to64_rest();
    assert(0 <= m * 510 < pow2(33));
    if eprime < 117 {
        lemma_pow2_strictly_increases(eprime, 117);
    }
    lemma_pow2_pos(eprime);
    lemma_pow2_pos(117);
    lemma_pow2_adds(33, 117);
    assert(m * 510 * pow2(eprime) < pow2(33) * pow2(117)) by (nonlinear_arith)
        requires
            0 <= m * 510 < pow2(33),
            0 < pow2(eprime) <= pow2(117),
    ;
    assert(m * 510 * pow2(eprime) >= 0) by (nonlinear_arith)
        requires
            0 <= m * 510,
            0 < pow2(eprime),
    ;
    lemma_pow2_adds(1, 150);
    assert(pow2(151) == 2 * pow2(150));
    assert(0 <= m * 510 * pow2(eprime) + pow2(150) < pow2(151));
    lemma_basic_div(m * 510 * pow2(eprime) + pow2(150), pow2(151) as int);
}

/// A sample of 1.0 or above scales to at least 255.
proof fn lemma_scaled_at_least_255(bits: u32)
    requires
        sample_exp(bits) >= 128 || (sample_exp(bits) == 127 && sample_frac(bits) >= 1),
        sample_exp(bits) <= 254,
    ensures
        scaled_sample(bits) >= 255,
{
    let exp = sample_exp(bits);
    let frac = sample_frac(bits);
    let eprime: nat = exp as nat;
    let m: int = frac + 0x800000;
    let num = m * 510 * pow2(eprime) + pow2(150);
    lemma2_to64();
    lemma2_to64_rest();
    lemma_pow2_pos(eprime);
    lemma_pow2_pos(127);
    lemma_pow2_pos(128);
    if exp >= 128 {
        if exp > 128 {
            lemma_pow2_strictly_increases(128, eprime);
        }
        lemma_pow2_adds(23, 128);
        assert(m * 510 * pow2(eprime) >= 255 * pow2(151)) by (nonlinear_arith)
            requires
                m >= 0x800000,
                pow2(eprime) >= pow2(128),
                pow2(151) == 0x800000 * pow2(128),
                pow2(128) > 0,
        ;
    } else {
        assert(exp == 127 && frac >= 1);
        lemma_pow2_adds(24, 127);
        assert(m * 510 * pow2(eprime) >= 255 * pow2(151)) by (nonlinear_arith)
            requires
                m >= 0x800001,
                eprime == 127,
                pow2(151) == 0x1000000 * pow2(127),
                pow2(127) > 0,
                0x800001 * 510 > 255 * 0x1000000,
        ;
    }
    lemma_pow2_pos(150);
    assert(num >= 255 * pow2(151));
    lemma_pow2_pos(151);
    lemma_div_is_ordered(255 * pow2(151) as int, num, pow2(151) as int);
    lemma_div_multiples_vanish(255, pow2(151) as int);
    assert(pow2(151) * 255 == 255 * pow2(151)) by (nonlinear_arith);
    assert(num / pow2(151) as int >= 255);
}

/// Quantizes one sample, given as its raw single-precision bit pattern.
///
/// Returns exactly `clamp(trunc(sample * 255 + 1/2), 0, 255)`, with NaN and
/// every sample whose sign bit is set mapped to 0.
pub fn quantize_sample_bits(bits: u32) -> (r: u8)
    ensures
        r == quantize_spec(bits),
{
    let sign: u32 = bits >> 31;
    let exp: u32 = (bits >> 23) & 0xff;
    let frac: u32 = bits & 0x7fffff;
    proof {
        assert(bits & 0x7fffffu32 < 0x800000u32) by (bit_vector);
        assert((bits >> 23u32) & 0xffu32 < 256u32) by (bit_vector);
    }
    if exp == 255 {
        if frac != 0 {
            0
        } else if sign == 1 {
            0
        } else {
            255
        }
    } else if sign == 1 {
        0
    } else if exp >= 128 {
        proof {
            lemma_scaled_at_least_255(bits);
        }
        255
    } else if exp <= 117 {
        proof {
            lemma_scaled_small(bits);
        }
        0
    } else {
        let m: u32 = frac + 0x800000;
        let s: u32 = 150 - exp;
        let sh: u64 = s as u64;
        let sh1: u64 = (s + 1) as u64;
        proof {
            lemma2_to64();
            lemma2_to64_rest();
            if s < 32 {
                lemma_pow2_strictly_increases(s as nat, 32);
            }
            if (s + 1) < 33 {
                lemma_pow2_strictly_increases((s + 1) as nat, 33);
            }
            lemma_u64_shl_is_mul(1u64, sh);
            lemma_u64_shl_is_mul(1u64, sh1);
            lemma_pow2_pos(s as nat);
            lemma_pow2_pos((s + 1) as nat);
        }
        let num: u64 = (m as u64) * 510 + (1u64 << sh);
        let den: u64 = 1u64 << sh1;
        let q: u64 = num / den;
        proof {
            let exp_n: nat = exp as nat;
            let s_n: nat = s as nat;
            lemma_pow2_adds(exp_n, s_n);
            lemma_pow2_adds(exp_n, s_n + 1);
            lemma_pow2_adds(s_n, 1);
            lemma_pow2_pos(exp_n);
            assert((m as int) * 510 * pow2(exp_n) + pow2(150) == pow2(exp_n) * (num as int))
                by (nonlinear_arith)
                requires
                    num == (m as int) * 510 + pow2(s_n),
                    pow2(150) == pow2(exp_n) * pow2(s_n),
            ;
            assert(pow2(exp_n) * pow2(s_n + 1) == pow2(151));
            lemma_div_denominator(
                pow2(exp_n) * (num as int),
                pow2(exp_n) as int,
                pow2(s_n + 1) as int,
            );
            lemma_div_multiples_vanish(num as int, pow2(exp_n) as int);
            assert(scaled_sample(bits) == (pow2(exp_n) * (num as int)) / pow2(151) as int);
            assert((pow2(exp_n) * (num as int)) / (pow2(exp_n) as int * pow2(s_n + 1) as int)
                == (num as int) / pow2(s_n + 1) as int);
            assert(scaled_sample(bits) == q);
        }
        if q > 255 {
            255
        } else {
            q as u8
        }
    }
}

/// Any sample whose sign bit is set — every negative sample, negative zero,
/// negative infinity, and NaN with a sign — quantizes to 0.
pub proof fn lemma_quantize_nonpositive(bits: u32)
    requires
        sample_sign(bits) == 1,
    ensures
        quantize_spec(bits) == 0,
{
}

/// Any sample strictly above 1.0, including positive infinity, saturates
/// to 255.
pub proof fn lemma_quantize_above_one(bits: u32)
    requires
        sample_sign(bits) == 0,
        sample_exp(bits) > 127 || (sample_exp(bits) == 127 && sample_frac(bits) > 0),
        sample_exp(bits) == 255 ==> sample_frac(bits) == 0,
    ensures
        quantize_spec(bits) == 255,
{
    assert((bits >> 23u32) & 0xffu32 < 256u32) by (bit_vector);
    if sample_exp(bits) < 255 {
        lemma_scaled_at_least_255(bits);
    }
}

} // verus!
