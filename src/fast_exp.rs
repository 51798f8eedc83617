//! Integer side of the fast base-2 exponential.
//!
//! `2^x` is evaluated as `p(m) * 2^r` with `r = round(x)` and `m = x - r` in
//! `[-0.5, 0.5]`. The factor `2^r` is built by writing `r + 1023` straight into
//! the exponent field of a binary64 pattern; `p` is a degree-6 minimax fit of
//! `2^m` on `[-0.5, 0.5]` whose coefficients are kept as exact bit patterns,
//! evaluated in Horner form with fused multiply-adds:
//! `p(m) = C0 + m*(C1 + m*(C2 + m*(C3 + m*(C4 + m*(C5 + m*C6)))))`.
//! The fit's relative error stays below `4e-9` over the whole interval.
use vstd::prelude::*;
use crate::binary64::{encodes_power_of_two, exponent_field, fraction_field, sign_field};

verus! {

/// Constant term of the `2^m` fit: exactly `1.0`.
pub const EXP2_C0: u64 = 0x3ff0_0000_0000_0000;

/// Linear coefficient of the `2^m` fit, about `0.6931472253950112` (near `ln 2`).
pub const EXP2_C1: u64 = 0x3fe6_2e43_170c_4f93;

/// Quadratic coefficient of the `2^m` fit, about `0.24022651084117297`.
pub const EXP2_C2: u64 = 0x3fce_bfbe_07d8_f6a8;

/// Cubic coefficient of the `2^m` fit, about `0.055502973141993255`.
pub const EXP2_C3: u64 = 0x3fac_6ae2_bcf3_856f;

/// Quartic coefficient of the `2^m` fit, about `0.009618030782505154`.
pub const EXP2_C4: u64 = 0x3f83_b29e_3d4d_6016;

/// Quintic coefficient of the `2^m` fit, about `0.001341000096610016`.
pub const EXP2_C5: u64 = 0x3f55_f88f_e3c4_92ab;

/// Sextic coefficient of the `2^m` fit, about `0.0001546973197747555`.
pub const EXP2_C6: u64 = 0x3f24_46c7_dbc1_99b5;

/// `2^52`, the weight of the lowest exponent bit.
pub const EXPONENT_UNIT: u64 = 0x10_0000_0000_0000;

/// The pattern `(r + 1023) * 2^52`, clamped to `[0, 2^64 - 1]`: what converting
/// the exact value `r * 2^52 + bits(1.0)` to `u64` with saturation yields.
pub open spec fn scale_bits_spec(r: int) -> int {
    if r < -1023 {
        0
    } else if r > 3072 {
        0xffff_ffff_ffff_ffff
    } else {
        (r + 1023) * 0x10_0000_0000_0000
    }
}

/// The binary64 pattern of the scale factor `2^r`.
///
/// For `r` in `[-1022, 1023]` the pattern encodes `2^r` exactly. Outside that
/// range the value is the saturated pattern of `scale_bits_spec`: `0` (the
/// number zero) below, and patterns of infinity, NaN or negative numbers above.
pub fn scale_bits(r: i64) -> (b: u64)
    ensures
        b as int == scale_bits_spec(r as int),
        -1022 <= r <= 1023 ==> encodes_power_of_two(b, r as int),
{
    if r < -1023 {
        0
    } else if r > 3072 {
        u64::MAX
    } else {
        let k = (r + 1023) as u64;
        proof {
            if -1022 <= r <= 1023 {
                lemma_power_of_two_layout(k);
            }
        }
        k * EXPONENT_UNIT
    }
}

/// Writing a biased exponent `k` in `[1, 2046]` into an otherwise zero pattern
/// encodes `2^(k - 1023)`.
pub proof fn lemma_power_of_two_layout(k: u64)
    requires
        1 <= k <= 2046,
    ensures
        encodes_power_of_two((k * 0x10_0000_0000_0000) as u64, k - 1023),
{
    let b = (k * 0x10_0000_0000_0000) as u64;
    assert(sign_field(b) == 0 && exponent_field(b) == k && fraction_field(b) == 0) by (bit_vector)
        requires
            1 <= k <= 2046,
            b == (k * 0x10_0000_0000_0000) as u64,
    ;
}

} // verus!
