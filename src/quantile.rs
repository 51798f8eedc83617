//! Coefficient table of the standard-normal quantile approximation.
//!
//! With `x = p - 1/2` and `s = x^2`, the quantile is approximated by the
//! rational function `x * q(s) / (s - 1/4)`, where
//! `q(s) = Q0 + s*(Q1 + s*(Q2 + ... + s*Q11))` is evaluated in Horner form with
//! fused multiply-adds from `Q11` down. The denominator vanishes at `p = 0` and
//! `p = 1`, which reproduces the steepening of the quantile there; callers keep
//! `p` strictly inside `(0, 1)`. The absolute error is about `2.5e-4` on
//! `[0.01, 0.99]` and grows quickly further out (about `0.7` at `p = 0.001`).
//! Each coefficient is kept as its exact binary64 pattern, sign included.
use vstd::prelude::*;

verus! {

/// Coefficient of `s^11`, about `177186111.13154584`.
pub const QNORM_Q11: u64 = 0x41a5_1f4a_7e43_59fa;

/// Coefficient of `s^10`, about `-219058235.58919835`.
pub const QNORM_Q10: u64 = 0xc1aa_1d20_772d_ab68;

/// Coefficient of `s^9`, about `117054121.85750414`.
pub const QNORM_Q9: u64 = 0x419b_e86a_a76e_1591;

/// Coefficient of `s^8`, about `-35345955.68660036`.
pub const QNORM_Q8: u64 = 0xc180_dab1_1d7e_2854;

/// Coefficient of `s^7`, about `6623473.609141079`.
pub const QNORM_Q7: u64 = 0x4159_443c_66fc_2add;

/// Coefficient of `s^6`, about `-796318.1973069897`.
pub const QNORM_Q6: u64 = 0xc128_4d3c_6505_6bf8;

/// Coefficient of `s^5`, about `61391.40908815101`.
pub const QNORM_Q5: u64 = 0x40ed_f9ed_1740_08b9;

/// Coefficient of `s^4`, about `-2938.7971360761003`.
pub const QNORM_Q4: u64 = 0xc0a6_f598_2238_42a0;

/// Coefficient of `s^3`, about `83.91129547120235`.
pub const QNORM_Q3: u64 = 0x4054_fa52_aa3d_73a6;

/// Coefficient of `s^2`, about `0.012702493639562374`.
pub const QNORM_Q2: u64 = 0x3f8a_03c3_d613_989a;

/// Coefficient of `s`, about `1.8568613404880654`.
pub const QNORM_Q1: u64 = 0x3ffd_b5b4_3ca9_a5bb;

/// Constant term, about `-0.6266629480750531` (near `-sqrt(pi/8)`, so that the
/// slope at `p = 1/2` is close to `sqrt(2 pi)`).
pub const QNORM_Q0: u64 = 0xbfe4_0d9f_7473_1d13;

} // verus!
