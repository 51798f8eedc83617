//! Stateless, index-addressable uniform deviates built on splitmix64.
//!
//! The deviate for path `i` depends on `i` alone, so paths can be evaluated in
//! any order, skipped, resumed or split across workers.
use vstd::prelude::*;
use crate::binary64::{encodes_unit_offset, fraction_field, ONE_BITS};

verus! {

/// Weyl increment of splitmix64 (the odd integer nearest `2^64 / phi`).
pub const GOLDEN_GAMMA: u64 = 0x9e37_79b9_7f4a_7c15;

/// Multiplier of the first splitmix64 mixing round.
pub const MIX_MUL_1: u64 = 0xbf58_476d_1ce4_e5b9;

/// Multiplier of the second splitmix64 mixing round.
pub const MIX_MUL_2: u64 = 0x94d0_49bb_1331_11eb;

/// `a + b` modulo `2^64`.
pub open spec fn add_mod64(a: u64, b: u64) -> u64 {
    ((a + b) % 0x1_0000_0000_0000_0000) as u64
}

/// `a * b` modulo `2^64`.
pub open spec fn mul_mod64(a: u64, b: u64) -> u64 {
    ((a * b) % 0x1_0000_0000_0000_0000) as u64
}

/// The splitmix64 finaliser: two xor-shift / odd-multiply rounds and a last xor-shift.
pub open spec fn mix_spec(z: u64) -> u64 {
    let a = mul_mod64(z ^ (z >> 30u64), MIX_MUL_1);
    let b = mul_mod64(a ^ (a >> 27u64), MIX_MUL_2);
    b ^ (b >> 31u64)
}

/// The splitmix64 state for path `index`: `(index + 1) * GOLDEN_GAMMA` modulo `2^64`.
pub open spec fn seed_spec(index: u64) -> u64 {
    mul_mod64(add_mod64(index, 1), GOLDEN_GAMMA)
}

/// The 64 mixed bits drawn for path `index`.
pub open spec fn draw_spec(index: u64) -> u64 {
    mix_spec(seed_spec(index))
}

/// The binary64 pattern whose value is `1 + u`, `u` being the uniform deviate of
/// path `index`: the 62 high bits of the draw under the exponent of `1.0`.
pub open spec fn uniform_bits_spec(index: u64) -> u64 {
    ONE_BITS | (draw_spec(index) >> 2u64)
}

/// The uniform deviate of path `index` is `uniform_numerator(index) / 2^52`:
/// bits 2 to 53 of the draw.
pub open spec fn uniform_numerator(index: u64) -> nat {
    ((draw_spec(index) >> 2u64) % 0x10_0000_0000_0000) as nat
}

/// Applies the splitmix64 finaliser to `z`.
pub fn mix64(z: u64) -> (r: u64)
    ensures
        r == mix_spec(z),
{
    let a = (z ^ (z >> 30u64)).wrapping_mul(MIX_MUL_1);
    let b = (a ^ (a >> 27u64)).wrapping_mul(MIX_MUL_2);
    b ^ (b >> 31u64)
}

/// The binary64 pattern of `1 + u`, where `u` in `[0, 1)` is the uniform deviate
/// of path `index`. The result depends on `index` alone.
pub fn uniform_bits(index: usize) -> (b: u64)
    ensures
        b == uniform_bits_spec(index as u64),
        encodes_unit_offset(b),
        fraction_field(b) == uniform_numerator(index as u64),
{
    let seed = (index as u64).wrapping_add(1).wrapping_mul(GOLDEN_GAMMA);
    let z = mix64(seed);
    let b = ONE_BITS | (z >> 2u64);
    proof {
        lemma_unit_offset_layout(z);
    }
    b
}

/// The deviate of a path is a function of its index alone, and lies in `[0, 1)`:
/// the pattern of every index encodes `1 + n / 2^52` with `n < 2^52` the
/// numerator of the deviate. The value `0` is reached (at `index == u64::MAX`,
/// whose seed wraps to zero), so the bound below is not strict.
pub proof fn lemma_uniform_in_unit_interval(index: u64)
    ensures
        encodes_unit_offset(uniform_bits_spec(index)),
        fraction_field(uniform_bits_spec(index)) == uniform_numerator(index),
        uniform_numerator(index) < 0x10_0000_0000_0000,
        uniform_numerator(0xffff_ffff_ffff_ffff) == 0,
{
    lemma_unit_offset_layout(draw_spec(index));
    assert(seed_spec(0xffff_ffff_ffff_ffff) == 0);
    assert(mix_spec(0) == 0) by (bit_vector);
    assert(0u64 >> 2u64 == 0) by (bit_vector);
}

/// Putting the 62 high bits of `z` under the exponent of `1.0` gives a number in
/// `[1, 2)` whose fraction is bits 2 to 53 of `z`.
pub proof fn lemma_unit_offset_layout(z: u64)
    ensures
        encodes_unit_offset(ONE_BITS | (z >> 2u64)),
        fraction_field(ONE_BITS | (z >> 2u64)) == (z >> 2u64) % 0x10_0000_0000_0000,
{
    assert((((0x3ff0_0000_0000_0000u64 | (z >> 2u64)) >> 63u64) == 0) && ((((
    0x3ff0_0000_0000_0000u64 | (z >> 2u64)) >> 52u64) & 0x7ffu64) == 1023) && (((
    0x3ff0_0000_0000_0000u64 | (z >> 2u64)) & 0x000f_ffff_ffff_ffffu64) == (z >> 2u64)
        % 0x10_0000_0000_0000)) by (bit_vector);
}

} // verus!
