//! Field layout of IEEE-754 binary64 bit patterns.
use vstd::prelude::*;

verus! {

/// Bit pattern of `1.0`: sign clear, biased exponent equal to the bias, fraction zero.
pub const ONE_BITS: u64 = 0x3ff0_0000_0000_0000;

/// The sign bit of `b`.
pub open spec fn sign_field(b: u64) -> u64 {
    b >> 63
}

/// The 11-bit biased exponent of `b`; a biased exponent `e` of a normal
/// number stands for the factor `2^(e - 1023)`.
pub open spec fn exponent_field(b: u64) -> u64 {
    (b >> 52) & 0x7ff
}

/// The 52-bit fraction of `b`.
pub open spec fn fraction_field(b: u64) -> u64 {
    b & 0x000f_ffff_ffff_ffff
}

/// `b` encodes the normal number `2^e` exactly.
pub open spec fn encodes_power_of_two(b: u64, e: int) -> bool {
    &&& -1022 <= e <= 1023
    &&& sign_field(b) == 0
    &&& exponent_field(b) == e + 1023
    &&& fraction_field(b) == 0
}

/// `b` encodes a number in `[1, 2)`, namely `1 + fraction_field(b) / 2^52`.
pub open spec fn encodes_unit_offset(b: u64) -> bool {
    &&& sign_field(b) == 0
    &&& exponent_field(b) == 1023
}

} // verus!
