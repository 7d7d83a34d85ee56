//! Questions about `f64` values asked of their IEEE-754 bit patterns.
use vstd::prelude::*;

verus! {

pub open spec fn f64_is_nan_bits(bits: u64) -> bool {
    (bits / 0x10_0000_0000_0000) % 0x800 == 0x7ff && bits % 0x10_0000_0000_0000 != 0
}

/// `x <= 0.0` for the `f64` whose bits are `bits`: true for both zeros and
/// every negative number, false for NaN.
pub open spec fn f64_bits_le_zero(bits: u64) -> bool {
    !f64_is_nan_bits(bits) && (bits % 0x8000_0000_0000_0000 == 0 || bits >= 0x8000_0000_0000_0000)
}

pub fn bits_le_zero(bits: u64) -> (b: bool)
    ensures
        b == f64_bits_le_zero(bits),
{
    let exponent: u64 = (bits / 0x10_0000_0000_0000) % 0x800;
    let fraction: u64 = bits % 0x10_0000_0000_0000;
    let nan = exponent == 0x7ff && fraction != 0;
    !nan && (bits % 0x8000_0000_0000_0000 == 0 || bits >= 0x8000_0000_0000_0000)
}

/// The sign test on `f64` bits answers as `x <= 0.0` does: every number whose
/// sign bit is clear and whose bits are not all zero (every positive number,
/// however large, and a NaN) is not at most zero; both zeros are; every
/// negative number is, except a NaN.
pub proof fn lemma_le_zero_by_sign(bits: u64)
    ensures
        bits < 0x8000_0000_0000_0000 && bits != 0 ==> !f64_bits_le_zero(bits),
        bits == 0 ==> f64_bits_le_zero(bits),
        bits == 0x8000_0000_0000_0000 ==> f64_bits_le_zero(bits),
        bits >= 0x8000_0000_0000_0000 && !((bits / 0x10_0000_0000_0000) % 0x800 == 0x7ff && bits
            % 0x10_0000_0000_0000 != 0) ==> f64_bits_le_zero(bits),
        (bits / 0x10_0000_0000_0000) % 0x800 == 0x7ff && bits % 0x10_0000_0000_0000 != 0
            ==> !f64_bits_le_zero(bits),
{
}

} // verus!
