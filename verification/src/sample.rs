//! The bit-level model of a sample block.
//!
//! A sample is the bit pattern of an IEEE 754 single-precision number,
//! carried as a `u32`. A pattern is finite exactly when its exponent field
//! is not all ones; that test, and the validation of a whole block, are
//! stated and proved here.

use vstd::prelude::*;

use crate::error::DspError;

verus! {

/// The exponent field of a single-precision bit pattern, still in place
/// (bits 23 through 30).
pub open spec fn exponent_field(b: u32) -> u32 {
    b & 0x7f80_0000u32
}

/// The fraction field of a single-precision bit pattern (bits 0 through 22).
pub open spec fn fraction_field(b: u32) -> u32 {
    b & 0x007f_ffffu32
}

/// Whether the bit pattern carries a finite number: the exponent field is
/// not all ones (all ones encodes an infinity or a NaN).
pub open spec fn is_finite_bits(b: u32) -> bool {
    exponent_field(b) != 0x7f80_0000u32
}

/// Whether the bit pattern carries a NaN: exponent field all ones and a
/// non-zero fraction.
pub open spec fn is_nan_bits(b: u32) -> bool {
    exponent_field(b) == 0x7f80_0000u32 && fraction_field(b) != 0u32
}

/// Whether the sign bit is set.
pub open spec fn is_negative_bits(b: u32) -> bool {
    b & 0x8000_0000u32 != 0u32
}

/// Whether every pattern of the block carries a finite number.
pub open spec fn all_finite(s: Seq<u32>) -> bool {
    forall|i: int| 0 <= i < s.len() ==> is_finite_bits(s[i])
}

/// Runtime test of `is_finite_bits` on one pattern.
pub fn bits_finite(b: u32) -> (r: bool)
    ensures
        r == is_finite_bits(b),
{
    b & 0x7f80_0000u32 != 0x7f80_0000u32
}

/// Runtime test of `all_finite` on a whole block.
pub fn samples_finite(s: &Vec<u32>) -> (r: bool)
    ensures
        r == all_finite(s@),
{
    let mut i: usize = 0;
    while i < s.len()
        invariant
            i <= s@.len(),
            forall|j: int| 0 <= j < i ==> is_finite_bits(s@[j]),
        decreases s@.len() - i,
    {
        if !bits_finite(s[i]) {
            return false;
        }
        i += 1;
    }
    true
}

/// Accepts a block exactly when every sample is finite; otherwise fails with
/// `InvalidInput` before any transform work is done.
pub fn validate_samples(s: &Vec<u32>) -> (r: Result<(), DspError>)
    ensures
        r is Ok <==> all_finite(s@),
        r is Err ==> r == Err::<(), DspError>(DspError::InvalidInput),
{
    if samples_finite(s) {
        Ok(())
    } else {
        Err(DspError::InvalidInput)
    }
}

} // verus!
