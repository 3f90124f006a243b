//! The magnitude/decibel converter's decisions.
//!
//! Each spectrum bin becomes `20·log10(max(|X_k|, floor) / max(reference,
//! floor))`, with the floor a small positive constant that keeps the
//! quotient and the logarithm away from zero. The logarithm itself runs
//! outside this crate; what is decided here — that the block is finite and
//! what reference amplitude the formula divides by — is stated and proved
//! exactly on the reference's bit pattern.

use vstd::prelude::*;

use crate::error::DspError;
use crate::sample::all_finite;
use crate::sample::is_finite_bits;
use crate::sample::is_nan_bits;
use crate::sample::is_negative_bits;
use crate::spectrum::spec_complex_input;

verus! {

/// The bit pattern of the amplitude floor, the single-precision number
/// nearest 1e-12. Both the bin magnitude and the reference are clamped up
/// to it before the quotient is taken.
pub const AMP_FLOOR_BITS: u32 = 0x2b8c_bccc;

/// The reference amplitude the converter divides by: the caller's
/// reference, clamped up to the amplitude floor. A negative, zero, NaN or
/// merely tiny reference all clamp to the floor; any other pattern is kept.
/// For non-negative patterns the bit order is the numeric order, so the
/// integer comparison against the floor's pattern is the numeric one.
pub open spec fn amp_floor_bits(b: u32) -> u32 {
    if is_negative_bits(b) || is_nan_bits(b) || b < AMP_FLOOR_BITS {
        AMP_FLOOR_BITS
    } else {
        b
    }
}

/// Clamps a reference amplitude up to the amplitude floor, on its bit
/// pattern.
pub fn clamp_amplitude(b: u32) -> (r: u32)
    ensures
        r == amp_floor_bits(b),
{
    if b & 0x8000_0000u32 != 0u32 {
        AMP_FLOOR_BITS
    } else if (b & 0x7f80_0000u32 == 0x7f80_0000u32) && (b & 0x007f_ffffu32 != 0u32) {
        AMP_FLOOR_BITS
    } else if b < AMP_FLOOR_BITS {
        AMP_FLOOR_BITS
    } else {
        b
    }
}

/// The clamped reference is always safe to divide by: positive, never NaN,
/// and at least the amplitude floor; and it is finite unless the caller
/// passed positive infinity itself.
pub proof fn lemma_amp_floor_safe(b: u32)
    ensures
        !is_negative_bits(amp_floor_bits(b)),
        !is_nan_bits(amp_floor_bits(b)),
        amp_floor_bits(b) >= AMP_FLOOR_BITS,
        is_finite_bits(b) || is_nan_bits(b) ==> is_finite_bits(amp_floor_bits(b)),
{
    assert(0x2b8c_bcccu32 & 0x8000_0000u32 == 0u32) by (bit_vector);
    assert(0x2b8c_bcccu32 & 0x7f80_0000u32 != 0x7f80_0000u32) by (bit_vector);
}

/// Everything the converter decides before its per-bin arithmetic runs:
/// the block staged for the forward transform, and the clamped reference
/// the decibel formula divides by.
pub struct MagnitudePlan {
    /// The block in the interleaved layout with zero imaginary parts.
    pub buffer: Vec<u32>,
    /// The clamped reference amplitude's bit pattern.
    pub reference: u32,
}

/// The converter's decision: rejects a block holding a non-finite sample
/// with `InvalidInput` before any transform work; for a finite block,
/// stages the transform input and clamps the reference amplitude.
pub fn plan_magnitude(samples: &Vec<u32>, reference: u32) -> (r: Result<
    MagnitudePlan,
    DspError,
>)
    ensures
        r is Ok <==> all_finite(samples@),
        r is Ok ==> r->Ok_0.buffer@ == spec_complex_input(samples@),
        r is Ok ==> r->Ok_0.reference == amp_floor_bits(reference),
        r is Err ==> r == Err::<MagnitudePlan, DspError>(DspError::InvalidInput),
{
    match crate::spectrum::prepare_transform(samples) {
        Ok(buffer) => Ok(MagnitudePlan { buffer, reference: clamp_amplitude(reference) }),
        Err(e) => Err(e),
    }
}

} // verus!
