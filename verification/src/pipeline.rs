//! The per-frame pipeline: window → transform → convert, as one decision.
//!
//! A caller on the far side of a foreign-function boundary wants a whole
//! frame's spectral analysis from a single call. The pipeline adds no
//! semantics of its own: its plan is the window stage's plan beside the
//! converter's clamped reference, and it refuses a block exactly when the
//! window stage would.

use vstd::prelude::*;

use crate::error::DspError;
use crate::level::amp_floor_bits;
use crate::sample::all_finite;
use crate::window::spec_window_plan;
use crate::window::WindowPlan;

verus! {

/// Everything the frame pipeline decides about a call: how the block is to
/// be windowed, and what reference amplitude the decibel conversion
/// divides by.
#[derive(Clone, Copy, Debug, PartialEq, Eq, Structural)]
pub struct FramePlan {
    /// The window stage's plan for the block.
    pub window: WindowPlan,
    /// The clamped reference amplitude's bit pattern.
    pub reference: u32,
}

/// The plan the pipeline must produce for a finite block.
pub open spec fn spec_frame_plan(s: Seq<u32>, name: Seq<char>, reference: u32) -> FramePlan {
    FramePlan { window: spec_window_plan(s, name), reference: amp_floor_bits(reference) }
}

/// The pipeline's decision: rejects a block holding a non-finite sample
/// with `InvalidInput` before any stage runs; for a finite block, the
/// window stage's plan and the clamped reference.
pub fn plan_frame(samples: &Vec<u32>, family_name: &str, reference: u32) -> (r: Result<
    FramePlan,
    DspError,
>)
    ensures
        all_finite(samples@) ==> r == Ok::<FramePlan, DspError>(
            spec_frame_plan(samples@, family_name@, reference),
        ),
        !all_finite(samples@) ==> r == Err::<FramePlan, DspError>(DspError::InvalidInput),
{
    match crate::window::plan_window(samples, family_name) {
        Ok(window) => Ok(FramePlan { window, reference: crate::level::clamp_amplitude(reference) }),
        Err(e) => Err(e),
    }
}

/// Composing the stages introduces no new semantics: the frame plan for a
/// block is exactly the window stage's plan for it beside the converter's
/// clamped reference — analysing a frame decides nothing that windowing
/// the block and then converting it would not decide.
pub proof fn lemma_frame_plan_composes(s: Seq<u32>, name: Seq<char>, reference: u32)
    ensures
        spec_frame_plan(s, name, reference).window == spec_window_plan(s, name),
        spec_frame_plan(s, name, reference).reference == amp_floor_bits(reference),
{
}

} // verus!
