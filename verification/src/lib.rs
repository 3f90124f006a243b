//! Short-time spectral analysis support: windowing, forward-transform
//! staging, and magnitude/decibel conversion for real-valued audio blocks.
//!
//! Samples cross the boundary of this crate as raw IEEE 754 single-precision
//! bit patterns (`u32`), so that validation, layout and clamping decisions
//! can be stated and proved exactly at the bit level. The floating-point
//! kernels themselves (window curves, the fast Fourier transform, the
//! logarithm) run outside this crate, driven by the plans produced here.

pub mod cache;
pub mod error;
pub mod level;
pub mod pipeline;
pub mod sample;
pub mod spectrum;
pub mod window;
