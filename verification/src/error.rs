//! The error taxonomy: a single fatal condition for non-finite input.

use vstd::prelude::*;

verus! {

/// The sole error of this library. Every operation rejects a block that
/// contains a NaN or an infinity before doing any transform work; no partial
/// result is ever produced.
#[derive(Clone, Copy, Debug, PartialEq, Eq, Structural)]
pub enum DspError {
    /// Some numeric input held a non-finite value (NaN or an infinity).
    InvalidInput,
}

impl DspError {
    /// A short human-readable description of the error.
    pub fn message(&self) -> (r: &'static str)
        ensures
            r@ == "input contains non-finite values"@,
    {
        "input contains non-finite values"
    }
}

} // verus!
