//! The window function generator's decisions.
//!
//! A window family is chosen by a selector string; an unrecognized selector
//! degrades to the identity window (no error, by design). The coefficient
//! curves themselves are transcendental and run outside this crate; what is
//! decided here — which family applies, the clamped denominator that keeps a
//! one-sample block from dividing by zero, and the identity application —
//! is stated and proved exactly.

use vstd::prelude::*;
use vstd::string::StrSliceExecFns;

use crate::error::DspError;
use crate::sample::all_finite;

verus! {

/// The supported window families. `Identity` stands for the "none" selector
/// and for every unrecognized one: the block passes through unchanged.
#[derive(Clone, Copy, Debug, PartialEq, Eq, Structural)]
pub enum WindowFamily {
    /// w(i) = 0.5 − 0.5·cos(2π·i/D)
    Hann,
    /// w(i) = 0.54 − 0.46·cos(2π·i/D)
    Hamming,
    /// w(i) = 0.42 − 0.5·cos(2π·i/D) + 0.08·cos(4π·i/D)
    Blackman,
    /// The block is returned unchanged.
    Identity,
}

/// Which family a selector string names. Every string other than the three
/// recognized names falls back to `Identity`.
pub open spec fn spec_parse_family(name: Seq<char>) -> WindowFamily {
    if name == "hann"@ {
        WindowFamily::Hann
    } else if name == "hamming"@ {
        WindowFamily::Hamming
    } else if name == "blackman"@ {
        WindowFamily::Blackman
    } else {
        WindowFamily::Identity
    }
}

/// The denominator D of the coefficient formulas: N − 1, clamped to at least
/// 1 so that blocks of length 0 or 1 never divide by zero.
pub open spec fn spec_denominator(n: int) -> int {
    if n <= 1 {
        1
    } else {
        n - 1
    }
}

/// Character-for-character string equality.
fn str_eq(a: &str, b: &str) -> (r: bool)
    ensures
        r == (a@ == b@),
{
    let alen = a.unicode_len();
    let blen = b.unicode_len();
    if alen != blen {
        return false;
    }
    let mut i: usize = 0;
    while i < alen
        invariant
            alen == a@.len(),
            alen == b@.len(),
            i <= alen,
            forall|j: int| 0 <= j < i ==> a@[j] == b@[j],
        decreases alen - i,
    {
        if a.get_char(i) != b.get_char(i) {
            return false;
        }
        i += 1;
    }
    proof {
        assert(a@ =~= b@);
    }
    true
}

/// Chooses the window family named by a selector string; unknown selectors
/// degrade gracefully to `Identity`, never to an error.
pub fn parse_family(name: &str) -> (r: WindowFamily)
    ensures
        r == spec_parse_family(name@),
{
    if str_eq(name, "hann") {
        WindowFamily::Hann
    } else if str_eq(name, "hamming") {
        WindowFamily::Hamming
    } else if str_eq(name, "blackman") {
        WindowFamily::Blackman
    } else {
        WindowFamily::Identity
    }
}

/// Every selector outside the three recognized names — "none" included —
/// chooses the identity window, under which a block passes through
/// unchanged.
pub proof fn lemma_unrecognized_is_identity(name: Seq<char>)
    requires
        name != "hann"@,
        name != "hamming"@,
        name != "blackman"@,
    ensures
        spec_parse_family(name) == WindowFamily::Identity,
{
}

/// The clamped denominator of the coefficient formulas. Never zero, so the
/// formulas are well defined for blocks of length 0 and 1 as well.
pub fn window_denominator(n: usize) -> (d: usize)
    ensures
        d == spec_denominator(n as int),
        d >= 1,
{
    if n <= 1 {
        1
    } else {
        n - 1
    }
}

/// Applies the identity window: a fresh block, element for element the
/// input.
pub fn apply_identity(s: &Vec<u32>) -> (r: Vec<u32>)
    ensures
        r@ == s@,
{
    let mut out: Vec<u32> = Vec::with_capacity(s.len());
    let mut i: usize = 0;
    while i < s.len()
        invariant
            i <= s@.len(),
            out@.len() == i,
            forall|j: int| 0 <= j < i ==> out@[j] == s@[j],
        decreases s@.len() - i,
    {
        out.push(s[i]);
        i += 1;
    }
    proof {
        assert(out@ =~= s@);
    }
    out
}

/// What the window stage hands back for a finite block: either the block
/// itself, already windowed (the identity family has no arithmetic to do),
/// or the plan its coefficient curve is to run under.
#[derive(Debug, PartialEq, Eq)]
pub enum WindowOutcome {
    /// The identity family applied: the block, unchanged bit for bit.
    Passthrough(Vec<u32>),
    /// A named family: the curve still has to run, under this plan.
    Curve(WindowPlan),
}

/// Everything the windowing stage decides about a block: the family the
/// selector names, the block length, and the clamped denominator D of the
/// coefficient formulas.
#[derive(Clone, Copy, Debug, PartialEq, Eq, Structural)]
pub struct WindowPlan {
    /// The family the selector named.
    pub family: WindowFamily,
    /// The length N of the block.
    pub len: usize,
    /// The denominator D = max(N − 1, 1) of the coefficient formulas.
    pub denom: usize,
}

/// The plan the windowing stage must produce for a finite block.
pub open spec fn spec_window_plan(s: Seq<u32>, name: Seq<char>) -> WindowPlan {
    WindowPlan {
        family: spec_parse_family(name),
        len: s.len() as usize,
        denom: spec_denominator(s.len() as int) as usize,
    }
}

/// The windowing stage's decision: rejects a block holding a non-finite
/// sample with `InvalidInput`; for a finite block, names the family, the
/// length and the clamped denominator that the coefficient curve is to use.
pub fn plan_window(samples: &Vec<u32>, family_name: &str) -> (r: Result<
    WindowPlan,
    DspError,
>)
    ensures
        all_finite(samples@) ==> r == Ok::<WindowPlan, DspError>(
            spec_window_plan(samples@, family_name@),
        ),
        !all_finite(samples@) ==> r == Err::<WindowPlan, DspError>(DspError::InvalidInput),
{
    match crate::sample::validate_samples(samples) {
        Ok(()) => Ok(
            WindowPlan {
                family: parse_family(family_name),
                len: samples.len(),
                denom: window_denominator(samples.len()),
            },
        ),
        Err(e) => Err(e),
    }
}

/// The whole window stage, as far as it can run without arithmetic:
/// rejects a block holding a non-finite sample with `InvalidInput`; under
/// the "none" selector or any unrecognized one returns the block unchanged,
/// element for element; under a recognized family hands the coefficient
/// curve its plan.
pub fn window_block(samples: &Vec<u32>, family_name: &str) -> (r: Result<
    WindowOutcome,
    DspError,
>)
    ensures
        r is Ok <==> all_finite(samples@),
        r is Ok && spec_parse_family(family_name@) == WindowFamily::Identity ==> (r->Ok_0 matches
            WindowOutcome::Passthrough(out) && out@ == samples@),
        r is Ok && spec_parse_family(family_name@) != WindowFamily::Identity ==> (r->Ok_0 matches
            WindowOutcome::Curve(plan) && plan == spec_window_plan(samples@, family_name@)),
        r is Err ==> r == Err::<WindowOutcome, DspError>(DspError::InvalidInput),
{
    match plan_window(samples, family_name) {
        Ok(plan) => {
            if matches!(plan.family, WindowFamily::Identity) {
                Ok(WindowOutcome::Passthrough(apply_identity(samples)))
            } else {
                Ok(WindowOutcome::Curve(plan))
            }
        },
        Err(e) => Err(e),
    }
}

} // verus!
