//! The interleaved complex-spectrum layout.
//!
//! A complex spectrum crosses this crate's boundary as a flat block of
//! `2N` scalars, `[re0, im0, re1, im1, …]`. Downstream consumers upload
//! that layout directly, so it must be preserved exactly: building it,
//! taking it apart, and the round trips between the two are proved here.

use vstd::prelude::*;

use crate::error::DspError;
use crate::sample::all_finite;

verus! {

/// Real and imaginary parts merged into the flat interleaved layout
/// `[re0, im0, re1, im1, …]`.
pub open spec fn spec_interleave(re: Seq<u32>, im: Seq<u32>) -> Seq<u32> {
    Seq::new(2 * re.len(), |i: int| if i % 2 == 0 { re[i / 2] } else { im[i / 2] })
}

/// The real parts of an interleaved block: the entries at even positions.
pub open spec fn spec_evens(v: Seq<u32>) -> Seq<u32> {
    Seq::new(v.len() / 2, |i: int| v[2 * i])
}

/// The imaginary parts of an interleaved block: the entries at odd
/// positions.
pub open spec fn spec_odds(v: Seq<u32>) -> Seq<u32> {
    Seq::new(v.len() / 2, |i: int| v[2 * i + 1])
}

/// A real block staged for the transform: each sample paired with a zero
/// imaginary part, in the interleaved layout.
pub open spec fn spec_complex_input(s: Seq<u32>) -> Seq<u32> {
    spec_interleave(s, Seq::new(s.len(), |i: int| 0u32))
}

/// Merging real and imaginary parts and taking the merge apart are inverse:
/// the interleaved layout loses nothing and keeps the order of the bins.
pub proof fn lemma_interleave_round_trip(re: Seq<u32>, im: Seq<u32>)
    requires
        re.len() == im.len(),
    ensures
        spec_evens(spec_interleave(re, im)) == re,
        spec_odds(spec_interleave(re, im)) == im,
{
    assert(spec_evens(spec_interleave(re, im)) =~= re);
    assert(spec_odds(spec_interleave(re, im)) =~= im);
}

/// An interleaved block of even length is exactly the merge of its even and
/// odd positions: the layout is preserved bit for bit.
pub proof fn lemma_parts_rebuild(v: Seq<u32>)
    requires
        v.len() % 2 == 0,
    ensures
        spec_interleave(spec_evens(v), spec_odds(v)) == v,
{
    assert(spec_interleave(spec_evens(v), spec_odds(v)) =~= v);
}

/// Merges real and imaginary parts into a fresh interleaved block.
pub fn interleave(re: &Vec<u32>, im: &Vec<u32>) -> (r: Vec<u32>)
    requires
        re@.len() == im@.len(),
    ensures
        r@ == spec_interleave(re@, im@),
{
    let mut out: Vec<u32> = Vec::new();
    let mut i: usize = 0;
    while i < re.len()
        invariant
            re@.len() == im@.len(),
            i <= re@.len(),
            out@.len() == 2 * i,
            forall|j: int| 0 <= j < i ==> out@[2 * j] == re@[j] && out@[2 * j + 1] == im@[j],
        decreases re@.len() - i,
    {
        out.push(re[i]);
        out.push(im[i]);
        i += 1;
    }
    proof {
        assert(out@ =~= spec_interleave(re@, im@));
    }
    out
}

/// Takes an interleaved block apart into its real and imaginary parts.
/// A trailing scalar of an odd-length block belongs to no bin and is
/// dropped, as the bin count `len / 2` says.
pub fn deinterleave(v: &Vec<u32>) -> (r: (Vec<u32>, Vec<u32>))
    ensures
        r.0@ == spec_evens(v@),
        r.1@ == spec_odds(v@),
{
    let n = v.len();
    let bins = n / 2;
    let mut re: Vec<u32> = Vec::new();
    let mut im: Vec<u32> = Vec::new();
    let mut i: usize = 0;
    while i < bins
        invariant
            n == v@.len(),
            bins == v@.len() / 2,
            i <= bins,
            re@.len() == i,
            im@.len() == i,
            forall|j: int| 0 <= j < i ==> re@[j] == v@[2 * j] && im@[j] == v@[2 * j + 1],
        decreases bins - i,
    {
        re.push(v[2 * i]);
        im.push(v[2 * i + 1]);
        i += 1;
    }
    proof {
        assert(re@ =~= spec_evens(v@));
        assert(im@ =~= spec_odds(v@));
    }
    (re, im)
}

/// Stages a real block for the forward transform: rejects a non-finite
/// block with `InvalidInput`; otherwise returns the block in the
/// interleaved layout with zero imaginary parts. An empty block stages an
/// empty buffer — the transform of nothing is nothing, not an error.
pub fn prepare_transform(samples: &Vec<u32>) -> (r: Result<Vec<u32>, DspError>)
    ensures
        r is Ok <==> all_finite(samples@),
        r is Ok ==> r->Ok_0@ == spec_complex_input(samples@),
        r is Err ==> r == Err::<Vec<u32>, DspError>(DspError::InvalidInput),
{
    match crate::sample::validate_samples(samples) {
        Ok(()) => {
            let mut zeros: Vec<u32> = Vec::new();
            let mut i: usize = 0;
            while i < samples.len()
                invariant
                    i <= samples@.len(),
                    zeros@.len() == i,
                    forall|j: int| 0 <= j < i ==> zeros@[j] == 0u32,
                decreases samples@.len() - i,
            {
                zeros.push(0u32);
                i += 1;
            }
            proof {
                assert(zeros@ =~= Seq::new(samples@.len(), |k: int| 0u32));
            }
            Ok(interleave(samples, &zeros))
        },
        Err(e) => Err(e),
    }
}

} // verus!
