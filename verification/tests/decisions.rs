//! Bit-level decisions: validation, window planning, reference clamping,
//! and the plan-cache bookkeeping.

use dsp_core::cache::PlanCache;
use dsp_core::error::DspError;
use dsp_core::level::clamp_amplitude;
use dsp_core::level::plan_magnitude;
use dsp_core::level::AMP_FLOOR_BITS;
use dsp_core::pipeline::plan_frame;
use dsp_core::sample::bits_finite;
use dsp_core::sample::samples_finite;
use dsp_core::sample::validate_samples;
use dsp_core::window::apply_identity;
use dsp_core::window::parse_family;
use dsp_core::window::plan_window;
use dsp_core::window::window_denominator;
use dsp_core::window::WindowFamily;

fn to_bits(samples: &[f32]) -> Vec<u32> {
    samples.iter().map(|x| x.to_bits()).collect()
}

fn from_bits(bits: &[u32]) -> Vec<f32> {
    bits.iter().map(|b| f32::from_bits(*b)).collect()
}

#[test]
fn finite_bit_test_matches_f32() {
    for x in [0.0f32, -0.0, 1.0, -1.5, 1e-12, 3.4e38, f32::MIN_POSITIVE] {
        assert!(bits_finite(x.to_bits()), "{x} should be finite");
    }
    for x in [f32::NAN, f32::INFINITY, f32::NEG_INFINITY, -f32::NAN] {
        assert!(!bits_finite(x.to_bits()), "{x} should not be finite");
    }
}

#[test]
fn validation_accepts_finite_blocks() {
    let bits = to_bits(&[0.0, 1.0, -2.5, 100.0]);
    assert!(samples_finite(&bits));
    assert_eq!(validate_samples(&bits), Ok(()));
    assert_eq!(validate_samples(&Vec::new()), Ok(()));
}

#[test]
fn validation_rejects_non_finite_blocks() {
    for bad in [f32::NAN, f32::INFINITY, f32::NEG_INFINITY] {
        let bits = to_bits(&[1.0, bad, 2.0]);
        assert!(!samples_finite(&bits));
        assert_eq!(validate_samples(&bits), Err(DspError::InvalidInput));
    }
}

#[test]
fn rejection_reaches_every_operation() {
    let bits = to_bits(&[0.5, f32::NAN]);
    assert!(dsp_core::spectrum::prepare_transform(&bits).is_err());
    assert!(plan_window(&bits, "hann").is_err());
    assert!(plan_magnitude(&bits, 1.0f32.to_bits()).is_err());
    assert!(plan_frame(&bits, "hann", 1.0f32.to_bits()).is_err());
}

#[test]
fn family_parsing_is_exact() {
    assert_eq!(parse_family("hann"), WindowFamily::Hann);
    assert_eq!(parse_family("hamming"), WindowFamily::Hamming);
    assert_eq!(parse_family("blackman"), WindowFamily::Blackman);
    assert_eq!(parse_family("none"), WindowFamily::Identity);
    assert_eq!(parse_family(""), WindowFamily::Identity);
    assert_eq!(parse_family("Hann"), WindowFamily::Identity);
    assert_eq!(parse_family("kaiser"), WindowFamily::Identity);
}

#[test]
fn unrecognized_family_passes_block_through() {
    let samples = [0.25f32, -1.0, 3.5, 0.0];
    let bits = to_bits(&samples);
    let plan = plan_window(&bits, "triangular").unwrap();
    assert_eq!(plan.family, WindowFamily::Identity);
    let out = apply_identity(&bits);
    assert_eq!(out, bits);
    assert_eq!(from_bits(&out), samples.to_vec());
}

#[test]
fn window_block_passes_through_or_plans() {
    let samples = [1.5f32, -0.5, 2.0];
    let bits = to_bits(&samples);
    match dsp_core::window::window_block(&bits, "nuttall").unwrap() {
        dsp_core::window::WindowOutcome::Passthrough(out) => assert_eq!(out, bits),
        other => panic!("expected a passthrough, got {other:?}"),
    }
    match dsp_core::window::window_block(&bits, "hamming").unwrap() {
        dsp_core::window::WindowOutcome::Curve(plan) => {
            assert_eq!(plan.family, WindowFamily::Hamming);
            assert_eq!(plan.len, 3);
            assert_eq!(plan.denom, 2);
        }
        other => panic!("expected a curve plan, got {other:?}"),
    }
    assert_eq!(
        dsp_core::window::window_block(&to_bits(&[f32::NAN]), "hamming"),
        Err(DspError::InvalidInput)
    );
}

#[test]
fn denominator_is_clamped_for_short_blocks() {
    assert_eq!(window_denominator(0), 1);
    assert_eq!(window_denominator(1), 1);
    assert_eq!(window_denominator(2), 1);
    assert_eq!(window_denominator(3), 2);
    assert_eq!(window_denominator(16), 15);
}

#[test]
fn single_sample_window_is_finite_for_all_families() {
    // A one-sample block: the clamped denominator keeps every coefficient
    // formula away from a division by zero.
    let bits = to_bits(&[1.0]);
    for name in ["hann", "hamming", "blackman"] {
        let plan = plan_window(&bits, name).unwrap();
        assert_eq!(plan.len, 1);
        assert_eq!(plan.denom, 1);
        let d = plan.denom as f32;
        let phase = 2.0 * std::f32::consts::PI * 0.0 / d;
        let w = match plan.family {
            WindowFamily::Hann => 0.5 - 0.5 * phase.cos(),
            WindowFamily::Hamming => 0.54 - 0.46 * phase.cos(),
            WindowFamily::Blackman => 0.42 - 0.5 * phase.cos() + 0.08 * (2.0 * phase).cos(),
            WindowFamily::Identity => 1.0,
        };
        assert!(w.is_finite(), "window {name} must stay finite at N=1");
    }
}

#[test]
fn hann_window_starts_at_zero_and_is_symmetric() {
    let n = 16usize;
    let bits = to_bits(&vec![1.0f32; n]);
    let plan = plan_window(&bits, "hann").unwrap();
    assert_eq!(plan.family, WindowFamily::Hann);
    assert_eq!(plan.denom, n - 1);
    let d = plan.denom as f32;
    let coeff = |i: usize| -> f32 {
        let phase = 2.0 * std::f32::consts::PI * i as f32 / d;
        0.5 - 0.5 * phase.cos()
    };
    assert_eq!(coeff(0), 0.0);
    for i in 0..n {
        let a = coeff(i);
        let b = coeff(n - 1 - i);
        assert!((a - b).abs() < 1e-6, "hann symmetry broke at {i}: {a} vs {b}");
    }
}

#[test]
fn reference_floor_clamps_non_positive_references() {
    let floor = f32::from_bits(AMP_FLOOR_BITS);
    assert!(floor > 0.0);
    assert!((floor - 1e-12).abs() < 1e-18);
    for bad in [0.0f32, -0.0, -1.0, -1e30, f32::NEG_INFINITY, f32::NAN, 1e-30] {
        let clamped = f32::from_bits(clamp_amplitude(bad.to_bits()));
        assert_eq!(clamped, floor, "reference {bad} must clamp to the floor");
    }
    for kept in [1e-12f32, 1.0, 2.5, 1e30] {
        let clamped = f32::from_bits(clamp_amplitude(kept.to_bits()));
        assert_eq!(clamped, kept, "reference {kept} must be kept");
    }
}

#[test]
fn clamped_reference_keeps_decibels_finite() {
    // The converter's formula, run on the clamped reference: even a zero
    // magnitude and a non-positive reference give a finite decibel value.
    for reference in [0.0f32, -3.0, f32::NAN] {
        let safe = f32::from_bits(clamp_amplitude(reference.to_bits()));
        for magnitude in [0.0f32, 1e-20, 1.0, 1e20] {
            let floored = magnitude.max(f32::from_bits(AMP_FLOOR_BITS));
            let db = 20.0 * (floored / safe).log10();
            assert!(db.is_finite(), "dB of {magnitude} over {reference} not finite");
        }
    }
}

#[test]
fn magnitude_plan_stages_buffer_and_reference() {
    let bits = to_bits(&[1.0, -2.0]);
    let plan = plan_magnitude(&bits, (-5.0f32).to_bits()).unwrap();
    assert_eq!(plan.buffer, vec![1.0f32.to_bits(), 0, (-2.0f32).to_bits(), 0]);
    assert_eq!(plan.reference, AMP_FLOOR_BITS);
}

#[test]
fn frame_plan_composes_the_stages() {
    let bits = to_bits(&[0.0, 1.0, 2.0, 3.0]);
    let reference = 2.0f32.to_bits();
    let frame = plan_frame(&bits, "blackman", reference).unwrap();
    let window = plan_window(&bits, "blackman").unwrap();
    assert_eq!(frame.window, window);
    assert_eq!(frame.reference, clamp_amplitude(reference));

    let bad = to_bits(&[0.0, f32::INFINITY]);
    assert_eq!(
        plan_frame(&bad, "blackman", reference),
        Err(DspError::InvalidInput)
    );
    assert_eq!(
        plan_window(&bad, "blackman"),
        Err(DspError::InvalidInput)
    );
}

#[test]
fn plan_cache_reuses_slots() {
    let mut cache = PlanCache::new();
    assert_eq!(cache.len(), 0);
    assert_eq!(cache.lookup_or_insert(512), (0, true));
    assert_eq!(cache.lookup_or_insert(512), (0, false));
    assert_eq!(cache.lookup_or_insert(1024), (1, true));
    assert_eq!(cache.lookup_or_insert(512), (0, false));
    assert_eq!(cache.lookup_or_insert(1024), (1, false));
    assert_eq!(cache.len(), 2);
}

#[test]
fn invalid_input_has_a_message() {
    assert_eq!(
        DspError::InvalidInput.message(),
        "input contains non-finite values"
    );
}
