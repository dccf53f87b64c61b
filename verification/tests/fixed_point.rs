//! Exact values of the fixed-point primitives and the two pitch-law
//! anchors.

use cav_synth::curve::pow04;
use cav_synth::fixed::{
    fp_add, fp_clamp01, fp_clip, fp_div, fp_fract, fp_mul, fp_sub, FP_HALF, FP_ONE, FP_SAT,
};
use cav_synth::pitch::{calculate_freq, OCTAVE_VOLTAGE, REFERENCE_VOLTAGE};
use cav_synth::waves::{lfo_wave_fp, sine_fp, WaveShape};

#[test]
fn multiply_is_exact_on_binary_fractions() {
    // 0.5 * 2.0 == 1.0 and (-0.5) * 2.0 == -1.0, exactly.
    assert_eq!(fp_mul(FP_HALF, 2 * FP_ONE), FP_ONE);
    assert_eq!(fp_mul(-FP_HALF, 2 * FP_ONE), -FP_ONE);
    // 0.25 * 4.0 == 1.0.
    assert_eq!(fp_mul(FP_ONE / 4, 4 * FP_ONE), FP_ONE);
}

#[test]
fn arithmetic_saturates_at_the_rails() {
    assert_eq!(fp_add(FP_SAT, FP_SAT), FP_SAT);
    assert_eq!(fp_sub(-FP_SAT, FP_SAT), -FP_SAT);
    assert_eq!(fp_mul(FP_SAT, FP_SAT), FP_SAT);
    assert_eq!(fp_clip(i64::MAX), FP_SAT);
    assert_eq!(fp_clip(i64::MIN), -FP_SAT);
}

#[test]
fn division_truncates_toward_zero() {
    assert_eq!(fp_div(FP_ONE, 2 * FP_ONE), FP_HALF);
    assert_eq!(fp_div(-FP_ONE, 2 * FP_ONE), -FP_HALF);
    // 1 / 3 rounds down; -1 / 3 rounds up (toward zero).
    let third = fp_div(FP_ONE, 3 * FP_ONE);
    assert_eq!(third, FP_ONE / 3);
    assert_eq!(fp_div(-FP_ONE, 3 * FP_ONE), -third);
}

#[test]
fn fract_wraps_negative_phases_upward() {
    assert_eq!(fp_fract(FP_ONE + 5), 5);
    assert_eq!(fp_fract(-5), FP_ONE - 5);
    assert_eq!(fp_fract(-FP_ONE), 0);
    assert_eq!(fp_clamp01(-7), 0);
    assert_eq!(fp_clamp01(FP_ONE + 7), FP_ONE);
}

#[test]
fn pitch_law_reference_is_exactly_440() {
    assert_eq!(calculate_freq(REFERENCE_VOLTAGE), 440 * FP_ONE);
}

#[test]
fn pitch_law_doubles_per_octave() {
    // One octave above the reference: exactly 880.
    assert_eq!(calculate_freq(REFERENCE_VOLTAGE + OCTAVE_VOLTAGE), 880 * FP_ONE);
    // From an arbitrary voltage above the reference, adding twelve
    // semitones of voltage doubles the frequency exactly.
    let v = REFERENCE_VOLTAGE + 12345678;
    let f1 = calculate_freq(v);
    let f2 = calculate_freq(v + OCTAVE_VOLTAGE);
    assert_eq!(f2, 2 * f1);
}

#[test]
fn sine_hits_the_quarter_points_exactly() {
    assert_eq!(sine_fp(0), 0);
    assert_eq!(sine_fp(FP_ONE / 4), FP_ONE);
    assert_eq!(sine_fp(FP_HALF), 0);
    assert_eq!(sine_fp(3 * (FP_ONE / 4)), -FP_ONE);
}

#[test]
fn lfo_shapes_have_their_closed_forms() {
    assert_eq!(lfo_wave_fp(WaveShape::Saw, 0), -FP_ONE);
    assert_eq!(lfo_wave_fp(WaveShape::Saw, FP_HALF), 0);
    assert_eq!(lfo_wave_fp(WaveShape::Square, 0), FP_ONE);
    assert_eq!(lfo_wave_fp(WaveShape::Square, FP_HALF), -FP_ONE);
    assert_eq!(lfo_wave_fp(WaveShape::Triangle, 0), FP_ONE);
    assert_eq!(lfo_wave_fp(WaveShape::Triangle, FP_HALF), -FP_ONE);
}

#[test]
fn release_curve_is_exact_at_the_endpoints() {
    assert_eq!(pow04(0), 0);
    assert_eq!(pow04(FP_ONE), FP_ONE);
    // Strictly inside the unit range the curve sits above the diagonal:
    // x^0.4 > x for 0 < x < 1.
    let x = FP_ONE / 2;
    assert!(pow04(x) > x);
}
