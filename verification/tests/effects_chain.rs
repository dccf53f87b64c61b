//! The effects stages: transparent defaults, the delay tap, the soft-clip
//! saturator and the reverb mix.

use cav_synth::effects::{exp_neg, Delay, Distortion, EffectsChain, Reverb};
use cav_synth::fixed::{FP_HALF, FP_ONE};
use cav_synth::ports::TOTAL_INPUT_COUNT;

#[test]
fn exponential_is_one_at_zero_and_decreasing() {
    assert_eq!(exp_neg(0), FP_ONE);
    let a = exp_neg(FP_HALF);
    let b = exp_neg(FP_ONE);
    let c = exp_neg(4 * FP_ONE);
    assert!(FP_ONE > a && a > b && b > c && c >= 0);
    // e^(-1) is about 0.368; the rational approximation sits close by.
    let e_inv = 98784247; // 0.368 in fixed point
    assert!((b - e_inv).abs() < FP_ONE / 50, "exp_neg(1) == {b}");
}

#[test]
fn distortion_is_transparent_when_dry() {
    let d = Distortion::new();
    assert_eq!(d.render(FP_HALF), FP_HALF);
    assert_eq!(d.render(-FP_HALF), -FP_HALF);
}

#[test]
fn distortion_soft_clips_when_wet() {
    let mut d = Distortion::new();
    d.wet = FP_ONE;
    // Fully wet, unity drive: x maps to sign(x) * (1 - e^(-|x|)), which
    // stays strictly inside full scale and is odd.
    let y = d.render(4 * FP_ONE);
    assert!(0 < y && y < FP_ONE);
    assert_eq!(d.render(-4 * FP_ONE), -y);
    assert_eq!(d.render(0), 0);
}

#[test]
fn delay_taps_the_line_after_its_delay_time() {
    let mut delay = Delay::new();
    delay.set_delay_index(3);
    delay.wet = FP_ONE;
    delay.feedback = FP_ONE;
    // Fully wet: the output is exactly the tap. An impulse re-emerges
    // after the tap length.
    assert_eq!(delay.render(FP_ONE), 0);
    assert_eq!(delay.render(0), 0);
    assert_eq!(delay.render(0), 0);
    assert_eq!(delay.render(0), 0);
    assert_eq!(delay.render(0), FP_ONE);
}

#[test]
fn reverb_is_transparent_when_dry() {
    let mut reverb = Reverb::new(48000);
    for k in 0..64i64 {
        let x = k * (FP_ONE / 64);
        let (l, r) = reverb.render(x);
        assert_eq!(l, x);
        assert_eq!(r, x);
    }
}

#[test]
fn wet_reverb_rings_after_the_input_stops() {
    let mut chain = EffectsChain::new(48000);
    chain.set_reverb_wet(FP_ONE);
    let mut inputs = vec![0i64; TOTAL_INPUT_COUNT];
    inputs[0] = FP_ONE;
    chain.render(&inputs);
    inputs[0] = 0;
    let mut rang = false;
    for _ in 0..4000 {
        let (l, r) = chain.render(&inputs);
        if l != 0 || r != 0 {
            rang = true;
        }
    }
    assert!(rang, "reverb tail is silent");
}

#[test]
fn chain_defaults_pass_the_voice_sum_through() {
    // Transparent distortion and delay, fully dry reverb: the chain
    // output is exactly the voice sum scaled by the default master gain.
    let mut chain = EffectsChain::new(48000);
    let master = chain.master_gain;
    let mut inputs = vec![0i64; TOTAL_INPUT_COUNT];
    inputs[0] = FP_HALF;
    inputs[1] = FP_HALF;
    let (l, r) = chain.render(&inputs);
    assert_eq!(l, master);
    assert_eq!(r, master);
}
