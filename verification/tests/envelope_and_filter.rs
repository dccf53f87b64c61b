//! The envelope contour at its stage boundaries, and the filter's
//! zero-input bypass.

use cav_synth::envelope::PolyEnvelope;
use cav_synth::filterbank::PolyFilter;
use cav_synth::fixed::{FP_HALF, FP_ONE};
use cav_synth::ports::{
    ENVELOPE_GATE_INPUT, ENVELOPE_OUT_VALUE, ENVELOPE_VELOCITY_INPUT, ENV1_INPUT_OFFSET,
    ENV1_OUTPUT_OFFSET, FILTER_FREQUENCY_INPUT, FILTER_VALUE_INPUT, FILTER_VALUE_OUTPUT,
    FILTER1_INPUT_OFFSET, FILTER1_OUTPUT_OFFSET, TOTAL_INPUT_COUNT, TOTAL_OUTPUT_COUNT,
};

const SR: u32 = 48000;

// Knob values yielding attack 0.1 s, decay 0.2 s, sustain 0.3, release
// 0.5 s (the time knobs are squared and scaled by ten).
const ATTACK_KNOB: i64 = 26843546;
const DECAY_KNOB: i64 = 37962506;
const SUSTAIN_LEVEL: i64 = 80530637;
const RELEASE_KNOB: i64 = 60023993;

fn env_at(env: &mut PolyEnvelope<ENV1_INPUT_OFFSET, ENV1_OUTPUT_OFFSET>, inputs: &Vec<i64>,
    outputs: &mut Vec<i64>, samples: usize) -> i64 {
    for _ in 0..samples {
        env.render(inputs, outputs, SR);
    }
    outputs[ENV1_OUTPUT_OFFSET + ENVELOPE_OUT_VALUE]
}

#[test]
fn envelope_stage_boundaries() {
    let mut env: PolyEnvelope<ENV1_INPUT_OFFSET, ENV1_OUTPUT_OFFSET> = PolyEnvelope::new();
    env.set_attack_value(ATTACK_KNOB);
    env.set_decay_value(DECAY_KNOB);
    env.set_sustain_value(SUSTAIN_LEVEL);
    env.set_release_value(RELEASE_KNOB);

    let mut inputs = vec![0i64; TOTAL_INPUT_COUNT];
    let mut outputs = vec![0i64; TOTAL_OUTPUT_COUNT];
    inputs[ENV1_INPUT_OFFSET + ENVELOPE_GATE_INPUT] = FP_ONE;
    inputs[ENV1_INPUT_OFFSET + ENVELOPE_VELOCITY_INPUT] = FP_ONE;

    let tolerance = FP_ONE / 500;

    // The first gated sample records the trigger and still outputs zero.
    let v0 = env_at(&mut env, &inputs, &mut outputs, 1);
    assert_eq!(v0, 0);
    // Mid-attack, 0.05 s in: half way up the ramp.
    let v1 = env_at(&mut env, &inputs, &mut outputs, 2400);
    assert!((v1 - FP_HALF).abs() < tolerance, "mid-attack {v1}");
    // Mid-decay, 0.2 s in: 1 - 0.7 * 0.5 == 0.65.
    let v2 = env_at(&mut env, &inputs, &mut outputs, 9600 - 2400);
    let expected_mid_decay = FP_ONE - (FP_ONE - SUSTAIN_LEVEL) / 2;
    assert!((v2 - expected_mid_decay).abs() < tolerance, "mid-decay {v2}");
    // On the sustain plateau, 0.35 s in: exactly the sustain level.
    let v3 = env_at(&mut env, &inputs, &mut outputs, 16800 - 9600);
    assert_eq!(v3, SUSTAIN_LEVEL);

    // Release: after the full release time the output is exactly zero and
    // the envelope is idle.
    inputs[ENV1_INPUT_OFFSET + ENVELOPE_GATE_INPUT] = 0;
    let v4 = env_at(&mut env, &inputs, &mut outputs, 1);
    assert_eq!(v4, SUSTAIN_LEVEL); // release starts from the sustain value
    let v5 = env_at(&mut env, &inputs, &mut outputs, 24000);
    assert_eq!(v5, 0);
    // And it stays at zero: the voice has returned to idle.
    let v6 = env_at(&mut env, &inputs, &mut outputs, 10);
    assert_eq!(v6, 0);
    assert!(env.envelopes[0].start.is_none());
    assert!(env.envelopes[0].released.is_none());
}

#[test]
fn envelope_release_is_curved() {
    // Shortly into the release the curved law has already fallen well
    // below the linear ramp: at a quarter of the release time,
    // 1 - 0.25^0.4 is about 0.43 of the start value, not 0.75.
    let mut env: PolyEnvelope<ENV1_INPUT_OFFSET, ENV1_OUTPUT_OFFSET> = PolyEnvelope::new();
    env.set_attack_value(0);
    env.set_decay_value(0);
    env.set_sustain_value(FP_ONE);
    env.set_release_value(RELEASE_KNOB);
    let mut inputs = vec![0i64; TOTAL_INPUT_COUNT];
    let mut outputs = vec![0i64; TOTAL_OUTPUT_COUNT];
    inputs[ENV1_INPUT_OFFSET + ENVELOPE_GATE_INPUT] = FP_ONE;
    inputs[ENV1_INPUT_OFFSET + ENVELOPE_VELOCITY_INPUT] = FP_ONE;
    env_at(&mut env, &inputs, &mut outputs, 10);
    inputs[ENV1_INPUT_OFFSET + ENVELOPE_GATE_INPUT] = 0;
    env_at(&mut env, &inputs, &mut outputs, 1);
    // A quarter of the 0.5 s release is 6000 samples.
    let v = env_at(&mut env, &inputs, &mut outputs, 6000);
    let linear = 3 * (FP_ONE / 4);
    assert!(v < linear - FP_ONE / 10, "release not curved: {v}");
    assert!(v > FP_ONE / 4, "release fell too fast: {v}");
}

#[test]
fn filter_zero_input_is_bypassed_and_keeps_history() {
    let mut filter: PolyFilter<FILTER1_INPUT_OFFSET, FILTER1_OUTPUT_OFFSET> = PolyFilter::new();
    let mut inputs = vec![0i64; TOTAL_INPUT_COUNT];
    let mut outputs = vec![0i64; TOTAL_OUTPUT_COUNT];
    inputs[FILTER1_INPUT_OFFSET + FILTER_FREQUENCY_INPUT] = FP_ONE / 8;

    // Zero value input, any cutoff: output exactly zero, many times over.
    for _ in 0..32 {
        filter.render(&inputs, &mut outputs, 48000);
        assert_eq!(outputs[FILTER1_OUTPUT_OFFSET + FILTER_VALUE_OUTPUT], 0);
    }

    // Resuming with a non-zero signal matches a freshly constructed
    // filter fed the same signal: the zero-input samples left no trace.
    let mut fresh: PolyFilter<FILTER1_INPUT_OFFSET, FILTER1_OUTPUT_OFFSET> = PolyFilter::new();
    let mut fresh_outputs = vec![0i64; TOTAL_OUTPUT_COUNT];
    let signal = [FP_HALF, FP_ONE / 3, -FP_HALF, FP_ONE / 5];
    for s in signal {
        inputs[FILTER1_INPUT_OFFSET + FILTER_VALUE_INPUT] = s;
        filter.render(&inputs, &mut outputs, 48000);
        fresh.render(&inputs, &mut fresh_outputs, 48000);
        assert_eq!(
            outputs[FILTER1_OUTPUT_OFFSET + FILTER_VALUE_OUTPUT],
            fresh_outputs[FILTER1_OUTPUT_OFFSET + FILTER_VALUE_OUTPUT],
        );
    }
}

#[test]
fn filter_attenuates_fast_alternation_more_than_slow() {
    // A crude spectral check: with a mid cutoff, a sample-rate-alternating
    // signal comes out smaller than a slowly alternating one.
    let mut filter: PolyFilter<FILTER1_INPUT_OFFSET, FILTER1_OUTPUT_OFFSET> = PolyFilter::new();
    let mut inputs = vec![0i64; TOTAL_INPUT_COUNT];
    let mut outputs = vec![0i64; TOTAL_OUTPUT_COUNT];
    let mut fast_peak: i64 = 0;
    for k in 0..400 {
        inputs[FILTER1_INPUT_OFFSET + FILTER_VALUE_INPUT] = if k % 2 == 0 {
            FP_HALF
        } else {
            -FP_HALF
        };
        filter.render(&inputs, &mut outputs, 48000);
        if k > 200 {
            fast_peak = fast_peak.max(outputs[FILTER1_OUTPUT_OFFSET + FILTER_VALUE_OUTPUT].abs());
        }
    }
    let mut slow_filter: PolyFilter<FILTER1_INPUT_OFFSET, FILTER1_OUTPUT_OFFSET> =
        PolyFilter::new();
    let mut slow_peak: i64 = 0;
    for k in 0..400 {
        inputs[FILTER1_INPUT_OFFSET + FILTER_VALUE_INPUT] = if (k / 100) % 2 == 0 {
            FP_HALF
        } else {
            -FP_HALF
        };
        slow_filter.render(&inputs, &mut outputs, 48000);
        if k > 200 {
            slow_peak = slow_peak.max(outputs[FILTER1_OUTPUT_OFFSET + FILTER_VALUE_OUTPUT].abs());
        }
    }
    assert!(fast_peak < slow_peak / 4, "fast {fast_peak} slow {slow_peak}");
}
