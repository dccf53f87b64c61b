//! The whole engine: a key press rendered for a second, gate timing over
//! the full graph, release decay, and message handling.

use cav_synth::engine::{decode_midi_bytes, mean_square, AudioMessage, AudioState};
use cav_synth::fixed::{FP_ONE, FP_SAT};
use cav_synth::ports::{InputJack, OutputJack};

// The release knob yielding a 0.25 second release time.
const SHORT_RELEASE_KNOB: i64 = 42443372;

#[test]
fn one_second_of_a_held_note_then_a_release() {
    let mut engine = AudioState::new(48000);
    engine.apply_message(&AudioMessage::KeyPress(100, 60));

    let mut peak: i64 = 0;
    for k in 0..48000usize {
        let (l, r) = engine.process();
        assert!(l.abs() <= FP_SAT && r.abs() <= FP_SAT);
        peak = peak.max(l.abs()).max(r.abs());
        let gate = engine.output_value(OutputJack::MidiGate, 0);
        if k == 0 {
            // The first process step is the full sample of gate-low.
            assert_eq!(gate, 0);
        } else {
            // From the second step to the end of the held second, high.
            assert_eq!(gate, FP_ONE);
        }
    }
    assert!(peak > FP_ONE / 100, "held note is silent: peak {peak}");

    // Shorten the release, release the key, and render the release out.
    engine.apply_message(&AudioMessage::Env1Release(SHORT_RELEASE_KNOB));
    engine.apply_message(&AudioMessage::KeyRelease(60));
    assert_eq!(engine.output_value(OutputJack::MidiGate, 0), 0);
    let release_samples = 48000 / 4;
    let mut tail_peak: i64 = 0;
    for k in 0..release_samples + 100 {
        let (l, _r) = engine.process();
        if k >= release_samples {
            tail_peak = tail_peak.max(l.abs());
        }
    }
    // Past the release time the envelope is exactly zero, so the voice
    // contributes nothing and the output has decayed to silence.
    assert!(tail_peak < peak / 50, "release did not decay: {tail_peak} vs {peak}");
}

#[test]
fn update_applies_a_batch_in_order() {
    let mut engine = AudioState::new(48000);
    let batch = vec![
        AudioMessage::MasterGain(FP_ONE),
        AudioMessage::Osc1Level(FP_ONE / 4),
        AudioMessage::Osc1Level(FP_ONE / 2),
    ];
    engine.update(&batch);
    assert_eq!(engine.effects_chain.master_gain, FP_ONE);
    // The later message wins.
    assert_eq!(engine.osc1.level, FP_ONE / 2);
}

#[test]
fn cable_messages_edit_the_patch() {
    let mut engine = AudioState::new(48000);
    let default_count = engine.cables.len();
    engine.apply_message(&AudioMessage::CableConnection(
        InputJack::Filter1Value,
        OutputJack::Osc1Value,
    ));
    assert_eq!(engine.cables.len(), default_count + 1);
    engine.apply_message(&AudioMessage::CableAttenuation(default_count, FP_ONE / 2));
    assert_eq!(engine.cables.get(default_count).gain, FP_ONE / 2);
    engine.apply_message(&AudioMessage::CableRemove(default_count));
    assert_eq!(engine.cables.len(), default_count);
    // An out-of-range removal is a rejected no-op, never a crash.
    engine.apply_message(&AudioMessage::CableRemove(9999));
    assert_eq!(engine.cables.len(), default_count);
}

#[test]
fn wavetable_swap_feeds_the_second_oscillator() {
    let mut engine = AudioState::new(48000);
    // A constant-valued table: once cabled in, the second oscillator
    // reproduces that constant scaled by level and amplitude.
    let table = vec![FP_ONE / 2; 2048 * 8];
    engine.apply_message(&AudioMessage::Osc2WavetableUpdate(table));
    // A wrongly sized table is rejected without effect.
    engine.apply_message(&AudioMessage::Osc2WavetableUpdate(vec![0i64; 7]));
    assert_eq!(engine.osc2.wavetable[0], FP_ONE / 2);
    assert_eq!(engine.osc2.wavetable.len(), 2048 * 8);
}

#[test]
fn midi_bytes_decode_to_performance_messages() {
    assert!(matches!(
        decode_midi_bytes(144, 60, 100),
        Some(AudioMessage::KeyPress(100, 60))
    ));
    assert!(matches!(decode_midi_bytes(144, 60, 0), Some(AudioMessage::KeyRelease(60))));
    assert!(matches!(decode_midi_bytes(176, 64, 127), Some(AudioMessage::PedalPress)));
    assert!(matches!(decode_midi_bytes(176, 64, 0), Some(AudioMessage::PedalRelease)));
    assert!(decode_midi_bytes(176, 1, 5).is_none());
    assert!(decode_midi_bytes(248, 0, 0).is_none());
}

#[test]
fn meter_measures_mean_square() {
    let samples = vec![FP_ONE, -FP_ONE, 0, 0];
    // (1 + 1 + 0 + 0) / 4 == 0.5.
    assert_eq!(mean_square(&samples), FP_ONE / 2);
}
