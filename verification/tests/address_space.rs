//! The port address space: every (jack, voice-slot) pair resolves to its own
//! flat address, and the array sizes equal the sum of the module
//! contributions.

use cav_synth::ports::{
    input_jack_address, output_jack_address, InputJack, OutputJack, ANALOG_TOTAL_INPUT_COUNT,
    ANALOG_TOTAL_OUTPUT_COUNT, ENVELOPE_TOTAL_INPUT_COUNT, ENVELOPE_TOTAL_OUTPUT_COUNT,
    FILTER_TOTAL_INPUT_COUNT, FILTER_TOTAL_OUTPUT_COUNT, LFO_TOTAL_INPUT_COUNT,
    LFO_TOTAL_OUTPUT_COUNT, MAX_POLY_COUNT, MIDI_TOTAL_OUTPUT_COUNT, TOTAL_INPUT_COUNT,
    TOTAL_OUTPUT_COUNT, WAVETABLE_TOTAL_INPUT_COUNT, WAVETABLE_TOTAL_OUTPUT_COUNT,
};

fn all_input_jacks() -> Vec<InputJack> {
    vec![
        InputJack::Osc1Freq,
        InputJack::Osc1Phase,
        InputJack::Osc1Level,
        InputJack::Osc1Amp,
        InputJack::Osc2Freq,
        InputJack::Osc2Phase,
        InputJack::Osc2Level,
        InputJack::Osc2Amp,
        InputJack::Filter1Cutoff,
        InputJack::Filter1Value,
        InputJack::Filter2Cutoff,
        InputJack::Filter2Value,
        InputJack::Env1Gate,
        InputJack::Env1Vel,
        InputJack::Env1Attack,
        InputJack::Env1Decay,
        InputJack::Env1Sustain,
        InputJack::Env1Release,
        InputJack::Env2Gate,
        InputJack::Env2Vel,
        InputJack::Env2Attack,
        InputJack::Env2Decay,
        InputJack::Env2Sustain,
        InputJack::Env2Release,
        InputJack::Env3Gate,
        InputJack::Env3Vel,
        InputJack::Env3Attack,
        InputJack::Env3Decay,
        InputJack::Env3Sustain,
        InputJack::Env3Release,
        InputJack::EffectsChain,
    ]
}

fn all_output_jacks() -> Vec<OutputJack> {
    vec![
        OutputJack::MidiGate,
        OutputJack::MidiNote,
        OutputJack::MidiVelocity,
        OutputJack::Osc1Value,
        OutputJack::Osc2Value,
        OutputJack::Filter1Value,
        OutputJack::Filter2Value,
        OutputJack::Env1Value,
        OutputJack::Env2Value,
        OutputJack::Env3Value,
        OutputJack::Lfo1Value,
        OutputJack::Lfo2Value,
    ]
}

#[test]
fn input_addresses_are_disjoint() {
    let mut seen = vec![false; TOTAL_INPUT_COUNT];
    for jack in all_input_jacks() {
        for slot in 0..MAX_POLY_COUNT {
            let addr = input_jack_address(jack) + slot;
            assert!(addr < TOTAL_INPUT_COUNT);
            assert!(!seen[addr], "address collision at {addr}");
            seen[addr] = true;
        }
    }
    // Every input address belongs to exactly one (jack, slot) pair.
    assert!(seen.iter().all(|&s| s));
}

#[test]
fn output_addresses_are_disjoint() {
    let mut seen = vec![false; TOTAL_OUTPUT_COUNT];
    for jack in all_output_jacks() {
        for slot in 0..MAX_POLY_COUNT {
            let addr = output_jack_address(jack) + slot;
            assert!(addr < TOTAL_OUTPUT_COUNT);
            assert!(!seen[addr], "address collision at {addr}");
            seen[addr] = true;
        }
    }
    assert!(seen.iter().all(|&s| s));
}

#[test]
fn totals_equal_sum_of_contributions() {
    assert_eq!(
        TOTAL_INPUT_COUNT,
        MAX_POLY_COUNT + ANALOG_TOTAL_INPUT_COUNT + WAVETABLE_TOTAL_INPUT_COUNT
            + 3 * ENVELOPE_TOTAL_INPUT_COUNT + 2 * FILTER_TOTAL_INPUT_COUNT
            + 2 * LFO_TOTAL_INPUT_COUNT
    );
    assert_eq!(
        TOTAL_OUTPUT_COUNT,
        MIDI_TOTAL_OUTPUT_COUNT + ANALOG_TOTAL_OUTPUT_COUNT + WAVETABLE_TOTAL_OUTPUT_COUNT
            + 3 * ENVELOPE_TOTAL_OUTPUT_COUNT + 2 * FILTER_TOTAL_OUTPUT_COUNT
            + 2 * LFO_TOTAL_OUTPUT_COUNT
    );
}
