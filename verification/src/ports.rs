//! The flat port address space.
//!
//! All module inputs live in one flat array and all module outputs in
//! another. Every module type reserves a fixed contiguous sub-range for each
//! of its logical parameters, replicated once per polyphony slot, and a
//! module's offset is the sum of the sizes of the modules declared before it.
//! The jack enums are the user-facing names for these ranges; the lemmas at
//! the bottom prove the address map is collision-free and that the array
//! sizes equal the sum of the per-module contributions.

use vstd::prelude::*;

verus! {

/// Number of polyphonic voice slots each parameter range is replicated for.
pub const MAX_POLY_COUNT: usize = 16;

/// Capacity of the patch-cable list.
pub const MAX_CABLES: usize = 256;

// Per-parameter offsets inside an analog oscillator's input range.
pub const ANALOG_LEVEL_INPUT: usize = 0 * MAX_POLY_COUNT;

pub const ANALOG_FREQUENCY_INPUT: usize = 1 * MAX_POLY_COUNT;

pub const ANALOG_PHASE_INPUT: usize = 2 * MAX_POLY_COUNT;

pub const ANALOG_AMP_INPUT: usize = 3 * MAX_POLY_COUNT;

pub const ANALOG_TOTAL_INPUT_COUNT: usize = 4 * MAX_POLY_COUNT;

pub const ANALOG_OUT_VALUE: usize = 0 * MAX_POLY_COUNT;

pub const ANALOG_TOTAL_OUTPUT_COUNT: usize = 1 * MAX_POLY_COUNT;

// Per-parameter offsets inside a wavetable oscillator's input range.
pub const WAVETABLE_LEVEL_INPUT: usize = 0 * MAX_POLY_COUNT;

pub const WAVETABLE_FREQUENCY_INPUT: usize = 1 * MAX_POLY_COUNT;

pub const WAVETABLE_PHASE_INPUT: usize = 2 * MAX_POLY_COUNT;

pub const WAVETABLE_AMP_INPUT: usize = 3 * MAX_POLY_COUNT;

pub const WAVETABLE_TOTAL_INPUT_COUNT: usize = 4 * MAX_POLY_COUNT;

pub const WAVETABLE_OUT_VALUE: usize = 0 * MAX_POLY_COUNT;

pub const WAVETABLE_TOTAL_OUTPUT_COUNT: usize = 1 * MAX_POLY_COUNT;

// Per-parameter offsets inside an envelope's input range.
pub const ENVELOPE_GATE_INPUT: usize = 0 * MAX_POLY_COUNT;

pub const ENVELOPE_VELOCITY_INPUT: usize = 1 * MAX_POLY_COUNT;

pub const ENVELOPE_ATTACK_INPUT: usize = 2 * MAX_POLY_COUNT;

pub const ENVELOPE_DECAY_INPUT: usize = 3 * MAX_POLY_COUNT;

pub const ENVELOPE_RELEASE_INPUT: usize = 4 * MAX_POLY_COUNT;

pub const ENVELOPE_SUSTAIN_INPUT: usize = 5 * MAX_POLY_COUNT;

pub const ENVELOPE_TOTAL_INPUT_COUNT: usize = 6 * MAX_POLY_COUNT;

pub const ENVELOPE_OUT_VALUE: usize = 0 * MAX_POLY_COUNT;

pub const ENVELOPE_TOTAL_OUTPUT_COUNT: usize = 1 * MAX_POLY_COUNT;

// Per-parameter offsets inside a filter's input range.
pub const FILTER_VALUE_INPUT: usize = 0 * MAX_POLY_COUNT;

pub const FILTER_FREQUENCY_INPUT: usize = 1 * MAX_POLY_COUNT;

pub const FILTER_TOTAL_INPUT_COUNT: usize = 2 * MAX_POLY_COUNT;

pub const FILTER_VALUE_OUTPUT: usize = 0 * MAX_POLY_COUNT;

pub const FILTER_TOTAL_OUTPUT_COUNT: usize = 1 * MAX_POLY_COUNT;

// An LFO has no modulation inputs, only its output range.
pub const LFO_TOTAL_INPUT_COUNT: usize = 0 * MAX_POLY_COUNT;

pub const LFO_OUT_VALUE: usize = 0 * MAX_POLY_COUNT;

pub const LFO_TOTAL_OUTPUT_COUNT: usize = 1 * MAX_POLY_COUNT;

// Per-parameter offsets inside the voice allocator's output range.
pub const MIDI_GATE_OUTPUT: usize = 0 * MAX_POLY_COUNT;

pub const MIDI_NOTE_OUTPUT: usize = 1 * MAX_POLY_COUNT;

pub const MIDI_VELOCITY_OUTPUT: usize = 2 * MAX_POLY_COUNT;

pub const MIDI_TOTAL_OUTPUT_COUNT: usize = 3 * MAX_POLY_COUNT;

// Module input offsets, in fixed declaration order.
pub const EFFECTS_CHAIN_INPUT_OFFSET: usize = 0;

pub const OSC1_INPUT_OFFSET: usize = EFFECTS_CHAIN_INPUT_OFFSET + MAX_POLY_COUNT;

pub const OSC2_INPUT_OFFSET: usize = OSC1_INPUT_OFFSET + ANALOG_TOTAL_INPUT_COUNT;

pub const ENV1_INPUT_OFFSET: usize = OSC2_INPUT_OFFSET + WAVETABLE_TOTAL_INPUT_COUNT;

pub const ENV2_INPUT_OFFSET: usize = ENV1_INPUT_OFFSET + ENVELOPE_TOTAL_INPUT_COUNT;

pub const ENV3_INPUT_OFFSET: usize = ENV2_INPUT_OFFSET + ENVELOPE_TOTAL_INPUT_COUNT;

pub const FILTER1_INPUT_OFFSET: usize = ENV3_INPUT_OFFSET + ENVELOPE_TOTAL_INPUT_COUNT;

pub const FILTER2_INPUT_OFFSET: usize = FILTER1_INPUT_OFFSET + FILTER_TOTAL_INPUT_COUNT;

pub const LFO1_INPUT_OFFSET: usize = FILTER2_INPUT_OFFSET + FILTER_TOTAL_INPUT_COUNT;

pub const LFO2_INPUT_OFFSET: usize = LFO1_INPUT_OFFSET + LFO_TOTAL_INPUT_COUNT;

/// Size of the flat input array.
pub const TOTAL_INPUT_COUNT: usize = LFO2_INPUT_OFFSET + LFO_TOTAL_INPUT_COUNT;

// Module output offsets, in fixed declaration order.
pub const MIDI_OUTPUT_OFFSET: usize = 0;

pub const OSC1_OUTPUT_OFFSET: usize = MIDI_OUTPUT_OFFSET + MIDI_TOTAL_OUTPUT_COUNT;

pub const OSC2_OUTPUT_OFFSET: usize = OSC1_OUTPUT_OFFSET + ANALOG_TOTAL_OUTPUT_COUNT;

pub const ENV1_OUTPUT_OFFSET: usize = OSC2_OUTPUT_OFFSET + WAVETABLE_TOTAL_OUTPUT_COUNT;

pub const ENV2_OUTPUT_OFFSET: usize = ENV1_OUTPUT_OFFSET + ENVELOPE_TOTAL_OUTPUT_COUNT;

pub const ENV3_OUTPUT_OFFSET: usize = ENV2_OUTPUT_OFFSET + ENVELOPE_TOTAL_OUTPUT_COUNT;

pub const FILTER1_OUTPUT_OFFSET: usize = ENV3_OUTPUT_OFFSET + ENVELOPE_TOTAL_OUTPUT_COUNT;

pub const FILTER2_OUTPUT_OFFSET: usize = FILTER1_OUTPUT_OFFSET + FILTER_TOTAL_OUTPUT_COUNT;

pub const LFO1_OUTPUT_OFFSET: usize = FILTER2_OUTPUT_OFFSET + FILTER_TOTAL_OUTPUT_COUNT;

pub const LFO2_OUTPUT_OFFSET: usize = LFO1_OUTPUT_OFFSET + LFO_TOTAL_OUTPUT_COUNT;

/// Size of the flat output array.
pub const TOTAL_OUTPUT_COUNT: usize = LFO2_OUTPUT_OFFSET + LFO_TOTAL_OUTPUT_COUNT;

/// A named destination: one per (module instance, input parameter) pair.
#[derive(Clone, Copy, PartialEq, Eq, Structural, Hash, Debug)]
pub enum InputJack {
    Osc1Freq,
    Osc1Phase,
    Osc1Level,
    Osc1Amp,
    Osc2Freq,
    Osc2Phase,
    Osc2Level,
    Osc2Amp,
    Filter1Cutoff,
    Filter1Value,
    Filter2Cutoff,
    Filter2Value,
    Env1Gate,
    Env1Vel,
    Env1Attack,
    Env1Decay,
    Env1Sustain,
    Env1Release,
    Env2Gate,
    Env2Vel,
    Env2Attack,
    Env2Decay,
    Env2Sustain,
    Env2Release,
    Env3Gate,
    Env3Vel,
    Env3Attack,
    Env3Decay,
    Env3Sustain,
    Env3Release,
    EffectsChain,
}

/// A named source: one per (module instance, output parameter) pair.
#[derive(Clone, Copy, PartialEq, Eq, Structural, Hash, Debug)]
pub enum OutputJack {
    MidiGate,
    MidiNote,
    MidiVelocity,
    Osc1Value,
    Osc2Value,
    Filter1Value,
    Filter2Value,
    Env1Value,
    Env2Value,
    Env3Value,
    Lfo1Value,
    Lfo2Value,
}

/// Base address of an input jack's per-voice range.
pub open spec fn input_jack_offset(jack: InputJack) -> int {
    match jack {
        InputJack::Osc1Freq => OSC1_INPUT_OFFSET + ANALOG_FREQUENCY_INPUT,
        InputJack::Osc1Phase => OSC1_INPUT_OFFSET + ANALOG_PHASE_INPUT,
        InputJack::Osc1Level => OSC1_INPUT_OFFSET + ANALOG_LEVEL_INPUT,
        InputJack::Osc1Amp => OSC1_INPUT_OFFSET + ANALOG_AMP_INPUT,
        InputJack::Osc2Freq => OSC2_INPUT_OFFSET + WAVETABLE_FREQUENCY_INPUT,
        InputJack::Osc2Phase => OSC2_INPUT_OFFSET + WAVETABLE_PHASE_INPUT,
        InputJack::Osc2Level => OSC2_INPUT_OFFSET + WAVETABLE_LEVEL_INPUT,
        InputJack::Osc2Amp => OSC2_INPUT_OFFSET + WAVETABLE_AMP_INPUT,
        InputJack::Filter1Cutoff => FILTER1_INPUT_OFFSET + FILTER_FREQUENCY_INPUT,
        InputJack::Filter1Value => FILTER1_INPUT_OFFSET + FILTER_VALUE_INPUT,
        InputJack::Filter2Cutoff => FILTER2_INPUT_OFFSET + FILTER_FREQUENCY_INPUT,
        InputJack::Filter2Value => FILTER2_INPUT_OFFSET + FILTER_VALUE_INPUT,
        InputJack::Env1Gate => ENV1_INPUT_OFFSET + ENVELOPE_GATE_INPUT,
        InputJack::Env1Vel => ENV1_INPUT_OFFSET + ENVELOPE_VELOCITY_INPUT,
        InputJack::Env1Attack => ENV1_INPUT_OFFSET + ENVELOPE_ATTACK_INPUT,
        InputJack::Env1Decay => ENV1_INPUT_OFFSET + ENVELOPE_DECAY_INPUT,
        InputJack::Env1Sustain => ENV1_INPUT_OFFSET + ENVELOPE_SUSTAIN_INPUT,
        InputJack::Env1Release => ENV1_INPUT_OFFSET + ENVELOPE_RELEASE_INPUT,
        InputJack::Env2Gate => ENV2_INPUT_OFFSET + ENVELOPE_GATE_INPUT,
        InputJack::Env2Vel => ENV2_INPUT_OFFSET + ENVELOPE_VELOCITY_INPUT,
        InputJack::Env2Attack => ENV2_INPUT_OFFSET + ENVELOPE_ATTACK_INPUT,
        InputJack::Env2Decay => ENV2_INPUT_OFFSET + ENVELOPE_DECAY_INPUT,
        InputJack::Env2Sustain => ENV2_INPUT_OFFSET + ENVELOPE_SUSTAIN_INPUT,
        InputJack::Env2Release => ENV2_INPUT_OFFSET + ENVELOPE_RELEASE_INPUT,
        InputJack::Env3Gate => ENV3_INPUT_OFFSET + ENVELOPE_GATE_INPUT,
        InputJack::Env3Vel => ENV3_INPUT_OFFSET + ENVELOPE_VELOCITY_INPUT,
        InputJack::Env3Attack => ENV3_INPUT_OFFSET + ENVELOPE_ATTACK_INPUT,
        InputJack::Env3Decay => ENV3_INPUT_OFFSET + ENVELOPE_DECAY_INPUT,
        InputJack::Env3Sustain => ENV3_INPUT_OFFSET + ENVELOPE_SUSTAIN_INPUT,
        InputJack::Env3Release => ENV3_INPUT_OFFSET + ENVELOPE_RELEASE_INPUT,
        InputJack::EffectsChain => EFFECTS_CHAIN_INPUT_OFFSET as int,
    }
}

/// Base address of an output jack's per-voice range.
pub open spec fn output_jack_offset(jack: OutputJack) -> int {
    match jack {
        OutputJack::MidiGate => MIDI_OUTPUT_OFFSET + MIDI_GATE_OUTPUT,
        OutputJack::MidiNote => MIDI_OUTPUT_OFFSET + MIDI_NOTE_OUTPUT,
        OutputJack::MidiVelocity => MIDI_OUTPUT_OFFSET + MIDI_VELOCITY_OUTPUT,
        OutputJack::Osc1Value => OSC1_OUTPUT_OFFSET + ANALOG_OUT_VALUE,
        OutputJack::Osc2Value => OSC2_OUTPUT_OFFSET + WAVETABLE_OUT_VALUE,
        OutputJack::Filter1Value => FILTER1_OUTPUT_OFFSET + FILTER_VALUE_OUTPUT,
        OutputJack::Filter2Value => FILTER2_OUTPUT_OFFSET + FILTER_VALUE_OUTPUT,
        OutputJack::Env1Value => ENV1_OUTPUT_OFFSET + ENVELOPE_OUT_VALUE,
        OutputJack::Env2Value => ENV2_OUTPUT_OFFSET + ENVELOPE_OUT_VALUE,
        OutputJack::Env3Value => ENV3_OUTPUT_OFFSET + ENVELOPE_OUT_VALUE,
        OutputJack::Lfo1Value => LFO1_OUTPUT_OFFSET + LFO_OUT_VALUE,
        OutputJack::Lfo2Value => LFO2_OUTPUT_OFFSET + LFO_OUT_VALUE,
    }
}

/// Resolve an input jack to its base address in the flat input array.
pub fn input_jack_address(jack: InputJack) -> (r: usize)
    ensures
        r == input_jack_offset(jack),
        r + MAX_POLY_COUNT <= TOTAL_INPUT_COUNT,
{
    match jack {
        InputJack::Osc1Freq => OSC1_INPUT_OFFSET + ANALOG_FREQUENCY_INPUT,
        InputJack::Osc1Phase => OSC1_INPUT_OFFSET + ANALOG_PHASE_INPUT,
        InputJack::Osc1Level => OSC1_INPUT_OFFSET + ANALOG_LEVEL_INPUT,
        InputJack::Osc1Amp => OSC1_INPUT_OFFSET + ANALOG_AMP_INPUT,
        InputJack::Osc2Freq => OSC2_INPUT_OFFSET + WAVETABLE_FREQUENCY_INPUT,
        InputJack::Osc2Phase => OSC2_INPUT_OFFSET + WAVETABLE_PHASE_INPUT,
        InputJack::Osc2Level => OSC2_INPUT_OFFSET + WAVETABLE_LEVEL_INPUT,
        InputJack::Osc2Amp => OSC2_INPUT_OFFSET + WAVETABLE_AMP_INPUT,
        InputJack::Filter1Cutoff => FILTER1_INPUT_OFFSET + FILTER_FREQUENCY_INPUT,
        InputJack::Filter1Value => FILTER1_INPUT_OFFSET + FILTER_VALUE_INPUT,
        InputJack::Filter2Cutoff => FILTER2_INPUT_OFFSET + FILTER_FREQUENCY_INPUT,
        InputJack::Filter2Value => FILTER2_INPUT_OFFSET + FILTER_VALUE_INPUT,
        InputJack::Env1Gate => ENV1_INPUT_OFFSET + ENVELOPE_GATE_INPUT,
        InputJack::Env1Vel => ENV1_INPUT_OFFSET + ENVELOPE_VELOCITY_INPUT,
        InputJack::Env1Attack => ENV1_INPUT_OFFSET + ENVELOPE_ATTACK_INPUT,
        InputJack::Env1Decay => ENV1_INPUT_OFFSET + ENVELOPE_DECAY_INPUT,
        InputJack::Env1Sustain => ENV1_INPUT_OFFSET + ENVELOPE_SUSTAIN_INPUT,
        InputJack::Env1Release => ENV1_INPUT_OFFSET + ENVELOPE_RELEASE_INPUT,
        InputJack::Env2Gate => ENV2_INPUT_OFFSET + ENVELOPE_GATE_INPUT,
        InputJack::Env2Vel => ENV2_INPUT_OFFSET + ENVELOPE_VELOCITY_INPUT,
        InputJack::Env2Attack => ENV2_INPUT_OFFSET + ENVELOPE_ATTACK_INPUT,
        InputJack::Env2Decay => ENV2_INPUT_OFFSET + ENVELOPE_DECAY_INPUT,
        InputJack::Env2Sustain => ENV2_INPUT_OFFSET + ENVELOPE_SUSTAIN_INPUT,
        InputJack::Env2Release => ENV2_INPUT_OFFSET + ENVELOPE_RELEASE_INPUT,
        InputJack::Env3Gate => ENV3_INPUT_OFFSET + ENVELOPE_GATE_INPUT,
        InputJack::Env3Vel => ENV3_INPUT_OFFSET + ENVELOPE_VELOCITY_INPUT,
        InputJack::Env3Attack => ENV3_INPUT_OFFSET + ENVELOPE_ATTACK_INPUT,
        InputJack::Env3Decay => ENV3_INPUT_OFFSET + ENVELOPE_DECAY_INPUT,
        InputJack::Env3Sustain => ENV3_INPUT_OFFSET + ENVELOPE_SUSTAIN_INPUT,
        InputJack::Env3Release => ENV3_INPUT_OFFSET + ENVELOPE_RELEASE_INPUT,
        InputJack::EffectsChain => EFFECTS_CHAIN_INPUT_OFFSET,
    }
}

/// Resolve an output jack to its base address in the flat output array.
pub fn output_jack_address(jack: OutputJack) -> (r: usize)
    ensures
        r == output_jack_offset(jack),
        r + MAX_POLY_COUNT <= TOTAL_OUTPUT_COUNT,
{
    match jack {
        OutputJack::MidiGate => MIDI_OUTPUT_OFFSET + MIDI_GATE_OUTPUT,
        OutputJack::MidiNote => MIDI_OUTPUT_OFFSET + MIDI_NOTE_OUTPUT,
        OutputJack::MidiVelocity => MIDI_OUTPUT_OFFSET + MIDI_VELOCITY_OUTPUT,
        OutputJack::Osc1Value => OSC1_OUTPUT_OFFSET + ANALOG_OUT_VALUE,
        OutputJack::Osc2Value => OSC2_OUTPUT_OFFSET + WAVETABLE_OUT_VALUE,
        OutputJack::Filter1Value => FILTER1_OUTPUT_OFFSET + FILTER_VALUE_OUTPUT,
        OutputJack::Filter2Value => FILTER2_OUTPUT_OFFSET + FILTER_VALUE_OUTPUT,
        OutputJack::Env1Value => ENV1_OUTPUT_OFFSET + ENVELOPE_OUT_VALUE,
        OutputJack::Env2Value => ENV2_OUTPUT_OFFSET + ENVELOPE_OUT_VALUE,
        OutputJack::Env3Value => ENV3_OUTPUT_OFFSET + ENVELOPE_OUT_VALUE,
        OutputJack::Lfo1Value => LFO1_OUTPUT_OFFSET + LFO_OUT_VALUE,
        OutputJack::Lfo2Value => LFO2_OUTPUT_OFFSET + LFO_OUT_VALUE,
    }
}

/// Distinct (input jack, voice slot) pairs resolve to distinct addresses:
/// the input address map is collision-free.
pub proof fn lemma_input_addresses_disjoint(j1: InputJack, s1: int, j2: InputJack, s2: int)
    requires
        0 <= s1 < MAX_POLY_COUNT,
        0 <= s2 < MAX_POLY_COUNT,
        !(j1 == j2 && s1 == s2),
    ensures
        input_jack_offset(j1) + s1 != input_jack_offset(j2) + s2,
{
}

/// Distinct (output jack, voice slot) pairs resolve to distinct addresses:
/// the output address map is collision-free.
pub proof fn lemma_output_addresses_disjoint(j1: OutputJack, s1: int, j2: OutputJack, s2: int)
    requires
        0 <= s1 < MAX_POLY_COUNT,
        0 <= s2 < MAX_POLY_COUNT,
        !(j1 == j2 && s1 == s2),
    ensures
        output_jack_offset(j1) + s1 != output_jack_offset(j2) + s2,
{
}

/// The flat array sizes equal the sum of the per-module contributions.
pub proof fn lemma_port_space_totals()
    ensures
        TOTAL_INPUT_COUNT == MAX_POLY_COUNT + ANALOG_TOTAL_INPUT_COUNT
            + WAVETABLE_TOTAL_INPUT_COUNT + 3 * ENVELOPE_TOTAL_INPUT_COUNT + 2
            * FILTER_TOTAL_INPUT_COUNT + 2 * LFO_TOTAL_INPUT_COUNT,
        TOTAL_OUTPUT_COUNT == MIDI_TOTAL_OUTPUT_COUNT + ANALOG_TOTAL_OUTPUT_COUNT
            + WAVETABLE_TOTAL_OUTPUT_COUNT + 3 * ENVELOPE_TOTAL_OUTPUT_COUNT + 2
            * FILTER_TOTAL_OUTPUT_COUNT + 2 * LFO_TOTAL_OUTPUT_COUNT,
{
}

} // verus!
