//! The slot allocator, the patch-cable pass and the voice allocator:
//! capacity errors, swap-remove, linear summation, round-robin allocation,
//! stealing, and the two-phase gate delay.

use cav_synth::cable::Cables;
use cav_synth::fixed::{FP_HALF, FP_ONE};
use cav_synth::midi::{Midi, NOTE_SCALE};
use cav_synth::ports::{
    InputJack, OutputJack, MIDI_GATE_OUTPUT, MIDI_NOTE_OUTPUT, TOTAL_INPUT_COUNT,
    TOTAL_OUTPUT_COUNT,
};
use cav_synth::slot::{ComponentVec, SlotError};

#[test]
fn push_fails_with_capacity_exceeded_when_full() {
    let mut v: ComponentVec<u32, 2> = ComponentVec::new();
    assert_eq!(v.push(10), Ok(()));
    assert_eq!(v.push(20), Ok(()));
    assert_eq!(v.push(30), Err(SlotError::CapacityExceeded));
    assert_eq!(v.len(), 2);
}

#[test]
fn remove_fails_with_index_out_of_range() {
    let mut v: ComponentVec<u32, 4> = ComponentVec::new();
    assert_eq!(v.push(10), Ok(()));
    assert_eq!(v.remove(1), Err(SlotError::IndexOutOfRange));
    assert_eq!(v.remove(0), Ok(10));
    assert_eq!(v.remove(0), Err(SlotError::IndexOutOfRange));
}

#[test]
fn remove_swaps_the_last_element_into_place() {
    let mut v: ComponentVec<u32, 8> = ComponentVec::new();
    v.push(1).unwrap();
    v.push(2).unwrap();
    v.push(3).unwrap();
    assert_eq!(v.remove(0), Ok(1));
    assert_eq!(v.len(), 2);
    assert_eq!(*v.get(0), 3);
    assert_eq!(*v.get(1), 2);
}

#[test]
fn cable_swap_remove_leaves_last_then_middle() {
    // Adding cables A, B, C and removing A leaves exactly {C, B}: the last
    // cable moved into the removed slot, count down by one, no crash.
    let mut cables: Cables<8> = Cables::new();
    cables.add_cable(OutputJack::Osc1Value, InputJack::Filter1Value).unwrap();
    cables.add_cable(OutputJack::Osc2Value, InputJack::Filter2Value).unwrap();
    cables.add_cable(OutputJack::Lfo1Value, InputJack::Osc1Phase).unwrap();
    assert_eq!(cables.len(), 3);
    cables.remove_cable(0).unwrap();
    assert_eq!(cables.len(), 2);
    assert_eq!(cables.get(0).source, 160); // the LFO cable, swapped into slot 0
    assert_eq!(cables.get(1).source, 64); // the wavetable cable, untouched
    assert_eq!(cables.remove_cable(7), Err(SlotError::IndexOutOfRange));
}

#[test]
fn cables_sum_linearly_and_uncabled_inputs_are_zero() {
    // Two cables into one destination with gains 0.5 and 0.25, sources
    // holding 2.0 and 4.0: the destination reads exactly
    // 0.5 * 2.0 + 0.25 * 4.0 == 2.0. An un-cabled input is exactly zero.
    let mut cables: Cables<8> = Cables::new();
    cables.add_cable(OutputJack::Osc1Value, InputJack::Filter1Value).unwrap();
    cables.add_cable(OutputJack::Osc2Value, InputJack::Filter1Value).unwrap();
    cables.attenaute(0, FP_HALF).unwrap();
    cables.attenaute(1, FP_ONE / 4).unwrap();
    assert_eq!(cables.attenaute(5, FP_ONE), Err(SlotError::IndexOutOfRange));

    let mut inputs = vec![7i64; TOTAL_INPUT_COUNT];
    let mut outputs = vec![0i64; TOTAL_OUTPUT_COUNT];
    outputs[48] = 2 * FP_ONE; // first oscillator output, voice 0
    outputs[64] = 4 * FP_ONE; // second oscillator output, voice 0
    cables.run_cables(&mut inputs, &outputs);

    assert_eq!(inputs[432], 2 * FP_ONE); // first filter value input, voice 0
    assert_eq!(inputs[0], 0); // effects chain input: un-cabled, exactly zero
    assert_eq!(inputs[16], 0); // first oscillator level input: un-cabled
}

#[test]
fn round_robin_activates_voices_in_order_then_steals_the_first() {
    let mut midi = Midi::new();
    let mut output = vec![0i64; TOTAL_OUTPUT_COUNT];
    for k in 0..16u8 {
        midi.key_press(&mut output, 60 + k, 100);
        // The k-th press lands on voice k.
        assert_eq!(output[MIDI_NOTE_OUTPUT + k as usize], (60 + k as i64) * NOTE_SCALE);
    }
    // Pool exhausted: the seventeenth press steals the very first voice.
    midi.key_press(&mut output, 90, 100);
    assert_eq!(output[MIDI_NOTE_OUTPUT], 90 * NOTE_SCALE);
    // The other voices keep their notes.
    assert_eq!(output[MIDI_NOTE_OUTPUT + 1], 61 * NOTE_SCALE);
}

#[test]
fn gate_is_low_for_exactly_one_process_step() {
    let mut midi = Midi::new();
    let mut output = vec![0i64; TOTAL_OUTPUT_COUNT];
    midi.key_press(&mut output, 60, 100);
    assert_eq!(output[MIDI_GATE_OUTPUT], 0);
    midi.process(&mut output);
    assert_eq!(output[MIDI_GATE_OUTPUT], 0); // one full step of gate-low
    midi.process(&mut output);
    assert_eq!(output[MIDI_GATE_OUTPUT], FP_ONE); // then high
    midi.process(&mut output);
    assert_eq!(output[MIDI_GATE_OUTPUT], FP_ONE); // and it stays high
    midi.key_release(&mut output, 60);
    assert_eq!(output[MIDI_GATE_OUTPUT], 0);
}

#[test]
fn sustain_pedal_defers_release_until_pedal_up() {
    let mut midi = Midi::new();
    let mut output = vec![0i64; TOTAL_OUTPUT_COUNT];
    midi.key_press(&mut output, 60, 100);
    midi.process(&mut output);
    midi.process(&mut output);
    assert_eq!(output[MIDI_GATE_OUTPUT], FP_ONE);
    midi.pedal_press();
    midi.key_release(&mut output, 60);
    // The pedal holds the voice: its gate output stays high.
    assert_eq!(output[MIDI_GATE_OUTPUT], FP_ONE);
    midi.pedal_release(&mut output);
    assert_eq!(output[MIDI_GATE_OUTPUT], 0);
}

#[test]
fn release_matches_the_integer_note() {
    let mut midi = Midi::new();
    let mut output = vec![0i64; TOTAL_OUTPUT_COUNT];
    midi.key_press(&mut output, 60, 100);
    midi.key_press(&mut output, 61, 100);
    midi.process(&mut output);
    midi.process(&mut output);
    midi.key_release(&mut output, 60);
    assert_eq!(output[MIDI_GATE_OUTPUT], 0); // voice 0 held note 60
    assert_eq!(output[MIDI_GATE_OUTPUT + 1], FP_ONE); // voice 1 still sounding
}
