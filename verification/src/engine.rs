//! The audio-state root: one engine owning every module, the patch, and the
//! effects chain.
//!
//! `process` renders one stereo sample: the voice allocator steps its
//! trigger latches, every module system writes its output range from the previous
//! sample's routed inputs, the cable pass redistributes the fresh outputs
//! into the input array for the next sample, and the effects chain folds the
//! per-voice sum into a stereo pair. `apply_message` applies one control
//! message as a synchronous parameter or patch mutation; collaborators drain
//! their message queue once per output buffer, between `process` calls.

use vstd::prelude::*;

use crate::analog::{analog_next_phase_s, analog_out_s, phase_inc_s, valid_sample_rate, PolyAnalog};
use crate::cable::{cable_sum, Cable, Cables};
use crate::effects::{
    chain_left_s, chain_right_s, chain_reverb_in_s, combs_next_s, delay_next_buffer_s,
    dist_out_s, reverb_mod_s, reverb_scaled_s, voice_sum_s, EffectsChain,
};
use crate::envelope::{env_next_meta_s, env_raw_s, env_settings_s, PolyEnvelope};
use crate::filterbank::{filter_next_buf_s, filter_out_s, PolyFilter};
use crate::fixed::{
    clamp01_s, fp_add, fp_add_s, fp_clip, fp_mul, fp_mul_s, fp_ok, fp_sub_s, fract_s, sat, FP_ONE,
};
use crate::lfo::{lfo_out_s, PolyLfo};
use crate::midi::{
    gate_addr, key_press_rel, midi_wf, process_voice, process_writes_gate, released_by_note,
    released_by_pedal, release_voice, pedal_release_voice, Midi, MidiView,
};
use crate::ports::{
    input_jack_offset, output_jack_offset, InputJack, OutputJack, ANALOG_AMP_INPUT,
    ANALOG_FREQUENCY_INPUT, ANALOG_LEVEL_INPUT, ANALOG_OUT_VALUE, ANALOG_PHASE_INPUT,
    ENVELOPE_GATE_INPUT, ENVELOPE_OUT_VALUE, ENVELOPE_VELOCITY_INPUT, ENV1_INPUT_OFFSET,
    ENV1_OUTPUT_OFFSET, ENV2_INPUT_OFFSET, ENV2_OUTPUT_OFFSET, ENV3_INPUT_OFFSET,
    ENV3_OUTPUT_OFFSET, FILTER_FREQUENCY_INPUT, FILTER_VALUE_INPUT, FILTER_VALUE_OUTPUT,
    FILTER1_INPUT_OFFSET, FILTER1_OUTPUT_OFFSET, FILTER2_INPUT_OFFSET, FILTER2_OUTPUT_OFFSET,
    LFO_OUT_VALUE, LFO1_INPUT_OFFSET, LFO1_OUTPUT_OFFSET, LFO2_INPUT_OFFSET, LFO2_OUTPUT_OFFSET,
    MAX_CABLES, MAX_POLY_COUNT, OSC1_INPUT_OFFSET,
    OSC1_OUTPUT_OFFSET, OSC2_INPUT_OFFSET, OSC2_OUTPUT_OFFSET, TOTAL_INPUT_COUNT,
    TOTAL_OUTPUT_COUNT, WAVETABLE_AMP_INPUT, WAVETABLE_FREQUENCY_INPUT, WAVETABLE_LEVEL_INPUT,
    WAVETABLE_OUT_VALUE, WAVETABLE_PHASE_INPUT,
};
use crate::wavetable::{wavetable_out_s, PolyWavetable, Wavetable};
use crate::waves::WaveShape;

verus! {

/// A control message from a collaborator: note and pedal performance,
/// per-module parameter sets, wavetable replacement and cable management.
pub enum AudioMessage {
    Osc1Freq(i64),
    Osc1Shape(WaveShape),
    Osc1Phase(i64),
    Osc1Level(i64),
    Osc2Freq(i64),
    Osc2Phase(i64),
    Osc2Level(i64),
    Osc2WavetableUpdate(Wavetable),
    Lfo1Shape(WaveShape),
    Lfo1Freq(i64),
    Lfo2Shape(WaveShape),
    Lfo2Freq(i64),
    Filter1Freq(i64),
    Filter2Freq(i64),
    Env1Attack(i64),
    Env1Decay(i64),
    Env1Release(i64),
    Env1Sustain(i64),
    Env2Attack(i64),
    Env2Decay(i64),
    Env2Release(i64),
    Env2Sustain(i64),
    Env3Attack(i64),
    Env3Decay(i64),
    Env3Release(i64),
    Env3Sustain(i64),
    DistDrive(i64),
    DistWet(i64),
    DelayFeedback(i64),
    DelayTime(i64),
    DelayWet(i64),
    ReverbDamp(i64),
    ReverbSpread(i64),
    ReverbWet(i64),
    ReverbSpace(i64),
    MasterGain(i64),
    KeyPress(u8, u8),
    KeyRelease(u8),
    PedalPress,
    PedalRelease,
    CableConnection(InputJack, OutputJack),
    CableAttenuation(usize, i64),
    CableRemove(usize),
}

/// The engine root.
pub struct AudioState {
    /// Samples per second the engine was constructed for.
    pub sample_rate: u32,
    /// The flat input array every module reads.
    pub inputs: Vec<i64>,
    /// The flat output array every module writes.
    pub outputs: Vec<i64>,
    /// The voice allocator.
    pub midi: Midi,
    /// First oscillator: band-limited analog shapes.
    pub osc1: PolyAnalog<OSC1_INPUT_OFFSET, OSC1_OUTPUT_OFFSET>,
    /// Second oscillator: wavetable.
    pub osc2: PolyWavetable<OSC2_INPUT_OFFSET, OSC2_OUTPUT_OFFSET>,
    pub env1: PolyEnvelope<ENV1_INPUT_OFFSET, ENV1_OUTPUT_OFFSET>,
    pub env2: PolyEnvelope<ENV2_INPUT_OFFSET, ENV2_OUTPUT_OFFSET>,
    pub env3: PolyEnvelope<ENV3_INPUT_OFFSET, ENV3_OUTPUT_OFFSET>,
    pub filter1: PolyFilter<FILTER1_INPUT_OFFSET, FILTER1_OUTPUT_OFFSET>,
    pub filter2: PolyFilter<FILTER2_INPUT_OFFSET, FILTER2_OUTPUT_OFFSET>,
    pub lfo1: PolyLfo<LFO1_INPUT_OFFSET, LFO1_OUTPUT_OFFSET>,
    pub lfo2: PolyLfo<LFO2_INPUT_OFFSET, LFO2_OUTPUT_OFFSET>,
    /// The post-mix effects chain.
    pub effects_chain: EffectsChain,
    /// The patch: every live cable, default and user-added alike.
    pub cables: Cables<MAX_CABLES>,
}

impl AudioState {
    /// Every component is well formed and the two flat arrays have their
    /// full size with representable values throughout.
    pub open spec fn wf(&self) -> bool {
        &&& valid_sample_rate(self.sample_rate as int)
        &&& self.inputs@.len() == TOTAL_INPUT_COUNT
        &&& forall|a: int| 0 <= a < TOTAL_INPUT_COUNT ==> fp_ok(#[trigger] self.inputs@[a] as int)
        &&& self.outputs@.len() == TOTAL_OUTPUT_COUNT
        &&& forall|a: int| 0 <= a < TOTAL_OUTPUT_COUNT ==> fp_ok(#[trigger] self.outputs@[a] as int)
        &&& midi_wf(self.midi@)
        &&& self.osc1.wf()
        &&& self.osc2.wf()
        &&& self.env1.wf()
        &&& self.env2.wf()
        &&& self.env3.wf()
        &&& self.filter1.wf()
        &&& self.filter2.wf()
        &&& self.lfo1.wf()
        &&& self.lfo2.wf()
        &&& self.effects_chain.wf()
        &&& self.cables.wf()
    }

    /// A fresh engine at the given sample rate, with the default patch
    /// installed.
    pub fn new(sample_rate: u32) -> (r: AudioState)
        requires
            valid_sample_rate(sample_rate as int),
        ensures
            r.wf(),
            r.sample_rate == sample_rate,
            forall|a: int| 0 <= a < TOTAL_INPUT_COUNT ==> #[trigger] r.inputs@[a] == 0i64,
            forall|a: int| 0 <= a < TOTAL_OUTPUT_COUNT ==> #[trigger] r.outputs@[a] == 0i64,
            r.cables@ == default_patch(),
            r.midi@.queue.len() == 0,
            r.midi@.next == 0,
            !r.midi@.sustain,
            forall|i: int|
                0 <= i < MAX_POLY_COUNT ==> #[trigger] r.midi@.voices[i]
                    == crate::midi::idle_voice(),
    {
        let mut inputs: Vec<i64> = Vec::new();
        for i in 0..TOTAL_INPUT_COUNT
            invariant
                inputs@.len() == i,
                forall|j: int| 0 <= j < i ==> #[trigger] inputs@[j] == 0i64,
        {
            inputs.push(0);
        }
        let mut outputs: Vec<i64> = Vec::new();
        for i in 0..TOTAL_OUTPUT_COUNT
            invariant
                outputs@.len() == i,
                forall|j: int| 0 <= j < i ==> #[trigger] outputs@[j] == 0i64,
        {
            outputs.push(0);
        }
        let mut new_state = AudioState {
            sample_rate,
            inputs,
            outputs,
            midi: Midi::new(),
            osc1: PolyAnalog::new(),
            osc2: PolyWavetable::new(),
            env1: PolyEnvelope::new(),
            env2: PolyEnvelope::new(),
            env3: PolyEnvelope::new(),
            filter1: PolyFilter::new(),
            filter2: PolyFilter::new(),
            lfo1: PolyLfo::new(),
            lfo2: PolyLfo::new(),
            effects_chain: EffectsChain::new(sample_rate),
            cables: Cables::new(),
        };
        new_state.init();
        new_state
    }

    /// Install the default patch: the hard-wired cables connecting the
    /// voice allocator to the first envelope and oscillator, the envelope
    /// to the oscillator's amplitude input, and the oscillator to the
    /// effects chain. At runtime these are ordinary cables,
    /// indistinguishable from user-added ones.
    pub fn init(&mut self)
        requires
            old(self).wf(),
            old(self).cables@.len() == 0,
        ensures
            final(self).wf(),
            *final(self) == (AudioState { cables: final(self).cables, ..*old(self) }),
            final(self).cables@ == default_patch(),
    {
        let r1 = self.cables.add_cable(OutputJack::MidiGate, InputJack::Env1Gate);
        let r2 = self.cables.add_cable(OutputJack::MidiVelocity, InputJack::Env1Vel);
        let r3 = self.cables.add_cable(OutputJack::MidiNote, InputJack::Osc1Freq);
        let r4 = self.cables.add_cable(OutputJack::Env1Value, InputJack::Osc1Amp);
        let r5 = self.cables.add_cable(OutputJack::Osc1Value, InputJack::EffectsChain);
        proof {
            assert(self.cables@ =~= default_patch());
        }
    }

    /// Render one stereo sample. The voice allocator steps its gate
    /// latches, every module system writes its output range from the
    /// previous sample's routed inputs, the cable pass rebuilds the input
    /// array from the fresh outputs, and the effects chain folds the voice
    /// sum into the returned stereo pair. Each clause below pins one
    /// region of the engine exactly.
    #[verifier::rlimit(100)]
    pub fn process(&mut self) -> (r: (i64, i64))
        requires
            old(self).wf(),
        ensures
            final(self).wf(),
            final(self).sample_rate == old(self).sample_rate,
            final(self).cables@ == old(self).cables@,
            // Stereo output: the effects chain applied to the re-routed
            // voice sum.
            r.0 as int == chain_left_s(old(self).effects_chain, final(self).inputs@),
            r.1 as int == chain_right_s(old(self).effects_chain, final(self).inputs@),
            fp_ok(r.0 as int),
            fp_ok(r.1 as int),
            // Routing: every input is exactly the saturating sum of its
            // cables' contributions from the fresh outputs.
            final(self).inputs@.len() == TOTAL_INPUT_COUNT,
            forall|a: int|
                0 <= a < TOTAL_INPUT_COUNT ==> #[trigger] final(self).inputs@[a] as int
                    == cable_sum(old(self).cables@, final(self).outputs@, a),
            // Voice allocator: the two-phase latch advances and the
            // gate-output region is driven accordingly; note and velocity hold.
            final(self).outputs@.len() == TOTAL_OUTPUT_COUNT,
            forall|i: int|
                0 <= i < MAX_POLY_COUNT ==> final(self).midi@.voices[i] == process_voice(
                    #[trigger] old(self).midi@.voices[i],
                ),
            final(self).midi@.sustain == old(self).midi@.sustain,
            final(self).midi@.next == old(self).midi@.next,
            final(self).midi@.queue == old(self).midi@.queue,
            forall|a: int|
                0 <= a < OSC1_OUTPUT_OFFSET ==> #[trigger] final(self).outputs@[a] == (if gate_addr(
                    0,
                ) <= a < gate_addr(MAX_POLY_COUNT as int) && process_writes_gate(
                    old(self).midi@.voices[a - gate_addr(0)],
                ) {
                    FP_ONE
                } else {
                    old(self).outputs@[a]
                }),
            // First oscillator.
            forall|v: int|
                0 <= v < MAX_POLY_COUNT ==> #[trigger] final(self).outputs@[OSC1_OUTPUT_OFFSET
                    + ANALOG_OUT_VALUE + v] as int == analog_out_s(
                    old(self).osc1.shape,
                    old(self).osc1.level as int,
                    old(self).osc1.frequency as int,
                    old(self).osc1.current_phases@[v] as int,
                    old(self).inputs@[OSC1_INPUT_OFFSET + ANALOG_PHASE_INPUT + v] as int,
                    old(self).inputs@[OSC1_INPUT_OFFSET + ANALOG_FREQUENCY_INPUT + v] as int,
                    old(self).inputs@[OSC1_INPUT_OFFSET + ANALOG_LEVEL_INPUT + v] as int,
                    old(self).inputs@[OSC1_INPUT_OFFSET + ANALOG_AMP_INPUT + v] as int,
                    old(self).sample_rate as int,
                ),
            // Second (wavetable) oscillator.
            forall|v: int|
                0 <= v < MAX_POLY_COUNT ==> #[trigger] final(self).outputs@[OSC2_OUTPUT_OFFSET
                    + WAVETABLE_OUT_VALUE + v] as int == wavetable_out_s(
                    old(self).osc2.wavetable@,
                    old(self).osc2.level as int,
                    old(self).osc2.frequency as int,
                    old(self).osc2.current_phases@[v] as int,
                    old(self).inputs@[OSC2_INPUT_OFFSET + WAVETABLE_PHASE_INPUT + v] as int,
                    old(self).inputs@[OSC2_INPUT_OFFSET + WAVETABLE_FREQUENCY_INPUT + v] as int,
                    old(self).inputs@[OSC2_INPUT_OFFSET + WAVETABLE_LEVEL_INPUT + v] as int,
                    old(self).inputs@[OSC2_INPUT_OFFSET + WAVETABLE_AMP_INPUT + v] as int,
                ),
            // The three envelopes.
            forall|v: int|
                0 <= v < MAX_POLY_COUNT ==> #[trigger] final(self).outputs@[ENV1_OUTPUT_OFFSET
                    + ENVELOPE_OUT_VALUE + v] as int == fp_mul_s(
                    env_raw_s(
                        env_settings_s(
                            old(self).env1.attack as int,
                            old(self).env1.decay as int,
                            old(self).env1.sustain as int,
                            old(self).env1.release as int,
                            old(self).inputs@,
                            ENV1_INPUT_OFFSET as int,
                            v,
                        ),
                        old(self).env1.envelopes@[v],
                        old(self).env1.clock as int,
                        old(self).sample_rate as int,
                    ),
                    old(self).inputs@[ENV1_INPUT_OFFSET + ENVELOPE_VELOCITY_INPUT + v] as int,
                ),
            forall|v: int|
                0 <= v < MAX_POLY_COUNT ==> #[trigger] final(self).outputs@[ENV2_OUTPUT_OFFSET
                    + ENVELOPE_OUT_VALUE + v] as int == fp_mul_s(
                    env_raw_s(
                        env_settings_s(
                            old(self).env2.attack as int,
                            old(self).env2.decay as int,
                            old(self).env2.sustain as int,
                            old(self).env2.release as int,
                            old(self).inputs@,
                            ENV2_INPUT_OFFSET as int,
                            v,
                        ),
                        old(self).env2.envelopes@[v],
                        old(self).env2.clock as int,
                        old(self).sample_rate as int,
                    ),
                    old(self).inputs@[ENV2_INPUT_OFFSET + ENVELOPE_VELOCITY_INPUT + v] as int,
                ),
            forall|v: int|
                0 <= v < MAX_POLY_COUNT ==> #[trigger] final(self).outputs@[ENV3_OUTPUT_OFFSET
                    + ENVELOPE_OUT_VALUE + v] as int == fp_mul_s(
                    env_raw_s(
                        env_settings_s(
                            old(self).env3.attack as int,
                            old(self).env3.decay as int,
                            old(self).env3.sustain as int,
                            old(self).env3.release as int,
                            old(self).inputs@,
                            ENV3_INPUT_OFFSET as int,
                            v,
                        ),
                        old(self).env3.envelopes@[v],
                        old(self).env3.clock as int,
                        old(self).sample_rate as int,
                    ),
                    old(self).inputs@[ENV3_INPUT_OFFSET + ENVELOPE_VELOCITY_INPUT + v] as int,
                ),
            // The two filters, including the zero-input bypass: a zero
            // value input yields exactly zero and leaves the history
            // untouched.
            forall|v: int|
                0 <= v < MAX_POLY_COUNT ==> #[trigger] final(self).outputs@[FILTER1_OUTPUT_OFFSET
                    + FILTER_VALUE_OUTPUT + v] as int == filter_out_s(
                    old(self).filter1.buffers@[v],
                    old(self).inputs@[FILTER1_INPUT_OFFSET + FILTER_VALUE_INPUT + v] as int,
                    old(self).filter1.frequency as int,
                    old(self).inputs@[FILTER1_INPUT_OFFSET + FILTER_FREQUENCY_INPUT + v] as int,
                    old(self).sample_rate as int,
                ),
            forall|v: int|
                0 <= v < MAX_POLY_COUNT ==> #[trigger] final(self).filter1.buffers@[v]
                    == filter_next_buf_s(
                    old(self).filter1.buffers@[v],
                    old(self).inputs@[FILTER1_INPUT_OFFSET + FILTER_VALUE_INPUT + v] as int,
                    old(self).filter1.frequency as int,
                    old(self).inputs@[FILTER1_INPUT_OFFSET + FILTER_FREQUENCY_INPUT + v] as int,
                    old(self).sample_rate as int,
                ),
            forall|v: int|
                0 <= v < MAX_POLY_COUNT ==> #[trigger] final(self).outputs@[FILTER2_OUTPUT_OFFSET
                    + FILTER_VALUE_OUTPUT + v] as int == filter_out_s(
                    old(self).filter2.buffers@[v],
                    old(self).inputs@[FILTER2_INPUT_OFFSET + FILTER_VALUE_INPUT + v] as int,
                    old(self).filter2.frequency as int,
                    old(self).inputs@[FILTER2_INPUT_OFFSET + FILTER_FREQUENCY_INPUT + v] as int,
                    old(self).sample_rate as int,
                ),
            // The two free-running low-frequency oscillators.
            forall|v: int|
                0 <= v < MAX_POLY_COUNT ==> #[trigger] final(self).outputs@[LFO1_OUTPUT_OFFSET
                    + LFO_OUT_VALUE + v] as int == lfo_out_s(
                    old(self).lfo1.shape,
                    old(self).lfo1.current_phases@[v] as int,
                ),
            forall|v: int|
                0 <= v < MAX_POLY_COUNT ==> #[trigger] final(self).outputs@[LFO2_OUTPUT_OFFSET
                    + LFO_OUT_VALUE + v] as int == lfo_out_s(
                    old(self).lfo2.shape,
                    old(self).lfo2.current_phases@[v] as int,
                ),
            // Oscillator phase accumulators advance by the pitch law.
            forall|v: int|
                0 <= v < MAX_POLY_COUNT ==> #[trigger] final(self).osc1.current_phases@[v] as int
                    == analog_next_phase_s(
                    old(self).osc1.frequency as int,
                    old(self).osc1.current_phases@[v] as int,
                    old(self).inputs@[OSC1_INPUT_OFFSET + ANALOG_FREQUENCY_INPUT + v] as int,
                    old(self).sample_rate as int,
                ),
            forall|v: int|
                0 <= v < MAX_POLY_COUNT ==> #[trigger] final(self).osc2.current_phases@[v] as int
                    == analog_next_phase_s(
                    old(self).osc2.frequency as int,
                    old(self).osc2.current_phases@[v] as int,
                    old(self).inputs@[OSC2_INPUT_OFFSET + WAVETABLE_FREQUENCY_INPUT + v] as int,
                    old(self).sample_rate as int,
                ),
            // Envelope timing state advances on the routed gate edges.
            forall|v: int|
                0 <= v < MAX_POLY_COUNT ==> #[trigger] final(self).env1.envelopes@[v]
                    == env_next_meta_s(
                    env_settings_s(
                        old(self).env1.attack as int,
                        old(self).env1.decay as int,
                        old(self).env1.sustain as int,
                        old(self).env1.release as int,
                        old(self).inputs@,
                        ENV1_INPUT_OFFSET as int,
                        v,
                    ),
                    old(self).env1.envelopes@[v],
                    old(self).env1.clock as int,
                    old(self).inputs@[ENV1_INPUT_OFFSET + ENVELOPE_GATE_INPUT + v] as int,
                    env_raw_s(
                        env_settings_s(
                            old(self).env1.attack as int,
                            old(self).env1.decay as int,
                            old(self).env1.sustain as int,
                            old(self).env1.release as int,
                            old(self).inputs@,
                            ENV1_INPUT_OFFSET as int,
                            v,
                        ),
                        old(self).env1.envelopes@[v],
                        old(self).env1.clock as int,
                        old(self).sample_rate as int,
                    ),
                    old(self).sample_rate as int,
                ),
            forall|v: int|
                0 <= v < MAX_POLY_COUNT ==> #[trigger] final(self).env2.envelopes@[v]
                    == env_next_meta_s(
                    env_settings_s(
                        old(self).env2.attack as int,
                        old(self).env2.decay as int,
                        old(self).env2.sustain as int,
                        old(self).env2.release as int,
                        old(self).inputs@,
                        ENV2_INPUT_OFFSET as int,
                        v,
                    ),
                    old(self).env2.envelopes@[v],
                    old(self).env2.clock as int,
                    old(self).inputs@[ENV2_INPUT_OFFSET + ENVELOPE_GATE_INPUT + v] as int,
                    env_raw_s(
                        env_settings_s(
                            old(self).env2.attack as int,
                            old(self).env2.decay as int,
                            old(self).env2.sustain as int,
                            old(self).env2.release as int,
                            old(self).inputs@,
                            ENV2_INPUT_OFFSET as int,
                            v,
                        ),
                        old(self).env2.envelopes@[v],
                        old(self).env2.clock as int,
                        old(self).sample_rate as int,
                    ),
                    old(self).sample_rate as int,
                ),
            forall|v: int|
                0 <= v < MAX_POLY_COUNT ==> #[trigger] final(self).env3.envelopes@[v]
                    == env_next_meta_s(
                    env_settings_s(
                        old(self).env3.attack as int,
                        old(self).env3.decay as int,
                        old(self).env3.sustain as int,
                        old(self).env3.release as int,
                        old(self).inputs@,
                        ENV3_INPUT_OFFSET as int,
                        v,
                    ),
                    old(self).env3.envelopes@[v],
                    old(self).env3.clock as int,
                    old(self).inputs@[ENV3_INPUT_OFFSET + ENVELOPE_GATE_INPUT + v] as int,
                    env_raw_s(
                        env_settings_s(
                            old(self).env3.attack as int,
                            old(self).env3.decay as int,
                            old(self).env3.sustain as int,
                            old(self).env3.release as int,
                            old(self).inputs@,
                            ENV3_INPUT_OFFSET as int,
                            v,
                        ),
                        old(self).env3.envelopes@[v],
                        old(self).env3.clock as int,
                        old(self).sample_rate as int,
                    ),
                    old(self).sample_rate as int,
                ),
            // Each envelope clock ticks one sample (saturating far off at
            // the top of its range).
            final(self).env1.clock as int == (if old(self).env1.clock < u64::MAX {
                old(self).env1.clock + 1
            } else {
                old(self).env1.clock as int
            }),
            final(self).env2.clock as int == (if old(self).env2.clock < u64::MAX {
                old(self).env2.clock + 1
            } else {
                old(self).env2.clock as int
            }),
            final(self).env3.clock as int == (if old(self).env3.clock < u64::MAX {
                old(self).env3.clock + 1
            } else {
                old(self).env3.clock as int
            }),
            // The second filter's history advances like the first's.
            forall|v: int|
                0 <= v < MAX_POLY_COUNT ==> #[trigger] final(self).filter2.buffers@[v]
                    == filter_next_buf_s(
                    old(self).filter2.buffers@[v],
                    old(self).inputs@[FILTER2_INPUT_OFFSET + FILTER_VALUE_INPUT + v] as int,
                    old(self).filter2.frequency as int,
                    old(self).inputs@[FILTER2_INPUT_OFFSET + FILTER_FREQUENCY_INPUT + v] as int,
                    old(self).sample_rate as int,
                ),
            // The free-running oscillators advance their phases.
            forall|v: int|
                0 <= v < MAX_POLY_COUNT ==> #[trigger] final(self).lfo1.current_phases@[v] as int
                    == fract_s(
                    fp_add_s(
                        old(self).lfo1.current_phases@[v] as int,
                        phase_inc_s(old(self).lfo1.frequency as int, old(self).sample_rate as int),
                    ),
                ),
            forall|v: int|
                0 <= v < MAX_POLY_COUNT ==> #[trigger] final(self).lfo2.current_phases@[v] as int
                    == fract_s(
                    fp_add_s(
                        old(self).lfo2.current_phases@[v] as int,
                        phase_inc_s(old(self).lfo2.frequency as int, old(self).sample_rate as int),
                    ),
                ),
            // The effects stages advance on the re-routed voice sum.
            final(self).effects_chain.delay@.buffer == delay_next_buffer_s(
                old(self).effects_chain.delay@,
                dist_out_s(
                    old(self).effects_chain.distortion,
                    voice_sum_s(final(self).inputs@, MAX_POLY_COUNT as int),
                ),
            ),
            final(self).effects_chain.reverb@.combs_l == combs_next_s(
                old(self).effects_chain.reverb@.combs_l,
                reverb_scaled_s(chain_reverb_in_s(old(self).effects_chain, final(self).inputs@)),
                old(self).effects_chain.reverb@.space as int,
                0,
                reverb_mod_s(old(self).effects_chain.reverb@),
                old(self).effects_chain.reverb@.damp as int,
            ),
            final(self).effects_chain.reverb@.combs_r == combs_next_s(
                old(self).effects_chain.reverb@.combs_r,
                reverb_scaled_s(chain_reverb_in_s(old(self).effects_chain, final(self).inputs@)),
                old(self).effects_chain.reverb@.space as int,
                old(self).effects_chain.reverb@.stereo_spread,
                reverb_mod_s(old(self).effects_chain.reverb@),
                old(self).effects_chain.reverb@.damp as int,
            ),
            // Module base parameters are process-invariant.
            final(self).osc1.shape == old(self).osc1.shape,
            final(self).osc1.level == old(self).osc1.level,
            final(self).osc1.frequency == old(self).osc1.frequency,
            final(self).osc2.wavetable == old(self).osc2.wavetable,
            final(self).osc2.level == old(self).osc2.level,
            final(self).osc2.frequency == old(self).osc2.frequency,
            final(self).osc1.phase == old(self).osc1.phase,
            final(self).osc2.phase == old(self).osc2.phase,
            final(self).env1.attack == old(self).env1.attack,
            final(self).env1.decay == old(self).env1.decay,
            final(self).env1.sustain == old(self).env1.sustain,
            final(self).env1.release == old(self).env1.release,
            final(self).env2.attack == old(self).env2.attack,
            final(self).env2.decay == old(self).env2.decay,
            final(self).env2.sustain == old(self).env2.sustain,
            final(self).env2.release == old(self).env2.release,
            final(self).env3.attack == old(self).env3.attack,
            final(self).env3.decay == old(self).env3.decay,
            final(self).env3.sustain == old(self).env3.sustain,
            final(self).env3.release == old(self).env3.release,
            final(self).lfo1.shape == old(self).lfo1.shape,
            final(self).lfo1.frequency == old(self).lfo1.frequency,
            final(self).lfo2.shape == old(self).lfo2.shape,
            final(self).lfo2.frequency == old(self).lfo2.frequency,
            final(self).filter1.frequency == old(self).filter1.frequency,
            final(self).filter2.frequency == old(self).filter2.frequency,
            final(self).effects_chain.distortion == old(self).effects_chain.distortion,
            final(self).effects_chain.master_gain == old(self).effects_chain.master_gain,
            final(self).effects_chain.delay@.wet == old(self).effects_chain.delay@.wet,
            final(self).effects_chain.delay@.feedback == old(self).effects_chain.delay@.feedback,
            final(self).effects_chain.delay@.delay_index == old(
                self,
            ).effects_chain.delay@.delay_index,
    {
        let sr = self.sample_rate;
        self.midi.process(&mut self.outputs);
        self.osc1.render(&self.inputs, &mut self.outputs, sr);
        self.osc2.render(&self.inputs, &mut self.outputs, sr);
        self.env1.render(&self.inputs, &mut self.outputs, sr);
        self.env2.render(&self.inputs, &mut self.outputs, sr);
        self.env3.render(&self.inputs, &mut self.outputs, sr);
        self.filter1.render(&self.inputs, &mut self.outputs, sr);
        self.filter2.render(&self.inputs, &mut self.outputs, sr);
        self.lfo1.render(&self.inputs, &mut self.outputs, sr);
        self.lfo2.render(&self.inputs, &mut self.outputs, sr);
        self.cables.run_cables(&mut self.inputs, &self.outputs);
        self.effects_chain.render(&self.inputs)
    }

}

/// How one control message transforms the engine: each arm pins the whole
/// post state as the pre state with exactly one component changed, using
/// the same spec functions the component setters are proved against.
/// Out-of-range knob values are first brought onto the saturation rails;
/// a cable operation that the patch cannot honour is a no-op, never a
/// crash.
#[verifier::opaque]
pub open spec fn message_applied(pre: AudioState, msg: AudioMessage, post: AudioState) -> bool {
    match msg {
        AudioMessage::Osc1Freq(f) => post == (AudioState {
            osc1: (PolyAnalog { frequency: sat(f as int) as i64, ..pre.osc1 }),
            ..pre
        }),
        AudioMessage::Osc1Shape(shape) => post == (AudioState {
            osc1: (PolyAnalog { shape, ..pre.osc1 }),
            ..pre
        }),
        AudioMessage::Osc1Phase(p) => post == (AudioState {
            osc1: (PolyAnalog { phase: sat(p as int) as i64, ..pre.osc1 }),
            ..pre
        }),
        AudioMessage::Osc1Level(l) => post == (AudioState {
            osc1: (PolyAnalog { level: sat(l as int) as i64, ..pre.osc1 }),
            ..pre
        }),
        AudioMessage::Osc2Freq(f) => post == (AudioState {
            osc2: (PolyWavetable {
                frequency: crate::wavetable::wavetable_freq_param_s(sat(f as int)) as i64,
                ..pre.osc2
            }),
            ..pre
        }),
        AudioMessage::Osc2Phase(p) => post == (AudioState {
            osc2: (PolyWavetable { phase: sat(p as int) as i64, ..pre.osc2 }),
            ..pre
        }),
        AudioMessage::Osc2Level(l) => post == (AudioState {
            osc2: (PolyWavetable { level: sat(l as int) as i64, ..pre.osc2 }),
            ..pre
        }),
        AudioMessage::Osc2WavetableUpdate(w) => {
            if w@.len() == crate::wavetable::WAVETABLE_FRAME_LENGTH
                * crate::wavetable::WAVETABLE_VARIATION_COUNT {
                &&& post == (AudioState { osc2: post.osc2, ..pre })
                &&& post.osc2 == (PolyWavetable { wavetable: post.osc2.wavetable, ..pre.osc2 })
                &&& post.osc2.wavetable@ == Seq::new(w@.len(), |i: int| sat(w@[i] as int) as i64)
            } else {
                post == pre
            }
        },
        AudioMessage::Lfo1Shape(shape) => post == (AudioState {
            lfo1: (PolyLfo { shape, ..pre.lfo1 }),
            ..pre
        }),
        AudioMessage::Lfo1Freq(f) => post == (AudioState {
            lfo1: (PolyLfo {
                frequency: crate::lfo::lfo_freq_s(sat(f as int)) as i64,
                ..pre.lfo1
            }),
            ..pre
        }),
        AudioMessage::Lfo2Shape(shape) => post == (AudioState {
            lfo2: (PolyLfo { shape, ..pre.lfo2 }),
            ..pre
        }),
        AudioMessage::Lfo2Freq(f) => post == (AudioState {
            lfo2: (PolyLfo {
                frequency: crate::lfo::lfo_freq_s(sat(f as int)) as i64,
                ..pre.lfo2
            }),
            ..pre
        }),
        AudioMessage::Filter1Freq(f) => post == (AudioState {
            filter1: (PolyFilter { frequency: sat(f as int) as i64, ..pre.filter1 }),
            ..pre
        }),
        AudioMessage::Filter2Freq(f) => post == (AudioState {
            filter2: (PolyFilter { frequency: sat(f as int) as i64, ..pre.filter2 }),
            ..pre
        }),
        AudioMessage::Env1Attack(k) => post == (AudioState {
            env1: (PolyEnvelope {
                attack: crate::envelope::env_time_param_s(sat(k as int)) as i64,
                ..pre.env1
            }),
            ..pre
        }),
        AudioMessage::Env1Decay(k) => post == (AudioState {
            env1: (PolyEnvelope {
                decay: crate::envelope::env_time_param_s(sat(k as int)) as i64,
                ..pre.env1
            }),
            ..pre
        }),
        AudioMessage::Env1Release(k) => post == (AudioState {
            env1: (PolyEnvelope {
                release: crate::envelope::env_time_param_s(sat(k as int)) as i64,
                ..pre.env1
            }),
            ..pre
        }),
        AudioMessage::Env1Sustain(k) => post == (AudioState {
            env1: (PolyEnvelope { sustain: sat(k as int) as i64, ..pre.env1 }),
            ..pre
        }),
        AudioMessage::Env2Attack(k) => post == (AudioState {
            env2: (PolyEnvelope {
                attack: crate::envelope::env_time_param_s(sat(k as int)) as i64,
                ..pre.env2
            }),
            ..pre
        }),
        AudioMessage::Env2Decay(k) => post == (AudioState {
            env2: (PolyEnvelope {
                decay: crate::envelope::env_time_param_s(sat(k as int)) as i64,
                ..pre.env2
            }),
            ..pre
        }),
        AudioMessage::Env2Release(k) => post == (AudioState {
            env2: (PolyEnvelope {
                release: crate::envelope::env_time_param_s(sat(k as int)) as i64,
                ..pre.env2
            }),
            ..pre
        }),
        AudioMessage::Env2Sustain(k) => post == (AudioState {
            env2: (PolyEnvelope { sustain: sat(k as int) as i64, ..pre.env2 }),
            ..pre
        }),
        AudioMessage::Env3Attack(k) => post == (AudioState {
            env3: (PolyEnvelope {
                attack: crate::envelope::env_time_param_s(sat(k as int)) as i64,
                ..pre.env3
            }),
            ..pre
        }),
        AudioMessage::Env3Decay(k) => post == (AudioState {
            env3: (PolyEnvelope {
                decay: crate::envelope::env_time_param_s(sat(k as int)) as i64,
                ..pre.env3
            }),
            ..pre
        }),
        AudioMessage::Env3Release(k) => post == (AudioState {
            env3: (PolyEnvelope {
                release: crate::envelope::env_time_param_s(sat(k as int)) as i64,
                ..pre.env3
            }),
            ..pre
        }),
        AudioMessage::Env3Sustain(k) => post == (AudioState {
            env3: (PolyEnvelope { sustain: sat(k as int) as i64, ..pre.env3 }),
            ..pre
        }),
        AudioMessage::DistDrive(d) => post == (AudioState {
            effects_chain: (EffectsChain {
                distortion: (crate::effects::Distortion {
                    drive: fp_add_s(
                        FP_ONE as int,
                        fp_mul_s(sat(d as int), crate::effects::DRIVE_SPAN as int),
                    ) as i64,
                    ..pre.effects_chain.distortion
                }),
                ..pre.effects_chain
            }),
            ..pre
        }),
        AudioMessage::DistWet(w) => post == (AudioState {
            effects_chain: (EffectsChain {
                distortion: (crate::effects::Distortion {
                    wet: sat(w as int) as i64,
                    ..pre.effects_chain.distortion
                }),
                ..pre.effects_chain
            }),
            ..pre
        }),
        AudioMessage::DelayFeedback(x) => {
            &&& post == (AudioState { effects_chain: post.effects_chain, ..pre })
            &&& post.effects_chain.delay@.feedback == sat(x as int)
            &&& post.effects_chain.delay@.wet == pre.effects_chain.delay@.wet
            &&& post.effects_chain.delay@.delay_index == pre.effects_chain.delay@.delay_index
            &&& post.effects_chain.delay@.buffer == pre.effects_chain.delay@.buffer
            &&& post.effects_chain.distortion == pre.effects_chain.distortion
            &&& post.effects_chain.reverb == pre.effects_chain.reverb
            &&& post.effects_chain.master_gain == pre.effects_chain.master_gain
        },
        AudioMessage::DelayTime(t) => {
            &&& post == (AudioState { effects_chain: post.effects_chain, ..pre })
            &&& post.effects_chain.delay@.delay_index == clamp01_s(t as int) * pre.sample_rate / (
            FP_ONE as int)
            &&& post.effects_chain.delay@.wet == pre.effects_chain.delay@.wet
            &&& post.effects_chain.delay@.feedback == pre.effects_chain.delay@.feedback
            &&& post.effects_chain.delay@.buffer == pre.effects_chain.delay@.buffer.take(
                if post.effects_chain.delay@.delay_index < pre.effects_chain.delay@.buffer.len() {
                    post.effects_chain.delay@.delay_index
                } else {
                    pre.effects_chain.delay@.buffer.len() as int
                },
            )
            &&& post.effects_chain.distortion == pre.effects_chain.distortion
            &&& post.effects_chain.reverb == pre.effects_chain.reverb
            &&& post.effects_chain.master_gain == pre.effects_chain.master_gain
        },
        AudioMessage::DelayWet(x) => {
            &&& post == (AudioState { effects_chain: post.effects_chain, ..pre })
            &&& post.effects_chain.delay@.wet == sat(x as int)
            &&& post.effects_chain.delay@.feedback == pre.effects_chain.delay@.feedback
            &&& post.effects_chain.delay@.delay_index == pre.effects_chain.delay@.delay_index
            &&& post.effects_chain.delay@.buffer == pre.effects_chain.delay@.buffer
            &&& post.effects_chain.distortion == pre.effects_chain.distortion
            &&& post.effects_chain.reverb == pre.effects_chain.reverb
            &&& post.effects_chain.master_gain == pre.effects_chain.master_gain
        },
        AudioMessage::ReverbDamp(x) => {
            &&& post == (AudioState { effects_chain: post.effects_chain, ..pre })
            &&& post.effects_chain == (EffectsChain {
                reverb: post.effects_chain.reverb,
                ..pre.effects_chain
            })
            &&& post.effects_chain.reverb.damp == fp_add_s(
                crate::effects::TENTH_FP as int,
                fp_mul_s(crate::effects::DAMP_SCALE as int, sat(x as int)),
            )
            &&& crate::effects::reverb_untouched_but_damp(
                pre.effects_chain.reverb,
                post.effects_chain.reverb,
            )
        },
        AudioMessage::ReverbSpread(x) => {
            &&& post == (AudioState { effects_chain: post.effects_chain, ..pre })
            &&& post.effects_chain == (EffectsChain {
                reverb: post.effects_chain.reverb,
                ..pre.effects_chain
            })
            &&& post.effects_chain.reverb.stereo_spread as int == fp_mul_s(
                clamp01_s(x as int),
                crate::effects::SPREAD_SPAN as int,
            ) / (FP_ONE as int)
            &&& post.effects_chain.reverb.wet1 == crate::effects::reverb_wet1_s(
                fp_sub_s(FP_ONE as int, pre.effects_chain.reverb.dry as int),
                pre.effects_chain.reverb.width as int,
            )
            &&& post.effects_chain.reverb.wet2 == crate::effects::reverb_wet2_s(
                fp_sub_s(FP_ONE as int, pre.effects_chain.reverb.dry as int),
                pre.effects_chain.reverb.width as int,
            )
            &&& post.effects_chain.reverb.dry == fp_sub_s(
                FP_ONE as int,
                fp_sub_s(FP_ONE as int, pre.effects_chain.reverb.dry as int),
            )
            &&& crate::effects::reverb_untouched_but_mix_spread(
                pre.effects_chain.reverb,
                post.effects_chain.reverb,
            )
        },
        AudioMessage::ReverbWet(x) => {
            &&& post == (AudioState { effects_chain: post.effects_chain, ..pre })
            &&& post.effects_chain == (EffectsChain {
                reverb: post.effects_chain.reverb,
                ..pre.effects_chain
            })
            &&& post.effects_chain.reverb.wet1 == crate::effects::reverb_wet1_s(
                sat(x as int),
                pre.effects_chain.reverb.width as int,
            )
            &&& post.effects_chain.reverb.wet2 == crate::effects::reverb_wet2_s(
                sat(x as int),
                pre.effects_chain.reverb.width as int,
            )
            &&& post.effects_chain.reverb.dry == fp_sub_s(FP_ONE as int, sat(x as int))
            &&& crate::effects::reverb_untouched_but_mix(
                pre.effects_chain.reverb,
                post.effects_chain.reverb,
            )
        },
        AudioMessage::ReverbSpace(x) => {
            &&& post == (AudioState { effects_chain: post.effects_chain, ..pre })
            &&& post.effects_chain == (EffectsChain {
                reverb: post.effects_chain.reverb,
                ..pre.effects_chain
            })
            &&& post.effects_chain.reverb.space == fp_add_s(
                crate::effects::SPACE_FLOOR as int,
                fp_mul_s(crate::effects::SPACE_SPAN as int, sat(x as int)),
            )
            &&& crate::effects::reverb_untouched_but_space(
                pre.effects_chain.reverb,
                post.effects_chain.reverb,
            )
        },
        AudioMessage::MasterGain(g) => post == (AudioState {
            effects_chain: (EffectsChain {
                master_gain: sat(g as int) as i64,
                ..pre.effects_chain
            }),
            ..pre
        }),
        AudioMessage::KeyPress(velocity, note) => {
            &&& post == (AudioState { midi: post.midi, outputs: post.outputs, ..pre })
            &&& key_press_rel(pre.midi@, pre.outputs@, note, velocity, post.midi@, post.outputs@)
        },
        AudioMessage::KeyRelease(note) => {
            &&& post == (AudioState { midi: post.midi, outputs: post.outputs, ..pre })
            &&& post.midi@.sustain == pre.midi@.sustain
            &&& post.midi@.next == pre.midi@.next
            &&& post.midi@.queue == pre.midi@.queue.filter(
                |x: int| !released_by_note(pre.midi@, note, x),
            )
            &&& forall|i: int|
                0 <= i < MAX_POLY_COUNT ==> post.midi@.voices[i] == release_voice(
                    #[trigger] pre.midi@.voices[i],
                    note,
                    pre.midi@.sustain,
                )
            &&& post.outputs@.len() == TOTAL_OUTPUT_COUNT
            &&& forall|a: int|
                0 <= a < TOTAL_OUTPUT_COUNT ==> #[trigger] post.outputs@[a] == (if gate_addr(0) <= a
                    < gate_addr(MAX_POLY_COUNT as int) && released_by_note(
                    pre.midi@,
                    note,
                    a - gate_addr(0),
                ) {
                    0i64
                } else {
                    pre.outputs@[a]
                })
        },
        AudioMessage::PedalPress => {
            &&& post == (AudioState { midi: post.midi, ..pre })
            &&& post.midi@ == (MidiView { sustain: true, ..pre.midi@ })
        },
        AudioMessage::PedalRelease => {
            &&& post == (AudioState { midi: post.midi, outputs: post.outputs, ..pre })
            &&& !post.midi@.sustain
            &&& post.midi@.next == pre.midi@.next
            &&& post.midi@.queue == pre.midi@.queue.filter(
                |x: int| !released_by_pedal(pre.midi@, x),
            )
            &&& forall|i: int|
                0 <= i < MAX_POLY_COUNT ==> post.midi@.voices[i] == pedal_release_voice(
                    #[trigger] pre.midi@.voices[i],
                )
            &&& post.outputs@.len() == TOTAL_OUTPUT_COUNT
            &&& forall|a: int|
                0 <= a < TOTAL_OUTPUT_COUNT ==> #[trigger] post.outputs@[a] == (if gate_addr(0) <= a
                    < gate_addr(MAX_POLY_COUNT as int) && released_by_pedal(
                    pre.midi@,
                    a - gate_addr(0),
                ) {
                    0i64
                } else {
                    pre.outputs@[a]
                })
        },
        AudioMessage::CableConnection(target, source) => {
            &&& post == (AudioState { cables: post.cables, ..pre })
            &&& if pre.cables@.len() < MAX_CABLES {
                post.cables@ == pre.cables@.push(
                    Cable {
                        source: output_jack_offset(source) as usize,
                        target: input_jack_offset(target) as usize,
                        gain: FP_ONE,
                    },
                )
            } else {
                post.cables@ == pre.cables@
            }
        },
        AudioMessage::CableAttenuation(cable_index, new_value) => {
            &&& post == (AudioState { cables: post.cables, ..pre })
            &&& if cable_index < pre.cables@.len() {
                post.cables@ == pre.cables@.update(
                    cable_index as int,
                    Cable { gain: sat(new_value as int) as i64, ..pre.cables@[cable_index as int] },
                )
            } else {
                post.cables@ == pre.cables@
            }
        },
        AudioMessage::CableRemove(cable_index) => {
            &&& post == (AudioState { cables: post.cables, ..pre })
            &&& if cable_index < pre.cables@.len() {
                post.cables@ == pre.cables@.update(
                    cable_index as int,
                    pre.cables@.last(),
                ).drop_last()
            } else {
                post.cables@ == pre.cables@
            }
        },
    }
}

impl AudioState {
    /// Apply one control message as a synchronous mutation: a parameter
    /// set, a performance event, a wavetable swap or a patch edit.
    pub fn apply_message(&mut self, msg: &AudioMessage)
        requires
            old(self).wf(),
        ensures
            final(self).wf(),
            message_applied(*old(self), *msg, *final(self)),
    {
        proof {
            reveal(message_applied);
        }
        match msg {
            AudioMessage::Osc1Freq(f) => self.osc1.set_freq_value(*f),
            AudioMessage::Osc1Shape(shape) => self.osc1.set_shape(*shape),
            AudioMessage::Osc1Phase(p) => self.osc1.set_phase_value(*p),
            AudioMessage::Osc1Level(l) => self.osc1.set_level_value(*l),
            AudioMessage::Osc2Freq(f) => self.osc2.set_freq_value(fp_clip(*f)),
            AudioMessage::Osc2Phase(p) => self.osc2.set_phase_value(*p),
            AudioMessage::Osc2Level(l) => self.osc2.set_level_value(*l),
            AudioMessage::Osc2WavetableUpdate(w) => {
                let total = crate::wavetable::WAVETABLE_FRAME_LENGTH
                    * crate::wavetable::WAVETABLE_VARIATION_COUNT;
                if w.len() == total {
                    let mut table: Vec<i64> = Vec::new();
                    for i in 0..total
                        invariant
                            w@.len() == total,
                            table@.len() == i,
                            forall|j: int|
                                0 <= j < i ==> #[trigger] table@[j] as int == sat(w@[j] as int),
                    {
                        table.push(fp_clip(w[i]));
                    }
                    proof {
                        assert(table@ =~= Seq::new(
                            w@.len(),
                            |i: int| sat(w@[i] as int) as i64,
                        ));
                    }
                    self.osc2.update_wavetable(table);
                }
            },
            AudioMessage::Lfo1Shape(shape) => self.lfo1.set_shape(*shape),
            AudioMessage::Lfo1Freq(f) => self.lfo1.set_freq_value(fp_clip(*f)),
            AudioMessage::Lfo2Shape(shape) => self.lfo2.set_shape(*shape),
            AudioMessage::Lfo2Freq(f) => self.lfo2.set_freq_value(fp_clip(*f)),
            AudioMessage::Filter1Freq(f) => self.filter1.set_freq_value(*f),
            AudioMessage::Filter2Freq(f) => self.filter2.set_freq_value(*f),
            AudioMessage::Env1Attack(k) => self.env1.set_attack_value(fp_clip(*k)),
            AudioMessage::Env1Decay(k) => self.env1.set_decay_value(fp_clip(*k)),
            AudioMessage::Env1Release(k) => self.env1.set_release_value(fp_clip(*k)),
            AudioMessage::Env1Sustain(k) => self.env1.set_sustain_value(*k),
            AudioMessage::Env2Attack(k) => self.env2.set_attack_value(fp_clip(*k)),
            AudioMessage::Env2Decay(k) => self.env2.set_decay_value(fp_clip(*k)),
            AudioMessage::Env2Release(k) => self.env2.set_release_value(fp_clip(*k)),
            AudioMessage::Env2Sustain(k) => self.env2.set_sustain_value(*k),
            AudioMessage::Env3Attack(k) => self.env3.set_attack_value(fp_clip(*k)),
            AudioMessage::Env3Decay(k) => self.env3.set_decay_value(fp_clip(*k)),
            AudioMessage::Env3Release(k) => self.env3.set_release_value(fp_clip(*k)),
            AudioMessage::Env3Sustain(k) => self.env3.set_sustain_value(*k),
            AudioMessage::DistDrive(d) => self.effects_chain.set_dist_drive(fp_clip(*d)),
            AudioMessage::DistWet(w) => self.effects_chain.set_dist_wet(*w),
            AudioMessage::DelayFeedback(x) => self.effects_chain.set_delay_feedback(*x),
            AudioMessage::DelayTime(t) => {
                let sr = self.sample_rate;
                self.effects_chain.set_delay_time(fp_clip(*t), sr);
            },
            AudioMessage::DelayWet(x) => self.effects_chain.set_delay_wet(*x),
            AudioMessage::ReverbDamp(x) => self.effects_chain.set_reverb_damp(fp_clip(*x)),
            AudioMessage::ReverbSpread(x) => self.effects_chain.set_reverb_spread(*x),
            AudioMessage::ReverbWet(x) => self.effects_chain.set_reverb_wet(fp_clip(*x)),
            AudioMessage::ReverbSpace(x) => self.effects_chain.set_reverb_space(fp_clip(*x)),
            AudioMessage::MasterGain(g) => self.effects_chain.set_master_gain(*g),
            AudioMessage::KeyPress(velocity, note) => {
                self.midi.key_press(&mut self.outputs, *note, *velocity);
            },
            AudioMessage::KeyRelease(note) => {
                self.midi.key_release(&mut self.outputs, *note);
            },
            AudioMessage::PedalPress => self.midi.pedal_press(),
            AudioMessage::PedalRelease => {
                self.midi.pedal_release(&mut self.outputs);
            },
            AudioMessage::CableConnection(target, source) => {
                let _ = self.cables.add_cable(*source, *target);
            },
            AudioMessage::CableAttenuation(cable_index, new_value) => {
                let _ = self.cables.attenaute(*cable_index, *new_value);
            },
            AudioMessage::CableRemove(cable_index) => {
                let _ = self.cables.remove_cable(*cable_index);
            },
        }
    }

    /// Apply a batch of control messages in order, as the drain of a
    /// message queue does once per output buffer. The returned ghost trace
    /// witnesses every intermediate state, so the whole batch is pinned to
    /// a chain of single-message applications.
    pub fn update(&mut self, messages: &Vec<AudioMessage>) -> (trace: Ghost<Seq<AudioState>>)
        requires
            old(self).wf(),
        ensures
            final(self).wf(),
            messages_trace(*old(self), messages@, trace@, *final(self)),
    {
        let ghost mut tr: Seq<AudioState> = seq![*old(self)];
        let n = messages.len();
        for k in 0..n
            invariant
                n == messages@.len(),
                self.wf(),
                tr.len() == k + 1,
                tr[0] == *old(self),
                tr[k as int] == *self,
                forall|j: int|
                    0 <= j < k ==> message_applied(#[trigger] tr[j], messages@[j], tr[j + 1]),
        {
            self.apply_message(&messages[k]);
            proof {
                tr = tr.push(*self);
            }
        }
        Ghost(tr)
    }

    /// Read one output port value.
    pub fn output_value(&self, jack: OutputJack, slot: usize) -> (r: i64)
        requires
            self.wf(),
            slot < MAX_POLY_COUNT,
        ensures
            r == self.outputs@[output_jack_offset(jack) + slot],
    {
        let base = crate::ports::output_jack_address(jack);
        self.outputs[base + slot]
    }

    /// Read one input port value (as routed by the last cable pass).
    pub fn input_value(&self, jack: InputJack, slot: usize) -> (r: i64)
        requires
            self.wf(),
            slot < MAX_POLY_COUNT,
        ensures
            r == self.inputs@[input_jack_offset(jack) + slot],
    {
        let base = crate::ports::input_jack_address(jack);
        self.inputs[base + slot]
    }
}

/// A valid application trace: `trace` records the engine state before and
/// after each message of the batch, in order.
pub open spec fn messages_trace(
    pre: AudioState,
    msgs: Seq<AudioMessage>,
    trace: Seq<AudioState>,
    post: AudioState,
) -> bool {
    &&& trace.len() == msgs.len() + 1
    &&& trace[0] == pre
    &&& trace[msgs.len() as int] == post
    &&& forall|k: int|
        0 <= k < msgs.len() ==> message_applied(#[trigger] trace[k], msgs[k], trace[k + 1])
}

/// Decode one raw three-byte MIDI event/// Decode one raw three-byte MIDI event into a control message: note on
/// and off on status 144 (a zero velocity is a release), sustain pedal on
/// controller 64 of status 176. Anything else is ignored.
pub fn decode_midi_bytes(status: u8, data1: u8, data2: u8) -> (r: Option<AudioMessage>)
    ensures
        r == decode_midi_bytes_s(status, data1, data2),
{
    if status == 144 {
        if data2 != 0 {
            Some(AudioMessage::KeyPress(data2, data1))
        } else {
            Some(AudioMessage::KeyRelease(data1))
        }
    } else if status == 176 && data1 == 64 {
        if data2 == 0 {
            Some(AudioMessage::PedalRelease)
        } else {
            Some(AudioMessage::PedalPress)
        }
    } else {
        None
    }
}

/// The meaning of one raw MIDI event.
pub open spec fn decode_midi_bytes_s(status: u8, data1: u8, data2: u8) -> Option<AudioMessage> {
    if status == 144 {
        if data2 != 0 {
            Some(AudioMessage::KeyPress(data2, data1))
        } else {
            Some(AudioMessage::KeyRelease(data1))
        }
    } else if status == 176 && data1 == 64 {
        if data2 == 0 {
            Some(AudioMessage::PedalRelease)
        } else {
            Some(AudioMessage::PedalPress)
        }
    } else {
        None
    }
}

/// Clamp a rendered sample to full scale, as a collaborator does before
/// format conversion.
pub fn clamp_sample(x: i64) -> (r: i64)
    ensures
        r as int == (if x < -FP_ONE {
            -FP_ONE as int
        } else if x > FP_ONE {
            FP_ONE as int
        } else {
            x as int
        }),
        -FP_ONE <= r <= FP_ONE,
{
    if x < -FP_ONE {
        -FP_ONE
    } else if x > FP_ONE {
        FP_ONE
    } else {
        x
    }
}

/// The saturating sum of squares of a block of samples.
pub open spec fn square_sum_s(samples: Seq<i64>, k: int) -> int
    decreases k,
{
    if k <= 0 {
        0
    } else {
        fp_add_s(square_sum_s(samples, k - 1), fp_mul_s(samples[k - 1] as int, samples[k - 1] as int))
    }
}

/// The mean square of a block of clamped samples: the per-buffer meter
/// level a collaborator displays.
pub fn mean_square(samples: &Vec<i64>) -> (r: i64)
    requires
        samples@.len() >= 1,
        forall|i: int| 0 <= i < samples@.len() ==> fp_ok(#[trigger] samples@[i] as int),
    ensures
        r as int == crate::fixed::tdiv(
            square_sum_s(samples@, samples@.len() as int),
            samples@.len() as int,
        ),
        fp_ok(r as int),
{
    let n = samples.len();
    let mut acc: i64 = 0;
    for i in 0..n
        invariant
            n == samples@.len(),
            forall|j: int| 0 <= j < n ==> fp_ok(#[trigger] samples@[j] as int),
            acc as int == square_sum_s(samples@, i as int),
            fp_ok(acc as int),
    {
        acc = fp_add(acc, fp_mul(samples[i], samples[i]));
    }
    if acc >= 0 {
        let q: i64 = (((acc as u64)) / (n as u64)) as i64;
        proof {
            vstd::arithmetic::div_mod::lemma_div_is_ordered(0, acc as int, n as int);
            vstd::arithmetic::div_mod::lemma_div_is_ordered_by_denominator(acc as int, 1, n as int);
            assert((acc as int) / 1int == acc as int);
        }
        q
    } else {
        let q: i64 = ((((-acc) as u64)) / (n as u64)) as i64;
        proof {
            vstd::arithmetic::div_mod::lemma_div_is_ordered(0, (-acc) as int, n as int);
            vstd::arithmetic::div_mod::lemma_div_is_ordered_by_denominator(
                (-acc) as int,
                1,
                n as int,
            );
            assert(((-acc) as int) / 1int == (-acc) as int);
        }
        -q
    }
}

/// The cables a fresh engine starts with.
pub open spec fn default_patch() -> Seq<Cable> {
    seq![
        Cable {
            source: (output_jack_offset(OutputJack::MidiGate)) as usize,
            target: (input_jack_offset(InputJack::Env1Gate)) as usize,
            gain: FP_ONE,
        },
        Cable {
            source: (output_jack_offset(OutputJack::MidiVelocity)) as usize,
            target: (input_jack_offset(InputJack::Env1Vel)) as usize,
            gain: FP_ONE,
        },
        Cable {
            source: (output_jack_offset(OutputJack::MidiNote)) as usize,
            target: (input_jack_offset(InputJack::Osc1Freq)) as usize,
            gain: FP_ONE,
        },
        Cable {
            source: (output_jack_offset(OutputJack::Env1Value)) as usize,
            target: (input_jack_offset(InputJack::Osc1Amp)) as usize,
            gain: FP_ONE,
        },
        Cable {
            source: (output_jack_offset(OutputJack::Osc1Value)) as usize,
            target: (input_jack_offset(InputJack::EffectsChain)) as usize,
            gain: FP_ONE,
        },
    ]
}

} // verus!
