//! The band-limited analog-style oscillator bank.
//!
//! One oscillator per voice. Each sample, a voice reads its phase, frequency,
//! level and amplitude modulation inputs, adds the frequency input to the
//! module's base frequency, converts the resulting control voltage to Hz by
//! the exponential pitch law, advances its phase accumulator by
//! `frequency / sample_rate`, synthesizes the selected shape (with PolyBLEP
//! band-limiting for saw and square) and scales the result by the level sum
//! and the amplitude input — the built-in VCA that envelope modules drive.

use vstd::prelude::*;

use crate::fixed::{
    fp_add, fp_add_s, fp_clip, fp_fract, fp_mul, fp_mul_s, fp_ok, fract_s, sat, FP_HALF, FP_ONE,
};
use crate::pitch::{calculate_freq, pitch_s};
use crate::ports::{
    ANALOG_AMP_INPUT, ANALOG_FREQUENCY_INPUT, ANALOG_LEVEL_INPUT, ANALOG_OUT_VALUE,
    ANALOG_PHASE_INPUT, ANALOG_TOTAL_INPUT_COUNT, ANALOG_TOTAL_OUTPUT_COUNT, MAX_POLY_COUNT,
    TOTAL_INPUT_COUNT, TOTAL_OUTPUT_COUNT,
};
use crate::waves::{wave_fp, wave_s, WaveShape};

verus! {

/// Sample rates the engine accepts.
pub open spec fn valid_sample_rate(sr: int) -> bool {
    32000 <= sr <= 192000
}

/// The per-sample phase step of an oscillator running at `freq` fixed-point
/// Hz: a fraction of a cycle, in fixed point.
pub open spec fn phase_inc_s(freq: int, sr: int) -> int
    recommends
        0 <= freq,
        0 < sr,
{
    freq / sr
}

/// What one analog voice writes this sample, as a function of its stored
/// phase, the module parameters and its four modulation inputs.
pub open spec fn analog_out_s(
    shape: WaveShape,
    level_param: int,
    freq_param: int,
    phase0: int,
    pin: int,
    fin: int,
    lin: int,
    ain: int,
    sr: int,
) -> int {
    let level = fp_add_s(level_param, lin);
    let voltage = fp_add_s(freq_param, fin);
    let freq = pitch_s(voltage);
    let phase = fract_s(fp_add_s(phase0, pin));
    let inc = phase_inc_s(freq, sr);
    fp_mul_s(fp_mul_s(wave_s(shape, phase, inc), level), ain)
}

/// Where one analog voice's phase accumulator lands after this sample: the
/// phase input is a transient offset and does not accumulate.
pub open spec fn analog_next_phase_s(freq_param: int, phase0: int, fin: int, sr: int) -> int {
    fract_s(fp_add_s(phase0, phase_inc_s(pitch_s(fp_add_s(freq_param, fin)), sr)))
}

/// A polyphonic bank of band-limited oscillators, addressing the flat
/// arrays at its two compile-time offsets.
pub struct PolyAnalog<const INPUT_OFFSET: usize, const OUTPUT_OFFSET: usize> {
    /// The selected waveform.
    pub shape: WaveShape,
    /// Base output level, added to the level input.
    pub level: i64,
    /// Base phase offset parameter.
    pub phase: i64,
    /// Base frequency control voltage, added to the frequency input.
    pub frequency: i64,
    /// Per-voice phase accumulators, each in `[0, FP_ONE)`.
    pub current_phases: Vec<i64>,
}

impl<const INPUT_OFFSET: usize, const OUTPUT_OFFSET: usize> PolyAnalog<
    INPUT_OFFSET,
    OUTPUT_OFFSET,
> {
    /// Parameters are representable and every phase accumulator is a valid
    /// phase.
    pub open spec fn wf(&self) -> bool {
        &&& self.current_phases@.len() == MAX_POLY_COUNT
        &&& forall|v: int|
            0 <= v < MAX_POLY_COUNT ==> 0 <= #[trigger] self.current_phases@[v] < FP_ONE
        &&& fp_ok(self.level as int)
        &&& fp_ok(self.phase as int)
        &&& fp_ok(self.frequency as int)
    }

    /// The module's ranges lie inside the flat arrays.
    pub open spec fn offsets_ok() -> bool {
        &&& INPUT_OFFSET + ANALOG_TOTAL_INPUT_COUNT <= TOTAL_INPUT_COUNT
        &&& OUTPUT_OFFSET + ANALOG_TOTAL_OUTPUT_COUNT <= TOTAL_OUTPUT_COUNT
    }

    /// A fresh bank: sine shape, half level, all phases at zero.
    pub fn new() -> (r: Self)
        ensures
            r.wf(),
            r.shape == WaveShape::Sine,
            r.level == FP_HALF,
            r.phase == 0,
            r.frequency == 0,
            forall|v: int| 0 <= v < MAX_POLY_COUNT ==> #[trigger] r.current_phases@[v] == 0,
    {
        let mut phases: Vec<i64> = Vec::new();
        for i in 0..MAX_POLY_COUNT
            invariant
                phases@.len() == i,
                forall|j: int| 0 <= j < i ==> #[trigger] phases@[j] == 0i64,
        {
            phases.push(0);
        }
        PolyAnalog {
            shape: WaveShape::default(),
            level: FP_HALF,
            phase: 0,
            frequency: 0,
            current_phases: phases,
        }
    }

    /// Select the waveform.
    pub fn set_shape(&mut self, shape: WaveShape)
        ensures
            *final(self) == (PolyAnalog { shape, ..*old(self) }),
    {
        self.shape = shape;
    }

    /// Set the base frequency control voltage.
    pub fn set_freq_value(&mut self, freq: i64)
        ensures
            *final(self) == (PolyAnalog { frequency: sat(freq as int) as i64, ..*old(self) }),
    {
        self.frequency = fp_clip(freq);
    }

    /// Set the base output level.
    pub fn set_level_value(&mut self, level: i64)
        ensures
            *final(self) == (PolyAnalog { level: sat(level as int) as i64, ..*old(self) }),
    {
        self.level = fp_clip(level);
    }

    /// Set the base phase offset.
    pub fn set_phase_value(&mut self, phase: i64)
        ensures
            *final(self) == (PolyAnalog { phase: sat(phase as int) as i64, ..*old(self) }),
    {
        self.phase = fp_clip(phase);
    }

    /// Render one sample for every voice: each voice's output slot receives
    /// exactly its shape value at its modulated phase, scaled by level and
    /// amplitude input, and its phase accumulator advances by the pitch
    /// law's phase increment. No other output is touched.
    pub fn render(&mut self, inputs: &Vec<i64>, outputs: &mut Vec<i64>, sample_rate: u32)
        requires
            old(self).wf(),
            Self::offsets_ok(),
            inputs@.len() == TOTAL_INPUT_COUNT,
            old(outputs)@.len() == TOTAL_OUTPUT_COUNT,
            forall|a: int| 0 <= a < TOTAL_INPUT_COUNT ==> fp_ok(#[trigger] inputs@[a] as int),
            valid_sample_rate(sample_rate as int),
        ensures
            final(self).wf(),
            final(self).shape == old(self).shape,
            final(self).level == old(self).level,
            final(self).phase == old(self).phase,
            final(self).frequency == old(self).frequency,
            final(outputs)@.len() == TOTAL_OUTPUT_COUNT,
            forall|v: int|
                0 <= v < MAX_POLY_COUNT ==> #[trigger] final(outputs)@[OUTPUT_OFFSET
                    + ANALOG_OUT_VALUE + v] as int == analog_out_s(
                    old(self).shape,
                    old(self).level as int,
                    old(self).frequency as int,
                    old(self).current_phases@[v] as int,
                    inputs@[INPUT_OFFSET + ANALOG_PHASE_INPUT + v] as int,
                    inputs@[INPUT_OFFSET + ANALOG_FREQUENCY_INPUT + v] as int,
                    inputs@[INPUT_OFFSET + ANALOG_LEVEL_INPUT + v] as int,
                    inputs@[INPUT_OFFSET + ANALOG_AMP_INPUT + v] as int,
                    sample_rate as int,
                ),
            forall|v: int|
                0 <= v < MAX_POLY_COUNT ==> #[trigger] final(self).current_phases@[v] as int
                    == analog_next_phase_s(
                    old(self).frequency as int,
                    old(self).current_phases@[v] as int,
                    inputs@[INPUT_OFFSET + ANALOG_FREQUENCY_INPUT + v] as int,
                    sample_rate as int,
                ),
            forall|a: int|
                0 <= a < TOTAL_OUTPUT_COUNT && !(OUTPUT_OFFSET + ANALOG_OUT_VALUE <= a
                    < OUTPUT_OFFSET + ANALOG_OUT_VALUE + MAX_POLY_COUNT)
                    ==> #[trigger] final(outputs)@[a] == old(outputs)@[a],
            forall|a: int|
                0 <= a < TOTAL_OUTPUT_COUNT && fp_ok(old(outputs)@[a] as int) ==> fp_ok(
                    #[trigger] final(outputs)@[a] as int,
                ),
    {
        let ghost pre = *self;
        let ghost pre_out = outputs@;
        for v in 0..MAX_POLY_COUNT
            invariant
                self.wf(),
                self.shape == pre.shape,
                self.level == pre.level,
                self.phase == pre.phase,
                self.frequency == pre.frequency,
                pre.wf(),
                Self::offsets_ok(),
                inputs@.len() == TOTAL_INPUT_COUNT,
                outputs@.len() == TOTAL_OUTPUT_COUNT,
                pre_out.len() == TOTAL_OUTPUT_COUNT,
                forall|a: int| 0 <= a < TOTAL_INPUT_COUNT ==> fp_ok(#[trigger] inputs@[a] as int),
                valid_sample_rate(sample_rate as int),
                forall|w: int|
                    0 <= w < v ==> #[trigger] outputs@[OUTPUT_OFFSET + ANALOG_OUT_VALUE + w]
                        as int == analog_out_s(
                        pre.shape,
                        pre.level as int,
                        pre.frequency as int,
                        pre.current_phases@[w] as int,
                        inputs@[INPUT_OFFSET + ANALOG_PHASE_INPUT + w] as int,
                        inputs@[INPUT_OFFSET + ANALOG_FREQUENCY_INPUT + w] as int,
                        inputs@[INPUT_OFFSET + ANALOG_LEVEL_INPUT + w] as int,
                        inputs@[INPUT_OFFSET + ANALOG_AMP_INPUT + w] as int,
                        sample_rate as int,
                    ),
                forall|w: int|
                    0 <= w < v ==> #[trigger] self.current_phases@[w] as int
                        == analog_next_phase_s(
                        pre.frequency as int,
                        pre.current_phases@[w] as int,
                        inputs@[INPUT_OFFSET + ANALOG_FREQUENCY_INPUT + w] as int,
                        sample_rate as int,
                    ),
                forall|w: int|
                    v <= w < MAX_POLY_COUNT ==> #[trigger] self.current_phases@[w]
                        == pre.current_phases@[w],
                forall|a: int|
                    0 <= a < TOTAL_OUTPUT_COUNT && !(OUTPUT_OFFSET + ANALOG_OUT_VALUE <= a
                        < OUTPUT_OFFSET + ANALOG_OUT_VALUE + v) ==> #[trigger] outputs@[a]
                        == pre_out[a],
                forall|a: int|
                    0 <= a < TOTAL_OUTPUT_COUNT && fp_ok(pre_out[a] as int) ==> fp_ok(
                        #[trigger] outputs@[a] as int,
                    ),
        {
            let phase_input = inputs[INPUT_OFFSET + ANALOG_PHASE_INPUT + v];
            let frequency_input = inputs[INPUT_OFFSET + ANALOG_FREQUENCY_INPUT + v];
            let level_input = inputs[INPUT_OFFSET + ANALOG_LEVEL_INPUT + v];
            let amp_input = inputs[INPUT_OFFSET + ANALOG_AMP_INPUT + v];

            let level = fp_add(self.level, level_input);
            let voltage = fp_add(self.frequency, frequency_input);
            let frequency = calculate_freq(voltage);
            let phase = fp_fract(fp_add(self.current_phases[v], phase_input));

            let inc: i64 = ((frequency as u64) / (sample_rate as u64)) as i64;
            proof {
                vstd::arithmetic::div_mod::lemma_div_is_ordered(
                    0,
                    frequency as int,
                    sample_rate as int,
                );
                vstd::arithmetic::div_mod::lemma_div_is_ordered_by_denominator(
                    frequency as int,
                    1,
                    sample_rate as int,
                );
                assert((frequency as int) / 1int == frequency as int);
            }
            let raw = wave_fp(self.shape, phase, inc);
            let next_phase = fp_fract(fp_add(self.current_phases[v], inc));
            self.current_phases[v] = next_phase;

            let scaled = fp_mul(fp_mul(raw, level), amp_input);
            outputs[OUTPUT_OFFSET + ANALOG_OUT_VALUE + v] = scaled;
        }
    }
}

} // verus!
