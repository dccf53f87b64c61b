//! Free-running low-frequency oscillators.
//!
//! An LFO is not gated per voice: every voice slot of its output range
//! receives the same value each sample, kept per-slot only for uniformity
//! with the cable system. The frequency knob maps through a cubic law,
//! giving fine resolution at the low end, and the output is scaled down to
//! a sixteenth of full scale. Shapes are the oscillator shapes without
//! band-limiting: LFO rates are far below any aliasing concern.

use vstd::prelude::*;

use crate::analog::{phase_inc_s, valid_sample_rate};
use crate::fixed::{fp_add, fp_add_s, fp_fract, fp_mul, fp_mul_s, fp_ok, fract_s, FP_ONE};
use crate::ports::{LFO_OUT_VALUE, LFO_TOTAL_OUTPUT_COUNT, MAX_POLY_COUNT, TOTAL_OUTPUT_COUNT};
use crate::waves::{lfo_wave_fp, lfo_wave_s, WaveShape};

verus! {

/// 99.9 in fixed point: the span of the cubic frequency law.
pub const LFO_FREQ_SPAN: i64 = 26817113702;

/// 0.1 in fixed point: the floor of the cubic frequency law.
pub const LFO_FREQ_FLOOR: i64 = 26843546;

/// 1/16 in fixed point: the LFO output attenuation.
pub const LFO_ATTENUATION: i64 = 16777216;

/// The cubic frequency law: `knob^3 * 99.9 + 0.1` Hz, clamped to stay
/// non-negative for out-of-range knob values.
pub open spec fn lfo_freq_s(knob: int) -> int {
    let f = fp_add_s(fp_mul_s(fp_mul_s(fp_mul_s(knob, knob), knob), LFO_FREQ_SPAN as int),
        LFO_FREQ_FLOOR as int);
    if f < 0 {
        0
    } else {
        f
    }
}

/// The value every voice slot of an LFO receives this sample.
pub open spec fn lfo_out_s(shape: WaveShape, phase0: int) -> int {
    fp_mul_s(lfo_wave_s(shape, phase0), LFO_ATTENUATION as int)
}

/// A free-running low-frequency oscillator bank.
pub struct PolyLfo<const INPUT_OFFSET: usize, const OUTPUT_OFFSET: usize> {
    /// The selected waveform.
    pub shape: WaveShape,
    /// Base phase offset parameter.
    pub phase: i64,
    /// Oscillation frequency in fixed-point Hz, from the cubic law.
    pub frequency: i64,
    /// Per-voice phase accumulators, advanced in lockstep.
    pub current_phases: Vec<i64>,
}

impl<const INPUT_OFFSET: usize, const OUTPUT_OFFSET: usize> PolyLfo<INPUT_OFFSET, OUTPUT_OFFSET> {
    /// Parameters are representable and every phase accumulator is a valid
    /// phase.
    pub open spec fn wf(&self) -> bool {
        &&& self.current_phases@.len() == MAX_POLY_COUNT
        &&& forall|v: int|
            0 <= v < MAX_POLY_COUNT ==> 0 <= #[trigger] self.current_phases@[v] < FP_ONE
        &&& 0 <= self.frequency <= crate::fixed::FP_SAT
        &&& fp_ok(self.phase as int)
    }

    /// The module's output range lies inside the flat output array.
    pub open spec fn offsets_ok() -> bool {
        OUTPUT_OFFSET + LFO_TOTAL_OUTPUT_COUNT <= TOTAL_OUTPUT_COUNT
    }

    /// A fresh bank: sine shape, one hertz, all phases at zero.
    pub fn new() -> (r: Self)
        ensures
            r.wf(),
            r.shape == WaveShape::Sine,
            r.phase == 0,
            r.frequency == FP_ONE,
            forall|v: int| 0 <= v < MAX_POLY_COUNT ==> #[trigger] r.current_phases@[v] == 0,
    {
        let mut phases: Vec<i64> = Vec::new();
        for i in 0..MAX_POLY_COUNT
            invariant
                phases@.len() == i,
                forall|j: int| 0 <= j < i ==> #[trigger] phases@[j] == 0i64,
        {
            phases.push(0);
        }
        PolyLfo { shape: WaveShape::default(), phase: 0, frequency: FP_ONE, current_phases: phases }
    }

    /// Select the waveform.
    pub fn set_shape(&mut self, shape: WaveShape)
        ensures
            *final(self) == (PolyLfo { shape, ..*old(self) }),
    {
        self.shape = shape;
    }

    /// Set the frequency from a knob value through the cubic law.
    pub fn set_freq_value(&mut self, freq: i64)
        requires
            fp_ok(freq as int),
        ensures
            *final(self) == (PolyLfo { frequency: lfo_freq_s(freq as int) as i64, ..*old(self) }),
    {
        let cubed = fp_mul(fp_mul(fp_mul(freq, freq), freq), LFO_FREQ_SPAN);
        let f = fp_add(cubed, LFO_FREQ_FLOOR);
        self.frequency = if f < 0 {
            0
        } else {
            f
        };
    }

    /// Set the base phase offset.
    pub fn set_phase_value(&mut self, phase: i64)
        requires
            fp_ok(phase as int),
        ensures
            *final(self) == (PolyLfo { phase, ..*old(self) }),
    {
        self.phase = phase;
    }

    /// Render one sample: every voice slot of the output range receives the
    /// same attenuated shape value, and all phase accumulators advance by
    /// `frequency / sample_rate`. No other output is touched.
    pub fn render(&mut self, _inputs: &Vec<i64>, outputs: &mut Vec<i64>, sample_rate: u32)
        requires
            old(self).wf(),
            Self::offsets_ok(),
            old(outputs)@.len() == TOTAL_OUTPUT_COUNT,
            valid_sample_rate(sample_rate as int),
        ensures
            final(self).wf(),
            final(self).shape == old(self).shape,
            final(self).phase == old(self).phase,
            final(self).frequency == old(self).frequency,
            final(outputs)@.len() == TOTAL_OUTPUT_COUNT,
            forall|v: int|
                0 <= v < MAX_POLY_COUNT ==> #[trigger] final(outputs)@[OUTPUT_OFFSET
                    + LFO_OUT_VALUE + v] as int == lfo_out_s(
                    old(self).shape,
                    old(self).current_phases@[v] as int,
                ),
            forall|v: int|
                0 <= v < MAX_POLY_COUNT ==> #[trigger] final(self).current_phases@[v] as int
                    == fract_s(
                    fp_add_s(
                        old(self).current_phases@[v] as int,
                        phase_inc_s(old(self).frequency as int, sample_rate as int),
                    ),
                ),
            forall|a: int|
                0 <= a < TOTAL_OUTPUT_COUNT && !(OUTPUT_OFFSET + LFO_OUT_VALUE <= a < OUTPUT_OFFSET
                    + LFO_OUT_VALUE + MAX_POLY_COUNT) ==> #[trigger] final(outputs)@[a] == old(
                    outputs,
                )@[a],
            forall|a: int|
                0 <= a < TOTAL_OUTPUT_COUNT && fp_ok(old(outputs)@[a] as int) ==> fp_ok(
                    #[trigger] final(outputs)@[a] as int,
                ),
    {
        let ghost pre = *self;
        let ghost pre_out = outputs@;
        let inc: i64 = ((self.frequency as u64) / (sample_rate as u64)) as i64;
        proof {
            vstd::arithmetic::div_mod::lemma_div_is_ordered(
                0,
                pre.frequency as int,
                sample_rate as int,
            );
            vstd::arithmetic::div_mod::lemma_div_is_ordered_by_denominator(
                pre.frequency as int,
                1,
                sample_rate as int,
            );
            assert((pre.frequency as int) / 1int == pre.frequency as int);
        }
        for v in 0..MAX_POLY_COUNT
            invariant
                self.wf(),
                self.shape == pre.shape,
                self.phase == pre.phase,
                self.frequency == pre.frequency,
                pre.wf(),
                Self::offsets_ok(),
                outputs@.len() == TOTAL_OUTPUT_COUNT,
                pre_out.len() == TOTAL_OUTPUT_COUNT,
                valid_sample_rate(sample_rate as int),
                0 <= inc,
                inc as int == phase_inc_s(pre.frequency as int, sample_rate as int),
                fp_ok(inc as int),
                forall|w: int|
                    0 <= w < v ==> #[trigger] outputs@[OUTPUT_OFFSET + LFO_OUT_VALUE + w] as int
                        == lfo_out_s(pre.shape, pre.current_phases@[w] as int),
                forall|w: int|
                    0 <= w < v ==> #[trigger] self.current_phases@[w] as int == fract_s(
                        fp_add_s(pre.current_phases@[w] as int, inc as int),
                    ),
                forall|w: int|
                    v <= w < MAX_POLY_COUNT ==> #[trigger] self.current_phases@[w]
                        == pre.current_phases@[w],
                forall|a: int|
                    0 <= a < TOTAL_OUTPUT_COUNT && !(OUTPUT_OFFSET + LFO_OUT_VALUE <= a
                        < OUTPUT_OFFSET + LFO_OUT_VALUE + v) ==> #[trigger] outputs@[a]
                        == pre_out[a],
                forall|a: int|
                    0 <= a < TOTAL_OUTPUT_COUNT && fp_ok(pre_out[a] as int) ==> fp_ok(
                        #[trigger] outputs@[a] as int,
                    ),
        {
            let phase = self.current_phases[v];
            let raw = lfo_wave_fp(self.shape, phase);
            let next_phase = fp_fract(fp_add(phase, inc));
            self.current_phases[v] = next_phase;
            outputs[OUTPUT_OFFSET + LFO_OUT_VALUE + v] = fp_mul(raw, LFO_ATTENUATION);
        }
    }
}

} // verus!
