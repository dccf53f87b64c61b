//! The wavetable oscillator bank.
//!
//! Instead of synthesizing a shape, each voice reads a precomputed table of
//! eight 2048-sample frames and linearly interpolates between adjacent
//! samples. The frame is selected by frequency band — higher pitches read a
//! less harmonically rich frame, which is the table's anti-aliasing — and
//! the whole table can be replaced at run time by a single buffer swap, so a
//! drawing tool can stream new tables in without tearing a read.

use vstd::prelude::*;

use crate::analog::{analog_next_phase_s, valid_sample_rate};
use crate::fixed::{
    fp_add, fp_add_s, fp_clip, fp_fract, fp_mul, fp_mul_s, fp_ok, fp_sub, fp_sub_s, fract_s, sat,
    FP_HALF, FP_ONE,
};
use crate::pitch::calculate_freq;
use crate::ports::{
    MAX_POLY_COUNT, TOTAL_INPUT_COUNT, TOTAL_OUTPUT_COUNT, WAVETABLE_AMP_INPUT,
    WAVETABLE_FREQUENCY_INPUT, WAVETABLE_LEVEL_INPUT, WAVETABLE_OUT_VALUE, WAVETABLE_PHASE_INPUT,
    WAVETABLE_TOTAL_INPUT_COUNT, WAVETABLE_TOTAL_OUTPUT_COUNT,
};

verus! {

/// Samples per wavetable frame.
pub const WAVETABLE_FRAME_LENGTH: usize = 2048;

/// Number of frames (harmonic variants) in a table.
pub const WAVETABLE_VARIATION_COUNT: usize = 8;

/// A full multi-frame wavetable buffer.
pub type Wavetable = Vec<i64>;

/// The voltage-to-frame mapping: `(128 v - 30) / 10`, clamped to the frame
/// range.
pub const FRAME_SELECT_OFFSET: i64 = 8053063680;

/// A wavetable holds all eight frames of representable samples.
pub open spec fn wavetable_wf(w: Seq<i64>) -> bool {
    &&& w.len() == WAVETABLE_FRAME_LENGTH * WAVETABLE_VARIATION_COUNT
    &&& forall|i: int| 0 <= i < w.len() ==> fp_ok(#[trigger] w[i] as int)
}

/// Which frame a control voltage selects: rises one frame per ten
/// semitone-steps of voltage above the offset, clamped to `[0, 7]`.
pub open spec fn frame_select_s(voltage: int) -> int {
    let num = 128 * voltage - FRAME_SELECT_OFFSET;
    if num <= 0 {
        0
    } else {
        let q = (num / 10) / (FP_ONE as int);
        if q > 7 {
            7
        } else {
            q
        }
    }
}

/// The interpolated table read: the phase (in turns) scaled to the frame,
/// split into sample index and fraction, read at the selected frame with
/// wraparound, and blended.
pub open spec fn table_read_s(w: Seq<i64>, phase: int, voltage: int) -> int
    recommends
        wavetable_wf(w),
        0 <= phase < FP_ONE,
{
    let variation = frame_select_s(voltage) * (WAVETABLE_FRAME_LENGTH as int);
    let pos = phase * (WAVETABLE_FRAME_LENGTH as int);
    let idx = pos / (FP_ONE as int);
    let frac = pos % (FP_ONE as int);
    let s1 = w[variation + idx] as int;
    let s2 = w[variation + ((idx + 1) % (WAVETABLE_FRAME_LENGTH as int))] as int;
    fp_add_s(s1, fp_mul_s(fp_sub_s(s2, s1), frac))
}

/// What one wavetable voice writes this sample.
pub open spec fn wavetable_out_s(
    w: Seq<i64>,
    level_param: int,
    freq_param: int,
    phase0: int,
    pin: int,
    fin: int,
    lin: int,
    ain: int,
) -> int {
    let level = fp_add_s(level_param, lin);
    let voltage = fp_add_s(freq_param, fin);
    let phase = fract_s(fp_add_s(phase0, pin));
    fp_mul_s(fp_mul_s(table_read_s(w, phase, voltage), level), ain)
}

/// The knob-to-voltage mapping of the frequency parameter:
/// `(knob - 1/2) * 24 / 128`.
pub open spec fn wavetable_freq_param_s(knob: int) -> int {
    fp_mul_s(fp_sub_s(knob, FP_HALF as int), 50331648)
}

/// A polyphonic bank of wavetable oscillators.
pub struct PolyWavetable<const INPUT_OFFSET: usize, const OUTPUT_OFFSET: usize> {
    /// The active table, swapped whole on update.
    pub wavetable: Wavetable,
    /// Base output level, added to the level input.
    pub level: i64,
    /// Base frequency control voltage, added to the frequency input.
    pub frequency: i64,
    /// Base phase offset parameter.
    pub phase: i64,
    /// Per-voice phase accumulators in turns, each in `[0, FP_ONE)`.
    pub current_phases: Vec<i64>,
}

impl<const INPUT_OFFSET: usize, const OUTPUT_OFFSET: usize> PolyWavetable<
    INPUT_OFFSET,
    OUTPUT_OFFSET,
> {
    /// The table is complete and every stored value representable.
    pub open spec fn wf(&self) -> bool {
        &&& wavetable_wf(self.wavetable@)
        &&& self.current_phases@.len() == MAX_POLY_COUNT
        &&& forall|v: int|
            0 <= v < MAX_POLY_COUNT ==> 0 <= #[trigger] self.current_phases@[v] < FP_ONE
        &&& fp_ok(self.level as int)
        &&& fp_ok(self.phase as int)
        &&& fp_ok(self.frequency as int)
    }

    /// The module's ranges lie inside the flat arrays.
    pub open spec fn offsets_ok() -> bool {
        &&& INPUT_OFFSET + WAVETABLE_TOTAL_INPUT_COUNT <= TOTAL_INPUT_COUNT
        &&& OUTPUT_OFFSET + WAVETABLE_TOTAL_OUTPUT_COUNT <= TOTAL_OUTPUT_COUNT
    }

    /// A fresh bank: a silent (all-zero) table, half level, phases at zero.
    pub fn new() -> (r: Self)
        ensures
            r.wf(),
            r.level == FP_HALF,
            r.frequency == 0,
            r.phase == 0,
            forall|v: int| 0 <= v < MAX_POLY_COUNT ==> #[trigger] r.current_phases@[v] == 0,
            forall|i: int| 0 <= i < r.wavetable@.len() ==> #[trigger] r.wavetable@[i] == 0,
    {
        let mut table: Vec<i64> = Vec::new();
        let total = WAVETABLE_FRAME_LENGTH * WAVETABLE_VARIATION_COUNT;
        for i in 0..total
            invariant
                total == WAVETABLE_FRAME_LENGTH * WAVETABLE_VARIATION_COUNT,
                table@.len() == i,
                forall|j: int| 0 <= j < i ==> #[trigger] table@[j] == 0i64,
        {
            table.push(0);
        }
        let mut phases: Vec<i64> = Vec::new();
        for i in 0..MAX_POLY_COUNT
            invariant
                phases@.len() == i,
                forall|j: int| 0 <= j < i ==> #[trigger] phases@[j] == 0i64,
        {
            phases.push(0);
        }
        PolyWavetable {
            wavetable: table,
            level: FP_HALF,
            frequency: 0,
            phase: 0,
            current_phases: phases,
        }
    }

    /// Swap in a whole new table.
    pub fn update_wavetable(&mut self, new_wavetable: Wavetable)
        requires
            wavetable_wf(new_wavetable@),
        ensures
            *final(self) == (PolyWavetable { wavetable: new_wavetable, ..*old(self) }),
    {
        self.wavetable = new_wavetable;
    }

    /// Set the base frequency voltage from a knob value.
    pub fn set_freq_value(&mut self, freq: i64)
        requires
            fp_ok(freq as int),
        ensures
            *final(self) == (PolyWavetable {
                frequency: wavetable_freq_param_s(freq as int) as i64,
                ..*old(self)
            }),
    {
        self.frequency = fp_mul(fp_sub(freq, FP_HALF), 50331648);
    }

    /// Set the base phase offset.
    pub fn set_phase_value(&mut self, phase: i64)
        ensures
            *final(self) == (PolyWavetable { phase: sat(phase as int) as i64, ..*old(self) }),
    {
        self.phase = fp_clip(phase);
    }

    /// Set the base output level.
    pub fn set_level_value(&mut self, level: i64)
        ensures
            *final(self) == (PolyWavetable { level: sat(level as int) as i64, ..*old(self) }),
    {
        self.level = fp_clip(level);
    }

    /// Render one sample for every voice: each voice's output slot receives
    /// exactly the interpolated table value at its modulated phase, scaled
    /// by level and amplitude input, and its phase accumulator advances by
    /// the pitch law's phase increment. No other output is touched.
    pub fn render(&mut self, inputs: &Vec<i64>, outputs: &mut Vec<i64>, sample_rate: u32)
        requires
            old(self).wf(),
            Self::offsets_ok(),
            inputs@.len() == TOTAL_INPUT_COUNT,
            old(outputs)@.len() == TOTAL_OUTPUT_COUNT,
            forall|a: int| 0 <= a < TOTAL_INPUT_COUNT ==> fp_ok(#[trigger] inputs@[a] as int),
            valid_sample_rate(sample_rate as int),
        ensures
            final(self).wf(),
            final(self).wavetable == old(self).wavetable,
            final(self).level == old(self).level,
            final(self).phase == old(self).phase,
            final(self).frequency == old(self).frequency,
            final(outputs)@.len() == TOTAL_OUTPUT_COUNT,
            forall|v: int|
                0 <= v < MAX_POLY_COUNT ==> #[trigger] final(outputs)@[OUTPUT_OFFSET
                    + WAVETABLE_OUT_VALUE + v] as int == wavetable_out_s(
                    old(self).wavetable@,
                    old(self).level as int,
                    old(self).frequency as int,
                    old(self).current_phases@[v] as int,
                    inputs@[INPUT_OFFSET + WAVETABLE_PHASE_INPUT + v] as int,
                    inputs@[INPUT_OFFSET + WAVETABLE_FREQUENCY_INPUT + v] as int,
                    inputs@[INPUT_OFFSET + WAVETABLE_LEVEL_INPUT + v] as int,
                    inputs@[INPUT_OFFSET + WAVETABLE_AMP_INPUT + v] as int,
                ),
            forall|v: int|
                0 <= v < MAX_POLY_COUNT ==> #[trigger] final(self).current_phases@[v] as int
                    == analog_next_phase_s(
                    old(self).frequency as int,
                    old(self).current_phases@[v] as int,
                    inputs@[INPUT_OFFSET + WAVETABLE_FREQUENCY_INPUT + v] as int,
                    sample_rate as int,
                ),
            forall|a: int|
                0 <= a < TOTAL_OUTPUT_COUNT && !(OUTPUT_OFFSET + WAVETABLE_OUT_VALUE <= a
                    < OUTPUT_OFFSET + WAVETABLE_OUT_VALUE + MAX_POLY_COUNT)
                    ==> #[trigger] final(outputs)@[a] == old(outputs)@[a],
            forall|a: int|
                0 <= a < TOTAL_OUTPUT_COUNT && fp_ok(old(outputs)@[a] as int) ==> fp_ok(
                    #[trigger] final(outputs)@[a] as int,
                ),
    {
        let ghost pre = *self;
        let ghost pre_out = outputs@;
        for v in 0..MAX_POLY_COUNT
            invariant
                self.wf(),
                self.wavetable == pre.wavetable,
                self.level == pre.level,
                self.phase == pre.phase,
                self.frequency == pre.frequency,
                pre.wf(),
                Self::offsets_ok(),
                inputs@.len() == TOTAL_INPUT_COUNT,
                outputs@.len() == TOTAL_OUTPUT_COUNT,
                pre_out.len() == TOTAL_OUTPUT_COUNT,
                forall|a: int| 0 <= a < TOTAL_INPUT_COUNT ==> fp_ok(#[trigger] inputs@[a] as int),
                valid_sample_rate(sample_rate as int),
                forall|w: int|
                    0 <= w < v ==> #[trigger] outputs@[OUTPUT_OFFSET + WAVETABLE_OUT_VALUE + w]
                        as int == wavetable_out_s(
                        pre.wavetable@,
                        pre.level as int,
                        pre.frequency as int,
                        pre.current_phases@[w] as int,
                        inputs@[INPUT_OFFSET + WAVETABLE_PHASE_INPUT + w] as int,
                        inputs@[INPUT_OFFSET + WAVETABLE_FREQUENCY_INPUT + w] as int,
                        inputs@[INPUT_OFFSET + WAVETABLE_LEVEL_INPUT + w] as int,
                        inputs@[INPUT_OFFSET + WAVETABLE_AMP_INPUT + w] as int,
                    ),
                forall|w: int|
                    0 <= w < v ==> #[trigger] self.current_phases@[w] as int
                        == analog_next_phase_s(
                        pre.frequency as int,
                        pre.current_phases@[w] as int,
                        inputs@[INPUT_OFFSET + WAVETABLE_FREQUENCY_INPUT + w] as int,
                        sample_rate as int,
                    ),
                forall|w: int|
                    v <= w < MAX_POLY_COUNT ==> #[trigger] self.current_phases@[w]
                        == pre.current_phases@[w],
                forall|a: int|
                    0 <= a < TOTAL_OUTPUT_COUNT && !(OUTPUT_OFFSET + WAVETABLE_OUT_VALUE <= a
                        < OUTPUT_OFFSET + WAVETABLE_OUT_VALUE + v) ==> #[trigger] outputs@[a]
                        == pre_out[a],
                forall|a: int|
                    0 <= a < TOTAL_OUTPUT_COUNT && fp_ok(pre_out[a] as int) ==> fp_ok(
                        #[trigger] outputs@[a] as int,
                    ),
        {
            let phase_input = inputs[INPUT_OFFSET + WAVETABLE_PHASE_INPUT + v];
            let frequency_input = inputs[INPUT_OFFSET + WAVETABLE_FREQUENCY_INPUT + v];
            let level_input = inputs[INPUT_OFFSET + WAVETABLE_LEVEL_INPUT + v];
            let amp_input = inputs[INPUT_OFFSET + WAVETABLE_AMP_INPUT + v];

            let level = fp_add(self.level, level_input);
            let voltage = fp_add(self.frequency, frequency_input);
            let frequency = calculate_freq(voltage);
            let phase = fp_fract(fp_add(self.current_phases[v], phase_input));

            let inc: i64 = ((frequency as u64) / (sample_rate as u64)) as i64;
            proof {
                vstd::arithmetic::div_mod::lemma_div_is_ordered(
                    0,
                    frequency as int,
                    sample_rate as int,
                );
                vstd::arithmetic::div_mod::lemma_div_is_ordered_by_denominator(
                    frequency as int,
                    1,
                    sample_rate as int,
                );
                assert((frequency as int) / 1int == frequency as int);
            }
            let raw = Self::linear_interp(&self.wavetable, phase, voltage);
            let next_phase = fp_fract(fp_add(self.current_phases[v], inc));
            self.current_phases[v] = next_phase;

            let scaled = fp_mul(fp_mul(raw, level), amp_input);
            outputs[OUTPUT_OFFSET + WAVETABLE_OUT_VALUE + v] = scaled;
        }
    }

    /// Read the table at a phase, selecting the frame by voltage and
    /// interpolating between adjacent samples.
    fn linear_interp(wavetable: &Wavetable, current_phase: i64, frequency_voltage: i64) -> (r: i64)
        requires
            wavetable_wf(wavetable@),
            0 <= current_phase < FP_ONE,
            fp_ok(frequency_voltage as int),
        ensures
            r as int == table_read_s(wavetable@, current_phase as int, frequency_voltage as int),
            fp_ok(r as int),
    {
        let num: i64 = 128 * frequency_voltage - FRAME_SELECT_OFFSET;
        let variation: usize = if num <= 0 {
            0
        } else {
            let q: u64 = ((num as u64) / 10) / (FP_ONE as u64);
            if q > 7 {
                7
            } else {
                q as usize
            }
        };
        proof {
            assert((current_phase as int) * (WAVETABLE_FRAME_LENGTH as int) < 549755813888)
                by (nonlinear_arith)
                requires
                    0 <= current_phase < 268435456,
                    WAVETABLE_FRAME_LENGTH == 2048,
            ;
        }
        let pos_q: u64 = (current_phase as u64) * (WAVETABLE_FRAME_LENGTH as u64);
        let idx: usize = (pos_q / (FP_ONE as u64)) as usize;
        let frac: i64 = (pos_q % (FP_ONE as u64)) as i64;
        proof {
            vstd::arithmetic::div_mod::lemma_multiply_divide_lt(
                pos_q as int,
                FP_ONE as int,
                WAVETABLE_FRAME_LENGTH as int,
            );
            assert(pos_q < (FP_ONE as int) * (WAVETABLE_FRAME_LENGTH as int)) by (nonlinear_arith)
                requires
                    pos_q == (current_phase as int) * (WAVETABLE_FRAME_LENGTH as int),
                    0 <= current_phase < FP_ONE,
            ;
            vstd::arithmetic::div_mod::lemma_mod_division_less_than_divisor(
                pos_q as int,
                FP_ONE as int,
            );
        }
        let base: usize = variation * WAVETABLE_FRAME_LENGTH;
        let idx2: usize = (idx + 1) % WAVETABLE_FRAME_LENGTH;
        let s1 = wavetable[base + idx];
        let s2 = wavetable[base + idx2];
        fp_add(s1, fp_mul(fp_sub(s2, s1), frac))
    }
}

} // verus!
