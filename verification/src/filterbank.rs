//! The per-voice resonant low-pass filter bank.
//!
//! A two-pole digital biquad derived from an analog Butterworth prototype by
//! the standard bilinear-transform recipe, with the fixed maximally flat
//! quality factor. The cutoff voltage is clamped to the unit range and
//! mapped through the exponential pitch law; the coefficients are recomputed
//! from it every sample, since the cutoff is freely modulatable. A voice
//! whose value input is exactly zero is bypassed: its output is exactly zero
//! and its two-sample history is left untouched, so silence never churns
//! filter state.

use vstd::prelude::*;

use crate::analog::valid_sample_rate;
use crate::fixed::{
    clamp01_s, fp_add, fp_add_s, fp_clamp01, fp_clip, fp_div, fp_div_s, fp_mul, fp_mul_s, fp_ok,
    fp_sub, fp_sub_s, sat, FP_ONE,
};
use crate::pitch::{calculate_freq, pitch_s};
use crate::ports::{
    FILTER_FREQUENCY_INPUT, FILTER_TOTAL_INPUT_COUNT, FILTER_TOTAL_OUTPUT_COUNT,
    FILTER_VALUE_INPUT, FILTER_VALUE_OUTPUT, MAX_POLY_COUNT, TOTAL_INPUT_COUNT,
    TOTAL_OUTPUT_COUNT,
};
use crate::waves::{lemma_sine_positive, sine_fp, sine_s};

verus! {

/// A quarter cycle in phase units.
pub const FP_QUARTER: i64 = 67108864;

/// The square root of two in fixed point: the Butterworth damping term.
pub const SQRT2_FP: i64 = 379625062;

/// Default cutoff voltage.
pub const FILTER_START_FREQUENCY: i64 = 107374182;

/// Two-sample input and output history of one voice's biquad.
#[derive(Clone, Copy, PartialEq, Eq, Structural, Debug)]
pub struct BufferData {
    pub x_minus: i64,
    pub x_minus2: i64,
    pub y_minus: i64,
    pub y_minus2: i64,
}

/// The history is representable.
pub open spec fn buffer_wf(b: BufferData) -> bool {
    &&& fp_ok(b.x_minus as int)
    &&& fp_ok(b.x_minus2 as int)
    &&& fp_ok(b.y_minus as int)
    &&& fp_ok(b.y_minus2 as int)
}

/// The cutoff as a fraction of a cycle per sample, clamped into the open
/// first quarter so that both the sine and cosine below it are positive.
pub open spec fn filter_phase_s(voltage: int, sr: int) -> int {
    let x = pitch_s(voltage) / (2 * sr);
    if x < 1 {
        1
    } else if x > FP_QUARTER - 1 {
        FP_QUARTER - 1
    } else {
        x
    }
}

/// The bilinear-transform constant `1 / tan(pi f / sr)`, as the cosine over
/// the sine of the cutoff phase.
pub open spec fn filter_c_s(voltage: int, sr: int) -> int {
    let x = filter_phase_s(voltage, sr);
    fp_div_s(sine_s(x + FP_QUARTER), sine_s(x))
}

/// The normalization coefficient `1 / (1 + sqrt(2) c + c^2)`.
pub open spec fn filter_a0_s(c: int) -> int {
    fp_div_s(
        FP_ONE as int,
        fp_add_s(fp_add_s(FP_ONE as int, fp_mul_s(SQRT2_FP as int, c)), fp_mul_s(c, c)),
    )
}

/// The clamped cutoff voltage a voice sees.
pub open spec fn filter_voltage_s(freq_param: int, fin: int) -> int {
    clamp01_s(fp_add_s(freq_param, fin))
}

/// The filter output of one voice: zero on a zero value input, otherwise
/// the direct-form biquad recurrence with coefficients freshly derived from
/// the cutoff.
pub open spec fn filter_out_s(buf: BufferData, x0: int, freq_param: int, fin: int, sr: int) -> int {
    if x0 == 0 {
        0
    } else {
        let c = filter_c_s(filter_voltage_s(freq_param, fin), sr);
        let a0 = filter_a0_s(c);
        let a1 = fp_add_s(a0, a0);
        let b1 = fp_mul_s(fp_add_s(a0, a0), fp_sub_s(FP_ONE as int, fp_mul_s(c, c)));
        let b2 = fp_mul_s(
            a0,
            fp_add_s(fp_sub_s(FP_ONE as int, fp_mul_s(SQRT2_FP as int, c)), fp_mul_s(c, c)),
        );
        fp_sub_s(
            fp_sub_s(
                fp_add_s(
                    fp_add_s(fp_mul_s(x0, a0), fp_mul_s(buf.x_minus as int, a1)),
                    fp_mul_s(buf.x_minus2 as int, a0),
                ),
                fp_mul_s(buf.y_minus as int, b1),
            ),
            fp_mul_s(buf.y_minus2 as int, b2),
        )
    }
}

/// How one voice's history advances: untouched on a zero value input,
/// otherwise shifted by one sample with the new input and output.
pub open spec fn filter_next_buf_s(
    buf: BufferData,
    x0: int,
    freq_param: int,
    fin: int,
    sr: int,
) -> BufferData {
    if x0 == 0 {
        buf
    } else {
        BufferData {
            x_minus2: buf.x_minus,
            x_minus: x0 as i64,
            y_minus2: buf.y_minus,
            y_minus: filter_out_s(buf, x0, freq_param, fin, sr) as i64,
        }
    }
}

/// A polyphonic bank of low-pass biquads.
pub struct PolyFilter<const INPUT_OFFSET: usize, const OUTPUT_OFFSET: usize> {
    /// Base cutoff control voltage.
    pub frequency: i64,
    /// Per-voice biquad history.
    pub buffers: Vec<BufferData>,
}

impl<const INPUT_OFFSET: usize, const OUTPUT_OFFSET: usize> PolyFilter<
    INPUT_OFFSET,
    OUTPUT_OFFSET,
> {
    /// The parameter and every history value are representable.
    pub open spec fn wf(&self) -> bool {
        &&& self.buffers@.len() == MAX_POLY_COUNT
        &&& forall|v: int| 0 <= v < MAX_POLY_COUNT ==> buffer_wf(#[trigger] self.buffers@[v])
        &&& fp_ok(self.frequency as int)
    }

    /// The module's ranges lie inside the flat arrays.
    pub open spec fn offsets_ok() -> bool {
        &&& INPUT_OFFSET + FILTER_TOTAL_INPUT_COUNT <= TOTAL_INPUT_COUNT
        &&& OUTPUT_OFFSET + FILTER_TOTAL_OUTPUT_COUNT <= TOTAL_OUTPUT_COUNT
    }

    /// A fresh bank with cleared history.
    pub fn new() -> (r: Self)
        ensures
            r.wf(),
            r.frequency == FILTER_START_FREQUENCY,
            forall|v: int|
                0 <= v < MAX_POLY_COUNT ==> #[trigger] r.buffers@[v] == (BufferData {
                    x_minus: 0i64,
                    x_minus2: 0i64,
                    y_minus: 0i64,
                    y_minus2: 0i64,
                }),
    {
        let mut buffers: Vec<BufferData> = Vec::new();
        for i in 0..MAX_POLY_COUNT
            invariant
                buffers@.len() == i,
                forall|j: int|
                    0 <= j < i ==> #[trigger] buffers@[j] == (BufferData {
                        x_minus: 0i64,
                        x_minus2: 0i64,
                        y_minus: 0i64,
                        y_minus2: 0i64,
                    }),
        {
            buffers.push(BufferData { x_minus: 0, x_minus2: 0, y_minus: 0, y_minus2: 0 });
        }
        PolyFilter { frequency: FILTER_START_FREQUENCY, buffers }
    }

    /// Set the base cutoff voltage.
    pub fn set_freq_value(&mut self, freq: i64)
        ensures
            *final(self) == (PolyFilter { frequency: sat(freq as int) as i64, ..*old(self) }),
    {
        self.frequency = fp_clip(freq);
    }

    /// Render one sample for every voice: a voice with a zero value input
    /// outputs exactly zero and keeps its history; any other voice outputs
    /// the biquad recurrence at its modulated cutoff and shifts its
    /// history. No other output is touched.
    pub fn render(&mut self, inputs: &Vec<i64>, outputs: &mut Vec<i64>, sample_rate: u32)
        requires
            old(self).wf(),
            Self::offsets_ok(),
            inputs@.len() == TOTAL_INPUT_COUNT,
            old(outputs)@.len() == TOTAL_OUTPUT_COUNT,
            forall|a: int| 0 <= a < TOTAL_INPUT_COUNT ==> fp_ok(#[trigger] inputs@[a] as int),
            valid_sample_rate(sample_rate as int),
        ensures
            final(self).wf(),
            final(self).frequency == old(self).frequency,
            final(outputs)@.len() == TOTAL_OUTPUT_COUNT,
            forall|v: int|
                0 <= v < MAX_POLY_COUNT ==> #[trigger] final(outputs)@[OUTPUT_OFFSET
                    + FILTER_VALUE_OUTPUT + v] as int == filter_out_s(
                    old(self).buffers@[v],
                    inputs@[INPUT_OFFSET + FILTER_VALUE_INPUT + v] as int,
                    old(self).frequency as int,
                    inputs@[INPUT_OFFSET + FILTER_FREQUENCY_INPUT + v] as int,
                    sample_rate as int,
                ),
            forall|v: int|
                0 <= v < MAX_POLY_COUNT ==> #[trigger] final(self).buffers@[v]
                    == filter_next_buf_s(
                    old(self).buffers@[v],
                    inputs@[INPUT_OFFSET + FILTER_VALUE_INPUT + v] as int,
                    old(self).frequency as int,
                    inputs@[INPUT_OFFSET + FILTER_FREQUENCY_INPUT + v] as int,
                    sample_rate as int,
                ),
            forall|v: int|
                0 <= v < MAX_POLY_COUNT && inputs@[INPUT_OFFSET + FILTER_VALUE_INPUT + v] == 0
                    ==> #[trigger] final(outputs)@[OUTPUT_OFFSET + FILTER_VALUE_OUTPUT + v] == 0i64
                    && final(self).buffers@[v] == old(self).buffers@[v],
            forall|a: int|
                0 <= a < TOTAL_OUTPUT_COUNT && !(OUTPUT_OFFSET + FILTER_VALUE_OUTPUT <= a
                    < OUTPUT_OFFSET + FILTER_VALUE_OUTPUT + MAX_POLY_COUNT)
                    ==> #[trigger] final(outputs)@[a] == old(outputs)@[a],
            forall|a: int|
                0 <= a < TOTAL_OUTPUT_COUNT && fp_ok(old(outputs)@[a] as int) ==> fp_ok(
                    #[trigger] final(outputs)@[a] as int,
                ),
    {
        let ghost pre = *self;
        let ghost pre_out = outputs@;
        for v in 0..MAX_POLY_COUNT
            invariant
                self.wf(),
                self.frequency == pre.frequency,
                pre.wf(),
                Self::offsets_ok(),
                inputs@.len() == TOTAL_INPUT_COUNT,
                outputs@.len() == TOTAL_OUTPUT_COUNT,
                pre_out.len() == TOTAL_OUTPUT_COUNT,
                forall|a: int| 0 <= a < TOTAL_INPUT_COUNT ==> fp_ok(#[trigger] inputs@[a] as int),
                valid_sample_rate(sample_rate as int),
                forall|w: int|
                    0 <= w < v ==> #[trigger] outputs@[OUTPUT_OFFSET + FILTER_VALUE_OUTPUT + w]
                        as int == filter_out_s(
                        pre.buffers@[w],
                        inputs@[INPUT_OFFSET + FILTER_VALUE_INPUT + w] as int,
                        pre.frequency as int,
                        inputs@[INPUT_OFFSET + FILTER_FREQUENCY_INPUT + w] as int,
                        sample_rate as int,
                    ),
                forall|w: int|
                    0 <= w < v ==> #[trigger] self.buffers@[w] == filter_next_buf_s(
                        pre.buffers@[w],
                        inputs@[INPUT_OFFSET + FILTER_VALUE_INPUT + w] as int,
                        pre.frequency as int,
                        inputs@[INPUT_OFFSET + FILTER_FREQUENCY_INPUT + w] as int,
                        sample_rate as int,
                    ),
                forall|w: int|
                    v <= w < MAX_POLY_COUNT ==> #[trigger] self.buffers@[w] == pre.buffers@[w],
                forall|a: int|
                    0 <= a < TOTAL_OUTPUT_COUNT && !(OUTPUT_OFFSET + FILTER_VALUE_OUTPUT <= a
                        < OUTPUT_OFFSET + FILTER_VALUE_OUTPUT + v) ==> #[trigger] outputs@[a]
                        == pre_out[a],
                forall|a: int|
                    0 <= a < TOTAL_OUTPUT_COUNT && fp_ok(pre_out[a] as int) ==> fp_ok(
                        #[trigger] outputs@[a] as int,
                    ),
        {
            let value_input = inputs[INPUT_OFFSET + FILTER_VALUE_INPUT + v];
            if value_input != 0 {
                let frequency_input = inputs[INPUT_OFFSET + FILTER_FREQUENCY_INPUT + v];
                let voltage = fp_clamp01(fp_add(self.frequency, frequency_input));
                let frequency = calculate_freq(voltage);

                let xq: u64 = (frequency as u64) / (2 * (sample_rate as u64));
                proof {
                    vstd::arithmetic::div_mod::lemma_div_is_ordered(
                        0,
                        frequency as int,
                        2 * (sample_rate as int),
                    );
                    vstd::arithmetic::div_mod::lemma_div_is_ordered_by_denominator(
                        frequency as int,
                        1,
                        2 * (sample_rate as int),
                    );
                    assert((frequency as int) / 1int == frequency as int);
                }
                let x: i64 = if xq < 1 {
                    1
                } else if xq > (FP_QUARTER - 1) as u64 {
                    FP_QUARTER - 1
                } else {
                    xq as i64
                };
                let sin_v = sine_fp(x);
                let cos_v = sine_fp(x + FP_QUARTER);
                proof {
                    lemma_sine_positive(x as int);
                }
                let c = fp_div(cos_v, sin_v);
                let denom = fp_add(fp_add(FP_ONE, fp_mul(SQRT2_FP, c)), fp_mul(c, c));
                proof {
                    assert(fp_mul_s(c as int, c as int) >= 0) by {
                        assert((c as int) * (c as int) >= 0) by (nonlinear_arith);
                        vstd::arithmetic::div_mod::lemma_div_is_ordered(
                            0,
                            (c as int) * (c as int),
                            FP_ONE as int,
                        );
                    }
                    assert(fp_mul_s(SQRT2_FP as int, c as int) >= 0) by {
                        assert((SQRT2_FP as int) * (c as int) >= 0) by (nonlinear_arith)
                            requires
                                c >= 0,
                                SQRT2_FP == 379625062,
                        ;
                        vstd::arithmetic::div_mod::lemma_div_is_ordered(
                            0,
                            (SQRT2_FP as int) * (c as int),
                            FP_ONE as int,
                        );
                    }
                }
                let a0 = fp_div(FP_ONE, denom);
                let a1 = fp_add(a0, a0);
                let b1 = fp_mul(a1, fp_sub(FP_ONE, fp_mul(c, c)));
                let b2 = fp_mul(a0, fp_add(fp_sub(FP_ONE, fp_mul(SQRT2_FP, c)), fp_mul(c, c)));

                let buf = self.buffers[v];
                let output_value = fp_sub(
                    fp_sub(
                        fp_add(
                            fp_add(fp_mul(value_input, a0), fp_mul(buf.x_minus, a1)),
                            fp_mul(buf.x_minus2, a0),
                        ),
                        fp_mul(buf.y_minus, b1),
                    ),
                    fp_mul(buf.y_minus2, b2),
                );

                self.buffers[v] = BufferData {
                    x_minus2: buf.x_minus,
                    x_minus: value_input,
                    y_minus2: buf.y_minus,
                    y_minus: output_value,
                };
                outputs[OUTPUT_OFFSET + FILTER_VALUE_OUTPUT + v] = output_value;
            } else {
                outputs[OUTPUT_OFFSET + FILTER_VALUE_OUTPUT + v] = 0;
            }
        }
    }
}

} // verus!
