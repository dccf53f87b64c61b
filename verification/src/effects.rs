//! The post-mix effects chain: distortion, feedback delay, stereo reverb.
//!
//! Unlike the modular core, the chain is a fixed pipeline: the summed voice
//! signal is soft-clipped, fed through a single-tap feedback delay line, and
//! folded into a stereo pair by a bank of eight parallel feedback comb
//! filters followed by four series all-pass filters per channel — the
//! classic Schroeder topology, with one-pole damping in each comb's feedback
//! path, an LFO-modulated comb read offset against metallic ringing, and a
//! fixed length offset on the right channel for stereo decorrelation. The
//! master gain is applied between the delay and the reverb.

use vstd::prelude::*;

use crate::analog::valid_sample_rate;
use crate::fixed::{
    clamp01_s, fp_add, fp_add_s, fp_clamp01, fp_clip, fp_div, fp_div_s, fp_mul, fp_mul_s, fp_ok,
    fp_sub, fp_sub_s, fract_s, sat, tdiv, FP_HALF, FP_ONE, FP_SAT,
};
use crate::ports::{MAX_POLY_COUNT, TOTAL_INPUT_COUNT};
use crate::ring::RingBuf;
use crate::waves::triangle_s;

verus! {

/// Comb feedback default: 0.98.
pub const COMB_FB: i64 = 263066746;

/// Comb damping default: 0.1.
pub const COMB_DAMP: i64 = 26843546;

/// All-pass feedback: 0.5.
pub const ALLPASS_FB: i64 = 134217728;

/// Comb delay lengths, left channel.
pub const COMB_N0: usize = 1557;

pub const COMB_N1: usize = 1617;

pub const COMB_N2: usize = 1491;

pub const COMB_N3: usize = 1422;

pub const COMB_N4: usize = 1277;

pub const COMB_N5: usize = 1356;

pub const COMB_N6: usize = 1188;

pub const COMB_N7: usize = 1116;

/// All-pass delay lengths.
pub const ALLPASS_N0: usize = 225;

pub const ALLPASS_N1: usize = 556;

pub const ALLPASS_N2: usize = 441;

pub const ALLPASS_N3: usize = 341;

/// Default stereo length offset of the right channel.
pub const INIT_SPREAD: usize = 23;

/// Largest stereo spread a knob can set.
pub const MAX_SPREAD: usize = 100;

/// Width of the comb modulation window, in samples.
pub const MOD_RANGE: usize = 20;

/// Extra ring capacity beyond a filter's nominal length: half the
/// modulation window, the largest spread, and the freshly pushed sample.
pub const RING_SLACK: usize = 111;

/// Comb modulation LFO frequency: 3 Hz.
pub const MOD_FREQ: i64 = 805306368;

/// One sixteenth, the reverb input attenuation.
pub const SIXTEENTH: i64 = 16777216;

/// Capacity of the delay line: the longest settable tap plus one.
pub const DELAY_BUFFER_CAPACITY: usize = 384001;

/// Default delay tap, in samples.
pub const DELAY_START_INDEX: usize = 24000;

/// Default delay feedback: 0.7.
pub const DELAY_START_FEEDBACK: i64 = 187904819;

/// Default master gain: 0.7.
pub const MASTER_START_GAIN: i64 = 187904819;

/// `e^(-x)` for a non-negative argument, by the rational approximation
/// `1 / (1 + x + x^2/2 + x^3/6)`: exactly one at zero, within the unit
/// range everywhere, and monotone in the argument.
pub open spec fn exp_neg_s(x: int) -> int
    recommends
        0 <= x,
{
    let x2 = fp_mul_s(x, x);
    let x3 = fp_mul_s(x2, x);
    let denom = fp_add_s(fp_add_s(fp_add_s(FP_ONE as int, x), x2 / 2), x3 / 6);
    fp_div_s(FP_ONE as int, denom)
}

/// `e^(-x)`, evaluated exactly against the approximation spec.
pub fn exp_neg(x: i64) -> (r: i64)
    requires
        0 <= x <= FP_SAT,
    ensures
        r == exp_neg_s(x as int),
        0 <= r <= FP_ONE,
{
    let x2 = fp_mul(x, x);
    let x3 = fp_mul(x2, x);
    proof {
        vstd::arithmetic::div_mod::lemma_div_is_ordered(0, x2 as int, 2);
        vstd::arithmetic::div_mod::lemma_div_is_ordered(x2 as int, FP_SAT as int, 2);
        vstd::arithmetic::div_mod::lemma_div_is_ordered(0, x3 as int, 6);
        vstd::arithmetic::div_mod::lemma_div_is_ordered(x3 as int, FP_SAT as int, 6);
    }
    let h2: i64 = ((x2 as u64) / 2) as i64;
    let h3: i64 = ((x3 as u64) / 6) as i64;
    let denom = fp_add(fp_add(fp_add(FP_ONE, x), h2), h3);
    let r = fp_div(FP_ONE, denom);
    proof {
        vstd::arithmetic::div_mod::lemma_div_is_ordered(
            0,
            (FP_ONE as int) * (FP_ONE as int),
            denom as int,
        );
        vstd::arithmetic::div_mod::lemma_multiply_divide_lt(
            (FP_ONE as int) * (FP_ONE as int),
            denom as int,
            FP_ONE + 1,
        );
        assert((FP_ONE as int) * (FP_ONE as int) < (denom as int) * ((FP_ONE + 1) as int))
            by (nonlinear_arith)
            requires
                denom >= FP_ONE,
                FP_ONE == 268435456,
        ;
    }
    r
}

/// The soft-clip distortion: a drive-scaled exponential saturator,
/// cross-faded against the dry signal by the wet amount.
#[derive(Clone, Copy, PartialEq, Eq, Structural, Debug)]
pub struct Distortion {
    /// Dry/wet cross-fade.
    pub wet: i64,
    /// Input gain into the saturator.
    pub drive: i64,
}

/// The distortion parameters are representable.
pub open spec fn distortion_wf(d: Distortion) -> bool {
    fp_ok(d.wet as int) && fp_ok(d.drive as int)
}

/// The distortion output: `sign(d) * (1 - e^(-|d|))` for the driven sample
/// `d`, mixed with the dry input by the wet amount.
pub open spec fn dist_out_s(d: Distortion, input: int) -> int {
    let driven = fp_mul_s(d.drive as int, input);
    let mag = if driven >= 0 {
        driven
    } else {
        -driven
    };
    let clipped = fp_sub_s(FP_ONE as int, exp_neg_s(mag));
    let wet_value = if driven >= 0 {
        clipped
    } else {
        -clipped
    };
    fp_add_s(input, fp_mul_s(fp_sub_s(wet_value, input), d.wet as int))
}

impl Distortion {
    /// A transparent distortion: unity drive, fully dry.
    pub fn new() -> (r: Distortion)
        ensures
            r.wet == 0,
            r.drive == FP_ONE,
            distortion_wf(r),
    {
        Distortion { wet: 0, drive: FP_ONE }
    }

    /// One sample through the saturator.
    pub fn render(&self, input: i64) -> (r: i64)
        requires
            distortion_wf(*self),
            fp_ok(input as int),
        ensures
            r == dist_out_s(*self, input as int),
            fp_ok(r as int),
    {
        let driven = fp_mul(self.drive, input);
        let mag = if driven >= 0 {
            driven
        } else {
            -driven
        };
        let clipped = fp_sub(FP_ONE, exp_neg(mag));
        let wet_value = if driven >= 0 {
            clipped
        } else {
            -clipped
        };
        fp_add(input, fp_mul(fp_sub(wet_value, input), self.wet))
    }
}

/// Abstract state of the feedback delay line.
pub struct DelayView {
    pub wet: i64,
    pub feedback: i64,
    pub delay_index: int,
    pub buffer: Seq<i64>,
}

/// The single-tap feedback delay line.
pub struct Delay {
    /// Dry/wet cross-fade.
    pub wet: i64,
    /// How much of the fed-back mix re-enters the line.
    pub feedback: i64,
    /// The tap, in samples.
    pub delay_index: usize,
    /// The delay line itself.
    pub buffer: RingBuf,
}

impl View for Delay {
    type V = DelayView;

    closed spec fn view(&self) -> DelayView {
        DelayView {
            wet: self.wet,
            feedback: self.feedback,
            delay_index: self.delay_index as int,
            buffer: self.buffer@,
        }
    }
}

/// The sample the tap reads: zero while the line has not filled that far.
pub open spec fn delay_tap_s(dv: DelayView) -> int {
    if dv.delay_index < dv.buffer.len() {
        dv.buffer[dv.delay_index] as int
    } else {
        0
    }
}

/// The delay output: the tap cross-faded against the dry input.
pub open spec fn delay_out_s(dv: DelayView, input: int) -> int {
    fp_add_s(input, fp_mul_s(fp_sub_s(delay_tap_s(dv), input), dv.wet as int))
}

/// The line after one sample: the feedback-scaled mix of input and tap is
/// pushed, and anything older than the tap is dropped.
pub open spec fn delay_next_buffer_s(dv: DelayView, input: int) -> Seq<i64> {
    let taken = if dv.delay_index < dv.buffer.len() {
        dv.delay_index
    } else {
        dv.buffer.len() as int
    };
    seq![fp_mul_s(fp_add_s(input, delay_tap_s(dv)), dv.feedback as int) as i64] + dv.buffer.take(
        taken,
    )
}

impl Delay {
    /// The tap fits the line and the parameters are representable.
    pub open spec fn wf(&self) -> bool {
        &&& self.buffer.wf()
        &&& self.buffer.capacity() == DELAY_BUFFER_CAPACITY
        &&& self@.delay_index < DELAY_BUFFER_CAPACITY
        &&& fp_ok(self.wet as int)
        &&& fp_ok(self.feedback as int)
    }

    /// A transparent delay: half-second tap at 48k, fully dry.
    pub fn new() -> (r: Delay)
        ensures
            r.wf(),
            r@.wet == 0,
            r@.feedback == DELAY_START_FEEDBACK,
            r@.delay_index == DELAY_START_INDEX,
            r@.buffer == Seq::<i64>::empty(),
    {
        Delay {
            wet: 0,
            feedback: DELAY_START_FEEDBACK,
            delay_index: DELAY_START_INDEX,
            buffer: RingBuf::new(DELAY_BUFFER_CAPACITY),
        }
    }

    /// Move the tap, dropping samples older than the new tap.
    pub fn set_delay_index(&mut self, delay_index: usize)
        requires
            old(self).wf(),
            delay_index < DELAY_BUFFER_CAPACITY,
        ensures
            final(self).wf(),
            final(self)@.wet == old(self)@.wet,
            final(self)@.feedback == old(self)@.feedback,
            final(self)@.delay_index == delay_index,
            final(self)@.buffer == old(self)@.buffer.take(
                if delay_index < old(self)@.buffer.len() {
                    delay_index as int
                } else {
                    old(self)@.buffer.len() as int
                },
            ),
    {
        self.delay_index = delay_index;
        self.buffer.truncate(delay_index);
    }

    /// One sample through the line.
    pub fn render(&mut self, input: i64) -> (r: i64)
        requires
            old(self).wf(),
            fp_ok(input as int),
        ensures
            final(self).wf(),
            r == delay_out_s(old(self)@, input as int),
            fp_ok(r as int),
            final(self)@.wet == old(self)@.wet,
            final(self)@.feedback == old(self)@.feedback,
            final(self)@.delay_index == old(self)@.delay_index,
            final(self)@.buffer == delay_next_buffer_s(old(self)@, input as int),
    {
        let wet_value = self.buffer.read(self.delay_index);
        let out_value = fp_add(input, fp_mul(fp_sub(wet_value, input), self.wet));
        self.buffer.truncate(self.delay_index);
        self.buffer.push_front(fp_mul(fp_add(input, wet_value), self.feedback));
        out_value
    }
}


/// Abstract state of one feedback comb filter.
pub struct CombView {
    pub buf: Seq<i64>,
    pub state: i64,
}

/// One feedback comb filter: a delay line with one-pole damping in its
/// feedback path.
pub struct Comb {
    /// The delay line, newest sample first.
    pub buf: RingBuf,
    /// The one-pole damping filter's state.
    pub state: i64,
}

impl View for Comb {
    type V = CombView;

    closed spec fn view(&self) -> CombView {
        CombView { buf: self.buf@, state: self.state }
    }
}

/// A windowed read: zero outside the filled part of the line.
pub open spec fn ring_read_s(buf: Seq<i64>, idx: int) -> int {
    if 0 <= idx < buf.len() {
        buf[idx] as int
    } else {
        0
    }
}

/// The damping filter's next state: a one-pole blend of the delayed sample
/// into the old state.
pub open spec fn comb_state_s(cv: CombView, y: int, damp: int) -> int {
    fp_add_s(fp_mul_s(fp_sub_s(FP_ONE as int, damp), y), fp_mul_s(damp, cv.state as int))
}

/// The comb output: the input plus the feedback-scaled damped tap, read at
/// the modulated offset.
pub open spec fn comb_out_s(cv: CombView, input: int, fb: int, n: int, m: int, damp: int) -> int {
    let y = ring_read_s(cv.buf, n - 1 + m);
    fp_add_s(input, fp_mul_s(fb, comb_state_s(cv, y, damp)))
}

/// The comb after one sample: state advanced, output pushed, window kept to
/// the nominal length plus half the modulation range.
pub open spec fn comb_next_s(cv: CombView, input: int, fb: int, n: int, m: int, damp: int) -> CombView {
    let y = ring_read_s(cv.buf, n - 1 + m);
    let st = comb_state_s(cv, y, damp);
    let out = fp_add_s(input, fp_mul_s(fb, st));
    let keep = n - 1 + (MOD_RANGE as int) / 2;
    let taken = if keep < cv.buf.len() {
        keep
    } else {
        cv.buf.len() as int
    };
    CombView { buf: seq![out as i64] + cv.buf.take(taken), state: st as i64 }
}

impl Comb {
    /// The line is well formed and the damping state representable.
    pub open spec fn wf(&self) -> bool {
        self.buf.wf() && fp_ok(self.state as int)
    }

    /// An empty comb over a line of the given capacity.
    pub fn new(cap: usize) -> (r: Comb)
        requires
            1 <= cap <= 0x10000000,
        ensures
            r.wf(),
            r.buf.capacity() == cap,
            r@.buf == Seq::<i64>::empty(),
            r@.state == 0,
    {
        Comb { buf: RingBuf::new(cap), state: 0 }
    }

    /// One sample through the comb at nominal length `n`, with the read tap
    /// shifted by the modulation offset `m`.
    pub fn process(&mut self, input: i64, fb: i64, n: usize, m: i64, damp: i64) -> (out: i64)
        requires
            old(self).wf(),
            fp_ok(input as int),
            fp_ok(fb as int),
            fp_ok(damp as int),
            11 <= n,
            n + 10 < old(self).buf.capacity(),
            -10 <= m <= 10,
        ensures
            final(self).wf(),
            final(self).buf.capacity() == old(self).buf.capacity(),
            out == comb_out_s(old(self)@, input as int, fb as int, n as int, m as int, damp as int),
            fp_ok(out as int),
            final(self)@ == comb_next_s(
                old(self)@,
                input as int,
                fb as int,
                n as int,
                m as int,
                damp as int,
            ),
    {
        proof {
            self.buf.lemma_capacity_bound();
        }
        let idx: usize = ((n as i64 - 1) + m) as usize;
        let y = self.buf.read(idx);
        let st = fp_add(fp_mul(fp_sub(FP_ONE, damp), y), fp_mul(damp, self.state));
        self.state = st;
        let out = fp_add(input, fp_mul(fb, st));
        self.buf.truncate(n - 1 + MOD_RANGE / 2);
        self.buf.push_front(out);
        out
    }
}

/// One all-pass diffusion filter.
pub struct AllPass {
    /// The delay line, newest sample first.
    pub buf: RingBuf,
}

impl View for AllPass {
    type V = Seq<i64>;

    closed spec fn view(&self) -> Seq<i64> {
        self.buf@
    }
}

/// The all-pass output: the negated feed-forward plus the line's tail.
pub open spec fn allpass_out_s(buf: Seq<i64>, input: int, fb: int, n: int) -> int {
    fp_add_s(fp_mul_s(-fb, input), ring_read_s(buf, n - 1))
}

/// The all-pass line after one sample.
pub open spec fn allpass_next_s(buf: Seq<i64>, input: int, fb: int, n: int) -> Seq<i64> {
    let fed = fp_add_s(input, fp_mul_s(ring_read_s(buf, n - 1), fb));
    let keep = n - 1;
    let taken = if keep < buf.len() {
        keep
    } else {
        buf.len() as int
    };
    seq![fed as i64] + buf.take(taken)
}

impl AllPass {
    /// The line is well formed.
    pub open spec fn wf(&self) -> bool {
        self.buf.wf()
    }

    /// An empty all-pass over a line of the given capacity.
    pub fn new(cap: usize) -> (r: AllPass)
        requires
            1 <= cap <= 0x10000000,
        ensures
            r.wf(),
            r.buf.capacity() == cap,
            r@ == Seq::<i64>::empty(),
    {
        AllPass { buf: RingBuf::new(cap) }
    }

    /// One sample through the all-pass at length `n`.
    pub fn process(&mut self, input: i64, fb: i64, n: usize) -> (out: i64)
        requires
            old(self).wf(),
            fp_ok(input as int),
            fp_ok(fb as int),
            1 <= n,
            n < old(self).buf.capacity(),
        ensures
            final(self).wf(),
            final(self).buf.capacity() == old(self).buf.capacity(),
            out == allpass_out_s(old(self)@, input as int, fb as int, n as int),
            fp_ok(out as int),
            final(self)@ == allpass_next_s(old(self)@, input as int, fb as int, n as int),
    {
        let bufout = self.buf.read(n - 1);
        let out = fp_add(fp_mul(-fb, input), bufout);
        self.buf.truncate(n - 1);
        self.buf.push_front(fp_add(input, fp_mul(bufout, fb)));
        out
    }
}

/// Abstract state of the whole reverb.
pub struct ReverbView {
    pub wet1: i64,
    pub wet2: i64,
    pub dry: i64,
    pub damp: i64,
    pub width: i64,
    pub space: i64,
    pub stereo_spread: int,
    pub lfo_phase: i64,
    pub lfo_step: i64,
    pub combs_l: Seq<CombView>,
    pub combs_r: Seq<CombView>,
    pub aps_l: Seq<Seq<i64>>,
    pub aps_r: Seq<Seq<i64>>,
}

/// Nominal comb length of lane `i`.
pub open spec fn comb_n(i: int) -> int {
    if i == 0 {
        COMB_N0 as int
    } else if i == 1 {
        COMB_N1 as int
    } else if i == 2 {
        COMB_N2 as int
    } else if i == 3 {
        COMB_N3 as int
    } else if i == 4 {
        COMB_N4 as int
    } else if i == 5 {
        COMB_N5 as int
    } else if i == 6 {
        COMB_N6 as int
    } else {
        COMB_N7 as int
    }
}

/// Nominal all-pass length of stage `i`.
pub open spec fn allpass_n(i: int) -> int {
    if i == 0 {
        ALLPASS_N0 as int
    } else if i == 1 {
        ALLPASS_N1 as int
    } else if i == 2 {
        ALLPASS_N2 as int
    } else {
        ALLPASS_N3 as int
    }
}

/// The reverb input after its fixed attenuation.
pub open spec fn reverb_scaled_s(input: int) -> int {
    fp_mul_s(input, SIXTEENTH as int)
}

/// This sample's comb modulation offset, from the triangle LFO.
pub open spec fn reverb_mod_s(rv: ReverbView) -> int {
    tdiv(10 * triangle_s(rv.lfo_phase as int), FP_ONE as int)
}

/// The accumulating sum of the first `k` combs of a channel, at lengths
/// offset by `sp`.
pub open spec fn comb_sum_s(
    combs: Seq<CombView>,
    scaled: int,
    fb: int,
    sp: int,
    m: int,
    d: int,
    k: int,
) -> int
    decreases k,
{
    if k <= 0 {
        0
    } else {
        fp_add_s(
            comb_sum_s(combs, scaled, fb, sp, m, d, k - 1),
            comb_out_s(combs[k - 1], scaled, fb, comb_n(k - 1) + sp, m, d),
        )
    }
}

/// The all-pass cascade: the value after the first `k` stages of a
/// channel, at lengths offset by `sp`.
pub open spec fn ap_chain_s(aps: Seq<Seq<i64>>, x: int, sp: int, k: int) -> int
    decreases k,
{
    if k <= 0 {
        x
    } else {
        allpass_out_s(aps[k - 1], ap_chain_s(aps, x, sp, k - 1), ALLPASS_FB as int, allpass_n(k - 1) + sp)
    }
}

/// The wet value of one reverb channel: eight parallel combs summed, then
/// four series all-pass stages.
pub open spec fn reverb_wet_s(
    combs: Seq<CombView>,
    aps: Seq<Seq<i64>>,
    scaled: int,
    fb: int,
    sp: int,
    m: int,
    d: int,
) -> int {
    ap_chain_s(aps, comb_sum_s(combs, scaled, fb, sp, m, d, 8), sp, 4)
}

/// The left output this sample.
pub open spec fn reverb_left_s(rv: ReverbView, input: int) -> int {
    let scaled = reverb_scaled_s(input);
    let m = reverb_mod_s(rv);
    let wl = reverb_wet_s(rv.combs_l, rv.aps_l, scaled, rv.space as int, 0, m, rv.damp as int);
    let wr = reverb_wet_s(
        rv.combs_r,
        rv.aps_r,
        scaled,
        rv.space as int,
        rv.stereo_spread,
        m,
        rv.damp as int,
    );
    fp_add_s(
        fp_add_s(fp_mul_s(wl, rv.wet1 as int), fp_mul_s(wr, rv.wet2 as int)),
        fp_mul_s(input, rv.dry as int),
    )
}

/// The right output this sample.
pub open spec fn reverb_right_s(rv: ReverbView, input: int) -> int {
    let scaled = reverb_scaled_s(input);
    let m = reverb_mod_s(rv);
    let wl = reverb_wet_s(rv.combs_l, rv.aps_l, scaled, rv.space as int, 0, m, rv.damp as int);
    let wr = reverb_wet_s(
        rv.combs_r,
        rv.aps_r,
        scaled,
        rv.space as int,
        rv.stereo_spread,
        m,
        rv.damp as int,
    );
    fp_add_s(
        fp_add_s(fp_mul_s(wr, rv.wet1 as int), fp_mul_s(wl, rv.wet2 as int)),
        fp_mul_s(input, rv.dry as int),
    )
}

/// A channel's combs after one sample, each advanced independently.
pub open spec fn combs_next_s(
    combs: Seq<CombView>,
    scaled: int,
    fb: int,
    sp: int,
    m: int,
    d: int,
) -> Seq<CombView> {
    Seq::new(combs.len(), |i: int| comb_next_s(combs[i], scaled, fb, comb_n(i) + sp, m, d))
}

/// A channel's all-pass lines after one sample, each fed the cascade value
/// ahead of it.
pub open spec fn aps_next_s(aps: Seq<Seq<i64>>, x: int, sp: int) -> Seq<Seq<i64>> {
    Seq::new(
        aps.len(),
        |i: int| allpass_next_s(aps[i], ap_chain_s(aps, x, sp, i), ALLPASS_FB as int, allpass_n(i) + sp),
    )
}

/// The multi-tap stereo reverb.
pub struct Reverb {
    pub wet1: i64,
    pub wet2: i64,
    pub dry: i64,
    pub damp: i64,
    pub width: i64,
    pub space: i64,
    pub stereo_spread: usize,
    pub lfo_current_phase: i64,
    pub lfo_phase_step: i64,
    pub comb_l0: Comb,
    pub comb_l1: Comb,
    pub comb_l2: Comb,
    pub comb_l3: Comb,
    pub comb_l4: Comb,
    pub comb_l5: Comb,
    pub comb_l6: Comb,
    pub comb_l7: Comb,
    pub comb_r0: Comb,
    pub comb_r1: Comb,
    pub comb_r2: Comb,
    pub comb_r3: Comb,
    pub comb_r4: Comb,
    pub comb_r5: Comb,
    pub comb_r6: Comb,
    pub comb_r7: Comb,
    pub ap_l0: AllPass,
    pub ap_l1: AllPass,
    pub ap_l2: AllPass,
    pub ap_l3: AllPass,
    pub ap_r0: AllPass,
    pub ap_r1: AllPass,
    pub ap_r2: AllPass,
    pub ap_r3: AllPass,
}

impl View for Reverb {
    type V = ReverbView;

    closed spec fn view(&self) -> ReverbView {
        ReverbView {
            wet1: self.wet1,
            wet2: self.wet2,
            dry: self.dry,
            damp: self.damp,
            width: self.width,
            space: self.space,
            stereo_spread: self.stereo_spread as int,
            lfo_phase: self.lfo_current_phase,
            lfo_step: self.lfo_phase_step,
            combs_l: seq![
                self.comb_l0@, self.comb_l1@, self.comb_l2@, self.comb_l3@, self.comb_l4@,
                self.comb_l5@, self.comb_l6@, self.comb_l7@,
            ],
            combs_r: seq![
                self.comb_r0@, self.comb_r1@, self.comb_r2@, self.comb_r3@, self.comb_r4@,
                self.comb_r5@, self.comb_r6@, self.comb_r7@,
            ],
            aps_l: seq![self.ap_l0@, self.ap_l1@, self.ap_l2@, self.ap_l3@],
            aps_r: seq![self.ap_r0@, self.ap_r1@, self.ap_r2@, self.ap_r3@],
        }
    }
}

impl Reverb {
    /// Every line is well formed at its fixed capacity, the spread stays in
    /// its knob range, and the modulation phase is a valid phase.
    pub open spec fn wf(&self) -> bool {
        &&& self.comb_l0.wf() && self.comb_l0.buf.capacity() == COMB_N0 + RING_SLACK
        &&& self.comb_l1.wf() && self.comb_l1.buf.capacity() == COMB_N1 + RING_SLACK
        &&& self.comb_l2.wf() && self.comb_l2.buf.capacity() == COMB_N2 + RING_SLACK
        &&& self.comb_l3.wf() && self.comb_l3.buf.capacity() == COMB_N3 + RING_SLACK
        &&& self.comb_l4.wf() && self.comb_l4.buf.capacity() == COMB_N4 + RING_SLACK
        &&& self.comb_l5.wf() && self.comb_l5.buf.capacity() == COMB_N5 + RING_SLACK
        &&& self.comb_l6.wf() && self.comb_l6.buf.capacity() == COMB_N6 + RING_SLACK
        &&& self.comb_l7.wf() && self.comb_l7.buf.capacity() == COMB_N7 + RING_SLACK
        &&& self.comb_r0.wf() && self.comb_r0.buf.capacity() == COMB_N0 + RING_SLACK
        &&& self.comb_r1.wf() && self.comb_r1.buf.capacity() == COMB_N1 + RING_SLACK
        &&& self.comb_r2.wf() && self.comb_r2.buf.capacity() == COMB_N2 + RING_SLACK
        &&& self.comb_r3.wf() && self.comb_r3.buf.capacity() == COMB_N3 + RING_SLACK
        &&& self.comb_r4.wf() && self.comb_r4.buf.capacity() == COMB_N4 + RING_SLACK
        &&& self.comb_r5.wf() && self.comb_r5.buf.capacity() == COMB_N5 + RING_SLACK
        &&& self.comb_r6.wf() && self.comb_r6.buf.capacity() == COMB_N6 + RING_SLACK
        &&& self.comb_r7.wf() && self.comb_r7.buf.capacity() == COMB_N7 + RING_SLACK
        &&& self.ap_l0.wf() && self.ap_l0.buf.capacity() == ALLPASS_N0 + RING_SLACK
        &&& self.ap_l1.wf() && self.ap_l1.buf.capacity() == ALLPASS_N1 + RING_SLACK
        &&& self.ap_l2.wf() && self.ap_l2.buf.capacity() == ALLPASS_N2 + RING_SLACK
        &&& self.ap_l3.wf() && self.ap_l3.buf.capacity() == ALLPASS_N3 + RING_SLACK
        &&& self.ap_r0.wf() && self.ap_r0.buf.capacity() == ALLPASS_N0 + RING_SLACK
        &&& self.ap_r1.wf() && self.ap_r1.buf.capacity() == ALLPASS_N1 + RING_SLACK
        &&& self.ap_r2.wf() && self.ap_r2.buf.capacity() == ALLPASS_N2 + RING_SLACK
        &&& self.ap_r3.wf() && self.ap_r3.buf.capacity() == ALLPASS_N3 + RING_SLACK
        &&& self.stereo_spread <= MAX_SPREAD
        &&& 0 <= self.lfo_current_phase < FP_ONE
        &&& 0 <= self.lfo_phase_step < FP_ONE
        &&& fp_ok(self.wet1 as int) && fp_ok(self.wet2 as int) && fp_ok(self.dry as int)
        &&& fp_ok(self.damp as int) && fp_ok(self.width as int) && fp_ok(self.space as int)
    }

    /// A fresh reverb at the given sample rate: fully dry, default damping
    /// and feedback, empty lines.
    pub fn new(sample_rate: u32) -> (r: Reverb)
        requires
            valid_sample_rate(sample_rate as int),
        ensures
            r.wf(),
            r.wet1 == 0,
            r.wet2 == 0,
            r.dry == FP_ONE,
            r.width == FP_ONE,
            r.space == COMB_FB,
            r.damp == COMB_DAMP,
            r.stereo_spread == INIT_SPREAD,
            r@.lfo_phase == 0,
            r@.lfo_step == MOD_FREQ as int / sample_rate as int,
    {
        proof {
            vstd::arithmetic::div_mod::lemma_div_is_ordered(0, MOD_FREQ as int, sample_rate as int);
            vstd::arithmetic::div_mod::lemma_multiply_divide_lt(
                MOD_FREQ as int,
                sample_rate as int,
                FP_ONE as int,
            );
            assert((MOD_FREQ as int) < (sample_rate as int) * (FP_ONE as int)) by (nonlinear_arith)
                requires
                    32000 <= sample_rate,
                    MOD_FREQ == 805306368,
                    FP_ONE == 268435456,
            ;
        }
        let step: i64 = ((MOD_FREQ as u64) / (sample_rate as u64)) as i64;
        Reverb {
            wet1: 0,
            wet2: 0,
            dry: FP_ONE,
            width: FP_ONE,
            space: COMB_FB,
            damp: COMB_DAMP,
            stereo_spread: INIT_SPREAD,
            lfo_current_phase: 0,
            lfo_phase_step: step,
            comb_l0: Comb::new(COMB_N0 + RING_SLACK),
            comb_l1: Comb::new(COMB_N1 + RING_SLACK),
            comb_l2: Comb::new(COMB_N2 + RING_SLACK),
            comb_l3: Comb::new(COMB_N3 + RING_SLACK),
            comb_l4: Comb::new(COMB_N4 + RING_SLACK),
            comb_l5: Comb::new(COMB_N5 + RING_SLACK),
            comb_l6: Comb::new(COMB_N6 + RING_SLACK),
            comb_l7: Comb::new(COMB_N7 + RING_SLACK),
            comb_r0: Comb::new(COMB_N0 + RING_SLACK),
            comb_r1: Comb::new(COMB_N1 + RING_SLACK),
            comb_r2: Comb::new(COMB_N2 + RING_SLACK),
            comb_r3: Comb::new(COMB_N3 + RING_SLACK),
            comb_r4: Comb::new(COMB_N4 + RING_SLACK),
            comb_r5: Comb::new(COMB_N5 + RING_SLACK),
            comb_r6: Comb::new(COMB_N6 + RING_SLACK),
            comb_r7: Comb::new(COMB_N7 + RING_SLACK),
            ap_l0: AllPass::new(ALLPASS_N0 + RING_SLACK),
            ap_l1: AllPass::new(ALLPASS_N1 + RING_SLACK),
            ap_l2: AllPass::new(ALLPASS_N2 + RING_SLACK),
            ap_l3: AllPass::new(ALLPASS_N3 + RING_SLACK),
            ap_r0: AllPass::new(ALLPASS_N0 + RING_SLACK),
            ap_r1: AllPass::new(ALLPASS_N1 + RING_SLACK),
            ap_r2: AllPass::new(ALLPASS_N2 + RING_SLACK),
            ap_r3: AllPass::new(ALLPASS_N3 + RING_SLACK),
        }
    }

    /// One stereo sample through the reverb: the attenuated input feeds
    /// the two comb banks (the right at spread-offset lengths), their sums
    /// pass the all-pass cascades, the wet pair is mixed with the dry input
    /// by the width-derived coefficients, and the modulation LFO advances.
    #[verifier::rlimit(100)]
    pub fn render(&mut self, input: i64) -> (r: (i64, i64))
        requires
            old(self).wf(),
            fp_ok(input as int),
        ensures
            final(self).wf(),
            r.0 as int == reverb_left_s(old(self)@, input as int),
            r.1 as int == reverb_right_s(old(self)@, input as int),
            fp_ok(r.0 as int),
            fp_ok(r.1 as int),
            final(self)@.combs_l == combs_next_s(
                old(self)@.combs_l,
                reverb_scaled_s(input as int),
                old(self)@.space as int,
                0,
                reverb_mod_s(old(self)@),
                old(self)@.damp as int,
            ),
            final(self)@.combs_r == combs_next_s(
                old(self)@.combs_r,
                reverb_scaled_s(input as int),
                old(self)@.space as int,
                old(self)@.stereo_spread,
                reverb_mod_s(old(self)@),
                old(self)@.damp as int,
            ),
            final(self)@.aps_l == aps_next_s(
                old(self)@.aps_l,
                comb_sum_s(
                    old(self)@.combs_l,
                    reverb_scaled_s(input as int),
                    old(self)@.space as int,
                    0,
                    reverb_mod_s(old(self)@),
                    old(self)@.damp as int,
                    8,
                ),
                0,
            ),
            final(self)@.aps_r == aps_next_s(
                old(self)@.aps_r,
                comb_sum_s(
                    old(self)@.combs_r,
                    reverb_scaled_s(input as int),
                    old(self)@.space as int,
                    old(self)@.stereo_spread,
                    reverb_mod_s(old(self)@),
                    old(self)@.damp as int,
                    8,
                ),
                old(self)@.stereo_spread,
            ),
            final(self)@.lfo_phase as int == fract_s(
                fp_add_s(old(self)@.lfo_phase as int, old(self)@.lfo_step as int),
            ),
            final(self)@.wet1 == old(self)@.wet1,
            final(self)@.wet2 == old(self)@.wet2,
            final(self)@.dry == old(self)@.dry,
            final(self)@.damp == old(self)@.damp,
            final(self)@.width == old(self)@.width,
            final(self)@.space == old(self)@.space,
            final(self)@.stereo_spread == old(self)@.stereo_spread,
            final(self)@.lfo_step == old(self)@.lfo_step,
    {
        let ghost pre = self@;
        let scaled = fp_mul(input, SIXTEENTH);
        let lfo_value = crate::waves::lfo_wave_fp(
            crate::waves::WaveShape::Triangle,
            self.lfo_current_phase,
        );
        let m = lfo_mod_offset(lfo_value);
        self.lfo_current_phase = crate::fixed::fp_fract(
            fp_add(self.lfo_current_phase, self.lfo_phase_step),
        );
        proof {
            reveal_with_fuel(comb_sum_s, 9);
            reveal_with_fuel(ap_chain_s, 5);
            assert(m as int == reverb_mod_s(pre));
        }
        let sp = self.stereo_spread;
        let fb = self.space;
        let d = self.damp;
        let ghost sc = scaled as int;
        let ghost mm = m as int;
        let ghost fbg = fb as int;
        let ghost dg = d as int;
        let ghost spg = sp as int;
        let mut out_l: i64 = 0;
        out_l = fp_add(out_l, self.comb_l0.process(scaled, fb, COMB_N0, m, d));
        proof {
            assert(out_l as int == comb_sum_s(pre.combs_l, sc, fbg, 0, mm, dg, 1));
        }
        out_l = fp_add(out_l, self.comb_l1.process(scaled, fb, COMB_N1, m, d));
        out_l = fp_add(out_l, self.comb_l2.process(scaled, fb, COMB_N2, m, d));
        out_l = fp_add(out_l, self.comb_l3.process(scaled, fb, COMB_N3, m, d));
        proof {
            assert(out_l as int == comb_sum_s(pre.combs_l, sc, fbg, 0, mm, dg, 4));
        }
        out_l = fp_add(out_l, self.comb_l4.process(scaled, fb, COMB_N4, m, d));
        out_l = fp_add(out_l, self.comb_l5.process(scaled, fb, COMB_N5, m, d));
        out_l = fp_add(out_l, self.comb_l6.process(scaled, fb, COMB_N6, m, d));
        out_l = fp_add(out_l, self.comb_l7.process(scaled, fb, COMB_N7, m, d));
        let ghost suml = comb_sum_s(pre.combs_l, sc, fbg, 0, mm, dg, 8);
        proof {
            assert(out_l as int == suml);
        }
        let mut out_r: i64 = 0;
        out_r = fp_add(out_r, self.comb_r0.process(scaled, fb, COMB_N0 + sp, m, d));
        proof {
            assert(out_r as int == comb_sum_s(pre.combs_r, sc, fbg, spg, mm, dg, 1));
        }
        out_r = fp_add(out_r, self.comb_r1.process(scaled, fb, COMB_N1 + sp, m, d));
        out_r = fp_add(out_r, self.comb_r2.process(scaled, fb, COMB_N2 + sp, m, d));
        out_r = fp_add(out_r, self.comb_r3.process(scaled, fb, COMB_N3 + sp, m, d));
        proof {
            assert(out_r as int == comb_sum_s(pre.combs_r, sc, fbg, spg, mm, dg, 4));
        }
        out_r = fp_add(out_r, self.comb_r4.process(scaled, fb, COMB_N4 + sp, m, d));
        out_r = fp_add(out_r, self.comb_r5.process(scaled, fb, COMB_N5 + sp, m, d));
        out_r = fp_add(out_r, self.comb_r6.process(scaled, fb, COMB_N6 + sp, m, d));
        out_r = fp_add(out_r, self.comb_r7.process(scaled, fb, COMB_N7 + sp, m, d));
        let ghost sumr = comb_sum_s(pre.combs_r, sc, fbg, spg, mm, dg, 8);
        proof {
            assert(out_r as int == sumr);
        }
        out_l = self.ap_l0.process(out_l, ALLPASS_FB, ALLPASS_N0);
        proof {
            assert(out_l as int == ap_chain_s(pre.aps_l, suml, 0, 1));
        }
        out_l = self.ap_l1.process(out_l, ALLPASS_FB, ALLPASS_N1);
        out_l = self.ap_l2.process(out_l, ALLPASS_FB, ALLPASS_N2);
        out_l = self.ap_l3.process(out_l, ALLPASS_FB, ALLPASS_N3);
        proof {
            assert(out_l as int == ap_chain_s(pre.aps_l, suml, 0, 4));
        }
        out_r = self.ap_r0.process(out_r, ALLPASS_FB, ALLPASS_N0 + sp);
        proof {
            assert(out_r as int == ap_chain_s(pre.aps_r, sumr, spg, 1));
        }
        out_r = self.ap_r1.process(out_r, ALLPASS_FB, ALLPASS_N1 + sp);
        out_r = self.ap_r2.process(out_r, ALLPASS_FB, ALLPASS_N2 + sp);
        out_r = self.ap_r3.process(out_r, ALLPASS_FB, ALLPASS_N3 + sp);
        proof {
            assert(out_r as int == ap_chain_s(pre.aps_r, sumr, spg, 4));
        }
        let left = fp_add(
            fp_add(fp_mul(out_l, self.wet1), fp_mul(out_r, self.wet2)),
            fp_mul(input, self.dry),
        );
        let right = fp_add(
            fp_add(fp_mul(out_r, self.wet1), fp_mul(out_l, self.wet2)),
            fp_mul(input, self.dry),
        );
        proof {
            assert(self@.combs_l =~= combs_next_s(pre.combs_l, sc, fbg, 0, mm, dg));
            assert(self@.combs_r =~= combs_next_s(pre.combs_r, sc, fbg, spg, mm, dg));
            assert(self@.aps_l =~= aps_next_s(pre.aps_l, suml, 0));
            assert(self@.aps_r =~= aps_next_s(pre.aps_r, sumr, spg));
        }
        (left, right)
    }
}

/// The per-sample modulation offset: the triangle value scaled to half the
/// modulation window and truncated toward zero.
fn lfo_mod_offset(lfo: i64) -> (r: i64)
    requires
        -FP_ONE <= lfo <= FP_ONE,
    ensures
        r == tdiv(10 * lfo, FP_ONE as int),
        -10 <= r <= 10,
{
    if lfo >= 0 {
        let q: u64 = (10 * (lfo as u64)) / (FP_ONE as u64);
        proof {
            vstd::arithmetic::div_mod::lemma_div_is_ordered(
                10 * (lfo as int),
                10 * (FP_ONE as int),
                FP_ONE as int,
            );
        }
        q as i64
    } else {
        let q: u64 = (10 * ((-lfo) as u64)) / (FP_ONE as u64);
        proof {
            vstd::arithmetic::div_mod::lemma_div_is_ordered(
                10 * ((-lfo) as int),
                10 * (FP_ONE as int),
                FP_ONE as int,
            );
        }
        -(q as i64)
    }
}


/// 0.1 in fixed point.
pub const TENTH_FP: i64 = 26843546;

/// 0.5 in fixed point, as a damping scale.
pub const DAMP_SCALE: i64 = 134217728;

/// 0.74 in fixed point: the floor of the space control.
pub const SPACE_FLOOR: i64 = 198642237;

/// 0.24 in fixed point: the span of the space control.
pub const SPACE_SPAN: i64 = 64424509;

/// 5.0 in fixed point: the span of the drive control.
pub const DRIVE_SPAN: i64 = 1342177280;

/// 100 in fixed point: the span of the spread control, in samples.
pub const SPREAD_SPAN: i64 = 26843545600;

/// The saturating sum of the first `k` voice slots of the input array: the
/// monophonic mix the effects chain consumes.
pub open spec fn voice_sum_s(inputs: Seq<i64>, k: int) -> int
    decreases k,
{
    if k <= 0 {
        0
    } else {
        fp_add_s(voice_sum_s(inputs, k - 1), inputs[k - 1] as int)
    }
}

/// The post-mix chain: distortion into delay into reverb, with the master
/// gain applied between delay and reverb.
pub struct EffectsChain {
    /// The soft-clip stage.
    pub distortion: Distortion,
    /// The feedback delay stage.
    pub delay: Delay,
    /// The stereo reverb stage.
    pub reverb: Reverb,
    /// Master gain, applied before the reverb.
    pub master_gain: i64,
}

impl EffectsChain {
    /// Every stage is well formed.
    pub open spec fn wf(&self) -> bool {
        &&& distortion_wf(self.distortion)
        &&& self.delay.wf()
        &&& self.reverb.wf()
        &&& fp_ok(self.master_gain as int)
    }

    /// A fresh chain at the given sample rate: transparent distortion and
    /// delay, dry reverb, default master gain.
    pub fn new(sample_rate: u32) -> (r: EffectsChain)
        requires
            valid_sample_rate(sample_rate as int),
        ensures
            r.wf(),
            r.distortion == (Distortion { wet: 0i64, drive: FP_ONE }),
            r.delay@.wet == 0,
            r.delay@.feedback == DELAY_START_FEEDBACK,
            r.delay@.delay_index == DELAY_START_INDEX,
            r.delay@.buffer == Seq::<i64>::empty(),
            r.reverb.dry == FP_ONE,
            r.reverb.wet1 == 0,
            r.reverb.wet2 == 0,
            r.master_gain == MASTER_START_GAIN,
    {
        EffectsChain {
            distortion: Distortion::new(),
            delay: Delay::new(),
            reverb: Reverb::new(sample_rate),
            master_gain: MASTER_START_GAIN,
        }
    }

    /// Set the saturator drive: `1 + 5 * knob`.
    pub fn set_dist_drive(&mut self, drive: i64)
        requires
            old(self).wf(),
            fp_ok(drive as int),
        ensures
            final(self).wf(),
            *final(self) == (EffectsChain {
                distortion: Distortion {
                    drive: fp_add_s(
                        FP_ONE as int,
                        fp_mul_s(drive as int, DRIVE_SPAN as int),
                    ) as i64,
                    ..old(self).distortion
                },
                ..*old(self)
            }),
    {
        self.distortion.drive = fp_add(FP_ONE, fp_mul(drive, DRIVE_SPAN));
    }

    /// Set the distortion dry/wet mix.
    pub fn set_dist_wet(&mut self, wet: i64)
        requires
            old(self).wf(),
        ensures
            final(self).wf(),
            *final(self) == (EffectsChain {
                distortion: Distortion { wet: sat(wet as int) as i64, ..old(self).distortion },
                ..*old(self)
            }),
    {
        self.distortion.wet = fp_clip(wet);
    }

    /// Set the delay tap from a time knob: `knob * sample_rate` samples,
    /// clamped to the line's capacity. Samples older than the new tap are
    /// discarded.
    pub fn set_delay_time(&mut self, value: i64, sample_rate: u32)
        requires
            old(self).wf(),
            fp_ok(value as int),
            valid_sample_rate(sample_rate as int),
        ensures
            final(self).wf(),
            final(self).distortion == old(self).distortion,
            final(self).reverb == old(self).reverb,
            final(self).master_gain == old(self).master_gain,
            final(self).delay@.wet == old(self).delay@.wet,
            final(self).delay@.feedback == old(self).delay@.feedback,
            final(self).delay@.delay_index == clamp01_s(value as int) * sample_rate / (
            FP_ONE as int),
            final(self).delay@.buffer == old(self).delay@.buffer.take(
                if final(self).delay@.delay_index < old(self).delay@.buffer.len() {
                    final(self).delay@.delay_index
                } else {
                    old(self).delay@.buffer.len() as int
                },
            ),
    {
        let knob = fp_clamp01(value);
        proof {
            assert((knob as int) * (sample_rate as int) <= (FP_ONE as int) * 192000)
                by (nonlinear_arith)
                requires
                    0 <= knob <= FP_ONE,
                    sample_rate <= 192000,
            ;
            vstd::arithmetic::div_mod::lemma_div_is_ordered(
                0,
                (knob as int) * (sample_rate as int),
                FP_ONE as int,
            );
            vstd::arithmetic::div_mod::lemma_div_is_ordered(
                (knob as int) * (sample_rate as int),
                (FP_ONE as int) * 192000,
                FP_ONE as int,
            );
            vstd::arithmetic::div_mod::lemma_div_by_multiple(192000, FP_ONE as int);
            assert(192000int * (FP_ONE as int) == (FP_ONE as int) * 192000) by (nonlinear_arith);
        }
        let delay_index: usize = (((knob as u64) * (sample_rate as u64)) / (FP_ONE as u64)) as usize;
        self.delay.set_delay_index(delay_index);
    }

    /// Set the delay feedback.
    pub fn set_delay_feedback(&mut self, feedback: i64)
        requires
            old(self).wf(),
        ensures
            final(self).wf(),
            final(self).delay@.feedback == sat(feedback as int),
            final(self).delay@.wet == old(self).delay@.wet,
            final(self).delay@.delay_index == old(self).delay@.delay_index,
            final(self).delay@.buffer == old(self).delay@.buffer,
            final(self).distortion == old(self).distortion,
            final(self).reverb == old(self).reverb,
            final(self).master_gain == old(self).master_gain,
    {
        self.delay.feedback = fp_clip(feedback);
    }

    /// Set the delay dry/wet mix.
    pub fn set_delay_wet(&mut self, wet: i64)
        requires
            old(self).wf(),
        ensures
            final(self).wf(),
            final(self).delay@.wet == sat(wet as int),
            final(self).delay@.feedback == old(self).delay@.feedback,
            final(self).delay@.delay_index == old(self).delay@.delay_index,
            final(self).delay@.buffer == old(self).delay@.buffer,
            final(self).distortion == old(self).distortion,
            final(self).reverb == old(self).reverb,
            final(self).master_gain == old(self).master_gain,
    {
        self.delay.wet = fp_clip(wet);
    }

    /// Set the reverb damping: `0.1 + 0.5 * knob`.
    pub fn set_reverb_damp(&mut self, damp: i64)
        requires
            old(self).wf(),
            fp_ok(damp as int),
        ensures
            final(self).wf(),
            final(self).reverb.damp == fp_add_s(
                TENTH_FP as int,
                fp_mul_s(DAMP_SCALE as int, damp as int),
            ),
            reverb_untouched_but_damp(old(self).reverb, final(self).reverb),
            final(self).distortion == old(self).distortion,
            final(self).delay == old(self).delay,
            final(self).master_gain == old(self).master_gain,
    {
        self.reverb.damp = fp_add(TENTH_FP, fp_mul(DAMP_SCALE, damp));
    }

    /// Set the stereo spread: up to one hundred samples of extra length on
    /// the right channel, and refresh the wet mix coefficients.
    pub fn set_reverb_spread(&mut self, spread: i64)
        requires
            old(self).wf(),
        ensures
            final(self).wf(),
            final(self).reverb.stereo_spread as int == fp_mul_s(
                clamp01_s(spread as int),
                SPREAD_SPAN as int,
            ) / (FP_ONE as int),
            final(self).reverb.wet1 == reverb_wet1_s(
                fp_sub_s(FP_ONE as int, old(self).reverb.dry as int),
                old(self).reverb.width as int,
            ),
            final(self).reverb.wet2 == reverb_wet2_s(
                fp_sub_s(FP_ONE as int, old(self).reverb.dry as int),
                old(self).reverb.width as int,
            ),
            reverb_untouched_but_mix_spread(old(self).reverb, final(self).reverb),
            final(self).reverb.dry == fp_sub_s(
                FP_ONE as int,
                fp_sub_s(FP_ONE as int, old(self).reverb.dry as int),
            ),
            final(self).distortion == old(self).distortion,
            final(self).delay == old(self).delay,
            final(self).master_gain == old(self).master_gain,
    {
        let knob = fp_clamp01(spread);
        let scaled = fp_mul(knob, SPREAD_SPAN);
        proof {
            vstd::arithmetic::div_mod::lemma_div_is_ordered(0, scaled as int, FP_ONE as int);
            vstd::arithmetic::div_mod::lemma_div_is_ordered(
                scaled as int,
                (MAX_SPREAD as int) * (FP_ONE as int),
                FP_ONE as int,
            );
            vstd::arithmetic::div_mod::lemma_div_by_multiple(MAX_SPREAD as int, FP_ONE as int);
        }
        let sp: usize = ((scaled as u64) / (FP_ONE as u64)) as usize;
        self.reverb.stereo_spread = sp;
        let wet = fp_sub(FP_ONE, self.reverb.dry);
        self.set_reverb_wet_value(wet);
    }

    /// Set the reverb feedback ("space"): `0.74 + 0.24 * knob`.
    pub fn set_reverb_space(&mut self, space: i64)
        requires
            old(self).wf(),
            fp_ok(space as int),
        ensures
            final(self).wf(),
            final(self).reverb.space == fp_add_s(
                SPACE_FLOOR as int,
                fp_mul_s(SPACE_SPAN as int, space as int),
            ),
            reverb_untouched_but_space(old(self).reverb, final(self).reverb),
            final(self).distortion == old(self).distortion,
            final(self).delay == old(self).delay,
            final(self).master_gain == old(self).master_gain,
    {
        self.reverb.space = fp_add(SPACE_FLOOR, fp_mul(SPACE_SPAN, space));
    }

    /// Set the reverb wet amount, deriving the standard stereo mix
    /// coefficients from it and the width.
    pub fn set_reverb_wet(&mut self, wet: i64)
        requires
            old(self).wf(),
            fp_ok(wet as int),
        ensures
            final(self).wf(),
            final(self).reverb.wet1 == reverb_wet1_s(wet as int, old(self).reverb.width as int),
            final(self).reverb.wet2 == reverb_wet2_s(wet as int, old(self).reverb.width as int),
            final(self).reverb.dry == fp_sub_s(FP_ONE as int, wet as int),
            reverb_untouched_but_mix(old(self).reverb, final(self).reverb),
            final(self).distortion == old(self).distortion,
            final(self).delay == old(self).delay,
            final(self).master_gain == old(self).master_gain,
    {
        self.set_reverb_wet_value(wet);
    }

    /// The shared wet-coefficient computation.
    fn set_reverb_wet_value(&mut self, wet: i64)
        requires
            old(self).wf(),
            fp_ok(wet as int),
        ensures
            final(self).wf(),
            final(self).reverb.wet1 == reverb_wet1_s(wet as int, old(self).reverb.width as int),
            final(self).reverb.wet2 == reverb_wet2_s(wet as int, old(self).reverb.width as int),
            final(self).reverb.dry == fp_sub_s(FP_ONE as int, wet as int),
            reverb_untouched_but_mix(old(self).reverb, final(self).reverb),
            final(self).distortion == old(self).distortion,
            final(self).delay == old(self).delay,
            final(self).master_gain == old(self).master_gain,
    {
        self.reverb.wet1 = fp_mul(
            fp_mul(wet, fp_add(fp_mul(self.reverb.width, FP_HALF), FP_HALF)),
            FP_HALF,
        );
        self.reverb.wet2 = fp_mul(fp_mul(wet, fp_sub(FP_ONE, self.reverb.width)), FP_HALF);
        self.reverb.dry = fp_sub(FP_ONE, wet);
    }

    /// Set the master gain.
    pub fn set_master_gain(&mut self, gain: i64)
        requires
            old(self).wf(),
        ensures
            final(self).wf(),
            *final(self) == (EffectsChain { master_gain: sat(gain as int) as i64, ..*old(self) }),
    {
        self.master_gain = fp_clip(gain);
    }

    /// One stereo sample through the chain: the sixteen voice slots of the
    /// input array are summed, soft-clipped, delayed, scaled by the master
    /// gain and reverberated.
    pub fn render(&mut self, inputs: &Vec<i64>) -> (r: (i64, i64))
        requires
            old(self).wf(),
            inputs@.len() == TOTAL_INPUT_COUNT,
            forall|a: int| 0 <= a < TOTAL_INPUT_COUNT ==> fp_ok(#[trigger] inputs@[a] as int),
        ensures
            final(self).wf(),
            r.0 as int == chain_left_s(*old(self), inputs@),
            r.1 as int == chain_right_s(*old(self), inputs@),
            fp_ok(r.0 as int),
            fp_ok(r.1 as int),
            final(self).distortion == old(self).distortion,
            final(self).master_gain == old(self).master_gain,
            final(self).delay@.wet == old(self).delay@.wet,
            final(self).delay@.feedback == old(self).delay@.feedback,
            final(self).delay@.delay_index == old(self).delay@.delay_index,
            final(self).delay@.buffer == delay_next_buffer_s(
                old(self).delay@,
                dist_out_s(old(self).distortion, voice_sum_s(inputs@, MAX_POLY_COUNT as int)),
            ),
            final(self).reverb@.combs_l == combs_next_s(
                old(self).reverb@.combs_l,
                reverb_scaled_s(chain_reverb_in_s(*old(self), inputs@)),
                old(self).reverb@.space as int,
                0,
                reverb_mod_s(old(self).reverb@),
                old(self).reverb@.damp as int,
            ),
            final(self).reverb@.combs_r == combs_next_s(
                old(self).reverb@.combs_r,
                reverb_scaled_s(chain_reverb_in_s(*old(self), inputs@)),
                old(self).reverb@.space as int,
                old(self).reverb@.stereo_spread,
                reverb_mod_s(old(self).reverb@),
                old(self).reverb@.damp as int,
            ),
            final(self).reverb@.aps_l == aps_next_s(
                old(self).reverb@.aps_l,
                comb_sum_s(
                    old(self).reverb@.combs_l,
                    reverb_scaled_s(chain_reverb_in_s(*old(self), inputs@)),
                    old(self).reverb@.space as int,
                    0,
                    reverb_mod_s(old(self).reverb@),
                    old(self).reverb@.damp as int,
                    8,
                ),
                0,
            ),
            final(self).reverb@.aps_r == aps_next_s(
                old(self).reverb@.aps_r,
                comb_sum_s(
                    old(self).reverb@.combs_r,
                    reverb_scaled_s(chain_reverb_in_s(*old(self), inputs@)),
                    old(self).reverb@.space as int,
                    old(self).reverb@.stereo_spread,
                    reverb_mod_s(old(self).reverb@),
                    old(self).reverb@.damp as int,
                    8,
                ),
                old(self).reverb@.stereo_spread,
            ),
            final(self).reverb@.lfo_phase as int == fract_s(
                fp_add_s(
                    old(self).reverb@.lfo_phase as int,
                    old(self).reverb@.lfo_step as int,
                ),
            ),
            final(self).reverb.wet1 == old(self).reverb.wet1,
            final(self).reverb.wet2 == old(self).reverb.wet2,
            final(self).reverb.dry == old(self).reverb.dry,
            final(self).reverb.damp == old(self).reverb.damp,
            final(self).reverb.width == old(self).reverb.width,
            final(self).reverb.space == old(self).reverb.space,
            final(self).reverb.stereo_spread == old(self).reverb.stereo_spread,
    {
        let mut input: i64 = 0;
        for i in 0..MAX_POLY_COUNT
            invariant
                inputs@.len() == TOTAL_INPUT_COUNT,
                forall|a: int| 0 <= a < TOTAL_INPUT_COUNT ==> fp_ok(#[trigger] inputs@[a] as int),
                input as int == voice_sum_s(inputs@, i as int),
                fp_ok(input as int),
        {
            input = fp_add(input, inputs[i]);
        }
        let distorted = self.distortion.render(input);
        let delayed = self.delay.render(distorted);
        self.reverb.render(fp_mul(delayed, self.master_gain))
    }
}

/// The monophonic signal entering the reverb: the distorted, delayed voice
/// sum scaled by the master gain.
pub open spec fn chain_reverb_in_s(c: EffectsChain, inputs: Seq<i64>) -> int {
    let input = voice_sum_s(inputs, MAX_POLY_COUNT as int);
    let distorted = dist_out_s(c.distortion, input);
    let delayed = delay_out_s(c.delay@, distorted);
    fp_mul_s(delayed, c.master_gain as int)
}

/// The left output of the whole chain for one sample.
pub open spec fn chain_left_s(c: EffectsChain, inputs: Seq<i64>) -> int {
    reverb_left_s(c.reverb@, chain_reverb_in_s(c, inputs))
}

/// The right output of the whole chain for one sample.
pub open spec fn chain_right_s(c: EffectsChain, inputs: Seq<i64>) -> int {
    reverb_right_s(c.reverb@, chain_reverb_in_s(c, inputs))
}

/// Only the damping differs.
pub open spec fn reverb_untouched_but_damp(a: Reverb, b: Reverb) -> bool {
    &&& b.wet1 == a.wet1 && b.wet2 == a.wet2 && b.dry == a.dry
    &&& b.width == a.width && b.space == a.space && b.stereo_spread == a.stereo_spread
    &&& b@.lfo_phase == a@.lfo_phase && b@.lfo_step == a@.lfo_step
    &&& b@.combs_l == a@.combs_l && b@.combs_r == a@.combs_r
    &&& b@.aps_l == a@.aps_l && b@.aps_r == a@.aps_r
}

/// Only the feedback differs.
pub open spec fn reverb_untouched_but_space(a: Reverb, b: Reverb) -> bool {
    &&& b.wet1 == a.wet1 && b.wet2 == a.wet2 && b.dry == a.dry
    &&& b.width == a.width && b.damp == a.damp && b.stereo_spread == a.stereo_spread
    &&& b@.lfo_phase == a@.lfo_phase && b@.lfo_step == a@.lfo_step
    &&& b@.combs_l == a@.combs_l && b@.combs_r == a@.combs_r
    &&& b@.aps_l == a@.aps_l && b@.aps_r == a@.aps_r
}

/// Only the mix coefficients and the stereo spread differ.
pub open spec fn reverb_untouched_but_mix_spread(a: Reverb, b: Reverb) -> bool {
    &&& b.width == a.width && b.damp == a.damp && b.space == a.space
    &&& b@.lfo_phase == a@.lfo_phase && b@.lfo_step == a@.lfo_step
    &&& b@.combs_l == a@.combs_l && b@.combs_r == a@.combs_r
    &&& b@.aps_l == a@.aps_l && b@.aps_r == a@.aps_r
}

/// Only the mix coefficients differ.
pub open spec fn reverb_untouched_but_mix(a: Reverb, b: Reverb) -> bool {
    &&& b.width == a.width && b.damp == a.damp && b.space == a.space
    &&& b.stereo_spread == a.stereo_spread
    &&& b@.lfo_phase == a@.lfo_phase && b@.lfo_step == a@.lfo_step
    &&& b@.combs_l == a@.combs_l && b@.combs_r == a@.combs_r
    &&& b@.aps_l == a@.aps_l && b@.aps_r == a@.aps_r
}

/// The first Freeverb mix coefficient: `wet * (width / 2 + 1/2) / 2`.
pub open spec fn reverb_wet1_s(wet: int, width: int) -> int {
    fp_mul_s(
        fp_mul_s(wet, fp_add_s(fp_mul_s(width, FP_HALF as int), FP_HALF as int)),
        FP_HALF as int,
    )
}

/// The second Freeverb mix coefficient: `wet * (1 - width) / 2`.
pub open spec fn reverb_wet2_s(wet: int, width: int) -> int {
    fp_mul_s(fp_mul_s(wet, fp_sub_s(FP_ONE as int, width)), FP_HALF as int)
}

} // verus!
