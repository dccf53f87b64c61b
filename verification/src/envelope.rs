//! The per-voice ADSR envelope bank.
//!
//! Each voice runs an attack / decay / sustain / release contour, gated by
//! its gate input: a rising edge records a start time, a falling edge records
//! the release time and the value the release decays from. Timing counts
//! rendered samples against the sample rate — a deliberate choice over wall
//! clock time, so identical event timing reproduces identical output. The
//! release follows the curved law `1 - ratio^0.4`, reaching exactly zero at
//! the end of the release time, and the final output is scaled by the
//! voice's velocity input.

use vstd::prelude::*;

use crate::analog::valid_sample_rate;
use crate::curve::{pow04, pow04_s};
use crate::fixed::{
    fp_add, fp_add_s, fp_clip, fp_div, fp_div_s, fp_mul, fp_mul_s, fp_ok, fp_sub, fp_sub_s, sat,
    FP_ONE, FP_SAT,
};
use crate::ports::{
    ENVELOPE_ATTACK_INPUT, ENVELOPE_DECAY_INPUT, ENVELOPE_GATE_INPUT, ENVELOPE_OUT_VALUE,
    ENVELOPE_RELEASE_INPUT, ENVELOPE_SUSTAIN_INPUT, ENVELOPE_TOTAL_INPUT_COUNT,
    ENVELOPE_TOTAL_OUTPUT_COUNT, ENVELOPE_VELOCITY_INPUT, MAX_POLY_COUNT, TOTAL_INPUT_COUNT,
    TOTAL_OUTPUT_COUNT,
};

verus! {

/// Default attack time: 0.02 seconds.
pub const ENV_START_ATTACK: i64 = 5368709;

/// Default decay time: 2.6 seconds.
pub const ENV_START_DECAY: i64 = 697932185;

/// Default sustain level: zero.
pub const ENV_START_SUSTAIN: i64 = 0;

/// Default release time: 2 seconds.
pub const ENV_START_RELEASE: i64 = 536870912;

/// Knob-to-seconds scale: time knobs are squared, then scaled by ten.
pub const ENV_ADR_SCALING: i64 = 2684354560;

/// Per-voice envelope timing state.
#[derive(Clone, Copy, Debug)]
pub struct EnvelopeMetaData {
    /// Sample index of the last gate rise, held while the voice is gated.
    pub start: Option<u64>,
    /// Sample index of the last gate fall, while the release runs.
    pub released: Option<u64>,
    /// The output value the release decays from.
    pub release_start_value: i64,
}

/// The effective stage times and sustain level one voice sees this sample,
/// after modulation inputs are applied.
pub struct EnvSettings {
    pub attack: int,
    pub decay: int,
    pub sustain: int,
    pub release: int,
}

/// The knob law for the attack, decay and release times: squared, then
/// scaled by ten seconds.
pub open spec fn env_time_param_s(knob: int) -> int {
    fp_mul_s(fp_mul_s(knob, knob), ENV_ADR_SCALING as int)
}

/// Seconds (fixed point, saturated) between two sample indices.
pub open spec fn elapsed_s(now: int, t0: int, sr: int) -> int
    recommends
        0 <= t0 <= now,
        0 < sr,
{
    sat(((now - t0) * FP_ONE) / sr)
}

/// A modulation input scaled onto a base time parameter.
pub open spec fn env_eff_time(param: int, input: int) -> int {
    fp_add_s(param, fp_mul_s(input, ENV_ADR_SCALING as int))
}

/// The raw envelope value of one voice at sample `now`, before velocity
/// scaling: a linear ramp to one during the attack, a linear ramp to the
/// sustain level during the decay, the sustain plateau while gated, the
/// curved release `start * (1 - ratio^0.4)` after a falling gate edge, and zero
/// once the release has run out (or no stage is active).
pub open spec fn env_raw_s(st: EnvSettings, meta: EnvelopeMetaData, now: int, sr: int) -> int {
    if meta.start is Some {
        let e = elapsed_s(now, meta.start->0 as int, sr);
        if e < st.attack {
            fp_div_s(e, st.attack)
        } else if fp_sub_s(e, st.attack) < st.decay {
            let ratio = fp_div_s(fp_sub_s(e, st.attack), st.decay);
            fp_sub_s(FP_ONE as int, fp_mul_s(fp_sub_s(FP_ONE as int, st.sustain), ratio))
        } else {
            st.sustain
        }
    } else if meta.released is Some {
        let e = elapsed_s(now, meta.released->0 as int, sr);
        if 0 < st.release && e < st.release {
            let ratio = fp_div_s(e, st.release);
            fp_mul_s(
                meta.release_start_value as int,
                fp_sub_s(FP_ONE as int, pow04_s(ratio)),
            )
        } else {
            0
        }
    } else {
        0
    }
}

/// How one voice's timing state advances: an expired release clears itself,
/// a gate rise starts the attack clock, a gate fall starts the release
/// clock and records the value it decays from.
pub open spec fn env_next_meta_s(
    st: EnvSettings,
    meta: EnvelopeMetaData,
    now: int,
    gate: int,
    raw: int,
    sr: int,
) -> EnvelopeMetaData {
    let meta1 = if meta.start is None && meta.released is Some && !(0 < st.release && elapsed_s(
        now,
        meta.released->0 as int,
        sr,
    ) < st.release) {
        EnvelopeMetaData { released: None, ..meta }
    } else {
        meta
    };
    if gate > 0 {
        if meta1.start is None {
            EnvelopeMetaData { start: Some(now as u64), released: None, ..meta1 }
        } else {
            meta1
        }
    } else {
        if meta1.released is None && meta1.start is Some {
            EnvelopeMetaData {
                start: None,
                released: Some(now as u64),
                release_start_value: raw as i64,
            }
        } else {
            meta1
        }
    }
}

/// The settings one voice sees, given the module parameters and the flat
/// input array.
pub open spec fn env_settings_s(
    attack_p: int,
    decay_p: int,
    sustain_p: int,
    release_p: int,
    inputs: Seq<i64>,
    in_off: int,
    v: int,
) -> EnvSettings {
    EnvSettings {
        attack: env_eff_time(attack_p, inputs[in_off + ENVELOPE_ATTACK_INPUT + v] as int),
        decay: env_eff_time(decay_p, inputs[in_off + ENVELOPE_DECAY_INPUT + v] as int),
        sustain: fp_add_s(sustain_p, inputs[in_off + ENVELOPE_SUSTAIN_INPUT + v] as int),
        release: env_eff_time(release_p, inputs[in_off + ENVELOPE_RELEASE_INPUT + v] as int),
    }
}

/// Timing state is well formed at sample `now`: timestamps do not lie in
/// the future and the release start value is representable.
pub open spec fn meta_wf(meta: EnvelopeMetaData, now: int) -> bool {
    &&& (meta.start is Some ==> meta.start->0 <= now)
    &&& (meta.released is Some ==> meta.released->0 <= now)
    &&& fp_ok(meta.release_start_value as int)
}

/// Seconds between two sample indices, in fixed point.
fn elapsed_fp(now: u64, t0: u64, sr: u32) -> (r: i64)
    requires
        t0 <= now,
        1 <= sr,
    ensures
        r == elapsed_s(now as int, t0 as int, sr as int),
        0 <= r <= FP_SAT,
{
    proof {
        assert(((now - t0) as int) * (FP_ONE as int) < 0x100000000000000000000000000000000)
            by (nonlinear_arith)
            requires
                0 <= now - t0 < 0x10000000000000000,
                FP_ONE == 268435456,
        ;
    }
    let d: u128 = ((now - t0) as u128) * (FP_ONE as u128);
    let q: u128 = d / (sr as u128);
    proof {
        vstd::arithmetic::div_mod::lemma_div_is_ordered(0, d as int, sr as int);
    }
    if q > FP_SAT as u128 {
        FP_SAT
    } else {
        q as i64
    }
}

/// The raw envelope value of one voice, evaluated exactly.
fn env_value(meta: EnvelopeMetaData, now: u64, st_a: i64, st_d: i64, st_s: i64, st_r: i64, sr: u32) -> (r: i64)
    requires
        meta_wf(meta, now as int),
        fp_ok(st_a as int),
        fp_ok(st_d as int),
        fp_ok(st_s as int),
        fp_ok(st_r as int),
        1 <= sr,
    ensures
        r == env_raw_s(
            EnvSettings {
                attack: st_a as int,
                decay: st_d as int,
                sustain: st_s as int,
                release: st_r as int,
            },
            meta,
            now as int,
            sr as int,
        ),
        fp_ok(r as int),
{
    match meta.start {
        Some(t0) => {
            let e = elapsed_fp(now, t0, sr);
            if e < st_a {
                fp_div(e, st_a)
            } else {
                let since = fp_sub(e, st_a);
                if since < st_d {
                    let ratio = fp_div(since, st_d);
                    fp_sub(FP_ONE, fp_mul(fp_sub(FP_ONE, st_s), ratio))
                } else {
                    st_s
                }
            }
        },
        None => {
            match meta.released {
                Some(t0) => {
                    let e = elapsed_fp(now, t0, sr);
                    if 0 < st_r && e < st_r {
                        let ratio = fp_div(e, st_r);
                        proof {
                            assert((e as int) * (FP_ONE as int) < (st_r as int) * (FP_ONE as int))
                                by (nonlinear_arith)
                                requires
                                    0 <= e < st_r,
                                    FP_ONE == 268435456,
                            ;
                            vstd::arithmetic::div_mod::lemma_multiply_divide_lt(
                                (e as int) * (FP_ONE as int),
                                st_r as int,
                                FP_ONE as int,
                            );
                            vstd::arithmetic::div_mod::lemma_div_is_ordered(
                                0,
                                (e as int) * (FP_ONE as int),
                                st_r as int,
                            );
                        }
                        let curved = pow04(ratio);
                        fp_mul(meta.release_start_value, fp_sub(FP_ONE, curved))
                    } else {
                        0
                    }
                },
                None => 0,
            }
        },
    }
}

/// A polyphonic bank of ADSR envelopes.
pub struct PolyEnvelope<const INPUT_OFFSET: usize, const OUTPUT_OFFSET: usize> {
    /// Per-voice timing state.
    pub envelopes: Vec<EnvelopeMetaData>,
    /// Base attack time.
    pub attack: i64,
    /// Base decay time.
    pub decay: i64,
    /// Base release time.
    pub release: i64,
    /// Base sustain level.
    pub sustain: i64,
    /// Samples rendered since construction: the envelope clock.
    pub clock: u64,
}

impl<const INPUT_OFFSET: usize, const OUTPUT_OFFSET: usize> PolyEnvelope<
    INPUT_OFFSET,
    OUTPUT_OFFSET,
> {
    /// Parameters are representable and no timestamp lies in the future.
    pub open spec fn wf(&self) -> bool {
        &&& self.envelopes@.len() == MAX_POLY_COUNT
        &&& forall|v: int|
            0 <= v < MAX_POLY_COUNT ==> meta_wf(#[trigger] self.envelopes@[v], self.clock as int)
        &&& fp_ok(self.attack as int)
        &&& fp_ok(self.decay as int)
        &&& fp_ok(self.release as int)
        &&& fp_ok(self.sustain as int)
    }

    /// The module's ranges lie inside the flat arrays.
    pub open spec fn offsets_ok() -> bool {
        &&& INPUT_OFFSET + ENVELOPE_TOTAL_INPUT_COUNT <= TOTAL_INPUT_COUNT
        &&& OUTPUT_OFFSET + ENVELOPE_TOTAL_OUTPUT_COUNT <= TOTAL_OUTPUT_COUNT
    }

    /// A fresh bank: every voice idle, default stage times.
    pub fn new() -> (r: Self)
        ensures
            r.wf(),
            r.attack == ENV_START_ATTACK,
            r.decay == ENV_START_DECAY,
            r.release == ENV_START_RELEASE,
            r.sustain == ENV_START_SUSTAIN,
            r.clock == 0,
            forall|v: int|
                0 <= v < MAX_POLY_COUNT ==> (#[trigger] r.envelopes@[v]).start is None
                    && r.envelopes@[v].released is None && r.envelopes@[v].release_start_value == 0,
    {
        let mut envelopes: Vec<EnvelopeMetaData> = Vec::new();
        for i in 0..MAX_POLY_COUNT
            invariant
                envelopes@.len() == i,
                forall|j: int|
                    0 <= j < i ==> (#[trigger] envelopes@[j]).start is None
                        && envelopes@[j].released is None && envelopes@[j].release_start_value == 0,
        {
            envelopes.push(EnvelopeMetaData { start: None, released: None, release_start_value: 0 });
        }
        PolyEnvelope {
            envelopes,
            attack: ENV_START_ATTACK,
            decay: ENV_START_DECAY,
            release: ENV_START_RELEASE,
            sustain: ENV_START_SUSTAIN,
            clock: 0,
        }
    }

    /// Set the base attack time from a knob value.
    pub fn set_attack_value(&mut self, attack: i64)
        requires
            fp_ok(attack as int),
        ensures
            *final(self) == (PolyEnvelope {
                attack: env_time_param_s(attack as int) as i64,
                ..*old(self)
            }),
    {
        self.attack = fp_mul(fp_mul(attack, attack), ENV_ADR_SCALING);
    }

    /// Set the base decay time from a knob value.
    pub fn set_decay_value(&mut self, decay: i64)
        requires
            fp_ok(decay as int),
        ensures
            *final(self) == (PolyEnvelope {
                decay: env_time_param_s(decay as int) as i64,
                ..*old(self)
            }),
    {
        self.decay = fp_mul(fp_mul(decay, decay), ENV_ADR_SCALING);
    }

    /// Set the base sustain level.
    pub fn set_sustain_value(&mut self, sustain: i64)
        ensures
            *final(self) == (PolyEnvelope { sustain: sat(sustain as int) as i64, ..*old(self) }),
    {
        self.sustain = fp_clip(sustain);
    }

    /// Set the base release time from a knob value.
    pub fn set_release_value(&mut self, release: i64)
        requires
            fp_ok(release as int),
        ensures
            *final(self) == (PolyEnvelope {
                release: env_time_param_s(release as int) as i64,
                ..*old(self)
            }),
    {
        self.release = fp_mul(fp_mul(release, release), ENV_ADR_SCALING);
    }

    /// Render one sample for every voice: each voice's output slot receives
    /// its raw envelope value scaled by its velocity input, its timing
    /// state advances on gate edges, and the envelope clock ticks one
    /// sample. No other output is touched.
    pub fn render(&mut self, inputs: &Vec<i64>, outputs: &mut Vec<i64>, sample_rate: u32)
        requires
            old(self).wf(),
            Self::offsets_ok(),
            inputs@.len() == TOTAL_INPUT_COUNT,
            old(outputs)@.len() == TOTAL_OUTPUT_COUNT,
            forall|a: int| 0 <= a < TOTAL_INPUT_COUNT ==> fp_ok(#[trigger] inputs@[a] as int),
            valid_sample_rate(sample_rate as int),
        ensures
            final(self).wf(),
            final(self).attack == old(self).attack,
            final(self).decay == old(self).decay,
            final(self).release == old(self).release,
            final(self).sustain == old(self).sustain,
            final(self).clock as int == (if old(self).clock < u64::MAX {
                old(self).clock + 1
            } else {
                old(self).clock as int
            }),
            final(outputs)@.len() == TOTAL_OUTPUT_COUNT,
            forall|v: int|
                0 <= v < MAX_POLY_COUNT ==> #[trigger] final(outputs)@[OUTPUT_OFFSET
                    + ENVELOPE_OUT_VALUE + v] as int == fp_mul_s(
                    env_raw_s(
                        env_settings_s(
                            old(self).attack as int,
                            old(self).decay as int,
                            old(self).sustain as int,
                            old(self).release as int,
                            inputs@,
                            INPUT_OFFSET as int,
                            v,
                        ),
                        old(self).envelopes@[v],
                        old(self).clock as int,
                        sample_rate as int,
                    ),
                    inputs@[INPUT_OFFSET + ENVELOPE_VELOCITY_INPUT + v] as int,
                ),
            forall|v: int|
                0 <= v < MAX_POLY_COUNT ==> #[trigger] final(self).envelopes@[v]
                    == env_next_meta_s(
                    env_settings_s(
                        old(self).attack as int,
                        old(self).decay as int,
                        old(self).sustain as int,
                        old(self).release as int,
                        inputs@,
                        INPUT_OFFSET as int,
                        v,
                    ),
                    old(self).envelopes@[v],
                    old(self).clock as int,
                    inputs@[INPUT_OFFSET + ENVELOPE_GATE_INPUT + v] as int,
                    env_raw_s(
                        env_settings_s(
                            old(self).attack as int,
                            old(self).decay as int,
                            old(self).sustain as int,
                            old(self).release as int,
                            inputs@,
                            INPUT_OFFSET as int,
                            v,
                        ),
                        old(self).envelopes@[v],
                        old(self).clock as int,
                        sample_rate as int,
                    ),
                    sample_rate as int,
                ),
            forall|a: int|
                0 <= a < TOTAL_OUTPUT_COUNT && !(OUTPUT_OFFSET + ENVELOPE_OUT_VALUE <= a
                    < OUTPUT_OFFSET + ENVELOPE_OUT_VALUE + MAX_POLY_COUNT)
                    ==> #[trigger] final(outputs)@[a] == old(outputs)@[a],
            forall|a: int|
                0 <= a < TOTAL_OUTPUT_COUNT && fp_ok(old(outputs)@[a] as int) ==> fp_ok(
                    #[trigger] final(outputs)@[a] as int,
                ),
    {
        let ghost pre = *self;
        let ghost pre_out = outputs@;
        let now = self.clock;
        for v in 0..MAX_POLY_COUNT
            invariant
                self.envelopes@.len() == MAX_POLY_COUNT,
                self.attack == pre.attack,
                self.decay == pre.decay,
                self.release == pre.release,
                self.sustain == pre.sustain,
                self.clock == pre.clock,
                now == pre.clock,
                pre.wf(),
                Self::offsets_ok(),
                inputs@.len() == TOTAL_INPUT_COUNT,
                outputs@.len() == TOTAL_OUTPUT_COUNT,
                pre_out.len() == TOTAL_OUTPUT_COUNT,
                forall|a: int| 0 <= a < TOTAL_INPUT_COUNT ==> fp_ok(#[trigger] inputs@[a] as int),
                valid_sample_rate(sample_rate as int),
                forall|w: int|
                    0 <= w < v ==> #[trigger] outputs@[OUTPUT_OFFSET + ENVELOPE_OUT_VALUE + w]
                        as int == fp_mul_s(
                        env_raw_s(
                            env_settings_s(
                                pre.attack as int,
                                pre.decay as int,
                                pre.sustain as int,
                                pre.release as int,
                                inputs@,
                                INPUT_OFFSET as int,
                                w,
                            ),
                            pre.envelopes@[w],
                            pre.clock as int,
                            sample_rate as int,
                        ),
                        inputs@[INPUT_OFFSET + ENVELOPE_VELOCITY_INPUT + w] as int,
                    ),
                forall|w: int|
                    0 <= w < v ==> #[trigger] self.envelopes@[w] == env_next_meta_s(
                        env_settings_s(
                            pre.attack as int,
                            pre.decay as int,
                            pre.sustain as int,
                            pre.release as int,
                            inputs@,
                            INPUT_OFFSET as int,
                            w,
                        ),
                        pre.envelopes@[w],
                        pre.clock as int,
                        inputs@[INPUT_OFFSET + ENVELOPE_GATE_INPUT + w] as int,
                        env_raw_s(
                            env_settings_s(
                                pre.attack as int,
                                pre.decay as int,
                                pre.sustain as int,
                                pre.release as int,
                                inputs@,
                                INPUT_OFFSET as int,
                                w,
                            ),
                            pre.envelopes@[w],
                            pre.clock as int,
                            sample_rate as int,
                        ),
                        sample_rate as int,
                    ),
                forall|w: int|
                    v <= w < MAX_POLY_COUNT ==> #[trigger] self.envelopes@[w] == pre.envelopes@[w],
                forall|w: int|
                    0 <= w < v ==> meta_wf(#[trigger] self.envelopes@[w], now as int),
                forall|a: int|
                    0 <= a < TOTAL_OUTPUT_COUNT && !(OUTPUT_OFFSET + ENVELOPE_OUT_VALUE <= a
                        < OUTPUT_OFFSET + ENVELOPE_OUT_VALUE + v) ==> #[trigger] outputs@[a]
                        == pre_out[a],
                forall|a: int|
                    0 <= a < TOTAL_OUTPUT_COUNT && fp_ok(pre_out[a] as int) ==> fp_ok(
                        #[trigger] outputs@[a] as int,
                    ),
        {
            let gate = inputs[INPUT_OFFSET + ENVELOPE_GATE_INPUT + v];
            let velocity = inputs[INPUT_OFFSET + ENVELOPE_VELOCITY_INPUT + v];
            let st_a = fp_add(self.attack, fp_mul(inputs[INPUT_OFFSET + ENVELOPE_ATTACK_INPUT + v], ENV_ADR_SCALING));
            let st_d = fp_add(self.decay, fp_mul(inputs[INPUT_OFFSET + ENVELOPE_DECAY_INPUT + v], ENV_ADR_SCALING));
            let st_s = fp_add(self.sustain, inputs[INPUT_OFFSET + ENVELOPE_SUSTAIN_INPUT + v]);
            let st_r = fp_add(self.release, fp_mul(inputs[INPUT_OFFSET + ENVELOPE_RELEASE_INPUT + v], ENV_ADR_SCALING));

            let meta = self.envelopes[v];
            let raw = env_value(meta, now, st_a, st_d, st_s, st_r, sample_rate);

            // Advance the timing state: clear an expired release, then
            // apply any gate edge.
            let mut next = meta;
            if next.start.is_none() && next.released.is_some() {
                let t0 = match next.released {
                    Some(t) => t,
                    None => 0,
                };
                let e = elapsed_fp(now, t0, sample_rate);
                if !(0 < st_r && e < st_r) {
                    next = EnvelopeMetaData { released: None, ..next };
                }
            }
            if gate > 0 {
                if next.start.is_none() {
                    next = EnvelopeMetaData { start: Some(now), released: None, ..next };
                }
            } else {
                if next.released.is_none() && next.start.is_some() {
                    next = EnvelopeMetaData {
                        start: None,
                        released: Some(now),
                        release_start_value: raw,
                    };
                }
            }
            self.envelopes[v] = next;

            outputs[OUTPUT_OFFSET + ENVELOPE_OUT_VALUE + v] = fp_mul(raw, velocity);
        }
        self.clock = if now < u64::MAX {
            now + 1
        } else {
            now
        };
    }
}

} // verus!
