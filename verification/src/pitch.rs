//! The exponential pitch law.
//!
//! A control voltage `v` names a pitch on a MIDI-like scale: `128 * v - 69`
//! semitones away from A4, and the frequency in Hz is `440 * 2^(s / 12)`.
//! In fixed point this is computed exactly per octave: the semitone offset is
//! split into a whole number of octaves `k` and a remainder `r` in `[0, 12)`,
//! the remainder is mapped through a linearly interpolated table of the
//! twelve equal-temperament semitone ratios, and the result is shifted by
//! `k` octaves. At the reference voltage `69/128` the law yields exactly
//! 440, and adding twelve semitones of voltage doubles the frequency
//! exactly wherever the octave shift multiplies (rather than divides and
//! truncates) and no saturation is reached.

use vstd::prelude::*;

use vstd::arithmetic::power2::pow2;

use crate::fixed::{fp_ok, sat, FP_ONE, FP_SAT};

verus! {

/// Twelve semitones (one octave) in fixed-point semitone units.
pub const TWELVE_SEMITONES: i64 = 3221225472;

/// Semitone offsets are clamped to this range (256 semitones) before the
/// octave split, keeping every intermediate in machine range.
pub const SEMITONE_RANGE: i64 = 68719476736;

/// The control voltage at which the law yields exactly 440: `69 / 128`.
pub const REFERENCE_VOLTAGE: i64 = 144703488;

/// Twelve semitones of control voltage: `12 / 128`.
pub const OCTAVE_VOLTAGE: i64 = 25165824;

/// Highest voltage for which the exact-doubling law below is stated.
pub const OCTAVE_LAW_TOP_VOLTAGE: i64 = 320864256;

/// The equal-temperament ratio table: `round(2^(m / 12) * FP_ONE)` for
/// `m` in `0 ..= 12`.
pub open spec fn semi_table(m: int) -> int {
    if m <= 0 {
        268435456
    } else if m == 1 {
        284397459
    } else if m == 2 {
        301308612
    } else if m == 3 {
        319225354
    } else if m == 4 {
        338207482
    } else if m == 5 {
        358318345
    } else if m == 6 {
        379625062
    } else if m == 7 {
        402198743
    } else if m == 8 {
        426114725
    } else if m == 9 {
        451452825
    } else if m == 10 {
        478297607
    } else if m == 11 {
        506738663
    } else {
        536870912
    }
}

/// Ratio `2^(r / 12)` for a sub-octave semitone offset `r`, by linear
/// interpolation between adjacent table entries.
pub open spec fn semi_interp(r: int) -> int
    recommends
        0 <= r < TWELVE_SEMITONES,
{
    let m = r / (FP_ONE as int);
    let frac = r % (FP_ONE as int);
    semi_table(m) + ((semi_table(m + 1) - semi_table(m)) * frac) / (FP_ONE as int)
}

/// The clamped semitone offset named by a control voltage.
pub open spec fn pitch_semitones(v: int) -> int {
    let s = 128 * v - 69 * (FP_ONE as int);
    if s < -SEMITONE_RANGE {
        -SEMITONE_RANGE as int
    } else if s > SEMITONE_RANGE {
        SEMITONE_RANGE as int
    } else {
        s
    }
}

/// The frequency in fixed-point Hz named by a control voltage.
pub open spec fn pitch_s(v: int) -> int {
    let s = pitch_semitones(v);
    let k = s / (TWELVE_SEMITONES as int);
    let r = s % (TWELVE_SEMITONES as int);
    let g = semi_interp(r);
    if k >= 0 {
        sat(440 * g * pow2(k as nat))
    } else {
        sat((440 * g) / pow2((-k) as nat) as int)
    }
}

/// The interpolated ratio always lies in `[FP_ONE, 2 * FP_ONE)`.
proof fn lemma_semi_interp_bounds(r: int)
    requires
        0 <= r < TWELVE_SEMITONES,
    ensures
        FP_ONE <= semi_interp(r) < 2 * FP_ONE,
{
    let fp = FP_ONE as int;
    let m = r / fp;
    let frac = r % fp;
    vstd::arithmetic::div_mod::lemma_fundamental_div_mod(r, fp);
    vstd::arithmetic::div_mod::lemma_mod_division_less_than_divisor(r, fp);
    assert(0 <= m < 12) by {
        vstd::arithmetic::div_mod::lemma_div_is_ordered(0, r, fp);
        vstd::arithmetic::div_mod::lemma_multiply_divide_lt(r, fp, 12);
    }
    let diff = semi_table(m + 1) - semi_table(m);
    assert(0 < diff <= 30132249);
    let q = (diff * frac) / fp;
    assert(0 <= diff * frac < diff * fp) by (nonlinear_arith)
        requires
            0 < diff,
            0 <= frac < fp,
    ;
    vstd::arithmetic::div_mod::lemma_div_is_ordered(0, diff * frac, fp);
    vstd::arithmetic::div_mod::lemma_multiply_divide_lt(diff * frac, fp, diff);
    assert(0 <= q < diff);
    assert(semi_table(m) <= semi_interp(r) < semi_table(m + 1));
}

/// Compute `pow2(e)` for a small exponent.
fn pow2_small(e: u64) -> (r: u64)
    requires
        e <= 62,
    ensures
        r == pow2(e as nat),
        r >= 1,
{
    proof {
        vstd::arithmetic::power2::lemma2_to64();
        vstd::arithmetic::power2::lemma2_to64_rest();
    }
    let mut p: u64 = 1;
    let mut i: u64 = 0;
    while i < e
        invariant
            i <= e <= 62,
            p == pow2(i as nat),
        decreases e - i,
    {
        proof {
            vstd::arithmetic::power2::lemma_pow2_strictly_increases(i as nat, 63);
            vstd::arithmetic::power2::lemma2_to64_rest();
            vstd::arithmetic::power2::lemma_pow2_adds(i as nat, 1);
            vstd::arithmetic::power2::lemma2_to64();
        }
        p = p * 2;
        i = i + 1;
    }
    p
}

/// Floor-divide a clamped semitone offset by one octave, returning the
/// octave number and the sub-octave remainder.
fn divmod_octave(s: i64) -> (r: (i64, i64))
    requires
        -SEMITONE_RANGE <= s <= SEMITONE_RANGE,
    ensures
        r.0 == s as int / (TWELVE_SEMITONES as int),
        r.1 == s as int % (TWELVE_SEMITONES as int),
        0 <= r.1 < TWELVE_SEMITONES,
        -22 <= r.0 <= 21,
{
    let tw = TWELVE_SEMITONES;
    if s >= 0 {
        let q: i64 = ((s as u64) / (tw as u64)) as i64;
        proof {
            vstd::arithmetic::div_mod::lemma_fundamental_div_mod(s as int, tw as int);
            vstd::arithmetic::div_mod::lemma_mod_division_less_than_divisor(s as int, tw as int);
            vstd::arithmetic::div_mod::lemma_div_is_ordered(0, s as int, tw as int);
            vstd::arithmetic::div_mod::lemma_multiply_divide_lt(s as int, tw as int, 22);
        }
        let rem: i64 = s - q * tw;
        (q, rem)
    } else {
        let m: u64 = (-s) as u64;
        let q0: u64 = (m + (tw as u64) - 1) / (tw as u64);
        proof {
            let mi = m as int;
            let twi = tw as int;
            vstd::arithmetic::div_mod::lemma_fundamental_div_mod(mi + twi - 1, twi);
            vstd::arithmetic::div_mod::lemma_mod_division_less_than_divisor(mi + twi - 1, twi);
            vstd::arithmetic::div_mod::lemma_div_is_ordered(0, mi + twi - 1, twi);
            vstd::arithmetic::div_mod::lemma_multiply_divide_lt(mi + twi - 1, twi, 23);
            assert(q0 * tw >= m);
            assert(q0 * tw <= m + tw - 1);
        }
        let rem: i64 = (q0 as i64) * tw - (m as i64);
        proof {
            vstd::arithmetic::div_mod::lemma_fundamental_div_mod_converse(
                s as int,
                tw as int,
                -(q0 as int),
                rem as int,
            );
        }
        (-(q0 as i64), rem)
    }
}

/// Convert a control voltage to a frequency in fixed-point Hz by the
/// exponential pitch law.
pub fn calculate_freq(voltage: i64) -> (r: i64)
    requires
        fp_ok(voltage as int),
    ensures
        r == pitch_s(voltage as int),
        0 <= r <= FP_SAT,
{
    let s0: i64 = 128 * voltage - 69 * FP_ONE;
    let s: i64 = if s0 < -SEMITONE_RANGE {
        -SEMITONE_RANGE
    } else if s0 > SEMITONE_RANGE {
        SEMITONE_RANGE
    } else {
        s0
    };
    let (k, rem) = divmod_octave(s);
    let m_idx: u64 = (rem as u64) / (FP_ONE as u64);
    let frac: u64 = (rem as u64) - m_idx * (FP_ONE as u64);
    proof {
        vstd::arithmetic::div_mod::lemma_fundamental_div_mod(rem as int, FP_ONE as int);
        vstd::arithmetic::div_mod::lemma_mod_division_less_than_divisor(rem as int, FP_ONE as int);
        vstd::arithmetic::div_mod::lemma_div_is_ordered(0, rem as int, FP_ONE as int);
        vstd::arithmetic::div_mod::lemma_multiply_divide_lt(rem as int, FP_ONE as int, 12);
        lemma_semi_interp_bounds(rem as int);
    }
    let (lo, hi): (u64, u64) = if m_idx == 0 {
        (268435456, 284397459)
    } else if m_idx == 1 {
        (284397459, 301308612)
    } else if m_idx == 2 {
        (301308612, 319225354)
    } else if m_idx == 3 {
        (319225354, 338207482)
    } else if m_idx == 4 {
        (338207482, 358318345)
    } else if m_idx == 5 {
        (358318345, 379625062)
    } else if m_idx == 6 {
        (379625062, 402198743)
    } else if m_idx == 7 {
        (402198743, 426114725)
    } else if m_idx == 8 {
        (426114725, 451452825)
    } else if m_idx == 9 {
        (451452825, 478297607)
    } else if m_idx == 10 {
        (478297607, 506738663)
    } else {
        (506738663, 536870912)
    };
    let g: u64 = lo + (hi - lo) * frac / (FP_ONE as u64);
    let base: u64 = 440 * g;
    if k >= 0 {
        let p2 = pow2_small(k as u64);
        proof {
            vstd::arithmetic::power2::lemma2_to64();
            vstd::arithmetic::power2::lemma_pow2_strictly_increases(k as nat, 22);
            assert(base * p2 <= 440 * 536870912 * 4194304) by (nonlinear_arith)
                requires
                    0 <= base <= 440 * 536870912,
                    0 <= p2 <= 4194304,
            ;
        }
        let prod: u64 = base * p2;
        if prod > FP_SAT as u64 {
            FP_SAT
        } else {
            prod as i64
        }
    } else {
        let p2 = pow2_small((-k) as u64);
        let q: u64 = base / p2;
        proof {
            vstd::arithmetic::div_mod::lemma_div_is_ordered(0, base as int, p2 as int);
            vstd::arithmetic::div_mod::lemma_div_is_ordered(
                base as int,
                440int * 536870912,
                p2 as int,
            );
            vstd::arithmetic::div_mod::lemma_div_is_ordered_by_denominator(
                440int * 536870912,
                1,
                p2 as int,
            );
        }
        q as i64
    }
}

/// The reference point of the pitch law: control voltage `69 / 128` maps
/// to exactly 440 in fixed-point Hz.
pub proof fn lemma_pitch_reference()
    ensures
        pitch_s(REFERENCE_VOLTAGE as int) == 440 * FP_ONE,
{
    let s = pitch_semitones(REFERENCE_VOLTAGE as int);
    assert(s == 0);
    assert(0int / (TWELVE_SEMITONES as int) == 0);
    assert(0int % (TWELVE_SEMITONES as int) == 0);
    vstd::arithmetic::power2::lemma2_to64();
    assert(semi_interp(0) == FP_ONE as int) by {
        assert(0int / (268435456 as int) == 0);
        assert(0int % (268435456 as int) == 0);
    }
}

/// Raising the control voltage by twelve semitones doubles the frequency
/// exactly, on the range from the 440 reference up to the stated top,
/// where the octave shift is a multiplication and cannot saturate.
pub proof fn lemma_pitch_octave_doubles(v: int)
    requires
        REFERENCE_VOLTAGE <= v,
        v + OCTAVE_VOLTAGE <= OCTAVE_LAW_TOP_VOLTAGE,
    ensures
        pitch_s(v + OCTAVE_VOLTAGE) == 2 * pitch_s(v),
{
    let fp = FP_ONE as int;
    // Evaluate the interpolation at zero early, before the context grows.
    assert(semi_interp(0) == 268435456) by {
        vstd::arithmetic::div_mod::lemma_basic_div(0, FP_ONE as int);
        vstd::arithmetic::div_mod::lemma_small_mod(0, FP_ONE as nat);
        vstd::arithmetic::div_mod::lemma_basic_div(0, FP_ONE as int);
    }
    let tw = TWELVE_SEMITONES as int;
    let s = pitch_semitones(v);
    let s2 = pitch_semitones(v + OCTAVE_VOLTAGE);
    assert(s == 128 * v - 69 * fp);
    assert(s2 == s + tw);
    let k = s / tw;
    let r = s % tw;
    vstd::arithmetic::div_mod::lemma_fundamental_div_mod(s, tw);
    vstd::arithmetic::div_mod::lemma_mod_division_less_than_divisor(s, tw);
    vstd::arithmetic::div_mod::lemma_div_is_ordered(0, s, tw);
    assert(s2 / tw == k + 1) by {
        vstd::arithmetic::div_mod::lemma_div_plus_one(s, tw);
    }
    assert(s2 % tw == r) by {
        vstd::arithmetic::div_mod::lemma_mod_add_multiples_vanish(s, tw);
    }
    let g = semi_interp(r);
    lemma_semi_interp_bounds(r);
    // The octave count is small enough that no saturation can occur on
    // either side: at the very top the remainder is zero.
    assert(s2 <= 84 * fp);
    vstd::arithmetic::power2::lemma2_to64();
    if k + 1 == 7 {
        assert(s2 == 84 * fp) by {
            vstd::arithmetic::div_mod::lemma_fundamental_div_mod(s2, tw);
            vstd::arithmetic::div_mod::lemma_mod_division_less_than_divisor(s2, tw);
            assert(s2 == tw * 7 + s2 % tw);
            if s2 % tw > 0 {
                assert(s2 > 84 * fp);
            }
        }
        assert(r == 0) by {
            vstd::arithmetic::div_mod::lemma_fundamental_div_mod(s, tw);
        }
        assert(g == fp) by {
            assert(semi_interp(0) == fp);
        }
        assert(pow2(7) == 128);
        assert(440 * g * 128 <= FP_SAT);
        assert(pow2(6) == 64);
        assert(pitch_s(v) == sat(440 * g * 64));
        assert(pitch_s(v + OCTAVE_VOLTAGE) == sat(440 * g * 128));
    } else {
        assert(0 <= k <= 5) by {
            vstd::arithmetic::div_mod::lemma_multiply_divide_lt(s2, tw, 8);
        }
        let p = pow2(k as nat) as int;
        assert(1 <= p <= 32) by {
            vstd::arithmetic::power2::lemma_pow2_strictly_increases(k as nat, 6);
            vstd::arithmetic::power2::lemma_pow2_pos(k as nat);
        }
        assert(pow2((k + 1) as nat) == 2 * p) by {
            vstd::arithmetic::power2::lemma_pow2_adds(k as nat, 1);
        }
        assert(440 * g * p < FP_SAT && 440 * g * (2 * p) <= FP_SAT) by (nonlinear_arith)
            requires
                FP_ONE <= g < 2 * FP_ONE,
                1 <= p <= 32,
                FP_SAT == 17592186044416,
                FP_ONE == 268435456,
        ;
        assert(440 * g * (2 * p) == 2 * (440 * g * p)) by (nonlinear_arith);
        assert(pitch_s(v) == sat(440 * g * p));
        assert(pitch_s(v + OCTAVE_VOLTAGE) == sat(440 * g * (2 * p)));
    }
}

} // verus!
