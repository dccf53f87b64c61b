//! Waveform synthesis.
//!
//! A phase is a fixed-point value in `[0, FP_ONE)`, one unit per cycle. The
//! sine is a piecewise parabola — exact at the quarter points and within a
//! few percent elsewhere, which is the customary trade for integer
//! arithmetic. Saw and square apply a polynomial band-limited step (PolyBLEP)
//! correction around their discontinuities to suppress aliasing; the
//! triangle is continuous and needs none. Every shape is exactly pinned to
//! its spec formula and bounded by twice full scale.

use vstd::prelude::*;

use crate::fixed::{fp_ok, tdiv, FP_HALF, FP_ONE};

verus! {

/// The four oscillator shapes.
#[derive(Clone, Copy, PartialEq, Eq, Structural, Debug)]
pub enum WaveShape {
    Saw,
    Sine,
    Square,
    Triangle,
}

impl Default for WaveShape {
    /// The default shape is a sine.
    fn default() -> (r: Self)
        ensures
            r == WaveShape::Sine,
    {
        WaveShape::Sine
    }
}

/// The parabolic sine: `16 p (1/2 - p)` on the first half cycle, mirrored
/// negative on the second. Exactly 0, 1, 0, -1 at the quarter points.
pub open spec fn sine_s(p: int) -> int
    recommends
        0 <= p < FP_ONE,
{
    if p < FP_HALF {
        (16 * p * (FP_HALF - p)) / (FP_ONE as int)
    } else {
        -((16 * (p - FP_HALF) * (FP_ONE - p)) / (FP_ONE as int))
    }
}

/// The PolyBLEP correction: a quadratic smoothing ramp applied within one
/// phase increment of the wrap point, zero elsewhere.
pub open spec fn poly_blep_s(phase: int, inc: int) -> int
    recommends
        0 <= phase < FP_ONE,
        0 <= inc,
{
    if phase < inc {
        let t = tdiv(phase * FP_ONE, inc);
        2 * t - (t * t) / (FP_ONE as int) - FP_ONE
    } else if phase > FP_ONE - inc {
        let t = tdiv((phase - FP_ONE) * FP_ONE, inc);
        (t * t) / (FP_ONE as int) + 2 * t + FP_ONE
    } else {
        0
    }
}

/// Band-limited sawtooth: the raw ramp `2 p - 1` minus the wrap correction.
pub open spec fn saw_s(phase: int, inc: int) -> int {
    2 * phase - FP_ONE - poly_blep_s(phase, inc)
}

/// Band-limited square: the raw square corrected at both edges.
pub open spec fn square_s(phase: int, inc: int) -> int {
    let raw: int = if phase < FP_HALF {
        FP_ONE as int
    } else {
        -FP_ONE as int
    };
    raw + poly_blep_s(phase, inc) - poly_blep_s((phase + FP_HALF) % (FP_ONE as int), inc)
}

/// Triangle: a closed-form ramp, continuous across the wrap.
pub open spec fn triangle_s(p: int) -> int
    recommends
        0 <= p < FP_ONE,
{
    if p < FP_HALF {
        FP_ONE - 4 * p
    } else {
        FP_ONE - 4 * (FP_ONE - p)
    }
}

/// The value of a band-limited oscillator shape at a phase, given the
/// per-sample phase increment the BLEP window is sized by.
pub open spec fn wave_s(shape: WaveShape, phase: int, inc: int) -> int {
    match shape {
        WaveShape::Saw => saw_s(phase, inc),
        WaveShape::Sine => sine_s(phase),
        WaveShape::Square => square_s(phase, inc),
        WaveShape::Triangle => triangle_s(phase),
    }
}

/// The value of a plain (not band-limited) shape at a phase, as a
/// low-frequency oscillator evaluates it.
pub open spec fn lfo_wave_s(shape: WaveShape, phase: int) -> int {
    match shape {
        WaveShape::Saw => 2 * phase - FP_ONE,
        WaveShape::Sine => sine_s(phase),
        WaveShape::Square => if phase < FP_HALF {
            FP_ONE as int
        } else {
            -FP_ONE as int
        },
        WaveShape::Triangle => triangle_s(phase),
    }
}

/// The parabolic sine, evaluated exactly.
pub fn sine_fp(p: i64) -> (r: i64)
    requires
        0 <= p < FP_ONE,
    ensures
        r == sine_s(p as int),
        -FP_ONE <= r <= FP_ONE,
{
    if p < FP_HALF {
        proof {
            assert(16 * (p as int) * ((FP_HALF - p) as int) <= 72057594037927936)
                by (nonlinear_arith)
                requires
                    0 <= p < FP_HALF == 134217728,
            ;
        }
        let prod: u64 = 16 * (p as u64) * ((FP_HALF - p) as u64);
        let q: u64 = prod / (FP_ONE as u64);
        proof {
            vstd::arithmetic::div_mod::lemma_div_is_ordered(
                prod as int,
                72057594037927936,
                FP_ONE as int,
            );
        }
        q as i64
    } else {
        let a: u64 = (p - FP_HALF) as u64;
        let b: u64 = (FP_ONE - p) as u64;
        proof {
            assert(16 * (a as int) * (b as int) <= 72057594037927936) by (nonlinear_arith)
                requires
                    0 <= a,
                    0 <= b,
                    a + b == 134217728,
            ;
        }
        let prod: u64 = 16 * a * b;
        let q: u64 = prod / (FP_ONE as u64);
        proof {
            vstd::arithmetic::div_mod::lemma_div_is_ordered(
                prod as int,
                72057594037927936,
                FP_ONE as int,
            );
        }
        -(q as i64)
    }
}

/// The sine is positive strictly inside the first half cycle; used by the
/// filter to divide by it safely.
pub proof fn lemma_sine_positive(p: int)
    requires
        1 <= p <= FP_HALF - 1,
    ensures
        sine_s(p) >= 1,
{
    assert(16 * p * (FP_HALF - p) >= 16 * (FP_HALF - 1)) by (nonlinear_arith)
        requires
            1 <= p <= FP_HALF - 1,
            FP_HALF == 134217728,
    ;
    assert((16 * p * (FP_HALF - p)) / (FP_ONE as int) >= 1) by {
        vstd::arithmetic::div_mod::lemma_div_is_ordered(
            FP_ONE as int,
            16 * p * (FP_HALF - p),
            FP_ONE as int,
        );
        assert((FP_ONE as int) / (FP_ONE as int) == 1) by (nonlinear_arith)
            requires
                FP_ONE == 268435456,
        ;
    }
}

/// The PolyBLEP correction, evaluated exactly.
pub fn poly_blep(phase: i64, inc: i64) -> (r: i64)
    requires
        0 <= phase < FP_ONE,
        0 <= inc,
        fp_ok(inc as int),
    ensures
        r == poly_blep_s(phase as int, inc as int),
        -FP_ONE <= r <= FP_ONE,
{
    if phase < inc {
        let tq: u64 = (phase as u64) * (FP_ONE as u64) / (inc as u64);
        proof {
            assert((phase as int) * (FP_ONE as int) < (inc as int) * ((FP_ONE + 1) as int))
                by (nonlinear_arith)
                requires
                    0 <= phase < inc,
                    FP_ONE == 268435456,
            ;
            vstd::arithmetic::div_mod::lemma_multiply_divide_lt(
                (phase as int) * (FP_ONE as int),
                inc as int,
                FP_ONE + 1,
            );
        }
        let t: i64 = tq as i64;
        proof {
            assert((t as int) * (t as int) <= (t as int) * (FP_ONE as int)) by (nonlinear_arith)
                requires
                    0 <= t <= FP_ONE,
            ;
            vstd::arithmetic::div_mod::lemma_div_is_ordered(
                (t as int) * (t as int),
                (t as int) * (FP_ONE as int),
                FP_ONE as int,
            );
            vstd::arithmetic::div_mod::lemma_div_by_multiple(t as int, FP_ONE as int);
            assert((t as int) * (FP_ONE as int) == (FP_ONE as int) * (t as int))
                by (nonlinear_arith);
            vstd::arithmetic::div_mod::lemma_div_is_ordered(
                0,
                (t as int) * (t as int),
                FP_ONE as int,
            );
        }
        let ttq: u64 = (t as u64) * (t as u64) / (FP_ONE as u64);
        let tt: i64 = ttq as i64;
        2 * t - tt - FP_ONE
    } else if phase > FP_ONE - inc {
        // Here `FP_ONE - phase < inc`, so the magnitude of t stays below one.
        let m: u64 = (FP_ONE - phase) as u64;
        let tmq: u64 = m * (FP_ONE as u64) / (inc as u64);
        proof {
            assert((m as int) * (FP_ONE as int) < (inc as int) * (FP_ONE as int))
                by (nonlinear_arith)
                requires
                    0 < m < inc,
                    FP_ONE == 268435456,
            ;
            vstd::arithmetic::div_mod::lemma_multiply_divide_lt(
                (m as int) * (FP_ONE as int),
                inc as int,
                FP_ONE as int,
            );
        }
        let tmag: i64 = tmq as i64;
        proof {
            assert((tmag as int) * (tmag as int) <= (tmag as int) * (FP_ONE as int))
                by (nonlinear_arith)
                requires
                    0 <= tmag <= FP_ONE,
            ;
            vstd::arithmetic::div_mod::lemma_div_is_ordered(
                (tmag as int) * (tmag as int),
                (tmag as int) * (FP_ONE as int),
                FP_ONE as int,
            );
            vstd::arithmetic::div_mod::lemma_div_by_multiple(tmag as int, FP_ONE as int);
            assert((tmag as int) * (FP_ONE as int) == (FP_ONE as int) * (tmag as int))
                by (nonlinear_arith);
            vstd::arithmetic::div_mod::lemma_div_is_ordered(
                0,
                (tmag as int) * (tmag as int),
                FP_ONE as int,
            );
            assert(tdiv((phase - FP_ONE) * (FP_ONE as int), inc as int) == -(tmag as int)) by {
                assert((phase - FP_ONE) * (FP_ONE as int) == -((m as int) * (FP_ONE as int)))
                    by (nonlinear_arith)
                    requires
                        m == FP_ONE - phase,
                ;
            }
            assert((-(tmag as int)) * (-(tmag as int)) == (tmag as int) * (tmag as int))
                by (nonlinear_arith);
        }
        let ttq: u64 = (tmag as u64) * (tmag as u64) / (FP_ONE as u64);
        let t: i64 = -tmag;
        let tt: i64 = ttq as i64;
        tt + 2 * t + FP_ONE
    } else {
        0
    }
}

/// A band-limited oscillator shape, evaluated exactly.
pub fn wave_fp(shape: WaveShape, phase: i64, inc: i64) -> (r: i64)
    requires
        0 <= phase < FP_ONE,
        0 <= inc,
        fp_ok(inc as int),
    ensures
        r == wave_s(shape, phase as int, inc as int),
        -3 * FP_ONE <= r <= 3 * FP_ONE,
{
    match shape {
        WaveShape::Saw => {
            let b = poly_blep(phase, inc);
            2 * phase - FP_ONE - b
        },
        WaveShape::Sine => sine_fp(phase),
        WaveShape::Square => {
            let raw: i64 = if phase < FP_HALF {
                FP_ONE
            } else {
                -FP_ONE
            };
            let b1 = poly_blep(phase, inc);
            let shifted: i64 = if phase < FP_HALF {
                phase + FP_HALF
            } else {
                phase - FP_HALF
            };
            proof {
                if phase < FP_HALF {
                    vstd::arithmetic::div_mod::lemma_small_mod(
                        (phase + FP_HALF) as nat,
                        FP_ONE as nat,
                    );
                } else {
                    assert((phase + FP_HALF) % (FP_ONE as int) == phase - FP_HALF) by {
                        vstd::arithmetic::div_mod::lemma_fundamental_div_mod_converse(
                            phase + FP_HALF,
                            FP_ONE as int,
                            1,
                            phase - FP_HALF,
                        );
                    }
                }
            }
            let b2 = poly_blep(shifted, inc);
            raw + b1 - b2
        },
        WaveShape::Triangle => {
            if phase < FP_HALF {
                FP_ONE - 4 * phase
            } else {
                FP_ONE - 4 * (FP_ONE - phase)
            }
        },
    }
}

/// A plain low-frequency oscillator shape, evaluated exactly.
pub fn lfo_wave_fp(shape: WaveShape, phase: i64) -> (r: i64)
    requires
        0 <= phase < FP_ONE,
    ensures
        r == lfo_wave_s(shape, phase as int),
        -FP_ONE <= r <= FP_ONE,
{
    match shape {
        WaveShape::Saw => 2 * phase - FP_ONE,
        WaveShape::Sine => sine_fp(phase),
        WaveShape::Square => if phase < FP_HALF {
            FP_ONE
        } else {
            -FP_ONE
        },
        WaveShape::Triangle => if phase < FP_HALF {
            FP_ONE - 4 * phase
        } else {
            FP_ONE - 4 * (FP_ONE - phase)
        },
    }
}

} // verus!
