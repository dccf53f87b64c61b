//! Fixed-point sample arithmetic.
//!
//! Every signal value in the engine is an `i64` carrying 28 fractional bits:
//! `FP_ONE` stands for 1.0, full audio scale. All arithmetic saturates at
//! `FP_SAT` (2^16 in signal units), so values stay inside a closed range and
//! no operation can overflow or panic. The spec functions `fp_add_s`,
//! `fp_mul_s` and `fp_div_s` give the exact integer meaning of each operation;
//! the executable functions are proved to match them.

use vstd::prelude::*;

verus! {

/// 1.0 in the sample format: 2^28.
pub const FP_ONE: i64 = 268435456;

/// 0.5 in the sample format: 2^27.
pub const FP_HALF: i64 = 134217728;

/// Saturation rail: 2^44, i.e. 65536.0 in signal units. Every stored sample,
/// parameter and intermediate stays within `[-FP_SAT, FP_SAT]`.
pub const FP_SAT: i64 = 17592186044416;

/// A value is in the representable signal range.
pub open spec fn fp_ok(a: int) -> bool {
    -FP_SAT <= a <= FP_SAT
}

/// Truncating (round-toward-zero) division of `a` by positive `b`,
/// matching hardware division of the magnitudes.
pub open spec fn tdiv(a: int, b: int) -> int
    recommends
        b > 0,
{
    if a >= 0 {
        a / b
    } else {
        -((-a) / b)
    }
}

/// Clamp to the saturation rails.
pub open spec fn sat(a: int) -> int {
    if a > FP_SAT {
        FP_SAT as int
    } else if a < -FP_SAT {
        -FP_SAT as int
    } else {
        a
    }
}

/// Saturating fixed-point addition.
pub open spec fn fp_add_s(a: int, b: int) -> int {
    sat(a + b)
}

/// Saturating fixed-point subtraction.
pub open spec fn fp_sub_s(a: int, b: int) -> int {
    sat(a - b)
}

/// Saturating fixed-point multiplication: `a * b / FP_ONE`, truncated
/// toward zero.
pub open spec fn fp_mul_s(a: int, b: int) -> int {
    sat(tdiv(a * b, FP_ONE as int))
}

/// Saturating fixed-point division by positive `b`: `a * FP_ONE / b`,
/// truncated toward zero.
pub open spec fn fp_div_s(a: int, b: int) -> int
    recommends
        b > 0,
{
    sat(tdiv(a * FP_ONE, b))
}

/// Clamp into `[0, FP_ONE]` (a unit control value).
pub open spec fn clamp01_s(a: int) -> int {
    if a < 0 {
        0
    } else if a > FP_ONE {
        FP_ONE as int
    } else {
        a
    }
}

/// Euclidean remainder by `FP_ONE`: the phase wrap into `[0, FP_ONE)`.
pub open spec fn fract_s(a: int) -> int {
    a % (FP_ONE as int)
}

proof fn lemma_signed_product(a: int, b: int, ua: int, ub: int)
    by (nonlinear_arith)
    requires
        ua == if a >= 0 { a } else { -a },
        ub == if b >= 0 { b } else { -b },
    ensures
        ua >= 0,
        ub >= 0,
        a * b == if (a >= 0) == (b >= 0) { ua * ub } else { -(ua * ub) },
{
}

proof fn lemma_mul_bound(ua: int, ub: int, c: int)
    by (nonlinear_arith)
    requires
        0 <= ua <= c,
        0 <= ub <= c,
        c >= 0,
    ensures
        0 <= ua * ub <= c * c,
{
}

/// Saturating addition.
pub fn fp_add(a: i64, b: i64) -> (r: i64)
    requires
        fp_ok(a as int),
        fp_ok(b as int),
    ensures
        r == fp_add_s(a as int, b as int),
        fp_ok(r as int),
{
    let s: i64 = a + b;
    if s > FP_SAT {
        FP_SAT
    } else if s < -FP_SAT {
        -FP_SAT
    } else {
        s
    }
}

/// Saturating subtraction.
pub fn fp_sub(a: i64, b: i64) -> (r: i64)
    requires
        fp_ok(a as int),
        fp_ok(b as int),
    ensures
        r == fp_sub_s(a as int, b as int),
        fp_ok(r as int),
{
    let s: i64 = a - b;
    if s > FP_SAT {
        FP_SAT
    } else if s < -FP_SAT {
        -FP_SAT
    } else {
        s
    }
}

/// Saturating fixed-point multiplication.
pub fn fp_mul(a: i64, b: i64) -> (r: i64)
    requires
        fp_ok(a as int),
        fp_ok(b as int),
    ensures
        r == fp_mul_s(a as int, b as int),
        fp_ok(r as int),
{
    let neg: bool = (a < 0) != (b < 0);
    let ua: u64 = if a < 0 {
        (-a) as u64
    } else {
        a as u64
    };
    let ub: u64 = if b < 0 {
        (-b) as u64
    } else {
        b as u64
    };
    proof {
        lemma_signed_product(a as int, b as int, ua as int, ub as int);
        lemma_mul_bound(ua as int, ub as int, FP_SAT as int);
    }
    let p: u128 = (ua as u128) * (ub as u128);
    let q: u128 = p / (FP_ONE as u128);
    let qc: u128 = if q > (FP_SAT as u128) {
        FP_SAT as u128
    } else {
        q
    };
    let m: i64 = qc as i64;
    if neg {
        -m
    } else {
        m
    }
}

/// Saturating fixed-point division by a positive divisor.
pub fn fp_div(a: i64, b: i64) -> (r: i64)
    requires
        fp_ok(a as int),
        0 < b <= FP_SAT,
    ensures
        r == fp_div_s(a as int, b as int),
        fp_ok(r as int),
{
    let neg: bool = a < 0;
    let ua: u64 = if a < 0 {
        (-a) as u64
    } else {
        a as u64
    };
    let p: u128 = (ua as u128) * (FP_ONE as u128);
    let q: u128 = p / (b as u128);
    let qc: u128 = if q > (FP_SAT as u128) {
        FP_SAT as u128
    } else {
        q
    };
    proof {
        lemma_signed_product(a as int, FP_ONE as int, ua as int, FP_ONE as int);
    }
    let m: i64 = qc as i64;
    if neg {
        -m
    } else {
        m
    }
}

/// Bring an arbitrary value onto the saturation rails; the identity on
/// values already in range.
pub fn fp_clip(a: i64) -> (r: i64)
    ensures
        r == sat(a as int),
        fp_ok(r as int),
{
    if a > FP_SAT {
        FP_SAT
    } else if a < -FP_SAT {
        -FP_SAT
    } else {
        a
    }
}

/// Clamp into the unit control range `[0, FP_ONE]`.
pub fn fp_clamp01(a: i64) -> (r: i64)
    ensures
        r == clamp01_s(a as int),
        0 <= r <= FP_ONE,
{
    if a < 0 {
        0
    } else if a > FP_ONE {
        FP_ONE
    } else {
        a
    }
}

/// Wrap a phase into `[0, FP_ONE)` (Euclidean remainder, so negative
/// arguments wrap upward).
pub fn fp_fract(a: i64) -> (r: i64)
    requires
        fp_ok(a as int),
    ensures
        r == fract_s(a as int),
        0 <= r < FP_ONE,
{
    if a >= 0 {
        let u: u64 = (a as u64) % (FP_ONE as u64);
        u as i64
    } else {
        let u: u64 = ((-a) as u64) % (FP_ONE as u64);
        proof {
            lemma_neg_mod(a as int, FP_ONE as int);
        }
        if u == 0 {
            0
        } else {
            FP_ONE - (u as i64)
        }
    }
}

proof fn lemma_neg_mod(a: int, m: int)
    requires
        a < 0,
        m > 0,
    ensures
        (-a) % m == 0 ==> a % m == 0,
        (-a) % m != 0 ==> a % m == m - (-a) % m,
{
    let u = (-a) % m;
    let k = (-a) / m;
    vstd::arithmetic::div_mod::lemma_fundamental_div_mod(-a, m);
    vstd::arithmetic::div_mod::lemma_mod_division_less_than_divisor(-a, m);
    if u == 0 {
        assert(a == (-k) * m + 0) by (nonlinear_arith)
            requires
                -a == m * k + u,
                u == 0,
        ;
        vstd::arithmetic::div_mod::lemma_fundamental_div_mod_converse(a, m, -k, 0);
    } else {
        assert(a == (-k - 1) * m + (m - u)) by (nonlinear_arith)
            requires
                -a == m * k + u,
        ;
        vstd::arithmetic::div_mod::lemma_fundamental_div_mod_converse(a, m, -k - 1, m - u);
    }
}

} // verus!
