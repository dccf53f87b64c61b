//! The release curve's fractional power.
//!
//! The envelope release follows `1 - ratio^0.4`, a curve that falls fast at
//! first and flattens out. In fixed point `ratio^0.4` is `(ratio^2)^(1/5)`,
//! computed with an exact integer fifth root: the result `r` is the unique
//! integer with `r^5 <= x < (r+1)^5`. The root is found by binary search and
//! proved equal to the spec-level root.

use vstd::prelude::*;

use crate::fixed::FP_ONE;

verus! {

/// The fifth power.
pub open spec fn pow5(r: int) -> int {
    r * r * r * r * r
}

/// The integer fifth root, specified as a downward scan: the largest
/// `r <= c` with `r^5 <= x`.
pub open spec fn froot5(x: int, c: nat) -> int
    decreases c,
{
    if c == 0 {
        0
    } else if pow5(c as int) <= x {
        c as int
    } else {
        froot5(x, (c - 1) as nat)
    }
}

/// `ratio^0.4` for a unit-range ratio, via the reduced-precision fifth
/// root of `ratio^2`: exact one at ratio one.
pub open spec fn pow04_s(ratio: int) -> int {
    let r20 = ratio / 256;
    froot5(r20 * r20 * 1152921504606846976, 1048576) * 256
}

proof fn lemma_pow5_monotonic(a: int, b: int)
    by (nonlinear_arith)
    requires
        0 <= a < b,
    ensures
        pow5(a) < pow5(b),
{
}

proof fn lemma_froot5_unique(x: int, c: nat, r: int)
    requires
        0 <= r <= c,
        pow5(r) <= x,
        x < pow5(r + 1),
        x < pow5(c as int + 1),
    ensures
        froot5(x, c) == r,
    decreases c,
{
    if c as int > r {
        assert(pow5(c as int) > x) by {
            lemma_pow5_monotonic(r + 1, c as int + 1);
            if r + 1 < c as int {
                lemma_pow5_monotonic(r + 1, c as int);
            }
        }
        lemma_froot5_unique(x, (c - 1) as nat, r);
    }
}

/// The fifth power, evaluated exactly for small arguments.
fn pow5_exec(m: u64) -> (r: u128)
    requires
        m <= 1048577,
    ensures
        r == pow5(m as int),
{
    proof {
        assert((m as int) * (m as int) <= 1048577 * 1048577) by (nonlinear_arith)
            requires
                0 <= m <= 1048577,
        ;
        assert((m as int) * (m as int) * ((m as int) * (m as int)) <= 1048577 * 1048577 * (1048577
            * 1048577)) by (nonlinear_arith)
            requires
                0 <= (m as int) * (m as int) <= 1048577 * 1048577,
        ;
        assert(1048577 * 1048577 * (1048577 * 1048577) * 1048577 < 0x100000000000000000000000000000000
        ) by (nonlinear_arith);
        assert((m as int) * (m as int) * ((m as int) * (m as int)) * (m as int) <= 1048577 * 1048577
            * (1048577 * 1048577) * 1048577) by (nonlinear_arith)
            requires
                0 <= (m as int) * (m as int) * ((m as int) * (m as int)) <= 1048577 * 1048577 * (
                1048577 * 1048577),
                0 <= m <= 1048577,
        ;
        assert((m as int) * (m as int) * ((m as int) * (m as int)) * (m as int) == pow5(m as int))
            by (nonlinear_arith);
    }
    let m2: u128 = (m as u128) * (m as u128);
    let m4: u128 = m2 * m2;
    m4 * (m as u128)
}

/// The integer fifth root by binary search.
fn fifth_root(x: u128) -> (r: u64)
    requires
        x <= 1267650600228229401496703205376,
    ensures
        r == froot5(x as int, 1048576),
        r <= 1048576,
        pow5(r as int) <= x < pow5(r as int + 1),
{
    let mut lo: u64 = 0;
    let mut hi: u64 = 1048577;
    proof {
        assert(pow5(0) == 0) by (nonlinear_arith);
        assert(pow5(1048577) > 1267650600228229401496703205376) by (nonlinear_arith);
    }
    while lo + 1 < hi
        invariant
            lo < hi <= 1048577,
            pow5(lo as int) <= x,
            x < pow5(hi as int),
        decreases hi - lo,
    {
        let mid: u64 = lo + (hi - lo) / 2;
        let p = pow5_exec(mid);
        if p <= x {
            lo = mid;
        } else {
            hi = mid;
        }
    }
    proof {
        lemma_froot5_unique(x as int, 1048576, lo as int);
    }
    lo
}

/// `ratio^0.4` for a unit-range ratio, exact at the endpoints: zero at
/// zero, one at one.
pub fn pow04(ratio: i64) -> (r: i64)
    requires
        0 <= ratio <= FP_ONE,
    ensures
        r == pow04_s(ratio as int),
        0 <= r <= FP_ONE,
{
    let r20: u64 = (ratio as u64) / 256;
    proof {
        vstd::arithmetic::div_mod::lemma_div_is_ordered(ratio as int, FP_ONE as int, 256);
        assert((FP_ONE as int) / 256 == 1048576);
        assert((r20 as int) * (r20 as int) <= 1048576 * 1048576) by (nonlinear_arith)
            requires
                0 <= r20 <= 1048576,
        ;
        assert(1048576 * 1048576 * 1152921504606846976int == 1267650600228229401496703205376int)
            by (nonlinear_arith);
        assert((r20 as int) * (r20 as int) * 1152921504606846976 <= 1267650600228229401496703205376)
            by (nonlinear_arith)
            requires
                0 <= (r20 as int) * (r20 as int) <= 1048576 * 1048576,
        ;
    }
    let x: u128 = (r20 as u128) * (r20 as u128) * 1152921504606846976;
    let p20 = fifth_root(x);
    (p20 as i64) * 256
}

} // verus!
