//! Clamped and sign-safe fixed-point arithmetic.
//!
//! Every per-tick integration step goes through [`clamp_add`], so all
//! actor fields stay within `[-FIX_MAX, FIX_MAX]` forever; the clamp is
//! unreachable at the magnitudes the game uses, but it makes the bound an
//! invariant instead of an assumption.
use vstd::prelude::*;

use crate::FIX_MAX;
use crate::TRIG_ONE;

verus! {

/// `v` clamped to `[-m, m]`.
pub open spec fn clamp_spec(v: int, m: int) -> int {
    if v > m {
        m
    } else if v < -m {
        -m
    } else {
        v
    }
}

/// `a + b` clamped to `[-FIX_MAX, FIX_MAX]`.
pub open spec fn cadd(a: int, b: int) -> int {
    clamp_spec(a + b, FIX_MAX as int)
}

/// Saturating tick-counter increment.
pub open spec fn inc_sat_spec(c: u32) -> u32 {
    if c == u32::MAX {
        c
    } else {
        (c + 1) as u32
    }
}

/// Saturating `u32` addition, for rescheduled trigger ticks.
pub open spec fn add_sat_spec(a: u32, b: u32) -> u32 {
    if a + b <= u32::MAX {
        (a + b) as u32
    } else {
        u32::MAX
    }
}

/// Truncating (toward zero) division of `v` by a positive divisor `d`.
pub open spec fn div_trunc(v: int, d: int) -> int {
    if v >= 0 {
        v / d
    } else {
        -((-v) / d)
    }
}

/// Addition clamped to `[-FIX_MAX, FIX_MAX]`.
pub fn clamp_add(a: i64, b: i64) -> (r: i64)
    requires
        -FIX_MAX <= a <= FIX_MAX,
        -4 * FIX_MAX <= b <= 4 * FIX_MAX,
    ensures
        r == cadd(a as int, b as int),
        -FIX_MAX <= r <= FIX_MAX,
{
    let s = a + b;
    if s > FIX_MAX {
        FIX_MAX
    } else if s < -FIX_MAX {
        -FIX_MAX
    } else {
        s
    }
}

/// Saturating tick-counter increment.
pub fn inc_sat(c: u32) -> (r: u32)
    ensures
        r == inc_sat_spec(c),
{
    if c == u32::MAX {
        c
    } else {
        c + 1
    }
}

/// Saturating `u32` addition.
pub fn add_sat(a: u32, b: u32) -> (r: u32)
    ensures
        r == add_sat_spec(a, b),
{
    if a <= u32::MAX - b {
        a + b
    } else {
        u32::MAX
    }
}

/// Quotient of non-negative `a` by positive `b`.
pub fn div_pos(a: i64, b: i64) -> (r: i64)
    requires
        0 <= a,
        0 < b,
    ensures
        r == a as int / b as int,
        0 <= r <= a,
{
    let q = (a as u64) / (b as u64);
    proof {
        vstd::arithmetic::div_mod::lemma_fundamental_div_mod(a as int, b as int);
        vstd::arithmetic::div_mod::lemma_mod_bound(a as int, b as int);
        assert(q <= a) by (nonlinear_arith)
            requires
                b as int * q + a as int % b as int == a,
                0 <= a as int % b as int,
                q >= 0,
                b >= 1,
        ;
    }
    q as i64
}

/// `v * s / TRIG_ONE`, truncated toward zero: the cartesian component of
/// a polar velocity, where `s` is a `TRIG_ONE`-scaled sine or cosine.
pub fn mul_trig(v: i64, s: i64) -> (r: i64)
    requires
        -FIX_MAX <= v <= FIX_MAX,
        -TRIG_ONE <= s <= TRIG_ONE,
    ensures
        r == div_trunc(v as int * s as int, TRIG_ONE as int),
        -FIX_MAX <= r <= FIX_MAX,
{
    let va: u64 = if v >= 0 { v as u64 } else { (-v) as u64 };
    let sa: u64 = if s >= 0 { s as u64 } else { (-s) as u64 };
    assert(va * sa <= FIX_MAX * TRIG_ONE) by (nonlinear_arith)
        requires
            va == if v >= 0 { v as int } else { -(v as int) },
            sa == if s >= 0 { s as int } else { -(s as int) },
            -FIX_MAX <= v <= FIX_MAX,
            -TRIG_ONE <= s <= TRIG_ONE,
    ;
    let m = va * sa;
    let q = m / (TRIG_ONE as u64);
    proof {
        assert(m as int == if v as int * s as int >= 0 { v as int * s as int } else {
            -(v as int * s as int)
        }) by (nonlinear_arith)
            requires
                m == va * sa,
                va == if v >= 0 { v as int } else { -(v as int) },
                sa == if s >= 0 { s as int } else { -(s as int) },
        ;
        assert(m <= FIX_MAX * TRIG_ONE);
        assert(q <= m);
        assert(va <= FIX_MAX && sa <= TRIG_ONE);
        assert(q * TRIG_ONE <= m) by {
            vstd::arithmetic::div_mod::lemma_fundamental_div_mod(m as int, TRIG_ONE as int);
            vstd::arithmetic::div_mod::lemma_mod_bound(m as int, TRIG_ONE as int);
        }
        assert(q <= FIX_MAX) by (nonlinear_arith)
            requires
                q * TRIG_ONE <= m,
                m <= FIX_MAX * TRIG_ONE,
                q >= 0,
        ;
        assert(((v >= 0) == (s >= 0)) ==> v as int * s as int >= 0) by (nonlinear_arith);
        assert(((v >= 0) != (s >= 0)) ==> v as int * s as int <= 0) by (nonlinear_arith);
        assert(v as int * s as int == 0 ==> m == 0) by (nonlinear_arith)
            requires
                m as int == if v as int * s as int >= 0 { v as int * s as int } else {
                    -(v as int * s as int)
                },
        ;
    }
    if (v >= 0) == (s >= 0) {
        q as i64
    } else {
        -(q as i64)
    }
}

} // verus!
