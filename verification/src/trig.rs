//! Fixed-point trigonometry on angle-fractions.
//!
//! An angle-fraction `a` (in units of `1/FRAC_ONE`) stands for the angle
//! `a * pi / FRAC_ONE` radians measured clockwise from straight down.
//! The sine uses Bhaskara's rational approximation on each half turn; the
//! inverse tangent uses a quadratic correction on each octant.  Both are
//! total, deterministic integer functions scaled by `TRIG_ONE`.
use vstd::prelude::*;

use crate::FIX_MAX;
use crate::FRAC_HALF;
use crate::FRAC_ONE;
use crate::FRAC_TWO;
use crate::TRIG_ONE;

verus! {

/// An angle-fraction reduced to `[0, FRAC_TWO)` (one full turn).
pub open spec fn norm_frac(a: int) -> int {
    a % (FRAC_TWO as int)
}

/// Bhaskara's sine approximation on a half turn: `f` in `[0, FRAC_ONE]`,
/// result in `[0, TRIG_ONE]`.
pub open spec fn sin_half_spec(f: int) -> int {
    16 * f * (FRAC_ONE - f) * TRIG_ONE / (5 * FRAC_ONE * FRAC_ONE - 4 * f * (FRAC_ONE - f))
}

/// `TRIG_ONE`-scaled sine of the angle-fraction `a`.
pub open spec fn sin_spec(a: int) -> int {
    let n = norm_frac(a);
    if n <= FRAC_ONE {
        sin_half_spec(n)
    } else {
        -sin_half_spec(n - FRAC_ONE)
    }
}

/// `TRIG_ONE`-scaled cosine of the angle-fraction `a`: the sine a quarter
/// turn later.
pub open spec fn cos_spec(a: int) -> int {
    sin_spec(a + FRAC_HALF)
}

/// Quadratically corrected inverse tangent on the first octant: `z` is a
/// `FRAC_ONE`-scaled slope in `[0, 1]`, the result an angle-fraction in
/// `[0, 1/4]`.
pub open spec fn atan_q_spec(z: int) -> int {
    z / 4 + 26069 * z * (FRAC_ONE - z) / (FRAC_ONE * FRAC_ONE)
}

/// The angle-fraction, in `(-1, 1]` fractions, of the direction from the
/// origin toward `(dx, dy)`: 0 points straight down (`+y`), a quarter
/// turn (`1/2`) points right, growing clockwise; both zero gives the
/// stable default 0.
pub open spec fn angle_to_spec(dx: int, dy: int) -> int {
    if dx == 0 && dy == 0 {
        0
    } else {
        let ax = if dx >= 0 { dx } else { -dx };
        let ay = if dy >= 0 { dy } else { -dy };
        let base = if ay >= ax {
            atan_q_spec(ax * FRAC_ONE / ay)
        } else {
            FRAC_HALF - atan_q_spec(ay * FRAC_ONE / ax)
        };
        let mag = if dy >= 0 {
            base
        } else {
            FRAC_ONE - base
        };
        if dx >= 0 {
            mag
        } else {
            -mag
        }
    }
}

/// An angle-fraction reduced to `[0, FRAC_TWO)`.
pub fn norm_angle(a: i64) -> (r: u64)
    requires
        -2 * FIX_MAX <= a <= 2 * FIX_MAX,
    ensures
        r == norm_frac(a as int),
        r < FRAC_TWO,
{
    let d = FRAC_TWO as u64;
    if a >= 0 {
        (a as u64) % d
    } else {
        let x = (-a) as u64;
        let m = x % d;
        proof {
            let xi = x as int;
            let di = d as int;
            vstd::arithmetic::div_mod::lemma_fundamental_div_mod(xi, di);
            vstd::arithmetic::div_mod::lemma_mod_bound(xi, di);
            let q = xi / di;
            let rm = xi % di;
            if rm == 0 {
                vstd::arithmetic::div_mod::lemma_fundamental_div_mod_converse(
                    a as int,
                    di,
                    -q,
                    0,
                );
            } else {
                vstd::arithmetic::div_mod::lemma_fundamental_div_mod_converse(
                    a as int,
                    di,
                    -q - 1,
                    di - rm,
                );
            }
        }
        if m == 0 {
            0
        } else {
            d - m
        }
    }
}

/// Bhaskara's sine approximation on a half turn.
fn sin_half(f: u64) -> (r: i64)
    requires
        f <= FRAC_ONE,
    ensures
        r == sin_half_spec(f as int),
        0 <= r <= TRIG_ONE,
{
    let n = FRAC_ONE as u64;
    proof {
        assert(f as int * (n - f) <= 90000000000 && 4 * (f as int * (n - f)) <= n as int
            * n as int) by (nonlinear_arith)
            requires
                0 <= f <= n,
                n == 300000,
        ;
    }
    let p = f * (n - f);
    let num = 16 * p * (TRIG_ONE as u64);
    let den = 5 * n * n - 4 * p;
    let q = num / den;
    proof {
        let fi = f as int;
        assert(num as int == 16 * fi * (FRAC_ONE - fi) * TRIG_ONE) by (nonlinear_arith)
            requires
                num == 16 * (fi * (300000 - fi)) * 60000,
                FRAC_ONE == 300000,
                TRIG_ONE == 60000,
        ;
        assert(den as int == 5 * FRAC_ONE * FRAC_ONE - 4 * fi * (FRAC_ONE - fi))
            by (nonlinear_arith)
            requires
                den == 5 * 300000 * 300000 - 4 * (fi * (300000 - fi)),
                FRAC_ONE == 300000,
        ;
        assert(num <= den * TRIG_ONE) by (nonlinear_arith)
            requires
                num == 16 * p * 60000,
                den == 5 * 300000 * 300000 - 4 * p,
                4 * p <= 300000 * 300000,
                TRIG_ONE == 60000,
        ;
        vstd::arithmetic::div_mod::lemma_div_is_ordered(
            num as int,
            den as int * TRIG_ONE,
            den as int,
        );
        vstd::arithmetic::div_mod::lemma_div_multiples_vanish(TRIG_ONE as int, den as int);
    }
    q as i64
}

/// `TRIG_ONE`-scaled sine of the angle-fraction `a`.
pub fn sin_fixed(a: i64) -> (r: i64)
    requires
        -2 * FIX_MAX <= a <= 2 * FIX_MAX,
    ensures
        r == sin_spec(a as int),
        -TRIG_ONE <= r <= TRIG_ONE,
{
    let n = norm_angle(a);
    if n <= FRAC_ONE as u64 {
        sin_half(n)
    } else {
        -sin_half(n - FRAC_ONE as u64)
    }
}

/// `TRIG_ONE`-scaled cosine of the angle-fraction `a`.
pub fn cos_fixed(a: i64) -> (r: i64)
    requires
        -FIX_MAX <= a <= FIX_MAX,
    ensures
        r == cos_spec(a as int),
        -TRIG_ONE <= r <= TRIG_ONE,
{
    sin_fixed(a + FRAC_HALF)
}

/// Quadratically corrected inverse tangent on the first octant.
fn atan_q(z: u64) -> (r: i64)
    requires
        z <= FRAC_ONE,
    ensures
        r == atan_q_spec(z as int),
        0 <= r <= FRAC_HALF,
{
    let n = FRAC_ONE as u64;
    proof {
        assert(z as int * (n - z) <= 90000000000) by (nonlinear_arith)
            requires
                0 <= z <= n,
                n == 300000,
        ;
    }
    let p = z * (n - z);
    let t = 26069 * p;
    let c = t / (n * n);
    let r = z / 4 + c;
    proof {
        let zi = z as int;
        assert(t as int == 26069 * zi * (FRAC_ONE - zi)) by (nonlinear_arith)
            requires
                t == 26069 * (zi * (300000 - zi)),
                FRAC_ONE == 300000,
        ;
        vstd::arithmetic::div_mod::lemma_div_is_ordered(
            t as int,
            26069int * 90000000000,
            90000000000int,
        );
    }
    r as i64
}

/// The angle-fraction of the direction from `(x1, y1)` toward
/// `(x2, y2)`, in angle units within `[-FRAC_ONE, FRAC_ONE]`.
pub fn angle_between(x1: i64, y1: i64, x2: i64, y2: i64) -> (r: i64)
    requires
        -FIX_MAX <= x1 <= FIX_MAX,
        -FIX_MAX <= y1 <= FIX_MAX,
        -FIX_MAX <= x2 <= FIX_MAX,
        -FIX_MAX <= y2 <= FIX_MAX,
    ensures
        r == angle_to_spec(x2 - x1, y2 - y1),
        -FRAC_ONE <= r <= FRAC_ONE,
{
    let dx = x2 - x1;
    let dy = y2 - y1;
    if dx == 0 && dy == 0 {
        return 0;
    }
    let ax: u64 = if dx >= 0 { dx as u64 } else { (-dx) as u64 };
    let ay: u64 = if dy >= 0 { dy as u64 } else { (-dy) as u64 };
    let base: i64 = if ay >= ax {
        let z = ((ax as u128) * (FRAC_ONE as u128) / (ay as u128)) as u64;
        proof {
            assert(ax as int * FRAC_ONE / ay as int <= FRAC_ONE) by {
                assert(ax as int * FRAC_ONE <= ay as int * FRAC_ONE) by (nonlinear_arith)
                    requires
                        ax <= ay,
                        FRAC_ONE == 300000,
                ;
                vstd::arithmetic::div_mod::lemma_div_is_ordered(
                    ax as int * FRAC_ONE,
                    ay as int * FRAC_ONE,
                    ay as int,
                );
                vstd::arithmetic::div_mod::lemma_div_multiples_vanish(
                    FRAC_ONE as int,
                    ay as int,
                );
            }
        }
        atan_q(z)
    } else {
        let z = ((ay as u128) * (FRAC_ONE as u128) / (ax as u128)) as u64;
        proof {
            assert(ay as int * FRAC_ONE / ax as int <= FRAC_ONE) by {
                assert(ay as int * FRAC_ONE <= ax as int * FRAC_ONE) by (nonlinear_arith)
                    requires
                        ay <= ax,
                        FRAC_ONE == 300000,
                ;
                vstd::arithmetic::div_mod::lemma_div_is_ordered(
                    ay as int * FRAC_ONE,
                    ax as int * FRAC_ONE,
                    ax as int,
                );
                vstd::arithmetic::div_mod::lemma_div_multiples_vanish(
                    FRAC_ONE as int,
                    ax as int,
                );
            }
        }
        FRAC_HALF - atan_q(z)
    };
    let mag: i64 = if dy >= 0 {
        base
    } else {
        FRAC_ONE - base
    };
    if dx >= 0 {
        mag
    } else {
        -mag
    }
}

} // verus!
