//! Fixed-point arithmetic in milli-units.
//!
//! Every physical quantity in this crate (pixels, velocities, seconds, rates,
//! fractions) is an `i64` holding one thousandth of a unit, so `1000` stands
//! for `1.0`. Scaling a quantity by a fractional factor is `mul_frac`, which
//! truncates toward zero; `clamp_i64` keeps quantities inside their bounds.

use vstd::prelude::*;

verus! {

/// Number of milli-units in one unit: `SCALE` stands for the value `1.0`.
pub const SCALE: i64 = 1000;

/// Largest magnitude accepted as the scaled operand of `mul_frac`.
pub const A_MAX: i64 = 4_000_000_000_000;

/// Largest factor accepted by `mul_frac` (a rate of one thousand units).
pub const F_MAX: i64 = 1_000_000;

/// `a` scaled by the milli-unit factor `f`, truncated toward zero.
pub open spec fn mulfrac(a: int, f: int) -> int {
    if a >= 0 {
        (a * f) / (SCALE as int)
    } else {
        -(((-a) * f) / (SCALE as int))
    }
}

/// `v` forced into the interval `[lo, hi]`.
pub open spec fn clamp(v: int, lo: int, hi: int) -> int {
    if v < lo {
        lo
    } else if v > hi {
        hi
    } else {
        v
    }
}

/// Scaling a nonnegative value by a nonnegative factor stays nonnegative and
/// never exceeds the unscaled product.
pub proof fn lemma_mulfrac_nonneg(a: int, f: int)
    requires
        a >= 0,
        f >= 0,
    ensures
        0 <= mulfrac(a, f) <= a * f,
{
    assert(0 <= (a * f) / (SCALE as int) <= a * f) by (nonlinear_arith)
        requires
            a >= 0,
            f >= 0,
    ;
}

/// A bound on the operands bounds the scaled result by the scaled product of
/// the bounds.
pub proof fn lemma_mulfrac_bound(a: int, f: int, m: int, g: int)
    requires
        -m <= a <= m,
        0 <= f <= g,
    ensures
        -((m * g) / (SCALE as int)) <= mulfrac(a, f) <= (m * g) / (SCALE as int),
{
    let b: int = if a >= 0 {
        a
    } else {
        -a
    };
    assert(0 <= b * f <= m * g) by (nonlinear_arith)
        requires
            0 <= b <= m,
            0 <= f <= g,
    ;
    vstd::arithmetic::div_mod::lemma_div_is_ordered(b * f, m * g, SCALE as int);
    vstd::arithmetic::div_mod::lemma_div_pos_is_pos(b * f, SCALE as int);
}

/// Scaling by a factor of at most one (`SCALE` milli-units) never grows the
/// magnitude.
pub proof fn lemma_mulfrac_contract(a: int, f: int, m: int)
    requires
        -m <= a <= m,
        0 <= f <= SCALE as int,
    ensures
        -m <= mulfrac(a, f) <= m,
        a >= 0 ==> 0 <= mulfrac(a, f) <= a,
        a <= 0 ==> a <= mulfrac(a, f) <= 0,
{
    assert({
        &&& -m <= mulfrac(a, f) <= m
        &&& a >= 0 ==> 0 <= mulfrac(a, f) <= a
        &&& a <= 0 ==> a <= mulfrac(a, f) <= 0
    }) by (nonlinear_arith)
        requires
            -m <= a <= m,
            0 <= f <= SCALE as int,
            mulfrac(a, f) == (if a >= 0 {
                (a * f) / (SCALE as int)
            } else {
                -(((-a) * f) / (SCALE as int))
            }),
    ;
}

/// Removing the scaled part of a value (friction) keeps its sign and never
/// grows its magnitude.
pub proof fn lemma_friction_step(v: int, f: int)
    requires
        0 <= f <= SCALE as int,
    ensures
        v >= 0 ==> 0 <= v - mulfrac(v, f) <= v,
        v <= 0 ==> v <= v - mulfrac(v, f) <= 0,
{
    lemma_mulfrac_contract(v, f, if v >= 0 {
        v
    } else {
        -v
    });
}

/// `a` scaled by the milli-unit factor `f`, truncated toward zero.
pub fn mul_frac(a: i64, f: i64) -> (r: i64)
    requires
        -A_MAX <= a <= A_MAX,
        0 <= f <= F_MAX,
    ensures
        r == mulfrac(a as int, f as int),
{
    if a >= 0 {
        proof {
            assert(0 <= a * f <= A_MAX * F_MAX) by (nonlinear_arith)
                requires
                    0 <= a <= A_MAX,
                    0 <= f <= F_MAX,
            ;
        }
        let p: i64 = a * f;
        p / SCALE
    } else {
        let n: i64 = -a;
        proof {
            assert(0 <= n * f <= A_MAX * F_MAX) by (nonlinear_arith)
                requires
                    0 <= n <= A_MAX,
                    0 <= f <= F_MAX,
            ;
        }
        let p: i64 = n * f;
        -(p / SCALE)
    }
}

/// `v` forced into the interval `[lo, hi]`.
pub fn clamp_i64(v: i64, lo: i64, hi: i64) -> (r: i64)
    requires
        lo <= hi,
    ensures
        r == clamp(v as int, lo as int, hi as int),
{
    if v < lo {
        lo
    } else if v > hi {
        hi
    } else {
        v
    }
}

} // verus!
