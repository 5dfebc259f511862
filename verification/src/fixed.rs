//! Fixed-point scalar arithmetic.
//!
//! A scalar is an `i64` counted in millionths: `SCALE` units stand for 1.0.
//! Every operation saturates at the `i64` range instead of wrapping, and each
//! executable operation is proved equal to a spec-level mirror written over
//! mathematical integers, so callers reason about exact values.

use vstd::prelude::*;

verus! {

/// Number of fixed-point units in 1.0.
pub const SCALE: i64 = 1_000_000;

/// The circle constant pi on the millionth grid, rounded to the nearest
/// unit.
pub const PI_FX: i64 = 3_141_593;

/// Magnitude of a mathematical integer.
pub open spec fn mag(x: int) -> int {
    if x < 0 {
        -x
    } else {
        x
    }
}

/// Division truncated toward zero, the machine convention, as a mathematical
/// function of integers (meaningful for `b != 0`).
pub open spec fn tdiv(a: int, b: int) -> int {
    if (a < 0) == (b < 0) {
        mag(a) / mag(b)
    } else {
        -(mag(a) / mag(b))
    }
}

/// Saturating clip of a mathematical integer to the `i64` range.
pub open spec fn clip(x: int) -> i64 {
    if x > i64::MAX {
        i64::MAX
    } else if x < i64::MIN {
        i64::MIN
    } else {
        x as i64
    }
}

/// Value of saturating fixed-point addition.
pub open spec fn fx_add_spec(a: i64, b: i64) -> i64 {
    clip(a + b)
}

/// Value of saturating fixed-point subtraction.
pub open spec fn fx_sub_spec(a: i64, b: i64) -> i64 {
    clip(a - b)
}

/// Value of saturating fixed-point negation.
pub open spec fn fx_neg_spec(a: i64) -> i64 {
    clip(-a)
}

/// Value of saturating fixed-point multiplication: the exact product scaled
/// back down by `SCALE`, truncated toward zero.
pub open spec fn fx_mul_spec(a: i64, b: i64) -> i64 {
    clip(tdiv(a * b, SCALE as int))
}

/// Value of saturating fixed-point division: the exact quotient scaled up by
/// `SCALE`, truncated toward zero. A zero divisor saturates to the extreme of
/// the dividend's sign (the fixed-point stand-in for an infinite quotient).
pub open spec fn fx_div_spec(a: i64, b: i64) -> i64 {
    if b == 0 {
        if a > 0 {
            i64::MAX
        } else if a < 0 {
            i64::MIN
        } else {
            0
        }
    } else {
        clip(tdiv(a * SCALE, b as int))
    }
}

/// Floor of the square root of a natural number, as a recursive
/// specification: the root grows by one exactly when the next square fits.
pub open spec fn isqrt(n: nat) -> nat
    decreases n,
{
    if n == 0 {
        0
    } else {
        let r = isqrt((n - 1) as nat);
        if (r + 1) * (r + 1) <= n {
            r + 1
        } else {
            r
        }
    }
}

/// `isqrt(n)` is the greatest natural number whose square is at most `n`.
pub proof fn lemma_isqrt_bounds(n: nat)
    ensures
        isqrt(n) * isqrt(n) <= n < (isqrt(n) + 1) * (isqrt(n) + 1),
    decreases n,
{
    if n == 0 {
        assert(isqrt(0) == 0);
        assert((0nat + 1) * (0nat + 1) == 1) by (nonlinear_arith);
    } else {
        lemma_isqrt_bounds((n - 1) as nat);
        let r = isqrt((n - 1) as nat);
        assert(r * r <= n - 1 < (r + 1) * (r + 1));
        if (r + 1) * (r + 1) <= n {
            assert(isqrt(n) == r + 1);
            assert((r + 1 + 1) * (r + 1 + 1) > n) by (nonlinear_arith)
                requires
                    n - 1 < (r + 1) * (r + 1),
            ;
            assert((isqrt(n) + 1) * (isqrt(n) + 1) == (r + 1 + 1) * (r + 1 + 1));
        } else {
            assert(isqrt(n) == r);
        }
    }
}

/// Any root with the bracketing property is the floor square root.
pub proof fn lemma_isqrt_unique(n: nat, r: nat)
    requires
        r * r <= n,
        n < (r + 1) * (r + 1),
    ensures
        r == isqrt(n),
{
    lemma_isqrt_bounds(n);
    let s = isqrt(n);
    assert(r == s) by (nonlinear_arith)
        requires
            r * r <= n,
            n < (r + 1) * (r + 1),
            s * s <= n,
            n < (s + 1) * (s + 1),
            r >= 0,
            s >= 0,
    ;
}

/// Value of the fixed-point square root: the floor square root of the value
/// rescaled so that the result is on the same grid (non-positive arguments
/// map to zero).
pub open spec fn fx_sqrt_spec(a: i64) -> i64 {
    if a <= 0 {
        0
    } else {
        isqrt((a * SCALE) as nat) as i64
    }
}

/// Floor square root by bisection.
fn isqrt_u128(n: u128) -> (r: u128)
    ensures
        r * r <= n < (r + 1) * (r + 1),
{
    let mut lo: u128 = 0;
    let mut hi: u128 = if n > 0xffff_ffff_ffff_ffff {
        0xffff_ffff_ffff_ffff
    } else {
        n
    };
    proof {
        assert(n < (hi + 1) * (hi + 1)) by (nonlinear_arith)
            requires
                hi == if n > 0xffff_ffff_ffff_ffff { 0xffff_ffff_ffff_ffffu128 as int } else { n as int },
                n <= 0xffff_ffff_ffff_ffff_ffff_ffff_ffff_ffff,
        ;
    }
    while lo < hi
        invariant
            lo <= hi <= 0xffff_ffff_ffff_ffff,
            lo * lo <= n,
            n < (hi + 1) * (hi + 1),
        decreases hi - lo,
    {
        let mid: u128 = lo + (hi - lo + 1) / 2;
        proof {
            assert(mid * mid <= 0xffff_ffff_ffff_ffff_ffff_ffff_ffff_ffff) by (nonlinear_arith)
                requires
                    0 <= mid <= 0xffff_ffff_ffff_ffff,
            ;
        }
        let sq: u128 = mid * mid;
        if sq <= n {
            lo = mid;
        } else {
            hi = mid - 1;
        }
    }
    lo
}

/// Saturating fixed-point square root.
pub fn fx_sqrt(a: i64) -> (r: i64)
    requires
        a >= 0,
    ensures
        r == fx_sqrt_spec(a),
{
    if a == 0 {
        0
    } else {
        let n: u128 = (a as u128) * 1_000_000u128;
        let r: u128 = isqrt_u128(n);
        proof {
            lemma_isqrt_unique(n as nat, r as nat);
            assert(r <= 0x7fff_ffff_ffff_ffff) by (nonlinear_arith)
                requires
                    r * r <= n,
                    n <= 0x7fff_ffff_ffff_ffff * 1_000_000,
            ;
        }
        r as i64
    }
}

/// Clips a sign-and-magnitude value to the `i64` range.
fn signed_clip(neg: bool, m: u128) -> (r: i64)
    ensures
        r == clip(if neg { -(m as int) } else { m as int }),
{
    if neg {
        if m > i64::MAX as u128 {
            i64::MIN
        } else {
            -(m as i64)
        }
    } else {
        if m > i64::MAX as u128 {
            i64::MAX
        } else {
            m as i64
        }
    }
}

/// Splits a (non-extreme) `i128` into sign and magnitude.
fn sign_split(x: i128) -> (r: (bool, u128))
    requires
        i128::MIN < x,
    ensures
        r.0 == (x < 0),
        r.1 == mag(x as int),
{
    if x < 0 {
        (true, (-x) as u128)
    } else {
        (false, x as u128)
    }
}

/// Saturating fixed-point addition.
pub fn fx_add(a: i64, b: i64) -> (r: i64)
    ensures
        r == fx_add_spec(a, b),
{
    let s: i128 = (a as i128) + (b as i128);
    let (neg, m) = sign_split(s);
    signed_clip(neg, m)
}

/// Saturating fixed-point subtraction.
pub fn fx_sub(a: i64, b: i64) -> (r: i64)
    ensures
        r == fx_sub_spec(a, b),
{
    let s: i128 = (a as i128) - (b as i128);
    let (neg, m) = sign_split(s);
    signed_clip(neg, m)
}

/// Saturating fixed-point negation.
pub fn fx_neg(a: i64) -> (r: i64)
    ensures
        r == fx_neg_spec(a),
{
    let s: i128 = -(a as i128);
    let (neg, m) = sign_split(s);
    signed_clip(neg, m)
}

/// Saturating fixed-point multiplication.
pub fn fx_mul(a: i64, b: i64) -> (r: i64)
    ensures
        r == fx_mul_spec(a, b),
{
    proof {
        assert(mag(a as int * b as int) <= 0x4000_0000_0000_0000_0000_0000_0000_0000int)
            by (nonlinear_arith)
            requires
                -0x8000_0000_0000_0000 <= a <= 0x7fff_ffff_ffff_ffff,
                -0x8000_0000_0000_0000 <= b <= 0x7fff_ffff_ffff_ffff,
        ;
    }
    let p: i128 = (a as i128) * (b as i128);
    let (neg, m) = sign_split(p);
    let q: u128 = m / 1_000_000u128;
    assert(q == mag(p as int) / mag(SCALE as int));
    signed_clip(neg, q)
}

/// Saturating fixed-point division.
pub fn fx_div(a: i64, b: i64) -> (r: i64)
    ensures
        r == fx_div_spec(a, b),
{
    if b == 0 {
        if a > 0 {
            i64::MAX
        } else if a < 0 {
            i64::MIN
        } else {
            0
        }
    } else {
        let p: i128 = (a as i128) * 1_000_000i128;
        let (pneg, pm) = sign_split(p);
        let (bneg, bm) = sign_split(b as i128);
        let q: u128 = pm / bm;
        assert(q == mag(p as int) / mag(b as int));
        signed_clip(pneg != bneg, q)
    }
}

/// The greater of a scalar and zero.
pub open spec fn fx_max0_spec(a: i64) -> i64 {
    if a < 0 {
        0
    } else {
        a
    }
}

/// The greater of a scalar and zero.
pub fn fx_max0(a: i64) -> (r: i64)
    ensures
        r == fx_max0_spec(a),
{
    if a < 0 {
        0
    } else {
        a
    }
}

/// Value of the fixed-point sine of `a` radians: the Taylor series through
/// the ninth power in Horner form, each step on the millionth grid. On this
/// grid the truncated series is the library's definition of the sine; it is
/// meant for arguments within half a turn of zero.
pub open spec fn fx_sin_spec(a: i64) -> i64 {
    let x2 = fx_mul_spec(a, a);
    let t3 = fx_sub_spec(SCALE, fx_div_spec(x2, 72_000_000));
    let t2 = fx_sub_spec(SCALE, fx_mul_spec(fx_div_spec(x2, 42_000_000), t3));
    let t1 = fx_sub_spec(SCALE, fx_mul_spec(fx_div_spec(x2, 20_000_000), t2));
    let t0 = fx_sub_spec(SCALE, fx_mul_spec(fx_div_spec(x2, 6_000_000), t1));
    fx_mul_spec(a, t0)
}

/// Fixed-point sine of `a` radians.
pub fn fx_sin(a: i64) -> (r: i64)
    ensures
        r == fx_sin_spec(a),
{
    let x2 = fx_mul(a, a);
    let t3 = fx_sub(SCALE, fx_div(x2, 72_000_000));
    let t2 = fx_sub(SCALE, fx_mul(fx_div(x2, 42_000_000), t3));
    let t1 = fx_sub(SCALE, fx_mul(fx_div(x2, 20_000_000), t2));
    let t0 = fx_sub(SCALE, fx_mul(fx_div(x2, 6_000_000), t1));
    fx_mul(a, t0)
}

/// Value of the fixed-point cosine of `a` radians: the Taylor series through
/// the eighth power in Horner form, each step on the millionth grid.
pub open spec fn fx_cos_spec(a: i64) -> i64 {
    let x2 = fx_mul_spec(a, a);
    let t3 = fx_sub_spec(SCALE, fx_div_spec(x2, 56_000_000));
    let t2 = fx_sub_spec(SCALE, fx_mul_spec(fx_div_spec(x2, 30_000_000), t3));
    let t1 = fx_sub_spec(SCALE, fx_mul_spec(fx_div_spec(x2, 12_000_000), t2));
    fx_sub_spec(SCALE, fx_mul_spec(fx_div_spec(x2, 2_000_000), t1))
}

/// Fixed-point cosine of `a` radians.
pub fn fx_cos(a: i64) -> (r: i64)
    ensures
        r == fx_cos_spec(a),
{
    let x2 = fx_mul(a, a);
    let t3 = fx_sub(SCALE, fx_div(x2, 56_000_000));
    let t2 = fx_sub(SCALE, fx_mul(fx_div(x2, 30_000_000), t3));
    let t1 = fx_sub(SCALE, fx_mul(fx_div(x2, 12_000_000), t2));
    fx_sub(SCALE, fx_mul(fx_div(x2, 2_000_000), t1))
}

/// Value of the fixed-point tangent: the quotient of the series sine and
/// cosine.
pub open spec fn fx_tan_spec(a: i64) -> i64 {
    fx_div_spec(fx_sin_spec(a), fx_cos_spec(a))
}

/// Fixed-point tangent of `a` radians.
pub fn fx_tan(a: i64) -> (r: i64)
    ensures
        r == fx_tan_spec(a),
{
    fx_div(fx_sin(a), fx_cos(a))
}

} // verus!
