//! Saturating fixed-point scalar arithmetic.
//!
//! Every physical quantity in this crate (velocity, impulse, inverse mass,
//! rotation coefficients, ...) is an `i64` holding a multiple of `1/FP_ONE`.
//! The operations saturate at the `i64` range instead of wrapping or
//! panicking, and products and quotients truncate toward zero, so each
//! operation is total and exactly described by its spec function.

use vstd::prelude::*;

verus! {

/// Number of fractional steps per unit: an `i64` scalar `v` stands for the
/// real number `v / FP_ONE`.
pub const FP_ONE: i64 = 65536;

/// Clamp a mathematical integer into the `i64` range.
pub open spec fn sat64(x: int) -> int {
    if x > i64::MAX as int {
        i64::MAX as int
    } else if x < i64::MIN as int {
        i64::MIN as int
    } else {
        x
    }
}

/// Division truncating toward zero (the rounding of Rust's `/` on machine
/// integers), defined for a positive divisor.
pub open spec fn tdiv(p: int, q: int) -> int
    recommends
        q > 0,
{
    if p >= 0 {
        p / q
    } else {
        -((-p) / q)
    }
}

pub open spec fn fx_add(a: int, b: int) -> int {
    sat64(a + b)
}

pub open spec fn fx_sub(a: int, b: int) -> int {
    sat64(a - b)
}

pub open spec fn fx_neg(a: int) -> int {
    sat64(-a)
}

/// Fixed-point product: `(a * b) / FP_ONE`, truncated toward zero, saturated.
pub open spec fn fx_mul(a: int, b: int) -> int {
    sat64(tdiv(a * b, FP_ONE as int))
}

/// Fixed-point quotient: `(a * FP_ONE) / b`, truncated toward zero, saturated.
pub open spec fn fx_div(a: int, b: int) -> int
    recommends
        b > 0,
{
    sat64(tdiv(a * (FP_ONE as int), b))
}

pub open spec fn fx_max(a: int, b: int) -> int {
    if a >= b {
        a
    } else {
        b
    }
}

pub open spec fn fx_min(a: int, b: int) -> int {
    if a <= b {
        a
    } else {
        b
    }
}

/// Clamp as the composition max-then-min: the result never exceeds `hi`, and
/// is at least `lo` whenever `lo <= hi`.
pub open spec fn fx_clamp(x: int, lo: int, hi: int) -> int {
    fx_min(fx_max(x, lo), hi)
}

pub proof fn lemma_tdiv_nonneg(p: int, q: int)
    requires
        p >= 0,
        q > 0,
    ensures
        tdiv(p, q) >= 0,
{
    assert(p / q >= 0) by (nonlinear_arith)
        requires
            p >= 0,
            q > 0,
    ;
}

/// A fixed-point product of two nonnegative scalars is nonnegative.
pub proof fn lemma_fx_mul_nonneg(a: int, b: int)
    requires
        a >= 0,
        b >= 0,
    ensures
        fx_mul(a, b) >= 0,
{
    assert(a * b >= 0) by (nonlinear_arith)
        requires
            a >= 0,
            b >= 0,
    ;
    lemma_tdiv_nonneg(a * b, FP_ONE as int);
}

/// Whether a mathematical integer fits the `i64` range.
pub open spec fn fits64(x: int) -> bool {
    i64::MIN as int <= x <= i64::MAX as int
}

/// Multiplying by zero gives zero.
pub proof fn lemma_fx_mul_zero(a: int)
    ensures
        fx_mul(a, 0) == 0,
        fx_mul(0, a) == 0,
{
    assert(a * 0 == 0);
    assert(0 * a == 0);
    assert(tdiv(0, FP_ONE as int) == 0);
}

/// Adding zero to an in-range scalar changes nothing.
pub proof fn lemma_fx_add_zero(a: int)
    requires
        fits64(a),
    ensures
        fx_add(a, 0) == a,
{
}

/// A fixed-point square is nonnegative.
pub proof fn lemma_fx_square_nonneg(g: int)
    ensures
        fx_mul(g, g) >= 0,
{
    assert(g * g >= 0) by (nonlinear_arith);
    lemma_tdiv_nonneg(g * g, FP_ONE as int);
}

fn sat_from_i128(x: i128) -> (r: i64)
    ensures
        r as int == sat64(x as int),
{
    if x > i64::MAX as i128 {
        i64::MAX
    } else if x < i64::MIN as i128 {
        i64::MIN
    } else {
        x as i64
    }
}

/// Truncated division of an `i128` (bounded away from the `i128` edges) by a
/// positive divisor, saturated into `i64`.
fn tdiv_sat(p: i128, q: i64) -> (r: i64)
    requires
        q > 0,
        -0x4000_0000_0000_0000_0000_0000_0000_0000 <= (p as int)
            <= 0x4000_0000_0000_0000_0000_0000_0000_0000,
    ensures
        r as int == sat64(tdiv(p as int, q as int)),
{
    if p >= 0 {
        let mag: u128 = p as u128;
        let qm: u128 = mag / (q as u128);
        proof {
            lemma_tdiv_nonneg(p as int, q as int);
        }
        if qm > i64::MAX as u128 {
            i64::MAX
        } else {
            qm as i64
        }
    } else {
        let mag: u128 = (-p) as u128;
        let qm: u128 = mag / (q as u128);
        proof {
            lemma_tdiv_nonneg(-(p as int), q as int);
        }
        if qm > 0x8000_0000_0000_0000u128 {
            i64::MIN
        } else {
            (-(qm as i128)) as i64
        }
    }
}

pub fn fxadd(a: i64, b: i64) -> (r: i64)
    ensures
        r as int == fx_add(a as int, b as int),
{
    sat_from_i128(a as i128 + b as i128)
}

pub fn fxsub(a: i64, b: i64) -> (r: i64)
    ensures
        r as int == fx_sub(a as int, b as int),
{
    sat_from_i128(a as i128 - b as i128)
}

pub fn fxneg(a: i64) -> (r: i64)
    ensures
        r as int == fx_neg(a as int),
{
    sat_from_i128(-(a as i128))
}

pub fn fxmul(a: i64, b: i64) -> (r: i64)
    ensures
        r as int == fx_mul(a as int, b as int),
{
    proof {
        assert(-0x4000_0000_0000_0000_0000_0000_0000_0000 <= (a as int * b as int)
            <= 0x4000_0000_0000_0000_0000_0000_0000_0000) by (nonlinear_arith)
            requires
                -0x8000_0000_0000_0000 <= a as int <= 0x7fff_ffff_ffff_ffff,
                -0x8000_0000_0000_0000 <= b as int <= 0x7fff_ffff_ffff_ffff,
        ;
    }
    let p: i128 = (a as i128) * (b as i128);
    tdiv_sat(p, FP_ONE)
}

pub fn fxdiv(a: i64, b: i64) -> (r: i64)
    requires
        b > 0,
    ensures
        r as int == fx_div(a as int, b as int),
{
    proof {
        assert(-0x4000_0000_0000_0000_0000_0000_0000_0000 <= (a as int * 65536)
            <= 0x4000_0000_0000_0000_0000_0000_0000_0000) by (nonlinear_arith)
            requires
                -0x8000_0000_0000_0000 <= a as int <= 0x7fff_ffff_ffff_ffff,
        ;
    }
    let p: i128 = (a as i128) * (FP_ONE as i128);
    tdiv_sat(p, b)
}

pub fn fxmax(a: i64, b: i64) -> (r: i64)
    ensures
        r as int == fx_max(a as int, b as int),
{
    if a >= b {
        a
    } else {
        b
    }
}

pub fn fxmin(a: i64, b: i64) -> (r: i64)
    ensures
        r as int == fx_min(a as int, b as int),
{
    if a <= b {
        a
    } else {
        b
    }
}

pub fn fxclamp(x: i64, lo: i64, hi: i64) -> (r: i64)
    ensures
        r as int == fx_clamp(x as int, lo as int, hi as int),
{
    fxmin(fxmax(x, lo), hi)
}

} // verus!
