//! Fixed-point scalar helpers.
//!
//! A scalar is an `i64` counting thousandths of a unit (world units for
//! geometry, logical pixels for cursor coordinates). `FIX_ONE` is the
//! value `1.0`. All pipeline inputs are kept inside `COORD_LIMIT`, which
//! keeps every intermediate product of the geometry within `i128`.

use vstd::prelude::*;

verus! {

/// The fixed-point representation of one unit.
pub const FIX_ONE: i64 = 1000;

/// Magnitude bound on every coordinate the pipeline handles, in
/// fixed-point units (one hundred thousand units).
pub const COORD_LIMIT: i64 = 100_000_000;

/// A scalar is in range when its magnitude stays within `COORD_LIMIT`.
pub open spec fn in_range(v: i64) -> bool {
    -(COORD_LIMIT as int) <= v <= COORD_LIMIT as int
}

/// Mathematical clamp of `v` into `[lo, hi]`.
pub open spec fn clamp_spec(v: int, lo: int, hi: int) -> int {
    if v < lo {
        lo
    } else if v > hi {
        hi
    } else {
        v
    }
}

/// Clamp `v` into `[lo, hi]`.
pub fn clamp_i64(v: i64, lo: i64, hi: i64) -> (r: i64)
    requires
        lo <= hi,
    ensures
        r == clamp_spec(v as int, lo as int, hi as int),
        lo <= r <= hi,
{
    if v < lo {
        lo
    } else if v > hi {
        hi
    } else {
        v
    }
}

/// Division truncating toward zero, the rounding Rust's `/` uses; `/` on
/// `int` is Euclidean, so the negative case is spelled out.
pub open spec fn tdiv(a: int, b: int) -> int
    recommends
        b > 0,
{
    if a >= 0 {
        a / b
    } else {
        -((-a) / b)
    }
}

proof fn lemma_u64_div_is_euclidean(a: u64, b: u64)
    requires
        b > 0,
    ensures
        a as int / b as int == (a / b) as int,
{
}

/// For a positive divisor the truncated quotient's magnitude never
/// exceeds the dividend's.
pub proof fn lemma_tdiv_magnitude(a: int, b: int)
    requires
        b > 0,
    ensures
        a >= 0 ==> 0 <= tdiv(a, b) <= a,
        a < 0 ==> a <= tdiv(a, b) <= 0,
{
    if a >= 0 {
        vstd::arithmetic::div_mod::lemma_div_is_ordered_by_denominator(a, 1, b);
        vstd::arithmetic::div_mod::lemma_div_basics(a);
        vstd::arithmetic::div_mod::lemma_div_pos_is_pos(a, b);
    } else {
        vstd::arithmetic::div_mod::lemma_div_is_ordered_by_denominator(-a, 1, b);
        vstd::arithmetic::div_mod::lemma_div_basics(-a);
        vstd::arithmetic::div_mod::lemma_div_pos_is_pos(-a, b);
    }
}

/// Truncating division of an `i64` by a positive divisor, computed on
/// unsigned magnitudes so the result is exactly `tdiv`.
pub fn div_trunc(a: i64, b: i64) -> (r: i64)
    requires
        b > 0,
        a > i64::MIN,
    ensures
        r == tdiv(a as int, b as int),
{
    proof {
        lemma_tdiv_magnitude(a as int, b as int);
    }
    if a >= 0 {
        let q: u64 = (a as u64) / (b as u64);
        proof {
            lemma_u64_div_is_euclidean(a as u64, b as u64);
        }
        q as i64
    } else {
        let m: u64 = (-a) as u64;
        let q: u64 = m / (b as u64);
        proof {
            lemma_u64_div_is_euclidean(m, b as u64);
        }
        -(q as i64)
    }
}

/// Truncating division of an `i128` by a positive divisor.
pub fn div_trunc_wide(a: i128, b: i128) -> (r: i128)
    requires
        b > 0,
        a > i128::MIN,
    ensures
        r == tdiv(a as int, b as int),
{
    proof {
        lemma_tdiv_magnitude(a as int, b as int);
    }
    if a >= 0 {
        let q: u128 = (a as u128) / (b as u128);
        q as i128
    } else {
        let m: u128 = (-a) as u128;
        let q: u128 = m / (b as u128);
        -(q as i128)
    }
}

/// The truncated quotient of a bounded dividend is bounded by the
/// quotient of the bound.
pub proof fn lemma_tdiv_bound(a: int, b: int, c: int)
    requires
        b > 0,
        c >= 0,
        -c <= a <= c,
    ensures
        -(c / b) <= tdiv(a, b) <= c / b,
{
    if a >= 0 {
        vstd::arithmetic::div_mod::lemma_div_is_ordered(a, c, b);
        vstd::arithmetic::div_mod::lemma_div_pos_is_pos(a, b);
        vstd::arithmetic::div_mod::lemma_div_pos_is_pos(c, b);
    } else {
        vstd::arithmetic::div_mod::lemma_div_is_ordered(-a, c, b);
        vstd::arithmetic::div_mod::lemma_div_pos_is_pos(-a, b);
        vstd::arithmetic::div_mod::lemma_div_pos_is_pos(c, b);
    }
}

/// Full-width product of three in-range `i64` scalars; exact.
pub fn mul_wide3(a: i64, b: i64, c: i64) -> (r: i128)
    requires
        in_range(a),
        in_range(b),
        in_range(c),
    ensures
        r as int == a as int * b as int * c as int,
        -1_000_000_000_000_000_000_000_000int <= r as int <= 1_000_000_000_000_000_000_000_000int,
{
    let ab: i128 = mul_wide(a, b);
    proof {
        assert(-(COORD_LIMIT as int) * (COORD_LIMIT as int) <= (a as int) * (b as int)
            <= (COORD_LIMIT as int) * (COORD_LIMIT as int)) by (nonlinear_arith)
            requires
                -(COORD_LIMIT as int) <= a as int <= COORD_LIMIT as int,
                -(COORD_LIMIT as int) <= b as int <= COORD_LIMIT as int;
        assert(-(COORD_LIMIT as int) * (COORD_LIMIT as int) * (COORD_LIMIT as int)
            <= (ab as int) * (c as int)
            <= (COORD_LIMIT as int) * (COORD_LIMIT as int) * (COORD_LIMIT as int))
            by (nonlinear_arith)
            requires
                -(COORD_LIMIT as int) * (COORD_LIMIT as int) <= ab as int
                    <= (COORD_LIMIT as int) * (COORD_LIMIT as int),
                -(COORD_LIMIT as int) <= c as int <= COORD_LIMIT as int;
    }
    ab * (c as i128)
}

/// Full-width product of two `i64` scalars; always exact.
pub fn mul_wide(a: i64, b: i64) -> (r: i128)
    ensures
        r as int == a as int * b as int,
        -0x4000_0000_0000_0000_0000_0000_0000_0000int <= r as int
            <= 0x4000_0000_0000_0000_0000_0000_0000_0000int,
{
    proof {
        assert(-0x4000_0000_0000_0000_0000_0000_0000_0000int <= (a as int) * (b as int)
            <= 0x4000_0000_0000_0000_0000_0000_0000_0000int) by (nonlinear_arith)
            requires
                -0x8000_0000_0000_0000int <= a as int <= 0x7fff_ffff_ffff_ffffint,
                -0x8000_0000_0000_0000int <= b as int <= 0x7fff_ffff_ffff_ffffint;
    }
    (a as i128) * (b as i128)
}

/// `tdiv(a * b, d)` with the product taken at full width.
pub fn mul_div(a: i64, b: i64, d: i64) -> (r: i64)
    requires
        d > 0,
        -(i64::MAX as int) <= tdiv(a as int * b as int, d as int) <= i64::MAX as int,
    ensures
        r == tdiv(a as int * b as int, d as int),
{
    proof {
        assert(-0x4000_0000_0000_0000_0000_0000_0000_0000int <= (a as int) * (b as int)
            <= 0x4000_0000_0000_0000_0000_0000_0000_0000int) by (nonlinear_arith)
            requires
                -0x8000_0000_0000_0000int <= a as int <= 0x7fff_ffff_ffff_ffffint,
                -0x8000_0000_0000_0000int <= b as int <= 0x7fff_ffff_ffff_ffffint;
    }
    let p: i128 = (a as i128) * (b as i128);
    let q: i128 = div_trunc_wide(p, d as i128);
    q as i64
}

} // verus!
