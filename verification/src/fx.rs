//! Fixed-point scalars: `i64` values counted in steps of `1/65536`.
//!
//! All camera state is made of these scalars.  The helpers here are exact:
//! each executable operation is specified as truncating integer division,
//! so every rounding step is visible in the contracts.

use vstd::arithmetic::div_mod::{
    lemma_div_basics, lemma_div_by_multiple, lemma_div_is_ordered,
    lemma_div_is_ordered_by_denominator, lemma_div_pos_is_pos, lemma_fundamental_div_mod,
};
use vstd::prelude::*;

verus! {

/// One world unit / one radian: values are multiples of `1/65536`.
pub const FX_ONE: i64 = 65536;

/// `pi` in fixed-point steps (closest multiple of `1/65536`).
pub const FX_PI: i64 = 205887;

/// `2 * pi` in fixed-point steps (closest multiple of `1/65536`).
pub const FX_TWO_PI: i64 = 411775;

/// `pi / 2` in fixed-point steps (closest multiple of `1/65536`).
pub const FX_HALF_PI: i64 = 102944;

/// `1 / sqrt(2)` in fixed-point steps (closest multiple of `1/65536`).
pub const FX_FRAC_1_SQRT_2: i64 = 46341;

/// Absolute value of a mathematical integer.
pub open spec fn absi(a: int) -> int {
    if a < 0 {
        -a
    } else {
        a
    }
}

/// Division truncating toward zero, the rounding used by every
/// executable operation in this crate (`b` is always positive here).
pub open spec fn tdiv(a: int, b: int) -> int {
    if a >= 0 {
        a / b
    } else {
        -((-a) / b)
    }
}

/// Fixed-point product: `a * b` rescaled by one factor of `FX_ONE`.
pub open spec fn fx_mul(a: int, b: int) -> int {
    tdiv(a * b, FX_ONE as int)
}

/// Fixed-point quotient: `a / b` kept at scale `FX_ONE`.
pub open spec fn fx_div(a: int, b: int) -> int {
    tdiv(a * (FX_ONE as int), b)
}

/// `v` forced into the closed interval `[lo, hi]`.
pub open spec fn clamp(v: int, lo: int, hi: int) -> int {
    if v < lo {
        lo
    } else if v > hi {
        hi
    } else {
        v
    }
}

/// `r` is the integer square root of `n`: the unique `r >= 0` with
/// `r^2 <= n < (r+1)^2`.
pub open spec fn is_isqrt(n: int, r: int) -> bool {
    &&& 0 <= r
    &&& r * r <= n
    &&& n < (r + 1) * (r + 1)
}

/// The integer square root of `n` (for `n >= 0`).
pub open spec fn sqrt_floor(n: int) -> int {
    choose|r: int| is_isqrt(n, r)
}

/// Two integer square roots of the same number are equal.
pub proof fn lemma_isqrt_unique(n: int, r1: int, r2: int)
    by (nonlinear_arith)
    requires
        is_isqrt(n, r1),
        is_isqrt(n, r2),
    ensures
        r1 == r2,
{
}

/// A witness pins `sqrt_floor` down.
pub proof fn lemma_sqrt_floor_of(n: int, r: int)
    requires
        is_isqrt(n, r),
    ensures
        sqrt_floor(n) == r,
{
    assert(is_isqrt(n, sqrt_floor(n))) by {
        assert(exists|x: int| is_isqrt(n, x));
    }
    lemma_isqrt_unique(n, r, sqrt_floor(n));
}

/// Truncating division shrinks magnitudes: with `|a| <= b` and `c >= 1`,
/// `|a / c|` is at most `b / c`, hence at most `b`.
pub proof fn lemma_tdiv_bound(a: int, b: int, c: int)
    requires
        c >= 1,
        absi(a) <= b,
    ensures
        absi(tdiv(a, c)) <= b / c,
        absi(tdiv(a, c)) <= b,
        b / c >= 0,
{
    let m = absi(a);
    lemma_div_pos_is_pos(m, c);
    lemma_div_is_ordered(m, b, c);
    if a >= 0 {
        assert(tdiv(a, c) == m / c);
    } else {
        assert(tdiv(a, c) == -(m / c));
    }
    assert(absi(tdiv(a, c)) == m / c);
    lemma_div_is_ordered_by_denominator(b, 1, c);
    lemma_div_basics(b);
    lemma_div_pos_is_pos(b, c);
}

/// Magnitudes multiply: `|a * b| == |a| * |b|`, and the product is
/// negative exactly when the signs differ and neither factor is zero.
pub proof fn lemma_mul_abs_sign(a: int, b: int)
    by (nonlinear_arith)
    ensures
        absi(a * b) == absi(a) * absi(b),
        (a * b < 0) <==> ((a < 0) != (b < 0)) && a != 0 && b != 0,
{
}

/// `v` clamped into `[lo, hi]`.
pub fn clamp_i64(v: i64, lo: i64, hi: i64) -> (r: i64)
    requires
        lo <= hi,
    ensures
        r as int == clamp(v as int, lo as int, hi as int),
{
    if v < lo {
        lo
    } else if v > hi {
        hi
    } else {
        v
    }
}

/// Truncating `a * b / c`, computed without intermediate rounding.
///
/// This is the one arithmetic primitive behind `fx_mul`, `fx_div` and the
/// proportional rescalings: the product is formed exactly in 128 bits and
/// divided once.
pub fn fx_muldiv(a: i64, b: i64, c: i64) -> (r: i64)
    requires
        c >= 1,
        a > i64::MIN,
        b > i64::MIN,
        absi(a as int) * absi(b as int) <= (i64::MAX as int) * (c as int),
    ensures
        r as int == tdiv((a as int) * (b as int), c as int),
{
    let neg: bool = (a < 0) != (b < 0);
    let aa: u64 = if a < 0 {
        (-a) as u64
    } else {
        a as u64
    };
    let bb: u64 = if b < 0 {
        (-b) as u64
    } else {
        b as u64
    };
    proof {
        assert(aa as int == absi(a as int));
        assert(bb as int == absi(b as int));
        assert((aa as int) * (bb as int) <= (i64::MAX as int) * (c as int));
    }
    let m: u128 = (aa as u128) * (bb as u128);
    let q: u128 = m / (c as u128);
    proof {
        lemma_mul_abs_sign(a as int, b as int);
        assert(m as int == absi((a as int) * (b as int)));
        // q == |a * b| / c, and it fits in an i64.
        lemma_div_is_ordered(m as int, (i64::MAX as int) * (c as int), c as int);
        lemma_div_by_multiple(i64::MAX as int, c as int);
        assert(q as int == absi((a as int) * (b as int)) / (c as int));
        assert(q as int <= i64::MAX as int);
    }
    if neg {
        proof {
            if (a as int) * (b as int) == 0 {
                assert(m == 0);
                assert(q == 0);
            }
        }
        -(q as i64)
    } else {
        q as i64
    }
}

/// Truncating `a * b / c` forced into `[lo, hi]`, for nonnegative `lo`.
///
/// Unlike `fx_muldiv` this asks for no bound on the product: the exact
/// quotient is formed in 128 bits and anything outside `[lo, hi]` is
/// clamped, so the operation is total.
pub fn fx_muldiv_clamp(a: i64, b: i64, c: i64, lo: i64, hi: i64) -> (r: i64)
    requires
        c >= 1,
        a > i64::MIN,
        b > i64::MIN,
        0 <= lo <= hi,
    ensures
        r as int == clamp(tdiv((a as int) * (b as int), c as int), lo as int, hi as int),
{
    let neg: bool = (a < 0) != (b < 0);
    let aa: u64 = if a < 0 {
        (-a) as u64
    } else {
        a as u64
    };
    let bb: u64 = if b < 0 {
        (-b) as u64
    } else {
        b as u64
    };
    proof {
        assert((aa as int) * (bb as int) < 0x1_0000_0000_0000_0000_0000_0000_0000_0000)
            by (nonlinear_arith)
            requires
                aa <= 0xffff_ffff_ffff_ffff,
                bb <= 0xffff_ffff_ffff_ffff,
        ;
    }
    let m: u128 = (aa as u128) * (bb as u128);
    let q: u128 = m / (c as u128);
    proof {
        assert(aa as int == absi(a as int));
        assert(bb as int == absi(b as int));
        lemma_mul_abs_sign(a as int, b as int);
        assert(m as int == absi((a as int) * (b as int)));
        assert(q as int == absi((a as int) * (b as int)) / (c as int));
    }
    if neg && q > 0 {
        // The exact quotient is negative, hence below `lo`.
        lo
    } else if q >= (hi as u128) {
        hi
    } else {
        let v: i64 = q as i64;
        if v < lo {
            lo
        } else {
            v
        }
    }
}

/// The integer square root of a 64-bit number, by bisection.
pub fn isqrt64(n: u64) -> (r: u64)
    ensures
        is_isqrt(n as int, r as int),
        r as int == sqrt_floor(n as int),
{
    let mut lo: u64 = 0;
    let mut hi: u64 = 0x1_0000_0000;
    proof {
        assert((hi as int) * (hi as int) > n as int);
    }
    while lo + 1 < hi
        invariant
            lo < hi,
            hi <= 0x1_0000_0000,
            (lo as int) * (lo as int) <= n as int,
            (n as int) < (hi as int) * (hi as int),
        decreases hi - lo,
    {
        let mid: u64 = lo + (hi - lo) / 2;
        proof {
            assert(lo < mid < hi);
            assert((mid as int) * (mid as int) < 0x1_0000_0000_0000_0000) by (nonlinear_arith)
                requires
                    0 <= (mid as int) < 0x1_0000_0000,
            ;
        }
        let sq: u64 = mid * mid;
        if sq <= n {
            lo = mid;
        } else {
            hi = mid;
        }
    }
    proof {
        assert(hi == lo + 1);
        lemma_sqrt_floor_of(n as int, lo as int);
    }
    lo
}

} // verus!
