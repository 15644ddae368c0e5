//! Scalar fixed-point helpers: saturating `i64` sums, rational decay with
//! truncation toward zero, and floor-rounded ratio scaling for anchors.

use vstd::prelude::*;
use vstd::arithmetic::div_mod::{
    lemma_div_is_ordered, lemma_div_multiples_vanish, lemma_div_nonincreasing,
    lemma_div_pos_is_pos, lemma_fundamental_div_mod, lemma_fundamental_div_mod_converse,
};
use vstd::arithmetic::mul::lemma_mul_inequality;

verus! {

/// Clamp of a mathematical integer into the `i64` range.
pub open spec fn sat64(v: int) -> int {
    if v < i64::MIN as int {
        i64::MIN as int
    } else if v > i64::MAX as int {
        i64::MAX as int
    } else {
        v
    }
}

/// `v` scaled by `num / den`, rounded toward zero.
pub open spec fn scale_trunc(v: int, num: int, den: int) -> int
    recommends
        0 < den,
        0 <= num,
{
    if v >= 0 {
        (v * num) / den
    } else {
        -(((-v) * num) / den)
    }
}

/// Floor of `v * num / den`; `/` on `int` already rounds toward negative
/// infinity for a positive divisor.
pub open spec fn scale_floor(v: int, num: int, den: int) -> int
    recommends
        0 < den,
{
    (v * num) / den
}

/// `a + b` clamped into the `i64` range.
pub fn sat_add64(a: i64, b: i64) -> (r: i64)
    ensures
        r as int == sat64(a as int + b as int),
{
    let s: i128 = a as i128 + b as i128;
    if s > i64::MAX as i128 {
        i64::MAX
    } else if s < i64::MIN as i128 {
        i64::MIN
    } else {
        s as i64
    }
}

/// `a - b` clamped into the `i64` range.
pub fn sat_sub64(a: i64, b: i64) -> (r: i64)
    ensures
        r as int == sat64(a as int - b as int),
{
    let s: i128 = a as i128 - b as i128;
    if s > i64::MAX as i128 {
        i64::MAX
    } else if s < i64::MIN as i128 {
        i64::MIN
    } else {
        s as i64
    }
}

/// Half of a non-negative length, rounded down.
pub fn half64(v: i64) -> (r: i64)
    requires
        0 <= v,
    ensures
        r as int == (v as int) / 2,
{
    ((v as u128) / 2) as i64
}

/// A decay factor of at most one cannot increase a magnitude.
pub proof fn lemma_scale_trunc_magnitude(v: int, num: int, den: int)
    requires
        0 < den,
        0 <= num <= den,
    ensures
        v >= 0 ==> 0 <= scale_trunc(v, num, den) <= v,
        v < 0 ==> v <= scale_trunc(v, num, den) <= 0,
{
    let m = if v >= 0 { v } else { -v };
    assert(m * num <= m * den) by (nonlinear_arith)
        requires
            0 <= m,
            num <= den,
    ;
    assert(m * num >= 0) by (nonlinear_arith)
        requires
            0 <= m,
            0 <= num,
    ;
    lemma_div_is_ordered(m * num, m * den, den);
    lemma_div_multiples_vanish(m, den);
    assert(m * den == den * m) by (nonlinear_arith);
    lemma_div_pos_is_pos(m * num, den);
}

/// `v * num / den` truncated toward zero, for a decay factor `num <= den`;
/// the magnitude never grows, so the result always fits in `i64`.
pub fn decay_scale(v: i64, num: u32, den: u32) -> (r: i64)
    requires
        0 < den,
        num <= den,
    ensures
        r as int == scale_trunc(v as int, num as int, den as int),
{
    proof {
        lemma_scale_trunc_magnitude(v as int, num as int, den as int);
    }
    if v >= 0 {
        proof {
            assert((v as int) * (num as int) <= (i64::MAX as int) * (u32::MAX as int))
                by (nonlinear_arith)
                requires
                    0 <= v as int <= i64::MAX as int,
                    0 <= num as int <= u32::MAX as int,
            ;
        }
        let p: u128 = (v as u128) * (num as u128);
        (p / (den as u128)) as i64
    } else {
        let mv: i128 = -(v as i128);
        proof {
            assert((mv as int) * (num as int) <= (0x8000_0000_0000_0000 as int) * (
            u32::MAX as int)) by (nonlinear_arith)
                requires
                    0 <= mv as int <= 0x8000_0000_0000_0000 as int,
                    0 <= num as int <= u32::MAX as int,
            ;
        }
        let m: u128 = (mv as u128) * (num as u128);
        let q: u128 = m / (den as u128);
        (-(q as i128)) as i64
    }
}

/// For a non-negative dividend and positive divisor, the quotient lies
/// between zero and the dividend.
proof fn lemma_nonneg_floor(p: int, den: int)
    requires
        0 <= p,
        0 < den,
    ensures
        0 <= p / den <= p,
{
    lemma_div_pos_is_pos(p, den);
    lemma_div_nonincreasing(p, den);
}

/// Floor division of a negative dividend, written over the magnitude
/// `m == -p`: the quotient is `-(m / den)` when `den` divides `m`, and one
/// less otherwise.
proof fn lemma_neg_floor(p: int, den: int)
    requires
        p < 0,
        0 < den,
    ensures
        (-p) % den == 0 ==> p / den == -((-p) / den),
        (-p) % den != 0 ==> p / den == -((-p) / den) - 1,
        p / den < 0,
{
    let m = -p;
    let q0 = m / den;
    let r0 = m % den;
    lemma_fundamental_div_mod(m, den);
    lemma_div_pos_is_pos(m, den);
    if r0 == 0 {
        assert(p == (-q0) * den + 0) by (nonlinear_arith)
            requires
                m == den * q0 + r0,
                r0 == 0,
                p == -m,
        ;
        lemma_fundamental_div_mod_converse(p, den, -q0, 0);
        assert(q0 > 0) by {
            if q0 <= 0 {
                assert(den * q0 <= 0) by (nonlinear_arith)
                    requires
                        den > 0,
                        q0 <= 0,
                ;
            }
        };
    } else {
        assert(p == (-q0 - 1) * den + (den - r0)) by (nonlinear_arith)
            requires
                m == den * q0 + r0,
                p == -m,
        ;
        lemma_fundamental_div_mod_converse(p, den, -q0 - 1, den - r0);
    }
}

/// Floor of `v * num / den` for a signed ratio `num / den` applied to a
/// non-negative length `v`, exact in `i128`.
pub fn floor_scale_i128(v: i64, num: i64, den: i64) -> (r: i128)
    requires
        0 <= v,
        0 < den,
    ensures
        r as int == scale_floor(v as int, num as int, den as int),
        -(0x4000_0000_0000_0000_0000_0000_0000_0000 as int) - 1 <= r as int
            <= 0x4000_0000_0000_0000_0000_0000_0000_0000 as int,
{
    proof {
        assert((i64::MIN as int) * (i64::MAX as int) <= (v as int) * (num as int) <= (
        i64::MAX as int) * (i64::MAX as int)) by (nonlinear_arith)
            requires
                0 <= v as int <= i64::MAX as int,
                i64::MIN as int <= num as int <= i64::MAX as int,
        ;
    }
    let p: i128 = (v as i128) * (num as i128);
    let d: u128 = den as u128;
    if p >= 0 {
        proof {
            lemma_nonneg_floor(p as int, den as int);
        }
        ((p as u128) / d) as i128
    } else {
        let m: u128 = (-p) as u128;
        let q0: u128 = m / d;
        let rem: u128 = m % d;
        proof {
            lemma_neg_floor(p as int, den as int);
            lemma_div_nonincreasing(m as int, den as int);
        }
        let q: u128 = if rem != 0 {
            q0 + 1
        } else {
            q0
        };
        -(q as i128)
    }
}

/// Clamp an exact 128-bit value into the `i64` range.
pub fn clamp_i128(v: i128) -> (r: i64)
    ensures
        r as int == sat64(v as int),
{
    if v > i64::MAX as i128 {
        i64::MAX
    } else if v < i64::MIN as i128 {
        i64::MIN
    } else {
        v as i64
    }
}

} // verus!
