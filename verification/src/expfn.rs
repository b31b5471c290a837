//! Fixed-point exponential, logarithm and real power on nano-scaled
//! ratios, used by the rocket-equation time-to-go estimate, by the
//! exponential atmosphere and by the gain derivation.

use vstd::prelude::*;
use crate::fixed::{tdiv, iabs, sat, muldiv, saturate, div_trunc};
use crate::fixed::{lemma_tdiv_bound, lemma_tdiv_exact, lemma_tdiv_nonneg, lemma_tdiv_le, lemma_tdiv_scale_left, lemma_tdiv_scale_right};
use crate::units::NANO;

verus! {

/// ln 2 in nano-units (rounded down).
pub const LN2_NANO: i64 = 693_147_180;

/// Power of two as a mathematical integer.
pub open spec fn pow2i(k: int) -> int
    decreases k,
{
    if k <= 0 {
        1
    } else {
        2 * pow2i(k - 1)
    }
}

proof fn lemma_pow2i_mono(a: int, b: int)
    requires
        0 <= a <= b,
    ensures
        1 <= pow2i(a) <= pow2i(b),
    decreases b,
{
    if a < b {
        lemma_pow2i_mono(a, b - 1);
    }
    if a == b && a > 0 {
        lemma_pow2i_mono(0, a - 1);
    }
}

proof fn lemma_pow2i_30()
    ensures
        pow2i(30) == 0x4000_0000,
{
    reveal_with_fuel(pow2i, 32);
}

/// Repeated truncating halving, the fixed-point `p / 2^k`.
pub open spec fn half2i(p: int, k: int) -> int
    decreases k,
{
    if k <= 0 {
        p
    } else {
        half2i(tdiv(p, 2), k - 1)
    }
}

fn half_rep(p: i64, k: i64) -> (r: i64)
    requires
        0 <= p,
        0 <= k,
    ensures
        r == half2i(p as int, k as int),
        0 <= r <= p,
    decreases k,
{
    if k == 0 {
        p
    } else {
        proof {
            lemma_tdiv_nonneg(p as int, 2);
        }
        let h: i64 = div_trunc(p as i128, 2) as i64;
        half_rep(h, k - 1)
    }
}

fn dbl_rep(p: i64, k: i64) -> (r: i64)
    requires
        0 <= p <= 2_000_000_000,
        0 <= k <= 30,
    ensures
        r == p * pow2i(k as int),
    decreases k,
{
    if k == 0 {
        proof {
            assert(p * pow2i(0) == p) by (nonlinear_arith)
                requires
                    pow2i(0) == 1,
            ;
        }
        p
    } else {
        let s: i64 = dbl_rep(p, k - 1);
        proof {
            lemma_pow2i_mono(k as int - 1, 30);
            lemma_pow2i_30();
            assert(0 <= p * pow2i(k as int - 1) <= 2_000_000_000 * 0x4000_0000int)
                by (nonlinear_arith)
                requires
                    0 <= p <= 2_000_000_000,
                    1 <= pow2i(k as int - 1) <= 0x4000_0000,
            ;
            assert(2 * (p * pow2i(k as int - 1)) == p * pow2i(k as int))
                by (nonlinear_arith)
                requires
                    pow2i(k as int) == 2 * pow2i(k as int - 1),
            ;
        }
        2 * s
    }
}

/// Nested series for `e^-r` on `[0, ln 2]`, factors clamped into
/// `[0, 1]` (a no-op on this domain).
pub open spec fn exp_core_neg_spec(r: int) -> int {
    let p = sat(NANO - tdiv(r * NANO, 12 * NANO), 0, NANO as int);
    let p = sat(NANO - tdiv(r * p, 11 * NANO), 0, NANO as int);
    let p = sat(NANO - tdiv(r * p, 10 * NANO), 0, NANO as int);
    let p = sat(NANO - tdiv(r * p, 9 * NANO), 0, NANO as int);
    let p = sat(NANO - tdiv(r * p, 8 * NANO), 0, NANO as int);
    let p = sat(NANO - tdiv(r * p, 7 * NANO), 0, NANO as int);
    let p = sat(NANO - tdiv(r * p, 6 * NANO), 0, NANO as int);
    let p = sat(NANO - tdiv(r * p, 5 * NANO), 0, NANO as int);
    let p = sat(NANO - tdiv(r * p, 4 * NANO), 0, NANO as int);
    let p = sat(NANO - tdiv(r * p, 3 * NANO), 0, NANO as int);
    let p = sat(NANO - tdiv(r * p, 2 * NANO), 0, NANO as int);
    sat(NANO - tdiv(r * p, NANO as int), 0, NANO as int)
}

/// `e^-x` for a non-negative nano-scaled exponent: reduce by powers of
/// two, run the series on the remainder, halve back.
pub open spec fn exp_neg_spec(x: int) -> int {
    if x >= 45 * NANO {
        0
    } else {
        let k = tdiv(x, LN2_NANO as int);
        let r = x - k * LN2_NANO;
        sat(half2i(exp_core_neg_spec(r), k), 0, NANO as int)
    }
}

fn exp_core_neg(r: i64) -> (p: i64)
    requires
        0 <= r <= LN2_NANO,
    ensures
        p == exp_core_neg_spec(r as int),
        0 <= p <= NANO,
{
    proof {
        lemma_tdiv_scale_right(r as int, NANO as int, 12 * NANO as int);
    }
    let p: i64 = saturate(NANO - muldiv(r, NANO, 12 * (NANO as i128)), 0, NANO);
    proof {
        lemma_tdiv_scale_right(r as int, p as int, 11 * NANO as int);
    }
    let p: i64 = saturate(NANO - muldiv(r, p, 11 * (NANO as i128)), 0, NANO);
    proof {
        lemma_tdiv_scale_right(r as int, p as int, 10 * NANO as int);
    }
    let p: i64 = saturate(NANO - muldiv(r, p, 10 * (NANO as i128)), 0, NANO);
    proof {
        lemma_tdiv_scale_right(r as int, p as int, 9 * NANO as int);
    }
    let p: i64 = saturate(NANO - muldiv(r, p, 9 * (NANO as i128)), 0, NANO);
    proof {
        lemma_tdiv_scale_right(r as int, p as int, 8 * NANO as int);
    }
    let p: i64 = saturate(NANO - muldiv(r, p, 8 * (NANO as i128)), 0, NANO);
    proof {
        lemma_tdiv_scale_right(r as int, p as int, 7 * NANO as int);
    }
    let p: i64 = saturate(NANO - muldiv(r, p, 7 * (NANO as i128)), 0, NANO);
    proof {
        lemma_tdiv_scale_right(r as int, p as int, 6 * NANO as int);
    }
    let p: i64 = saturate(NANO - muldiv(r, p, 6 * (NANO as i128)), 0, NANO);
    proof {
        lemma_tdiv_scale_right(r as int, p as int, 5 * NANO as int);
    }
    let p: i64 = saturate(NANO - muldiv(r, p, 5 * (NANO as i128)), 0, NANO);
    proof {
        lemma_tdiv_scale_right(r as int, p as int, 4 * NANO as int);
    }
    let p: i64 = saturate(NANO - muldiv(r, p, 4 * (NANO as i128)), 0, NANO);
    proof {
        lemma_tdiv_scale_right(r as int, p as int, 3 * NANO as int);
    }
    let p: i64 = saturate(NANO - muldiv(r, p, 3 * (NANO as i128)), 0, NANO);
    proof {
        lemma_tdiv_scale_right(r as int, p as int, 2 * NANO as int);
    }
    let p: i64 = saturate(NANO - muldiv(r, p, 2 * (NANO as i128)), 0, NANO);
    proof {
        lemma_tdiv_scale_right(r as int, p as int, NANO as int);
    }
    saturate(NANO - muldiv(r, p, NANO as i128), 0, NANO)
}

/// `e^-x` as a nano-scaled ratio, for a non-negative nano-scaled `x`.
pub fn exp_neg_nano(x: i64) -> (e: i64)
    requires
        0 <= x,
    ensures
        e == exp_neg_spec(x as int),
        0 <= e <= NANO,
{
    if x >= 45 * NANO {
        0
    } else {
        let k: i64 = div_trunc(x as i128, LN2_NANO as i128) as i64;
        proof {
            lemma_tdiv_nonneg(x as int, LN2_NANO as int);
            lemma_tdiv_exact(x as int, LN2_NANO as int);
        }
        let r: i64 = (x as i128 - (LN2_NANO as i128) * (k as i128)) as i64;
        let p: i64 = exp_core_neg(r);
        saturate(half_rep(p, k), 0, NANO)
    }
}

/// Nested series for `e^r` on `[0, ln 2]`, factors clamped into
/// `[1, 2]` (a no-op on this domain).
pub open spec fn exp_core_pos_spec(r: int) -> int {
    let p = sat(NANO + tdiv(r * NANO, 12 * NANO), NANO as int, 2 * NANO);
    let p = sat(NANO + tdiv(r * p, 11 * NANO), NANO as int, 2 * NANO);
    let p = sat(NANO + tdiv(r * p, 10 * NANO), NANO as int, 2 * NANO);
    let p = sat(NANO + tdiv(r * p, 9 * NANO), NANO as int, 2 * NANO);
    let p = sat(NANO + tdiv(r * p, 8 * NANO), NANO as int, 2 * NANO);
    let p = sat(NANO + tdiv(r * p, 7 * NANO), NANO as int, 2 * NANO);
    let p = sat(NANO + tdiv(r * p, 6 * NANO), NANO as int, 2 * NANO);
    let p = sat(NANO + tdiv(r * p, 5 * NANO), NANO as int, 2 * NANO);
    let p = sat(NANO + tdiv(r * p, 4 * NANO), NANO as int, 2 * NANO);
    let p = sat(NANO + tdiv(r * p, 3 * NANO), NANO as int, 2 * NANO);
    let p = sat(NANO + tdiv(r * p, 2 * NANO), NANO as int, 2 * NANO);
    sat(NANO + tdiv(r * p, NANO as int), NANO as int, 2 * NANO)
}

/// `e^x` for a nano-scaled exponent in `[0, 21]`.
pub open spec fn exp_pos_spec(x: int) -> int {
    let k = tdiv(x, LN2_NANO as int);
    let r = x - k * LN2_NANO;
    exp_core_pos_spec(r) * pow2i(k)
}

fn exp_core_pos(r: i64) -> (p: i64)
    requires
        0 <= r <= LN2_NANO,
    ensures
        p == exp_core_pos_spec(r as int),
        NANO <= p <= 2 * NANO,
{
    proof {
        lemma_tdiv_scale_left(r as int, NANO as int, 12 * NANO as int);
    }
    let p: i64 = saturate(NANO + muldiv(r, NANO, 12 * (NANO as i128)), NANO, 2 * NANO);
    proof {
        lemma_tdiv_scale_left(r as int, p as int, 11 * NANO as int);
    }
    let p: i64 = saturate(NANO + muldiv(r, p, 11 * (NANO as i128)), NANO, 2 * NANO);
    proof {
        lemma_tdiv_scale_left(r as int, p as int, 10 * NANO as int);
    }
    let p: i64 = saturate(NANO + muldiv(r, p, 10 * (NANO as i128)), NANO, 2 * NANO);
    proof {
        lemma_tdiv_scale_left(r as int, p as int, 9 * NANO as int);
    }
    let p: i64 = saturate(NANO + muldiv(r, p, 9 * (NANO as i128)), NANO, 2 * NANO);
    proof {
        lemma_tdiv_scale_left(r as int, p as int, 8 * NANO as int);
    }
    let p: i64 = saturate(NANO + muldiv(r, p, 8 * (NANO as i128)), NANO, 2 * NANO);
    proof {
        lemma_tdiv_scale_left(r as int, p as int, 7 * NANO as int);
    }
    let p: i64 = saturate(NANO + muldiv(r, p, 7 * (NANO as i128)), NANO, 2 * NANO);
    proof {
        lemma_tdiv_scale_left(r as int, p as int, 6 * NANO as int);
    }
    let p: i64 = saturate(NANO + muldiv(r, p, 6 * (NANO as i128)), NANO, 2 * NANO);
    proof {
        lemma_tdiv_scale_left(r as int, p as int, 5 * NANO as int);
    }
    let p: i64 = saturate(NANO + muldiv(r, p, 5 * (NANO as i128)), NANO, 2 * NANO);
    proof {
        lemma_tdiv_scale_left(r as int, p as int, 4 * NANO as int);
    }
    let p: i64 = saturate(NANO + muldiv(r, p, 4 * (NANO as i128)), NANO, 2 * NANO);
    proof {
        lemma_tdiv_scale_left(r as int, p as int, 3 * NANO as int);
    }
    let p: i64 = saturate(NANO + muldiv(r, p, 3 * (NANO as i128)), NANO, 2 * NANO);
    proof {
        lemma_tdiv_scale_left(r as int, p as int, 2 * NANO as int);
    }
    let p: i64 = saturate(NANO + muldiv(r, p, 2 * (NANO as i128)), NANO, 2 * NANO);
    proof {
        lemma_tdiv_scale_left(r as int, p as int, NANO as int);
    }
    saturate(NANO + muldiv(r, p, NANO as i128), NANO, 2 * NANO)
}

/// `e^x` as a nano-scaled ratio, for a nano-scaled `x` in `[0, 21]`.
pub fn exp_pos_nano(x: i64) -> (e: i64)
    requires
        0 <= x <= 21 * NANO,
    ensures
        e == exp_pos_spec(x as int),
        0 <= e,
{
    let k: i64 = div_trunc(x as i128, LN2_NANO as i128) as i64;
    proof {
        lemma_tdiv_nonneg(x as int, LN2_NANO as int);
        lemma_tdiv_exact(x as int, LN2_NANO as int);
        lemma_tdiv_le(x as int, 21 * NANO as int, LN2_NANO as int);
        assert(tdiv(21 * NANO as int, LN2_NANO as int) == 30);
    }
    let r: i64 = (x as i128 - (LN2_NANO as i128) * (k as i128)) as i64;
    let p: i64 = exp_core_pos(r);
    let e: i64 = dbl_rep(p, k);
    proof {
        lemma_pow2i_mono(0, k as int);
        assert(0 <= p * pow2i(k as int)) by (nonlinear_arith)
            requires
                0 <= p,
                0 <= pow2i(k as int),
        ;
    }
    e
}

/// Natural logarithm of a nano-scaled ratio in `[0.004, 128]`:
/// normalise into `[1, 2)` by powers of two, then the arctanh series
/// `ln m = 2 (w + w^3/3 + w^5/5 + ...)` with `w = (m-1)/(m+1)`,
/// factors clamped into `[0, 2]` (a no-op on this domain).
pub open spec fn ln_series_spec(m: int) -> int {
    let w = tdiv((m - NANO) * NANO, m + NANO);
    let u = tdiv(w * w, NANO as int);
    let q = sat(52_631_578 + tdiv(u * 0, NANO as int), 0, 2 * NANO);
    let q = sat(58_823_529 + tdiv(u * q, NANO as int), 0, 2 * NANO);
    let q = sat(66_666_666 + tdiv(u * q, NANO as int), 0, 2 * NANO);
    let q = sat(76_923_076 + tdiv(u * q, NANO as int), 0, 2 * NANO);
    let q = sat(90_909_090 + tdiv(u * q, NANO as int), 0, 2 * NANO);
    let q = sat(111_111_111 + tdiv(u * q, NANO as int), 0, 2 * NANO);
    let q = sat(142_857_142 + tdiv(u * q, NANO as int), 0, 2 * NANO);
    let q = sat(200_000_000 + tdiv(u * q, NANO as int), 0, 2 * NANO);
    let q = sat(333_333_333 + tdiv(u * q, NANO as int), 0, 2 * NANO);
    let q = sat(NANO + tdiv(u * q, NANO as int), 0, 2 * NANO);
    2 * tdiv(w * q, NANO as int)
}

/// Normalisation exponent and mantissa for the logarithm: the input is
/// `x`, seven conditional halvings and doublings bring it into
/// `[1, 2)` when `0.004 <= x <= 128`.
pub open spec fn ln_norm_spec(x: int) -> (int, int) {
    let (m, k) = if x >= 2 * NANO { (tdiv(x, 2), 1int) } else { (x, 0int) };
    let (m, k) = if m >= 2 * NANO { (tdiv(m, 2), k + 1) } else { (m, k) };
    let (m, k) = if m >= 2 * NANO { (tdiv(m, 2), k + 1) } else { (m, k) };
    let (m, k) = if m >= 2 * NANO { (tdiv(m, 2), k + 1) } else { (m, k) };
    let (m, k) = if m >= 2 * NANO { (tdiv(m, 2), k + 1) } else { (m, k) };
    let (m, k) = if m >= 2 * NANO { (tdiv(m, 2), k + 1) } else { (m, k) };
    let (m, k) = if m >= 2 * NANO { (tdiv(m, 2), k + 1) } else { (m, k) };
    let (m, k) = if m < NANO { (2 * m, k - 1) } else { (m, k) };
    let (m, k) = if m < NANO { (2 * m, k - 1) } else { (m, k) };
    let (m, k) = if m < NANO { (2 * m, k - 1) } else { (m, k) };
    let (m, k) = if m < NANO { (2 * m, k - 1) } else { (m, k) };
    let (m, k) = if m < NANO { (2 * m, k - 1) } else { (m, k) };
    let (m, k) = if m < NANO { (2 * m, k - 1) } else { (m, k) };
    let (m, k) = if m < NANO { (2 * m, k - 1) } else { (m, k) };
    let (m, k) = if m < NANO { (2 * m, k - 1) } else { (m, k) };
    (m, k)
}

/// `ln x` in nano-units for a nano-scaled ratio `x` in `[0.004, 128]`.
pub open spec fn ln_spec(x: int) -> int {
    let (m, k) = ln_norm_spec(x);
    ln_series_spec(m) + k * LN2_NANO
}

fn ln_series(m: i64) -> (l: i64)
    requires
        NANO <= m < 2 * NANO,
    ensures
        l == ln_series_spec(m as int),
        0 <= l <= 2 * NANO,
{
    proof {
        assert(iabs((m as int - NANO) * NANO) <= 333_333_334 * (m as int + NANO))
            by (nonlinear_arith)
            requires
                NANO as int <= m < 2 * NANO,
        ;
        assert(0 <= 333_333_334 * (m as int + NANO)) by (nonlinear_arith)
            requires
                0 <= m,
        ;
        lemma_tdiv_bound(
            (m as int - NANO) * NANO,
            m as int + NANO,
            333_333_334 * (m as int + NANO),
        );
        assert((333_333_334 * (m as int + NANO)) / (m as int + NANO) == 333_333_334)
            by {
            vstd::arithmetic::div_mod::lemma_div_by_multiple(
                333_333_334int,
                m as int + NANO,
            );
        }
        vstd::arithmetic::mul::lemma_mul_nonnegative(m as int - NANO, NANO as int);
        lemma_tdiv_nonneg((m as int - NANO) * NANO, m as int + NANO);
    }
    let w: i64 = muldiv(m - NANO, NANO, (m as i128) + (NANO as i128));
    proof {
        lemma_tdiv_scale_right(w as int, w as int, NANO as int);
        assert(0 <= (w as int) * (w as int)) by (nonlinear_arith);
        lemma_tdiv_nonneg((w as int) * (w as int), NANO as int);
    }
    let u: i64 = muldiv(w, w, NANO as i128);
    proof {
        lemma_tdiv_scale_right(u as int, 0, NANO as int);
    }
    let q: i64 = saturate(52_631_578 + muldiv(u, 0, NANO as i128), 0, 2 * NANO);
    proof {
        lemma_tdiv_scale_left(u as int, q as int, NANO as int);
    }
    let q: i64 = saturate(58_823_529 + muldiv(u, q, NANO as i128), 0, 2 * NANO);
    proof {
        lemma_tdiv_scale_left(u as int, q as int, NANO as int);
    }
    let q: i64 = saturate(66_666_666 + muldiv(u, q, NANO as i128), 0, 2 * NANO);
    proof {
        lemma_tdiv_scale_left(u as int, q as int, NANO as int);
    }
    let q: i64 = saturate(76_923_076 + muldiv(u, q, NANO as i128), 0, 2 * NANO);
    proof {
        lemma_tdiv_scale_left(u as int, q as int, NANO as int);
    }
    let q: i64 = saturate(90_909_090 + muldiv(u, q, NANO as i128), 0, 2 * NANO);
    proof {
        lemma_tdiv_scale_left(u as int, q as int, NANO as int);
    }
    let q: i64 = saturate(111_111_111 + muldiv(u, q, NANO as i128), 0, 2 * NANO);
    proof {
        lemma_tdiv_scale_left(u as int, q as int, NANO as int);
    }
    let q: i64 = saturate(142_857_142 + muldiv(u, q, NANO as i128), 0, 2 * NANO);
    proof {
        lemma_tdiv_scale_left(u as int, q as int, NANO as int);
    }
    let q: i64 = saturate(200_000_000 + muldiv(u, q, NANO as i128), 0, 2 * NANO);
    proof {
        lemma_tdiv_scale_left(u as int, q as int, NANO as int);
    }
    let q: i64 = saturate(333_333_333 + muldiv(u, q, NANO as i128), 0, 2 * NANO);
    proof {
        lemma_tdiv_scale_left(u as int, q as int, NANO as int);
    }
    let q: i64 = saturate(NANO + muldiv(u, q, NANO as i128), 0, 2 * NANO);
    proof {
        lemma_tdiv_scale_right(w as int, q as int, 2 * NANO as int);
        vstd::arithmetic::mul::lemma_mul_nonnegative(w as int, q as int);
        lemma_tdiv_nonneg((w as int) * (q as int), NANO as int);
        assert(iabs((w as int) * (q as int)) <= 346_573_591 * (2 * NANO as int))
            by (nonlinear_arith)
            requires
                0 <= w <= 333_333_334,
                0 <= q <= 2 * NANO,
        ;
        lemma_tdiv_bound((w as int) * (q as int), NANO as int, 346_573_591 * (2 * NANO as int));
    }
    let t: i64 = muldiv(w, q, NANO as i128);
    2 * t
}

/// `ln x` in nano-units, executably.
#[verifier::rlimit(80)]
pub fn ln_nano(x: i64) -> (l: i64)
    requires
        4_000_000 <= x <= 128 * NANO,
    ensures
        l == ln_spec(x as int),
        iabs(l as int) <= 7 * NANO,
{
    let mut m: i64 = x;
    let mut k: i64 = 0;
    if m >= 2 * NANO {
        proof {
            lemma_tdiv_nonneg(m as int, 2);
            lemma_tdiv_le(2 * NANO as int, m as int, 2);
        }
        m = div_trunc(m as i128, 2) as i64;
        k = 1;
    }
    if m >= 2 * NANO {
        proof {
            lemma_tdiv_nonneg(m as int, 2);
            lemma_tdiv_le(2 * NANO as int, m as int, 2);
        }
        m = div_trunc(m as i128, 2) as i64;
        k = k + 1;
    }
    if m >= 2 * NANO {
        proof {
            lemma_tdiv_nonneg(m as int, 2);
            lemma_tdiv_le(2 * NANO as int, m as int, 2);
        }
        m = div_trunc(m as i128, 2) as i64;
        k = k + 1;
    }
    if m >= 2 * NANO {
        proof {
            lemma_tdiv_nonneg(m as int, 2);
            lemma_tdiv_le(2 * NANO as int, m as int, 2);
        }
        m = div_trunc(m as i128, 2) as i64;
        k = k + 1;
    }
    if m >= 2 * NANO {
        proof {
            lemma_tdiv_nonneg(m as int, 2);
            lemma_tdiv_le(2 * NANO as int, m as int, 2);
        }
        m = div_trunc(m as i128, 2) as i64;
        k = k + 1;
    }
    if m >= 2 * NANO {
        proof {
            lemma_tdiv_nonneg(m as int, 2);
            lemma_tdiv_le(2 * NANO as int, m as int, 2);
        }
        m = div_trunc(m as i128, 2) as i64;
        k = k + 1;
    }
    if m >= 2 * NANO {
        proof {
            lemma_tdiv_nonneg(m as int, 2);
            lemma_tdiv_le(2 * NANO as int, m as int, 2);
        }
        m = div_trunc(m as i128, 2) as i64;
        k = k + 1;
    }
    if m < NANO {
        m = 2 * m;
        k = k - 1;
    }
    if m < NANO {
        m = 2 * m;
        k = k - 1;
    }
    if m < NANO {
        m = 2 * m;
        k = k - 1;
    }
    if m < NANO {
        m = 2 * m;
        k = k - 1;
    }
    if m < NANO {
        m = 2 * m;
        k = k - 1;
    }
    if m < NANO {
        m = 2 * m;
        k = k - 1;
    }
    if m < NANO {
        m = 2 * m;
        k = k - 1;
    }
    if m < NANO {
        m = 2 * m;
        k = k - 1;
    }
    let s: i64 = ln_series(m);
    s + k * LN2_NANO
}

/// `x^y` for a nano-scaled base in `[0.01, 100]` and exponent with
/// `|y| <= 2`, computed as `exp(y ln x)`.
pub open spec fn pow_spec(x: int, y: int) -> int {
    let e = tdiv(y * ln_spec(x), NANO as int);
    if e >= 0 {
        exp_pos_spec(e)
    } else {
        exp_neg_spec(-e)
    }
}

/// Executable real power on nano-scaled ratios.
pub fn pow_nano(x: i64, y: i64) -> (r: i64)
    requires
        10_000_000 <= x <= 100 * NANO,
        iabs(y as int) <= 2 * NANO,
    ensures
        r == pow_spec(x as int, y as int),
        0 <= r,
{
    let l: i64 = ln_nano(x);
    proof {
        lemma_tdiv_scale_left(y as int, l as int, 2 * NANO as int);
        assert(iabs((y as int) * (l as int)) <= (2 * NANO as int) * (7 * NANO as int))
            by (nonlinear_arith)
            requires
                iabs(y as int) <= 2 * NANO,
                iabs(l as int) <= 7 * NANO,
        ;
        assert(0 <= (2 * NANO as int) * (7 * NANO as int)) by (nonlinear_arith);
        lemma_tdiv_bound((y as int) * (l as int), NANO as int,
            (2 * NANO as int) * (7 * NANO as int));
    }
    let e: i64 = muldiv(y, l, NANO as i128);
    assert(iabs(e as int) <= 14 * NANO);
    if e >= 0 {
        exp_pos_nano(e)
    } else {
        exp_neg_nano(-e)
    }
}

} // verus!
