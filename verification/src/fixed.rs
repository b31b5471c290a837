//! Scaled-integer arithmetic: truncating division, widening multiplication,
//! integer square root, and the saturation helpers the controllers use.

use vstd::prelude::*;
use vstd::arithmetic::div_mod::{
    lemma_div_is_ordered, lemma_div_pos_is_pos, lemma_fundamental_div_mod,
};

verus! {

/// Truncating division (quotient rounded towards zero), the semantics of
/// Rust's `/` on signed integers, expressed over mathematical integers.
/// In spec code `/` itself is Euclidean, which differs on negative dividends.
pub open spec fn tdiv(n: int, d: int) -> int {
    if n >= 0 {
        n / d
    } else {
        -((-n) / d)
    }
}

/// Magnitude of a mathematical integer.
pub open spec fn iabs(n: int) -> int {
    if n >= 0 {
        n
    } else {
        -n
    }
}

/// The quotient of a bounded dividend is bounded by the quotient of the bound.
pub proof fn lemma_tdiv_bound(n: int, d: int, b: int)
    requires
        1 <= d,
        0 <= b,
        iabs(n) <= b,
    ensures
        iabs(tdiv(n, d)) <= b / d,
        iabs(tdiv(n, d)) <= b,
{
    if n >= 0 {
        lemma_div_is_ordered(n, b, d);
        lemma_div_pos_is_pos(n, d);
    } else {
        lemma_div_is_ordered(-n, b, d);
        lemma_div_pos_is_pos(-n, d);
    }
    assert(b <= b * d) by {
        vstd::arithmetic::mul::lemma_mul_inequality(1, d, b);
        vstd::arithmetic::mul::lemma_mul_is_commutative(b, d);
    }
    lemma_div_is_ordered(b, b * d, d);
    assert(b * d / d == b) by {
        vstd::arithmetic::div_mod::lemma_div_by_multiple(b, d);
    }
}

/// Truncating division undershoots the exact quotient by less than one.
pub proof fn lemma_tdiv_exact(n: int, d: int)
    requires
        1 <= d,
    ensures
        iabs(n - d * tdiv(n, d)) < d,
        iabs(d * tdiv(n, d)) <= iabs(n),
{
    if n >= 0 {
        lemma_fundamental_div_mod(n, d);
        lemma_div_pos_is_pos(n, d);
        vstd::arithmetic::mul::lemma_mul_nonnegative(d, n / d);
        vstd::arithmetic::div_mod::lemma_mod_division_less_than_divisor(n, d);
    } else {
        let q = (-n) / d;
        lemma_fundamental_div_mod(-n, d);
        lemma_div_pos_is_pos(-n, d);
        vstd::arithmetic::mul::lemma_mul_nonnegative(d, q);
        vstd::arithmetic::div_mod::lemma_mod_division_less_than_divisor(-n, d);
        assert(d * (-q) == -(d * q)) by {
            vstd::arithmetic::mul::lemma_mul_unary_negation(d, q);
        }
        assert(-n == d * q + ((-n) % d));
        assert(n - d * tdiv(n, d) == -((-n) % d));
    }
}

/// A quotient of non-negative operands is non-negative and no larger than
/// the dividend.
pub proof fn lemma_tdiv_nonneg(n: int, d: int)
    requires
        1 <= d,
        0 <= n,
    ensures
        0 <= tdiv(n, d) <= n,
{
    lemma_tdiv_bound(n, d, n);
}

/// Truncating division is monotone in a non-negative dividend.
pub proof fn lemma_tdiv_le(n1: int, n2: int, d: int)
    requires
        1 <= d,
        0 <= n1 <= n2,
    ensures
        tdiv(n1, d) <= tdiv(n2, d),
{
    lemma_div_is_ordered(n1, n2, d);
}

/// Dividing a non-negative value by a larger divisor gives a smaller
/// quotient.
pub proof fn lemma_tdiv_den_mono(n: int, d1: int, d2: int)
    requires
        0 <= n,
        1 <= d1 <= d2,
    ensures
        tdiv(n, d2) <= tdiv(n, d1),
{
    vstd::arithmetic::div_mod::lemma_div_is_ordered_by_denominator(n, d1, d2);
}

/// A bounded dividend over a lower-bounded divisor: the quotient is
/// within the bound's quotient at the smallest divisor.
pub proof fn lemma_tdiv_abs_le(n: int, d: int, b: int, dmin: int)
    requires
        1 <= dmin <= d,
        iabs(n) <= b,
    ensures
        iabs(tdiv(n, d)) <= tdiv(b, dmin),
{
    if n >= 0 {
        lemma_tdiv_le(n, b, d);
        lemma_div_pos_is_pos(n, d);
    } else {
        lemma_tdiv_le(-n, b, d);
        lemma_div_pos_is_pos(-n, d);
    }
    lemma_tdiv_den_mono(b, dmin, d);
}

/// A product by the divisor divides out exactly, for either sign.
pub proof fn lemma_tdiv_mul_exact(a: int, d: int)
    requires
        1 <= d,
    ensures
        tdiv(a * d, d) == a,
{
    if a >= 0 {
        vstd::arithmetic::mul::lemma_mul_nonnegative(a, d);
        vstd::arithmetic::div_mod::lemma_div_by_multiple(a, d);
    } else {
        assert(-(a * d) == (-a) * d) by (nonlinear_arith);
        assert(a * d <= 0) by (nonlinear_arith)
            requires
                a < 0,
                0 < d,
        ;
        vstd::arithmetic::div_mod::lemma_div_by_multiple(-a, d);
        if a * d == 0 {
            assert(a == 0) by (nonlinear_arith)
                requires
                    a * d == 0,
                    0 < d,
            ;
        }
    }
}

/// Truncating division is linear up to one rounding unit per multiple:
/// scaling the dividend by `k` changes the quotient by `k` times the
/// original quotient, give or take less than `k + 1`.
pub proof fn lemma_tdiv_linear(x: int, d: int, k: int)
    requires
        1 <= d,
        1 <= k,
    ensures
        iabs(tdiv(k * x, d) - k * tdiv(x, d)) <= k,
{
    let q = tdiv(x, d);
    let qk = tdiv(k * x, d);
    lemma_tdiv_exact(x, d);
    lemma_tdiv_exact(k * x, d);
    assert(iabs(k * (x - d * q)) <= k * (d - 1)) by (nonlinear_arith)
        requires
            iabs(x - d * q) <= d - 1,
            1 <= k,
    ;
    assert(d * qk - d * (k * q) == (d * qk - k * x) + k * (x - d * q)) by (nonlinear_arith);
    assert(iabs(d * (qk - k * q)) < d + k * d) by (nonlinear_arith)
        requires
            iabs(d * qk - k * x) < d,
            iabs(k * (x - d * q)) <= k * (d - 1),
            d * qk - d * (k * q) == (d * qk - k * x) + k * (x - d * q),
            1 <= d,
            1 <= k,
    ;
    assert(iabs(qk - k * q) <= k) by (nonlinear_arith)
        requires
            iabs(d * (qk - k * q)) < d + k * d,
            1 <= d,
            1 <= k,
    ;
}

/// Perturbing the dividend moves the quotient by at most the scaled
/// perturbation plus two rounding units.
pub proof fn lemma_tdiv_shift(a: int, b: int, d: int)
    requires
        1 <= d,
    ensures
        iabs(tdiv(a + b, d) - tdiv(a, d)) <= tdiv(iabs(b), d) + 2,
{
    let q = tdiv(a, d);
    let qb = tdiv(a + b, d);
    lemma_tdiv_exact(a, d);
    lemma_tdiv_exact(a + b, d);
    lemma_tdiv_exact(iabs(b), d);
    lemma_tdiv_nonneg(iabs(b), d);
    assert(d * qb - d * q == ((a + b) - d * q) - ((a + b) - d * qb)) by (nonlinear_arith);
    assert(iabs(d * (qb - q)) < iabs(b) + 2 * d) by (nonlinear_arith)
        requires
            iabs((a + b) - d * qb) < d,
            iabs(a - d * q) < d,
            d * qb - d * q == ((a + b) - d * q) - ((a + b) - d * qb),
            1 <= d,
    ;
    assert(iabs(b) < d * (tdiv(iabs(b), d) + 1)) by (nonlinear_arith)
        requires
            iabs(iabs(b) - d * tdiv(iabs(b), d)) < d,
            0 <= tdiv(iabs(b), d),
            1 <= d,
    ;
    assert(iabs(qb - q) <= tdiv(iabs(b), d) + 2) by (nonlinear_arith)
        requires
            iabs(d * (qb - q)) < iabs(b) + 2 * d,
            iabs(b) < d * (tdiv(iabs(b), d) + 1),
            0 <= tdiv(iabs(b), d),
            1 <= d,
    ;
}

/// A scaled product `a * b / d` with the scale factor `b` no larger than
/// the divisor is bounded by the other factor.
pub proof fn lemma_tdiv_scale_right(a: int, b: int, d: int)
    requires
        1 <= d,
        iabs(b) <= d,
    ensures
        iabs(tdiv(a * b, d)) <= iabs(a),
{
    assert(iabs(a * b) <= iabs(a) * d) by (nonlinear_arith)
        requires
            iabs(b) <= d,
            0 <= d,
    ;
    vstd::arithmetic::mul::lemma_mul_nonnegative(iabs(a), d);
    lemma_tdiv_bound(a * b, d, iabs(a) * d);
    assert((iabs(a) * d) / d == iabs(a)) by {
        vstd::arithmetic::div_mod::lemma_div_by_multiple(iabs(a), d);
    }
}

/// The symmetric fact, with the first factor below the divisor.
pub proof fn lemma_tdiv_scale_left(a: int, b: int, d: int)
    requires
        1 <= d,
        iabs(a) <= d,
    ensures
        iabs(tdiv(a * b, d)) <= iabs(b),
{
    assert(a * b == b * a) by (nonlinear_arith);
    lemma_tdiv_scale_right(b, a, d);
}

/// Widening product of two machine words; can never overflow `i128`.
pub fn wide_mul(a: i64, b: i64) -> (r: i128)
    ensures
        r == a * b,
        -0x4000_0000_0000_0000_0000_0000_0000_0000 <= r
            <= 0x4000_0000_0000_0000_0000_0000_0000_0000,
{
    proof {
        assert(-0x4000_0000_0000_0000_0000_0000_0000_0000 <= (a as int) * (b as int)
            <= 0x4000_0000_0000_0000_0000_0000_0000_0000) by (nonlinear_arith)
            requires
                -0x8000_0000_0000_0000 <= a <= 0x7fff_ffff_ffff_ffff,
                -0x8000_0000_0000_0000 <= b <= 0x7fff_ffff_ffff_ffff,
        ;
    }
    (a as i128) * (b as i128)
}

/// Truncating division on `i128`, built from the unsigned division of the
/// magnitudes so that the result is pinned to `tdiv`.
pub fn div_trunc(n: i128, d: i128) -> (r: i128)
    requires
        1 <= d,
        n > i128::MIN,
    ensures
        r == tdiv(n as int, d as int),
{
    if n >= 0 {
        let q: u128 = (n as u128) / (d as u128);
        proof {
            lemma_div_pos_is_pos(n as int, d as int);
            lemma_div_is_ordered(n as int, n as int, d as int);
            assert(n / d <= n) by {
                vstd::arithmetic::div_mod::lemma_div_nonincreasing(n as int, d as int);
            }
        }
        q as i128
    } else {
        let m: i128 = -n;
        let q: u128 = (m as u128) / (d as u128);
        proof {
            lemma_div_pos_is_pos(m as int, d as int);
            assert(m / d <= m) by {
                vstd::arithmetic::div_mod::lemma_div_nonincreasing(m as int, d as int);
            }
        }
        -(q as i128)
    }
}

/// Scaled product: `a * b / d` with one truncating division at the end.
pub fn muldiv(a: i64, b: i64, d: i128) -> (r: i64)
    requires
        1 <= d,
        iabs(tdiv(a * b, d as int)) <= i64::MAX,
    ensures
        r == tdiv(a * b, d as int),
{
    let n: i128 = wide_mul(a, b);
    let q: i128 = div_trunc(n, d);
    q as i64
}

/// The rounded-down square root, as a mathematical function; it is the
/// unique non-negative `r` with `r * r <= x < (r + 1) * (r + 1)`.
pub open spec fn sqrt_floor(x: int) -> int {
    choose|r: int| 0 <= r && #[trigger] (r * r) <= x && x < (r + 1) * (r + 1)
}

/// Two rounded-down square roots of the same value coincide.
pub proof fn lemma_sqrt_floor_unique(x: int, r: int)
    requires
        0 <= r,
        r * r <= x,
        x < (r + 1) * (r + 1),
    ensures
        sqrt_floor(x) == r,
{
    assert(exists|s: int| 0 <= s && #[trigger] (s * s) <= x && x < (s + 1) * (s + 1)) by {
        assert(0 <= r && r * r <= x && x < (r + 1) * (r + 1));
    }
    let s = choose|s: int| 0 <= s && #[trigger] (s * s) <= x && x < (s + 1) * (s + 1);
    assert(0 <= s && s * s <= x && x < (s + 1) * (s + 1));
    assert(s == r) by (nonlinear_arith)
        requires
            0 <= r,
            0 <= s,
            r * r <= x,
            x < (r + 1) * (r + 1),
            s * s <= x,
            x < (s + 1) * (s + 1),
    ;
}

/// Integer square root: the greatest `r` with `r * r <= x`.
pub fn isqrt(x: u128) -> (r: u64)
    ensures
        (r as int) * (r as int) <= x,
        x < (r as int + 1) * (r as int + 1),
        r == sqrt_floor(x as int),
{
    if x == 0 {
        proof {
            lemma_sqrt_floor_unique(x as int, 0);
        }
        return 0;
    }
    let mut lo: u128 = 0;
    let mut hi: u128 = 0x1_0000_0000_0000_0000;
    proof {
        assert(x < 0x1_0000_0000_0000_0000 * 0x1_0000_0000_0000_0000);
    }
    while lo + 1 < hi
        invariant
            0 <= lo < hi <= 0x1_0000_0000_0000_0000,
            (lo as int) * (lo as int) <= x,
            x < (hi as int) * (hi as int),
        decreases hi - lo,
    {
        let mid: u128 = lo + (hi - lo) / 2;
        proof {
            assert(lo < mid < hi);
            assert(mid * mid < 0x1_0000_0000_0000_0000 * 0x1_0000_0000_0000_0000)
                by (nonlinear_arith)
                requires
                    0 <= mid < 0x1_0000_0000_0000_0000u128,
            ;
        }
        if mid * mid <= x {
            lo = mid;
        } else {
            hi = mid;
        }
    }
    proof {
        lemma_sqrt_floor_unique(x as int, lo as int);
    }
    lo as u64
}

/// Clamp into a closed interval, the saturation primitive of both
/// controllers.
pub open spec fn sat(val: int, min: int, max: int) -> int {
    if val < min {
        min
    } else if max < val {
        max
    } else {
        val
    }
}

/// Executable saturation; mirrors `sat` exactly.
pub fn saturate(val: i64, min: i64, max: i64) -> (r: i64)
    ensures
        r == sat(val as int, min as int, max as int),
        min <= max ==> min <= r <= max,
{
    if val < min {
        min
    } else if max < val {
        max
    } else {
        val
    }
}

/// Saturation of a wide intermediate into a machine-word interval.
pub fn sat_i128(val: i128, min: i64, max: i64) -> (r: i64)
    requires
        min <= max,
    ensures
        r == sat(val as int, min as int, max as int),
        min <= r <= max,
{
    if val < min as i128 {
        min
    } else if (max as i128) < val {
        max
    } else {
        val as i64
    }
}

/// Product of two wide intermediates, one bounded by `2^93` and the other
/// by `2^33`; such a product cannot overflow `i128`.
pub fn mul_wide(a: i128, b: i128) -> (r: i128)
    requires
        iabs(a as int) <= 0x2000_0000_0000_0000_0000_0000,
        iabs(b as int) <= 0x2_0000_0000,
    ensures
        r == a * b,
{
    proof {
        assert(iabs((a as int) * (b as int))
            <= 0x4000_0000_0000_0000_0000_0000_0000_0000) by (nonlinear_arith)
            requires
                iabs(a as int) <= 0x2000_0000_0000_0000_0000_0000,
                iabs(b as int) <= 0x2_0000_0000,
        ;
    }
    a * b
}

/// Sign of a value, negative mapped to -1 and everything else to +1.
pub fn sign(val: i64) -> (r: i64)
    ensures
        r == (if val < 0 { -1int } else { 1int }),
{
    if val < 0 {
        -1
    } else {
        1
    }
}

} // verus!
