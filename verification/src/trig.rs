//! Fixed-point circular functions on nanoradian angles.
//!
//! Angles are `i64` values scaled by `NANO` raw units per radian; the
//! functions return ratios at the same scale.  Each executable function is
//! pinned exactly, clause for clause, to a spec-level mirror written with
//! truncating division, and carries the range facts its callers rely on.

use vstd::prelude::*;
use crate::fixed::{tdiv, iabs, sat, muldiv, saturate, wide_mul, div_trunc, isqrt};
use crate::fixed::{lemma_tdiv_bound, lemma_tdiv_exact, lemma_tdiv_nonneg, lemma_tdiv_scale_left, lemma_tdiv_scale_right};
use crate::units::NANO;

verus! {

/// Pi in nanoradians (rounded down); the same convention holds for the
/// half, quarter and doubled constants below.
pub const PI_NANO: i64 = 3_141_592_653;

pub const PI_HALF_NANO: i64 = 1_570_796_326;

pub const PI_QUARTER_NANO: i64 = 785_398_163;

pub const TWO_PI_NANO: i64 = 6_283_185_307;

/// tan(pi/8) in nano-units, the switch point of the arctangent reduction.
pub const TAN_PI_8_NANO: i64 = 414_213_562;

/// Nested Taylor series for the sine on `[-pi/2, pi/2]`:
/// `sin x = x (1 - x^2/(2*3) (1 - x^2/(4*5) (... (1 - x^2/(14*15)))))`,
/// every factor clamped into `[0, 1]` (a no-op on this domain).
pub open spec fn sin_core_spec(r: int) -> int {
    let x2 = tdiv(r * r, NANO as int);
    let p = sat(NANO - tdiv(x2 * NANO, 210 * NANO), 0, NANO as int);
    let p = sat(NANO - tdiv(x2 * p, 156 * NANO), 0, NANO as int);
    let p = sat(NANO - tdiv(x2 * p, 110 * NANO), 0, NANO as int);
    let p = sat(NANO - tdiv(x2 * p, 72 * NANO), 0, NANO as int);
    let p = sat(NANO - tdiv(x2 * p, 42 * NANO), 0, NANO as int);
    let p = sat(NANO - tdiv(x2 * p, 20 * NANO), 0, NANO as int);
    let p = sat(NANO - tdiv(x2 * p, 6 * NANO), 0, NANO as int);
    tdiv(r * p, NANO as int)
}

/// Nested Taylor series for the cosine on `[-pi/2, pi/2]`:
/// `cos x = 1 - x^2/(1*2) (1 - x^2/(3*4) (... (1 - x^2/(15*16))))`.
/// All factors but the outermost are clamped into `[0, 1]` (a no-op),
/// the outermost into `[-1, 1]`.
pub open spec fn cos_core_spec(r: int) -> int {
    let x2 = tdiv(r * r, NANO as int);
    let p = sat(NANO - tdiv(x2 * NANO, 240 * NANO), 0, NANO as int);
    let p = sat(NANO - tdiv(x2 * p, 182 * NANO), 0, NANO as int);
    let p = sat(NANO - tdiv(x2 * p, 132 * NANO), 0, NANO as int);
    let p = sat(NANO - tdiv(x2 * p, 90 * NANO), 0, NANO as int);
    let p = sat(NANO - tdiv(x2 * p, 56 * NANO), 0, NANO as int);
    let p = sat(NANO - tdiv(x2 * p, 30 * NANO), 0, NANO as int);
    let p = sat(NANO - tdiv(x2 * p, 12 * NANO), 0, NANO as int);
    sat(NANO - tdiv(x2 * p, 2 * NANO), -(NANO as int), NANO as int)
}

/// Reduction of an arbitrary angle into `[-pi, pi]`, congruent modulo
/// two pi (in the nanoradian arithmetic).
pub open spec fn wrap_pi_spec(x: int) -> int {
    let r = x - TWO_PI_NANO * tdiv(x, TWO_PI_NANO as int);
    if r > PI_NANO {
        r - TWO_PI_NANO
    } else if r < -PI_NANO {
        r + TWO_PI_NANO
    } else {
        r
    }
}

/// Quadrant folding of a wrapped angle into `[-pi/2 - 1, pi/2 + 1]`,
/// on which the sine series is evaluated directly.
pub open spec fn sin_spec(x: int) -> int {
    let r = wrap_pi_spec(x);
    let f = if r > PI_HALF_NANO {
        PI_NANO - r
    } else if r < -PI_HALF_NANO {
        -PI_NANO - r
    } else {
        r
    };
    sat(sin_core_spec(f), -(NANO as int), NANO as int)
}

/// Quadrant folding for the cosine; the outer half-circle negates.
pub open spec fn cos_spec(x: int) -> int {
    let r = wrap_pi_spec(x);
    if r > PI_HALF_NANO {
        sat(-cos_core_spec(PI_NANO - r), -(NANO as int), NANO as int)
    } else if r < -PI_HALF_NANO {
        sat(-cos_core_spec(-PI_NANO - r), -(NANO as int), NANO as int)
    } else {
        sat(cos_core_spec(r), -(NANO as int), NANO as int)
    }
}

/// Anchors of the sine and cosine accounts: both series collapse to
/// the exact values at zero, pinning the fixed-point images of
/// sin 0 = 0 and cos 0 = 1 inside the proofs as well as in the tests.
pub proof fn lemma_sin_cos_spec_zero()
    ensures
        sin_spec(0) == 0,
        cos_spec(0) == NANO,
{
    vstd::arithmetic::div_mod::lemma_div_of0(TWO_PI_NANO as int);
    vstd::arithmetic::div_mod::lemma_div_of0(NANO as int);
    vstd::arithmetic::div_mod::lemma_div_of0(210 * NANO);
    vstd::arithmetic::div_mod::lemma_div_of0(156 * NANO);
    vstd::arithmetic::div_mod::lemma_div_of0(110 * NANO);
    vstd::arithmetic::div_mod::lemma_div_of0(72 * NANO);
    vstd::arithmetic::div_mod::lemma_div_of0(42 * NANO);
    vstd::arithmetic::div_mod::lemma_div_of0(20 * NANO);
    vstd::arithmetic::div_mod::lemma_div_of0(6 * NANO);
    vstd::arithmetic::div_mod::lemma_div_of0(240 * NANO);
    vstd::arithmetic::div_mod::lemma_div_of0(182 * NANO);
    vstd::arithmetic::div_mod::lemma_div_of0(132 * NANO);
    vstd::arithmetic::div_mod::lemma_div_of0(90 * NANO);
    vstd::arithmetic::div_mod::lemma_div_of0(56 * NANO);
    vstd::arithmetic::div_mod::lemma_div_of0(30 * NANO);
    vstd::arithmetic::div_mod::lemma_div_of0(12 * NANO);
    vstd::arithmetic::div_mod::lemma_div_of0(2 * NANO);
    assert(wrap_pi_spec(0) == 0);
    assert(sin_core_spec(0) == 0);
    assert(cos_core_spec(0) == NANO);
}

fn sin_core(r: i64) -> (s: i64)
    requires
        iabs(r as int) <= PI_HALF_NANO + 2,
    ensures
        s == sin_core_spec(r as int),
        iabs(s as int) <= PI_HALF_NANO + 2,
{
    proof {
        assert(0 <= (r as int) * (r as int) <= 2_467_401_104_058_283_584int)
            by (nonlinear_arith)
            requires
                -1_570_796_328 <= r <= 1_570_796_328,
        ;
        lemma_tdiv_bound((r as int) * (r as int), NANO as int, 2_467_401_104_058_283_584int);
    }
    let x2: i64 = muldiv(r, r, NANO as i128);
    assert(0 <= x2 <= 2_467_401_104);
    proof {
        lemma_tdiv_scale_right(x2 as int, NANO as int, 210 * NANO as int);
    }
    let p: i64 = saturate(NANO - muldiv(x2, NANO, 210 * (NANO as i128)), 0, NANO);
    proof {
        lemma_tdiv_scale_right(x2 as int, p as int, 156 * NANO as int);
    }
    let p: i64 = saturate(NANO - muldiv(x2, p, 156 * (NANO as i128)), 0, NANO);
    proof {
        lemma_tdiv_scale_right(x2 as int, p as int, 110 * NANO as int);
    }
    let p: i64 = saturate(NANO - muldiv(x2, p, 110 * (NANO as i128)), 0, NANO);
    proof {
        lemma_tdiv_scale_right(x2 as int, p as int, 72 * NANO as int);
    }
    let p: i64 = saturate(NANO - muldiv(x2, p, 72 * (NANO as i128)), 0, NANO);
    proof {
        lemma_tdiv_scale_right(x2 as int, p as int, 42 * NANO as int);
    }
    let p: i64 = saturate(NANO - muldiv(x2, p, 42 * (NANO as i128)), 0, NANO);
    proof {
        lemma_tdiv_scale_right(x2 as int, p as int, 20 * NANO as int);
    }
    let p: i64 = saturate(NANO - muldiv(x2, p, 20 * (NANO as i128)), 0, NANO);
    proof {
        lemma_tdiv_scale_right(x2 as int, p as int, 6 * NANO as int);
    }
    let p: i64 = saturate(NANO - muldiv(x2, p, 6 * (NANO as i128)), 0, NANO);
    proof {
        lemma_tdiv_scale_right(r as int, p as int, NANO as int);
    }
    muldiv(r, p, NANO as i128)
}

fn cos_core(r: i64) -> (c: i64)
    requires
        iabs(r as int) <= PI_HALF_NANO + 2,
    ensures
        c == cos_core_spec(r as int),
        iabs(c as int) <= NANO,
{
    proof {
        assert(0 <= (r as int) * (r as int) <= 2_467_401_104_058_283_584int)
            by (nonlinear_arith)
            requires
                -1_570_796_328 <= r <= 1_570_796_328,
        ;
        lemma_tdiv_bound((r as int) * (r as int), NANO as int, 2_467_401_104_058_283_584int);
    }
    let x2: i64 = muldiv(r, r, NANO as i128);
    assert(0 <= x2 <= 2_467_401_104);
    proof {
        lemma_tdiv_scale_right(x2 as int, NANO as int, 240 * NANO as int);
    }
    let p: i64 = saturate(NANO - muldiv(x2, NANO, 240 * (NANO as i128)), 0, NANO);
    proof {
        lemma_tdiv_scale_right(x2 as int, p as int, 182 * NANO as int);
    }
    let p: i64 = saturate(NANO - muldiv(x2, p, 182 * (NANO as i128)), 0, NANO);
    proof {
        lemma_tdiv_scale_right(x2 as int, p as int, 132 * NANO as int);
    }
    let p: i64 = saturate(NANO - muldiv(x2, p, 132 * (NANO as i128)), 0, NANO);
    proof {
        lemma_tdiv_scale_right(x2 as int, p as int, 90 * NANO as int);
    }
    let p: i64 = saturate(NANO - muldiv(x2, p, 90 * (NANO as i128)), 0, NANO);
    proof {
        lemma_tdiv_scale_right(x2 as int, p as int, 56 * NANO as int);
    }
    let p: i64 = saturate(NANO - muldiv(x2, p, 56 * (NANO as i128)), 0, NANO);
    proof {
        lemma_tdiv_scale_right(x2 as int, p as int, 30 * NANO as int);
    }
    let p: i64 = saturate(NANO - muldiv(x2, p, 30 * (NANO as i128)), 0, NANO);
    proof {
        lemma_tdiv_scale_right(x2 as int, p as int, 12 * NANO as int);
    }
    let p: i64 = saturate(NANO - muldiv(x2, p, 12 * (NANO as i128)), 0, NANO);
    proof {
        lemma_tdiv_scale_right(x2 as int, p as int, 2 * NANO as int);
    }
    saturate(NANO - muldiv(x2, p, 2 * (NANO as i128)), -NANO, NANO)
}

/// Reduce an angle into `[-pi, pi]`.
pub fn wrap_pi(x: i64) -> (r: i64)
    ensures
        r == wrap_pi_spec(x as int),
        -PI_NANO <= r <= PI_NANO,
{
    let k: i128 = div_trunc(x as i128, TWO_PI_NANO as i128);
    proof {
        lemma_tdiv_exact(x as int, TWO_PI_NANO as int);
        lemma_tdiv_bound(x as int, TWO_PI_NANO as int, iabs(x as int));
    }
    let r: i64 = (x as i128 - (TWO_PI_NANO as i128) * k) as i64;
    if r > PI_NANO {
        r - TWO_PI_NANO
    } else if r < -PI_NANO {
        r + TWO_PI_NANO
    } else {
        r
    }
}

/// Nested Taylor series for the arctangent on `[-tan(pi/8), tan(pi/8)]`:
/// `atan z = z (1 - z^2 (1/3 - z^2 (1/5 - ... )))`, every factor clamped
/// into `[0, 1]` (a no-op on this domain).
pub open spec fn atan_core_spec(z: int) -> int {
    let u = tdiv(z * z, NANO as int);
    let q = sat(47_619_047 - tdiv(u * 0, NANO as int), 0, NANO as int);
    let q = sat(52_631_578 - tdiv(u * q, NANO as int), 0, NANO as int);
    let q = sat(58_823_529 - tdiv(u * q, NANO as int), 0, NANO as int);
    let q = sat(66_666_666 - tdiv(u * q, NANO as int), 0, NANO as int);
    let q = sat(76_923_076 - tdiv(u * q, NANO as int), 0, NANO as int);
    let q = sat(90_909_090 - tdiv(u * q, NANO as int), 0, NANO as int);
    let q = sat(111_111_111 - tdiv(u * q, NANO as int), 0, NANO as int);
    let q = sat(142_857_142 - tdiv(u * q, NANO as int), 0, NANO as int);
    let q = sat(200_000_000 - tdiv(u * q, NANO as int), 0, NANO as int);
    let q = sat(333_333_333 - tdiv(u * q, NANO as int), 0, NANO as int);
    let q = sat(NANO - tdiv(u * q, NANO as int), 0, NANO as int);
    tdiv(z * q, NANO as int)
}

/// Arctangent of a ratio in `[0, 1]`, reduced at `tan(pi/8)` through
/// `atan z = pi/4 + atan((z - 1) / (z + 1))`.
pub open spec fn atan_full_spec(z: int) -> int {
    if z <= TAN_PI_8_NANO {
        atan_core_spec(z)
    } else {
        PI_QUARTER_NANO + atan_core_spec(tdiv((z - NANO) * NANO, z + NANO))
    }
}

/// Four-quadrant arctangent of `y / x`, in `[-pi, pi]`; the origin maps
/// to zero.
pub open spec fn atan2_spec(y: int, x: int) -> int {
    if x == 0 {
        if y > 0 {
            PI_HALF_NANO as int
        } else if y < 0 {
            -PI_HALF_NANO as int
        } else {
            0
        }
    } else {
        let ax = iabs(x);
        let ay = iabs(y);
        let a = if ay <= ax {
            atan_full_spec(tdiv(ay * NANO, ax))
        } else {
            PI_HALF_NANO - atan_full_spec(tdiv(ax * NANO, ay))
        };
        let b = if x < 0 {
            PI_NANO - a
        } else {
            a
        };
        if y < 0 {
            -b
        } else {
            b
        }
    }
}

/// Arcsine of a nano-scaled ratio, through
/// `asin x = atan(x / sqrt(1 - x^2))`.
pub open spec fn asin_spec(x: int) -> int {
    if x >= NANO {
        PI_HALF_NANO as int
    } else if x <= -NANO {
        -PI_HALF_NANO as int
    } else {
        let ax = iabs(x);
        let u = crate::fixed::sqrt_floor((NANO - ax) * (NANO + ax));
        let a = if ax <= u {
            atan_full_spec(tdiv(ax * NANO, u))
        } else {
            PI_HALF_NANO - atan_full_spec(tdiv(u * NANO, ax))
        };
        if x < 0 {
            -a
        } else {
            a
        }
    }
}

fn atan_core(z: i64) -> (r: i64)
    requires
        iabs(z as int) <= TAN_PI_8_NANO,
    ensures
        r == atan_core_spec(z as int),
        iabs(r as int) <= iabs(z as int),
        z >= 0 ==> r >= 0,
        z <= 0 ==> r <= 0,
{
    proof {
        lemma_tdiv_scale_right(z as int, z as int, NANO as int);
        assert(0 <= (z as int) * (z as int)) by (nonlinear_arith);
        lemma_tdiv_nonneg((z as int) * (z as int), NANO as int);
    }
    let u: i64 = muldiv(z, z, NANO as i128);
    proof {
        lemma_tdiv_scale_right(u as int, 0, NANO as int);
    }
    let q: i64 = saturate(47_619_047 - muldiv(u, 0, NANO as i128), 0, NANO);
    proof {
        lemma_tdiv_scale_right(u as int, q as int, NANO as int);
    }
    let q: i64 = saturate(52_631_578 - muldiv(u, q, NANO as i128), 0, NANO);
    proof {
        lemma_tdiv_scale_right(u as int, q as int, NANO as int);
    }
    let q: i64 = saturate(58_823_529 - muldiv(u, q, NANO as i128), 0, NANO);
    proof {
        lemma_tdiv_scale_right(u as int, q as int, NANO as int);
    }
    let q: i64 = saturate(66_666_666 - muldiv(u, q, NANO as i128), 0, NANO);
    proof {
        lemma_tdiv_scale_right(u as int, q as int, NANO as int);
    }
    let q: i64 = saturate(76_923_076 - muldiv(u, q, NANO as i128), 0, NANO);
    proof {
        lemma_tdiv_scale_right(u as int, q as int, NANO as int);
    }
    let q: i64 = saturate(90_909_090 - muldiv(u, q, NANO as i128), 0, NANO);
    proof {
        lemma_tdiv_scale_right(u as int, q as int, NANO as int);
    }
    let q: i64 = saturate(111_111_111 - muldiv(u, q, NANO as i128), 0, NANO);
    proof {
        lemma_tdiv_scale_right(u as int, q as int, NANO as int);
    }
    let q: i64 = saturate(142_857_142 - muldiv(u, q, NANO as i128), 0, NANO);
    proof {
        lemma_tdiv_scale_right(u as int, q as int, NANO as int);
    }
    let q: i64 = saturate(200_000_000 - muldiv(u, q, NANO as i128), 0, NANO);
    proof {
        lemma_tdiv_scale_right(u as int, q as int, NANO as int);
    }
    let q: i64 = saturate(333_333_333 - muldiv(u, q, NANO as i128), 0, NANO);
    proof {
        lemma_tdiv_scale_right(u as int, q as int, NANO as int);
    }
    let q: i64 = saturate(NANO - muldiv(u, q, NANO as i128), 0, NANO);
    proof {
        lemma_tdiv_scale_right(z as int, q as int, NANO as int);
        if z >= 0 {
            vstd::arithmetic::mul::lemma_mul_nonnegative(z as int, q as int);
            lemma_tdiv_nonneg((z as int) * (q as int), NANO as int);
        } else {
            vstd::arithmetic::mul::lemma_mul_nonnegative(-(z as int), q as int);
            lemma_tdiv_nonneg(-(z as int) * (q as int), NANO as int);
            assert(-(z as int) * (q as int) == -((z as int) * (q as int)))
                by (nonlinear_arith);
        }
    }
    muldiv(z, q, NANO as i128)
}

fn atan_full(z: i64) -> (r: i64)
    requires
        0 <= z <= NANO,
    ensures
        r == atan_full_spec(z as int),
        0 <= r <= PI_HALF_NANO,
        z == 0 ==> r == 0,
{
    if z <= TAN_PI_8_NANO {
        proof {
            vstd::arithmetic::div_mod::lemma_div_of0(NANO as int);
        }
        atan_core(z)
    } else {
        proof {
            assert((NANO - z) * NANO <= TAN_PI_8_NANO * (NANO + z)) by (nonlinear_arith)
                requires
                    414_213_563 <= z <= 1_000_000_000,
            ;
            assert(0 <= TAN_PI_8_NANO * (NANO + z)) by (nonlinear_arith)
                requires
                    z >= 0,
            ;
            assert(iabs((z as int - NANO) * NANO) <= TAN_PI_8_NANO * (NANO + z))
                by (nonlinear_arith)
                requires
                    414_213_563 <= z <= 1_000_000_000,
            ;
            lemma_tdiv_bound(
                (z as int - NANO) * NANO,
                z as int + NANO,
                TAN_PI_8_NANO * (NANO as int + z as int),
            );
            assert((TAN_PI_8_NANO * (NANO as int + z as int)) / (NANO as int + z as int)
                == TAN_PI_8_NANO) by {
                vstd::arithmetic::div_mod::lemma_div_by_multiple(
                    TAN_PI_8_NANO as int,
                    NANO as int + z as int,
                );
            }
        }
        let w: i64 = muldiv(z - NANO, NANO, (z as i128) + (NANO as i128));
        PI_QUARTER_NANO + atan_core(w)
    }
}

/// Four-quadrant arctangent, `atan2(y, x)` in nanoradians.
pub fn atan2_nano(y: i64, x: i64) -> (r: i64)
    requires
        y > i64::MIN,
        x > i64::MIN,
    ensures
        r == atan2_spec(y as int, x as int),
        -PI_NANO <= r <= PI_NANO,
        y == 0 && x > 0 ==> r == 0,
        y == 0 && x < 0 ==> r == PI_NANO,
        x == 0 && y > 0 ==> r == PI_HALF_NANO,
        y >= 0 && x > 0 ==> 0 <= r <= PI_HALF_NANO,
        y >= 0 && x < 0 ==> PI_HALF_NANO <= r <= PI_NANO,
        y >= 0 ==> 0 <= r <= PI_NANO,
        y < 0 ==> -PI_NANO <= r <= 0,
{
    if x == 0 {
        if y > 0 {
            PI_HALF_NANO
        } else if y < 0 {
            -PI_HALF_NANO
        } else {
            0
        }
    } else {
        let ax: i64 = if x < 0 { -x } else { x };
        let ay: i64 = if y < 0 { -y } else { y };
        let a: i64 = if ay <= ax {
            proof {
                lemma_tdiv_scale_left(ay as int, NANO as int, ax as int);
                vstd::arithmetic::mul::lemma_mul_nonnegative(ay as int, NANO as int);
                lemma_tdiv_nonneg(ay as int * NANO as int, ax as int);
            }
            let z: i64 = muldiv(ay, NANO, ax as i128);
            atan_full(z)
        } else {
            proof {
                lemma_tdiv_scale_left(ax as int, NANO as int, ay as int);
                vstd::arithmetic::mul::lemma_mul_nonnegative(ax as int, NANO as int);
                lemma_tdiv_nonneg(ax as int * NANO as int, ay as int);
            }
            let z: i64 = muldiv(ax, NANO, ay as i128);
            PI_HALF_NANO - atan_full(z)
        };
        let b: i64 = if x < 0 { PI_NANO - a } else { a };
        if y < 0 { -b } else { b }
    }
}

/// Arcsine of a nano-scaled ratio, in `[-pi/2, pi/2]`.
pub fn asin_nano(x: i64) -> (r: i64)
    requires
        iabs(x as int) <= NANO,
    ensures
        r == asin_spec(x as int),
        -PI_HALF_NANO <= r <= PI_HALF_NANO,
        x >= 0 ==> r >= 0,
        x <= 0 ==> r <= 0,
{
    if x >= NANO {
        PI_HALF_NANO
    } else if x <= -NANO {
        -PI_HALF_NANO
    } else {
        let ax: i64 = if x < 0 { -x } else { x };
        let prod: i128 = wide_mul(NANO - ax, NANO + ax);
        proof {
            assert(1 <= (NANO - ax as int) * (NANO + ax as int)
                <= 1_000_000_000_000_000_000int) by (nonlinear_arith)
                requires
                    0 <= ax < 1_000_000_000,
            ;
        }
        let u64v: u64 = isqrt(prod as u128);
        proof {
            assert(u64v as int * (u64v as int) <= 1_000_000_000_000_000_000int);
            assert(u64v <= 1_000_000_000) by (nonlinear_arith)
                requires
                    u64v as int * (u64v as int) <= 1_000_000_000_000_000_000int,
            ;
            if u64v == 0 {
                assert((0 + 1) * (0 + 1) == 1);
                assert(false);
            }
        }
        let u: i64 = u64v as i64;
        let a: i64 = if ax <= u {
            proof {
                lemma_tdiv_scale_left(ax as int, NANO as int, u as int);
                vstd::arithmetic::mul::lemma_mul_nonnegative(ax as int, NANO as int);
                lemma_tdiv_nonneg(ax as int * NANO as int, u as int);
            }
            let z: i64 = muldiv(ax, NANO, u as i128);
            atan_full(z)
        } else {
            proof {
                lemma_tdiv_scale_left(u as int, NANO as int, ax as int);
                vstd::arithmetic::mul::lemma_mul_nonnegative(u as int, NANO as int);
                lemma_tdiv_nonneg(u as int * NANO as int, ax as int);
            }
            let z: i64 = muldiv(u, NANO, ax as i128);
            PI_HALF_NANO - atan_full(z)
        };
        if x < 0 { -a } else { a }
    }
}

/// Sine of an angle in nanoradians, as a nano-scaled ratio.
pub fn sin_nano(x: i64) -> (s: i64)
    ensures
        s == sin_spec(x as int),
        iabs(s as int) <= NANO,
{
    let r: i64 = wrap_pi(x);
    let f: i64 = if r > PI_HALF_NANO {
        PI_NANO - r
    } else if r < -PI_HALF_NANO {
        -PI_NANO - r
    } else {
        r
    };
    saturate(sin_core(f), -NANO, NANO)
}

/// Cosine of an angle in nanoradians, as a nano-scaled ratio.
pub fn cos_nano(x: i64) -> (c: i64)
    ensures
        c == cos_spec(x as int),
        iabs(c as int) <= NANO,
{
    let r: i64 = wrap_pi(x);
    if r > PI_HALF_NANO {
        saturate(-cos_core(PI_NANO - r), -NANO, NANO)
    } else if r < -PI_HALF_NANO {
        saturate(-cos_core(-PI_NANO - r), -NANO, NANO)
    } else {
        saturate(cos_core(r), -NANO, NANO)
    }
}

} // verus!
