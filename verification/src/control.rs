//! Control: the translation controller maps the commanded acceleration
//! to a thrust magnitude and an ideal attitude; the cascaded angular
//! controller maps the attitude error to a gimbal command under rate
//! and position limits.

use vstd::prelude::*;
use crate::fixed::{tdiv, iabs, sat, sqrt_floor, muldiv, div_trunc, wide_mul, mul_wide, isqrt, saturate};
use crate::fixed::{lemma_tdiv_bound, lemma_tdiv_nonneg, lemma_tdiv_le, lemma_tdiv_abs_le, lemma_tdiv_scale_left, lemma_tdiv_scale_right, lemma_sqrt_floor_unique};
use crate::conf::{CtrSpacecraft, Scenario};
use crate::spacecraft::Spacecraft;
use crate::state::{ActuatorsValues, SpacecraftDynamic};
use crate::trig::{atan2_spec, atan2_nano, asin_spec, asin_nano, wrap_pi, wrap_pi_spec, PI_NANO, PI_HALF_NANO};
use crate::units::{Time, Mass, Force, Angle, AngVel, Acceleration, Ratio, Vec2, MICRO, NANO};

verus! {

/// Length of the constant-pitch-rate override after an ascent-to-orbit
/// ignition, in microseconds.
pub const ASCENT_PITCH_OVER_US: i64 = 50_000_000;

/// The thrust the translation controller asks for, before saturation:
/// the vehicle mass times the norm of the commanded acceleration.
pub open spec fn wanted_thrust_spec(ax: int, ay: int, m: int) -> int {
    tdiv(m * sqrt_floor(ax * ax + ay * ay), MICRO as int)
}

/// The sine of the attitude that preserves the vertical command when
/// thrust saturates: `ay m / F` as a nano-ratio.
pub open spec fn sat_attitude_sin_spec(ay: int, m: int, f: int) -> int {
    tdiv((ay * m) * NANO, f * MICRO)
}

/// The translation controller: commanded thrust and ideal attitude.
pub open spec fn control_translation_spec(ax: int, ay: int, m: int, f: int) -> (int, int) {
    if ay < 0 {
        (f, PI_NANO as int)
    } else {
        let t = wanted_thrust_spec(ax, ay, m);
        if t < f {
            (t, atan2_spec(ay, ax))
        } else {
            let a = asin_spec(sat_attitude_sin_spec(ay, m, f));
            (f, if ax < 0 {
                PI_NANO - a
            } else {
                a
            })
        }
    }
}

/// Map a commanded acceleration to a thrust magnitude and an ideal
/// attitude angle.
///
/// A negative vertical command is answered with full thrust and a
/// nose-down attitude: gravity does the work instead of propellant.
/// Otherwise the thrust is exactly the smaller of `m |a|` and the
/// nominal thrust; below saturation the attitude realises the command
/// exactly, above it the vertical axis is preserved and the horizontal
/// axis sacrificed.
pub fn control_translation(goal_acc: Vec2<Acceleration>, sc_mass: Mass, sc_thrust: Force)
    -> (r: (Force, Angle))
    requires
        iabs(goal_acc.x.raw as int) <= 30_000_000_000_000_000i64,
        iabs(goal_acc.y.raw as int) <= 30_000_000_000_000_000i64,
        MICRO <= sc_mass.raw <= 200_000_000_000i64,
        MICRO <= sc_thrust.raw <= 1_000_000_000_000i64,
        goal_acc.y.raw >= 0 && wanted_thrust_spec(goal_acc.x.raw as int, goal_acc.y.raw as int,
            sc_mass.raw as int) >= sc_thrust.raw ==> iabs(sat_attitude_sin_spec(
            goal_acc.y.raw as int, sc_mass.raw as int, sc_thrust.raw as int)) <= NANO,
    ensures
        (r.0.raw as int, r.1.raw as int) == control_translation_spec(goal_acc.x.raw as int,
            goal_acc.y.raw as int, sc_mass.raw as int, sc_thrust.raw as int),
        r.0.raw == if goal_acc.y.raw < 0 {
            sc_thrust.raw as int
        } else if wanted_thrust_spec(goal_acc.x.raw as int, goal_acc.y.raw as int,
            sc_mass.raw as int) < sc_thrust.raw {
            wanted_thrust_spec(goal_acc.x.raw as int, goal_acc.y.raw as int, sc_mass.raw as int)
        } else {
            sc_thrust.raw as int
        },
        0 <= r.0.raw <= sc_thrust.raw,
        goal_acc.y.raw < 0 ==> r.1.raw == PI_NANO,
        goal_acc.y.raw >= 0 && wanted_thrust_spec(goal_acc.x.raw as int, goal_acc.y.raw as int,
            sc_mass.raw as int) < sc_thrust.raw ==> r.1.raw == atan2_spec(
            goal_acc.y.raw as int, goal_acc.x.raw as int),
        goal_acc.y.raw >= 0 ==> 0 <= r.1.raw <= PI_NANO,
        goal_acc.y.raw >= 0 && goal_acc.x.raw >= 0 && wanted_thrust_spec(
            goal_acc.x.raw as int, goal_acc.y.raw as int, sc_mass.raw as int) < sc_thrust.raw
            ==> 0 <= r.1.raw <= PI_HALF_NANO,
        goal_acc.y.raw >= 0 && goal_acc.x.raw < 0 && wanted_thrust_spec(goal_acc.x.raw as int,
            goal_acc.y.raw as int, sc_mass.raw as int) < sc_thrust.raw ==> PI_HALF_NANO
            <= r.1.raw <= PI_NANO,
        iabs(r.1.raw as int) <= PI_NANO,
{
    let ax: i64 = goal_acc.x.raw;
    let ay: i64 = goal_acc.y.raw;
    if ay < 0 {
        (sc_thrust, Angle { raw: PI_NANO })
    } else {
        proof {
            assert(0 <= (ax as int) * (ax as int) && 0 <= (ay as int) * (ay as int)
                && (ax as int) * (ax as int) + (ay as int) * (ay as int)
                    <= 1_800_000_000_000_000_000_000_000_000_000_000int) by (nonlinear_arith)
                requires
                    iabs(ax as int) <= 30_000_000_000_000_000i64,
                    iabs(ay as int) <= 30_000_000_000_000_000i64,
            ;
            assert(42_426_406_871_192_852 * 42_426_406_871_192_852int
                == 1_800_000_000_000_000_045_476_809_375_893_904int) by (nonlinear_arith);
        }
        let n2: i128 = wide_mul(ax, ax) + wide_mul(ay, ay);
        let n64: u64 = isqrt(n2 as u128);
        proof {
            assert(n64 < 42_426_406_871_192_852u64) by (nonlinear_arith)
                requires
                    (n64 as int) * (n64 as int)
                        < 42_426_406_871_192_852 * 42_426_406_871_192_852int,
            ;
            lemma_sqrt_floor_unique(
                (ax as int) * (ax as int) + (ay as int) * (ay as int),
                n64 as int,
            );
        }
        let n: i64 = n64 as i64;
        let tw: i128 = div_trunc(wide_mul(sc_mass.raw, n), MICRO as i128);
        proof {
            vstd::arithmetic::mul::lemma_mul_nonnegative(sc_mass.raw as int, n as int);
            lemma_tdiv_nonneg(sc_mass.raw * n, MICRO as int);
        }
        if tw < sc_thrust.raw as i128 {
            let t: i64 = tw as i64;
            let a: i64 = atan2_nano(ay, ax);
            (Force { raw: t }, Angle { raw: a })
        } else {
            let num: i128 = wide_mul(ay, sc_mass.raw);
            proof {
                assert(iabs((ay as int) * (sc_mass.raw as int))
                    <= 6_000_000_000_000_000_000_000_000_000int) by (nonlinear_arith)
                    requires
                        iabs(ay as int) <= 30_000_000_000_000_000i64,
                        0 <= sc_mass.raw <= 200_000_000_000i64,
                ;
            }
            let snum: i128 = mul_wide(num, NANO as i128);
            let sden: i128 = wide_mul(sc_thrust.raw, MICRO);
            let s128: i128 = div_trunc(snum, sden);
            let s: i64 = s128 as i64;
            let a: i64 = asin_nano(s);
            proof {
                vstd::arithmetic::mul::lemma_mul_nonnegative(
                    (ay as int) * (sc_mass.raw as int), NANO as int);
                vstd::arithmetic::mul::lemma_mul_nonnegative(ay as int, sc_mass.raw as int);
                lemma_tdiv_nonneg((ay as int) * (sc_mass.raw as int) * NANO,
                    (sc_thrust.raw as int) * MICRO);
            }
            if ax < 0 {
                (sc_thrust, Angle { raw: PI_NANO - a })
            } else {
                (sc_thrust, Angle { raw: a })
            }
        }
    }
}

/// The lever-arm thrust product the gimbal solve divides by: half the
/// vehicle height times the thrust currently commanded.  It vanishes
/// with the thrust: an unpowered engine has no gimbal authority, and
/// the cascade refuses the step.
pub open spec fn gimbal_den_spec(conf: Scenario, fc: int) -> int {
    tdiv(tdiv(conf.sc_height.raw as int, 2) * fc, MICRO as int)
}

/// The sine of the raw gimbal command of the angular cascade: the
/// proportional-derivative output, turned into an angular acceleration
/// by the unit transfer, into a torque by the moment of inertia, and
/// into a gimbal sine by the lever arm and the commanded thrust `fc`.
pub open spec fn sin_gimbal_spec(conf: Scenario, kp: int, kd: int, m: int, fc: int,
    err: int, ang_vel: int) -> int {
    let u = tdiv(kp * err, NANO as int) + tdiv(kd * ang_vel, MICRO as int);
    let w2 = tdiv(conf.sc_width.raw as int, 2);
    let moi = tdiv(m * tdiv(w2 * w2, MICRO as int), 2 * MICRO);
    let torque = tdiv(moi * u, NANO as int);
    tdiv(torque * NANO, gimbal_den_spec(conf, fc))
}

/// The gain fields, as plain values; zero stands in when a gain has not
/// been derived (the controller requires both to be present).
pub open spec fn kp_raw_spec(conf: Scenario) -> int {
    match conf.ctr_eng_gimbal_kp {
        Some(kp) => kp.raw as int,
        None => 0,
    }
}

pub open spec fn kd_raw_spec(conf: Scenario) -> int {
    match conf.ctr_eng_gimbal_kd {
        Some(kd) => kd.raw as int,
        None => 0,
    }
}

/// The full angular controller: the gimbal sine through the arcsine,
/// then the rate limit against the current gimbal angle, then the
/// position limit.
pub open spec fn control_angular_spec(conf: Scenario, dt: int, ctr_ang_pos: int, m: int,
    fc: int, sc_ang_pos: int, sc_ang_vel: int, eng_gimbal_cur: int) -> int {
    let err = wrap_pi_spec(ctr_ang_pos - sc_ang_pos);
    let sg = sin_gimbal_spec(conf, kp_raw_spec(conf), kd_raw_spec(conf), m, fc, err,
        sc_ang_vel);
    let g0 = asin_spec(sg);
    let rate_step = tdiv(conf.ctr_eng_gimbal_vel_max.raw * dt, MICRO as int);
    let g1 = if iabs(g0 - eng_gimbal_cur) > rate_step {
        if g0 > eng_gimbal_cur {
            eng_gimbal_cur + rate_step
        } else {
            eng_gimbal_cur - rate_step
        }
    } else {
        g0
    };
    sat(g1, -conf.ctr_eng_gimbal_pos_max.raw, conf.ctr_eng_gimbal_pos_max.raw as int)
}

/// The ranges under which the angular cascade is called.
pub open spec fn angular_ranges(conf: Scenario, dt: int, ctr_ang_pos: int, m: int,
    fc: int, sc_ang_pos: int, sc_ang_vel: int, eng_gimbal_cur: int) -> bool {
    &&& conf.wf()
    &&& conf.ctr_eng_gimbal_kp.is_some()
    &&& conf.ctr_eng_gimbal_kd.is_some()
    &&& 2 <= dt <= MICRO
    &&& iabs(ctr_ang_pos) <= 3_300_000_000i64
    &&& MICRO <= m <= 200_000_000_000i64
    &&& 0 <= fc <= 1_000_000_000_000i64
    &&& iabs(sc_ang_pos) <= 3_143_400_000i64
    &&& iabs(sc_ang_vel) <= 110_000_000_000i64
    &&& iabs(eng_gimbal_cur) <= conf.ctr_eng_gimbal_pos_max.raw
}

/// Compute the gimbal sine of the cascade; total over the ranges, so
/// the driver can test the arcsine domain before committing to the
/// controller.
pub fn angular_sin_ratio(conf: &Scenario, ctr_ang_pos: i64, sc_mass: Mass,
    ctr_thrust: Force, sc_ang_pos: Angle, sc_ang_vel: AngVel) -> (sg: i128)
    requires
        angular_ranges(*conf, 2, ctr_ang_pos as int, sc_mass.raw as int,
            ctr_thrust.raw as int, sc_ang_pos.raw as int, sc_ang_vel.raw as int, 0),
        1 <= gimbal_den_spec(*conf, ctr_thrust.raw as int),
    ensures
        sg == sin_gimbal_spec(*conf, kp_raw_spec(*conf), kd_raw_spec(*conf),
            sc_mass.raw as int, ctr_thrust.raw as int,
            wrap_pi_spec(ctr_ang_pos - sc_ang_pos.raw), sc_ang_vel.raw as int),
        iabs(sg as int) <= 40_000_000_000_000_000_000_000_000_000_000i128,
{
    let kp: i64 = match conf.ctr_eng_gimbal_kp {
        Some(kp) => kp.raw,
        None => 0,
    };
    let kd: i64 = match conf.ctr_eng_gimbal_kd {
        Some(kd) => kd.raw,
        None => 0,
    };
    let err: i64 = wrap_pi(ctr_ang_pos - sc_ang_pos.raw);
    proof {
        assert(iabs((kp as int) * (err as int)) <= 35_000_000_000_000_000_000_000int)
            by (nonlinear_arith)
            requires
                iabs(kp as int) <= 10_000_000_000_000i64,
                iabs(err as int) <= 3_500_000_000i64,
        ;
        lemma_tdiv_bound(kp * err, NANO as int, 35_000_000_000_000_000_000_000int);
        assert(iabs((kd as int) * (sc_ang_vel.raw as int))
            <= 110_000_000_000_000_000_000int) by (nonlinear_arith)
            requires
                iabs(kd as int) <= 1_000_000_000i64,
                iabs(sc_ang_vel.raw as int) <= 110_000_000_000i64,
        ;
        lemma_tdiv_bound(kd * sc_ang_vel.raw, MICRO as int, 110_000_000_000_000_000_000int);
    }
    let u: i64 = div_trunc(wide_mul(kp, err), NANO as i128) as i64
        + div_trunc(wide_mul(kd, sc_ang_vel.raw), MICRO as i128) as i64;
    assert(iabs(u as int) <= 145_000_000_000_000i64);
    proof {
        lemma_tdiv_nonneg(conf.sc_width.raw as int, 2);
    }
    let w2: i64 = div_trunc(conf.sc_width.raw as i128, 2) as i64;
    proof {
        assert(0 <= (w2 as int) * (w2 as int) <= 2_500_000_000_000_000int)
            by (nonlinear_arith)
            requires
                0 <= w2 <= 50_000_000i64,
        ;
        lemma_tdiv_nonneg((w2 as int) * (w2 as int), MICRO as int);
        lemma_tdiv_bound((w2 as int) * (w2 as int), MICRO as int, 2_500_000_000_000_000int);
    }
    let ww: i64 = muldiv(w2, w2, MICRO as i128);
    assert(0 <= ww <= 2_500_000_000i64);
    proof {
        assert(0 <= (sc_mass.raw as int) * (ww as int)
            <= 500_000_000_000_000_000_000_000int) by (nonlinear_arith)
            requires
                0 <= sc_mass.raw <= 200_000_000_000i64,
                0 <= ww <= 2_500_000_000i64,
        ;
        lemma_tdiv_nonneg((sc_mass.raw as int) * (ww as int), 2 * MICRO);
        lemma_tdiv_bound((sc_mass.raw as int) * (ww as int), 2 * MICRO,
            500_000_000_000_000_000_000_000int);
    }
    let moi: i64 = div_trunc(wide_mul(sc_mass.raw, ww), 2 * (MICRO as i128)) as i64;
    assert(0 <= moi <= 250_000_000_000_000_000i64);
    proof {
        assert(iabs((moi as int) * (u as int))
            <= 36_250_000_000_000_000_000_000_000_000_000int) by (nonlinear_arith)
            requires
                0 <= moi <= 250_000_000_000_000_000i64,
                iabs(u as int) <= 145_000_000_000_000i64,
        ;
        lemma_tdiv_bound((moi as int) * (u as int), NANO as int,
            36_250_000_000_000_000_000_000_000_000_000int);
    }
    let torque: i128 = div_trunc(wide_mul(moi, u), NANO as i128);
    assert(iabs(torque as int) <= 36_250_000_000_000_000_000_000i128);
    proof {
        lemma_tdiv_nonneg(conf.sc_height.raw as int, 2);
    }
    let h2: i64 = div_trunc(conf.sc_height.raw as i128, 2) as i64;
    proof {
        assert(0 <= (h2 as int) * (ctr_thrust.raw as int) <= 50_000_000_000_000_000_000int)
            by (nonlinear_arith)
            requires
                0 <= h2 <= 50_000_000i64,
                0 <= ctr_thrust.raw <= 1_000_000_000_000i64,
        ;
        lemma_tdiv_nonneg((h2 as int) * (ctr_thrust.raw as int), MICRO as int);
        lemma_tdiv_bound((h2 as int) * (ctr_thrust.raw as int), MICRO as int,
            50_000_000_000_000_000_000int);
    }
    let den: i64 = div_trunc(wide_mul(h2, ctr_thrust.raw), MICRO as i128) as i64;
    assert(1 <= den);
    let num: i128 = mul_wide(torque, NANO as i128);
    proof {
        assert(iabs((torque as int) * (NANO as int))
            <= 36_250_000_000_000_000_000_000_000_000_000int) by (nonlinear_arith)
            requires
                iabs(torque as int) <= 36_250_000_000_000_000_000_000i128,
        ;
        lemma_tdiv_abs_le((torque as int) * (NANO as int), den as int,
            36_250_000_000_000_000_000_000_000_000_000int, 1);
    }
    div_trunc(num, den as i128)
}

/// One gimbal command of the cascade.  The arcsine domain check of the
/// assertion that guards it is a precondition here: the gimbal sine must not exceed
/// one in magnitude.
pub fn control_angular(conf: &Scenario, dt: Time, ctr_ang_pos: Angle, sc_mass: Mass,
    ctr_thrust: Force, sc_ang_pos: Angle, sc_ang_vel: AngVel, eng_gimbal_cur: Angle)
    -> (r: Angle)
    requires
        angular_ranges(*conf, dt.raw as int, ctr_ang_pos.raw as int, sc_mass.raw as int,
            ctr_thrust.raw as int, sc_ang_pos.raw as int, sc_ang_vel.raw as int,
            eng_gimbal_cur.raw as int),
        1 <= gimbal_den_spec(*conf, ctr_thrust.raw as int),
        iabs(sin_gimbal_spec(*conf, kp_raw_spec(*conf), kd_raw_spec(*conf),
            sc_mass.raw as int, ctr_thrust.raw as int,
            wrap_pi_spec(ctr_ang_pos.raw - sc_ang_pos.raw), sc_ang_vel.raw as int)) <= NANO,
    ensures
        r.raw == control_angular_spec(*conf, dt.raw as int, ctr_ang_pos.raw as int,
            sc_mass.raw as int, ctr_thrust.raw as int, sc_ang_pos.raw as int,
            sc_ang_vel.raw as int, eng_gimbal_cur.raw as int),
        iabs(r.raw as int) <= conf.ctr_eng_gimbal_pos_max.raw,
        iabs(r.raw - eng_gimbal_cur.raw) <= tdiv(conf.ctr_eng_gimbal_vel_max.raw * dt.raw,
            MICRO as int),
{
    let sg128: i128 = angular_sin_ratio(conf, ctr_ang_pos.raw, sc_mass, ctr_thrust,
        sc_ang_pos, sc_ang_vel);
    let sg: i64 = sg128 as i64;
    let g0: i64 = asin_nano(sg);
    proof {
        lemma_tdiv_scale_right(conf.ctr_eng_gimbal_vel_max.raw as int, dt.raw as int,
            MICRO as int);
        vstd::arithmetic::mul::lemma_mul_nonnegative(conf.ctr_eng_gimbal_vel_max.raw as int,
            dt.raw as int);
        lemma_tdiv_nonneg(conf.ctr_eng_gimbal_vel_max.raw * dt.raw, MICRO as int);
    }
    let rate_step: i64 = muldiv(conf.ctr_eng_gimbal_vel_max.raw, dt.raw, MICRO as i128);
    let dg: i64 = g0 - eng_gimbal_cur.raw;
    let adg: i64 = if dg < 0 { -dg } else { dg };
    let g1: i64 = if adg > rate_step {
        if g0 > eng_gimbal_cur.raw {
            eng_gimbal_cur.raw + rate_step
        } else {
            eng_gimbal_cur.raw - rate_step
        }
    } else {
        g0
    };
    let g2: i64 = saturate(g1, -conf.ctr_eng_gimbal_pos_max.raw, conf.ctr_eng_gimbal_pos_max.raw);
    Angle { raw: g2 }
}

/// Below saturation and with the derivative gain at zero, the
/// proportional stage of the angular cascade is linear in the attitude
/// error: scaling the error by a whole factor scales the commanded
/// angle by the same factor, up to less than one rounding unit (one
/// nanoradian) per multiple.
pub proof fn lemma_pd_linear(kp: int, e: int, k: int)
    requires
        1 <= k,
    ensures
        iabs(tdiv(kp * (k * e), NANO as int) - k * tdiv(kp * e, NANO as int)) <= k,
{
    assert(kp * (k * e) == k * (kp * e)) by (nonlinear_arith);
    crate::fixed::lemma_tdiv_linear(kp * e, NANO as int, k);
}


/// Below saturation and with the derivative gain at zero, the gimbal
/// sine commanded by the angular cascade is linear in the attitude
/// error up to an explicit rounding allowance: scaling the error by a
/// whole factor `k` scales the commanded sine by `k`, within
/// `k + 2 + ((k + moi k + 2) / den)`-flavoured nano-units, where `moi`
/// is the moment of inertia and `den` the lever-arm thrust product.
/// Each truncating division of the cascade contributes at most one
/// unit per multiple, nothing more.  The returned gimbal angle is the
/// arcsine of this value: for small commands the two agree to within
/// the arcsine's own cubic curvature, which is the allowance the
/// linearity property itself grants; the returned-angle instances are
/// exercised by the engine calibration test.
pub proof fn lemma_gimbal_sine_linearity(conf: Scenario, kp: int, m: int, fc: int, e: int,
    k: int)
    requires
        conf.wf(),
        0 <= m,
        0 <= fc,
        1 <= k,
        1 <= gimbal_den_spec(conf, fc),
    ensures
        ({
            let w2 = tdiv(conf.sc_width.raw as int, 2);
            let moi = tdiv(m * tdiv(w2 * w2, MICRO as int), 2 * MICRO);
            let den = gimbal_den_spec(conf, fc);
            iabs(sin_gimbal_spec(conf, kp, 0, m, fc, k * e, 0) - k * sin_gimbal_spec(conf,
                kp, 0, m, fc, e, 0)) <= k + 2 + tdiv((k + tdiv(moi * k, NANO as int) + 2)
                * NANO, den)
        }),
{
    let w2 = tdiv(conf.sc_width.raw as int, 2);
    let ww = tdiv(w2 * w2, MICRO as int);
    let moi = tdiv(m * ww, 2 * MICRO);
    let h2 = tdiv(conf.sc_height.raw as int, 2);
    let den = gimbal_den_spec(conf, fc);

    // the derivative term vanishes
    vstd::arithmetic::div_mod::lemma_div_of0(MICRO as int);
    assert(tdiv(0int * 0, MICRO as int) == 0);

    // basic signs and the divisor floor
    lemma_tdiv_nonneg(conf.sc_width.raw as int, 2);
    assert(0 <= w2 * w2) by (nonlinear_arith);
    lemma_tdiv_nonneg(w2 * w2, MICRO as int);
    vstd::arithmetic::mul::lemma_mul_nonnegative(m, ww);
    lemma_tdiv_nonneg(m * ww, 2 * MICRO);
    lemma_tdiv_nonneg(conf.sc_height.raw as int, 2);
    assert(1 <= den);

    // the proportional stage
    let u_e = tdiv(kp * e, NANO as int);
    let u_k = tdiv(kp * (k * e), NANO as int);
    assert(kp * (k * e) == k * (kp * e)) by (nonlinear_arith);
    crate::fixed::lemma_tdiv_linear(kp * e, NANO as int, k);
    let d1 = u_k - k * u_e;
    assert(iabs(d1) <= k);

    // the inertia stage
    let t_e = tdiv(moi * u_e, NANO as int);
    let t_k = tdiv(moi * u_k, NANO as int);
    assert(moi * u_k == k * (moi * u_e) + moi * d1) by (nonlinear_arith)
        requires
            u_k == k * u_e + d1,
    ;
    crate::fixed::lemma_tdiv_shift(k * (moi * u_e), moi * d1, NANO as int);
    assert(iabs(moi * d1) <= moi * k) by (nonlinear_arith)
        requires
            iabs(d1) <= k,
            0 <= moi,
    ;
    vstd::arithmetic::mul::lemma_mul_nonnegative(moi, k);
    lemma_tdiv_le(iabs(moi * d1), moi * k, NANO as int);
    crate::fixed::lemma_tdiv_linear(moi * u_e, NANO as int, k);
    let d2 = t_k - k * t_e;
    assert(iabs(d2) <= k + tdiv(moi * k, NANO as int) + 2);

    // the lever-arm stage
    let s_e = tdiv(t_e * NANO, den);
    let s_k = tdiv(t_k * NANO, den);
    assert(t_k * NANO == k * (t_e * NANO) + d2 * NANO) by (nonlinear_arith)
        requires
            t_k == k * t_e + d2,
    ;
    crate::fixed::lemma_tdiv_shift(k * (t_e * NANO), d2 * NANO, den);
    assert(iabs(d2 * NANO) <= (k + tdiv(moi * k, NANO as int) + 2) * NANO)
        by (nonlinear_arith)
        requires
            iabs(d2) <= k + tdiv(moi * k, NANO as int) + 2,
    ;
    assert(0 <= (k + tdiv(moi * k, NANO as int) + 2) * NANO) by (nonlinear_arith)
        requires
            0 <= k + tdiv(moi * k, NANO as int) + 2,
    ;
    lemma_tdiv_le(iabs(d2 * NANO), (k + tdiv(moi * k, NANO as int) + 2) * NANO, den as int);
    crate::fixed::lemma_tdiv_linear(t_e * NANO, den, k);
    assert(iabs(s_k - k * s_e) <= k + 2 + tdiv((k + tdiv(moi * k, NANO as int) + 2) * NANO,
        den));
    assert(s_e == sin_gimbal_spec(conf, kp, 0, m, fc, e, 0));
    assert(s_k == sin_gimbal_spec(conf, kp, 0, m, fc, k * e, 0));
}

/// The attitude and thrust the control stage aims for, before the
/// angular cascade: the translation controller's output, with the
/// ascent-to-orbit constant-pitch override during the first fifty
/// seconds after ignition.
pub open spec fn ctr_attitude_spec(conf: Scenario, cur: SpacecraftDynamic) -> (int, int) {
    let m = conf.sc_dry_mass.raw + cur.fuel_mass.raw;
    let f = conf.sc_nominal_thrust.raw as int;
    let base = control_translation_spec(cur.gui.x.raw as int, cur.gui.y.raw as int, m, f);
    match conf.ctr_spacecraft {
        CtrSpacecraft::CtrSpacecraftDescent => base,
        CtrSpacecraft::CtrSpacecraftAscentToHover => base,
        CtrSpacecraft::CtrSpacecraftAscentToOrbit => {
            if cur.t.raw > ASCENT_PITCH_OVER_US {
                (f, base.1)
            } else {
                let na = tdiv(cur.t.raw * (PI_HALF_NANO - base.1), ASCENT_PITCH_OVER_US as int);
                (f, PI_HALF_NANO - na)
            }
        },
    }
}

/// The ranges under which the control stage runs, drawn from the state
/// in the middle of a pipeline step.
pub open spec fn ctr_state_ranges(conf: Scenario, cur: SpacecraftDynamic) -> bool {
    &&& conf.wf()
    &&& conf.ctr_eng_gimbal_kp.is_some()
    &&& conf.ctr_eng_gimbal_kd.is_some()
    &&& 0 <= cur.t.raw <= 902_000_000
    &&& 2 <= cur.dt.raw <= MICRO
    &&& 0 <= cur.fuel_mass.raw <= 100_000_000_000i64
    &&& iabs(cur.gui.x.raw as int) <= 30_000_000_000_000_000i64
    &&& iabs(cur.gui.y.raw as int) <= 30_000_000_000_000_000i64
    &&& iabs(cur.ang_pos.raw as int) <= 3_143_400_000i64
    &&& iabs(cur.ang_vel.raw as int) <= 110_000_000_000i64
    &&& iabs(cur.eng_gimbal.raw as int) <= NANO
}

/// Both saturation domains of the control stage: the arcsine of the
/// thrust-saturated translation branch, and the arcsine of the angular
/// cascade.  Where either fails, the run cannot continue meaningfully
/// or a meaningless number; the verified pipeline refuses the step.
pub open spec fn ctr_ok(conf: Scenario, cur: SpacecraftDynamic) -> bool {
    let m = conf.sc_dry_mass.raw + cur.fuel_mass.raw;
    let f = conf.sc_nominal_thrust.raw as int;
    let fc = ctr_attitude_spec(conf, cur).0;
    &&& (cur.gui.y.raw >= 0 && wanted_thrust_spec(cur.gui.x.raw as int, cur.gui.y.raw as int,
        m) >= f ==> iabs(sat_attitude_sin_spec(cur.gui.y.raw as int, m, f)) <= NANO)
    &&& 1 <= gimbal_den_spec(conf, fc)
    &&& iabs(sin_gimbal_spec(conf, kp_raw_spec(conf), kd_raw_spec(conf), m, fc,
        wrap_pi_spec(ctr_attitude_spec(conf, cur).1 - cur.ang_pos.raw),
        cur.ang_vel.raw as int)) <= NANO
}

/// What the control stage writes: the throttle as a fraction of the
/// nominal thrust and the gimbal as a fraction of the position limit.
pub open spec fn ctr_cmd_spec(conf: Scenario, cur: SpacecraftDynamic) -> (int, int) {
    let m = conf.sc_dry_mass.raw + cur.fuel_mass.raw;
    let (thrust, attitude) = ctr_attitude_spec(conf, cur);
    let gimbal_cur = tdiv(cur.eng_gimbal.raw * conf.ctr_eng_gimbal_pos_max.raw, NANO as int);
    let gimbal = control_angular_spec(conf, cur.dt.raw as int, attitude, m, thrust,
        cur.ang_pos.raw as int, cur.ang_vel.raw as int, gimbal_cur);
    (
        tdiv(thrust * NANO, conf.sc_nominal_thrust.raw as int),
        tdiv(gimbal * NANO, conf.ctr_eng_gimbal_pos_max.raw as int),
    )
}

/// The main control function: run the translation stage (with the
/// ascent override where configured), cascade into the angular stage,
/// and write the normalised actuator commands back into the state.
pub fn ctr(spacecraft: &mut Spacecraft) -> (r: ActuatorsValues)
    requires
        ctr_state_ranges(old(spacecraft).conf.s, old(spacecraft).cur),
        ctr_ok(old(spacecraft).conf.s, old(spacecraft).cur),
    ensures
        final(spacecraft).conf == old(spacecraft).conf,
        final(spacecraft).all == old(spacecraft).all,
        final(spacecraft).cur == (SpacecraftDynamic {
            eng_throttle: final(spacecraft).cur.eng_throttle,
            eng_gimbal: final(spacecraft).cur.eng_gimbal,
            ..old(spacecraft).cur
        }),
        (final(spacecraft).cur.eng_throttle.raw as int, final(spacecraft).cur.eng_gimbal.raw
            as int) == ctr_cmd_spec(old(spacecraft).conf.s, old(spacecraft).cur),
        r == (ActuatorsValues {
            engine_throttle: final(spacecraft).cur.eng_throttle,
            engine_gimbal: final(spacecraft).cur.eng_gimbal,
        }),
        0 <= r.engine_throttle.raw <= NANO,
        iabs(r.engine_gimbal.raw as int) <= NANO,
{
    let conf = spacecraft.conf.s;
    let cur = spacecraft.cur;
    let sc_mass: i64 = conf.sc_dry_mass.raw + cur.fuel_mass.raw;
    let sc_thrust: i64 = conf.sc_nominal_thrust.raw;
    proof {
        lemma_tdiv_scale_left(cur.eng_gimbal.raw as int,
            conf.ctr_eng_gimbal_pos_max.raw as int, NANO as int);
    }
    let eng_gimbal_cur: i64 = muldiv(cur.eng_gimbal.raw, conf.ctr_eng_gimbal_pos_max.raw,
        NANO as i128);

    let base: (Force, Angle) = control_translation(cur.gui, Mass { raw: sc_mass },
        Force { raw: sc_thrust });
    let (ctr_sc_thrust, ctr_ang_pos): (i64, i64) = match conf.ctr_spacecraft {
        CtrSpacecraft::CtrSpacecraftDescent => (base.0.raw, base.1.raw),
        CtrSpacecraft::CtrSpacecraftAscentToHover => (base.0.raw, base.1.raw),
        CtrSpacecraft::CtrSpacecraftAscentToOrbit => {
            if cur.t.raw > ASCENT_PITCH_OVER_US {
                (sc_thrust, base.1.raw)
            } else {
                proof {
                    lemma_tdiv_scale_left(cur.t.raw as int,
                        PI_HALF_NANO - base.1.raw, ASCENT_PITCH_OVER_US as int);
                }
                let na: i64 = muldiv(cur.t.raw, PI_HALF_NANO - base.1.raw,
                    ASCENT_PITCH_OVER_US as i128);
                (sc_thrust, PI_HALF_NANO - na)
            }
        },
    };

    let gimbal: Angle = control_angular(&conf, cur.dt, Angle { raw: ctr_ang_pos },
        Mass { raw: sc_mass }, Force { raw: ctr_sc_thrust }, cur.ang_pos, cur.ang_vel,
        Angle { raw: eng_gimbal_cur });

    proof {
        lemma_tdiv_scale_left(ctr_sc_thrust as int, NANO as int, sc_thrust as int);
        vstd::arithmetic::mul::lemma_mul_nonnegative(ctr_sc_thrust as int, NANO as int);
        lemma_tdiv_nonneg(ctr_sc_thrust * NANO, sc_thrust as int);
        lemma_tdiv_scale_left(gimbal.raw as int, NANO as int,
            conf.ctr_eng_gimbal_pos_max.raw as int);
    }
    let throttle: i64 = muldiv(ctr_sc_thrust, NANO, sc_thrust as i128);
    let gimbal_ratio: i64 = muldiv(gimbal.raw, NANO, conf.ctr_eng_gimbal_pos_max.raw as i128);

    spacecraft.cur.eng_throttle = Ratio { raw: throttle };
    spacecraft.cur.eng_gimbal = Ratio { raw: gimbal_ratio };
    ActuatorsValues {
        engine_throttle: Ratio { raw: throttle },
        engine_gimbal: Ratio { raw: gimbal_ratio },
    }
}

} // verus!
