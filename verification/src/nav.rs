//! Navigation: integrate the sensor sample into the state estimate,
//! book fuel and cumulative impulse, and model the acceleration
//! components for the log.

use vstd::prelude::*;
use crate::fixed::{tdiv, iabs, sat, sqrt_floor, muldiv, div_trunc, wide_mul, isqrt, sat_i128};
use crate::fixed::{lemma_tdiv_bound, lemma_tdiv_nonneg, lemma_tdiv_den_mono, lemma_tdiv_scale_left, lemma_tdiv_scale_right};
use crate::conf::Scenario;
use crate::spacecraft::Spacecraft;
use crate::state::{SensorsValues, SpacecraftDynamic};
use crate::trig::{wrap_pi, wrap_pi_spec, PI_NANO};
use crate::units::{Time, Mass, Length, Velocity, Acceleration, Angle, AngVel, Vec2, MICRO, NANO};

verus! {

/// Fuel burnt over one step: mass flow times throttle times step length.
pub open spec fn burn_spec(conf: Scenario, cur: SpacecraftDynamic, dt: int) -> int {
    tdiv(tdiv(conf.sc_nominal_mass_flow.raw * cur.eng_throttle.raw, NANO as int) * dt,
        MICRO as int)
}

/// The drag force modelled by navigation: dynamic pressure times the
/// frontal disc area times the drag coefficient, capped at a gigantic
/// machine ceiling.
pub open spec fn drag_force_spec(conf: Scenario, cur: SpacecraftDynamic) -> int {
    let vn = sqrt_floor(
        cur.vel.x.raw * cur.vel.x.raw + cur.vel.y.raw * cur.vel.y.raw,
    );
    let rho = conf.body.atmosphere_density_spec(cur.pos.y.raw as int);
    let s1 = tdiv(rho * vn, MICRO as int);
    let q = tdiv(s1 * vn, 2 * MICRO);
    let w2 = tdiv(conf.sc_width.raw as int, 2);
    let aw = tdiv(w2 * w2, MICRO as int);
    let area = tdiv(PI_NANO * aw, NANO as int);
    let f1 = sat(tdiv(q * area, MICRO as int), 0, 1_000_000_000_000_000);
    tdiv(f1 * conf.sc_cd.raw, NANO as int)
}


/// The drag force as executable code, shared by navigation and the
/// plant.
pub fn drag_force(conf: &Scenario, cur: &SpacecraftDynamic) -> (r: i64)
    requires
        conf.wf(),
        iabs(cur.vel.x.raw as int) <= 21_000_000_000i64,
        iabs(cur.vel.y.raw as int) <= 21_000_000_000i64,
        -40_000_000_000i64 <= cur.pos.y.raw <= 10_000_000_000_000i64,
    ensures
        r == drag_force_spec(*conf, *cur),
        0 <= r <= 10_000_000_000_000_000i64,
{
    let v2: i128 = wide_mul(cur.vel.x.raw, cur.vel.x.raw);
    let v2y: i128 = wide_mul(cur.vel.y.raw, cur.vel.y.raw);
    proof {
        let vx = cur.vel.x.raw as int;
        let vy = cur.vel.y.raw as int;
        assert(0 <= vx * vx + vy * vy <= 882_000_000_000_000_000_000int
            && vx * vx + vy * vy < 29_698_484_810 * 29_698_484_810int) by (nonlinear_arith)
            requires
                iabs(vx) <= 21_000_000_000i64,
                iabs(vy) <= 21_000_000_000i64,
        ;
    }
    let vn64: u64 = isqrt((v2 + v2y) as u128);
    proof {
        assert(vn64 as int * (vn64 as int) <= 882_000_000_000_000_000_000int);
        assert(vn64 <= 29_698_484_810) by (nonlinear_arith)
            requires
                vn64 as int * (vn64 as int) < 29_698_484_810 * 29_698_484_810int,
        ;
        crate::fixed::lemma_sqrt_floor_unique(
            (cur.vel.x.raw * cur.vel.x.raw + cur.vel.y.raw * cur.vel.y.raw) as int,
            vn64 as int,
        );
    }
    let vn: i64 = vn64 as i64;
    let rho: i64 = conf.body.atmosphere_density(cur.pos.y).raw;
    proof {
        vstd::arithmetic::mul::lemma_mul_nonnegative(rho as int, vn as int);
        lemma_tdiv_nonneg(rho * vn, MICRO as int);
        assert(iabs(rho * (vn as int)) <= 10_000_000 * 29_698_484_810int) by (nonlinear_arith)
            requires
                0 <= rho <= 10_000_000,
                0 <= vn <= 29_698_484_810i64,
        ;
        lemma_tdiv_bound(rho * vn, MICRO as int, 10_000_000 * 29_698_484_810int);
    }
    let s1: i64 = muldiv(rho, vn, MICRO as i128);
    assert(0 <= s1 <= 296_984_848_100i64);
    proof {
        vstd::arithmetic::mul::lemma_mul_nonnegative(s1 as int, vn as int);
        lemma_tdiv_nonneg(s1 * vn, 2 * MICRO);
        assert(iabs(s1 * (vn as int)) <= 296_984_848_100i64 * 29_698_484_810int)
            by (nonlinear_arith)
            requires
                0 <= s1 <= 296_984_848_100i64,
                0 <= vn <= 29_698_484_810i64,
        ;
        lemma_tdiv_bound(s1 * vn, 2 * MICRO, 296_984_848_100i64 * 29_698_484_810int);
    }
    let q: i64 = muldiv(s1, vn, 2 * (MICRO as i128));
    proof {
        lemma_tdiv_nonneg(conf.sc_width.raw as int, 2);
    }
    let w2: i64 = div_trunc(conf.sc_width.raw as i128, 2) as i64;
    proof {
        assert(0 <= (w2 as int) * (w2 as int) <= 2_500_000_000_000_000int)
            by (nonlinear_arith)
            requires
                0 <= w2 <= 50_000_000i64,
        ;
        lemma_tdiv_nonneg((w2 as int) * (w2 as int), MICRO as int);
        lemma_tdiv_bound((w2 as int) * (w2 as int), MICRO as int, 2_500_000_000_000_000int);
    }
    let aw: i64 = muldiv(w2, w2, MICRO as i128);
    assert(0 <= aw <= 2_500_000_000i64);
    proof {
        vstd::arithmetic::mul::lemma_mul_nonnegative(PI_NANO as int, aw as int);
        lemma_tdiv_nonneg(PI_NANO * (aw as int), NANO as int);
        assert(PI_NANO * (aw as int) <= 7_853_981_632_500_000_000int) by (nonlinear_arith)
            requires
                0 <= aw <= 2_500_000_000i64,
        ;
        lemma_tdiv_bound(PI_NANO * (aw as int), NANO as int, 7_853_981_632_500_000_000int);
    }
    let area: i64 = muldiv(PI_NANO, aw, NANO as i128);
    let qa: i128 = wide_mul(q, area);
    let f1: i64 = sat_i128(div_trunc(qa, MICRO as i128), 0, 1_000_000_000_000_000);
    proof {
        lemma_tdiv_nonneg((q as int) * (area as int), MICRO as int);
        assert(iabs((f1 as int) * (conf.sc_cd.raw as int))
            <= 1_000_000_000_000_000i64 * 10_000_000_000int) by (nonlinear_arith)
            requires
                0 <= f1 <= 1_000_000_000_000_000i64,
                0 <= conf.sc_cd.raw <= 10_000_000_000i64,
        ;
        vstd::arithmetic::mul::lemma_mul_nonnegative(f1 as int, conf.sc_cd.raw as int);
        lemma_tdiv_bound(f1 * conf.sc_cd.raw, NANO as int,
            1_000_000_000_000_000i64 * 10_000_000_000int);
    }
    muldiv(f1, conf.sc_cd.raw, NANO as i128)
}

/// The full navigation step on the changing state.
pub open spec fn nav_spec(conf: Scenario, cur: SpacecraftDynamic, s: SensorsValues)
    -> SpacecraftDynamic {
    let dt = s.dt_step.raw as int;
    let mass = conf.sc_dry_mass.raw + cur.fuel_mass.raw;
    let a1 = tdiv(cur.eng_throttle.raw * conf.sc_nominal_thrust.raw, NANO as int);
    let acc_thrust = tdiv(a1 * MICRO, mass);
    let dpn = drag_force_spec(conf, cur);
    let acc_atm = -sat(tdiv(dpn * MICRO, mass), 0, 10_000_000_000_000);
    let g = conf.body.gravity_spec(cur.pos.y.raw as int);
    let c = conf.body.centrifugal_spec(cur.vel.x.raw as int, cur.pos.y.raw as int);
    let vel_x = cur.vel.x.raw + tdiv(s.spacecraft_acc.x.raw * dt, MICRO as int);
    let vel_y = cur.vel.y.raw + tdiv(s.spacecraft_acc.y.raw * dt, MICRO as int);
    let pos_x = cur.pos.x.raw + tdiv(vel_x * dt, MICRO as int);
    let pos_y = cur.pos.y.raw + tdiv(vel_y * dt, MICRO as int);
    let ang_vel = cur.ang_vel.raw + tdiv(s.spacecraft_ang_acc.raw * dt, MICRO as int);
    let ang_pos = wrap_pi_spec(cur.ang_pos.raw + tdiv(ang_vel * dt, MICRO as int));
    SpacecraftDynamic {
        t: Time { raw: (cur.t.raw + dt) as i64 },
        dt: s.dt_step,
        fuel_mass: Mass { raw: (cur.fuel_mass.raw - burn_spec(conf, cur, dt)) as i64 },
        acc_thrust: Acceleration { raw: acc_thrust as i64 },
        acc_atm: Acceleration { raw: acc_atm as i64 },
        acc_gravity: Acceleration { raw: -g as i64 },
        acc_centrifugal: Acceleration { raw: c as i64 },
        pos: Vec2 { x: Length { raw: pos_x as i64 }, y: Length { raw: pos_y as i64 } },
        vel: Vec2 { x: Velocity { raw: vel_x as i64 }, y: Velocity { raw: vel_y as i64 } },
        acc: s.spacecraft_acc,
        dv: Velocity { raw: (cur.dv.raw + tdiv(acc_thrust * dt, MICRO as int)) as i64 },
        ang_pos: Angle { raw: ang_pos as i64 },
        ang_vel: AngVel { raw: ang_vel as i64 },
        ang_acc: s.spacecraft_ang_acc,
        gui: cur.gui,
        eng_throttle: cur.eng_throttle,
        eng_gimbal: cur.eng_gimbal,
    }
}

/// Integrate one sensor sample.  Fuel mass never increases and never
/// goes negative: the step requires enough propellant for the booked
/// burn, exactly where the original run would fail its state check.
pub fn nav(spacecraft: &mut Spacecraft, sensors_vals: &SensorsValues)
    requires
        old(spacecraft).conf.s.wf(),
        old(spacecraft).cur.ok(),
        sensors_vals.wf(),
        burn_spec(old(spacecraft).conf.s, old(spacecraft).cur, sensors_vals.dt_step.raw as int)
            <= old(spacecraft).cur.fuel_mass.raw,
    ensures
        final(spacecraft).conf == old(spacecraft).conf,
        final(spacecraft).cur == nav_spec(old(spacecraft).conf.s, old(spacecraft).cur,
            *sensors_vals),
        final(spacecraft).all@ =~= old(spacecraft).all@.push(final(spacecraft).cur),
        final(spacecraft).cur.fuel_mass.raw <= old(spacecraft).cur.fuel_mass.raw,
        final(spacecraft).cur.fuel_mass.raw >= 0,
        final(spacecraft).cur.mid(),
{
    let conf = spacecraft.conf.s;
    let cur = spacecraft.cur;
    let dt: i64 = sensors_vals.dt_step.raw;
    let mass: i64 = conf.sc_dry_mass.raw + cur.fuel_mass.raw;

    proof {
        lemma_tdiv_scale_right(conf.sc_nominal_mass_flow.raw as int,
            cur.eng_throttle.raw as int, NANO as int);
    }
    let b1: i64 = muldiv(conf.sc_nominal_mass_flow.raw, cur.eng_throttle.raw, NANO as i128);
    proof {
        lemma_tdiv_scale_right(b1 as int, dt as int, MICRO as int);
        vstd::arithmetic::mul::lemma_mul_nonnegative(b1 as int, dt as int);
        lemma_tdiv_nonneg(b1 * dt, MICRO as int);
    }
    let burn: i64 = muldiv(b1, dt, MICRO as i128);
    let fuel2: i64 = cur.fuel_mass.raw - burn;

    proof {
        lemma_tdiv_scale_left(cur.eng_throttle.raw as int,
            conf.sc_nominal_thrust.raw as int, NANO as int);
        vstd::arithmetic::mul::lemma_mul_nonnegative(cur.eng_throttle.raw as int,
            conf.sc_nominal_thrust.raw as int);
        lemma_tdiv_nonneg(cur.eng_throttle.raw * conf.sc_nominal_thrust.raw, NANO as int);
    }
    let a1: i64 = muldiv(cur.eng_throttle.raw, conf.sc_nominal_thrust.raw, NANO as i128);
    proof {
        vstd::arithmetic::mul::lemma_mul_nonnegative(a1 as int, MICRO as int);
        lemma_tdiv_nonneg(a1 * MICRO, mass as int);
        lemma_tdiv_den_mono(a1 * MICRO, MICRO as int, mass as int);
        lemma_tdiv_scale_right(a1 as int, MICRO as int, MICRO as int);
    }
    let acc_thrust: i64 = muldiv(a1, MICRO, mass as i128);
    assert(0 <= acc_thrust <= 1_000_000_000_000i64);

    // dynamic pressure, drag force, drag deceleration
    let dpn: i64 = drag_force(&conf, &cur);
    let da: i128 = wide_mul(dpn, MICRO);
    proof {
        lemma_tdiv_nonneg((dpn as int) * (MICRO as int), mass as int);
    }
    let acc_atm: i64 = -sat_i128(div_trunc(da, mass as i128), 0, 10_000_000_000_000);

    let g: i64 = conf.body.gravity(cur.pos.y).raw;
    let c: i64 = conf.body.centrifugal(cur.vel.x, cur.pos.y).raw;

    // integrate translation
    proof {
        lemma_tdiv_scale_right(sensors_vals.spacecraft_acc.x.raw as int, dt as int,
            MICRO as int);
        lemma_tdiv_scale_right(sensors_vals.spacecraft_acc.y.raw as int, dt as int,
            MICRO as int);
    }
    let vel_x: i64 = cur.vel.x.raw + muldiv(sensors_vals.spacecraft_acc.x.raw, dt,
        MICRO as i128);
    let vel_y: i64 = cur.vel.y.raw + muldiv(sensors_vals.spacecraft_acc.y.raw, dt,
        MICRO as i128);
    proof {
        lemma_tdiv_scale_right(vel_x as int, dt as int, MICRO as int);
        lemma_tdiv_scale_right(vel_y as int, dt as int, MICRO as int);
    }
    let pos_x: i64 = cur.pos.x.raw + muldiv(vel_x, dt, MICRO as i128);
    let pos_y: i64 = cur.pos.y.raw + muldiv(vel_y, dt, MICRO as i128);

    proof {
        lemma_tdiv_scale_right(acc_thrust as int, dt as int, MICRO as int);
        vstd::arithmetic::mul::lemma_mul_nonnegative(acc_thrust as int, dt as int);
        lemma_tdiv_nonneg(acc_thrust * dt, MICRO as int);
    }
    let dv2: i64 = cur.dv.raw + muldiv(acc_thrust, dt, MICRO as i128);

    // integrate attitude
    proof {
        lemma_tdiv_scale_right(sensors_vals.spacecraft_ang_acc.raw as int, dt as int,
            MICRO as int);
    }
    let ang_vel: i64 = cur.ang_vel.raw + muldiv(sensors_vals.spacecraft_ang_acc.raw, dt,
        MICRO as i128);
    proof {
        lemma_tdiv_scale_right(ang_vel as int, dt as int, MICRO as int);
    }
    let ang_pos: i64 = wrap_pi(cur.ang_pos.raw + muldiv(ang_vel, dt, MICRO as i128));

    spacecraft.cur = SpacecraftDynamic {
        t: Time { raw: cur.t.raw + dt },
        dt: sensors_vals.dt_step,
        fuel_mass: Mass { raw: fuel2 },
        acc_thrust: Acceleration { raw: acc_thrust },
        acc_atm: Acceleration { raw: acc_atm },
        acc_gravity: Acceleration { raw: -g },
        acc_centrifugal: Acceleration { raw: c },
        pos: Vec2 { x: Length { raw: pos_x }, y: Length { raw: pos_y } },
        vel: Vec2 { x: Velocity { raw: vel_x }, y: Velocity { raw: vel_y } },
        acc: sensors_vals.spacecraft_acc,
        dv: Velocity { raw: dv2 },
        ang_pos: Angle { raw: ang_pos },
        ang_vel: AngVel { raw: ang_vel },
        ang_acc: sensors_vals.spacecraft_ang_acc,
        gui: cur.gui,
        eng_throttle: cur.eng_throttle,
        eng_gimbal: cur.eng_gimbal,
    };
    let snapshot = spacecraft.cur;
    spacecraft.all.push(snapshot);
}

/// Navigation iterated `n` times on the same sensor sample.
pub open spec fn nav_iter_spec(conf: Scenario, cur: SpacecraftDynamic, s: SensorsValues,
    n: nat) -> SpacecraftDynamic
    decreases n,
{
    if n == 0 {
        cur
    } else {
        nav_spec(conf, nav_iter_spec(conf, cur, s, (n - 1) as nat), s)
    }
}

/// Position under constant acceleration: after `n` one-second steps of
/// a constant sensor acceleration `a`, the velocity is exactly
/// `v0 + n a` and the position exactly `p0 + n v0 + a n (n + 1) / 2`,
/// the discrete image of the closed form `p0 + v0 t + a t^2 / 2` (the
/// position clause is stated doubled to keep it in integers).
/// One axis of the induction step: semi-implicit Euler advances the
/// closed form by one velocity sample.
proof fn lemma_axis_step(v0: int, p0: int, a: int, n: int, prev_v: int, prev_p: int,
    end_v: int, end_p: int) by (nonlinear_arith)
    requires
        1 <= n,
        prev_v == v0 + (n - 1) * a,
        2 * prev_p == 2 * p0 + 2 * (n - 1) * v0 + ((n - 1) * n) * a,
        end_v == prev_v + a,
        end_p == prev_p + end_v,
    ensures
        end_v == v0 + n * a,
        2 * end_p == 2 * p0 + 2 * n * v0 + (n * (n + 1)) * a,
{
}

#[verifier::rlimit(100)]
#[verifier::spinoff_prover]
pub proof fn lemma_nav_constant_acc(conf: Scenario, cur: SpacecraftDynamic,
    s: SensorsValues, n: nat)
    requires
        s.dt_step.raw == MICRO,
        iabs(s.spacecraft_acc.x.raw as int) <= 100_000_000,
        iabs(s.spacecraft_acc.y.raw as int) <= 100_000_000,
        iabs(cur.vel.x.raw as int) <= 10_000_000_000i64,
        iabs(cur.vel.y.raw as int) <= 10_000_000_000i64,
        iabs(cur.pos.x.raw as int) <= 1_000_000_000_000i64,
        iabs(cur.pos.y.raw as int) <= 1_000_000_000_000i64,
        n <= 900,
    ensures
        nav_iter_spec(conf, cur, s, n).vel.x.raw == cur.vel.x.raw + n
            * s.spacecraft_acc.x.raw,
        nav_iter_spec(conf, cur, s, n).vel.y.raw == cur.vel.y.raw + n
            * s.spacecraft_acc.y.raw,
        2 * nav_iter_spec(conf, cur, s, n).pos.x.raw == 2 * cur.pos.x.raw + 2 * n
            * cur.vel.x.raw + (n * (n + 1)) * s.spacecraft_acc.x.raw,
        2 * nav_iter_spec(conf, cur, s, n).pos.y.raw == 2 * cur.pos.y.raw + 2 * n
            * cur.vel.y.raw + (n * (n + 1)) * s.spacecraft_acc.y.raw,
    decreases n,
{
    let ax = s.spacecraft_acc.x.raw as int;
    let ay = s.spacecraft_acc.y.raw as int;
    if n == 0 {
    } else {
        lemma_nav_constant_acc(conf, cur, s, (n - 1) as nat);
        let prev = nav_iter_spec(conf, cur, s, (n - 1) as nat);
        let end = nav_iter_spec(conf, cur, s, n);
        assert(end == nav_spec(conf, prev, s));
        // one unit step adds the acceleration exactly
        crate::fixed::lemma_tdiv_mul_exact(ax, MICRO as int);
        crate::fixed::lemma_tdiv_mul_exact(ay, MICRO as int);
        // velocity stays inside the machine word
        assert(iabs((n - 1) * ax) <= 90_000_000_000int && iabs(n * ax) <= 90_000_000_000int
            && iabs((n - 1) * ay) <= 90_000_000_000int
            && iabs(n * ay) <= 90_000_000_000int) by (nonlinear_arith)
            requires
                iabs(ax) <= 100_000_000,
                iabs(ay) <= 100_000_000,
                1 <= n <= 900,
        ;
        let vx = prev.vel.x.raw as int;
        let vy = prev.vel.y.raw as int;
        crate::fixed::lemma_tdiv_mul_exact(vx, MICRO as int);
        crate::fixed::lemma_tdiv_mul_exact(vy, MICRO as int);
        crate::fixed::lemma_tdiv_mul_exact(vx + ax, MICRO as int);
        crate::fixed::lemma_tdiv_mul_exact(vy + ay, MICRO as int);
        assert((n - 1) * ax + ax == n * ax && (n - 1) * ay + ay == n * ay
            && iabs(n * ax) <= 90_000_000_000int && iabs(n * ay) <= 90_000_000_000int)
            by (nonlinear_arith)
            requires
                iabs(ax) <= 100_000_000,
                iabs(ay) <= 100_000_000,
                1 <= n <= 900,
        ;
        assert(end.vel.x.raw == vx + ax);
        assert(end.vel.y.raw == vy + ay);
        // position bound keeps the cast exact
        assert(iabs(2 * cur.pos.x.raw + 2 * (n - 1) * cur.vel.x.raw + ((n - 1) * n) * ax)
            <= 2_000_000_000_000_000_000int
            && iabs(2 * cur.pos.y.raw + 2 * (n - 1) * cur.vel.y.raw + ((n - 1) * n) * ay)
            <= 2_000_000_000_000_000_000int) by (nonlinear_arith)
            requires
                iabs(cur.pos.x.raw as int) <= 1_000_000_000_000i64,
                iabs(cur.pos.y.raw as int) <= 1_000_000_000_000i64,
                iabs(cur.vel.x.raw as int) <= 10_000_000_000i64,
                iabs(cur.vel.y.raw as int) <= 10_000_000_000i64,
                iabs(ax) <= 100_000_000,
                iabs(ay) <= 100_000_000,
                1 <= n <= 900,
        ;
        assert(end.pos.x.raw == prev.pos.x.raw + (vx + ax));
        assert(end.pos.y.raw == prev.pos.y.raw + (vy + ay));
        lemma_axis_step(cur.vel.x.raw as int, cur.pos.x.raw as int, ax, n as int,
            prev.vel.x.raw as int, prev.pos.x.raw as int, end.vel.x.raw as int,
            end.pos.x.raw as int);
        lemma_axis_step(cur.vel.y.raw as int, cur.pos.y.raw as int, ay, n as int,
            prev.vel.y.raw as int, prev.pos.y.raw as int, end.vel.y.raw as int,
            end.pos.y.raw as int);
        assert(end.vel.x.raw == cur.vel.x.raw + n * s.spacecraft_acc.x.raw);
        assert(end.vel.y.raw == cur.vel.y.raw + n * s.spacecraft_acc.y.raw);
        assert(2 * end.pos.x.raw == 2 * cur.pos.x.raw + 2 * n * cur.vel.x.raw + (n * (n
            + 1)) * s.spacecraft_acc.x.raw);
        assert(2 * end.pos.y.raw == 2 * cur.pos.y.raw + 2 * n * cur.vel.y.raw + (n * (n
            + 1)) * s.spacecraft_acc.y.raw);
    }
}

} // verus!
