//! The reference rigid-body plant: forward dynamics driven by the
//! actuator commands, used as the closed-loop truth model.  Every stored
//! quantity is clamped into a generous machine range; the clamps only
//! bind on runs the state checks would abort anyway.

use vstd::prelude::*;
use crate::fixed::{tdiv, iabs, sat, sqrt_floor, muldiv, div_trunc, wide_mul, isqrt, saturate, sat_i128};
use crate::fixed::{lemma_tdiv_bound, lemma_tdiv_nonneg, lemma_tdiv_le, lemma_tdiv_abs_le, lemma_tdiv_scale_left, lemma_tdiv_scale_right, lemma_sqrt_floor_unique};
use crate::conf::{Conf, Scenario};
use crate::state::{ActuatorsValues, SensorsValues, SpacecraftDynamic};
use crate::trig::{sin_spec, cos_spec, sin_nano, cos_nano, wrap_pi, wrap_pi_spec, PI_NANO};
use crate::units::{Time, Mass, Length, Velocity, Acceleration, Angle, AngVel, AngAcc, Vec2, MICRO, NANO};

verus! {

/// The machine ranges every stored plant state satisfies.
pub open spec fn sim_ok(cur: SpacecraftDynamic) -> bool {
    &&& 0 <= cur.t.raw <= 4_000_000_000_000_000i64
    &&& 0 <= cur.fuel_mass.raw <= 100_000_000_000i64
    &&& iabs(cur.pos.x.raw as int) <= 100_000_000_000_000i64
    &&& -30_000_000_000i64 <= cur.pos.y.raw <= 10_000_000_000_000i64
    &&& iabs(cur.vel.x.raw as int) <= 20_000_000_000i64
    &&& iabs(cur.vel.y.raw as int) <= 20_000_000_000i64
    &&& iabs(cur.acc.x.raw as int) <= 10_000_000_000i64
    &&& iabs(cur.acc.y.raw as int) <= 10_000_000_000i64
    &&& iabs(cur.ang_pos.raw as int) <= PI_NANO
    &&& iabs(cur.ang_vel.raw as int) <= 1_000_000_000_000i64
    &&& iabs(cur.ang_acc.raw as int) <= 100_000_000_000i64
    &&& 0 <= cur.eng_throttle.raw <= NANO
    &&& iabs(cur.eng_gimbal.raw as int) <= NANO
}

/// The angular half of one plant step: torque from the gimballed
/// thrust on the half-height lever arm, angular acceleration through
/// the moment of inertia about that same long axis, and the integrated
/// rate and attitude.
pub open spec fn sim_ang_spec(conf: Scenario, dtr: int, cur: SpacecraftDynamic,
    control: ActuatorsValues) -> (int, int, int) {
    let mass = conf.sc_dry_mass.raw + cur.fuel_mass.raw;
    let h2m = tdiv(conf.sc_height.raw as int, 2);
    let moi = tdiv(mass * tdiv(h2m * h2m, MICRO as int), 2 * MICRO);
    let alpha_g = tdiv(control.engine_gimbal.raw * conf.ctr_eng_gimbal_pos_max.raw,
        NANO as int);
    let sg = sin_spec(alpha_g);
    let tq1 = tdiv(control.engine_throttle.raw * conf.sc_nominal_thrust.raw, NANO as int);
    let tq2 = tdiv(tq1 * sg, NANO as int);
    let h2 = tdiv(conf.sc_height.raw as int, 2);
    let torque = tdiv(h2 * tq2, MICRO as int);
    let ang_acc2 = sat(tdiv(torque * NANO, moi), -100_000_000_000, 100_000_000_000);
    let ang_vel2 = sat(cur.ang_vel.raw + tdiv(ang_acc2 * dtr, MICRO as int),
        -1_000_000_000_000, 1_000_000_000_000);
    let ang_pos2 = wrap_pi_spec(cur.ang_pos.raw + tdiv(ang_vel2 * dtr, MICRO as int));
    (ang_acc2, ang_vel2, ang_pos2)
}

/// The force half of one plant step on the new attitude: thrust and
/// drag along the attitude unit vector, gravity and the centrifugal
/// pseudo-force along the local vertical, each component capped.  Also
/// the thrust and drag magnitudes kept for the log.
pub open spec fn sim_acc_spec(conf: Scenario, cur: SpacecraftDynamic,
    control: ActuatorsValues, ang_pos2: int) -> (int, int, int, int) {
    let mass = conf.sc_dry_mass.raw + cur.fuel_mass.raw;
    let cosv = cos_spec(ang_pos2);
    let sinv = sin_spec(ang_pos2);
    let tq1 = tdiv(control.engine_throttle.raw * conf.sc_nominal_thrust.raw, NANO as int);
    let ea = sat(tdiv(tq1 * MICRO, mass), 0, 1_000_000_000_000);
    let ea_x = tdiv(ea * cosv, NANO as int);
    let ea_y = tdiv(ea * sinv, NANO as int);
    let dpn = crate::nav::drag_force_spec(conf, cur);
    let da = sat(tdiv(dpn * MICRO, mass), 0, 1_000_000_000_000);
    let da_x = tdiv(da * cosv, NANO as int);
    let da_y = tdiv(da * sinv, NANO as int);
    let g = conf.body.gravity_spec(cur.pos.y.raw as int);
    let c = conf.body.centrifugal_spec(cur.vel.x.raw as int, cur.pos.y.raw as int);
    let acc_x2 = sat(ea_x - da_x, -10_000_000_000, 10_000_000_000);
    let acc_y2 = sat(ea_y - da_y - g + c, -10_000_000_000, 10_000_000_000);
    (acc_x2, acc_y2, sqrt_floor(ea_x * ea_x + ea_y * ea_y),
        sqrt_floor(da_x * da_x + da_y * da_y))
}

/// One step of the plant dynamics: angular motion first so the thrust
/// direction reflects the new attitude, then the forces, then the
/// translational integration.
#[verifier::opaque]
pub open spec fn sim_step_spec(conf: Scenario, dtr: int, cur: SpacecraftDynamic,
    control: ActuatorsValues) -> SpacecraftDynamic {
    let fuel2 = sat(
        cur.fuel_mass.raw - tdiv(
            tdiv(conf.sc_nominal_mass_flow.raw * control.engine_throttle.raw, NANO as int)
                * dtr,
            MICRO as int,
        ),
        0,
        100_000_000_000,
    );
    let (ang_acc2, ang_vel2, ang_pos2) = sim_ang_spec(conf, dtr, cur, control);
    let (acc_x2, acc_y2, nt, nd) = sim_acc_spec(conf, cur, control, ang_pos2);
    let g = conf.body.gravity_spec(cur.pos.y.raw as int);
    let c = conf.body.centrifugal_spec(cur.vel.x.raw as int, cur.pos.y.raw as int);
    let vel_x2 = sat(cur.vel.x.raw + tdiv(acc_x2 * dtr, MICRO as int), -20_000_000_000,
        20_000_000_000);
    let vel_y2 = sat(cur.vel.y.raw + tdiv(acc_y2 * dtr, MICRO as int), -20_000_000_000,
        20_000_000_000);
    let pos_x2 = sat(cur.pos.x.raw + tdiv(vel_x2 * dtr, MICRO as int), -100_000_000_000_000,
        100_000_000_000_000);
    let pos_y2 = sat(cur.pos.y.raw + tdiv(vel_y2 * dtr, MICRO as int), -30_000_000_000,
        10_000_000_000_000);
    SpacecraftDynamic {
        t: Time { raw: (cur.t.raw + dtr) as i64 },
        dt: Time { raw: dtr as i64 },
        fuel_mass: Mass { raw: fuel2 as i64 },
        acc_thrust: Acceleration { raw: nt as i64 },
        acc_atm: Acceleration { raw: -nd as i64 },
        acc_gravity: Acceleration { raw: -g as i64 },
        acc_centrifugal: Acceleration { raw: c as i64 },
        pos: Vec2 { x: Length { raw: pos_x2 as i64 }, y: Length { raw: pos_y2 as i64 } },
        vel: Vec2 { x: Velocity { raw: vel_x2 as i64 }, y: Velocity { raw: vel_y2 as i64 } },
        acc: Vec2 {
            x: Acceleration { raw: acc_x2 as i64 },
            y: Acceleration { raw: acc_y2 as i64 },
        },
        dv: cur.dv,
        ang_pos: Angle { raw: ang_pos2 as i64 },
        ang_vel: AngVel { raw: ang_vel2 as i64 },
        ang_acc: AngAcc { raw: ang_acc2 as i64 },
        gui: cur.gui,
        eng_throttle: control.engine_throttle,
        eng_gimbal: control.engine_gimbal,
    }
}

fn sim_ang(conf: &Scenario, dtr: i64, cur: &SpacecraftDynamic, control: ActuatorsValues)
    -> (r: (i64, i64, i64))
    requires
        conf.wf(),
        sim_ok(*cur),
        control.wf(),
        2 <= dtr <= MICRO,
    ensures
        (r.0 as int, r.1 as int, r.2 as int) == sim_ang_spec(*conf, dtr as int, *cur,
            control),
        iabs(r.0 as int) <= 100_000_000_000i64,
        iabs(r.1 as int) <= 1_000_000_000_000i64,
        iabs(r.2 as int) <= PI_NANO,
{
    let mass: i64 = conf.sc_dry_mass.raw + cur.fuel_mass.raw;
    proof {
        lemma_tdiv_nonneg(conf.sc_height.raw as int, 2);
    }
    let h2m: i64 = div_trunc(conf.sc_height.raw as i128, 2) as i64;
    proof {
        assert(0 <= (h2m as int) * (h2m as int) <= 2_500_000_000_000_000int)
            by (nonlinear_arith)
            requires
                0 <= h2m <= 50_000_000i64,
        ;
        assert(25_000_000 <= (h2m as int) * (h2m as int)) by (nonlinear_arith)
            requires
                5_000 <= h2m,
        ;
        lemma_tdiv_nonneg((h2m as int) * (h2m as int), MICRO as int);
        lemma_tdiv_bound((h2m as int) * (h2m as int), MICRO as int,
            2_500_000_000_000_000int);
        lemma_tdiv_le(25_000_000, (h2m as int) * (h2m as int), MICRO as int);
        assert(tdiv(25_000_000, MICRO as int) == 25) by {
            vstd::arithmetic::div_mod::lemma_div_by_multiple(25, MICRO as int);
        }
    }
    let ww: i64 = muldiv(h2m, h2m, MICRO as i128);
    assert(25 <= ww <= 2_500_000_000i64);
    proof {
        assert(0 <= (mass as int) * (ww as int) <= 500_000_000_000_000_000_000_000int
            && 25_000_000 <= (mass as int) * (ww as int)) by (nonlinear_arith)
            requires
                MICRO <= mass <= 200_000_000_000i64,
                25 <= ww <= 2_500_000_000i64,
                MICRO == 1_000_000i64,
        ;
        lemma_tdiv_nonneg((mass as int) * (ww as int), 2 * MICRO);
        lemma_tdiv_bound((mass as int) * (ww as int), 2 * MICRO,
            500_000_000_000_000_000_000_000int);
        lemma_tdiv_le(25_000_000, (mass as int) * (ww as int), 2 * MICRO);
        assert(tdiv(25_000_000, 2 * MICRO) == 12);
    }
    let moi: i64 = div_trunc(wide_mul(mass, ww), 2 * (MICRO as i128)) as i64;
    assert(12 <= moi <= 250_000_000_000_000_000i64);

    proof {
        lemma_tdiv_scale_right(control.engine_gimbal.raw as int,
            conf.ctr_eng_gimbal_pos_max.raw as int, NANO as int);
    }
    let alpha_g: i64 = muldiv(control.engine_gimbal.raw, conf.ctr_eng_gimbal_pos_max.raw,
        NANO as i128);
    let sg: i64 = sin_nano(alpha_g);
    proof {
        lemma_tdiv_scale_left(control.engine_throttle.raw as int,
            conf.sc_nominal_thrust.raw as int, NANO as int);
    }
    let tq1: i64 = muldiv(control.engine_throttle.raw, conf.sc_nominal_thrust.raw,
        NANO as i128);
    assert(iabs(tq1 as int) <= 1_000_000_000_000i64);
    proof {
        lemma_tdiv_scale_right(tq1 as int, sg as int, NANO as int);
    }
    let tq2: i64 = muldiv(tq1, sg, NANO as i128);
    proof {
        lemma_tdiv_nonneg(conf.sc_height.raw as int, 2);
    }
    let h2: i64 = div_trunc(conf.sc_height.raw as i128, 2) as i64;
    proof {
        assert(iabs((h2 as int) * (tq2 as int)) <= 50_000_000_000_000_000_000int)
            by (nonlinear_arith)
            requires
                0 <= h2 <= 50_000_000i64,
                iabs(tq2 as int) <= 1_000_000_000_000i64,
        ;
        lemma_tdiv_bound((h2 as int) * (tq2 as int), MICRO as int,
            50_000_000_000_000_000_000int);
    }
    let torque: i64 = muldiv(h2, tq2, MICRO as i128);
    assert(iabs(torque as int) <= 50_000_000_000_000i64);
    proof {
        assert(iabs((torque as int) * (NANO as int))
            <= 50_000_000_000_000_000_000_000_000int) by (nonlinear_arith)
            requires
                iabs(torque as int) <= 50_000_000_000_000i64,
        ;
    }
    let ang_acc2: i64 = sat_i128(div_trunc(wide_mul(torque, NANO), moi as i128),
        -100_000_000_000, 100_000_000_000);
    proof {
        lemma_tdiv_scale_right(ang_acc2 as int, dtr as int, MICRO as int);
    }
    let ang_vel2: i64 = saturate(cur.ang_vel.raw + muldiv(ang_acc2, dtr, MICRO as i128),
        -1_000_000_000_000, 1_000_000_000_000);
    proof {
        lemma_tdiv_scale_right(ang_vel2 as int, dtr as int, MICRO as int);
    }
    let ang_pos2: i64 = wrap_pi(cur.ang_pos.raw + muldiv(ang_vel2, dtr, MICRO as i128));
    (ang_acc2, ang_vel2, ang_pos2)
}

fn sim_acc(conf: &Scenario, cur: &SpacecraftDynamic, control: ActuatorsValues, ang_pos2: i64)
    -> (r: (i64, i64, i64, i64))
    requires
        conf.wf(),
        sim_ok(*cur),
        control.wf(),
        iabs(ang_pos2 as int) <= PI_NANO,
    ensures
        (r.0 as int, r.1 as int, r.2 as int, r.3 as int) == sim_acc_spec(*conf, *cur,
            control, ang_pos2 as int),
        iabs(r.0 as int) <= 10_000_000_000i64,
        iabs(r.1 as int) <= 10_000_000_000i64,
        0 <= r.2 <= 1_500_000_000_000i64,
        0 <= r.3 <= 1_500_000_000_000i64,
{
    let mass: i64 = conf.sc_dry_mass.raw + cur.fuel_mass.raw;
    let cosv: i64 = cos_nano(ang_pos2);
    let sinv: i64 = sin_nano(ang_pos2);
    proof {
        lemma_tdiv_scale_left(control.engine_throttle.raw as int,
            conf.sc_nominal_thrust.raw as int, NANO as int);
    }
    let tq1: i64 = muldiv(control.engine_throttle.raw, conf.sc_nominal_thrust.raw,
        NANO as i128);
    assert(iabs(tq1 as int) <= 1_000_000_000_000i64);
    proof {
        lemma_tdiv_scale_right(tq1 as int, MICRO as int, MICRO as int);
        lemma_tdiv_abs_le(tq1 * MICRO, mass as int, 1_000_000_000_000_000_000int,
            MICRO as int);
    }
    let ea: i64 = sat_i128(div_trunc(wide_mul(tq1, MICRO), mass as i128), 0,
        1_000_000_000_000);
    proof {
        lemma_tdiv_scale_right(ea as int, cosv as int, NANO as int);
        lemma_tdiv_scale_right(ea as int, sinv as int, NANO as int);
    }
    let ea_x: i64 = muldiv(ea, cosv, NANO as i128);
    let ea_y: i64 = muldiv(ea, sinv, NANO as i128);
    let dpn: i64 = crate::nav::drag_force(conf, cur);
    proof {
        lemma_tdiv_nonneg((dpn as int) * (MICRO as int), mass as int);
        vstd::arithmetic::mul::lemma_mul_nonnegative(dpn as int, MICRO as int);
    }
    let da: i64 = sat_i128(div_trunc(wide_mul(dpn, MICRO), mass as i128), 0,
        1_000_000_000_000);
    proof {
        lemma_tdiv_scale_right(da as int, cosv as int, NANO as int);
        lemma_tdiv_scale_right(da as int, sinv as int, NANO as int);
    }
    let da_x: i64 = muldiv(da, cosv, NANO as i128);
    let da_y: i64 = muldiv(da, sinv, NANO as i128);

    let g: i64 = conf.body.gravity(cur.pos.y).raw;
    let c: i64 = conf.body.centrifugal(cur.vel.x, cur.pos.y).raw;

    let acc_x2: i64 = saturate(ea_x - da_x, -10_000_000_000, 10_000_000_000);
    let acc_y2: i64 = saturate(ea_y - da_y - g + c, -10_000_000_000, 10_000_000_000);

    proof {
        assert(0 <= (ea_x as int) * (ea_x as int) + (ea_y as int) * (ea_y as int)
            && (ea_x as int) * (ea_x as int) + (ea_y as int) * (ea_y as int)
                < 1_414_213_562_374 * 1_414_213_562_374int) by (nonlinear_arith)
            requires
                iabs(ea_x as int) <= 1_000_000_000_000i64,
                iabs(ea_y as int) <= 1_000_000_000_000i64,
        ;
        assert(0 <= (da_x as int) * (da_x as int) + (da_y as int) * (da_y as int)
            && (da_x as int) * (da_x as int) + (da_y as int) * (da_y as int)
                < 1_414_213_562_374 * 1_414_213_562_374int) by (nonlinear_arith)
            requires
                iabs(da_x as int) <= 1_000_000_000_000i64,
                iabs(da_y as int) <= 1_000_000_000_000i64,
        ;
    }
    let nt64: u64 = isqrt((wide_mul(ea_x, ea_x) + wide_mul(ea_y, ea_y)) as u128);
    let nd64: u64 = isqrt((wide_mul(da_x, da_x) + wide_mul(da_y, da_y)) as u128);
    proof {
        assert(nt64 <= 1_414_213_562_374u64) by (nonlinear_arith)
            requires
                nt64 as int * (nt64 as int) < 1_414_213_562_374 * 1_414_213_562_374int,
        ;
        assert(nd64 <= 1_414_213_562_374u64) by (nonlinear_arith)
            requires
                nd64 as int * (nd64 as int) < 1_414_213_562_374 * 1_414_213_562_374int,
        ;
        lemma_sqrt_floor_unique(
            (ea_x as int) * (ea_x as int) + (ea_y as int) * (ea_y as int), nt64 as int);
        lemma_sqrt_floor_unique(
            (da_x as int) * (da_x as int) + (da_y as int) * (da_y as int), nd64 as int);
    }
    (acc_x2, acc_y2, nt64 as i64, nd64 as i64)
}

/// The reference simulator: the plant configuration and its own state
/// history.
pub struct Sim {
    pub dt: Time,
    pub conf: Scenario,
    pub cur: SpacecraftDynamic,
    pub all: Vec<SpacecraftDynamic>,
}

impl Sim {
    pub fn new(conf: Conf) -> (s: Sim)
        ensures
            s.dt == conf.dt_step,
            s.conf == conf.s,
            s.cur == SpacecraftDynamic::initial_spec(conf.s),
            s.all@ =~= Seq::<SpacecraftDynamic>::empty(),
            conf.s.wf() ==> sim_ok(s.cur),
    {
        Sim { dt: conf.dt_step, conf: conf.s, cur: SpacecraftDynamic::new(&conf.s),
            all: Vec::new() }
    }

    /// Hand the latest accelerations and the radar altitude out as a
    /// sensor sample.
    pub fn read_sensors(&self) -> (r: SensorsValues)
        requires
            sim_ok(self.cur),
            2 <= self.dt.raw <= MICRO,
        ensures
            r == (SensorsValues {
                dt_step: self.dt,
                spacecraft_acc: self.cur.acc,
                spacecraft_ang_acc: self.cur.ang_acc,
                spacecraft_altitude: Some(self.cur.pos.y),
            }),
            r.wf(),
    {
        SensorsValues {
            dt_step: self.dt,
            spacecraft_acc: self.cur.acc,
            spacecraft_ang_acc: self.cur.ang_acc,
            spacecraft_altitude: Some(self.cur.pos.y),
        }
    }

    /// Advance the plant one step under the given actuator command.
    #[verifier::rlimit(100)]
    pub fn write_actuators(&mut self, control: ActuatorsValues)
        requires
            old(self).conf.wf(),
            sim_ok(old(self).cur),
            control.wf(),
            2 <= old(self).dt.raw <= MICRO,
            old(self).cur.t.raw <= 1_000_000_000_000i64,
        ensures
            final(self).dt == old(self).dt,
            final(self).conf == old(self).conf,
            final(self).cur == sim_step_spec(old(self).conf, old(self).dt.raw as int,
                old(self).cur, control),
            final(self).all@ =~= old(self).all@.push(final(self).cur),
            sim_ok(final(self).cur),
    {
        proof {
            reveal(sim_step_spec);
        }
        let conf = self.conf;
        let cur = self.cur;
        let dtr: i64 = self.dt.raw;

        proof {
            lemma_tdiv_scale_right(conf.sc_nominal_mass_flow.raw as int,
                control.engine_throttle.raw as int, NANO as int);
        }
        let b1: i64 = muldiv(conf.sc_nominal_mass_flow.raw, control.engine_throttle.raw,
            NANO as i128);
        proof {
            lemma_tdiv_scale_right(b1 as int, dtr as int, MICRO as int);
        }
        let fuel2: i64 = saturate(cur.fuel_mass.raw - muldiv(b1, dtr, MICRO as i128), 0,
            100_000_000_000);

        let ang: (i64, i64, i64) = sim_ang(&conf, dtr, &cur, control);
        let acc: (i64, i64, i64, i64) = sim_acc(&conf, &cur, control, ang.2);

        let g: i64 = conf.body.gravity(cur.pos.y).raw;
        let c: i64 = conf.body.centrifugal(cur.vel.x, cur.pos.y).raw;

        proof {
            lemma_tdiv_scale_right(acc.0 as int, dtr as int, MICRO as int);
            lemma_tdiv_scale_right(acc.1 as int, dtr as int, MICRO as int);
        }
        let vel_x2: i64 = saturate(cur.vel.x.raw + muldiv(acc.0, dtr, MICRO as i128),
            -20_000_000_000, 20_000_000_000);
        let vel_y2: i64 = saturate(cur.vel.y.raw + muldiv(acc.1, dtr, MICRO as i128),
            -20_000_000_000, 20_000_000_000);
        proof {
            lemma_tdiv_scale_right(vel_x2 as int, dtr as int, MICRO as int);
            lemma_tdiv_scale_right(vel_y2 as int, dtr as int, MICRO as int);
        }
        let pos_x2: i64 = saturate(cur.pos.x.raw + muldiv(vel_x2, dtr, MICRO as i128),
            -100_000_000_000_000, 100_000_000_000_000);
        let pos_y2: i64 = saturate(cur.pos.y.raw + muldiv(vel_y2, dtr, MICRO as i128),
            -30_000_000_000, 10_000_000_000_000);

        self.cur = SpacecraftDynamic {
            t: Time { raw: cur.t.raw + dtr },
            dt: Time { raw: dtr },
            fuel_mass: Mass { raw: fuel2 },
            acc_thrust: Acceleration { raw: acc.2 },
            acc_atm: Acceleration { raw: -acc.3 },
            acc_gravity: Acceleration { raw: -g },
            acc_centrifugal: Acceleration { raw: c },
            pos: Vec2 { x: Length { raw: pos_x2 }, y: Length { raw: pos_y2 } },
            vel: Vec2 { x: Velocity { raw: vel_x2 }, y: Velocity { raw: vel_y2 } },
            acc: Vec2 {
                x: Acceleration { raw: acc.0 },
                y: Acceleration { raw: acc.1 },
            },
            dv: cur.dv,
            ang_pos: Angle { raw: ang.2 },
            ang_vel: AngVel { raw: ang.1 },
            ang_acc: AngAcc { raw: ang.0 },
            gui: cur.gui,
            eng_throttle: control.engine_throttle,
            eng_gimbal: control.engine_gimbal,
        };
        let snapshot = self.cur;
        self.all.push(snapshot);
    }
}

} // verus!
