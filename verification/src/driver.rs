//! The loop core: one full guidance-navigation-control step as a pure
//! decision function, and the closed loop against the internal plant.
//! An adaptor that talks to the outside world runs the same step
//! function and performs the reads and writes itself.

use vstd::prelude::*;
use crate::fixed::{iabs, muldiv, div_trunc, wide_mul, mul_wide, isqrt};
use crate::fixed::{lemma_tdiv_nonneg, lemma_tdiv_scale_left, lemma_tdiv_scale_right, lemma_sqrt_floor_unique};
use crate::conf::{Conf, CtrSpacecraft, Scenario, SubCommand, TgoEstimate};
use crate::control::{ctr, ctr_ok, ctr_cmd_spec, control_translation, angular_sin_ratio, ASCENT_PITCH_OVER_US};
use crate::guidance::{gui, gui_cmd_spec};
use crate::nav::{nav, nav_spec, burn_spec};
use crate::sim::{Sim, sim_ok};
use crate::spacecraft::Spacecraft;
use crate::state::{ActuatorsValues, SensorsValues, SpacecraftDynamic};
use crate::tgo::{tgo_estimate, soft_landing_spec, has_softly_landed};
use crate::trig::PI_HALF_NANO;
use crate::units::{Time, Mass, Force, Angle, Acceleration, Ratio, Vec2, MICRO, NANO};

verus! {

/// The state guidance leaves behind: navigation's update with the
/// commanded acceleration written in.
pub open spec fn gui_state_spec(conf: Scenario, cur: SpacecraftDynamic, s: SensorsValues,
    tgo: int) -> SpacecraftDynamic {
    let nst = nav_spec(conf, cur, s);
    let cmd = gui_cmd_spec(conf, nst, tgo);
    SpacecraftDynamic {
        gui: Vec2 {
            x: Acceleration { raw: cmd.0 as i64 },
            y: Acceleration { raw: cmd.1 as i64 },
        },
        ..nst
    }
}

/// Whether one pipeline step goes through: the booked burn is covered
/// by the propellant on board, and both saturation domains of the
/// control stage hold on the state guidance leaves behind.
#[verifier::opaque]
pub open spec fn pipe_step_ok_spec(conf: Scenario, cur: SpacecraftDynamic, s: SensorsValues,
    tgo: int) -> bool {
    &&& burn_spec(conf, cur, s.dt_step.raw as int) <= cur.fuel_mass.raw
    &&& ctr_ok(conf, gui_state_spec(conf, cur, s, tgo))
}

/// The state a successful pipeline step leaves behind: guidance's
/// state with the control commands written in.
#[verifier::opaque]
pub open spec fn pipe_result_spec(conf: Scenario, cur: SpacecraftDynamic, s: SensorsValues,
    tgo: int) -> SpacecraftDynamic {
    let gst = gui_state_spec(conf, cur, s, tgo);
    let cmd = ctr_cmd_spec(conf, gst);
    SpacecraftDynamic {
        eng_throttle: Ratio { raw: cmd.0 as i64 },
        eng_gimbal: Ratio { raw: cmd.1 as i64 },
        ..gst
    }
}

/// The state a refused pipeline step leaves behind: untouched when the
/// propellant check refused the burn, guidance's state when a control
/// saturation domain was breached after navigation and guidance ran.
#[verifier::opaque]
pub open spec fn pipe_refused_spec(conf: Scenario, cur: SpacecraftDynamic, s: SensorsValues,
    tgo: int) -> SpacecraftDynamic {
    if burn_spec(conf, cur, s.dt_step.raw as int) > cur.fuel_mass.raw {
        cur
    } else {
        gui_state_spec(conf, cur, s, tgo)
    }
}

/// One pipeline step: navigation, guidance, control.  `None` is the
/// how the pipeline surfaces the conditions that are otherwise fatal:
/// not enough propellant for the booked burn, or a saturation domain
/// breached in the control stage.
pub fn land_step(spacecraft: &mut Spacecraft, sensors_vals: SensorsValues, tgo: Time)
    -> (r: Option<ActuatorsValues>)
    requires
        old(spacecraft).conf.s.wf(),
        old(spacecraft).conf.s.ctr_eng_gimbal_kp.is_some(),
        old(spacecraft).conf.s.ctr_eng_gimbal_kd.is_some(),
        old(spacecraft).cur.ok(),
        sensors_vals.wf(),
        100_000 <= tgo.raw <= 3_600_000_000i64,
    ensures
        final(spacecraft).conf == old(spacecraft).conf,
        r.is_some() == (burn_spec(old(spacecraft).conf.s, old(spacecraft).cur,
            sensors_vals.dt_step.raw as int) <= old(spacecraft).cur.fuel_mass.raw
            && ctr_ok(old(spacecraft).conf.s, gui_state_spec(old(spacecraft).conf.s,
            old(spacecraft).cur, sensors_vals, tgo.raw as int))),
        r.is_some() ==> {
            let gst = gui_state_spec(old(spacecraft).conf.s, old(spacecraft).cur,
                sensors_vals, tgo.raw as int);
            &&& burn_spec(old(spacecraft).conf.s, old(spacecraft).cur,
                sensors_vals.dt_step.raw as int) <= old(spacecraft).cur.fuel_mass.raw
            &&& ctr_ok(old(spacecraft).conf.s, gst)
            &&& final(spacecraft).cur == (SpacecraftDynamic {
                eng_throttle: final(spacecraft).cur.eng_throttle,
                eng_gimbal: final(spacecraft).cur.eng_gimbal,
                ..gst
            })
            &&& (final(spacecraft).cur.eng_throttle.raw as int,
                final(spacecraft).cur.eng_gimbal.raw as int) == ctr_cmd_spec(
                old(spacecraft).conf.s, gst)
            &&& r == Some(ActuatorsValues {
                engine_throttle: final(spacecraft).cur.eng_throttle,
                engine_gimbal: final(spacecraft).cur.eng_gimbal,
            })
            &&& r.unwrap().wf()
            &&& final(spacecraft).all@ =~= old(spacecraft).all@.push(nav_spec(
                old(spacecraft).conf.s, old(spacecraft).cur, sensors_vals))
        },
        r.is_some() ==> final(spacecraft).cur == pipe_result_spec(old(spacecraft).conf.s,
            old(spacecraft).cur, sensors_vals, tgo.raw as int),
        r.is_none() ==> final(spacecraft).cur == pipe_refused_spec(old(spacecraft).conf.s,
            old(spacecraft).cur, sensors_vals, tgo.raw as int),
{
    let conf = spacecraft.conf.s;

    // the booked burn must be covered by the propellant on board
    proof {
        lemma_tdiv_scale_right(conf.sc_nominal_mass_flow.raw as int,
            spacecraft.cur.eng_throttle.raw as int, NANO as int);
    }
    let b1: i64 = muldiv(conf.sc_nominal_mass_flow.raw, spacecraft.cur.eng_throttle.raw,
        NANO as i128);
    proof {
        lemma_tdiv_scale_right(b1 as int, sensors_vals.dt_step.raw as int, MICRO as int);
    }
    let burn: i64 = muldiv(b1, sensors_vals.dt_step.raw, MICRO as i128);
    if burn > spacecraft.cur.fuel_mass.raw {
        proof {
            reveal(pipe_step_ok_spec);
            reveal(pipe_refused_spec);
        }
        return None;
    }

    nav(spacecraft, &sensors_vals);
    gui(spacecraft, tgo);

    // the arcsine domain of the thrust-saturated translation branch
    let cur = spacecraft.cur;
    let m: i64 = conf.sc_dry_mass.raw + cur.fuel_mass.raw;
    let f: i64 = conf.sc_nominal_thrust.raw;
    let ax: i64 = cur.gui.x.raw;
    let ay: i64 = cur.gui.y.raw;
    let trans_ok: bool = if ay < 0 {
        true
    } else {
        proof {
            assert(0 <= (ax as int) * (ax as int) && 0 <= (ay as int) * (ay as int)
                && (ax as int) * (ax as int) + (ay as int) * (ay as int)
                    <= 1_800_000_000_000_000_000_000_000_000_000_000int) by (nonlinear_arith)
                requires
                    iabs(ax as int) <= 30_000_000_000_000_000i64,
                    iabs(ay as int) <= 30_000_000_000_000_000i64,
            ;
            assert(42_426_406_871_192_852 * 42_426_406_871_192_852int
                == 1_800_000_000_000_000_045_476_809_375_893_904int) by (nonlinear_arith);
        }
        let n2: i128 = wide_mul(ax, ax) + wide_mul(ay, ay);
        let n64: u64 = isqrt(n2 as u128);
        proof {
            assert(n64 < 42_426_406_871_192_852u64) by (nonlinear_arith)
                requires
                    (n64 as int) * (n64 as int)
                        < 42_426_406_871_192_852 * 42_426_406_871_192_852int,
            ;
            lemma_sqrt_floor_unique(
                (ax as int) * (ax as int) + (ay as int) * (ay as int),
                n64 as int,
            );
            vstd::arithmetic::mul::lemma_mul_nonnegative(m as int, n64 as int);
            lemma_tdiv_nonneg(m * (n64 as int), MICRO as int);
        }
        let tw: i128 = div_trunc(wide_mul(m, n64 as i64), MICRO as i128);
        if tw < f as i128 {
            true
        } else {
            proof {
                assert(iabs((ay as int) * (m as int))
                    <= 6_000_000_000_000_000_000_000_000_000int) by (nonlinear_arith)
                    requires
                        iabs(ay as int) <= 30_000_000_000_000_000i64,
                        0 <= m <= 200_000_000_000i64,
                ;
            }
            let s128: i128 = div_trunc(mul_wide(wide_mul(ay, m), NANO as i128),
                wide_mul(f, MICRO));
            -(NANO as i128) <= s128 && s128 <= NANO as i128
        }
    };
    if !trans_ok {
        proof {
            reveal(pipe_step_ok_spec);
            reveal(pipe_refused_spec);
        }
        return None;
    }

    // the ideal attitude and commanded thrust, with the ascent
    // override, the gimbal authority, and the arcsine domain of the
    // angular cascade
    let base: (Force, Angle) = control_translation(cur.gui, Mass { raw: m },
        Force { raw: f });
    let (fc, attitude): (i64, i64) = match conf.ctr_spacecraft {
        CtrSpacecraft::CtrSpacecraftDescent => (base.0.raw, base.1.raw),
        CtrSpacecraft::CtrSpacecraftAscentToHover => (base.0.raw, base.1.raw),
        CtrSpacecraft::CtrSpacecraftAscentToOrbit => {
            if cur.t.raw > ASCENT_PITCH_OVER_US {
                (f, base.1.raw)
            } else {
                proof {
                    lemma_tdiv_scale_left(cur.t.raw as int, PI_HALF_NANO - base.1.raw,
                        ASCENT_PITCH_OVER_US as int);
                }
                let na: i64 = muldiv(cur.t.raw, PI_HALF_NANO - base.1.raw,
                    ASCENT_PITCH_OVER_US as i128);
                (f, PI_HALF_NANO - na)
            }
        },
    };
    proof {
        lemma_tdiv_nonneg(conf.sc_height.raw as int, 2);
        assert(0 <= (crate::fixed::tdiv(conf.sc_height.raw as int, 2)) * (fc as int)
            <= 50_000_000_000_000_000_000int) by (nonlinear_arith)
            requires
                0 <= crate::fixed::tdiv(conf.sc_height.raw as int, 2) <= 50_000_000int,
                0 <= fc <= 1_000_000_000_000i64,
        ;
        crate::fixed::lemma_tdiv_bound(
            (crate::fixed::tdiv(conf.sc_height.raw as int, 2)) * (fc as int),
            MICRO as int, 50_000_000_000_000_000_000int);
        crate::fixed::lemma_tdiv_nonneg(
            (crate::fixed::tdiv(conf.sc_height.raw as int, 2)) * (fc as int), MICRO as int);
    }
    let h2: i64 = div_trunc(conf.sc_height.raw as i128, 2) as i64;
    let den: i64 = div_trunc(wide_mul(h2, fc), MICRO as i128) as i64;
    if den < 1 {
        proof {
            reveal(pipe_step_ok_spec);
            reveal(pipe_refused_spec);
        }
        return None;
    }
    let sg: i128 = angular_sin_ratio(&conf, attitude, Mass { raw: m }, Force { raw: fc },
        cur.ang_pos, cur.ang_vel);
    if sg < -(NANO as i128) || (NANO as i128) < sg {
        proof {
            reveal(pipe_step_ok_spec);
            reveal(pipe_refused_spec);
        }
        return None;
    }

    proof {
        assert(ctr_ok(conf, spacecraft.cur));
    }
    let acts: ActuatorsValues = ctr(spacecraft);
    proof {
        reveal(pipe_step_ok_spec);
        reveal(pipe_result_spec);
    }
    Some(acts)
}

/// The sensor sample the internal plant hands the pipeline.
pub open spec fn sensors_of_spec(conf: Conf, sim: SpacecraftDynamic) -> SensorsValues {
    SensorsValues {
        dt_step: conf.dt_step,
        spacecraft_acc: sim.acc,
        spacecraft_ang_acc: sim.ang_acc,
        spacecraft_altitude: Some(sim.pos.y),
    }
}

/// The time-to-go the loop starts from: the configured value, or five
/// passes of the estimator on the initial state.
pub open spec fn initial_tgo_spec(conf: Conf) -> int {
    match conf.s.tgo_method {
        TgoEstimate::TgoGivenFixed => conf.s.tgo_init.raw as int,
        TgoEstimate::TgoEstimateFixed => crate::tgo::tgo_iters_spec(conf.s,
            SpacecraftDynamic::initial_spec(conf.s), conf.s.gui_vf_x.raw as int,
            conf.s.gui_vf_y.raw as int, conf.s.tgo_thrust_mul.raw as int, 5),
        TgoEstimate::TgoEstimateUpdating => crate::tgo::tgo_iters_spec(conf.s,
            SpacecraftDynamic::initial_spec(conf.s), conf.s.gui_vf_x.raw as int,
            conf.s.gui_vf_y.raw as int, conf.s.tgo_thrust_mul.raw as int, 5),
    }
}

/// The closed loop as a mathematical run, `n` steps of budget left:
/// per step, re-estimate the time to go where configured, keep the
/// guidance argument at its tenth-of-a-second floor, run the pipeline
/// on the plant's sample, advance the plant, and stop on an exhausted
/// budget, a refused step, a failed state check, or the stop margin.
/// The result is the craft state, the plant state, and whether the run
/// was aborted rather than flown to its stop margin.
#[verifier::opaque]
pub open spec fn run_spec(conf: Conf, sc: SpacecraftDynamic, sim: SpacecraftDynamic,
    tgo: int, n: nat) -> (SpacecraftDynamic, SpacecraftDynamic, bool)
    decreases n,
{
    if n == 0 {
        (sc, sim, true)
    } else {
        let tgo1 = if conf.s.tgo_method == TgoEstimate::TgoEstimateUpdating {
            crate::tgo::tgo_iters_spec(conf.s, sc, conf.s.gui_vf_x.raw as int,
                conf.s.gui_vf_y.raw as int, conf.s.tgo_thrust_mul.raw as int, 5)
        } else {
            tgo
        };
        let gui_tgo = if tgo1 < 100_000 {
            100_000
        } else {
            tgo1
        };
        let s = sensors_of_spec(conf, sim);
        if !pipe_step_ok_spec(conf.s, sc, s, gui_tgo) {
            (pipe_refused_spec(conf.s, sc, s, gui_tgo), sim, true)
        } else {
            let sc2 = pipe_result_spec(conf.s, sc, s, gui_tgo);
            let acts = ActuatorsValues {
                engine_throttle: sc2.eng_throttle,
                engine_gimbal: sc2.eng_gimbal,
            };
            let sim2 = crate::sim::sim_step_spec(conf.s, conf.dt_step.raw as int, sim, acts);
            if !((conf.subcommand == SubCommand::Ksp || crate::spacecraft::state_ranges_of(
                conf,
                sc2,
            )) && sc2.ok()) {
                (sc2, sim2, true)
            } else if tgo1 < conf.s.tgo_stop.raw {
                (sc2, sim2, false)
            } else {
                let tgo2 = if tgo1 - conf.dt_step.raw < -4_000_000_000 {
                    -4_000_000_000int
                } else {
                    tgo1 - conf.dt_step.raw
                };
                run_spec(conf, sc2, sim2, tgo2, (n - 1) as nat)
            }
        }
    }
}

/// One unfolding of the mathematical run: how the outcome of `n`
/// remaining steps follows from the current step's checks and the
/// outcome of `n - 1`.
proof fn lemma_run_spec_step(conf: Conf, sc: SpacecraftDynamic, sim: SpacecraftDynamic,
    tgo: int, n: nat, tgo1: int, gui_tgo: int)
    requires
        n >= 1,
        tgo1 == if conf.s.tgo_method == TgoEstimate::TgoEstimateUpdating {
            crate::tgo::tgo_iters_spec(conf.s, sc, conf.s.gui_vf_x.raw as int,
                conf.s.gui_vf_y.raw as int, conf.s.tgo_thrust_mul.raw as int, 5)
        } else {
            tgo
        },
        gui_tgo == if tgo1 < 100_000 {
            100_000int
        } else {
            tgo1
        },
    ensures
        !pipe_step_ok_spec(conf.s, sc, sensors_of_spec(conf, sim), gui_tgo)
            ==> run_spec(conf, sc, sim, tgo, n) == (pipe_refused_spec(conf.s, sc,
            sensors_of_spec(conf, sim), gui_tgo), sim, true),
        pipe_step_ok_spec(conf.s, sc, sensors_of_spec(conf, sim), gui_tgo) ==> ({
            let sc2 = pipe_result_spec(conf.s, sc, sensors_of_spec(conf, sim), gui_tgo);
            let sim2 = crate::sim::sim_step_spec(conf.s, conf.dt_step.raw as int, sim,
                ActuatorsValues {
                    engine_throttle: sc2.eng_throttle,
                    engine_gimbal: sc2.eng_gimbal,
                });
            let gate = (conf.subcommand == SubCommand::Ksp
                || crate::spacecraft::state_ranges_of(conf, sc2)) && sc2.ok();
            &&& (!gate ==> run_spec(conf, sc, sim, tgo, n) == (sc2, sim2, true))
            &&& (gate && tgo1 < conf.s.tgo_stop.raw ==> run_spec(conf, sc, sim, tgo, n)
                == (sc2, sim2, false))
            &&& (gate && tgo1 >= conf.s.tgo_stop.raw ==> run_spec(conf, sc, sim, tgo, n)
                == run_spec(conf, sc2, sim2,
                if tgo1 - conf.dt_step.raw < -4_000_000_000 {
                    -4_000_000_000int
                } else {
                    tgo1 - conf.dt_step.raw
                }, (n - 1) as nat))
        }),
{
    reveal(run_spec);
}

/// An exhausted step budget is an aborted run in place.
proof fn lemma_run_spec_exhausted(conf: Conf, sc: SpacecraftDynamic,
    sim: SpacecraftDynamic, tgo: int)
    ensures
        run_spec(conf, sc, sim, tgo, 0) == (sc, sim, true),
{
    reveal(run_spec);
}

/// The pipeline step under the light contract the loop needs: the
/// configuration survives and a produced command is in range.
fn land_step_light(spacecraft: &mut Spacecraft, sensors_vals: SensorsValues, tgo: Time)
    -> (r: Option<ActuatorsValues>)
    requires
        old(spacecraft).conf.s.wf(),
        old(spacecraft).conf.s.ctr_eng_gimbal_kp.is_some(),
        old(spacecraft).conf.s.ctr_eng_gimbal_kd.is_some(),
        old(spacecraft).cur.ok(),
        sensors_vals.wf(),
        100_000 <= tgo.raw <= 3_600_000_000i64,
    ensures
        final(spacecraft).conf == old(spacecraft).conf,
        r.is_some() == pipe_step_ok_spec(old(spacecraft).conf.s, old(spacecraft).cur,
            sensors_vals, tgo.raw as int),
        r.is_some() ==> {
            let fin = pipe_result_spec(old(spacecraft).conf.s, old(spacecraft).cur,
                sensors_vals, tgo.raw as int);
            &&& final(spacecraft).cur == fin
            &&& r == Some(ActuatorsValues {
                engine_throttle: fin.eng_throttle,
                engine_gimbal: fin.eng_gimbal,
            })
            &&& r.unwrap().wf()
        },
        r.is_none() ==> final(spacecraft).cur == pipe_refused_spec(old(spacecraft).conf.s,
            old(spacecraft).cur, sensors_vals, tgo.raw as int),
{
    let r = land_step(spacecraft, sensors_vals, tgo);
    proof {
        reveal(pipe_step_ok_spec);
    }
    r
}

/// The plant step under the light contract the loop needs: ranges
/// hold and time advances by exactly one step.
fn sim_step_light(sim: &mut Sim, control: ActuatorsValues)
    requires
        old(sim).conf.wf(),
        sim_ok(old(sim).cur),
        control.wf(),
        2 <= old(sim).dt.raw <= MICRO,
        old(sim).cur.t.raw <= 1_000_000_000_000i64,
    ensures
        final(sim).dt == old(sim).dt,
        final(sim).conf == old(sim).conf,
        sim_ok(final(sim).cur),
        final(sim).cur.t.raw <= old(sim).cur.t.raw + MICRO,
        final(sim).cur == crate::sim::sim_step_spec(old(sim).conf, old(sim).dt.raw as int,
            old(sim).cur, control),
{
    proof {
        reveal(crate::sim::sim_step_spec);
    }
    sim.write_actuators(control)
}

/// What one closed-loop run produced: the spacecraft (with its whole
/// history), the plant, the classifier's verdict and whether the run
/// was aborted by a failed state check or an inadmissible command.
pub struct LandingOutcome {
    pub craft: Spacecraft,
    pub plant: Sim,
    pub success: bool,
    pub aborted: bool,
}

/// The closed loop against the internal plant: estimate the time to
/// go, then step navigation, guidance, control and the plant until the
/// time to go drops below the configured stop margin, the step budget
/// runs out, or a state check fails.  The outcome — craft state, plant
/// state, and whether the run aborted — is exactly the mathematical
/// run of `run_spec` from the initial state.  Mirrors the flight loop,
/// with the pacing sleep and the log lines left to the caller.
#[verifier::rlimit(100)]
pub fn run_sim(conf: Conf, max_steps: u64) -> (r: LandingOutcome)
    requires
        conf.wf(),
        conf.s.ctr_eng_gimbal_kp.is_some(),
        conf.s.ctr_eng_gimbal_kd.is_some(),
        conf.subcommand == SubCommand::Sim,
        100_000 <= conf.s.tgo_stop.raw,
        max_steps <= 1_000_000,
    ensures
        r.craft.conf == conf,
        r.plant.conf == conf.s,
        ({
            let run = run_spec(conf, SpacecraftDynamic::initial_spec(conf.s),
                SpacecraftDynamic::initial_spec(conf.s), initial_tgo_spec(conf),
                max_steps as nat);
            &&& r.craft.cur == run.0
            &&& r.plant.cur == run.1
            &&& r.aborted == run.2
            &&& r.success == (!run.2 && soft_landing_spec(run.0))
        }),
{
    let ghost target = run_spec(conf, SpacecraftDynamic::initial_spec(conf.s),
        SpacecraftDynamic::initial_spec(conf.s), initial_tgo_spec(conf), max_steps as nat);

    let mut sc: Spacecraft = Spacecraft::new(conf);
    let mut sim: Sim = Sim::new(conf);

    let mut tgo: i64 = match conf.s.tgo_method {
        TgoEstimate::TgoGivenFixed => conf.s.tgo_init.raw,
        TgoEstimate::TgoEstimateFixed => tgo_estimate(&sc, conf.s.gui_vf_x, conf.s.gui_vf_y,
            conf.s.tgo_thrust_mul).raw,
        TgoEstimate::TgoEstimateUpdating => tgo_estimate(&sc, conf.s.gui_vf_x,
            conf.s.gui_vf_y, conf.s.tgo_thrust_mul).raw,
    };
    assert(tgo == initial_tgo_spec(conf));

    let mut i: u64 = 0;
    loop
        invariant_except_break
            sim.cur.t.raw <= 1_000_000 * (i as int),
            target == run_spec(conf, sc.cur, sim.cur, tgo as int,
                (max_steps - i) as nat),
        invariant
            sc.conf == conf,
            sim.conf == conf.s,
            sim.dt == conf.dt_step,
            conf.wf(),
            conf.s.ctr_eng_gimbal_kp.is_some(),
            conf.s.ctr_eng_gimbal_kd.is_some(),
            conf.subcommand == SubCommand::Sim,
            100_000 <= conf.s.tgo_stop.raw,
            sc.cur.ok(),
            sim_ok(sim.cur),
            -4_000_000_000i64 <= tgo <= 3_600_000_000i64,
            0 <= i <= max_steps,
            max_steps <= 1_000_000,
            target == run_spec(conf, SpacecraftDynamic::initial_spec(conf.s),
                SpacecraftDynamic::initial_spec(conf.s), initial_tgo_spec(conf),
                max_steps as nat),
        ensures
            sc.conf == conf,
            sim.conf == conf.s,
            target == (sc.cur, sim.cur, false),
            target == run_spec(conf, SpacecraftDynamic::initial_spec(conf.s),
                SpacecraftDynamic::initial_spec(conf.s), initial_tgo_spec(conf),
                max_steps as nat),
        decreases max_steps - i,
    {
        if i >= max_steps {
            proof {
                lemma_run_spec_exhausted(conf, sc.cur, sim.cur, tgo as int);
                assert(target == (sc.cur, sim.cur, true));
            }
            return LandingOutcome { craft: sc, plant: sim, success: false, aborted: true };
        }
        let ghost n = (max_steps - i) as nat;
        let ghost tgo_in = tgo as int;

        if matches!(conf.s.tgo_method, TgoEstimate::TgoEstimateUpdating) {
            tgo = tgo_estimate(&sc, conf.s.gui_vf_x, conf.s.gui_vf_y,
                conf.s.tgo_thrust_mul).raw;
        }

        // the guidance law needs a positive time to go; on the final
        // steps the loop keeps it at the tenth-of-a-second floor
        let gui_tgo: i64 = if tgo < 100_000 { 100_000 } else { tgo };

        let sensors: SensorsValues = sim.read_sensors();
        let ghost pre_sc = sc.cur;
        let ghost pre_sim = sim.cur;
        proof {
            assert(sensors == sensors_of_spec(conf, sim.cur));
            lemma_run_spec_step(conf, sc.cur, sim.cur, tgo_in, n, tgo as int,
                gui_tgo as int);
        }
        let step: Option<ActuatorsValues> = land_step_light(&mut sc, sensors,
            Time { raw: gui_tgo });
        let acts: ActuatorsValues = match step {
            Some(a) => a,
            None => {
                proof {
                    assert(target == (sc.cur, sim.cur, true));
                }
                return LandingOutcome { craft: sc, plant: sim, success: false,
                    aborted: true };
            },
        };
        sim_step_light(&mut sim, acts);

        if !(sc.check_state() && sc.cur.ok_exec()) {
            proof {
                assert(target == (sc.cur, sim.cur, true));
            }
            return LandingOutcome { craft: sc, plant: sim, success: false, aborted: true };
        }

        if tgo < conf.s.tgo_stop.raw {
            proof {
                assert(target == (sc.cur, sim.cur, false));
            }
            break;
        }
        tgo = tgo - sensors.dt_step.raw;
        if tgo < -4_000_000_000i64 {
            tgo = -4_000_000_000i64;
        }
        i = i + 1;
    }

    let success: bool = has_softly_landed(&sc);
    LandingOutcome { craft: sc, plant: sim, success, aborted: false }
}

} // verus!
