//! Navigation, guidance, the time-to-go estimator, the landing
//! classifier, and the two closed-loop missions: the lunar descent and
//! the ascent to orbit.

use moon_lander::body::Body;
use moon_lander::conf::{Conf, CtrSpacecraft, GuiSpacecraft, Scenario, SubCommand, TgoEstimate};
use moon_lander::driver::run_sim;
use moon_lander::guidance::gui_descent;
use moon_lander::nav::nav;
use moon_lander::spacecraft::Spacecraft;
use moon_lander::state::{SensorsValues, SpacecraftDynamic};
use moon_lander::tgo::{has_softly_landed, tgo_estimate, tgo_estimate_iters};
use moon_lander::trig::{PI_HALF_NANO, PI_NANO};
use moon_lander::units::{
    Acceleration, AngAcc, AngVel, Angle, Density, Force, Length, Mass, MassRate, Pressure,
    Ratio, Time, Vec2, Velocity, MICRO, NANO,
};

fn moon() -> Body {
    Body {
        radius: Length { raw: 1_737_400 * MICRO },
        mu: 4_904_869_500_000,
        atm_r0: Density { raw: 0 },
        atm_p0: Pressure { raw: 0 },
        atm_a: Length { raw: MICRO },
    }
}

/// The descent scenario: a lander released at 15 km on a 1 673 m/s
/// orbital track, steering to a site 430 km downrange.
fn apollo_descent() -> Scenario {
    let mut s = Scenario {
        body: moon(),
        initial_sc_pos: Vec2 { x: Length { raw: 0 }, y: Length { raw: 15_000 * MICRO } },
        initial_sc_vel: Vec2 {
            x: Velocity { raw: 1_673 * MICRO },
            y: Velocity { raw: 0 },
        },
        initial_sc_ang_pos: Angle { raw: PI_NANO },
        initial_sc_fuel_mass: Mass { raw: 8_400 * MICRO },
        sc_width: Length { raw: 4 * MICRO },
        sc_height: Length { raw: 8 * MICRO },
        sc_dry_mass: Mass { raw: 6_800 * MICRO },
        sc_cd: Ratio { raw: NANO },
        sc_nominal_thrust: Force { raw: 45_000 * MICRO },
        sc_nominal_isp: Time { raw: 311 * MICRO },
        sc_nominal_mass_flow: MassRate { raw: 16_000_000 },
        gui_af_x: Acceleration { raw: 0 },
        gui_vf_x: Velocity { raw: 0 },
        gui_pf_x: Length { raw: 430_000 * MICRO },
        gui_af_y: Acceleration { raw: 0 },
        gui_vf_y: Velocity { raw: 0 },
        gui_pf_y: Length { raw: 0 },
        ctr_eng_gimbal_tau: Time { raw: 2 * MICRO },
        ctr_eng_gimbal_kp: None,
        ctr_eng_gimbal_kd: None,
        ctr_eng_gimbal_pos_max: Angle { raw: 69_813_170 },
        ctr_eng_gimbal_vel_max: AngVel { raw: 17_453_293 },
        tgo_method: TgoEstimate::TgoEstimateFixed,
        tgo_init: Time { raw: 0 },
        tgo_thrust_mul: Ratio { raw: 800_000_000 },
        tgo_stop: Time { raw: 2 * MICRO },
        gui_spacecraft: GuiSpacecraft::GuiDescent,
        ctr_spacecraft: CtrSpacecraft::CtrSpacecraftDescent,
    };
    s.derive_gains();
    s
}

/// The ascent scenario: from the pad to a 15 km circular track.
fn lunar_ascent() -> Scenario {
    let mut s = apollo_descent();
    s.initial_sc_pos = Vec2 { x: Length { raw: 0 }, y: Length { raw: 0 } };
    s.initial_sc_vel = Vec2 { x: Velocity { raw: 0 }, y: Velocity { raw: 0 } };
    s.initial_sc_ang_pos = Angle { raw: PI_HALF_NANO };
    s.gui_vf_x = Velocity { raw: 1_673 * MICRO };
    s.gui_pf_x = Length { raw: 0 };
    s.gui_af_y = Acceleration { raw: 100_000 };
    s.gui_pf_y = Length { raw: 15_000 * MICRO };
    s.tgo_method = TgoEstimate::TgoGivenFixed;
    s.tgo_init = Time { raw: 470 * MICRO };
    s.tgo_stop = Time { raw: 15 * MICRO };
    s.gui_spacecraft = GuiSpacecraft::GuiAscentToOrbit;
    s.ctr_spacecraft = CtrSpacecraft::CtrSpacecraftAscentToOrbit;
    s.derive_gains();
    s
}

fn sim_conf(s: Scenario) -> Conf {
    Conf::new(SubCommand::Sim, Time { raw: 100_000 }, Time { raw: 0 }, s)
}

fn sensors(ax: i64, ay: i64) -> SensorsValues {
    SensorsValues {
        dt_step: Time { raw: MICRO },
        spacecraft_acc: Vec2 {
            x: Acceleration { raw: ax },
            y: Acceleration { raw: ay },
        },
        spacecraft_ang_acc: AngAcc { raw: 0 },
        spacecraft_altitude: None,
    }
}

#[test]
fn test_nav_1() {
    let conf = Conf::new(
        SubCommand::Sim,
        Time { raw: MICRO },
        Time { raw: MICRO },
        apollo_descent(),
    );
    let mut sc = Spacecraft::new(conf);
    sc.cur.pos.x = Length { raw: 0 };

    nav(&mut sc, &sensors(MICRO, 2 * MICRO));
    assert_eq!(sc.cur.acc.x.raw, MICRO);
    assert_eq!(sc.cur.vel.x.raw, (1_673 + 1) * MICRO);
    assert_eq!(sc.cur.pos.x.raw, (1_673 + 1) * MICRO);
    assert_eq!(sc.cur.acc.y.raw, 2 * MICRO);
    assert_eq!(sc.cur.vel.y.raw, 2 * MICRO);
    assert_eq!(sc.cur.pos.y.raw, (15_000 + 2) * MICRO);

    nav(&mut sc, &sensors(3 * MICRO, 4 * MICRO));
    assert_eq!(sc.cur.acc.x.raw, 3 * MICRO);
    assert_eq!(sc.cur.vel.x.raw, (1_673 + 1 + 3) * MICRO);
    assert_eq!(sc.cur.pos.x.raw, (1_673 + 1 + 1_673 + 1 + 3) * MICRO);
    assert_eq!(sc.cur.acc.y.raw, 4 * MICRO);
    assert_eq!(sc.cur.vel.y.raw, (2 + 4) * MICRO);
    assert_eq!(sc.cur.pos.y.raw, (15_000 + 2 + 2 + 4) * MICRO);
}

#[test]
fn test_gui_1() {
    // the descent law on a lander 1 km up, drifting at 10 m/s
    let mut scenario = apollo_descent();
    scenario.gui_pf_x = Length { raw: 0 };
    let mut sc = Spacecraft::new(sim_conf(scenario));
    sc.cur.vel = Vec2 { x: Velocity { raw: 10 * MICRO }, y: Velocity { raw: 0 } };
    sc.cur.pos = Vec2 { x: Length { raw: 0 }, y: Length { raw: 1_000 * MICRO } };
    let acc = gui_descent(&sc, Time { raw: 100 * MICRO });
    // x: -6 v / tgo = -0.6 m/s^2 ; y: 12 (pf - p) / tgo^2 = -1.2 m/s^2
    assert_eq!(acc.x.raw, -600_000);
    assert_eq!(acc.y.raw, -1_200_000);
}

#[test]
fn nav_constant_acceleration_closed_form() {
    // ten one-second steps of constant (1, 2) m/s^2
    let mut sc = Spacecraft::new(sim_conf(apollo_descent()));
    sc.cur.pos.x = Length { raw: 0 };
    for _ in 0..10 {
        nav(&mut sc, &sensors(MICRO, 2 * MICRO));
    }
    // v = v0 + n a ; p = p0 + n v0 + a n (n + 1) / 2
    assert_eq!(sc.cur.vel.x.raw, (1_673 + 10) * MICRO);
    assert_eq!(sc.cur.pos.x.raw, (10 * 1_673 + 55) * MICRO);
    assert_eq!(sc.cur.vel.y.raw, 20 * MICRO);
    assert_eq!(sc.cur.pos.y.raw, (15_000 + 110) * MICRO);
}

#[test]
fn fuel_mass_never_increases() {
    let mut sc = Spacecraft::new(sim_conf(apollo_descent()));
    sc.cur.eng_throttle = Ratio { raw: NANO };
    let mut last = sc.cur.fuel_mass.raw;
    for _ in 0..50 {
        nav(&mut sc, &sensors(0, 0));
        assert!(sc.cur.fuel_mass.raw <= last);
        assert!(sc.cur.fuel_mass.raw >= 0);
        last = sc.cur.fuel_mass.raw;
    }
    // full throttle burns exactly the nominal flow each second
    assert_eq!(last, 8_400 * MICRO - 50 * 16_000_000);
}

#[test]
fn tgo_five_passes_settle_within_one_percent() {
    let sc = Spacecraft::new(sim_conf(apollo_descent()));
    let zero = Velocity { raw: 0 };
    let mul = Ratio { raw: 800_000_000 };
    let t5 = tgo_estimate(&sc, zero, zero, mul);
    let t10 = tgo_estimate_iters(&sc, zero, zero, mul, 10);
    assert!(t5.raw > 0);
    assert!((t5.raw - t10.raw).abs() <= t10.raw / 100);
    // around 640 seconds for this scenario
    assert!(600 * MICRO < t5.raw && t5.raw < 700 * MICRO);
}

#[test]
fn landing_classifier_needs_all_five_conjuncts() {
    let mut sc = Spacecraft::new(sim_conf(apollo_descent()));
    let soft = SpacecraftDynamic {
        pos: Vec2 { x: Length { raw: 0 }, y: Length { raw: MICRO / 2 } },
        vel: Vec2 { x: Velocity { raw: 100_000 }, y: Velocity { raw: -100_000 } },
        eng_throttle: Ratio { raw: 200_000_000 },
        ang_pos: Angle { raw: 1_600_000_000 },
        ..sc.cur
    };
    sc.cur = soft;
    assert!(has_softly_landed(&sc));

    sc.cur = SpacecraftDynamic { pos: Vec2 { y: Length { raw: MICRO }, ..soft.pos }, ..soft };
    assert!(!has_softly_landed(&sc));
    sc.cur = SpacecraftDynamic {
        vel: Vec2 { y: Velocity { raw: 200_000 }, ..soft.vel },
        ..soft
    };
    assert!(!has_softly_landed(&sc));
    sc.cur = SpacecraftDynamic {
        vel: Vec2 { x: Velocity { raw: MICRO }, ..soft.vel },
        ..soft
    };
    assert!(!has_softly_landed(&sc));
    sc.cur = SpacecraftDynamic { eng_throttle: Ratio { raw: 300_000_000 }, ..soft };
    assert!(!has_softly_landed(&sc));
    sc.cur = SpacecraftDynamic { ang_pos: Angle { raw: 1_745_329_251 }, ..soft };
    assert!(!has_softly_landed(&sc));
}

#[test]
fn apollo_descent_lands_softly() {
    let outcome = run_sim(sim_conf(apollo_descent()), 1_000_000);
    assert!(!outcome.aborted);
    assert!(outcome.success);
    let cur = outcome.craft.cur;
    // under a metre, under a metre per second on both axes
    assert!(cur.pos.y.raw.abs() < MICRO);
    assert!(cur.vel.x.raw.abs() < MICRO);
    assert!(cur.vel.y.raw.abs() < MICRO);
    // total impulse about 1 900 m/s, within ten percent
    assert!(1_710 * MICRO <= cur.dv.raw && cur.dv.raw <= 2_090 * MICRO);
    // the history holds every step
    assert!(outcome.craft.all.len() > 6_000);
}

#[test]
fn lunar_ascent_reaches_orbital_speed_with_fuel_left() {
    let outcome = run_sim(sim_conf(lunar_ascent()), 1_000_000);
    assert!(!outcome.aborted);
    let cur = outcome.craft.cur;
    // close to the 1 673 m/s circular speed at 15 km, with margin
    assert!(cur.vel.x.raw > 1_600 * MICRO);
    assert!((cur.pos.y.raw - 15_000 * MICRO).abs() < 1_000 * MICRO);
    assert!(cur.fuel_mass.raw > 500 * MICRO);
}

#[test]
fn run_aborts_when_the_step_budget_runs_out() {
    // three steps are nowhere near touchdown: the run must abort, not
    // report an outcome
    let outcome = run_sim(sim_conf(apollo_descent()), 3);
    assert!(outcome.aborted);
    assert!(!outcome.success);
    // the three steps did run: the histories hold them
    assert_eq!(outcome.craft.all.len(), 3);
    assert_eq!(outcome.plant.all.len(), 3);
}

#[test]
fn gravity_and_atmosphere_models() {
    let body = moon();
    // lunar surface gravity, 1.62 m/s^2
    let g = body.gravity(Length { raw: 0 });
    assert!((g.raw - 1_625_000).abs() < 5_000);
    // orbital speed cancels gravity through the centrifugal term
    let c = body.centrifugal(Velocity { raw: 1_673 * MICRO }, Length { raw: 15_000 * MICRO });
    let g15 = body.gravity(Length { raw: 15_000 * MICRO });
    assert!((c.raw - g15.raw).abs() < 10_000);
    // an airless body has no density at any altitude
    assert_eq!(body.atmosphere_density(Length { raw: 500 * MICRO }).raw, 0);

    let earth_air = Body {
        radius: Length { raw: 6_371_000 * MICRO },
        mu: 398_600_441_800_000,
        atm_r0: Density { raw: 1_225_000 },
        atm_p0: Pressure { raw: 101_325 * MICRO },
        atm_a: Length { raw: 8_420 * MICRO },
    };
    // density falls to 1/e at one scale height
    let rho = earth_air.atmosphere_density(Length { raw: 8_420 * MICRO });
    assert!((rho.raw - 450_636).abs() < 1_000);
}
