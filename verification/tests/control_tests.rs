//! The translation and angular controller behaviour on concrete
//! commands: quadrant attitudes, thrust saturation, gain linearity and
//! the gimbal rate and position limits.

use moon_lander::body::Body;
use moon_lander::conf::{Conf, CtrSpacecraft, GuiSpacecraft, Scenario, SubCommand, TgoEstimate};
use moon_lander::control::{control_angular, control_translation, ctr};
use moon_lander::spacecraft::Spacecraft;
use moon_lander::trig::{PI_HALF_NANO, PI_NANO, PI_QUARTER_NANO};
use moon_lander::units::{
    Acceleration, AngVel, Angle, Force, Length, Mass, MassRate, Ratio, Time, Vec2, MICRO, NANO,
};

const DEG_NANO: i64 = 17_453_293;

fn acc2(x: i64, y: i64) -> Vec2<Acceleration> {
    Vec2 { x: Acceleration { raw: x }, y: Acceleration { raw: y } }
}

/// A bench scenario for the angular cascade: the inertia and lever arm
/// are chosen so the gimbal sine is `0.025` of the attitude error at
/// 20 kN (and `0.05` at 10 kN), with `k_p = 2.25`, `k_d = 0`.
fn bench_scenario(thrust_n: i64) -> Scenario {
    Scenario {
        body: Body {
            radius: Length { raw: 1_737_400 * MICRO },
            mu: 4_904_869_500_000,
            atm_r0: moon_lander::units::Density { raw: 0 },
            atm_p0: moon_lander::units::Pressure { raw: 0 },
            atm_a: Length { raw: MICRO },
        },
        initial_sc_pos: Vec2 { x: Length { raw: 0 }, y: Length { raw: 15_000 * MICRO } },
        initial_sc_vel: Vec2 {
            x: moon_lander::units::Velocity { raw: 0 },
            y: moon_lander::units::Velocity { raw: 0 },
        },
        initial_sc_ang_pos: Angle { raw: 0 },
        initial_sc_fuel_mass: Mass { raw: 0 },
        sc_width: Length { raw: 2 * MICRO },
        sc_height: Length { raw: 4_500_000 },
        sc_dry_mass: Mass { raw: 1_000 * MICRO },
        sc_cd: Ratio { raw: NANO },
        sc_nominal_thrust: Force { raw: thrust_n * MICRO },
        sc_nominal_isp: Time { raw: 311 * MICRO },
        sc_nominal_mass_flow: MassRate { raw: 14_750_000 },
        gui_af_x: Acceleration { raw: 0 },
        gui_vf_x: moon_lander::units::Velocity { raw: 0 },
        gui_pf_x: Length { raw: 0 },
        gui_af_y: Acceleration { raw: 0 },
        gui_vf_y: moon_lander::units::Velocity { raw: 0 },
        gui_pf_y: Length { raw: 0 },
        ctr_eng_gimbal_tau: Time { raw: 2 * MICRO },
        ctr_eng_gimbal_kp: Some(Ratio { raw: 2_250_000_000 }),
        ctr_eng_gimbal_kd: Some(Time { raw: 0 }),
        ctr_eng_gimbal_pos_max: Angle { raw: 4 * DEG_NANO - 2 },
        ctr_eng_gimbal_vel_max: AngVel { raw: DEG_NANO },
        tgo_method: TgoEstimate::TgoGivenFixed,
        tgo_init: Time { raw: 100 * MICRO },
        tgo_thrust_mul: Ratio { raw: 800_000_000 },
        tgo_stop: Time { raw: 2 * MICRO },
        gui_spacecraft: GuiSpacecraft::GuiDescent,
        ctr_spacecraft: CtrSpacecraft::CtrSpacecraftDescent,
    }
}

fn gimbal(conf: &Scenario, ctr_ang: i64, mass_kg: i64, thrust_n: i64, gimbal_cur: i64) -> i64 {
    control_angular(
        conf,
        Time { raw: MICRO },
        Angle { raw: ctr_ang },
        Mass { raw: mass_kg * MICRO },
        Force { raw: thrust_n * MICRO },
        Angle { raw: 0 },
        AngVel { raw: 0 },
        Angle { raw: gimbal_cur },
    )
    .raw
}

#[test]
fn test_gui_1_spacecraft_angle() {
    let mass = Mass { raw: 1_000 * MICRO };
    let thrust = Force { raw: 20_000 * MICRO };

    let (_t, a) = control_translation(acc2(10 * MICRO, 0), mass, thrust);
    assert_eq!(a.raw, 0);

    let (_t, a) = control_translation(acc2(7_071_068, 7_071_068), mass, thrust);
    assert_eq!(a.raw, PI_QUARTER_NANO);

    let (_t, a) = control_translation(acc2(0, 10 * MICRO), mass, thrust);
    assert_eq!(a.raw, PI_HALF_NANO);

    let (_t, a) = control_translation(acc2(-7_071_068, 7_071_068), mass, thrust);
    assert_eq!(a.raw, PI_NANO - PI_QUARTER_NANO);

    let (_t, a) = control_translation(acc2(-10 * MICRO, 0), mass, thrust);
    assert_eq!(a.raw, PI_NANO);
}

#[test]
fn test_gui_2_spacecraft_thrust() {
    let mass = Mass { raw: 1_000 * MICRO };
    let thrust = Force { raw: 20_000 * MICRO };

    for (ax, expect_n) in [(10, 10_000), (20, 20_000), (30, 20_000)] {
        let (t, _a) = control_translation(acc2(ax * MICRO, 0), mass, thrust);
        assert_eq!(t.raw, expect_n * MICRO);
        let (t, _a) = control_translation(acc2(-ax * MICRO, 0), mass, thrust);
        assert_eq!(t.raw, expect_n * MICRO);
        let (t, _a) = control_translation(acc2(0, ax * MICRO), mass, thrust);
        assert_eq!(t.raw, expect_n * MICRO);
    }

    // a downward command lets gravity work: full thrust, nose down
    for ay in [10, 20, 30] {
        let (t, a) = control_translation(acc2(0, -ay * MICRO), mass, thrust);
        assert_eq!(t.raw, thrust.raw);
        assert_eq!(a.raw, PI_NANO);
    }
}

#[test]
fn test_gui_3_engine() {
    let eps_6 = 1_000i64;
    let eps_4 = 100_000i64;

    // 20 kN: the gimbal sine is 0.025 of the error
    let conf = bench_scenario(20_000);
    let gimbal_ref = gimbal(&conf, 10 * DEG_NANO, 1_000, 20_000, 0);
    assert!((gimbal_ref - 4_363_337).abs() <= eps_6);

    // linear in the error below the limits
    let g2 = gimbal(&conf, 20 * DEG_NANO, 1_000, 20_000, 0);
    assert!((g2 - 2 * gimbal_ref).abs() <= eps_6);
    let g3 = gimbal(&conf, 30 * DEG_NANO, 1_000, 20_000, 0);
    assert!((g3 - 3 * gimbal_ref).abs() <= eps_6);

    // the rate limit clips larger commands to one degree per second
    let g4 = gimbal(&conf, 40 * DEG_NANO, 1_000, 20_000, 0);
    assert!((g4 - DEG_NANO).abs() <= eps_6);
    let g5 = gimbal(&conf, 50 * DEG_NANO, 1_000, 20_000, 0);
    assert!((g5 - DEG_NANO).abs() <= eps_6);

    // 10 kN, starting from 3.5 degrees of gimbal
    let conf = bench_scenario(10_000);
    let cur = 61_086_524; // 3.5 degrees
    let gimbal_ref = gimbal(&conf, 70 * DEG_NANO, 1_000, 10_000, cur);
    assert!((gimbal_ref - cur).abs() <= eps_4);

    let quarter = 4_363_323; // 0.25 degrees
    for (deg, off) in [(60, -2i64), (65, -1), (75, 1)] {
        let g = gimbal(&conf, deg * DEG_NANO, 1_000, 10_000, cur);
        assert!((g - (gimbal_ref + off * quarter)).abs() <= eps_4);
    }
    let g70 = gimbal(&conf, 70 * DEG_NANO, 1_000, 10_000, cur);
    assert!((g70 - gimbal_ref).abs() <= eps_6);

    // the position limit holds the command at four degrees
    for deg in [80, 85, 90] {
        let g = gimbal(&conf, deg * DEG_NANO, 1_000, 10_000, cur);
        assert!((g - (gimbal_ref + 2 * quarter)).abs() <= eps_4);
        assert!(g <= conf.ctr_eng_gimbal_pos_max.raw);
    }
}

#[test]
fn test_gui_4_ctr() {
    // one full control pass on a spacecraft with a benign command
    let mut scenario = bench_scenario(20_000);
    scenario.initial_sc_fuel_mass = Mass { raw: 100 * MICRO };
    let conf = Conf::new(
        SubCommand::Sim,
        Time { raw: 100_000 },
        Time { raw: 0 },
        scenario,
    );
    let mut sc = Spacecraft::new(conf);
    sc.cur.gui = acc2(10 * MICRO, 0);
    sc.cur.dt = Time { raw: MICRO };
    let acts = ctr(&mut sc);
    // thrust 11 kN of 20 kN nominal; gimbal well inside its range
    assert_eq!(acts.engine_throttle.raw, 550_000_000);
    assert!(acts.engine_gimbal.raw.abs() <= NANO);
    assert_eq!(sc.cur.eng_throttle.raw, acts.engine_throttle.raw);
    assert_eq!(sc.cur.eng_gimbal.raw, acts.engine_gimbal.raw);
}

#[test]
fn gimbal_position_limit_always_holds() {
    // the command never leaves the configured position range
    let conf = bench_scenario(20_000);
    for deg in [-170i64, -90, -40, -10, 0, 10, 40, 90, 170] {
        let g = gimbal(&conf, deg * DEG_NANO, 1_000, 20_000, 0);
        assert!(g.abs() <= conf.ctr_eng_gimbal_pos_max.raw);
    }
}

#[test]
fn gimbal_rate_limit_between_steps() {
    // two successive commands never differ by more than vel_max * dt
    let conf = bench_scenario(20_000);
    let step = conf.ctr_eng_gimbal_vel_max.raw; // dt is one second
    let mut cur = 0i64;
    for deg in [40i64, 90, -90, 40, -40, 0] {
        let g = gimbal(&conf, deg * DEG_NANO, 1_000, 10_000, cur);
        assert!((g - cur).abs() <= step);
        cur = g;
    }
}

#[test]
fn gimbal_command_doubles_at_half_thrust() {
    // the gimbal solve divides by the commanded thrust: the same
    // attitude error needs twice the gimbal sine at half the thrust
    let conf = bench_scenario(20_000);
    let g_full = gimbal(&conf, 2 * DEG_NANO, 1_000, 20_000, 0);
    let g_half = gimbal(&conf, 2 * DEG_NANO, 1_000, 10_000, 0);
    assert!((g_half - 2 * g_full).abs() <= 1_000);
}

#[test]
fn translation_thrust_is_min_of_wanted_and_nominal() {
    // thrust equals min(m * |a|, F) exactly on a 3-4-5 command
    let mass = Mass { raw: 1_000 * MICRO };
    let thrust = Force { raw: 20_000 * MICRO };
    let (t, _a) = control_translation(acc2(3 * MICRO, 4 * MICRO), mass, thrust);
    assert_eq!(t.raw, 5_000 * MICRO);
}
