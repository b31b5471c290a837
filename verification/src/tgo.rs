//! The time-to-go estimator — a fixed-point iteration over the rocket
//! equation — and the soft-landing classifier.

use vstd::prelude::*;
use crate::fixed::{tdiv, iabs, sat, div_trunc, wide_mul, mul_wide, sat_i128};
use crate::fixed::{lemma_tdiv_bound, lemma_tdiv_nonneg, lemma_tdiv_abs_le};
use crate::conf::Scenario;
use crate::expfn::{exp_neg_spec, exp_neg_nano};
use crate::spacecraft::Spacecraft;
use crate::state::SpacecraftDynamic;
use crate::units::{Time, Velocity, Ratio, MICRO, NANO};

verus! {

/// Standard gravity, in micro-units: the reference acceleration of the
/// specific impulse.
pub const G0_MICRO: i64 = 9_806_000;

/// Nanoradian image of the 100 degree attitude ceiling of the landing
/// classifier.
pub const SOFT_LANDING_ANG_NANO: i64 = 1_745_329_251;

/// One pass of the fixed-point iteration: the mean gravity loss over
/// the burn, the over-estimated total velocity change, and the burn
/// time the rocket equation assigns to it, capped at one hour.
pub open spec fn tgo_step_spec(conf: Scenario, cur: SpacecraftDynamic, vxf: int, vyf: int,
    thrust_mul: int, tgo: int) -> int {
    let mass = conf.sc_dry_mass.raw + cur.fuel_mass.raw;
    let dv_x = cur.vel.x.raw - vxf;
    let dv_y_vel = cur.vel.y.raw - vyf;
    let grav = conf.body.gravity_spec(cur.pos.y.raw as int) - tdiv(
        cur.vel.x.raw * cur.vel.x.raw,
        3 * conf.body.radius.raw,
    );
    let dv_y_gravity = tdiv(tgo * grav, MICRO as int);
    let dv = iabs(dv_x) + iabs(dv_y_gravity - dv_y_vel);
    let epow = tdiv(dv * NANO * MICRO, conf.sc_nominal_isp.raw * G0_MICRO);
    let e = exp_neg_spec(epow);
    sat(
        tdiv((mass * (NANO - e)) * MICRO, conf.sc_nominal_mass_flow.raw * thrust_mul),
        0,
        3_600_000_000,
    )
}

/// The estimate after `n` passes, starting from zero.
pub open spec fn tgo_iters_spec(conf: Scenario, cur: SpacecraftDynamic, vxf: int, vyf: int,
    thrust_mul: int, n: nat) -> int
    decreases n,
{
    if n == 0 {
        0
    } else {
        tgo_step_spec(conf, cur, vxf, vyf, thrust_mul,
            tgo_iters_spec(conf, cur, vxf, vyf, thrust_mul, (n - 1) as nat))
    }
}

/// The ranges the estimator needs of the state.
pub open spec fn tgo_ranges(conf: Scenario, cur: SpacecraftDynamic) -> bool {
    &&& conf.wf()
    &&& 0 <= cur.fuel_mass.raw <= 100_000_000_000i64
    &&& iabs(cur.vel.x.raw as int) <= 21_000_000_000i64
    &&& iabs(cur.vel.y.raw as int) <= 12_000_000_000i64
    &&& -40_000_000_000i64 <= cur.pos.y.raw <= 1_100_000_000_000i64
}

/// Run the estimator for a chosen number of passes.
pub fn tgo_estimate_iters(craft: &Spacecraft, final_vel_x_goal: Velocity,
    final_vel_y_goal: Velocity, thrust_mul: Ratio, passes: u64) -> (r: Time)
    requires
        tgo_ranges(craft.conf.s, craft.cur),
        iabs(final_vel_x_goal.raw as int) <= 10_000_000_000i64,
        iabs(final_vel_y_goal.raw as int) <= 10_000_000_000i64,
        1 <= thrust_mul.raw <= NANO,
        passes <= 100,
    ensures
        r.raw == tgo_iters_spec(craft.conf.s, craft.cur, final_vel_x_goal.raw as int,
            final_vel_y_goal.raw as int, thrust_mul.raw as int, passes as nat),
        0 <= r.raw <= 3_600_000_000i64,
        r.raw <= tdiv(
            ((craft.conf.s.sc_dry_mass.raw + craft.cur.fuel_mass.raw) * NANO) * MICRO,
            craft.conf.s.sc_nominal_mass_flow.raw * thrust_mul.raw,
        ),
{
    let conf = craft.conf.s;
    let cur = craft.cur;
    let mass: i64 = conf.sc_dry_mass.raw + cur.fuel_mass.raw;
    let dv_x: i64 = cur.vel.x.raw - final_vel_x_goal.raw;
    let dv_y_vel: i64 = cur.vel.y.raw - final_vel_y_goal.raw;
    let g: i64 = conf.body.gravity(cur.pos.y).raw;
    proof {
        assert(0 <= (cur.vel.x.raw as int) * (cur.vel.x.raw as int)
            <= 441_000_000_000_000_000_000int) by (nonlinear_arith)
            requires
                iabs(cur.vel.x.raw as int) <= 21_000_000_000i64,
        ;
        lemma_tdiv_nonneg((cur.vel.x.raw as int) * (cur.vel.x.raw as int),
            3 * conf.body.radius.raw);
        lemma_tdiv_abs_le((cur.vel.x.raw as int) * (cur.vel.x.raw as int),
            3 * conf.body.radius.raw, 441_000_000_000_000_000_000int, 300_000_000_000i64 as int);
    }
    let vv: i64 = div_trunc(wide_mul(cur.vel.x.raw, cur.vel.x.raw),
        3 * (conf.body.radius.raw as i128)) as i64;
    let grav: i64 = g - vv;
    assert(iabs(grav as int) <= 1_800_000_000i64);

    let ghost rocket_cap = tdiv(((conf.sc_dry_mass.raw + cur.fuel_mass.raw) * NANO) * MICRO,
        conf.sc_nominal_mass_flow.raw * thrust_mul.raw);
    proof {
        vstd::arithmetic::mul::lemma_mul_nonnegative(
            (conf.sc_dry_mass.raw + cur.fuel_mass.raw) as int, NANO as int);
        vstd::arithmetic::mul::lemma_mul_nonnegative(
            (conf.sc_dry_mass.raw + cur.fuel_mass.raw) * NANO, MICRO as int);
        assert(1 <= (conf.sc_nominal_mass_flow.raw as int) * (thrust_mul.raw as int))
            by (nonlinear_arith)
            requires
                1_000 <= conf.sc_nominal_mass_flow.raw,
                1 <= thrust_mul.raw,
        ;
        lemma_tdiv_nonneg(((conf.sc_dry_mass.raw + cur.fuel_mass.raw) * NANO) * MICRO,
            (conf.sc_nominal_mass_flow.raw as int) * (thrust_mul.raw as int));
    }
    let mut tgo: i64 = 0;
    let mut i: u64 = 0;
    while i < passes
        invariant
            0 <= i <= passes,
            passes <= 100,
            0 <= tgo <= 3_600_000_000i64,
            rocket_cap == tdiv(((conf.sc_dry_mass.raw + cur.fuel_mass.raw) * NANO) * MICRO,
                conf.sc_nominal_mass_flow.raw * thrust_mul.raw),
            tgo <= rocket_cap,
            0 <= rocket_cap,
            conf == craft.conf.s,
            cur == craft.cur,
            tgo == tgo_iters_spec(conf, cur, final_vel_x_goal.raw as int,
                final_vel_y_goal.raw as int, thrust_mul.raw as int, i as nat),
            mass == conf.sc_dry_mass.raw + cur.fuel_mass.raw,
            dv_x == cur.vel.x.raw - final_vel_x_goal.raw,
            dv_y_vel == cur.vel.y.raw - final_vel_y_goal.raw,
            g == conf.body.gravity_spec(cur.pos.y.raw as int),
            vv == tdiv((cur.vel.x.raw as int) * (cur.vel.x.raw as int),
                3 * conf.body.radius.raw),
            grav == g - vv,
            iabs(grav as int) <= 1_800_000_000i64,
            iabs(dv_x as int) <= 31_000_000_000i64,
            iabs(dv_y_vel as int) <= 22_000_000_000i64,
            tgo_ranges(conf, cur),
            1 <= thrust_mul.raw <= NANO,
        decreases passes - i,
    {
        proof {
            assert(iabs((tgo as int) * (grav as int)) <= 6_480_000_000_000_000_000int)
                by (nonlinear_arith)
                requires
                    0 <= tgo <= 3_600_000_000i64,
                    iabs(grav as int) <= 1_800_000_000i64,
            ;
            lemma_tdiv_bound((tgo as int) * (grav as int), MICRO as int,
                6_480_000_000_000_000_000int);
        }
        let dv_y_gravity: i64 = div_trunc(wide_mul(tgo, grav), MICRO as i128) as i64;
        let d2: i64 = dv_y_gravity - dv_y_vel;
        let dv: i64 = (if dv_x < 0 { -dv_x } else { dv_x })
            + (if d2 < 0 { -d2 } else { d2 });
        assert(0 <= dv <= 6_533_000_000_000i64);
        proof {
            vstd::arithmetic::mul::lemma_mul_nonnegative(dv as int, NANO as int);
            vstd::arithmetic::mul::lemma_mul_nonnegative((dv as int) * (NANO as int),
                MICRO as int);
            assert((dv as int) * (NANO as int) <= 6_533_000_000_000_000_000_000_000int)
                by (nonlinear_arith)
                requires
                    0 <= dv <= 6_533_000_000_000i64,
            ;
            assert(MICRO * (MICRO as int) <= (conf.sc_nominal_isp.raw as int) * G0_MICRO
                && (conf.sc_nominal_isp.raw as int) * G0_MICRO
                    <= 98_060_000_000_000_000int) by (nonlinear_arith)
                requires
                    MICRO <= conf.sc_nominal_isp.raw <= 10_000_000_000i64,
                    G0_MICRO == 9_806_000i64,
                    MICRO == 1_000_000i64,
            ;
            assert((dv as int) * (NANO as int) * (MICRO as int)
                <= 6_533_000_000_000_000_000_000_000_000_000int) by (nonlinear_arith)
                requires
                    0 <= (dv as int) * (NANO as int) <= 6_533_000_000_000_000_000_000_000int,
            ;
            lemma_tdiv_abs_le((dv as int) * (NANO as int) * (MICRO as int),
                (conf.sc_nominal_isp.raw as int) * G0_MICRO,
                6_533_000_000_000_000_000_000_000_000_000int, MICRO * (MICRO as int));
        }
        let en: i128 = mul_wide(wide_mul(dv, NANO), MICRO as i128);
        let ed: i128 = wide_mul(conf.sc_nominal_isp.raw, G0_MICRO);
        let epow: i64 = div_trunc(en, ed) as i64;
        let e: i64 = exp_neg_nano(epow);
        proof {
            vstd::arithmetic::mul::lemma_mul_nonnegative(mass as int, NANO - e as int);
            assert((mass as int) * (NANO - e as int) <= 200_000_000_000_000_000_000int)
                by (nonlinear_arith)
                requires
                    0 <= mass <= 200_000_000_000i64,
                    0 <= NANO - e <= NANO,
            ;
            vstd::arithmetic::mul::lemma_mul_nonnegative(
                (mass as int) * (NANO - e as int), MICRO as int);
            assert((mass as int) * (NANO - e as int) * (MICRO as int)
                <= 200_000_000_000_000_000_000_000_000int) by (nonlinear_arith)
                requires
                    0 <= (mass as int) * (NANO - e as int) <= 200_000_000_000_000_000_000int,
            ;
            assert(1 <= (conf.sc_nominal_mass_flow.raw as int) * (thrust_mul.raw as int))
                by (nonlinear_arith)
                requires
                    1_000 <= conf.sc_nominal_mass_flow.raw,
                    1 <= thrust_mul.raw,
            ;
            lemma_tdiv_nonneg((mass as int) * (NANO - e as int) * (MICRO as int),
                (conf.sc_nominal_mass_flow.raw as int) * (thrust_mul.raw as int));
        }
        proof {
            assert(0 <= (mass as int) * (NANO - e as int)
                && (mass as int) * (NANO - e as int) <= (mass as int) * (NANO as int))
                by (nonlinear_arith)
                requires
                    0 <= mass,
                    0 <= e <= NANO,
            ;
            assert((mass as int) * (NANO - e as int) * (MICRO as int)
                <= (mass as int) * (NANO as int) * (MICRO as int)
                && 0 <= (mass as int) * (NANO as int) * (MICRO as int)) by (nonlinear_arith)
                requires
                    0 <= (mass as int) * (NANO - e as int) <= (mass as int) * (NANO as int),
                    0 < MICRO,
            ;
            crate::fixed::lemma_tdiv_le((mass as int) * (NANO - e as int) * (MICRO as int),
                (mass as int) * (NANO as int) * (MICRO as int),
                (conf.sc_nominal_mass_flow.raw as int) * (thrust_mul.raw as int));
        }
        let tn: i128 = mul_wide(wide_mul(mass, NANO - e), MICRO as i128);
        let td: i128 = wide_mul(conf.sc_nominal_mass_flow.raw, thrust_mul.raw);
        tgo = sat_i128(div_trunc(tn, td), 0, 3_600_000_000);
        i = i + 1;
    }
    Time { raw: tgo }
}

/// Estimate the burn time to the terminal velocity with five passes of
/// the fixed point; five are enough for the estimate to settle.
pub fn tgo_estimate(craft: &Spacecraft, final_vel_x_goal: Velocity,
    final_vel_y_goal: Velocity, thrust_mul: Ratio) -> (r: Time)
    requires
        tgo_ranges(craft.conf.s, craft.cur),
        iabs(final_vel_x_goal.raw as int) <= 10_000_000_000i64,
        iabs(final_vel_y_goal.raw as int) <= 10_000_000_000i64,
        1 <= thrust_mul.raw <= NANO,
    ensures
        r.raw == tgo_iters_spec(craft.conf.s, craft.cur, final_vel_x_goal.raw as int,
            final_vel_y_goal.raw as int, thrust_mul.raw as int, 5),
        0 <= r.raw <= 3_600_000_000i64,
        r.raw <= tdiv(
            ((craft.conf.s.sc_dry_mass.raw + craft.cur.fuel_mass.raw) * NANO) * MICRO,
            craft.conf.s.sc_nominal_mass_flow.raw * thrust_mul.raw,
        ),
{
    tgo_estimate_iters(craft, final_vel_x_goal, final_vel_y_goal, thrust_mul, 5)
}

/// The five conjuncts of a soft landing.
pub open spec fn soft_landing_spec(cur: SpacecraftDynamic) -> bool {
    &&& cur.pos.y.raw < MICRO
    &&& cur.vel.y.raw < 200_000
    &&& cur.vel.x.raw < MICRO
    &&& cur.eng_throttle.raw < 300_000_000
    &&& cur.ang_pos.raw < SOFT_LANDING_ANG_NANO
}

/// The landing classifier: success exactly when the touchdown point,
/// both velocity components, the throttle and the attitude are all
/// below their ceilings.
pub fn has_softly_landed(craft: &Spacecraft) -> (r: bool)
    ensures
        r == soft_landing_spec(craft.cur),
{
    craft.cur.pos.y.raw < MICRO && craft.cur.vel.y.raw < 200_000
        && craft.cur.vel.x.raw < MICRO && craft.cur.eng_throttle.raw < 300_000_000
        && craft.cur.ang_pos.raw < SOFT_LANDING_ANG_NANO
}

} // verus!
