//! Run configuration: the immutable scenario, the derived controller
//! gains and the adaptor selection.

use vstd::prelude::*;
use crate::body::Body;
use crate::fixed::{tdiv, iabs, sat};
use crate::fixed::{lemma_tdiv_bound};
use crate::expfn::{pow_spec, pow_nano};
use crate::trig::PI_NANO;
use crate::units::{Time, Mass, Length, Velocity, Acceleration, Force, MassRate, Angle, AngVel, Ratio, Vec2, MICRO, NANO};

verus! {

/// Which adaptor drives the loop: the internal simulator or the
/// external bridge.
#[derive(Clone, Copy, PartialEq, Eq, Structural, Debug)]
pub enum SubCommand {
    Sim,
    Ksp,
}

/// How the time-to-go is obtained.
#[derive(Clone, Copy, PartialEq, Eq, Structural, Debug)]
pub enum TgoEstimate {
    TgoGivenFixed,
    TgoEstimateFixed,
    TgoEstimateUpdating,
}

/// Guidance profile.
#[derive(Clone, Copy, PartialEq, Eq, Structural, Debug)]
pub enum GuiSpacecraft {
    GuiDescent,
    GuiAscentToOrbit,
    GuiAscentToHover,
}

/// Control profile.
#[derive(Clone, Copy, PartialEq, Eq, Structural, Debug)]
pub enum CtrSpacecraft {
    CtrSpacecraftDescent,
    CtrSpacecraftAscentToOrbit,
    CtrSpacecraftAscentToHover,
}

/// Scale factor of the gain law `k_p = 4.224639 tau^-1.524106`.
pub const KP_SCALE_NANO: i64 = 4_224_639_000;

/// Exponent of the gain law for `k_p`, negated, in nano-units.
pub const KP_EXP_NEG_NANO: i64 = 1_524_106_000;

/// Scale factor of the gain law `k_d = -2.203941 tau^-0.759514`, in
/// microseconds (the gain carries a time dimension).
pub const KD_SCALE_MICRO: i64 = 2_203_941;

/// Exponent of the gain law for `k_d`, negated, in nano-units.
pub const KD_EXP_NEG_NANO: i64 = 759_514_000;

/// Immutable run configuration.
#[derive(Clone, Copy, PartialEq, Eq, Structural, Debug)]
pub struct Scenario {
    pub body: Body,
    pub initial_sc_pos: Vec2<Length>,
    pub initial_sc_vel: Vec2<Velocity>,
    pub initial_sc_ang_pos: Angle,
    pub initial_sc_fuel_mass: Mass,
    pub sc_width: Length,
    pub sc_height: Length,
    pub sc_dry_mass: Mass,
    /// Drag coefficient.
    pub sc_cd: Ratio,
    pub sc_nominal_thrust: Force,
    pub sc_nominal_isp: Time,
    pub sc_nominal_mass_flow: MassRate,
    pub gui_af_x: Acceleration,
    pub gui_vf_x: Velocity,
    pub gui_pf_x: Length,
    pub gui_af_y: Acceleration,
    pub gui_vf_y: Velocity,
    pub gui_pf_y: Length,
    /// Gimbal time constant from which the gains are derived.
    pub ctr_eng_gimbal_tau: Time,
    pub ctr_eng_gimbal_kp: Option<Ratio>,
    pub ctr_eng_gimbal_kd: Option<Time>,
    pub ctr_eng_gimbal_pos_max: Angle,
    pub ctr_eng_gimbal_vel_max: AngVel,
    pub tgo_method: TgoEstimate,
    /// Used only with `TgoGivenFixed`.
    pub tgo_init: Time,
    /// Expected average throttle of the estimated burn.
    pub tgo_thrust_mul: Ratio,
    /// The loop stops a few seconds before touchdown so the guidance law
    /// cannot diverge as the time-to-go approaches zero.
    pub tgo_stop: Time,
    pub gui_spacecraft: GuiSpacecraft,
    pub ctr_spacecraft: CtrSpacecraft,
}

impl Scenario {
    /// Machine-limit ranges on every field; they cover all physically
    /// sensible runs and keep every product of the pipeline inside the
    /// wide intermediates.
    pub open spec fn wf(self) -> bool {
        &&& self.body.wf()
        &&& iabs(self.initial_sc_pos.x.raw as int) <= 1_000_000_000_000i64
        &&& 0 <= self.initial_sc_pos.y.raw <= 1_000_000_000_000i64
        &&& iabs(self.initial_sc_vel.x.raw as int) <= 9_900_000_000i64
        &&& iabs(self.initial_sc_vel.y.raw as int) <= 900_000_000
        &&& iabs(self.initial_sc_ang_pos.raw as int) <= PI_NANO
        &&& 0 <= self.initial_sc_fuel_mass.raw <= 100_000_000_000i64
        &&& 10_000 <= self.sc_width.raw <= 100_000_000
        &&& 10_000 <= self.sc_height.raw <= 100_000_000
        &&& MICRO <= self.sc_dry_mass.raw <= 100_000_000_000i64
        &&& 0 <= self.sc_cd.raw <= 10 * (NANO as int)
        &&& MICRO <= self.sc_nominal_thrust.raw <= 1_000_000_000_000i64
        &&& MICRO <= self.sc_nominal_isp.raw <= 10_000_000_000i64
        &&& 1_000 <= self.sc_nominal_mass_flow.raw <= 10_000_000_000i64
        &&& iabs(self.gui_af_x.raw as int) <= 100 * MICRO
        &&& iabs(self.gui_vf_x.raw as int) <= 10_000_000_000i64
        &&& iabs(self.gui_pf_x.raw as int) <= 1_000_000_000_000i64
        &&& iabs(self.gui_af_y.raw as int) <= 100 * MICRO
        &&& iabs(self.gui_vf_y.raw as int) <= 10_000_000_000i64
        &&& iabs(self.gui_pf_y.raw as int) <= 1_000_000_000_000i64
        &&& 10_000 <= self.ctr_eng_gimbal_tau.raw <= 100_000_000
        &&& match self.ctr_eng_gimbal_kp {
            Some(kp) => iabs(kp.raw as int) <= 10_000_000_000_000i64,
            None => true,
        }
        &&& match self.ctr_eng_gimbal_kd {
            Some(kd) => iabs(kd.raw as int) <= 1_000_000_000i64,
            None => true,
        }
        &&& MICRO <= self.ctr_eng_gimbal_pos_max.raw <= 785_398_163
        &&& MICRO <= self.ctr_eng_gimbal_vel_max.raw <= 785_398_163
        &&& 0 <= self.tgo_init.raw <= 3_600_000_000i64
        &&& 1 <= self.tgo_thrust_mul.raw <= NANO
        &&& 0 <= self.tgo_stop.raw <= 3_600_000_000i64
    }

    /// The `wf` ranges as executable code, for a configuration loader
    /// to test before it derives the gains and hands the scenario to
    /// the verified pipeline.
    pub fn wf_exec(&self) -> (b: bool)
        ensures
            b == self.wf(),
    {
        self.body.wf_exec()
            && -1_000_000_000_000 <= self.initial_sc_pos.x.raw
            && self.initial_sc_pos.x.raw <= 1_000_000_000_000
            && 0 <= self.initial_sc_pos.y.raw && self.initial_sc_pos.y.raw <= 1_000_000_000_000
            && -9_900_000_000 <= self.initial_sc_vel.x.raw
            && self.initial_sc_vel.x.raw <= 9_900_000_000
            && -900_000_000 <= self.initial_sc_vel.y.raw
            && self.initial_sc_vel.y.raw <= 900_000_000
            && -PI_NANO <= self.initial_sc_ang_pos.raw
            && self.initial_sc_ang_pos.raw <= PI_NANO
            && 0 <= self.initial_sc_fuel_mass.raw
            && self.initial_sc_fuel_mass.raw <= 100_000_000_000
            && 10_000 <= self.sc_width.raw && self.sc_width.raw <= 100_000_000
            && 10_000 <= self.sc_height.raw && self.sc_height.raw <= 100_000_000
            && MICRO <= self.sc_dry_mass.raw && self.sc_dry_mass.raw <= 100_000_000_000
            && 0 <= self.sc_cd.raw && self.sc_cd.raw <= 10 * NANO
            && MICRO <= self.sc_nominal_thrust.raw
            && self.sc_nominal_thrust.raw <= 1_000_000_000_000
            && MICRO <= self.sc_nominal_isp.raw && self.sc_nominal_isp.raw <= 10_000_000_000
            && 1_000 <= self.sc_nominal_mass_flow.raw
            && self.sc_nominal_mass_flow.raw <= 10_000_000_000
            && -100 * MICRO <= self.gui_af_x.raw && self.gui_af_x.raw <= 100 * MICRO
            && -10_000_000_000 <= self.gui_vf_x.raw && self.gui_vf_x.raw <= 10_000_000_000
            && -1_000_000_000_000 <= self.gui_pf_x.raw
            && self.gui_pf_x.raw <= 1_000_000_000_000
            && -100 * MICRO <= self.gui_af_y.raw && self.gui_af_y.raw <= 100 * MICRO
            && -10_000_000_000 <= self.gui_vf_y.raw && self.gui_vf_y.raw <= 10_000_000_000
            && -1_000_000_000_000 <= self.gui_pf_y.raw
            && self.gui_pf_y.raw <= 1_000_000_000_000
            && 10_000 <= self.ctr_eng_gimbal_tau.raw && self.ctr_eng_gimbal_tau.raw
                <= 100_000_000
            && (match self.ctr_eng_gimbal_kp {
                Some(kp) => -10_000_000_000_000 <= kp.raw && kp.raw <= 10_000_000_000_000,
                None => true,
            })
            && (match self.ctr_eng_gimbal_kd {
                Some(kd) => -1_000_000_000 <= kd.raw && kd.raw <= 1_000_000_000,
                None => true,
            })
            && MICRO <= self.ctr_eng_gimbal_pos_max.raw
            && self.ctr_eng_gimbal_pos_max.raw <= 785_398_163
            && MICRO <= self.ctr_eng_gimbal_vel_max.raw
            && self.ctr_eng_gimbal_vel_max.raw <= 785_398_163
            && 0 <= self.tgo_init.raw && self.tgo_init.raw <= 3_600_000_000
            && 1 <= self.tgo_thrust_mul.raw && self.tgo_thrust_mul.raw <= NANO
            && 0 <= self.tgo_stop.raw && self.tgo_stop.raw <= 3_600_000_000
    }

    /// The proportional gain derived from the time constant, clamped
    /// into the well-formed gain range.
    pub open spec fn kp_of_tau_spec(tau: int) -> int {
        sat(
            tdiv(KP_SCALE_NANO * pow_spec(tau * 1000, -(KP_EXP_NEG_NANO as int)), NANO as int),
            -10_000_000_000_000,
            10_000_000_000_000,
        )
    }

    /// The derivative gain derived from the time constant, negative,
    /// clamped into the well-formed gain range.
    pub open spec fn kd_of_tau_spec(tau: int) -> int {
        -sat(
            tdiv(KD_SCALE_MICRO * pow_spec(tau * 1000, -(KD_EXP_NEG_NANO as int)), NANO as int),
            -1_000_000_000,
            1_000_000_000,
        )
    }

    /// Fill in the controller gains from the gimbal time constant, as
    /// the scenario loader does after parsing: the power regression
    /// `k_p = 4.224639 tau^-1.524106`, `k_d = -2.203941 tau^-0.759514`.
    pub fn derive_gains(&mut self)
        requires
            old(self).wf(),
        ensures
            *final(self) == (Scenario {
                ctr_eng_gimbal_kp: Some(
                    Ratio { raw: Scenario::kp_of_tau_spec(old(self).ctr_eng_gimbal_tau.raw as int) as i64 },
                ),
                ctr_eng_gimbal_kd: Some(
                    Time { raw: Scenario::kd_of_tau_spec(old(self).ctr_eng_gimbal_tau.raw as int) as i64 },
                ),
                ..*old(self)
            }),
            final(self).wf(),
            final(self).ctr_eng_gimbal_kp.is_some(),
            final(self).ctr_eng_gimbal_kd.is_some(),
    {
        let tau_ratio: i64 = self.ctr_eng_gimbal_tau.raw * 1000;
        let pw_p: i64 = pow_nano(tau_ratio, -KP_EXP_NEG_NANO);
        proof {
            lemma_tdiv_bound(KP_SCALE_NANO * pw_p, NANO as int,
                iabs(KP_SCALE_NANO * (pw_p as int)));
            assert(0 <= KP_SCALE_NANO * pw_p) by (nonlinear_arith)
                requires
                    0 <= pw_p,
            ;
        }
        let kp_wide: i128 = (KP_SCALE_NANO as i128) * (pw_p as i128);
        let kp: i64 = crate::fixed::sat_i128(
            crate::fixed::div_trunc(kp_wide, NANO as i128),
            -10_000_000_000_000,
            10_000_000_000_000,
        );
        let pw_d: i64 = pow_nano(tau_ratio, -KD_EXP_NEG_NANO);
        proof {
            lemma_tdiv_bound(KD_SCALE_MICRO * pw_d, NANO as int,
                iabs(KD_SCALE_MICRO * (pw_d as int)));
            assert(0 <= KD_SCALE_MICRO * pw_d) by (nonlinear_arith)
                requires
                    0 <= pw_d,
            ;
        }
        let kd_wide: i128 = (KD_SCALE_MICRO as i128) * (pw_d as i128);
        let kd: i64 = -crate::fixed::sat_i128(
            crate::fixed::div_trunc(kd_wide, NANO as i128),
            -1_000_000_000,
            1_000_000_000,
        );
        self.ctr_eng_gimbal_kp = Some(Ratio { raw: kp });
        self.ctr_eng_gimbal_kd = Some(Time { raw: kd });
    }
}

/// The full configuration: the scenario plus the adaptor choice and the
/// step pacing.
#[derive(Clone, Copy, PartialEq, Eq, Structural, Debug)]
pub struct Conf {
    pub subcommand: SubCommand,
    pub dt_step: Time,
    pub dt_sleep: Time,
    pub s: Scenario,
}

impl Conf {
    pub open spec fn wf(self) -> bool {
        &&& self.s.wf()
        &&& 2 <= self.dt_step.raw <= MICRO
        &&& 0 <= self.dt_sleep.raw <= 10 * MICRO
    }

    pub fn new(subcommand: SubCommand, dt_step: Time, dt_sleep: Time, scenario: Scenario) -> (c:
        Conf)
        ensures
            c == (Conf { subcommand, dt_step, dt_sleep, s: scenario }),
    {
        Conf { subcommand, dt_step, dt_sleep, s: scenario }
    }
}

} // verus!
