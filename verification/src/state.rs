//! The mutable spacecraft state, and the value types crossing the
//! adaptor boundary: sensor samples in, actuator commands out.

use vstd::prelude::*;
use crate::conf::Scenario;
use crate::fixed::iabs;
use crate::trig::PI_NANO;
use crate::units::{Time, Mass, Length, Velocity, Acceleration, Angle, AngVel, AngAcc, Ratio, Vec2, MICRO, NANO};

verus! {

/// One sensor sample: the step length, the inertial acceleration, the
/// angular acceleration, and the radar altitude when one is available.
#[derive(Clone, Copy, PartialEq, Eq, Structural, Debug)]
pub struct SensorsValues {
    pub dt_step: Time,
    pub spacecraft_acc: Vec2<Acceleration>,
    pub spacecraft_ang_acc: AngAcc,
    pub spacecraft_altitude: Option<Length>,
}

impl SensorsValues {
    /// Machine ranges a sample must lie in before it is integrated.
    pub open spec fn wf(self) -> bool {
        &&& 2 <= self.dt_step.raw <= MICRO
        &&& iabs(self.spacecraft_acc.x.raw as int) <= 10_000_000_000i64
        &&& iabs(self.spacecraft_acc.y.raw as int) <= 10_000_000_000i64
        &&& iabs(self.spacecraft_ang_acc.raw as int) <= 100_000_000_000i64
        &&& match self.spacecraft_altitude {
            Some(h) => iabs(h.raw as int) <= 10_000_000_000_000i64,
            None => true,
        }
    }
}

/// One actuator command: throttle in `[0, 1]`, gimbal in `[-1, +1]`
/// of the gimbal position limit.
#[derive(Clone, Copy, PartialEq, Eq, Structural, Debug)]
pub struct ActuatorsValues {
    pub engine_throttle: Ratio,
    pub engine_gimbal: Ratio,
}

impl ActuatorsValues {
    pub open spec fn wf(self) -> bool {
        &&& 0 <= self.engine_throttle.raw <= NANO
        &&& iabs(self.engine_gimbal.raw as int) <= NANO
    }
}

/// The changing state of the vehicle: one snapshot per step.
#[derive(Clone, Copy, PartialEq, Eq, Structural, Debug)]
pub struct SpacecraftDynamic {
    /// Time since the start of the run, and the last step length.
    pub t: Time,
    pub dt: Time,
    pub fuel_mass: Mass,
    /// Modelled acceleration components along the local vertical.
    pub acc_thrust: Acceleration,
    pub acc_atm: Acceleration,
    pub acc_gravity: Acceleration,
    pub acc_centrifugal: Acceleration,
    pub pos: Vec2<Length>,
    pub vel: Vec2<Velocity>,
    pub acc: Vec2<Acceleration>,
    /// Cumulative impulse applied by thrust.
    pub dv: Velocity,
    /// In-plane pitch, positive counter-clockwise.
    pub ang_pos: Angle,
    pub ang_vel: AngVel,
    pub ang_acc: AngAcc,
    /// Acceleration commanded by guidance.
    pub gui: Vec2<Acceleration>,
    pub eng_throttle: Ratio,
    pub eng_gimbal: Ratio,
}

impl SpacecraftDynamic {
    /// The ranges a state satisfies at the top of a pipeline step: the
    /// run-state checks plus machine caps on the unchecked fields.
    pub open spec fn ok(self) -> bool {
        &&& 0 <= self.t.raw <= 901_000_000
        &&& 2 <= self.dt.raw <= MICRO
        &&& 0 <= self.fuel_mass.raw <= 100_000_000_000i64
        &&& iabs(self.acc_thrust.raw as int) <= 10_000_000_000_000i64
        &&& iabs(self.acc_atm.raw as int) <= 10_000_000_000_000i64
        &&& iabs(self.acc_gravity.raw as int) <= 10_000_000_000_000i64
        &&& iabs(self.acc_centrifugal.raw as int) <= 10_000_000_000_000i64
        &&& iabs(self.pos.x.raw as int) <= 10_000_000_000_000i64
        &&& 0 <= self.pos.y.raw <= 1_000_000_000_000i64
        &&& iabs(self.vel.x.raw as int) <= 10_000_000_000i64
        &&& iabs(self.vel.y.raw as int) <= 1_000_000_000
        &&& iabs(self.acc.x.raw as int) <= 100_000_000
        &&& iabs(self.acc.y.raw as int) <= 100_000_000
        &&& 0 <= self.dv.raw <= 100_000_000_000i64
        &&& iabs(self.ang_pos.raw as int) <= 3_143_400_000i64
        &&& iabs(self.ang_vel.raw as int) <= 87_266_463
        &&& iabs(self.ang_acc.raw as int) <= 87_266_463
        &&& iabs(self.gui.x.raw as int) <= 30_000_000_000_000_000i64
        &&& iabs(self.gui.y.raw as int) <= 30_000_000_000_000_000i64
        &&& 0 <= self.eng_throttle.raw <= NANO
        &&& iabs(self.eng_gimbal.raw as int) <= NANO
    }

    /// The `ok` ranges as executable code, for the loop driver to test
    /// between steps.
    pub fn ok_exec(&self) -> (b: bool)
        ensures
            b == self.ok(),
    {
        0 <= self.t.raw && self.t.raw <= 901_000_000
            && 2 <= self.dt.raw && self.dt.raw <= MICRO
            && 0 <= self.fuel_mass.raw && self.fuel_mass.raw <= 100_000_000_000
            && -10_000_000_000_000 <= self.acc_thrust.raw
            && self.acc_thrust.raw <= 10_000_000_000_000
            && -10_000_000_000_000 <= self.acc_atm.raw
            && self.acc_atm.raw <= 10_000_000_000_000
            && -10_000_000_000_000 <= self.acc_gravity.raw
            && self.acc_gravity.raw <= 10_000_000_000_000
            && -10_000_000_000_000 <= self.acc_centrifugal.raw
            && self.acc_centrifugal.raw <= 10_000_000_000_000
            && -10_000_000_000_000 <= self.pos.x.raw && self.pos.x.raw <= 10_000_000_000_000
            && 0 <= self.pos.y.raw && self.pos.y.raw <= 1_000_000_000_000
            && -10_000_000_000 <= self.vel.x.raw && self.vel.x.raw <= 10_000_000_000
            && -1_000_000_000 <= self.vel.y.raw && self.vel.y.raw <= 1_000_000_000
            && -100_000_000 <= self.acc.x.raw && self.acc.x.raw <= 100_000_000
            && -100_000_000 <= self.acc.y.raw && self.acc.y.raw <= 100_000_000
            && 0 <= self.dv.raw && self.dv.raw <= 100_000_000_000
            && -3_143_400_000 <= self.ang_pos.raw && self.ang_pos.raw <= 3_143_400_000
            && -87_266_463 <= self.ang_vel.raw && self.ang_vel.raw <= 87_266_463
            && -87_266_463 <= self.ang_acc.raw && self.ang_acc.raw <= 87_266_463
            && -30_000_000_000_000_000 <= self.gui.x.raw
            && self.gui.x.raw <= 30_000_000_000_000_000
            && -30_000_000_000_000_000 <= self.gui.y.raw
            && self.gui.y.raw <= 30_000_000_000_000_000
            && 0 <= self.eng_throttle.raw && self.eng_throttle.raw <= NANO
            && -NANO <= self.eng_gimbal.raw && self.eng_gimbal.raw <= NANO
    }

    /// The slightly wider ranges a state satisfies in the middle of a
    /// pipeline step, after navigation has integrated one sample but
    /// before the run-state ranges have been enforced.
    pub open spec fn mid(self) -> bool {
        &&& 0 <= self.t.raw <= 902_000_000
        &&& 2 <= self.dt.raw <= MICRO
        &&& 0 <= self.fuel_mass.raw <= 100_000_000_000i64
        &&& iabs(self.pos.x.raw as int) <= 11_000_000_000_000i64
        &&& -40_000_000_000i64 <= self.pos.y.raw <= 1_100_000_000_000i64
        &&& iabs(self.vel.x.raw as int) <= 21_000_000_000i64
        &&& iabs(self.vel.y.raw as int) <= 12_000_000_000i64
        &&& iabs(self.ang_pos.raw as int) <= 3_143_400_000i64
        &&& iabs(self.ang_vel.raw as int) <= 110_000_000_000i64
        &&& 0 <= self.eng_throttle.raw <= NANO
        &&& iabs(self.eng_gimbal.raw as int) <= NANO
    }

    /// The initial snapshot drawn from the scenario.  The step length
    /// starts at one second, as a placeholder until the first sample.
    pub fn new(conf: &Scenario) -> (d: SpacecraftDynamic)
        ensures
            d == SpacecraftDynamic::initial_spec(*conf),
            conf.wf() ==> d.ok(),
    {
        SpacecraftDynamic {
            t: Time { raw: 0 },
            dt: Time { raw: MICRO },
            fuel_mass: conf.initial_sc_fuel_mass,
            acc_thrust: Acceleration { raw: 0 },
            acc_atm: Acceleration { raw: 0 },
            acc_gravity: Acceleration { raw: 0 },
            acc_centrifugal: Acceleration { raw: 0 },
            pos: conf.initial_sc_pos,
            vel: conf.initial_sc_vel,
            acc: Vec2 { x: Acceleration { raw: 0 }, y: Acceleration { raw: 0 } },
            dv: Velocity { raw: 0 },
            ang_pos: conf.initial_sc_ang_pos,
            ang_vel: AngVel { raw: 0 },
            ang_acc: AngAcc { raw: 0 },
            gui: Vec2 { x: Acceleration { raw: 0 }, y: Acceleration { raw: 0 } },
            eng_throttle: Ratio { raw: 0 },
            eng_gimbal: Ratio { raw: 0 },
        }
    }

    /// The same snapshot at the spec level.
    pub open spec fn initial_spec(conf: Scenario) -> SpacecraftDynamic {
        SpacecraftDynamic {
            t: Time { raw: 0 },
            dt: Time { raw: MICRO },
            fuel_mass: conf.initial_sc_fuel_mass,
            acc_thrust: Acceleration { raw: 0 },
            acc_atm: Acceleration { raw: 0 },
            acc_gravity: Acceleration { raw: 0 },
            acc_centrifugal: Acceleration { raw: 0 },
            pos: conf.initial_sc_pos,
            vel: conf.initial_sc_vel,
            acc: Vec2 { x: Acceleration { raw: 0 }, y: Acceleration { raw: 0 } },
            dv: Velocity { raw: 0 },
            ang_pos: conf.initial_sc_ang_pos,
            ang_vel: AngVel { raw: 0 },
            ang_acc: AngAcc { raw: 0 },
            gui: Vec2 { x: Acceleration { raw: 0 }, y: Acceleration { raw: 0 } },
            eng_throttle: Ratio { raw: 0 },
            eng_gimbal: Ratio { raw: 0 },
        }
    }
}

} // verus!
