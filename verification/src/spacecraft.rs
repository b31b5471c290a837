//! The spacecraft: its configuration, its latest state, and the full
//! history of states for post-mortem export.

use vstd::prelude::*;
use crate::conf::{Conf, SubCommand};
use crate::fixed::iabs;
use crate::state::SpacecraftDynamic;
use crate::units::{MICRO, NANO};

verus! {

/// Nanoradian image of the 180.1 degree attitude ceiling.
pub const ANG_POS_LIMIT_NANO: i64 = 3_143_337_982;

/// Nanoradian image of the 5 degree-per-second rate ceiling (and of the
/// matching angular-acceleration ceiling).
pub const ANG_RATE_LIMIT_NANO: i64 = 87_266_462;

/// The run-state ranges, over a configuration and a state snapshot.
pub open spec fn state_ranges_of(conf: Conf, cur: SpacecraftDynamic) -> bool {
    &&& 0 <= cur.t.raw < 900 * MICRO
    &&& -(NANO as int) <= cur.eng_gimbal.raw <= NANO
    &&& 0 <= cur.eng_throttle.raw <= NANO
    &&& 0 <= cur.fuel_mass.raw <= conf.s.initial_sc_fuel_mass.raw
    &&& 0 <= cur.pos.y.raw <= 1_000_000 * (MICRO as int)
    &&& iabs(cur.vel.x.raw as int) < 10_000 * MICRO
    &&& iabs(cur.vel.y.raw as int) < 1_000 * MICRO
    &&& iabs(cur.acc.x.raw as int) < 100 * MICRO
    &&& iabs(cur.acc.y.raw as int) < 100 * MICRO
    &&& iabs(cur.ang_pos.raw as int) <= ANG_POS_LIMIT_NANO
    &&& iabs(cur.ang_vel.raw as int) <= ANG_RATE_LIMIT_NANO
    &&& iabs(cur.ang_acc.raw as int) <= ANG_RATE_LIMIT_NANO
}

pub struct Spacecraft {
    /// Static configuration.
    pub conf: Conf,
    /// Latest changing state.
    pub cur: SpacecraftDynamic,
    /// Every state so far.
    pub all: Vec<SpacecraftDynamic>,
}

impl Spacecraft {
    pub fn new(conf: Conf) -> (sc: Spacecraft)
        ensures
            sc.conf == conf,
            sc.cur == SpacecraftDynamic::initial_spec(conf.s),
            sc.all@ =~= Seq::<SpacecraftDynamic>::empty(),
            conf.s.wf() ==> sc.cur.ok(),
    {
        let cur = SpacecraftDynamic::new(&conf.s);
        Spacecraft { conf, cur, all: Vec::new() }
    }

    /// The run-state ranges of the specification: time, command and
    /// kinematic bounds that must hold after every closed-loop step.
    pub open spec fn state_ranges_spec(self) -> bool {
        state_ranges_of(self.conf, self.cur)
    }

    /// Sanity checks on the current state.  Under the external bridge
    /// the ranges are only informational and the check passes; with the
    /// internal plant a `false` is fatal for the run.
    pub fn check_state(&self) -> (ok: bool)
        ensures
            ok == (self.conf.subcommand == SubCommand::Ksp || self.state_ranges_spec()),
    {
        if matches!(self.conf.subcommand, SubCommand::Ksp) {
            return true;
        }
        let c = &self.cur;
        let r = 0 <= c.t.raw && c.t.raw < 900 * MICRO
            && -NANO <= c.eng_gimbal.raw && c.eng_gimbal.raw <= NANO
            && 0 <= c.eng_throttle.raw && c.eng_throttle.raw <= NANO
            && 0 <= c.fuel_mass.raw && c.fuel_mass.raw <= self.conf.s.initial_sc_fuel_mass.raw
            && 0 <= c.pos.y.raw && c.pos.y.raw <= 1_000_000 * MICRO
            && -10_000 * MICRO < c.vel.x.raw && c.vel.x.raw < 10_000 * MICRO
            && -1_000 * MICRO < c.vel.y.raw && c.vel.y.raw < 1_000 * MICRO
            && -100 * MICRO < c.acc.x.raw && c.acc.x.raw < 100 * MICRO
            && -100 * MICRO < c.acc.y.raw && c.acc.y.raw < 100 * MICRO
            && -ANG_POS_LIMIT_NANO <= c.ang_pos.raw && c.ang_pos.raw <= ANG_POS_LIMIT_NANO
            && -ANG_RATE_LIMIT_NANO <= c.ang_vel.raw && c.ang_vel.raw <= ANG_RATE_LIMIT_NANO
            && -ANG_RATE_LIMIT_NANO <= c.ang_acc.raw && c.ang_acc.raw <= ANG_RATE_LIMIT_NANO;
        r
    }
}

} // verus!
