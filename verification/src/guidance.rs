//! Guidance: closed-form polynomial acceleration commands toward the
//! terminal boundary condition, parameterised by the time-to-go.  The
//! body acceleration is subtracted so the controller only has to
//! generate thrust-induced acceleration.

use vstd::prelude::*;
use crate::fixed::{tdiv, iabs, muldiv};
use crate::fixed::{lemma_tdiv_abs_le};
use crate::conf::{GuiSpacecraft, Scenario};
use crate::spacecraft::Spacecraft;
use crate::state::SpacecraftDynamic;
use crate::units::{Time, Acceleration, Vec2, MICRO};

verus! {

/// Ceiling on the magnitude of a commanded acceleration component.
pub const GUI_CMD_MAX: i64 = 30_000_000_000_000_000;

/// The quadratic guidance law on one axis:
/// `a = af - 6 (v0 + vf) / tgo + 12 (pf - p0) / tgo^2`.
pub open spec fn quad_law_spec(af: int, v0: int, vf: int, p0: int, pf: int, tgo: int) -> int {
    af - tdiv((6 * (v0 + vf)) * MICRO, tgo) + tdiv(
        tdiv((12 * (pf - p0)) * MICRO, tgo) * MICRO,
        tgo,
    )
}

/// The linear law of the ascent-to-orbit horizontal axis, with the
/// terminal position free: `a = -af + 2 (vf - v0) / tgo`.
pub open spec fn lin_law_orbit_spec(af: int, v0: int, vf: int, tgo: int) -> int {
    -af + tdiv((2 * (vf - v0)) * MICRO, tgo)
}

/// The linear law of the ascent-to-hover horizontal axis, with no
/// terminal acceleration: `a = -2 (vf + 2 v0) / tgo + 6 (pf - p0) / tgo^2`.
pub open spec fn lin_law_hover_spec(v0: int, vf: int, p0: int, pf: int, tgo: int) -> int {
    -tdiv((2 * (vf + 2 * v0)) * MICRO, tgo) + tdiv(
        tdiv((6 * (pf - p0)) * MICRO, tgo) * MICRO,
        tgo,
    )
}

/// The commanded acceleration of the chosen profile, before the body
/// acceleration is subtracted.
pub open spec fn gui_profile_spec(conf: Scenario, cur: SpacecraftDynamic, tgo: int)
    -> (int, int) {
    let ax = match conf.gui_spacecraft {
        GuiSpacecraft::GuiDescent => quad_law_spec(conf.gui_af_x.raw as int,
            cur.vel.x.raw as int, conf.gui_vf_x.raw as int, cur.pos.x.raw as int,
            conf.gui_pf_x.raw as int, tgo),
        GuiSpacecraft::GuiAscentToOrbit => lin_law_orbit_spec(conf.gui_af_x.raw as int,
            cur.vel.x.raw as int, conf.gui_vf_x.raw as int, tgo),
        GuiSpacecraft::GuiAscentToHover => lin_law_hover_spec(cur.vel.x.raw as int,
            conf.gui_vf_x.raw as int, cur.pos.x.raw as int, conf.gui_pf_x.raw as int, tgo),
    };
    let ay = quad_law_spec(conf.gui_af_y.raw as int, cur.vel.y.raw as int,
        conf.gui_vf_y.raw as int, cur.pos.y.raw as int, conf.gui_pf_y.raw as int, tgo);
    (ax, ay)
}

/// What guidance writes into the state: the profile command minus the
/// body acceleration `(-g + c)` on the vertical axis.
pub open spec fn gui_cmd_spec(conf: Scenario, cur: SpacecraftDynamic, tgo: int)
    -> (int, int) {
    let g = conf.body.gravity_spec(cur.pos.y.raw as int);
    let c = conf.body.centrifugal_spec(cur.vel.x.raw as int, cur.pos.y.raw as int);
    let (ax, ay) = gui_profile_spec(conf, cur, tgo);
    (ax, ay - (-g + c))
}

/// Executable quadratic law; the two divisions by `tgo` are performed
/// one after the other.
fn quad_law(af: i64, v0: i64, vf: i64, p0: i64, pf: i64, tgo: i64) -> (r: i64)
    requires
        iabs(af as int) <= 100 * MICRO,
        iabs(v0 as int) <= 21_000_000_000i64,
        iabs(vf as int) <= 10_000_000_000i64,
        iabs(p0 as int) <= 11_000_000_000_000i64,
        iabs(pf as int) <= 1_000_000_000_000i64,
        100_000 <= tgo <= 3_600_000_000i64,
    ensures
        r == quad_law_spec(af as int, v0 as int, vf as int, p0 as int, pf as int, tgo as int),
        iabs(r as int) <= 15_000_000_000_000_000i64,
{
    let tv: i64 = 6 * (v0 + vf);
    proof {
        lemma_tdiv_abs_le(tv * MICRO, tgo as int, 186_000_000_000_000_000int, 100_000);
    }
    let c1: i64 = muldiv(tv, MICRO, tgo as i128);
    let dp: i64 = 12 * (pf - p0);
    proof {
        lemma_tdiv_abs_le(dp * MICRO, tgo as int, 144_144_000_000_000_000_000int, 100_000);
    }
    let d1: i64 = muldiv(dp, MICRO, tgo as i128);
    proof {
        lemma_tdiv_abs_le(d1 * MICRO, tgo as int, 1_441_440_000_000_000_000_000int, 100_000);
    }
    let c2: i64 = muldiv(d1, MICRO, tgo as i128);
    af - c1 + c2
}

/// Descent guidance: the quadratic law on both axes.
pub fn gui_descent(spacecraft: &Spacecraft, tgo: Time) -> (r: Vec2<Acceleration>)
    requires
        spacecraft.conf.s.wf(),
        spacecraft.cur.mid(),
        spacecraft.conf.s.gui_spacecraft == GuiSpacecraft::GuiDescent,
        100_000 <= tgo.raw <= 3_600_000_000i64,
    ensures
        (r.x.raw as int, r.y.raw as int) == gui_profile_spec(spacecraft.conf.s,
            spacecraft.cur, tgo.raw as int),
        iabs(r.x.raw as int) <= 15_000_000_000_000_000i64,
        iabs(r.y.raw as int) <= 15_000_000_000_000_000i64,
{
    let conf = spacecraft.conf.s;
    let acc_x: i64 = quad_law(conf.gui_af_x.raw, spacecraft.cur.vel.x.raw,
        conf.gui_vf_x.raw, spacecraft.cur.pos.x.raw, conf.gui_pf_x.raw, tgo.raw);
    let acc_y: i64 = quad_law(conf.gui_af_y.raw, spacecraft.cur.vel.y.raw,
        conf.gui_vf_y.raw, spacecraft.cur.pos.y.raw, conf.gui_pf_y.raw, tgo.raw);
    Vec2 { x: Acceleration { raw: acc_x }, y: Acceleration { raw: acc_y } }
}

/// Ascent guidance to orbit: linear on the horizontal axis (the final
/// horizontal position is free), quadratic on the vertical axis.
pub fn gui_ascent_orbit(spacecraft: &Spacecraft, tgo: Time) -> (r: Vec2<Acceleration>)
    requires
        spacecraft.conf.s.wf(),
        spacecraft.cur.mid(),
        spacecraft.conf.s.gui_spacecraft == GuiSpacecraft::GuiAscentToOrbit,
        100_000 <= tgo.raw <= 3_600_000_000i64,
    ensures
        (r.x.raw as int, r.y.raw as int) == gui_profile_spec(spacecraft.conf.s,
            spacecraft.cur, tgo.raw as int),
        iabs(r.x.raw as int) <= 15_000_000_000_000_000i64,
        iabs(r.y.raw as int) <= 15_000_000_000_000_000i64,
{
    let conf = spacecraft.conf.s;
    let dv: i64 = 2 * (conf.gui_vf_x.raw - spacecraft.cur.vel.x.raw);
    proof {
        lemma_tdiv_abs_le(dv * MICRO, tgo.raw as int, 62_000_000_000_000_000int, 100_000);
    }
    let acc_x: i64 = -conf.gui_af_x.raw + muldiv(dv, MICRO, tgo.raw as i128);
    let acc_y: i64 = quad_law(conf.gui_af_y.raw, spacecraft.cur.vel.y.raw,
        conf.gui_vf_y.raw, spacecraft.cur.pos.y.raw, conf.gui_pf_y.raw, tgo.raw);
    Vec2 { x: Acceleration { raw: acc_x }, y: Acceleration { raw: acc_y } }
}

/// Ascent guidance to hover: linear on the horizontal axis with the
/// final position held, quadratic on the vertical axis.
pub fn gui_ascent_hover(spacecraft: &Spacecraft, tgo: Time) -> (r: Vec2<Acceleration>)
    requires
        spacecraft.conf.s.wf(),
        spacecraft.cur.mid(),
        spacecraft.conf.s.gui_spacecraft == GuiSpacecraft::GuiAscentToHover,
        100_000 <= tgo.raw <= 3_600_000_000i64,
    ensures
        (r.x.raw as int, r.y.raw as int) == gui_profile_spec(spacecraft.conf.s,
            spacecraft.cur, tgo.raw as int),
        iabs(r.x.raw as int) <= 15_000_000_000_000_000i64,
        iabs(r.y.raw as int) <= 15_000_000_000_000_000i64,
{
    let conf = spacecraft.conf.s;
    let tv: i64 = 2 * (conf.gui_vf_x.raw + 2 * spacecraft.cur.vel.x.raw);
    proof {
        lemma_tdiv_abs_le(tv * MICRO, tgo.raw as int, 104_000_000_000_000_000int, 100_000);
    }
    let c1: i64 = muldiv(tv, MICRO, tgo.raw as i128);
    let dp: i64 = 6 * (conf.gui_pf_x.raw - spacecraft.cur.pos.x.raw);
    proof {
        lemma_tdiv_abs_le(dp * MICRO, tgo.raw as int, 72_072_000_000_000_000_000int, 100_000);
    }
    let d1: i64 = muldiv(dp, MICRO, tgo.raw as i128);
    proof {
        lemma_tdiv_abs_le(d1 * MICRO, tgo.raw as int, 720_720_000_000_000_000_000int, 100_000);
    }
    let acc_x: i64 = -c1 + muldiv(d1, MICRO, tgo.raw as i128);
    let acc_y: i64 = quad_law(conf.gui_af_y.raw, spacecraft.cur.vel.y.raw,
        conf.gui_vf_y.raw, spacecraft.cur.pos.y.raw, conf.gui_pf_y.raw, tgo.raw);
    Vec2 { x: Acceleration { raw: acc_x }, y: Acceleration { raw: acc_y } }
}

/// Run the configured guidance profile and store the commanded
/// acceleration, with the body acceleration taken back out of the
/// vertical axis.
pub fn gui(spacecraft: &mut Spacecraft, tgo: Time)
    requires
        old(spacecraft).conf.s.wf(),
        old(spacecraft).cur.mid(),
        100_000 <= tgo.raw <= 3_600_000_000i64,
    ensures
        final(spacecraft).conf == old(spacecraft).conf,
        final(spacecraft).all == old(spacecraft).all,
        final(spacecraft).cur == (SpacecraftDynamic {
            gui: final(spacecraft).cur.gui,
            ..old(spacecraft).cur
        }),
        (final(spacecraft).cur.gui.x.raw as int, final(spacecraft).cur.gui.y.raw as int)
            == gui_cmd_spec(old(spacecraft).conf.s, old(spacecraft).cur, tgo.raw as int),
        iabs(final(spacecraft).cur.gui.x.raw as int) <= GUI_CMD_MAX,
        iabs(final(spacecraft).cur.gui.y.raw as int) <= GUI_CMD_MAX,
{
    let conf = spacecraft.conf.s;
    let g: i64 = conf.body.gravity(spacecraft.cur.pos.y).raw;
    let c: i64 = conf.body.centrifugal(spacecraft.cur.vel.x, spacecraft.cur.pos.y).raw;
    let body_acc_y: i64 = -g + c;

    let acc: Vec2<Acceleration> = match conf.gui_spacecraft {
        GuiSpacecraft::GuiDescent => gui_descent(spacecraft, tgo),
        GuiSpacecraft::GuiAscentToOrbit => gui_ascent_orbit(spacecraft, tgo),
        GuiSpacecraft::GuiAscentToHover => gui_ascent_hover(spacecraft, tgo),
    };

    spacecraft.cur.gui = Vec2 {
        x: acc.x,
        y: Acceleration { raw: acc.y.raw - body_acc_y },
    };
}

} // verus!
