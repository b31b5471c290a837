//! The celestial body: gravity, centrifugal pseudo-acceleration in the
//! rotating local frame, and the isothermal exponential atmosphere.

use vstd::prelude::*;
use crate::fixed::{tdiv, iabs, muldiv, div_trunc, wide_mul};
use crate::fixed::{lemma_tdiv_bound, lemma_tdiv_nonneg, lemma_tdiv_le, lemma_tdiv_scale_right};
use crate::expfn::{exp_neg_spec, exp_neg_nano};
use crate::units::{Length, Density, Pressure, Velocity, Acceleration, MICRO, NANO};

verus! {

/// The orbited body.  `mu` is the standard gravitational parameter in
/// cubic metres per second squared (unscaled: the value is large enough
/// on its own); gravity is computed from `mu`, never from a mass field.
#[derive(Clone, Copy, PartialEq, Eq, Structural, Debug)]
pub struct Body {
    /// Mean radius.
    pub radius: Length,
    /// Standard gravitational parameter, m^3/s^2.
    pub mu: i64,
    /// Atmospheric density at zero altitude.
    pub atm_r0: Density,
    /// Atmospheric pressure at zero altitude.
    pub atm_p0: Pressure,
    /// Scale height of the atmosphere.
    pub atm_a: Length,
}

impl Body {
    /// Physically plausible ranges: a radius between 100 km and 10 000 km,
    /// a surface gravity of at most 100 m/s^2, a sea-level density of at
    /// most 10 kg/m^3 and a positive scale height.
    pub open spec fn wf(self) -> bool {
        &&& 100_000 * MICRO <= self.radius.raw <= 10_000_000 * (MICRO as int)
        &&& 1 <= self.mu <= 1_000_000_000_000_000
        &&& self.mu <= 100 * tdiv(self.radius.raw as int, MICRO as int) * tdiv(
            self.radius.raw as int,
            MICRO as int,
        )
        &&& 0 <= self.atm_r0.raw <= 10 * MICRO
        &&& 0 <= self.atm_p0.raw <= 1_000_000 * (MICRO as int)
        &&& MICRO <= self.atm_a.raw <= 1_000_000 * (MICRO as int)
    }

    /// The `wf` ranges as executable code, for a configuration loader
    /// to test before it hands the body to the verified pipeline.
    pub fn wf_exec(&self) -> (b: bool)
        ensures
            b == self.wf(),
    {
        if !(100_000 * MICRO <= self.radius.raw && self.radius.raw <= 10_000_000 * MICRO) {
            return false;
        }
        if !(1 <= self.mu && self.mu <= 1_000_000_000_000_000) {
            return false;
        }
        proof {
            lemma_tdiv_nonneg(self.radius.raw as int, MICRO as int);
            lemma_tdiv_le(self.radius.raw as int, 10_000_000 * (MICRO as int), MICRO as int);
            assert(tdiv(10_000_000 * (MICRO as int), MICRO as int) == 10_000_000int) by {
                vstd::arithmetic::div_mod::lemma_div_by_multiple(10_000_000int, MICRO as int);
            }
        }
        let rm: i64 = div_trunc(self.radius.raw as i128, MICRO as i128) as i64;
        proof {
            assert(0 <= 100 * ((rm as int) * (rm as int))
                && 100 * ((rm as int) * (rm as int)) <= 10_000_000_000_000_000int)
                by (nonlinear_arith)
                requires
                    0 <= rm <= 10_000_000i64,
            ;
            assert(100 * ((rm as int) * (rm as int)) == 100 * (rm as int) * (rm as int))
                by (nonlinear_arith);
        }
        let cap: i128 = 100 * ((rm as i128) * (rm as i128));
        (self.mu as i128) <= cap && 0 <= self.atm_r0.raw && self.atm_r0.raw <= 10 * MICRO
            && 0 <= self.atm_p0.raw && self.atm_p0.raw <= 1_000_000 * MICRO
            && MICRO <= self.atm_a.raw && self.atm_a.raw <= 1_000_000 * MICRO
    }

    /// `g(h) = mu / (R + h)^2`, in micro-units.
    pub open spec fn gravity_spec(self, altitude: int) -> int {
        let ra = tdiv(self.radius.raw + altitude, MICRO as int);
        tdiv(self.mu * MICRO, ra * ra)
    }

    /// Gravitational acceleration at the given altitude; non-negative and
    /// at most 100 m/s^2 for a well-formed body.
    pub fn gravity(&self, altitude: Length) -> (r: Acceleration)
        requires
            self.wf(),
            -40_000_000_000i64 <= altitude.raw <= 10_000_000_000_000i64,
        ensures
            r.raw == self.gravity_spec(altitude.raw as int),
            0 <= r.raw <= 280 * MICRO,
    {
        let ghost rm = tdiv(self.radius.raw as int, MICRO as int);
        proof {
            lemma_tdiv_nonneg(self.radius.raw as int, MICRO as int);
            lemma_tdiv_le(self.radius.raw - 40_000 * MICRO, self.radius.raw + altitude.raw,
                MICRO as int);
            lemma_tdiv_nonneg(self.radius.raw + altitude.raw, MICRO as int);
            lemma_tdiv_bound(self.radius.raw + altitude.raw, MICRO as int,
                20_000_000_000_000int);
            assert(100_000int <= rm && rm <= 10_000_000) by {
                lemma_tdiv_le(100_000 * MICRO as int, self.radius.raw as int, MICRO as int);
                lemma_tdiv_le(self.radius.raw as int, 10_000_000 * (MICRO as int), MICRO as int);
                assert(tdiv(100_000 * MICRO as int, MICRO as int) == 100_000int) by {
                    vstd::arithmetic::div_mod::lemma_div_by_multiple(100_000int, MICRO as int);
                }
                assert(tdiv(10_000_000 * (MICRO as int), MICRO as int) == 10_000_000int) by {
                    vstd::arithmetic::div_mod::lemma_div_by_multiple(10_000_000int, MICRO as int);
                }
            }
            assert(tdiv(self.radius.raw - 40_000 * MICRO, MICRO as int) == rm - 40_000) by {
                vstd::arithmetic::div_mod::lemma_hoist_over_denominator(
                    self.radius.raw - 40_000 * MICRO,
                    40_000,
                    MICRO as nat,
                );
            }
        }
        let ra: i64 = div_trunc((self.radius.raw as i128) + (altitude.raw as i128),
            MICRO as i128) as i64;
        let ghost rai = ra as int;
        proof {
            assert(9 * (rm * rm) <= 25 * (rai * rai) && 1 <= rai * rai
                && rai * rai <= 20_000_000 * 20_000_000 * 1_000_000_000_000int)
                by (nonlinear_arith)
                requires
                    100_000 <= rm <= 10_000_000,
                    rm - 40_000 <= rai <= 20_000_000_000_000int,
            ;
            assert(self.mu * (MICRO as int) <= (280 * MICRO as int) * (rai * rai)
                && 0 <= self.mu * MICRO) by (nonlinear_arith)
                requires
                    1 <= self.mu <= 100 * rm * rm,
                    9 * (rm * rm) <= 25 * (rai * rai),
                    0 <= rai * rai,
                    0 < MICRO,
            ;
            assert(0 <= (280 * MICRO as int) * (rai * rai)) by (nonlinear_arith)
                requires
                    0 <= rai * rai,
            ;
            lemma_tdiv_bound(self.mu * MICRO, rai * rai, (280 * MICRO as int) * (rai * rai));
            assert(((280 * MICRO as int) * (rai * rai)) / (rai * rai) == 280 * MICRO as int)
                by {
                vstd::arithmetic::div_mod::lemma_div_by_multiple(280 * MICRO as int, rai * rai);
            }
            lemma_tdiv_nonneg(self.mu * MICRO, rai * rai);
        }
        let num: i128 = (self.mu as i128) * (MICRO as i128);
        let den: i128 = (ra as i128) * (ra as i128);
        let g: i64 = div_trunc(num, den) as i64;
        Acceleration { raw: g }
    }

    /// `c(v, h) = v^2 / (R + h)`, in micro-units.
    pub open spec fn centrifugal_spec(self, vel: int, altitude: int) -> int {
        let ra = tdiv(self.radius.raw + altitude, MICRO as int);
        tdiv(vel * vel, ra * MICRO)
    }

    /// Centrifugal pseudo-acceleration of a horizontal velocity on the
    /// rotating frame attached to the current position.
    pub fn centrifugal(&self, vel: Velocity, altitude: Length) -> (r: Acceleration)
        requires
            self.wf(),
            -40_000_000_000i64 <= altitude.raw <= 10_000_000_000_000i64,
            iabs(vel.raw as int) <= 21_000_000_000i64,
        ensures
            r.raw == self.centrifugal_spec(vel.raw as int, altitude.raw as int),
            0 <= r.raw <= 8_000_000_000i64,
    {
        let ghost rm = tdiv(self.radius.raw as int, MICRO as int);
        proof {
            lemma_tdiv_nonneg(self.radius.raw as int, MICRO as int);
            lemma_tdiv_le(self.radius.raw - 40_000 * MICRO, self.radius.raw + altitude.raw,
                MICRO as int);
            lemma_tdiv_nonneg(self.radius.raw + altitude.raw, MICRO as int);
            lemma_tdiv_bound(self.radius.raw + altitude.raw, MICRO as int,
                20_000_000_000_000int);
            assert(100_000int <= rm && rm <= 10_000_000) by {
                lemma_tdiv_le(100_000 * MICRO as int, self.radius.raw as int, MICRO as int);
                lemma_tdiv_le(self.radius.raw as int, 10_000_000 * (MICRO as int), MICRO as int);
                assert(tdiv(100_000 * MICRO as int, MICRO as int) == 100_000int) by {
                    vstd::arithmetic::div_mod::lemma_div_by_multiple(100_000int, MICRO as int);
                }
                assert(tdiv(10_000_000 * (MICRO as int), MICRO as int) == 10_000_000int) by {
                    vstd::arithmetic::div_mod::lemma_div_by_multiple(10_000_000int, MICRO as int);
                }
            }
            assert(tdiv(self.radius.raw - 40_000 * MICRO, MICRO as int) == rm - 40_000) by {
                vstd::arithmetic::div_mod::lemma_hoist_over_denominator(
                    self.radius.raw - 40_000 * MICRO,
                    40_000,
                    MICRO as nat,
                );
            }
        }
        let ra: i64 = div_trunc((self.radius.raw as i128) + (altitude.raw as i128),
            MICRO as i128) as i64;
        let ghost rai = ra as int;
        let v2: i128 = wide_mul(vel.raw, vel.raw);
        proof {
            let v = vel.raw as int;
            assert(0 <= v * v <= 441_000_000_000_000_000_000int) by (nonlinear_arith)
                requires
                    iabs(v) <= 21_000_000_000int,
            ;
            assert(60_000 * (MICRO as int) <= rai * MICRO
                && rai * MICRO <= 20_000_000_000_000int * 1_000_000) by (nonlinear_arith)
                requires
                    60_000 <= rai <= 20_000_000_000_000int,
                    0 < MICRO,
            ;
            lemma_tdiv_nonneg(v * v, rai * MICRO);
            assert(v * v <= (rai * MICRO) * 8_000_000_000int) by (nonlinear_arith)
                requires
                    0 <= v * v <= 441_000_000_000_000_000_000int,
                    rai * MICRO >= 60_000_000_000int,
            ;
            assert(v * v <= 8_000_000_000int * (rai * MICRO)) by (nonlinear_arith)
                requires
                    0 <= v * v <= (rai * MICRO) * 8_000_000_000int,
            ;
            assert(0 <= 8_000_000_000int * (rai * MICRO)) by (nonlinear_arith)
                requires
                    0 <= rai * MICRO,
            ;
            lemma_tdiv_bound(v * v, rai * MICRO, 8_000_000_000int * (rai * MICRO));
            assert((8_000_000_000int * (rai * (MICRO as int))) / (rai * MICRO)
                == 8_000_000_000int) by {
                vstd::arithmetic::div_mod::lemma_div_by_multiple(8_000_000_000int,
                    rai * MICRO as int);
            }
        }
        let den: i128 = (ra as i128) * (MICRO as i128);
        let c: i64 = div_trunc(v2, den) as i64;
        Acceleration { raw: c }
    }

    /// `rho(h) = rho_0 e^(-h / H)`, in micro-units.
    pub open spec fn atmosphere_density_spec(self, altitude: int) -> int {
        let x0 = tdiv(altitude * NANO, self.atm_a.raw as int);
        let x = if x0 < 0 { 0 } else { x0 };
        tdiv(self.atm_r0.raw * exp_neg_spec(x), NANO as int)
    }

    /// Atmospheric density, never above the sea-level density.  Below
    /// zero altitude the exponent is clamped at zero, capping the
    /// density at its sea-level value where the isothermal formula
    /// would grow above it; the run-state ranges keep the vehicle at or
    /// above zero, so the clamp lies outside the operating domain and
    /// only covers the plant's transient excursions below ground.
    pub fn atmosphere_density(&self, altitude: Length) -> (r: Density)
        requires
            self.wf(),
            -40_000_000_000i64 <= altitude.raw <= 10_000_000_000_000i64,
        ensures
            r.raw == self.atmosphere_density_spec(altitude.raw as int),
            0 <= r.raw <= self.atm_r0.raw,
    {
        proof {
            assert(iabs(altitude.raw * (NANO as int)) <= 10_000_000_000_000_000_000_000int)
                by (nonlinear_arith)
                requires
                    -40_000_000_000i64 <= altitude.raw <= 10_000_000_000_000i64,
            ;
            crate::fixed::lemma_tdiv_den_mono(
                if altitude.raw * NANO >= 0 { altitude.raw * NANO } else { 0 },
                MICRO as int,
                self.atm_a.raw as int,
            );
            lemma_tdiv_bound(altitude.raw * NANO, MICRO as int,
                10_000_000_000_000_000_000_000int);
            crate::fixed::lemma_tdiv_den_mono(iabs(altitude.raw * NANO), MICRO as int,
                self.atm_a.raw as int);
            lemma_tdiv_bound(altitude.raw * NANO, self.atm_a.raw as int,
                10_000_000_000_000_000_000_000int);
        }
        let x0: i64 = muldiv(altitude.raw, NANO, self.atm_a.raw as i128);
        let x: i64 = if x0 < 0 { 0 } else { x0 };
        let e: i64 = exp_neg_nano(x);
        proof {
            lemma_tdiv_scale_right(self.atm_r0.raw as int, e as int, NANO as int);
            vstd::arithmetic::mul::lemma_mul_nonnegative(self.atm_r0.raw as int, e as int);
            lemma_tdiv_nonneg(self.atm_r0.raw * e, NANO as int);
        }
        let r: i64 = muldiv(self.atm_r0.raw, e, NANO as i128);
        Density { raw: r }
    }
}

} // verus!
