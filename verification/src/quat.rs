//! Quaternions and Euler angles, Hamilton convention, on nano-scaled
//! components.  The flight core is planar, so only the pitch axis is
//! exercised in flight; the full three-axis conversions support the
//! projection adaptors.

use vstd::prelude::*;
use crate::fixed::{tdiv, iabs, sqrt_floor, muldiv, div_trunc, wide_mul, isqrt};
use crate::fixed::{lemma_tdiv_bound, lemma_tdiv_abs_le, lemma_tdiv_scale_left, lemma_tdiv_scale_right, lemma_sqrt_floor_unique};
use crate::trig::{sin_spec, cos_spec, sin_nano, cos_nano, atan2_spec, atan2_nano, asin_spec, asin_nano, PI_NANO, PI_HALF_NANO};
use crate::units::{Time, MICRO, NANO};

verus! {

/// A quaternion with nano-scaled components.
#[derive(Clone, Copy, PartialEq, Eq, Structural, Debug)]
pub struct Quaternion {
    pub w: i64,
    pub x: i64,
    pub y: i64,
    pub z: i64,
}

/// Euler angles in nanoradians: yaw about Z, pitch about Y, roll
/// about X.
#[derive(Clone, Copy, PartialEq, Eq, Structural, Debug)]
pub struct Euler {
    pub roll: i64,
    pub pitch: i64,
    pub yaw: i64,
}

/// Triple product of nano-scaled ratios.
pub open spec fn tri_spec(a: int, b: int, c: int) -> int {
    tdiv(tdiv(a * b, NANO as int) * c, NANO as int)
}

/// The quaternion of a set of Euler angles.
pub open spec fn euler_to_quaternion_spec(e: Euler) -> Quaternion {
    let cy = cos_spec(tdiv(e.yaw as int, 2));
    let sy = sin_spec(tdiv(e.yaw as int, 2));
    let cp = cos_spec(tdiv(e.pitch as int, 2));
    let sp = sin_spec(tdiv(e.pitch as int, 2));
    let cr = cos_spec(tdiv(e.roll as int, 2));
    let sr = sin_spec(tdiv(e.roll as int, 2));
    Quaternion {
        w: (tri_spec(cr, cp, cy) + tri_spec(sr, sp, sy)) as i64,
        x: (tri_spec(sr, cp, cy) - tri_spec(cr, sp, sy)) as i64,
        y: (tri_spec(cr, sp, cy) + tri_spec(sr, cp, sy)) as i64,
        z: (tri_spec(cr, cp, sy) - tri_spec(sr, sp, cy)) as i64,
    }
}

/// The Euler angles of a quaternion, with the pitch pinned to a
/// quarter turn when its sine leaves the domain.
pub open spec fn quaternion_to_euler_spec(q: Quaternion) -> Euler {
    let sinr_cosp = 2 * (tdiv(q.w * q.x, NANO as int) + tdiv(q.y * q.z, NANO as int));
    let cosr_cosp = NANO - 2 * (tdiv(q.x * q.x, NANO as int) + tdiv(q.y * q.y, NANO as int));
    let sinp = 2 * (tdiv(q.w * q.y, NANO as int) - tdiv(q.z * q.x, NANO as int));
    let siny_cosp = 2 * (tdiv(q.w * q.z, NANO as int) + tdiv(q.x * q.y, NANO as int));
    let cosy_cosp = NANO - 2 * (tdiv(q.y * q.y, NANO as int) + tdiv(q.z * q.z, NANO as int));
    Euler {
        roll: atan2_spec(sinr_cosp, cosr_cosp) as i64,
        pitch: (if iabs(sinp) >= NANO {
            if sinp >= 0 {
                PI_HALF_NANO as int
            } else {
                -PI_HALF_NANO as int
            }
        } else {
            asin_spec(sinp)
        }) as i64,
        yaw: atan2_spec(siny_cosp, cosy_cosp) as i64,
    }
}

/// The Hamilton product.
pub open spec fn quaternion_product_spec(a: Quaternion, b: Quaternion) -> Quaternion {
    Quaternion {
        w: (tdiv(a.w * b.w, NANO as int) - tdiv(a.x * b.x, NANO as int) - tdiv(
            a.y * b.y,
            NANO as int,
        ) - tdiv(a.z * b.z, NANO as int)) as i64,
        x: (tdiv(a.w * b.x, NANO as int) + tdiv(a.x * b.w, NANO as int) + tdiv(
            a.y * b.z,
            NANO as int,
        ) - tdiv(a.z * b.y, NANO as int)) as i64,
        y: (tdiv(a.w * b.y, NANO as int) - tdiv(a.x * b.z, NANO as int) + tdiv(
            a.y * b.w,
            NANO as int,
        ) + tdiv(a.z * b.x, NANO as int)) as i64,
        z: (tdiv(a.w * b.z, NANO as int) + tdiv(a.x * b.y, NANO as int) - tdiv(
            a.y * b.x,
            NANO as int,
        ) + tdiv(a.z * b.w, NANO as int)) as i64,
    }
}

/// Scaling by a nano-scaled factor.
pub open spec fn quaternion_scaled_spec(q: Quaternion, s: int) -> Quaternion {
    Quaternion {
        w: tdiv(q.w * s, NANO as int) as i64,
        x: tdiv(q.x * s, NANO as int) as i64,
        y: tdiv(q.y * s, NANO as int) as i64,
        z: tdiv(q.z * s, NANO as int) as i64,
    }
}

/// One half-step of a rate quaternion over a time step: each component
/// scaled by `dt / 2` in seconds.
pub open spec fn quaternion_halfstep_spec(q: Quaternion, dt: int) -> Quaternion {
    Quaternion {
        w: tdiv(q.w * dt, 2 * MICRO) as i64,
        x: tdiv(q.x * dt, 2 * MICRO) as i64,
        y: tdiv(q.y * dt, 2 * MICRO) as i64,
        z: tdiv(q.z * dt, 2 * MICRO) as i64,
    }
}

/// Normalisation to the unit sphere.
pub open spec fn quaternion_normalize_spec(q: Quaternion) -> Quaternion {
    let n = sqrt_floor(q.w * q.w + q.x * q.x + q.y * q.y + q.z * q.z);
    Quaternion {
        w: tdiv(q.w * NANO, n) as i64,
        x: tdiv(q.x * NANO, n) as i64,
        y: tdiv(q.y * NANO, n) as i64,
        z: tdiv(q.z * NANO, n) as i64,
    }
}

/// The squared magnitude, as a spec value.
pub open spec fn quaternion_norm2_spec(q: Quaternion) -> int {
    q.w * q.w + q.x * q.x + q.y * q.y + q.z * q.z
}

impl Euler {
    /// Convert to a quaternion through the half-angle sines and
    /// cosines.
    pub fn to_quaternion(self) -> (q: Quaternion)
        ensures
            q == euler_to_quaternion_spec(self),
            iabs(q.w as int) <= 2 * NANO,
            iabs(q.x as int) <= 2 * NANO,
            iabs(q.y as int) <= 2 * NANO,
            iabs(q.z as int) <= 2 * NANO,
    {
        proof {
            lemma_tdiv_bound(self.yaw as int, 2, iabs(self.yaw as int));
            lemma_tdiv_bound(self.pitch as int, 2, iabs(self.pitch as int));
            lemma_tdiv_bound(self.roll as int, 2, iabs(self.roll as int));
        }
        let cy: i64 = cos_nano(div_trunc(self.yaw as i128, 2) as i64);
        let sy: i64 = sin_nano(div_trunc(self.yaw as i128, 2) as i64);
        let cp: i64 = cos_nano(div_trunc(self.pitch as i128, 2) as i64);
        let sp: i64 = sin_nano(div_trunc(self.pitch as i128, 2) as i64);
        let cr: i64 = cos_nano(div_trunc(self.roll as i128, 2) as i64);
        let sr: i64 = sin_nano(div_trunc(self.roll as i128, 2) as i64);
        let w: i64 = tri(cr, cp, cy) + tri(sr, sp, sy);
        let x: i64 = tri(sr, cp, cy) - tri(cr, sp, sy);
        let y: i64 = tri(cr, sp, cy) + tri(sr, cp, sy);
        let z: i64 = tri(cr, cp, sy) - tri(sr, sp, cy);
        Quaternion { w, x, y, z }
    }

    /// Component-wise closeness, within one millionth: the fixed-point
    /// image of the approximate equality the reference values carry.
    pub fn approx_eq(&self, other: &Euler) -> (r: bool)
        requires
            iabs(self.roll as int) <= 100 * NANO,
            iabs(self.pitch as int) <= 100 * NANO,
            iabs(self.yaw as int) <= 100 * NANO,
            iabs(other.roll as int) <= 100 * NANO,
            iabs(other.pitch as int) <= 100 * NANO,
            iabs(other.yaw as int) <= 100 * NANO,
        ensures
            r == (iabs(self.roll - other.roll) <= 1000 && iabs(self.pitch - other.pitch)
                <= 1000 && iabs(self.yaw - other.yaw) <= 1000),
    {
        let dr: i64 = self.roll - other.roll;
        let dp: i64 = self.pitch - other.pitch;
        let dy: i64 = self.yaw - other.yaw;
        -1000 <= dr && dr <= 1000 && -1000 <= dp && dp <= 1000 && -1000 <= dy && dy <= 1000
    }
}

/// Executable triple product of nano-scaled ratios bounded by one.
fn tri(a: i64, b: i64, c: i64) -> (r: i64)
    requires
        iabs(a as int) <= NANO,
        iabs(b as int) <= NANO,
        iabs(c as int) <= NANO,
    ensures
        r == tri_spec(a as int, b as int, c as int),
        iabs(r as int) <= NANO,
{
    proof {
        lemma_tdiv_scale_right(a as int, b as int, NANO as int);
    }
    let ab: i64 = muldiv(a, b, NANO as i128);
    proof {
        lemma_tdiv_scale_right(ab as int, c as int, NANO as int);
    }
    muldiv(ab, c, NANO as i128)
}

impl Quaternion {
    /// Convert to Euler angles.
    pub fn to_euler(self) -> (e: Euler)
        requires
            iabs(self.w as int) <= 4 * NANO,
            iabs(self.x as int) <= 4 * NANO,
            iabs(self.y as int) <= 4 * NANO,
            iabs(self.z as int) <= 4 * NANO,
        ensures
            e == quaternion_to_euler_spec(self),
            iabs(e.roll as int) <= PI_NANO,
            iabs(e.pitch as int) <= PI_HALF_NANO,
            iabs(e.yaw as int) <= PI_NANO,
    {
        proof {
            assert(iabs(self.w * self.x) <= 16_000_000_000_000_000_000int
                && iabs(self.y * self.z) <= 16_000_000_000_000_000_000int
                && iabs(self.x * self.x) <= 16_000_000_000_000_000_000int
                && iabs(self.y * self.y) <= 16_000_000_000_000_000_000int
                && iabs(self.w * self.y) <= 16_000_000_000_000_000_000int
                && iabs(self.z * self.x) <= 16_000_000_000_000_000_000int
                && iabs(self.w * self.z) <= 16_000_000_000_000_000_000int
                && iabs(self.x * self.y) <= 16_000_000_000_000_000_000int
                && iabs(self.z * self.z) <= 16_000_000_000_000_000_000int)
                by (nonlinear_arith)
                requires
                    iabs(self.w as int) <= 4 * 1_000_000_000,
                    iabs(self.x as int) <= 4 * 1_000_000_000,
                    iabs(self.y as int) <= 4 * 1_000_000_000,
                    iabs(self.z as int) <= 4 * 1_000_000_000,
            ;
            lemma_tdiv_abs_le(self.w * self.x, NANO as int, 16_000_000_000_000_000_000int,
                NANO as int);
            lemma_tdiv_abs_le(self.y * self.z, NANO as int, 16_000_000_000_000_000_000int,
                NANO as int);
            lemma_tdiv_abs_le(self.x * self.x, NANO as int, 16_000_000_000_000_000_000int,
                NANO as int);
            lemma_tdiv_abs_le(self.y * self.y, NANO as int, 16_000_000_000_000_000_000int,
                NANO as int);
            lemma_tdiv_abs_le(self.w * self.y, NANO as int, 16_000_000_000_000_000_000int,
                NANO as int);
            lemma_tdiv_abs_le(self.z * self.x, NANO as int, 16_000_000_000_000_000_000int,
                NANO as int);
            lemma_tdiv_abs_le(self.w * self.z, NANO as int, 16_000_000_000_000_000_000int,
                NANO as int);
            lemma_tdiv_abs_le(self.x * self.y, NANO as int, 16_000_000_000_000_000_000int,
                NANO as int);
            lemma_tdiv_abs_le(self.z * self.z, NANO as int, 16_000_000_000_000_000_000int,
                NANO as int);
        }
        let sinr_cosp: i64 = 2 * (muldiv(self.w, self.x, NANO as i128) + muldiv(self.y,
            self.z, NANO as i128));
        let cosr_cosp: i64 = NANO - 2 * (muldiv(self.x, self.x, NANO as i128) + muldiv(
            self.y, self.y, NANO as i128));
        let roll: i64 = atan2_nano(sinr_cosp, cosr_cosp);

        let sinp: i64 = 2 * (muldiv(self.w, self.y, NANO as i128) - muldiv(self.z, self.x,
            NANO as i128));
        let pitch: i64 = if sinp >= NANO || sinp <= -NANO {
            if sinp >= 0 {
                PI_HALF_NANO
            } else {
                -PI_HALF_NANO
            }
        } else {
            asin_nano(sinp)
        };

        let siny_cosp: i64 = 2 * (muldiv(self.w, self.z, NANO as i128) + muldiv(self.x,
            self.y, NANO as i128));
        let cosy_cosp: i64 = NANO - 2 * (muldiv(self.y, self.y, NANO as i128) + muldiv(
            self.z, self.z, NANO as i128));
        let yaw: i64 = atan2_nano(siny_cosp, cosy_cosp);

        Euler { roll, pitch, yaw }
    }

    /// Scale back onto the unit sphere.  The zero quaternion has no
    /// direction and is excluded.
    pub fn normalize(self) -> (q: Quaternion)
        requires
            quaternion_norm2_spec(self) >= 1,
            iabs(self.w as int) <= 1_000_000_000_000_000i64,
            iabs(self.x as int) <= 1_000_000_000_000_000i64,
            iabs(self.y as int) <= 1_000_000_000_000_000i64,
            iabs(self.z as int) <= 1_000_000_000_000_000i64,
        ensures
            q == quaternion_normalize_spec(self),
            iabs(q.w as int) <= NANO,
            iabs(q.x as int) <= NANO,
            iabs(q.y as int) <= NANO,
            iabs(q.z as int) <= NANO,
    {
        proof {
            assert(0 <= self.w * self.w <= 1_000_000_000_000_000_000_000_000_000_000int
                && 0 <= self.x * self.x <= 1_000_000_000_000_000_000_000_000_000_000int
                && 0 <= self.y * self.y <= 1_000_000_000_000_000_000_000_000_000_000int
                && 0 <= self.z * self.z <= 1_000_000_000_000_000_000_000_000_000_000int)
                by (nonlinear_arith)
                requires
                    iabs(self.w as int) <= 1_000_000_000_000_000i64,
                    iabs(self.x as int) <= 1_000_000_000_000_000i64,
                    iabs(self.y as int) <= 1_000_000_000_000_000i64,
                    iabs(self.z as int) <= 1_000_000_000_000_000i64,
            ;
        }
        let n2: i128 = wide_mul(self.w, self.w) + wide_mul(self.x, self.x) + wide_mul(
            self.y, self.y) + wide_mul(self.z, self.z);
        let n64: u64 = isqrt(n2 as u128);
        proof {
            lemma_sqrt_floor_unique(quaternion_norm2_spec(self), n64 as int);
            assert(n64 <= 2_000_000_000_000_000u64) by (nonlinear_arith)
                requires
                    (n64 as int) * (n64 as int)
                        <= 4_000_000_000_000_000_000_000_000_000_000int,
            ;
            if n64 == 0 {
                assert((0 + 1) * (0 + 1) == 1);
                assert(false);
            }
            let n = n64 as int;
            assert(iabs(self.w as int) <= n && iabs(self.x as int) <= n
                && iabs(self.y as int) <= n && iabs(self.z as int) <= n)
                by (nonlinear_arith)
                requires
                    n >= 1,
                    self.w * self.w + self.x * self.x + self.y * self.y + self.z * self.z
                        < (n + 1) * (n + 1),
                    0 <= self.w * self.w,
                    0 <= self.x * self.x,
                    0 <= self.y * self.y,
                    0 <= self.z * self.z,
            ;
            lemma_tdiv_scale_left(self.w as int, NANO as int, n);
            lemma_tdiv_scale_left(self.x as int, NANO as int, n);
            lemma_tdiv_scale_left(self.y as int, NANO as int, n);
            lemma_tdiv_scale_left(self.z as int, NANO as int, n);
        }
        let n: i64 = n64 as i64;
        Quaternion {
            w: muldiv(self.w, NANO, n as i128),
            x: muldiv(self.x, NANO, n as i128),
            y: muldiv(self.y, NANO, n as i128),
            z: muldiv(self.z, NANO, n as i128),
        }
    }

    /// The Hamilton product.
    pub fn product(self, other: Quaternion) -> (q: Quaternion)
        requires
            iabs(self.w as int) <= 4 * NANO,
            iabs(self.x as int) <= 4 * NANO,
            iabs(self.y as int) <= 4 * NANO,
            iabs(self.z as int) <= 4 * NANO,
            iabs(other.w as int) <= 4 * NANO,
            iabs(other.x as int) <= 4 * NANO,
            iabs(other.y as int) <= 4 * NANO,
            iabs(other.z as int) <= 4 * NANO,
        ensures
            q == quaternion_product_spec(self, other),
            iabs(q.w as int) <= 64 * NANO,
            iabs(q.x as int) <= 64 * NANO,
            iabs(q.y as int) <= 64 * NANO,
            iabs(q.z as int) <= 64 * NANO,
    {
        proof {
            lemma_q4(self.w as int, self.x as int, self.y as int, self.z as int,
                other.w as int, other.x as int, other.y as int, other.z as int);
        }
        let w: i64 = muldiv(self.w, other.w, NANO as i128) - muldiv(self.x, other.x,
            NANO as i128) - muldiv(self.y, other.y, NANO as i128) - muldiv(self.z, other.z,
            NANO as i128);
        let x: i64 = muldiv(self.w, other.x, NANO as i128) + muldiv(self.x, other.w,
            NANO as i128) + muldiv(self.y, other.z, NANO as i128) - muldiv(self.z, other.y,
            NANO as i128);
        let y: i64 = muldiv(self.w, other.y, NANO as i128) - muldiv(self.x, other.z,
            NANO as i128) + muldiv(self.y, other.w, NANO as i128) + muldiv(self.z, other.x,
            NANO as i128);
        let z: i64 = muldiv(self.w, other.z, NANO as i128) + muldiv(self.x, other.y,
            NANO as i128) - muldiv(self.y, other.x, NANO as i128) + muldiv(self.z, other.w,
            NANO as i128);
        Quaternion { w, x, y, z }
    }

    /// Scale every component by a nano-scaled factor.
    pub fn scaled(self, s: i64) -> (q: Quaternion)
        requires
            iabs(self.w as int) <= 10 * NANO,
            iabs(self.x as int) <= 10 * NANO,
            iabs(self.y as int) <= 10 * NANO,
            iabs(self.z as int) <= 10 * NANO,
            iabs(s as int) <= 4 * NANO,
        ensures
            q == quaternion_scaled_spec(self, s as int),
            iabs(q.w as int) <= 40 * NANO,
            iabs(q.x as int) <= 40 * NANO,
            iabs(q.y as int) <= 40 * NANO,
            iabs(q.z as int) <= 40 * NANO,
    {
        proof {
            lemma_sc1(self.w as int, s as int);
            lemma_sc1(self.x as int, s as int);
            lemma_sc1(self.y as int, s as int);
            lemma_sc1(self.z as int, s as int);
        }
        Quaternion {
            w: muldiv(self.w, s, NANO as i128),
            x: muldiv(self.x, s, NANO as i128),
            y: muldiv(self.y, s, NANO as i128),
            z: muldiv(self.z, s, NANO as i128),
        }
    }

    /// Integrate a rate quaternion over one step:
    /// `q <- normalize(q * rate * dt / 2)`.  The result must keep a
    /// direction, so the scaled product may not vanish.
    pub fn integrate(&mut self, q: Quaternion, dt: Time)
        requires
            iabs(old(self).w as int) <= 4 * NANO,
            iabs(old(self).x as int) <= 4 * NANO,
            iabs(old(self).y as int) <= 4 * NANO,
            iabs(old(self).z as int) <= 4 * NANO,
            iabs(q.w as int) <= 4 * NANO,
            iabs(q.x as int) <= 4 * NANO,
            iabs(q.y as int) <= 4 * NANO,
            iabs(q.z as int) <= 4 * NANO,
            0 <= dt.raw <= 10 * MICRO,
            quaternion_norm2_spec(
                quaternion_halfstep_spec(quaternion_product_spec(*old(self), q),
                    dt.raw as int),
            ) >= 1,
        ensures
            *final(self) == quaternion_normalize_spec(
                quaternion_halfstep_spec(quaternion_product_spec(*old(self), q),
                    dt.raw as int),
            ),
            iabs(final(self).w as int) <= NANO,
            iabs(final(self).x as int) <= NANO,
            iabs(final(self).y as int) <= NANO,
            iabs(final(self).z as int) <= NANO,
    {
        let p: Quaternion = self.product(q);
        proof {
            lemma_scale4(p.w as int, p.x as int, p.y as int, p.z as int, dt.raw as int);
        }
        let scaled_p: Quaternion = Quaternion {
            w: muldiv(p.w, dt.raw, 2 * (MICRO as i128)),
            x: muldiv(p.x, dt.raw, 2 * (MICRO as i128)),
            y: muldiv(p.y, dt.raw, 2 * (MICRO as i128)),
            z: muldiv(p.z, dt.raw, 2 * (MICRO as i128)),
        };
        *self = scaled_p.normalize();
    }

    /// Component-wise closeness, within one millionth.
    pub fn approx_eq(&self, other: &Quaternion) -> (r: bool)
        requires
            iabs(self.w as int) <= 100 * NANO,
            iabs(self.x as int) <= 100 * NANO,
            iabs(self.y as int) <= 100 * NANO,
            iabs(self.z as int) <= 100 * NANO,
            iabs(other.w as int) <= 100 * NANO,
            iabs(other.x as int) <= 100 * NANO,
            iabs(other.y as int) <= 100 * NANO,
            iabs(other.z as int) <= 100 * NANO,
        ensures
            r == (iabs(self.w - other.w) <= 1000 && iabs(self.x - other.x) <= 1000
                && iabs(self.y - other.y) <= 1000 && iabs(self.z - other.z) <= 1000),
    {
        let dw: i64 = self.w - other.w;
        let dx: i64 = self.x - other.x;
        let dy: i64 = self.y - other.y;
        let dz: i64 = self.z - other.z;
        -1000 <= dw && dw <= 1000 && -1000 <= dx && dx <= 1000 && -1000 <= dy && dy <= 1000
            && -1000 <= dz && dz <= 1000
    }
}

/// The sixteen scaled cross products of a Hamilton product are bounded
/// when both operands are.
proof fn lemma_q4(aw: int, ax: int, ay: int, az: int, bw: int, bx: int, by: int, bz: int)
    requires
        iabs(aw) <= 4 * NANO,
        iabs(ax) <= 4 * NANO,
        iabs(ay) <= 4 * NANO,
        iabs(az) <= 4 * NANO,
        iabs(bw) <= 4 * NANO,
        iabs(bx) <= 4 * NANO,
        iabs(by) <= 4 * NANO,
        iabs(bz) <= 4 * NANO,
    ensures
        iabs(tdiv(aw * bw, NANO as int)) <= 16 * NANO,
        iabs(tdiv(ax * bx, NANO as int)) <= 16 * NANO,
        iabs(tdiv(ay * by, NANO as int)) <= 16 * NANO,
        iabs(tdiv(az * bz, NANO as int)) <= 16 * NANO,
        iabs(tdiv(aw * bx, NANO as int)) <= 16 * NANO,
        iabs(tdiv(ax * bw, NANO as int)) <= 16 * NANO,
        iabs(tdiv(ay * bz, NANO as int)) <= 16 * NANO,
        iabs(tdiv(az * by, NANO as int)) <= 16 * NANO,
        iabs(tdiv(aw * by, NANO as int)) <= 16 * NANO,
        iabs(tdiv(ax * bz, NANO as int)) <= 16 * NANO,
        iabs(tdiv(ay * bw, NANO as int)) <= 16 * NANO,
        iabs(tdiv(az * bx, NANO as int)) <= 16 * NANO,
        iabs(tdiv(aw * bz, NANO as int)) <= 16 * NANO,
        iabs(tdiv(ax * by, NANO as int)) <= 16 * NANO,
        iabs(tdiv(ay * bx, NANO as int)) <= 16 * NANO,
        iabs(tdiv(az * bw, NANO as int)) <= 16 * NANO,
{
    lemma_q1(aw, bw);
    lemma_q1(ax, bx);
    lemma_q1(ay, by);
    lemma_q1(az, bz);
    lemma_q1(aw, bx);
    lemma_q1(ax, bw);
    lemma_q1(ay, bz);
    lemma_q1(az, by);
    lemma_q1(aw, by);
    lemma_q1(ax, bz);
    lemma_q1(ay, bw);
    lemma_q1(az, bx);
    lemma_q1(aw, bz);
    lemma_q1(ax, by);
    lemma_q1(ay, bx);
    lemma_q1(az, bw);
}

proof fn lemma_q1(a: int, b: int)
    requires
        iabs(a) <= 4 * NANO,
        iabs(b) <= 4 * NANO,
    ensures
        iabs(tdiv(a * b, NANO as int)) <= 16 * NANO,
{
    assert(iabs(a * b) <= 16_000_000_000_000_000_000int) by (nonlinear_arith)
        requires
            iabs(a) <= 4 * 1_000_000_000,
            iabs(b) <= 4 * 1_000_000_000,
    ;
    lemma_tdiv_bound(a * b, NANO as int, 16_000_000_000_000_000_000int);
}

/// The four scaled components of a scaling are bounded when the
/// quaternion and the factor are.
proof fn lemma_scale4(w: int, x: int, y: int, z: int, s: int)
    requires
        iabs(w) <= 64 * NANO,
        iabs(x) <= 64 * NANO,
        iabs(y) <= 64 * NANO,
        iabs(z) <= 64 * NANO,
        iabs(s) <= 10 * MICRO,
    ensures
        iabs(tdiv(w * s, 2 * MICRO)) <= 640 * NANO,
        iabs(tdiv(x * s, 2 * MICRO)) <= 640 * NANO,
        iabs(tdiv(y * s, 2 * MICRO)) <= 640 * NANO,
        iabs(tdiv(z * s, 2 * MICRO)) <= 640 * NANO,
{
    lemma_s1(w, s);
    lemma_s1(x, s);
    lemma_s1(y, s);
    lemma_s1(z, s);
}

proof fn lemma_sc1(a: int, s: int)
    requires
        iabs(a) <= 10 * NANO,
        iabs(s) <= 4 * NANO,
    ensures
        iabs(tdiv(a * s, NANO as int)) <= 40 * NANO,
{
    assert(iabs(a * s) <= 40_000_000_000_000_000_000int) by (nonlinear_arith)
        requires
            iabs(a) <= 10 * 1_000_000_000,
            iabs(s) <= 4 * 1_000_000_000,
    ;
    lemma_tdiv_bound(a * s, NANO as int, 40_000_000_000_000_000_000int);
}

proof fn lemma_s1(a: int, s: int)
    requires
        iabs(a) <= 64 * NANO,
        iabs(s) <= 10 * MICRO,
    ensures
        iabs(tdiv(a * s, 2 * MICRO)) <= 640 * NANO,
{
    assert(iabs(a * s) <= 64 * 1_000_000_000 * (10 * 1_000_000int)) by (nonlinear_arith)
        requires
            iabs(a) <= 64 * 1_000_000_000,
            iabs(s) <= 10 * 1_000_000,
    ;
    lemma_tdiv_bound(a * s, 2 * MICRO, 64 * 1_000_000_000 * (10 * 1_000_000int));
    assert((64 * 1_000_000_000 * (10 * 1_000_000int)) / (2 * 1_000_000int)
        == 320_000_000_000int) by (nonlinear_arith);
}

} // verus!
