//! Dimension-typed quantities.
//!
//! Every physical quantity is a signed 64-bit integer in a fixed scale:
//! linear quantities (lengths, velocities, accelerations, masses, forces,
//! mass flows, densities, times) carry micro-units (`MICRO` raw units per
//! SI unit), angular quantities and dimensionless ratios carry nano-units
//! (`NANO` raw units per radian, or per unit ratio).  Wrapping each
//! dimension in its own struct keeps the dimensional bookkeeping in the
//! signatures, where a units library did that job in floating point.

use vstd::prelude::*;

verus! {

/// Raw units per SI unit for linear quantities (micro-scale).
pub const MICRO: i64 = 1_000_000;

/// Raw units per radian (or per unit ratio) for angular quantities.
pub const NANO: i64 = 1_000_000_000;

/// Time, in microseconds.
#[derive(Clone, Copy, PartialEq, Eq, Structural, Debug)]
pub struct Time {
    pub raw: i64,
}

/// Mass, in micro-kilograms.
#[derive(Clone, Copy, PartialEq, Eq, Structural, Debug)]
pub struct Mass {
    pub raw: i64,
}

/// Length or position component, in micrometres.
#[derive(Clone, Copy, PartialEq, Eq, Structural, Debug)]
pub struct Length {
    pub raw: i64,
}

/// Velocity component, in micrometres per second.
#[derive(Clone, Copy, PartialEq, Eq, Structural, Debug)]
pub struct Velocity {
    pub raw: i64,
}

/// Acceleration component, in micrometres per second squared.
#[derive(Clone, Copy, PartialEq, Eq, Structural, Debug)]
pub struct Acceleration {
    pub raw: i64,
}

/// Force, in micronewtons.
#[derive(Clone, Copy, PartialEq, Eq, Structural, Debug)]
pub struct Force {
    pub raw: i64,
}

/// Mass flow, in micro-kilograms per second.
#[derive(Clone, Copy, PartialEq, Eq, Structural, Debug)]
pub struct MassRate {
    pub raw: i64,
}

/// Mass density, in micro-kilograms per cubic metre.
#[derive(Clone, Copy, PartialEq, Eq, Structural, Debug)]
pub struct Density {
    pub raw: i64,
}

/// Pressure, in micropascals.
#[derive(Clone, Copy, PartialEq, Eq, Structural, Debug)]
pub struct Pressure {
    pub raw: i64,
}

/// In-plane angle, in nanoradians.
#[derive(Clone, Copy, PartialEq, Eq, Structural, Debug)]
pub struct Angle {
    pub raw: i64,
}

/// Angular velocity, in nanoradians per second.
#[derive(Clone, Copy, PartialEq, Eq, Structural, Debug)]
pub struct AngVel {
    pub raw: i64,
}

/// Angular acceleration, in nanoradians per second squared.
#[derive(Clone, Copy, PartialEq, Eq, Structural, Debug)]
pub struct AngAcc {
    pub raw: i64,
}

/// Dimensionless ratio (throttle, gimbal fraction, controller gain),
/// in nano-units: `NANO` raw units stand for the ratio one.
#[derive(Clone, Copy, PartialEq, Eq, Structural, Debug)]
pub struct Ratio {
    pub raw: i64,
}

/// A two-dimensional vector: `x` along the horizontal axis, `y` along the
/// local vertical.
#[derive(Clone, Copy, PartialEq, Eq, Structural, Debug)]
pub struct Vec2<T> {
    pub x: T,
    pub y: T,
}

} // verus!
