//! Guidance, navigation and control core for a propulsive lander / ascent
//! vehicle in a two-dimensional vertical plane.
//!
//! Every physical quantity is a scaled 64-bit integer with a fixed
//! dimension-specific scale, so the whole pipeline is exact integer
//! arithmetic with explicit truncating division.

pub mod body;
pub mod conf;
pub mod control;
pub mod driver;
pub mod expfn;
pub mod fixed;
pub mod guidance;
pub mod nav;
pub mod quat;
pub mod sim;
pub mod spacecraft;
pub mod state;
pub mod tgo;
pub mod trig;
pub mod units;
