//! Quaternion and Euler-angle conversions on the reference rotations,
//! and the fixed-point circular functions they stand on.

use moon_lander::expfn::{exp_neg_nano, exp_pos_nano, ln_nano, LN2_NANO};
use moon_lander::quat::{Euler, Quaternion};
use moon_lander::trig::{
    asin_nano, atan2_nano, cos_nano, sin_nano, PI_HALF_NANO, PI_NANO, PI_QUARTER_NANO,
    TWO_PI_NANO,
};
use moon_lander::units::{Time, MICRO, NANO};

fn q(w: i64, x: i64, y: i64, z: i64) -> Quaternion {
    Quaternion { w, x, y, z }
}

const EULER_CHECK: Euler = Euler { roll: 100_000_000, pitch: 200_000_000, yaw: 300_000_000 };

const Q_CHECK: Quaternion = Quaternion {
    w: 983_347_440,
    x: 34_270_800,
    y: 106_020_510,
    z: 143_572_180,
};

#[test]
fn test_quat_normalization() {
    let q0 = q(NANO, 2 * NANO, 3 * NANO, 4 * NANO);
    let n = q0.normalize();
    assert!(n.approx_eq(&q(182_574_190, 365_148_370, 547_722_560, 730_296_740)));
}

#[test]
fn test_euler_to_quaternion() {
    let qq = EULER_CHECK.to_quaternion();
    assert!(qq.approx_eq(&Q_CHECK));
}

#[test]
fn test_quaternion_to_euler() {
    let e1 = Q_CHECK.to_euler();
    assert!(e1.approx_eq(&EULER_CHECK));
}

#[test]
fn test_quaternion_product1() {
    let prod = Q_CHECK.product(Q_CHECK);
    assert!(prod.approx_eq(&q(933_944_390, 67_400_200, 208_510_000, 282_362_660)));
}

#[test]
fn test_quaternion_scalar_multiplication() {
    let scalar = 500_000_000;
    let base = q(NANO, 2 * NANO, 3 * NANO, 4 * NANO);
    let check = q(NANO / 2, NANO, 3 * NANO / 2, 2 * NANO);
    assert_eq!(base.scaled(scalar), check);
}

#[test]
fn test_quaternion_product2() {
    // a full turn about Z is the identity rotation
    let half = TWO_PI_NANO / 2;
    let q3 = q(0, 0, 0, NANO);
    let q4 = q(cos_nano(half), 0, 0, sin_nano(half));
    let q5 = q4.product(q4).product(q3);
    assert!(q5.approx_eq(&q3));
}

#[test]
fn test_quaternion_product3() {
    // two quarter turns about Z negate the scalar part
    let half = PI_HALF_NANO / 2;
    let q3 = q(0, 0, 0, NANO);
    let q4 = q(cos_nano(half), 0, 0, sin_nano(half));
    let q5 = q4.product(q4).product(q3);
    assert!(q5.approx_eq(&q(-NANO, 0, 0, 0)));
}

#[test]
fn test_quaternion_derivative1() {
    let mut q1 = q(0, NANO, 0, 0);
    let check = q(-NANO / 2, 0, -3 * NANO / 2, NANO).normalize();
    q1.integrate(q(0, NANO, 2 * NANO, 3 * NANO), Time { raw: MICRO });
    assert!(q1.approx_eq(&check));
}

#[test]
#[allow(non_snake_case)]
fn test_quaternion_angularAcceleration_integrate() {
    let mut qvel = Euler { roll: 100_000_000, pitch: 0, yaw: 0 }.to_quaternion();
    let qacc = Euler { roll: 100_000_000, pitch: 0, yaw: 0 }.to_quaternion();
    qvel.integrate(qacc, Time { raw: MICRO });
    let e = Euler { roll: 200_000_000, pitch: 0, yaw: 0 };
    assert!(qvel.approx_eq(&e.to_quaternion()));
    assert!(qvel.to_euler().approx_eq(&e));
}

#[test]
#[allow(non_snake_case)]
fn test_quaternion_angularVelocity_integrate() {
    let mut qpos = Euler { roll: 100_000_000, pitch: 0, yaw: 0 }.to_quaternion();
    let qvel = Euler { roll: 100_000_000, pitch: 0, yaw: 0 }.to_quaternion();
    qpos.integrate(qvel, Time { raw: MICRO });
    let e = Euler { roll: 200_000_000, pitch: 0, yaw: 0 };
    assert!(qpos.approx_eq(&e.to_quaternion()));
    assert!(qpos.to_euler().approx_eq(&e));
}

#[test]
fn circular_functions_hit_the_axes() {
    assert_eq!(sin_nano(0), 0);
    assert!((sin_nano(PI_HALF_NANO) - NANO).abs() <= 2);
    assert!(sin_nano(PI_NANO).abs() <= 2);
    assert!((cos_nano(0) - NANO).abs() <= 2);
    assert!(cos_nano(PI_HALF_NANO).abs() <= 2);
    assert!((cos_nano(PI_NANO) + NANO).abs() <= 2);
    assert_eq!(atan2_nano(0, 10), 0);
    assert_eq!(atan2_nano(10, 0), PI_HALF_NANO);
    assert_eq!(atan2_nano(0, -10), PI_NANO);
    assert_eq!(atan2_nano(-10, 0), -PI_HALF_NANO);
    assert_eq!(atan2_nano(7, 7), PI_QUARTER_NANO);
    assert_eq!(asin_nano(NANO), PI_HALF_NANO);
    assert_eq!(asin_nano(0), 0);
    // asin(1/2) = pi/6
    assert!((asin_nano(NANO / 2) - 523_598_776).abs() <= 5);
}

#[test]
fn exponentials_and_logarithms() {
    assert_eq!(exp_neg_nano(0), NANO);
    // e^(-ln 2) = 1/2
    assert!((exp_neg_nano(LN2_NANO) - NANO / 2).abs() <= 5);
    // e^(ln 2) = 2
    assert!((exp_pos_nano(LN2_NANO) - 2 * NANO).abs() <= 5);
    assert!(ln_nano(NANO).abs() <= 5);
    assert!((ln_nano(2 * NANO) - LN2_NANO).abs() <= 5);
    // e^-3 = 0.049787...
    assert!((exp_neg_nano(3 * NANO) - 49_787_068).abs() <= 10);
}
