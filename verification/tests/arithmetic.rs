use desert_car::fixed::{mul_fixed, narrow, wide_mul, SCALE};
use desert_car::math::{square, Mat3, Quat, Vec3};

fn units(x: i64, y: i64, z: i64) -> Vec3 {
    Vec3::new(x * SCALE, y * SCALE, z * SCALE)
}

#[test]
fn one_is_a_million() {
    assert_eq!(SCALE, 1_000_000);
}

#[test]
fn product_of_whole_numbers() {
    assert_eq!(mul_fixed(3 * SCALE, 4 * SCALE), 12 * SCALE);
    assert_eq!(mul_fixed(-3 * SCALE, 4 * SCALE), -12 * SCALE);
    assert_eq!(mul_fixed(-3 * SCALE, -4 * SCALE), 12 * SCALE);
    assert_eq!(mul_fixed(SCALE, 123), 123);
    assert_eq!(mul_fixed(0, i64::MAX), 0);
}

#[test]
fn product_rounds_toward_zero() {
    assert_eq!(mul_fixed(1, 999_999), 0);
    assert_eq!(mul_fixed(-1, 999_999), 0);
    assert_eq!(mul_fixed(3, 500_000), 1);
    assert_eq!(mul_fixed(-3, 500_000), -1);
    assert_eq!(mul_fixed(3, -500_000), -1);
    assert_eq!(mul_fixed(1_500_000, 1_500_000), 2_250_000);
}

#[test]
fn product_saturates() {
    assert_eq!(mul_fixed(i64::MAX, 2 * SCALE), i64::MAX);
    assert_eq!(mul_fixed(i64::MIN, 2 * SCALE), i64::MIN);
    assert_eq!(mul_fixed(i64::MIN, -2 * SCALE), i64::MAX);
    assert_eq!(mul_fixed(i64::MIN, i64::MIN), i64::MAX);
    assert_eq!(mul_fixed(i64::MAX, SCALE), i64::MAX);
    assert_eq!(mul_fixed(i64::MIN, SCALE), i64::MIN);
}

#[test]
fn wide_product_is_exact() {
    assert_eq!(wide_mul(i64::MAX, 2 * SCALE), 2 * (i64::MAX as i128));
    assert_eq!(wide_mul(i64::MIN, i64::MIN), (1i128 << 126) / 1_000_000);
    assert_eq!(wide_mul(-7, 500_000), -3);
}

#[test]
fn narrowing() {
    assert_eq!(narrow(0), 0);
    assert_eq!(narrow(-5), -5);
    assert_eq!(narrow(i64::MAX as i128), i64::MAX);
    assert_eq!(narrow(i64::MAX as i128 + 1), i64::MAX);
    assert_eq!(narrow(i64::MIN as i128), i64::MIN);
    assert_eq!(narrow(i64::MIN as i128 - 1), i64::MIN);
    assert_eq!(narrow(i128::MAX), i64::MAX);
    assert_eq!(narrow(i128::MIN), i64::MIN);
}

#[test]
fn squares() {
    assert_eq!(square(0), 0);
    assert_eq!(square(-3), 9);
    assert_eq!(square(i64::MIN), 1u128 << 126);
    assert_eq!(square(i64::MAX), (i64::MAX as u128) * (i64::MAX as u128));
}

#[test]
fn vector_constants() {
    assert_eq!(Vec3::zero(), Vec3 { x: 0, y: 0, z: 0 });
    assert_eq!(Vec3::unit_y(), Vec3 { x: 0, y: SCALE, z: 0 });
    assert_eq!(Vec3::new(1, 2, 3), Vec3 { x: 1, y: 2, z: 3 });
    assert_eq!(Quat::identity(), Quat { x: 0, y: 0, z: 0, w: SCALE });
}

#[test]
fn vector_sums_and_differences() {
    assert_eq!(Vec3::new(1, 2, 3).plus(Vec3::new(10, -20, 30)), Vec3::new(11, -18, 33));
    assert_eq!(Vec3::new(1, 2, 3).minus(Vec3::new(10, -20, 30)), Vec3::new(-9, 22, -27));
    assert_eq!(Vec3::new(1, -2, 0).neg(), Vec3::new(-1, 2, 0));
    assert_eq!(
        Vec3::new(i64::MAX, i64::MIN, 0).plus(Vec3::new(1, -1, 0)),
        Vec3::new(i64::MAX, i64::MIN, 0)
    );
    assert_eq!(
        Vec3::new(i64::MIN, i64::MAX, 0).minus(Vec3::new(1, -1, 0)),
        Vec3::new(i64::MIN, i64::MAX, 0)
    );
    assert_eq!(Vec3::new(i64::MIN, i64::MAX, 0).neg(), Vec3::new(i64::MAX, -i64::MAX, 0));
}

#[test]
fn vector_products() {
    assert_eq!(units(2, -3, 4).times(units(5, 6, -7)), units(10, -18, -28));
    assert_eq!(units(2, -3, 4).scaled(SCALE / 2), Vec3::new(SCALE, -1_500_000, 2 * SCALE));
    assert_eq!(units(2, -3, 4).scaled(-SCALE), units(-2, 3, -4));
    assert_eq!(units(1, 2, 3).dot(units(4, -5, 6)), 12 * SCALE);
    assert_eq!(units(1, 0, 0).dot(units(0, 1, 0)), 0);
    assert_eq!(Vec3::new(i64::MAX, i64::MAX, 0).dot(Vec3::new(i64::MAX, i64::MAX, 0)), i64::MAX);
}

#[test]
fn length_against_a_limit() {
    assert!(units(0, 0, 0).shorter_than(SCALE));
    assert!(Vec3::new(999_999, 0, 0).shorter_than(SCALE));
    assert!(!units(1, 0, 0).shorter_than(SCALE));
    assert!(!units(0, -1, 0).shorter_than(SCALE));
    assert!(Vec3::new(600_000, 0, -799_999).shorter_than(SCALE));
    assert!(!Vec3::new(600_000, 0, -800_000).shorter_than(SCALE));
    assert!(units(3, 4, 0).shorter_than(5 * SCALE + 1));
    assert!(!units(3, 4, 0).shorter_than(5 * SCALE));
    assert!(!units(0, 0, 0).shorter_than(0));
    assert!(!units(0, 0, 0).shorter_than(-SCALE));
    assert!(!Vec3::new(i64::MIN, i64::MIN, i64::MIN).shorter_than(i64::MAX));
    assert!(Vec3::new(i64::MAX - 1, 0, 0).shorter_than(i64::MAX));
}

#[test]
fn identity_frame_changes_nothing() {
    let v = Vec3::new(123, -456, 789_000_000);
    assert_eq!(Mat3::identity().transform_vector3(v), v);
}

#[test]
fn frame_weighs_its_axes() {
    let frame = Mat3 { x_axis: units(0, 0, -1), y_axis: units(0, 1, 0), z_axis: units(1, 0, 0) };
    assert_eq!(frame.transform_vector3(units(2, 3, 5)), units(5, 3, -2));
    let stretch = Mat3 { x_axis: units(2, 0, 0), y_axis: units(1, 1, 0), z_axis: units(0, 0, -3) };
    assert_eq!(stretch.transform_vector3(units(1, 10, 100)), units(12, 10, -300));
}

#[test]
fn frame_saturates() {
    let big = Mat3 {
        x_axis: Vec3::new(i64::MAX, 0, 0),
        y_axis: Vec3::new(i64::MAX, 0, 0),
        z_axis: Vec3::new(i64::MAX, 0, 0),
    };
    assert_eq!(
        big.transform_vector3(Vec3::new(i64::MAX, i64::MAX, i64::MAX)),
        Vec3::new(i64::MAX, 0, 0)
    );
    assert_eq!(
        big.transform_vector3(Vec3::new(i64::MIN, i64::MIN, i64::MIN)),
        Vec3::new(i64::MIN, 0, 0)
    );
}
