use physics_demo::math::Vec2;
use physics_demo::math::sat_add;
use physics_demo::math::sat_mul;
use physics_demo::math::v2_add;
use physics_demo::math::v2_scale;
use physics_demo::math::v2_zero;

#[test]
fn sat_add_exact_inside_range() {
    assert_eq!(sat_add(2, 3), 5);
    assert_eq!(sat_add(-2, 3), 1);
    assert_eq!(sat_add(0, 0), 0);
}

#[test]
fn sat_add_saturates_at_both_bounds() {
    assert_eq!(sat_add(i64::MAX, 1), i64::MAX);
    assert_eq!(sat_add(i64::MAX, i64::MAX), i64::MAX);
    assert_eq!(sat_add(i64::MIN, -1), i64::MIN);
    assert_eq!(sat_add(i64::MIN, i64::MIN), i64::MIN);
}

#[test]
fn sat_mul_exact_inside_range() {
    assert_eq!(sat_mul(6, 7), 42);
    assert_eq!(sat_mul(-6, 7), -42);
    assert_eq!(sat_mul(0, i64::MAX), 0);
}

#[test]
fn sat_mul_saturates_by_sign() {
    assert_eq!(sat_mul(i64::MAX, 2), i64::MAX);
    assert_eq!(sat_mul(i64::MIN, 2), i64::MIN);
    assert_eq!(sat_mul(i64::MAX, -2), i64::MIN);
    assert_eq!(sat_mul(i64::MIN, -1), i64::MAX);
    assert_eq!(sat_mul(-3_037_000_500, 3_037_000_500), i64::MIN);
}

#[test]
fn vector_arithmetic_is_componentwise() {
    let a = Vec2 { x: 1, y: -2 };
    let b = Vec2 { x: 10, y: 20 };
    assert_eq!(v2_add(a, b), Vec2 { x: 11, y: 18 });
    assert_eq!(v2_scale(a, 3), Vec2 { x: 3, y: -6 });
    assert_eq!(v2_zero(), Vec2 { x: 0, y: 0 });
}
