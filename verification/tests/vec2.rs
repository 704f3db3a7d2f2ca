use intvec::vec2i::Vec2i;
use intvec::vec2u::Vec2u;
use intvec::vec3i::Vec3i;
use intvec::vec3u::Vec3u;

#[test]
fn vec2u_constructors() {
    assert_eq!(Vec2u::new(1, 2), Vec2u { x: 1, y: 2 });
    assert_eq!(Vec2u::broadcast(7), Vec2u::new(7, 7));
    assert_eq!(Vec2u::zero(), Vec2u::new(0, 0));
    assert_eq!(Vec2u::one(), Vec2u::new(1, 1));
    assert_eq!(Vec2u::unit_x(), Vec2u::new(1, 0));
    assert_eq!(Vec2u::unit_y(), Vec2u::new(0, 1));
    assert_eq!(Vec2u::default(), Vec2u::zero());
}

#[test]
fn vec2u_arithmetic() {
    let a = Vec2u::new(10, 20);
    let b = Vec2u::new(3, 4);
    assert_eq!(a.add(b), Vec2u::new(13, 24));
    assert_eq!(a.sub(b), Vec2u::new(7, 16));
    assert_eq!(a.mul(b), Vec2u::new(30, 80));
    assert_eq!(a.div(b), Vec2u::new(3, 5));
    assert_eq!(a.mul_scalar(2), Vec2u::new(20, 40));
    assert_eq!(a.div_scalar(4), Vec2u::new(2, 5));

    let mut c = a;
    c.add_assign(b);
    assert_eq!(c, Vec2u::new(13, 24));
    c.sub_assign(b);
    assert_eq!(c, a);
    c.mul_assign(b);
    assert_eq!(c, Vec2u::new(30, 80));
    c.div_assign(b);
    assert_eq!(c, a);
    c.mul_assign_scalar(3);
    assert_eq!(c, Vec2u::new(30, 60));
    c.div_assign_scalar(3);
    assert_eq!(c, a);
}

#[test]
fn vec2u_arithmetic_wraps() {
    let a = Vec2u::new(u32::MAX, 0);
    let b = Vec2u::new(1, 1);
    assert_eq!(a.add(b), Vec2u::new(0, 1));
    assert_eq!(Vec2u::zero().sub(b), Vec2u::new(u32::MAX, u32::MAX));
    assert_eq!(Vec2u::broadcast(1 << 16).mul(Vec2u::broadcast(1 << 16)), Vec2u::zero());
}

#[test]
fn vec2i_arithmetic() {
    let a = Vec2i::new(-10, 20);
    let b = Vec2i::new(3, -4);
    assert_eq!(a.add(b), Vec2i::new(-7, 16));
    assert_eq!(a.sub(b), Vec2i::new(-13, 24));
    assert_eq!(a.mul(b), Vec2i::new(-30, -80));
    assert_eq!(a.div(b), Vec2i::new(-3, -5));
    assert_eq!(a.mul_scalar(-2), Vec2i::new(20, -40));
}

#[test]
fn vec2i_division_truncates_toward_zero() {
    let v = Vec2i::new(-7, 7);
    assert_eq!(v.div_scalar(2), Vec2i::new(-3, 3));
    assert_eq!(Vec2i::new(-9, 9).div(Vec2i::new(4, -4)), Vec2i::new(-2, -2));
}

#[test]
fn vec2u_dot_and_magnitude() {
    let a = Vec2u::new(2, 3);
    let b = Vec2u::new(4, 5);
    assert_eq!(a.dot(b), 23);
    assert_eq!(a.mag_sq(), 13);
    assert_eq!(a.mag(), 3);
}

#[test]
fn vec2i_scenario_three_four_five() {
    let v = Vec2i::new(3, 4);
    assert_eq!(v.mag_sq(), 25);
    assert_eq!(v.mag(), 5);
}

#[test]
fn vec2i_mag_of_wrapped_square_is_zero() {
    // 46341 * 46341 exceeds i32::MAX, so the squared magnitude wraps negative.
    let v = Vec2i::new(46341, 0);
    assert!(v.mag_sq() < 0);
    assert_eq!(v.mag(), 0);
}

#[test]
fn vec2u_reflected() {
    // v - 2 * (v . n) * n against the y axis.
    let v = Vec2i::new(3, -4);
    let r = v.reflected(Vec2i::unit_y());
    assert_eq!(r, Vec2i::new(3, 4));
}

#[test]
fn vec2u_mul_add() {
    let v = Vec2u::new(2, 3);
    assert_eq!(v.mul_add(Vec2u::new(5, 6), Vec2u::new(1, 2)), Vec2u::new(11, 20));
}

#[test]
fn vec2i_abs_returns_components_unchanged() {
    let v = Vec2i::new(-5, 7);
    assert_eq!(v.abs(), v);
}

#[test]
fn vec2u_clamp_scenario() {
    // A value over the box is lowered onto its upper corner.
    assert_eq!(
        Vec2u::broadcast(5).clamped(Vec2u::zero(), Vec2u::broadcast(3)),
        Vec2u::broadcast(3)
    );
    let mut v = Vec2u::new(1, 9);
    v.clamp(Vec2u::broadcast(2), Vec2u::broadcast(6));
    assert_eq!(v, Vec2u::new(2, 6));
}

#[test]
fn vec2u_map_and_apply() {
    let v = Vec2u::new(3, 4);
    assert_eq!(v.map(|c| c * 10), Vec2u::new(30, 40));
    let mut m = v;
    m.apply(|c| c + 1);
    assert_eq!(m, Vec2u::new(4, 5));
}

#[test]
fn vec2u_component_extremes() {
    let a = Vec2u::new(9, 4);
    let b = Vec2u::new(6, 8);
    assert_eq!(a.max_by_component(b), Vec2u::new(9, 8));
    assert_eq!(a.min_by_component(b), Vec2u::new(6, 4));
    assert_eq!(a.component_max(), 9);
    assert_eq!(a.component_min(), 4);
}

#[test]
fn vec2u_indexing() {
    let mut v = Vec2u::new(8, 9);
    assert_eq!(v.component(0), 8);
    assert_eq!(v.component(1), 9);
    v.set_component(0, 17);
    assert_eq!(v, Vec2u::new(17, 9));
}

#[test]
fn vec2u_swizzles() {
    let v = Vec2u::new(1, 2);
    assert_eq!(v.xyz(), Vec3u::new(1, 2, 0));
    assert_eq!(v.xyzw().into_tuple(), (1, 2, 0, 0));
}

#[test]
fn vec2u_conversions() {
    assert_eq!(Vec2u::from([4, 5]), Vec2u::new(4, 5));
    assert_eq!(Vec2u::from(&[4u32, 5u32]), Vec2u::new(4, 5));
    assert_eq!(Vec2u::from((6, 7)), Vec2u::new(6, 7));
    assert_eq!(Vec2u::from(&(6u32, 7u32)), Vec2u::new(6, 7));
    assert_eq!(Vec2u::from(Vec3u::new(1, 2, 3)), Vec2u::new(1, 2));
    assert_eq!(Vec2i::from(Vec3i::new(-1, -2, -3)), Vec2i::new(-1, -2));
    assert_eq!(Vec2u::new(4, 5).into_array(), [4, 5]);
    assert_eq!(Vec2u::new(4, 5).into_tuple(), (4, 5));
}

#[test]
fn vec2u_homogeneous_bridging() {
    let v = Vec2u::new(3, 4);
    assert_eq!(v.into_homogeneous_point(), Vec3u::new(3, 4, 1));
    assert_eq!(v.into_homogeneous_vector(), Vec3u::new(3, 4, 0));
    assert_eq!(Vec2u::from_homogeneous_point(Vec3u::new(8, 6, 2)), Vec2u::new(4, 3));
    assert_eq!(Vec2u::from_homogeneous_vector(Vec3u::new(8, 6, 5)), Vec2u::new(8, 6));
    assert_eq!(
        Vec2i::from_homogeneous_point(Vec3i::new(-8, 6, -2)),
        Vec2i::new(4, -3)
    );
}
