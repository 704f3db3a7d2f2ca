use intvec::vec2i::Vec2i;
use intvec::vec2u::Vec2u;
use intvec::vec3i::Vec3i;
use intvec::vec3u::Vec3u;
use intvec::vec4i::Vec4i;
use intvec::vec4u::Vec4u;

#[test]
fn vec3u_constructors() {
    assert_eq!(Vec3u::new(1, 2, 3), Vec3u { x: 1, y: 2, z: 3 });
    assert_eq!(Vec3u::broadcast(7), Vec3u::new(7, 7, 7));
    assert_eq!(Vec3u::zero(), Vec3u::new(0, 0, 0));
    assert_eq!(Vec3u::one(), Vec3u::new(1, 1, 1));
    assert_eq!(Vec3u::unit_x(), Vec3u::new(1, 0, 0));
    assert_eq!(Vec3u::unit_y(), Vec3u::new(0, 1, 0));
    assert_eq!(Vec3u::unit_z(), Vec3u::new(0, 0, 1));
    assert_eq!(Vec3u::default(), Vec3u::zero());
}

#[test]
fn vec3u_arithmetic() {
    let a = Vec3u::new(10, 20, 30);
    let b = Vec3u::new(2, 4, 5);
    assert_eq!(a.add(b), Vec3u::new(12, 24, 35));
    assert_eq!(a.sub(b), Vec3u::new(8, 16, 25));
    assert_eq!(a.mul(b), Vec3u::new(20, 80, 150));
    assert_eq!(a.div(b), Vec3u::new(5, 5, 6));
    assert_eq!(a.mul_scalar(3), Vec3u::new(30, 60, 90));
    assert_eq!(a.div_scalar(10), Vec3u::new(1, 2, 3));
}

#[test]
fn vec3i_dot_and_magnitude() {
    let a = Vec3i::new(1, -2, 3);
    let b = Vec3i::new(4, 5, -6);
    assert_eq!(a.dot(b), 4 - 10 - 18);
    assert_eq!(a.mag_sq(), 14);
    assert_eq!(a.mag(), 3);
    assert_eq!(Vec3i::new(2, 3, 6).mag(), 7);
}

#[test]
fn vec3i_scenario_cross_of_basis_vectors() {
    assert_eq!(Vec3i::unit_x().cross(Vec3i::unit_y()), Vec3i::unit_z());
    assert_eq!(Vec3u::unit_x().cross(Vec3u::unit_y()), Vec3u::unit_z());
}

#[test]
fn vec3i_cross_known_value() {
    let a = Vec3i::new(1, 2, 3);
    let b = Vec3i::new(4, 5, 6);
    assert_eq!(a.cross(b), Vec3i::new(-3, 6, -3));
    assert_eq!(b.cross(a), Vec3i::new(3, -6, 3));
}

#[test]
fn vec3i_reflect_in_place() {
    let mut v = Vec3i::new(1, -2, 3);
    v.reflect(Vec3i::unit_y());
    assert_eq!(v, Vec3i::new(1, 2, 3));
    assert_eq!(Vec3i::new(1, -2, 3).reflected(Vec3i::unit_y()), Vec3i::new(1, 2, 3));
}

#[test]
fn vec3u_mul_add() {
    let v = Vec3u::new(1, 2, 3);
    assert_eq!(
        v.mul_add(Vec3u::new(4, 5, 6), Vec3u::new(7, 8, 9)),
        Vec3u::new(11, 18, 27)
    );
}

#[test]
fn vec3i_abs_returns_components_unchanged() {
    let v = Vec3i::new(-5, 7, -9);
    assert_eq!(v.abs(), v);
}

#[test]
fn vec3u_clamp() {
    let mut v = Vec3u::new(1, 5, 9);
    v.clamp(Vec3u::broadcast(2), Vec3u::broadcast(6));
    assert_eq!(v, Vec3u::new(2, 5, 6));
    assert_eq!(
        Vec3u::new(1, 5, 9).clamped(Vec3u::broadcast(2), Vec3u::broadcast(6)),
        Vec3u::new(2, 5, 6)
    );
}

#[test]
fn vec3u_map_and_apply() {
    let v = Vec3u::new(1, 2, 3);
    assert_eq!(v.map(|c| c * c), Vec3u::new(1, 4, 9));
    let mut m = v;
    m.apply(|c| c + 10);
    assert_eq!(m, Vec3u::new(11, 12, 13));
}

#[test]
fn vec3u_component_extremes() {
    let a = Vec3u::new(9, 4, 6);
    let b = Vec3u::new(5, 8, 6);
    assert_eq!(a.max_by_component(b), Vec3u::new(9, 8, 6));
    assert_eq!(a.min_by_component(b), Vec3u::new(5, 4, 6));
    assert_eq!(a.component_max(), 9);
    assert_eq!(a.component_min(), 4);
}

#[test]
fn vec3u_indexing() {
    let mut v = Vec3u::new(8, 9, 10);
    assert_eq!(v.component(0), 8);
    assert_eq!(v.component(1), 9);
    assert_eq!(v.component(2), 10);
    v.set_component(2, 17);
    assert_eq!(v, Vec3u::new(8, 9, 17));
}

#[test]
fn vec3u_swizzles() {
    let v = Vec3u::new(1, 2, 3);
    assert_eq!(v.xy(), Vec2u::new(1, 2));
    assert_eq!(v.xyzw(), Vec4u::new(1, 2, 3, 0));
}

#[test]
fn vec3u_conversions() {
    assert_eq!(Vec3u::from([4, 5, 6]), Vec3u::new(4, 5, 6));
    assert_eq!(Vec3u::from(&[4u32, 5u32, 6u32]), Vec3u::new(4, 5, 6));
    assert_eq!(Vec3u::from((6, 7, 8)), Vec3u::new(6, 7, 8));
    assert_eq!(Vec3u::from(&(6u32, 7u32, 8u32)), Vec3u::new(6, 7, 8));
    assert_eq!(Vec3u::from(Vec4u::new(1, 2, 3, 4)), Vec3u::new(1, 2, 3));
    assert_eq!(Vec3i::from(Vec4i::new(-1, -2, -3, -4)), Vec3i::new(-1, -2, -3));
    assert_eq!(Vec3u::new(4, 5, 6).into_array(), [4, 5, 6]);
    assert_eq!(Vec3u::new(4, 5, 6).into_tuple(), (4, 5, 6));
}

#[test]
fn vec3i_scenario_homogeneous_narrowing() {
    assert_eq!(
        Vec3i::from_homogeneous_point(Vec4i::new(2, 4, 6, 2)),
        Vec3i::new(1, 2, 3)
    );
}

#[test]
fn vec3u_homogeneous_bridging() {
    let v = Vec3u::new(3, 4, 5);
    assert_eq!(v.into_homogeneous_point(), Vec4u::new(3, 4, 5, 1));
    assert_eq!(v.into_homogeneous_vector(), Vec4u::new(3, 4, 5, 0));
    assert_eq!(Vec3u::from_homogeneous_vector(Vec4u::new(8, 6, 4, 9)), Vec3u::new(8, 6, 4));
    assert_eq!(Vec2i::from(Vec3i::new(7, 8, 9)), Vec2i::new(7, 8));
}
