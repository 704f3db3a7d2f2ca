use intvec::vec2u::Vec2u;
use intvec::vec3i::Vec3i;
use intvec::vec3u::Vec3u;
use intvec::vec4i::Vec4i;
use intvec::vec4u::Vec4u;

#[test]
fn vec4u_constructors() {
    assert_eq!(Vec4u::new(1, 2, 3, 4), Vec4u { x: 1, y: 2, z: 3, w: 4 });
    assert_eq!(Vec4u::broadcast(7), Vec4u::new(7, 7, 7, 7));
    assert_eq!(Vec4u::zero(), Vec4u::new(0, 0, 0, 0));
    assert_eq!(Vec4u::one(), Vec4u::new(1, 1, 1, 1));
    assert_eq!(Vec4u::unit_x(), Vec4u::new(1, 0, 0, 0));
    assert_eq!(Vec4u::unit_y(), Vec4u::new(0, 1, 0, 0));
    assert_eq!(Vec4u::unit_z(), Vec4u::new(0, 0, 1, 0));
    assert_eq!(Vec4u::unit_w(), Vec4u::new(0, 0, 0, 1));
    assert_eq!(Vec4u::default(), Vec4u::zero());
}

#[test]
fn vec4u_arithmetic() {
    let a = Vec4u::new(10, 20, 30, 40);
    let b = Vec4u::new(2, 4, 5, 8);
    assert_eq!(a.add(b), Vec4u::new(12, 24, 35, 48));
    assert_eq!(a.sub(b), Vec4u::new(8, 16, 25, 32));
    assert_eq!(a.mul(b), Vec4u::new(20, 80, 150, 320));
    assert_eq!(a.div(b), Vec4u::new(5, 5, 6, 5));
    assert_eq!(a.mul_scalar(2), Vec4u::new(20, 40, 60, 80));
    assert_eq!(a.div_scalar(10), Vec4u::new(1, 2, 3, 4));
}

#[test]
fn vec4i_dot_and_magnitude() {
    let a = Vec4i::new(1, -2, 3, -4);
    let b = Vec4i::new(5, 6, 7, 8);
    assert_eq!(a.dot(b), 5 - 12 + 21 - 32);
    assert_eq!(a.mag_sq(), 30);
    assert_eq!(a.mag(), 5);
    assert_eq!(Vec4i::new(2, 4, 4, 1).mag(), 6);
}

#[test]
fn vec4i_reflect() {
    let mut v = Vec4i::new(1, -2, 3, -4);
    v.reflect(Vec4i::unit_w());
    assert_eq!(v, Vec4i::new(1, -2, 3, 4));
    assert_eq!(
        Vec4i::new(1, -2, 3, -4).reflected(Vec4i::unit_w()),
        Vec4i::new(1, -2, 3, 4)
    );
}

#[test]
fn vec4u_mul_add() {
    let v = Vec4u::new(1, 2, 3, 4);
    assert_eq!(
        v.mul_add(Vec4u::new(2, 2, 2, 2), Vec4u::new(1, 1, 1, 1)),
        Vec4u::new(3, 5, 7, 9)
    );
}

#[test]
fn vec4u_clamp() {
    let mut v = Vec4u::new(1, 5, 9, 0);
    v.clamp(Vec4u::broadcast(2), Vec4u::broadcast(6));
    assert_eq!(v, Vec4u::new(2, 5, 6, 2));
    assert_eq!(
        Vec4u::new(1, 5, 9, 0).clamped(Vec4u::broadcast(2), Vec4u::broadcast(6)),
        Vec4u::new(2, 5, 6, 2)
    );
}

#[test]
fn vec4u_map_and_apply() {
    let v = Vec4u::new(1, 2, 3, 4);
    assert_eq!(v.map(|c| c * 2), Vec4u::new(2, 4, 6, 8));
    let mut m = v;
    m.apply(|c| c + 1);
    assert_eq!(m, Vec4u::new(2, 3, 4, 5));
}

#[test]
fn vec4u_component_extremes() {
    let a = Vec4u::new(9, 4, 6, 2);
    let b = Vec4u::new(5, 8, 6, 3);
    assert_eq!(a.max_by_component(b), Vec4u::new(9, 8, 6, 3));
    assert_eq!(a.min_by_component(b), Vec4u::new(5, 4, 6, 2));
    assert_eq!(a.component_max(), 9);
    assert_eq!(a.component_min(), 2);
}

#[test]
fn vec4u_indexing() {
    let mut v = Vec4u::new(8, 9, 10, 11);
    assert_eq!(v.component(0), 8);
    assert_eq!(v.component(3), 11);
    v.set_component(3, 17);
    assert_eq!(v, Vec4u::new(8, 9, 10, 17));
}

#[test]
fn vec4u_swizzles() {
    let v = Vec4u::new(1, 2, 3, 4);
    assert_eq!(v.xy(), Vec2u::new(1, 2));
    assert_eq!(v.xyz(), Vec3u::new(1, 2, 3));
}

#[test]
fn vec4u_conversions() {
    assert_eq!(Vec4u::from([4, 5, 6, 7]), Vec4u::new(4, 5, 6, 7));
    assert_eq!(Vec4u::from(&[4u32, 5u32, 6u32, 7u32]), Vec4u::new(4, 5, 6, 7));
    assert_eq!(Vec4u::from((6, 7, 8, 9)), Vec4u::new(6, 7, 8, 9));
    assert_eq!(Vec4u::from(&(6u32, 7u32, 8u32, 9u32)), Vec4u::new(6, 7, 8, 9));
    assert_eq!(Vec4u::from(Vec3u::new(1, 2, 3)), Vec4u::new(1, 2, 3, 0));
    assert_eq!(Vec4i::from(Vec3i::new(-1, -2, -3)), Vec4i::new(-1, -2, -3, 0));
    assert_eq!(Vec4u::new(4, 5, 6, 7).into_array(), [4, 5, 6, 7]);
    assert_eq!(Vec4u::new(4, 5, 6, 7).into_tuple(), (4, 5, 6, 7));
}
