use intvec::MulAdd;
use intvec::vec2i::Vec2i;
use intvec::vec2u::Vec2u;
use intvec::vec3i::Vec3i;
use intvec::vec3u::Vec3u;
use intvec::vec4i::Vec4i;
use intvec::vec4u::Vec4u;

#[test]
fn muladd_is_multiply_then_add() {
    assert_eq!(3u32.mul_add(4, 5), 17);
    assert_eq!((-3i32).mul_add(4, 5), -7);
    assert_eq!(u32::MAX.mul_add(2, 3), u32::MAX.wrapping_mul(2).wrapping_add(3));
    assert_eq!(i32::MIN.mul_add(-1, -1), i32::MIN.wrapping_mul(-1).wrapping_add(-1));
}

#[test]
fn homogeneous_round_trips() {
    let v2u = Vec2u::new(11, 22);
    assert_eq!(Vec2u::from_homogeneous_point(v2u.into_homogeneous_point()), v2u);
    assert_eq!(Vec2u::from_homogeneous_vector(v2u.into_homogeneous_vector()), v2u);
    let v2i = Vec2i::new(-11, 22);
    assert_eq!(Vec2i::from_homogeneous_point(v2i.into_homogeneous_point()), v2i);
    assert_eq!(Vec2i::from_homogeneous_vector(v2i.into_homogeneous_vector()), v2i);
    let v3u = Vec3u::new(11, 22, 33);
    assert_eq!(Vec3u::from_homogeneous_point(v3u.into_homogeneous_point()), v3u);
    assert_eq!(Vec3u::from_homogeneous_vector(v3u.into_homogeneous_vector()), v3u);
    let v3i = Vec3i::new(-11, 22, -33);
    assert_eq!(Vec3i::from_homogeneous_point(v3i.into_homogeneous_point()), v3i);
    assert_eq!(Vec3i::from_homogeneous_vector(v3i.into_homogeneous_vector()), v3i);
}

#[test]
fn scale_then_divide_returns_original() {
    let v2 = Vec2u::new(12, 34);
    assert_eq!(v2.mul_scalar(7).div_scalar(7), v2);
    let v2i = Vec2i::new(-12, 34);
    assert_eq!(v2i.mul_scalar(-7).div_scalar(-7), v2i);
    let v3 = Vec3i::new(-12, 34, 56);
    assert_eq!(v3.mul_scalar(9).div_scalar(9), v3);
    let v4 = Vec4u::new(1, 2, 3, 4);
    assert_eq!(v4.mul_scalar(1000).div_scalar(1000), v4);
}

#[test]
fn dot_is_commutative() {
    let a2 = Vec2u::new(3, 4);
    let b2 = Vec2u::new(u32::MAX, 7);
    assert_eq!(a2.dot(b2), b2.dot(a2));
    let a3 = Vec3i::new(-3, 4, i32::MIN);
    let b3 = Vec3i::new(9, -7, 5);
    assert_eq!(a3.dot(b3), b3.dot(a3));
    let a4 = Vec4i::new(-3, 4, 5, -6);
    let b4 = Vec4i::new(9, -7, 5, 2);
    assert_eq!(a4.dot(b4), b4.dot(a4));
}

#[test]
fn cross_is_antisymmetric() {
    let a = Vec3i::new(-3, 4, 5);
    let b = Vec3i::new(9, -7, 2);
    let ab = a.cross(b);
    let ba = b.cross(a);
    assert_eq!(ab, Vec3i::new(-ba.x, -ba.y, -ba.z));
    let w = Vec3i::new(i32::MIN, i32::MAX, -1);
    let u = Vec3i::new(7, i32::MIN, 3);
    let wu = w.cross(u);
    let uw = u.cross(w);
    assert_eq!(
        wu,
        Vec3i::new(uw.x.wrapping_neg(), uw.y.wrapping_neg(), uw.z.wrapping_neg())
    );
}

#[test]
fn zero_is_additive_identity_and_one_multiplicative() {
    let v2 = Vec2u::new(u32::MAX, 5);
    assert_eq!(v2.add(Vec2u::zero()), v2);
    assert_eq!(v2.mul(Vec2u::one()), v2);
    let v3 = Vec3i::new(i32::MIN, -5, i32::MAX);
    assert_eq!(v3.add(Vec3i::zero()), v3);
    assert_eq!(v3.mul(Vec3i::one()), v3);
    let v4 = Vec4i::new(-1, 0, 1, i32::MIN);
    assert_eq!(v4.add(Vec4i::zero()), v4);
    assert_eq!(v4.mul(Vec4i::one()), v4);
}

#[test]
fn byte_views_have_packed_length() {
    assert_eq!(Vec2u::new(1, 2).to_bytes().len(), 8);
    assert_eq!(Vec2i::new(-1, 2).to_bytes().len(), 8);
    assert_eq!(Vec3u::new(1, 2, 3).to_bytes().len(), 12);
    assert_eq!(Vec3i::new(-1, 2, -3).to_bytes().len(), 12);
    assert_eq!(Vec4u::new(1, 2, 3, 4).to_bytes().len(), 16);
    assert_eq!(Vec4i::new(-1, 2, -3, 4).to_bytes().len(), 16);
    assert_eq!(Vec2u::byte_size(), 8);
    assert_eq!(Vec3i::byte_size(), 12);
    assert_eq!(Vec4u::byte_size(), 16);
    assert_eq!(Vec2u::byte_align(), 4);
    assert_eq!(Vec4i::byte_align(), 4);
}

#[test]
fn byte_views_are_little_endian_in_declaration_order() {
    let v = Vec2u::new(0x0403_0201, 0x0807_0605);
    assert_eq!(v.to_bytes(), vec![1, 2, 3, 4, 5, 6, 7, 8]);
    let w = Vec3i::new(-1, 0x0100, 2);
    assert_eq!(
        w.to_bytes(),
        vec![0xff, 0xff, 0xff, 0xff, 0, 1, 0, 0, 2, 0, 0, 0]
    );
}
