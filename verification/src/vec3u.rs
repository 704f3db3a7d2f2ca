//! The unsigned 3-component vector.

use crate::arith::{
    clamp_u32, isqrt32, lemma_mul_div_exact_u32, lemma_wrapping_mul_one_u32, max_u32, min_u32,
    push_u32_le, u32_le_bytes, wneg_u32,
};
use crate::muladd::MulAdd;
use crate::vec2u::Vec2u;
use crate::vec4u::Vec4u;
use vstd::prelude::*;

verus! {

/// A set of three coordinates which may be interpreted as a point or vector
/// in 3d space, or as a homogeneous 2d vector or point.
///
/// Generally this distinction between a point and vector is more of a pain
/// than it is worth to distinguish on a type level, however when converting
/// to and from homogeneous coordinates it is quite important.
#[derive(Clone, Copy, Debug, PartialEq, Eq, Structural, Hash)]
pub struct Vec3u {
    pub x: u32,
    pub y: u32,
    pub z: u32,
}

impl View for Vec3u {
    type V = Seq<u32>;

    open spec fn view(&self) -> Seq<u32> {
        seq![self.x, self.y, self.z]
    }
}

impl Default for Vec3u {
    /// The all-zero vector.
    fn default() -> (r: Self)
        ensures
            r == Self::zero_spec(),
    {
        Self::zero()
    }
}

impl Vec3u {
    /// The all-zero vector.
    pub open spec fn zero_spec() -> Self {
        Vec3u { x: 0, y: 0, z: 0 }
    }

    /// The all-one vector.
    pub open spec fn one_spec() -> Self {
        Vec3u { x: 1, y: 1, z: 1 }
    }

    /// Component-wise wraparound sum.
    pub open spec fn add_spec(self, rhs: Self) -> Self {
        Vec3u { x: self.x.wrapping_add(rhs.x), y: self.y.wrapping_add(rhs.y), z: self.z.wrapping_add(rhs.z) }
    }

    /// Component-wise wraparound difference.
    pub open spec fn sub_spec(self, rhs: Self) -> Self {
        Vec3u { x: self.x.wrapping_sub(rhs.x), y: self.y.wrapping_sub(rhs.y), z: self.z.wrapping_sub(rhs.z) }
    }

    /// Component-wise wraparound product.
    pub open spec fn mul_spec(self, rhs: Self) -> Self {
        Vec3u { x: self.x.wrapping_mul(rhs.x), y: self.y.wrapping_mul(rhs.y), z: self.z.wrapping_mul(rhs.z) }
    }

    /// Every component multiplied by one scalar, with wraparound.
    pub open spec fn mul_scalar_spec(self, rhs: u32) -> Self {
        Vec3u { x: self.x.wrapping_mul(rhs), y: self.y.wrapping_mul(rhs), z: self.z.wrapping_mul(rhs) }
    }

    /// Component-wise quotient.
    pub open spec fn div_spec(self, rhs: Self) -> Self {
        Vec3u { x: self.x / rhs.x, y: self.y / rhs.y, z: self.z / rhs.z }
    }

    /// Every component divided by one scalar.
    pub open spec fn div_scalar_spec(self, rhs: u32) -> Self {
        Vec3u { x: self.x / rhs, y: self.y / rhs, z: self.z / rhs }
    }

    /// The dot product: nested fused multiply-adds over the component
    /// pairs in declaration order, the last pair innermost.
    pub open spec fn dot_spec(self, other: Self) -> u32 {
        self.x.mul_add_spec(other.x, self.y.mul_add_spec(other.y, self.z.wrapping_mul(other.z)))
    }

    /// The squared magnitude: the vector's dot product with itself.
    pub open spec fn mag_sq_spec(self) -> u32 {
        self.dot_spec(self)
    }

    /// Reflection about a normal: `v - 2 * (v . n) * n`, with wraparound.
    pub open spec fn reflected_spec(self, normal: Self) -> Self {
        let s = 2u32.wrapping_mul(self.dot_spec(normal));
        Vec3u {
            x: self.x.wrapping_sub(s.wrapping_mul(normal.x)),
            y: self.y.wrapping_sub(s.wrapping_mul(normal.y)),
            z: self.z.wrapping_sub(s.wrapping_mul(normal.z)),
        }
    }

    /// The 3d cross product, each component one fused multiply-add of a
    /// product pair against the wraparound negation of the other.
    pub open spec fn cross_spec(self, other: Self) -> Self {
        Vec3u {
            x: self.y.mul_add_spec(other.z, wneg_u32(self.z).wrapping_mul(other.y)),
            y: self.z.mul_add_spec(other.x, wneg_u32(self.x).wrapping_mul(other.z)),
            z: self.x.mul_add_spec(other.y, wneg_u32(self.y).wrapping_mul(other.x)),
        }
    }

    /// Component-wise fused multiply-add across three vectors.
    pub open spec fn mul_add_spec(self, mul: Self, add: Self) -> Self {
        Vec3u { x: self.x.mul_add_spec(mul.x, add.x), y: self.y.mul_add_spec(mul.y, add.y), z: self.z.mul_add_spec(mul.z, add.z) }
    }

    /// Every component clamped to the box `[min, max]`.
    pub open spec fn clamp_spec(self, min: Self, max: Self) -> Self {
        Vec3u { x: clamp_u32(self.x, min.x, max.x), y: clamp_u32(self.y, min.y, max.y), z: clamp_u32(self.z, min.z, max.z) }
    }

    /// Component-wise larger value.
    pub open spec fn max_by_component_spec(self, other: Self) -> Self {
        Vec3u { x: max_u32(self.x, other.x), y: max_u32(self.y, other.y), z: max_u32(self.z, other.z) }
    }

    /// Component-wise smaller value.
    pub open spec fn min_by_component_spec(self, other: Self) -> Self {
        Vec3u { x: min_u32(self.x, other.x), y: min_u32(self.y, other.y), z: min_u32(self.z, other.z) }
    }

    /// Widening by appending a `1`: the homogeneous image of a point.
    pub open spec fn into_homogeneous_point_spec(self) -> Vec4u {
        Vec4u { x: self.x, y: self.y, z: self.z, w: 1 }
    }

    /// Widening by appending a `0`: the homogeneous image of a vector.
    pub open spec fn into_homogeneous_vector_spec(self) -> Vec4u {
        Vec4u { x: self.x, y: self.y, z: self.z, w: 0 }
    }

    /// Narrowing a homogeneous point: each kept component divided by the
    /// homogeneous one.
    pub open spec fn from_homogeneous_point_spec(v: Vec4u) -> Self {
        Vec3u { x: v.x / v.w, y: v.y / v.w, z: v.z / v.w }
    }

    /// Narrowing a homogeneous vector: the homogeneous component is dropped.
    pub open spec fn from_homogeneous_vector_spec(v: Vec4u) -> Self {
        Vec3u { x: v.x, y: v.y, z: v.z }
    }

    /// The packed little-endian image of the components in declaration order.
    pub open spec fn bytes_spec(self) -> Seq<u8> {
        u32_le_bytes(self.x) + u32_le_bytes(self.y) + u32_le_bytes(self.z)
    }

    #[inline]
    pub fn new(x: u32, y: u32, z: u32) -> (r: Self)
        ensures
            r == (Vec3u { x, y, z }),
    {
        Vec3u { x, y, z }
    }

    #[inline]
    pub fn broadcast(val: u32) -> (r: Self)
        ensures
            r == (Vec3u { x: val, y: val, z: val }),
    {
        Self::new(val, val, val)
    }

    #[inline]
    pub fn unit_x() -> (r: Self)
        ensures
            r == (Vec3u { x: 1, y: 0, z: 0 }),
    {
        Vec3u { x: 1, y: 0, z: 0 }
    }

    #[inline]
    pub fn unit_y() -> (r: Self)
        ensures
            r == (Vec3u { x: 0, y: 1, z: 0 }),
    {
        Vec3u { x: 0, y: 1, z: 0 }
    }

    #[inline]
    pub fn unit_z() -> (r: Self)
        ensures
            r == (Vec3u { x: 0, y: 0, z: 1 }),
    {
        Vec3u { x: 0, y: 0, z: 1 }
    }

    #[inline]
    pub fn zero() -> (r: Self)
        ensures
            r == Self::zero_spec(),
    {
        Self::broadcast(0)
    }

    #[inline]
    pub fn one() -> (r: Self)
        ensures
            r == Self::one_spec(),
    {
        Self::broadcast(1)
    }

    /// Create a homogeneous 3d *point* from this vector interpreted as a
    /// point, meaning the homogeneous component will start with a value of 1.
    #[inline]
    pub fn into_homogeneous_point(self) -> (r: Vec4u)
        ensures
            r == self.into_homogeneous_point_spec(),
    {
        Vec4u { x: self.x, y: self.y, z: self.z, w: 1 }
    }

    /// Create a homogeneous 3d *vector* from this vector, meaning the
    /// homogeneous component will always have a value of 0.
    #[inline]
    pub fn into_homogeneous_vector(self) -> (r: Vec4u)
        ensures
            r == self.into_homogeneous_vector_spec(),
    {
        Vec4u { x: self.x, y: self.y, z: self.z, w: 0 }
    }

    /// Create a 3d point from a homogeneous 3d *point*, performing division
    /// by the homogeneous component. This should not be used for homogeneous
    /// 3d *vectors*, which will have 0 as their homogeneous component: that
    /// division would end the process, so a nonzero homogeneous component is
    /// demanded of the caller here.
    #[inline]
    pub fn from_homogeneous_point(v: Vec4u) -> (r: Self)
        requires
            v.w != 0,
        ensures
            r == Self::from_homogeneous_point_spec(v),
    {
        Vec3u { x: v.x / v.w, y: v.y / v.w, z: v.z / v.w }
    }

    /// Create a 3d vector from a homogeneous 3d *vector*, which simply
    /// discards the homogeneous component.
    #[inline]
    pub fn from_homogeneous_vector(v: Vec4u) -> (r: Self)
        ensures
            r == Self::from_homogeneous_vector_spec(v),
    {
        Vec3u { x: v.x, y: v.y, z: v.z }
    }

    #[inline]
    pub fn dot(&self, other: Self) -> (r: u32)
        ensures
            r == self.dot_spec(other),
    {
        self.x.mul_add(other.x, self.y.mul_add(other.y, self.z.wrapping_mul(other.z)))
    }

    /// The 3d cross product. It is defined uniformly for both element
    /// kinds, with each negation taken with wraparound.
    #[inline]
    pub fn cross(&self, other: Self) -> (r: Self)
        ensures
            r == self.cross_spec(other),
    {
        Self::new(
            self.y.mul_add(other.z, (0u32.wrapping_sub(self.z)).wrapping_mul(other.y)),
            self.z.mul_add(other.x, (0u32.wrapping_sub(self.x)).wrapping_mul(other.z)),
            self.x.mul_add(other.y, (0u32.wrapping_sub(self.y)).wrapping_mul(other.x)),
        )
    }

    /// Reflects this vector about the normal, in place.
    #[inline]
    pub fn reflect(&mut self, normal: Self)
        ensures
            *final(self) == old(self).reflected_spec(normal),
    {
        let s: u32 = 2u32.wrapping_mul(self.dot(normal));
        self.x = self.x.wrapping_sub(s.wrapping_mul(normal.x));
        self.y = self.y.wrapping_sub(s.wrapping_mul(normal.y));
        self.z = self.z.wrapping_sub(s.wrapping_mul(normal.z));
    }

    #[inline]
    pub fn reflected(&self, normal: Self) -> (r: Self)
        ensures
            r == self.reflected_spec(normal),
    {
        let mut a = *self;
        a.reflect(normal);
        a
    }

    /// The magnitude, rounded down to the element kind: the integer square
    /// root of the squared magnitude.
    #[inline]
    pub fn mag(&self) -> (r: u32)
        ensures
            r * r <= self.mag_sq_spec(),
            self.mag_sq_spec() < (r + 1) * (r + 1),
    {
        isqrt32(self.mag_sq())
    }

    #[inline]
    pub fn mag_sq(&self) -> (r: u32)
        ensures
            r == self.mag_sq_spec(),
    {
        self.x.mul_add(self.x, self.y.mul_add(self.y, self.z.wrapping_mul(self.z)))
    }

    #[inline]
    pub fn mul_add(&self, mul: Self, add: Self) -> (r: Self)
        ensures
            r == self.mul_add_spec(mul, add),
    {
        Self::new(self.x.mul_add(mul.x, add.x), self.y.mul_add(mul.y, add.y), self.z.mul_add(mul.z, add.z))
    }

    /// Rebuilds the vector from its own components, unchanged. The name is
    /// kept for callers that expect an absolute-value hook; no component is
    /// negated, whatever its kind.
    #[inline]
    pub fn abs(&self) -> (r: Self)
        ensures
            r == *self,
    {
        Self::new(self.x, self.y, self.z)
    }

    #[inline]
    pub fn clamp(&mut self, min: Self, max: Self)
        ensures
            *final(self) == old(self).clamp_spec(min, max),
    {
        let rx: u32 = if self.x < min.x {
            min.x
        } else {
            self.x
        };
        self.x = if rx > max.x {
            max.x
        } else {
            rx
        };
        let ry: u32 = if self.y < min.y {
            min.y
        } else {
            self.y
        };
        self.y = if ry > max.y {
            max.y
        } else {
            ry
        };
        let rz: u32 = if self.z < min.z {
            min.z
        } else {
            self.z
        };
        self.z = if rz > max.z {
            max.z
        } else {
            rz
        };
    }

    #[inline]
    pub fn clamped(self, min: Self, max: Self) -> (r: Self)
        ensures
            r == self.clamp_spec(min, max),
    {
        let mut a = self;
        a.clamp(min, max);
        a
    }

    /// A new vector with `f` applied to every component, in declaration
    /// order.
    #[inline]
    pub fn map<F: Fn(u32) -> u32>(&self, f: F) -> (r: Self)
        requires
            call_requires(f, (self.x,)),
            call_requires(f, (self.y,)),
            call_requires(f, (self.z,)),
        ensures
            call_ensures(f, (self.x,), r.x),
            call_ensures(f, (self.y,), r.y),
            call_ensures(f, (self.z,), r.z),
    {
        Self::new(f(self.x), f(self.y), f(self.z))
    }

    /// Applies `f` to every component in place, in declaration order.
    #[inline]
    pub fn apply<F: Fn(u32) -> u32>(&mut self, f: F)
        requires
            call_requires(f, (old(self).x,)),
            call_requires(f, (old(self).y,)),
            call_requires(f, (old(self).z,)),
        ensures
            call_ensures(f, (old(self).x,), final(self).x),
            call_ensures(f, (old(self).y,), final(self).y),
            call_ensures(f, (old(self).z,), final(self).z),
    {
        self.x = f(self.x);
        self.y = f(self.y);
        self.z = f(self.z);
    }

    #[inline]
    pub fn max_by_component(self, other: Self) -> (r: Self)
        ensures
            r == self.max_by_component_spec(other),
    {
        let mut a = self;
        a.x = if a.x < other.x {
            other.x
        } else {
            a.x
        };
        a.y = if a.y < other.y {
            other.y
        } else {
            a.y
        };
        a.z = if a.z < other.z {
            other.z
        } else {
            a.z
        };
        a
    }

    #[inline]
    pub fn min_by_component(self, other: Self) -> (r: Self)
        ensures
            r == self.min_by_component_spec(other),
    {
        let mut a = self;
        a.x = if a.x < other.x {
            a.x
        } else {
            other.x
        };
        a.y = if a.y < other.y {
            a.y
        } else {
            other.y
        };
        a.z = if a.z < other.z {
            a.z
        } else {
            other.z
        };
        a
    }

    /// The largest single component.
    #[inline]
    pub fn component_max(&self) -> (r: u32)
        ensures
            r == max_u32(max_u32(self.x, self.y), self.z),
    {
        let mut m: u32 = self.x;
        m = if m < self.y {
            self.y
        } else {
            m
        };
        m = if m < self.z {
            self.z
        } else {
            m
        };
        m
    }

    /// The smallest single component.
    #[inline]
    pub fn component_min(&self) -> (r: u32)
        ensures
            r == min_u32(min_u32(self.x, self.y), self.z),
    {
        let mut m: u32 = self.x;
        m = if m < self.y {
            m
        } else {
            self.y
        };
        m = if m < self.z {
            m
        } else {
            self.z
        };
        m
    }

    /// Truncation to the first two components: a plain dimension change, not a homogeneous-coordinate operation.
    #[inline]
    pub fn xy(&self) -> (r: Vec2u)
        ensures
            r == (Vec2u { x: self.x, y: self.y }),
    {
        Vec2u::new(self.x, self.y)
    }

    /// Widening by zero-extension to four components.
    #[inline]
    pub fn xyzw(&self) -> (r: Vec4u)
        ensures
            r == (Vec4u { x: self.x, y: self.y, z: self.z, w: 0 }),
    {
        Vec4u::new(self.x, self.y, self.z, 0)
    }

    // --- component-wise and scalar arithmetic, with wraparound ---

    #[inline]
    pub fn add(self, rhs: Self) -> (r: Self)
        ensures
            r == self.add_spec(rhs),
    {
        Self::new(self.x.wrapping_add(rhs.x), self.y.wrapping_add(rhs.y), self.z.wrapping_add(rhs.z))
    }

    #[inline]
    pub fn add_assign(&mut self, rhs: Self)
        ensures
            *final(self) == old(self).add_spec(rhs),
    {
        self.x = self.x.wrapping_add(rhs.x);
        self.y = self.y.wrapping_add(rhs.y);
        self.z = self.z.wrapping_add(rhs.z);
    }

    #[inline]
    pub fn sub(self, rhs: Self) -> (r: Self)
        ensures
            r == self.sub_spec(rhs),
    {
        Self::new(self.x.wrapping_sub(rhs.x), self.y.wrapping_sub(rhs.y), self.z.wrapping_sub(rhs.z))
    }

    #[inline]
    pub fn sub_assign(&mut self, rhs: Self)
        ensures
            *final(self) == old(self).sub_spec(rhs),
    {
        self.x = self.x.wrapping_sub(rhs.x);
        self.y = self.y.wrapping_sub(rhs.y);
        self.z = self.z.wrapping_sub(rhs.z);
    }

    #[inline]
    pub fn mul(self, rhs: Self) -> (r: Self)
        ensures
            r == self.mul_spec(rhs),
    {
        Self::new(self.x.wrapping_mul(rhs.x), self.y.wrapping_mul(rhs.y), self.z.wrapping_mul(rhs.z))
    }

    #[inline]
    pub fn mul_assign(&mut self, rhs: Self)
        ensures
            *final(self) == old(self).mul_spec(rhs),
    {
        self.x = self.x.wrapping_mul(rhs.x);
        self.y = self.y.wrapping_mul(rhs.y);
        self.z = self.z.wrapping_mul(rhs.z);
    }

    #[inline]
    pub fn mul_scalar(self, rhs: u32) -> (r: Self)
        ensures
            r == self.mul_scalar_spec(rhs),
    {
        Self::new(self.x.wrapping_mul(rhs), self.y.wrapping_mul(rhs), self.z.wrapping_mul(rhs))
    }

    #[inline]
    pub fn mul_assign_scalar(&mut self, rhs: u32)
        ensures
            *final(self) == old(self).mul_scalar_spec(rhs),
    {
        self.x = self.x.wrapping_mul(rhs);
        self.y = self.y.wrapping_mul(rhs);
        self.z = self.z.wrapping_mul(rhs);
    }

    #[inline]
    pub fn div(self, rhs: Self) -> (r: Self)
        requires
            rhs.x != 0,
            rhs.y != 0,
            rhs.z != 0,
        ensures
            r == self.div_spec(rhs),
    {
        Self::new(self.x / rhs.x, self.y / rhs.y, self.z / rhs.z)
    }

    #[inline]
    pub fn div_assign(&mut self, rhs: Self)
        requires
            rhs.x != 0,
            rhs.y != 0,
            rhs.z != 0,
        ensures
            *final(self) == old(self).div_spec(rhs),
    {
        self.x = self.x / rhs.x;
        self.y = self.y / rhs.y;
        self.z = self.z / rhs.z;
    }

    #[inline]
    pub fn div_scalar(self, rhs: u32) -> (r: Self)
        requires
            rhs != 0,
        ensures
            r == self.div_scalar_spec(rhs),
    {
        Self::new(self.x / rhs, self.y / rhs, self.z / rhs)
    }

    #[inline]
    pub fn div_assign_scalar(&mut self, rhs: u32)
        requires
            rhs != 0,
        ensures
            *final(self) == old(self).div_scalar_spec(rhs),
    {
        self.x = self.x / rhs;
        self.y = self.y / rhs;
        self.z = self.z / rhs;
    }

    // --- indexed access ---

    /// The component at `index`, in declaration order. An index at or past
    /// the component count is a contract violation and ends the process.
    pub fn component(&self, index: usize) -> (r: u32)
        requires
            index < 3,
        ensures
            r == self@[index as int],
    {
        match index {
            0 => self.x,
            1 => self.y,
            2 => self.z,
            _ => vstd::pervasive::unreached(),
        }
    }

    /// Replaces the component at `index`. An index at or past the component
    /// count is a contract violation and ends the process.
    pub fn set_component(&mut self, index: usize, value: u32)
        requires
            index < 3,
        ensures
            final(self)@ == old(self)@.update(index as int, value),
    {
        match index {
            0 => self.x = value,
            1 => self.y = value,
            2 => self.z = value,
            _ => vstd::pervasive::unreached(),
        }
        proof {
            assert(self@ =~= old(self)@.update(index as int, value));
        }
    }

    // --- packed views ---

    /// The number of bytes in the packed image: the component count times
    /// the element size.
    #[inline]
    pub fn byte_size() -> (r: usize)
        ensures
            r == 12,
    {
        12
    }

    /// The alignment a buffer of these vectors needs: that of the element
    /// kind.
    #[inline]
    pub fn byte_align() -> (r: usize)
        ensures
            r == 4,
    {
        4
    }

    /// The components as a contiguous little-endian byte image, in
    /// declaration order.
    pub fn to_bytes(&self) -> (r: Vec<u8>)
        ensures
            r@ == self.bytes_spec(),
            r@.len() == 12,
    {
        let mut out: Vec<u8> = Vec::new();
        push_u32_le(&mut out, self.x);
        push_u32_le(&mut out, self.y);
        push_u32_le(&mut out, self.z);
        proof {
            assert(out@ =~= self.bytes_spec());
        }
        out
    }

    /// The components as a fixed-size array, in declaration order.
    #[inline]
    pub fn into_array(self) -> (r: [u32; 3])
        ensures
            r@ == self@,
    {
        let r = [self.x, self.y, self.z];
        proof {
            assert(r@ =~= self@);
        }
        r
    }

    /// The components as a tuple, in declaration order.
    #[inline]
    pub fn into_tuple(self) -> (r: (u32, u32, u32))
        ensures
            r.0 == self.x,
            r.1 == self.y,
            r.2 == self.z,
    {
        (self.x, self.y, self.z)
    }
}

impl vstd::std_specs::convert::FromSpecImpl<[u32; 3]> for Vec3u {
    open spec fn obeys_from_spec() -> bool {
        true
    }

    open spec fn from_spec(comps: [u32; 3]) -> Vec3u {
        Vec3u { x: comps@[0], y: comps@[1], z: comps@[2] }
    }
}

impl From<[u32; 3]> for Vec3u {
    #[inline]
    fn from(comps: [u32; 3]) -> (r: Self) {
        Self::new(comps[0], comps[1], comps[2])
    }
}

impl vstd::std_specs::convert::FromSpecImpl<&[u32; 3]> for Vec3u {
    open spec fn obeys_from_spec() -> bool {
        true
    }

    open spec fn from_spec(comps: &[u32; 3]) -> Vec3u {
        Vec3u { x: comps@[0], y: comps@[1], z: comps@[2] }
    }
}

impl From<&[u32; 3]> for Vec3u {
    #[inline]
    fn from(comps: &[u32; 3]) -> (r: Self) {
        Self::new(comps[0], comps[1], comps[2])
    }
}

impl vstd::std_specs::convert::FromSpecImpl<(u32, u32, u32)> for Vec3u {
    open spec fn obeys_from_spec() -> bool {
        true
    }

    open spec fn from_spec(comps: (u32, u32, u32)) -> Vec3u {
        Vec3u { x: comps.0, y: comps.1, z: comps.2 }
    }
}

impl From<(u32, u32, u32)> for Vec3u {
    #[inline]
    fn from(comps: (u32, u32, u32)) -> (r: Self) {
        Self::new(comps.0, comps.1, comps.2)
    }
}

impl vstd::std_specs::convert::FromSpecImpl<&(u32, u32, u32)> for Vec3u {
    open spec fn obeys_from_spec() -> bool {
        true
    }

    open spec fn from_spec(comps: &(u32, u32, u32)) -> Vec3u {
        Vec3u { x: comps.0, y: comps.1, z: comps.2 }
    }
}

impl From<&(u32, u32, u32)> for Vec3u {
    #[inline]
    fn from(comps: &(u32, u32, u32)) -> (r: Self) {
        Self::new(comps.0, comps.1, comps.2)
    }
}

impl vstd::std_specs::convert::FromSpecImpl<Vec4u> for Vec3u {
    open spec fn obeys_from_spec() -> bool {
        true
    }

    open spec fn from_spec(vec: Vec4u) -> Vec3u {
        Vec3u { x: vec.x, y: vec.y, z: vec.z }
    }
}

impl From<Vec4u> for Vec3u {
    /// Truncation to the first three components: a plain dimension
    /// change, not a homogeneous-coordinate operation.
    #[inline]
    fn from(vec: Vec4u) -> (r: Self) {
        Vec3u { x: vec.x, y: vec.y, z: vec.z }
    }
}

// --- laws ---

/// Widening a point into homogeneous coordinates and narrowing back by the
/// homogeneous division returns the original vector.
pub proof fn lemma_vec3u_homogeneous_point_round_trip(v: Vec3u)
    ensures
        Vec3u::from_homogeneous_point_spec(v.into_homogeneous_point_spec()) == v,
{
    vstd::arithmetic::div_mod::lemma_div_basics(v.x as int);
    vstd::arithmetic::div_mod::lemma_div_basics(v.y as int);
    vstd::arithmetic::div_mod::lemma_div_basics(v.z as int);
}

/// Widening a vector into homogeneous coordinates and dropping the appended
/// component returns the original vector.
pub proof fn lemma_vec3u_homogeneous_vector_round_trip(v: Vec3u)
    ensures
        Vec3u::from_homogeneous_vector_spec(v.into_homogeneous_vector_spec()) == v,
{
}

/// The dot product is commutative.
pub proof fn lemma_vec3u_dot_comm(a: Vec3u, b: Vec3u)
    ensures
        a.dot_spec(b) == b.dot_spec(a),
{
}

/// The all-zero vector is the additive identity.
pub proof fn lemma_vec3u_add_zero(v: Vec3u)
    ensures
        v.add_spec(Vec3u::zero_spec()) == v,
{
}

/// The all-one vector is the identity of the component-wise product.
pub proof fn lemma_vec3u_mul_one(v: Vec3u)
    ensures
        v.mul_spec(Vec3u::one_spec()) == v,
{
    lemma_wrapping_mul_one_u32(v.x);
    lemma_wrapping_mul_one_u32(v.y);
    lemma_wrapping_mul_one_u32(v.z);
}

/// Scaling by a nonzero scalar and dividing by it returns the original
/// vector, whenever no component's product wraps.
pub proof fn lemma_vec3u_mul_div_scalar(v: Vec3u, s: u32)
    requires
        s != 0,
        v.x * s <= u32::MAX,
        v.y * s <= u32::MAX,
        v.z * s <= u32::MAX,
    ensures
        v.mul_scalar_spec(s).div_scalar_spec(s) == v,
{
    lemma_mul_div_exact_u32(v.x, s);
    lemma_mul_div_exact_u32(v.y, s);
    lemma_mul_div_exact_u32(v.z, s);
}

} // verus!
