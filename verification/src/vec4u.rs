//! The unsigned 4-component vector.

use crate::arith::{
    clamp_u32, isqrt32, lemma_mul_div_exact_u32, lemma_wrapping_mul_one_u32, max_u32, min_u32,
    push_u32_le, u32_le_bytes,
};
use crate::muladd::MulAdd;
use crate::vec2u::Vec2u;
use crate::vec3u::Vec3u;
use vstd::prelude::*;

verus! {

/// A set of four coordinates which may be interpreted as a point or vector
/// in 4d space, or as a homogeneous 3d vector or point.
///
/// Generally this distinction between a point and vector is more of a pain
/// than it is worth to distinguish on a type level, however when converting
/// to and from homogeneous coordinates it is quite important.
#[derive(Clone, Copy, Debug, PartialEq, Eq, Structural, Hash)]
pub struct Vec4u {
    pub x: u32,
    pub y: u32,
    pub z: u32,
    pub w: u32,
}

impl View for Vec4u {
    type V = Seq<u32>;

    open spec fn view(&self) -> Seq<u32> {
        seq![self.x, self.y, self.z, self.w]
    }
}

impl Default for Vec4u {
    /// The all-zero vector.
    fn default() -> (r: Self)
        ensures
            r == Self::zero_spec(),
    {
        Self::zero()
    }
}

impl Vec4u {
    /// The all-zero vector.
    pub open spec fn zero_spec() -> Self {
        Vec4u { x: 0, y: 0, z: 0, w: 0 }
    }

    /// The all-one vector.
    pub open spec fn one_spec() -> Self {
        Vec4u { x: 1, y: 1, z: 1, w: 1 }
    }

    /// Component-wise wraparound sum.
    pub open spec fn add_spec(self, rhs: Self) -> Self {
        Vec4u { x: self.x.wrapping_add(rhs.x), y: self.y.wrapping_add(rhs.y), z: self.z.wrapping_add(rhs.z), w: self.w.wrapping_add(rhs.w) }
    }

    /// Component-wise wraparound difference.
    pub open spec fn sub_spec(self, rhs: Self) -> Self {
        Vec4u { x: self.x.wrapping_sub(rhs.x), y: self.y.wrapping_sub(rhs.y), z: self.z.wrapping_sub(rhs.z), w: self.w.wrapping_sub(rhs.w) }
    }

    /// Component-wise wraparound product.
    pub open spec fn mul_spec(self, rhs: Self) -> Self {
        Vec4u { x: self.x.wrapping_mul(rhs.x), y: self.y.wrapping_mul(rhs.y), z: self.z.wrapping_mul(rhs.z), w: self.w.wrapping_mul(rhs.w) }
    }

    /// Every component multiplied by one scalar, with wraparound.
    pub open spec fn mul_scalar_spec(self, rhs: u32) -> Self {
        Vec4u { x: self.x.wrapping_mul(rhs), y: self.y.wrapping_mul(rhs), z: self.z.wrapping_mul(rhs), w: self.w.wrapping_mul(rhs) }
    }

    /// Component-wise quotient.
    pub open spec fn div_spec(self, rhs: Self) -> Self {
        Vec4u { x: self.x / rhs.x, y: self.y / rhs.y, z: self.z / rhs.z, w: self.w / rhs.w }
    }

    /// Every component divided by one scalar.
    pub open spec fn div_scalar_spec(self, rhs: u32) -> Self {
        Vec4u { x: self.x / rhs, y: self.y / rhs, z: self.z / rhs, w: self.w / rhs }
    }

    /// The dot product: nested fused multiply-adds over the component
    /// pairs in declaration order, the last pair innermost.
    pub open spec fn dot_spec(self, other: Self) -> u32 {
        self.x.mul_add_spec(other.x, self.y.mul_add_spec(other.y, self.z.mul_add_spec(other.z, self.w.wrapping_mul(other.w))))
    }

    /// The squared magnitude: the vector's dot product with itself.
    pub open spec fn mag_sq_spec(self) -> u32 {
        self.dot_spec(self)
    }

    /// Reflection about a normal: `v - 2 * (v . n) * n`, with wraparound.
    pub open spec fn reflected_spec(self, normal: Self) -> Self {
        let s = 2u32.wrapping_mul(self.dot_spec(normal));
        Vec4u {
            x: self.x.wrapping_sub(s.wrapping_mul(normal.x)),
            y: self.y.wrapping_sub(s.wrapping_mul(normal.y)),
            z: self.z.wrapping_sub(s.wrapping_mul(normal.z)),
            w: self.w.wrapping_sub(s.wrapping_mul(normal.w)),
        }
    }

    /// Component-wise fused multiply-add across three vectors.
    pub open spec fn mul_add_spec(self, mul: Self, add: Self) -> Self {
        Vec4u { x: self.x.mul_add_spec(mul.x, add.x), y: self.y.mul_add_spec(mul.y, add.y), z: self.z.mul_add_spec(mul.z, add.z), w: self.w.mul_add_spec(mul.w, add.w) }
    }

    /// Every component clamped to the box `[min, max]`.
    pub open spec fn clamp_spec(self, min: Self, max: Self) -> Self {
        Vec4u { x: clamp_u32(self.x, min.x, max.x), y: clamp_u32(self.y, min.y, max.y), z: clamp_u32(self.z, min.z, max.z), w: clamp_u32(self.w, min.w, max.w) }
    }

    /// Component-wise larger value.
    pub open spec fn max_by_component_spec(self, other: Self) -> Self {
        Vec4u { x: max_u32(self.x, other.x), y: max_u32(self.y, other.y), z: max_u32(self.z, other.z), w: max_u32(self.w, other.w) }
    }

    /// Component-wise smaller value.
    pub open spec fn min_by_component_spec(self, other: Self) -> Self {
        Vec4u { x: min_u32(self.x, other.x), y: min_u32(self.y, other.y), z: min_u32(self.z, other.z), w: min_u32(self.w, other.w) }
    }

    /// The packed little-endian image of the components in declaration order.
    pub open spec fn bytes_spec(self) -> Seq<u8> {
        u32_le_bytes(self.x) + u32_le_bytes(self.y) + u32_le_bytes(self.z) + u32_le_bytes(self.w)
    }

    #[inline]
    pub fn new(x: u32, y: u32, z: u32, w: u32) -> (r: Self)
        ensures
            r == (Vec4u { x, y, z, w }),
    {
        Vec4u { x, y, z, w }
    }

    #[inline]
    pub fn broadcast(val: u32) -> (r: Self)
        ensures
            r == (Vec4u { x: val, y: val, z: val, w: val }),
    {
        Self::new(val, val, val, val)
    }

    #[inline]
    pub fn unit_x() -> (r: Self)
        ensures
            r == (Vec4u { x: 1, y: 0, z: 0, w: 0 }),
    {
        Vec4u { x: 1, y: 0, z: 0, w: 0 }
    }

    #[inline]
    pub fn unit_y() -> (r: Self)
        ensures
            r == (Vec4u { x: 0, y: 1, z: 0, w: 0 }),
    {
        Vec4u { x: 0, y: 1, z: 0, w: 0 }
    }

    #[inline]
    pub fn unit_z() -> (r: Self)
        ensures
            r == (Vec4u { x: 0, y: 0, z: 1, w: 0 }),
    {
        Vec4u { x: 0, y: 0, z: 1, w: 0 }
    }

    #[inline]
    pub fn unit_w() -> (r: Self)
        ensures
            r == (Vec4u { x: 0, y: 0, z: 0, w: 1 }),
    {
        Vec4u { x: 0, y: 0, z: 0, w: 1 }
    }

    #[inline]
    pub fn zero() -> (r: Self)
        ensures
            r == Self::zero_spec(),
    {
        Self::broadcast(0)
    }

    #[inline]
    pub fn one() -> (r: Self)
        ensures
            r == Self::one_spec(),
    {
        Self::broadcast(1)
    }

    #[inline]
    pub fn dot(&self, other: Self) -> (r: u32)
        ensures
            r == self.dot_spec(other),
    {
        self.x.mul_add(other.x, self.y.mul_add(other.y, self.z.mul_add(other.z, self.w.wrapping_mul(other.w))))
    }

    /// Reflects this vector about the normal, in place.
    #[inline]
    pub fn reflect(&mut self, normal: Self)
        ensures
            *final(self) == old(self).reflected_spec(normal),
    {
        let s: u32 = 2u32.wrapping_mul(self.dot(normal));
        self.x = self.x.wrapping_sub(s.wrapping_mul(normal.x));
        self.y = self.y.wrapping_sub(s.wrapping_mul(normal.y));
        self.z = self.z.wrapping_sub(s.wrapping_mul(normal.z));
        self.w = self.w.wrapping_sub(s.wrapping_mul(normal.w));
    }

    #[inline]
    pub fn reflected(&self, normal: Self) -> (r: Self)
        ensures
            r == self.reflected_spec(normal),
    {
        let mut a = *self;
        a.reflect(normal);
        a
    }

    /// The magnitude, rounded down to the element kind: the integer square
    /// root of the squared magnitude.
    #[inline]
    pub fn mag(&self) -> (r: u32)
        ensures
            r * r <= self.mag_sq_spec(),
            self.mag_sq_spec() < (r + 1) * (r + 1),
    {
        isqrt32(self.mag_sq())
    }

    #[inline]
    pub fn mag_sq(&self) -> (r: u32)
        ensures
            r == self.mag_sq_spec(),
    {
        self.x.mul_add(self.x, self.y.mul_add(self.y, self.z.mul_add(self.z, self.w.wrapping_mul(self.w))))
    }

    #[inline]
    pub fn mul_add(&self, mul: Self, add: Self) -> (r: Self)
        ensures
            r == self.mul_add_spec(mul, add),
    {
        Self::new(self.x.mul_add(mul.x, add.x), self.y.mul_add(mul.y, add.y), self.z.mul_add(mul.z, add.z), self.w.mul_add(mul.w, add.w))
    }

    #[inline]
    pub fn clamp(&mut self, min: Self, max: Self)
        ensures
            *final(self) == old(self).clamp_spec(min, max),
    {
        let rx: u32 = if self.x < min.x {
            min.x
        } else {
            self.x
        };
        self.x = if rx > max.x {
            max.x
        } else {
            rx
        };
        let ry: u32 = if self.y < min.y {
            min.y
        } else {
            self.y
        };
        self.y = if ry > max.y {
            max.y
        } else {
            ry
        };
        let rz: u32 = if self.z < min.z {
            min.z
        } else {
            self.z
        };
        self.z = if rz > max.z {
            max.z
        } else {
            rz
        };
        let rw: u32 = if self.w < min.w {
            min.w
        } else {
            self.w
        };
        self.w = if rw > max.w {
            max.w
        } else {
            rw
        };
    }

    #[inline]
    pub fn clamped(self, min: Self, max: Self) -> (r: Self)
        ensures
            r == self.clamp_spec(min, max),
    {
        let mut a = self;
        a.clamp(min, max);
        a
    }

    /// A new vector with `f` applied to every component, in declaration
    /// order.
    #[inline]
    pub fn map<F: Fn(u32) -> u32>(&self, f: F) -> (r: Self)
        requires
            call_requires(f, (self.x,)),
            call_requires(f, (self.y,)),
            call_requires(f, (self.z,)),
            call_requires(f, (self.w,)),
        ensures
            call_ensures(f, (self.x,), r.x),
            call_ensures(f, (self.y,), r.y),
            call_ensures(f, (self.z,), r.z),
            call_ensures(f, (self.w,), r.w),
    {
        Self::new(f(self.x), f(self.y), f(self.z), f(self.w))
    }

    /// Applies `f` to every component in place, in declaration order.
    #[inline]
    pub fn apply<F: Fn(u32) -> u32>(&mut self, f: F)
        requires
            call_requires(f, (old(self).x,)),
            call_requires(f, (old(self).y,)),
            call_requires(f, (old(self).z,)),
            call_requires(f, (old(self).w,)),
        ensures
            call_ensures(f, (old(self).x,), final(self).x),
            call_ensures(f, (old(self).y,), final(self).y),
            call_ensures(f, (old(self).z,), final(self).z),
            call_ensures(f, (old(self).w,), final(self).w),
    {
        self.x = f(self.x);
        self.y = f(self.y);
        self.z = f(self.z);
        self.w = f(self.w);
    }

    #[inline]
    pub fn max_by_component(self, other: Self) -> (r: Self)
        ensures
            r == self.max_by_component_spec(other),
    {
        let mut a = self;
        a.x = if a.x < other.x {
            other.x
        } else {
            a.x
        };
        a.y = if a.y < other.y {
            other.y
        } else {
            a.y
        };
        a.z = if a.z < other.z {
            other.z
        } else {
            a.z
        };
        a.w = if a.w < other.w {
            other.w
        } else {
            a.w
        };
        a
    }

    #[inline]
    pub fn min_by_component(self, other: Self) -> (r: Self)
        ensures
            r == self.min_by_component_spec(other),
    {
        let mut a = self;
        a.x = if a.x < other.x {
            a.x
        } else {
            other.x
        };
        a.y = if a.y < other.y {
            a.y
        } else {
            other.y
        };
        a.z = if a.z < other.z {
            a.z
        } else {
            other.z
        };
        a.w = if a.w < other.w {
            a.w
        } else {
            other.w
        };
        a
    }

    /// The largest single component.
    #[inline]
    pub fn component_max(&self) -> (r: u32)
        ensures
            r == max_u32(max_u32(max_u32(self.x, self.y), self.z), self.w),
    {
        let mut m: u32 = self.x;
        m = if m < self.y {
            self.y
        } else {
            m
        };
        m = if m < self.z {
            self.z
        } else {
            m
        };
        m = if m < self.w {
            self.w
        } else {
            m
        };
        m
    }

    /// The smallest single component.
    #[inline]
    pub fn component_min(&self) -> (r: u32)
        ensures
            r == min_u32(min_u32(min_u32(self.x, self.y), self.z), self.w),
    {
        let mut m: u32 = self.x;
        m = if m < self.y {
            m
        } else {
            self.y
        };
        m = if m < self.z {
            m
        } else {
            self.z
        };
        m = if m < self.w {
            m
        } else {
            self.w
        };
        m
    }

    /// Truncation to the first two components: a plain dimension change, not a homogeneous-coordinate operation.
    #[inline]
    pub fn xy(&self) -> (r: Vec2u)
        ensures
            r == (Vec2u { x: self.x, y: self.y }),
    {
        Vec2u::new(self.x, self.y)
    }

    /// Truncation to the first three components: a plain dimension change, not a homogeneous-coordinate operation.
    #[inline]
    pub fn xyz(&self) -> (r: Vec3u)
        ensures
            r == (Vec3u { x: self.x, y: self.y, z: self.z }),
    {
        Vec3u::new(self.x, self.y, self.z)
    }

    // --- component-wise and scalar arithmetic, with wraparound ---

    #[inline]
    pub fn add(self, rhs: Self) -> (r: Self)
        ensures
            r == self.add_spec(rhs),
    {
        Self::new(self.x.wrapping_add(rhs.x), self.y.wrapping_add(rhs.y), self.z.wrapping_add(rhs.z), self.w.wrapping_add(rhs.w))
    }

    #[inline]
    pub fn add_assign(&mut self, rhs: Self)
        ensures
            *final(self) == old(self).add_spec(rhs),
    {
        self.x = self.x.wrapping_add(rhs.x);
        self.y = self.y.wrapping_add(rhs.y);
        self.z = self.z.wrapping_add(rhs.z);
        self.w = self.w.wrapping_add(rhs.w);
    }

    #[inline]
    pub fn sub(self, rhs: Self) -> (r: Self)
        ensures
            r == self.sub_spec(rhs),
    {
        Self::new(self.x.wrapping_sub(rhs.x), self.y.wrapping_sub(rhs.y), self.z.wrapping_sub(rhs.z), self.w.wrapping_sub(rhs.w))
    }

    #[inline]
    pub fn sub_assign(&mut self, rhs: Self)
        ensures
            *final(self) == old(self).sub_spec(rhs),
    {
        self.x = self.x.wrapping_sub(rhs.x);
        self.y = self.y.wrapping_sub(rhs.y);
        self.z = self.z.wrapping_sub(rhs.z);
        self.w = self.w.wrapping_sub(rhs.w);
    }

    #[inline]
    pub fn mul(self, rhs: Self) -> (r: Self)
        ensures
            r == self.mul_spec(rhs),
    {
        Self::new(self.x.wrapping_mul(rhs.x), self.y.wrapping_mul(rhs.y), self.z.wrapping_mul(rhs.z), self.w.wrapping_mul(rhs.w))
    }

    #[inline]
    pub fn mul_assign(&mut self, rhs: Self)
        ensures
            *final(self) == old(self).mul_spec(rhs),
    {
        self.x = self.x.wrapping_mul(rhs.x);
        self.y = self.y.wrapping_mul(rhs.y);
        self.z = self.z.wrapping_mul(rhs.z);
        self.w = self.w.wrapping_mul(rhs.w);
    }

    #[inline]
    pub fn mul_scalar(self, rhs: u32) -> (r: Self)
        ensures
            r == self.mul_scalar_spec(rhs),
    {
        Self::new(self.x.wrapping_mul(rhs), self.y.wrapping_mul(rhs), self.z.wrapping_mul(rhs), self.w.wrapping_mul(rhs))
    }

    #[inline]
    pub fn mul_assign_scalar(&mut self, rhs: u32)
        ensures
            *final(self) == old(self).mul_scalar_spec(rhs),
    {
        self.x = self.x.wrapping_mul(rhs);
        self.y = self.y.wrapping_mul(rhs);
        self.z = self.z.wrapping_mul(rhs);
        self.w = self.w.wrapping_mul(rhs);
    }

    #[inline]
    pub fn div(self, rhs: Self) -> (r: Self)
        requires
            rhs.x != 0,
            rhs.y != 0,
            rhs.z != 0,
            rhs.w != 0,
        ensures
            r == self.div_spec(rhs),
    {
        Self::new(self.x / rhs.x, self.y / rhs.y, self.z / rhs.z, self.w / rhs.w)
    }

    #[inline]
    pub fn div_assign(&mut self, rhs: Self)
        requires
            rhs.x != 0,
            rhs.y != 0,
            rhs.z != 0,
            rhs.w != 0,
        ensures
            *final(self) == old(self).div_spec(rhs),
    {
        self.x = self.x / rhs.x;
        self.y = self.y / rhs.y;
        self.z = self.z / rhs.z;
        self.w = self.w / rhs.w;
    }

    #[inline]
    pub fn div_scalar(self, rhs: u32) -> (r: Self)
        requires
            rhs != 0,
        ensures
            r == self.div_scalar_spec(rhs),
    {
        Self::new(self.x / rhs, self.y / rhs, self.z / rhs, self.w / rhs)
    }

    #[inline]
    pub fn div_assign_scalar(&mut self, rhs: u32)
        requires
            rhs != 0,
        ensures
            *final(self) == old(self).div_scalar_spec(rhs),
    {
        self.x = self.x / rhs;
        self.y = self.y / rhs;
        self.z = self.z / rhs;
        self.w = self.w / rhs;
    }

    // --- indexed access ---

    /// The component at `index`, in declaration order. An index at or past
    /// the component count is a contract violation and ends the process.
    pub fn component(&self, index: usize) -> (r: u32)
        requires
            index < 4,
        ensures
            r == self@[index as int],
    {
        match index {
            0 => self.x,
            1 => self.y,
            2 => self.z,
            3 => self.w,
            _ => vstd::pervasive::unreached(),
        }
    }

    /// Replaces the component at `index`. An index at or past the component
    /// count is a contract violation and ends the process.
    pub fn set_component(&mut self, index: usize, value: u32)
        requires
            index < 4,
        ensures
            final(self)@ == old(self)@.update(index as int, value),
    {
        match index {
            0 => self.x = value,
            1 => self.y = value,
            2 => self.z = value,
            3 => self.w = value,
            _ => vstd::pervasive::unreached(),
        }
        proof {
            assert(self@ =~= old(self)@.update(index as int, value));
        }
    }

    // --- packed views ---

    /// The number of bytes in the packed image: the component count times
    /// the element size.
    #[inline]
    pub fn byte_size() -> (r: usize)
        ensures
            r == 16,
    {
        16
    }

    /// The alignment a buffer of these vectors needs: that of the element
    /// kind.
    #[inline]
    pub fn byte_align() -> (r: usize)
        ensures
            r == 4,
    {
        4
    }

    /// The components as a contiguous little-endian byte image, in
    /// declaration order.
    pub fn to_bytes(&self) -> (r: Vec<u8>)
        ensures
            r@ == self.bytes_spec(),
            r@.len() == 16,
    {
        let mut out: Vec<u8> = Vec::new();
        push_u32_le(&mut out, self.x);
        push_u32_le(&mut out, self.y);
        push_u32_le(&mut out, self.z);
        push_u32_le(&mut out, self.w);
        proof {
            assert(out@ =~= self.bytes_spec());
        }
        out
    }

    /// The components as a fixed-size array, in declaration order.
    #[inline]
    pub fn into_array(self) -> (r: [u32; 4])
        ensures
            r@ == self@,
    {
        let r = [self.x, self.y, self.z, self.w];
        proof {
            assert(r@ =~= self@);
        }
        r
    }

    /// The components as a tuple, in declaration order.
    #[inline]
    pub fn into_tuple(self) -> (r: (u32, u32, u32, u32))
        ensures
            r.0 == self.x,
            r.1 == self.y,
            r.2 == self.z,
            r.3 == self.w,
    {
        (self.x, self.y, self.z, self.w)
    }
}

impl vstd::std_specs::convert::FromSpecImpl<[u32; 4]> for Vec4u {
    open spec fn obeys_from_spec() -> bool {
        true
    }

    open spec fn from_spec(comps: [u32; 4]) -> Vec4u {
        Vec4u { x: comps@[0], y: comps@[1], z: comps@[2], w: comps@[3] }
    }
}

impl From<[u32; 4]> for Vec4u {
    #[inline]
    fn from(comps: [u32; 4]) -> (r: Self) {
        Self::new(comps[0], comps[1], comps[2], comps[3])
    }
}

impl vstd::std_specs::convert::FromSpecImpl<&[u32; 4]> for Vec4u {
    open spec fn obeys_from_spec() -> bool {
        true
    }

    open spec fn from_spec(comps: &[u32; 4]) -> Vec4u {
        Vec4u { x: comps@[0], y: comps@[1], z: comps@[2], w: comps@[3] }
    }
}

impl From<&[u32; 4]> for Vec4u {
    #[inline]
    fn from(comps: &[u32; 4]) -> (r: Self) {
        Self::new(comps[0], comps[1], comps[2], comps[3])
    }
}

impl vstd::std_specs::convert::FromSpecImpl<(u32, u32, u32, u32)> for Vec4u {
    open spec fn obeys_from_spec() -> bool {
        true
    }

    open spec fn from_spec(comps: (u32, u32, u32, u32)) -> Vec4u {
        Vec4u { x: comps.0, y: comps.1, z: comps.2, w: comps.3 }
    }
}

impl From<(u32, u32, u32, u32)> for Vec4u {
    #[inline]
    fn from(comps: (u32, u32, u32, u32)) -> (r: Self) {
        Self::new(comps.0, comps.1, comps.2, comps.3)
    }
}

impl vstd::std_specs::convert::FromSpecImpl<&(u32, u32, u32, u32)> for Vec4u {
    open spec fn obeys_from_spec() -> bool {
        true
    }

    open spec fn from_spec(comps: &(u32, u32, u32, u32)) -> Vec4u {
        Vec4u { x: comps.0, y: comps.1, z: comps.2, w: comps.3 }
    }
}

impl From<&(u32, u32, u32, u32)> for Vec4u {
    #[inline]
    fn from(comps: &(u32, u32, u32, u32)) -> (r: Self) {
        Self::new(comps.0, comps.1, comps.2, comps.3)
    }
}

impl vstd::std_specs::convert::FromSpecImpl<Vec3u> for Vec4u {
    open spec fn obeys_from_spec() -> bool {
        true
    }

    open spec fn from_spec(vec: Vec3u) -> Vec4u {
        Vec4u { x: vec.x, y: vec.y, z: vec.z, w: 0 }
    }
}

impl From<Vec3u> for Vec4u {
    /// Widening by zero-extension: a plain dimension change, not a
    /// homogeneous-coordinate operation.
    #[inline]
    fn from(vec: Vec3u) -> (r: Self) {
        Vec4u { x: vec.x, y: vec.y, z: vec.z, w: 0 }
    }
}

// --- laws ---

/// The dot product is commutative.
pub proof fn lemma_vec4u_dot_comm(a: Vec4u, b: Vec4u)
    ensures
        a.dot_spec(b) == b.dot_spec(a),
{
}

/// The all-zero vector is the additive identity.
pub proof fn lemma_vec4u_add_zero(v: Vec4u)
    ensures
        v.add_spec(Vec4u::zero_spec()) == v,
{
}

/// The all-one vector is the identity of the component-wise product.
pub proof fn lemma_vec4u_mul_one(v: Vec4u)
    ensures
        v.mul_spec(Vec4u::one_spec()) == v,
{
    lemma_wrapping_mul_one_u32(v.x);
    lemma_wrapping_mul_one_u32(v.y);
    lemma_wrapping_mul_one_u32(v.z);
    lemma_wrapping_mul_one_u32(v.w);
}

/// Scaling by a nonzero scalar and dividing by it returns the original
/// vector, whenever no component's product wraps.
pub proof fn lemma_vec4u_mul_div_scalar(v: Vec4u, s: u32)
    requires
        s != 0,
        v.x * s <= u32::MAX,
        v.y * s <= u32::MAX,
        v.z * s <= u32::MAX,
        v.w * s <= u32::MAX,
    ensures
        v.mul_scalar_spec(s).div_scalar_spec(s) == v,
{
    lemma_mul_div_exact_u32(v.x, s);
    lemma_mul_div_exact_u32(v.y, s);
    lemma_mul_div_exact_u32(v.z, s);
    lemma_mul_div_exact_u32(v.w, s);
}

} // verus!
