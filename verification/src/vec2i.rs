//! The signed 2-component vector.

use crate::arith::{
    clamp_i32, div_i32, div_trunc, i32_le_bytes, isqrt32, lemma_div_trunc_by_one,
    lemma_mul_div_exact_i32, lemma_wrapping_mul_one_i32, max_i32, min_i32, push_i32_le,
};
use crate::muladd::MulAdd;
use crate::vec3i::Vec3i;
use crate::vec4i::Vec4i;
use vstd::prelude::*;

verus! {

/// A set of two coordinates which may be interpreted as a vector or point in
/// 2d space.
///
/// Generally this distinction between a point and vector is more of a pain
/// than it is worth to distinguish on a type level, however when converting
/// to and from homogeneous coordinates it is quite important.
#[derive(Clone, Copy, Debug, PartialEq, Eq, Structural, Hash)]
pub struct Vec2i {
    pub x: i32,
    pub y: i32,
}

impl View for Vec2i {
    type V = Seq<i32>;

    open spec fn view(&self) -> Seq<i32> {
        seq![self.x, self.y]
    }
}

impl Default for Vec2i {
    /// The all-zero vector.
    fn default() -> (r: Self)
        ensures
            r == Self::zero_spec(),
    {
        Self::zero()
    }
}

impl Vec2i {
    /// The all-zero vector.
    pub open spec fn zero_spec() -> Self {
        Vec2i { x: 0, y: 0 }
    }

    /// The all-one vector.
    pub open spec fn one_spec() -> Self {
        Vec2i { x: 1, y: 1 }
    }

    /// Component-wise wraparound sum.
    pub open spec fn add_spec(self, rhs: Self) -> Self {
        Vec2i { x: self.x.wrapping_add(rhs.x), y: self.y.wrapping_add(rhs.y) }
    }

    /// Component-wise wraparound difference.
    pub open spec fn sub_spec(self, rhs: Self) -> Self {
        Vec2i { x: self.x.wrapping_sub(rhs.x), y: self.y.wrapping_sub(rhs.y) }
    }

    /// Component-wise wraparound product.
    pub open spec fn mul_spec(self, rhs: Self) -> Self {
        Vec2i { x: self.x.wrapping_mul(rhs.x), y: self.y.wrapping_mul(rhs.y) }
    }

    /// Every component multiplied by one scalar, with wraparound.
    pub open spec fn mul_scalar_spec(self, rhs: i32) -> Self {
        Vec2i { x: self.x.wrapping_mul(rhs), y: self.y.wrapping_mul(rhs) }
    }

    /// Component-wise quotient.
    pub open spec fn div_spec(self, rhs: Self) -> Self {
        Vec2i { x: div_trunc(self.x as int, rhs.x as int) as i32, y: div_trunc(self.y as int, rhs.y as int) as i32 }
    }

    /// Every component divided by one scalar.
    pub open spec fn div_scalar_spec(self, rhs: i32) -> Self {
        Vec2i { x: div_trunc(self.x as int, rhs as int) as i32, y: div_trunc(self.y as int, rhs as int) as i32 }
    }

    /// The dot product: nested fused multiply-adds over the component
    /// pairs in declaration order, the last pair innermost.
    pub open spec fn dot_spec(self, other: Self) -> i32 {
        self.x.mul_add_spec(other.x, self.y.wrapping_mul(other.y))
    }

    /// The squared magnitude: the vector's dot product with itself.
    pub open spec fn mag_sq_spec(self) -> i32 {
        self.dot_spec(self)
    }

    /// Reflection about a normal: `v - 2 * (v . n) * n`, with wraparound.
    pub open spec fn reflected_spec(self, normal: Self) -> Self {
        let s = 2i32.wrapping_mul(self.dot_spec(normal));
        Vec2i {
            x: self.x.wrapping_sub(s.wrapping_mul(normal.x)),
            y: self.y.wrapping_sub(s.wrapping_mul(normal.y)),
        }
    }

    /// Component-wise fused multiply-add across three vectors.
    pub open spec fn mul_add_spec(self, mul: Self, add: Self) -> Self {
        Vec2i { x: self.x.mul_add_spec(mul.x, add.x), y: self.y.mul_add_spec(mul.y, add.y) }
    }

    /// Every component clamped to the box `[min, max]`.
    pub open spec fn clamp_spec(self, min: Self, max: Self) -> Self {
        Vec2i { x: clamp_i32(self.x, min.x, max.x), y: clamp_i32(self.y, min.y, max.y) }
    }

    /// Component-wise larger value.
    pub open spec fn max_by_component_spec(self, other: Self) -> Self {
        Vec2i { x: max_i32(self.x, other.x), y: max_i32(self.y, other.y) }
    }

    /// Component-wise smaller value.
    pub open spec fn min_by_component_spec(self, other: Self) -> Self {
        Vec2i { x: min_i32(self.x, other.x), y: min_i32(self.y, other.y) }
    }

    /// Widening by appending a `1`: the homogeneous image of a point.
    pub open spec fn into_homogeneous_point_spec(self) -> Vec3i {
        Vec3i { x: self.x, y: self.y, z: 1 }
    }

    /// Widening by appending a `0`: the homogeneous image of a vector.
    pub open spec fn into_homogeneous_vector_spec(self) -> Vec3i {
        Vec3i { x: self.x, y: self.y, z: 0 }
    }

    /// Narrowing a homogeneous point: each kept component divided by the
    /// homogeneous one.
    pub open spec fn from_homogeneous_point_spec(v: Vec3i) -> Self {
        Vec2i { x: div_trunc(v.x as int, v.z as int) as i32, y: div_trunc(v.y as int, v.z as int) as i32 }
    }

    /// Narrowing a homogeneous vector: the homogeneous component is dropped.
    pub open spec fn from_homogeneous_vector_spec(v: Vec3i) -> Self {
        Vec2i { x: v.x, y: v.y }
    }

    /// The packed little-endian image of the components in declaration order.
    pub open spec fn bytes_spec(self) -> Seq<u8> {
        i32_le_bytes(self.x) + i32_le_bytes(self.y)
    }

    #[inline]
    pub fn new(x: i32, y: i32) -> (r: Self)
        ensures
            r == (Vec2i { x, y }),
    {
        Vec2i { x, y }
    }

    #[inline]
    pub fn broadcast(val: i32) -> (r: Self)
        ensures
            r == (Vec2i { x: val, y: val }),
    {
        Self::new(val, val)
    }

    #[inline]
    pub fn unit_x() -> (r: Self)
        ensures
            r == (Vec2i { x: 1, y: 0 }),
    {
        Vec2i { x: 1, y: 0 }
    }

    #[inline]
    pub fn unit_y() -> (r: Self)
        ensures
            r == (Vec2i { x: 0, y: 1 }),
    {
        Vec2i { x: 0, y: 1 }
    }

    #[inline]
    pub fn zero() -> (r: Self)
        ensures
            r == Self::zero_spec(),
    {
        Self::broadcast(0)
    }

    #[inline]
    pub fn one() -> (r: Self)
        ensures
            r == Self::one_spec(),
    {
        Self::broadcast(1)
    }

    /// Create a homogeneous 2d *point* from this vector interpreted as a
    /// point, meaning the homogeneous component will start with a value of 1.
    #[inline]
    pub fn into_homogeneous_point(self) -> (r: Vec3i)
        ensures
            r == self.into_homogeneous_point_spec(),
    {
        Vec3i { x: self.x, y: self.y, z: 1 }
    }

    /// Create a homogeneous 2d *vector* from this vector, meaning the
    /// homogeneous component will always have a value of 0.
    #[inline]
    pub fn into_homogeneous_vector(self) -> (r: Vec3i)
        ensures
            r == self.into_homogeneous_vector_spec(),
    {
        Vec3i { x: self.x, y: self.y, z: 0 }
    }

    /// Create a 2d point from a homogeneous 2d *point*, performing division
    /// by the homogeneous component. This should not be used for homogeneous
    /// 2d *vectors*, which will have 0 as their homogeneous component: that
    /// division would end the process, so a nonzero homogeneous component is
    /// demanded of the caller here.
    #[inline]
    pub fn from_homogeneous_point(v: Vec3i) -> (r: Self)
        requires
            v.z != 0,
            !(v.x == i32::MIN && v.z == -1),
            !(v.y == i32::MIN && v.z == -1),
        ensures
            r == Self::from_homogeneous_point_spec(v),
    {
        Vec2i { x: div_i32(v.x, v.z), y: div_i32(v.y, v.z) }
    }

    /// Create a 2d vector from a homogeneous 2d *vector*, which simply
    /// discards the homogeneous component.
    #[inline]
    pub fn from_homogeneous_vector(v: Vec3i) -> (r: Self)
        ensures
            r == Self::from_homogeneous_vector_spec(v),
    {
        Vec2i { x: v.x, y: v.y }
    }

    #[inline]
    pub fn dot(&self, other: Self) -> (r: i32)
        ensures
            r == self.dot_spec(other),
    {
        self.x.mul_add(other.x, self.y.wrapping_mul(other.y))
    }

    #[inline]
    pub fn reflected(&self, normal: Self) -> (r: Self)
        ensures
            r == self.reflected_spec(normal),
    {
        let s: i32 = 2i32.wrapping_mul(self.dot(normal));
        Self::new(
            self.x.wrapping_sub(s.wrapping_mul(normal.x)),
            self.y.wrapping_sub(s.wrapping_mul(normal.y)),
        )
    }

    /// The magnitude, rounded down to the element kind: the integer square
    /// root of the squared magnitude.
    /// A squared magnitude that wrapped to a negative value has no real
    /// square root and gives 0.
    #[inline]
    pub fn mag(&self) -> (r: i32)
        ensures
            0 <= r,
            self.mag_sq_spec() < 0 ==> r == 0,
            self.mag_sq_spec() >= 0 ==> r * r <= self.mag_sq_spec()
                && self.mag_sq_spec() < (r + 1) * (r + 1),
    {
        let m = self.mag_sq();
        if m < 0 {
            0
        } else {
            isqrt32(m as u32) as i32
        }
    }

    #[inline]
    pub fn mag_sq(&self) -> (r: i32)
        ensures
            r == self.mag_sq_spec(),
    {
        self.x.mul_add(self.x, self.y.wrapping_mul(self.y))
    }

    #[inline]
    pub fn mul_add(&self, mul: Self, add: Self) -> (r: Self)
        ensures
            r == self.mul_add_spec(mul, add),
    {
        Self::new(self.x.mul_add(mul.x, add.x), self.y.mul_add(mul.y, add.y))
    }

    /// Rebuilds the vector from its own components, unchanged. The name is
    /// kept for callers that expect an absolute-value hook; no component is
    /// negated, whatever its kind.
    #[inline]
    pub fn abs(&self) -> (r: Self)
        ensures
            r == *self,
    {
        Self::new(self.x, self.y)
    }

    #[inline]
    pub fn clamp(&mut self, min: Self, max: Self)
        ensures
            *final(self) == old(self).clamp_spec(min, max),
    {
        let rx: i32 = if self.x < min.x {
            min.x
        } else {
            self.x
        };
        self.x = if rx > max.x {
            max.x
        } else {
            rx
        };
        let ry: i32 = if self.y < min.y {
            min.y
        } else {
            self.y
        };
        self.y = if ry > max.y {
            max.y
        } else {
            ry
        };
    }

    #[inline]
    pub fn clamped(self, min: Self, max: Self) -> (r: Self)
        ensures
            r == self.clamp_spec(min, max),
    {
        let mut a = self;
        a.clamp(min, max);
        a
    }

    /// A new vector with `f` applied to every component, in declaration
    /// order.
    #[inline]
    pub fn map<F: Fn(i32) -> i32>(&self, f: F) -> (r: Self)
        requires
            call_requires(f, (self.x,)),
            call_requires(f, (self.y,)),
        ensures
            call_ensures(f, (self.x,), r.x),
            call_ensures(f, (self.y,), r.y),
    {
        Self::new(f(self.x), f(self.y))
    }

    /// Applies `f` to every component in place, in declaration order.
    #[inline]
    pub fn apply<F: Fn(i32) -> i32>(&mut self, f: F)
        requires
            call_requires(f, (old(self).x,)),
            call_requires(f, (old(self).y,)),
        ensures
            call_ensures(f, (old(self).x,), final(self).x),
            call_ensures(f, (old(self).y,), final(self).y),
    {
        self.x = f(self.x);
        self.y = f(self.y);
    }

    #[inline]
    pub fn max_by_component(self, other: Self) -> (r: Self)
        ensures
            r == self.max_by_component_spec(other),
    {
        let mut a = self;
        a.x = if a.x < other.x {
            other.x
        } else {
            a.x
        };
        a.y = if a.y < other.y {
            other.y
        } else {
            a.y
        };
        a
    }

    #[inline]
    pub fn min_by_component(self, other: Self) -> (r: Self)
        ensures
            r == self.min_by_component_spec(other),
    {
        let mut a = self;
        a.x = if a.x < other.x {
            a.x
        } else {
            other.x
        };
        a.y = if a.y < other.y {
            a.y
        } else {
            other.y
        };
        a
    }

    /// The largest single component.
    #[inline]
    pub fn component_max(&self) -> (r: i32)
        ensures
            r == max_i32(self.x, self.y),
    {
        let mut m: i32 = self.x;
        m = if m < self.y {
            self.y
        } else {
            m
        };
        m
    }

    /// The smallest single component.
    #[inline]
    pub fn component_min(&self) -> (r: i32)
        ensures
            r == min_i32(self.x, self.y),
    {
        let mut m: i32 = self.x;
        m = if m < self.y {
            m
        } else {
            self.y
        };
        m
    }

    /// Widening by zero-extension. This is a plain dimension change, not a homogeneous-coordinate operation.
    #[inline]
    pub fn xyz(&self) -> (r: Vec3i)
        ensures
            r == (Vec3i { x: self.x, y: self.y, z: 0 }),
    {
        Vec3i::new(self.x, self.y, 0)
    }

    /// Widening by zero-extension to four components.
    #[inline]
    pub fn xyzw(&self) -> (r: Vec4i)
        ensures
            r == (Vec4i { x: self.x, y: self.y, z: 0, w: 0 }),
    {
        Vec4i::new(self.x, self.y, 0, 0)
    }

    // --- component-wise and scalar arithmetic, with wraparound ---

    #[inline]
    pub fn add(self, rhs: Self) -> (r: Self)
        ensures
            r == self.add_spec(rhs),
    {
        Self::new(self.x.wrapping_add(rhs.x), self.y.wrapping_add(rhs.y))
    }

    #[inline]
    pub fn add_assign(&mut self, rhs: Self)
        ensures
            *final(self) == old(self).add_spec(rhs),
    {
        self.x = self.x.wrapping_add(rhs.x);
        self.y = self.y.wrapping_add(rhs.y);
    }

    #[inline]
    pub fn sub(self, rhs: Self) -> (r: Self)
        ensures
            r == self.sub_spec(rhs),
    {
        Self::new(self.x.wrapping_sub(rhs.x), self.y.wrapping_sub(rhs.y))
    }

    #[inline]
    pub fn sub_assign(&mut self, rhs: Self)
        ensures
            *final(self) == old(self).sub_spec(rhs),
    {
        self.x = self.x.wrapping_sub(rhs.x);
        self.y = self.y.wrapping_sub(rhs.y);
    }

    #[inline]
    pub fn mul(self, rhs: Self) -> (r: Self)
        ensures
            r == self.mul_spec(rhs),
    {
        Self::new(self.x.wrapping_mul(rhs.x), self.y.wrapping_mul(rhs.y))
    }

    #[inline]
    pub fn mul_assign(&mut self, rhs: Self)
        ensures
            *final(self) == old(self).mul_spec(rhs),
    {
        self.x = self.x.wrapping_mul(rhs.x);
        self.y = self.y.wrapping_mul(rhs.y);
    }

    #[inline]
    pub fn mul_scalar(self, rhs: i32) -> (r: Self)
        ensures
            r == self.mul_scalar_spec(rhs),
    {
        Self::new(self.x.wrapping_mul(rhs), self.y.wrapping_mul(rhs))
    }

    #[inline]
    pub fn mul_assign_scalar(&mut self, rhs: i32)
        ensures
            *final(self) == old(self).mul_scalar_spec(rhs),
    {
        self.x = self.x.wrapping_mul(rhs);
        self.y = self.y.wrapping_mul(rhs);
    }

    #[inline]
    pub fn div(self, rhs: Self) -> (r: Self)
        requires
            rhs.x != 0,
            rhs.y != 0,
            !(self.x == i32::MIN && rhs.x == -1),
            !(self.y == i32::MIN && rhs.y == -1),
        ensures
            r == self.div_spec(rhs),
    {
        Self::new(div_i32(self.x, rhs.x), div_i32(self.y, rhs.y))
    }

    #[inline]
    pub fn div_assign(&mut self, rhs: Self)
        requires
            rhs.x != 0,
            rhs.y != 0,
            !(old(self).x == i32::MIN && rhs.x == -1),
            !(old(self).y == i32::MIN && rhs.y == -1),
        ensures
            *final(self) == old(self).div_spec(rhs),
    {
        self.x = div_i32(self.x, rhs.x);
        self.y = div_i32(self.y, rhs.y);
    }

    #[inline]
    pub fn div_scalar(self, rhs: i32) -> (r: Self)
        requires
            rhs != 0,
            !(self.x == i32::MIN && rhs == -1),
            !(self.y == i32::MIN && rhs == -1),
        ensures
            r == self.div_scalar_spec(rhs),
    {
        Self::new(div_i32(self.x, rhs), div_i32(self.y, rhs))
    }

    #[inline]
    pub fn div_assign_scalar(&mut self, rhs: i32)
        requires
            rhs != 0,
            !(old(self).x == i32::MIN && rhs == -1),
            !(old(self).y == i32::MIN && rhs == -1),
        ensures
            *final(self) == old(self).div_scalar_spec(rhs),
    {
        self.x = div_i32(self.x, rhs);
        self.y = div_i32(self.y, rhs);
    }

    // --- indexed access ---

    /// The component at `index`, in declaration order. An index at or past
    /// the component count is a contract violation and ends the process.
    pub fn component(&self, index: usize) -> (r: i32)
        requires
            index < 2,
        ensures
            r == self@[index as int],
    {
        match index {
            0 => self.x,
            1 => self.y,
            _ => vstd::pervasive::unreached(),
        }
    }

    /// Replaces the component at `index`. An index at or past the component
    /// count is a contract violation and ends the process.
    pub fn set_component(&mut self, index: usize, value: i32)
        requires
            index < 2,
        ensures
            final(self)@ == old(self)@.update(index as int, value),
    {
        match index {
            0 => self.x = value,
            1 => self.y = value,
            _ => vstd::pervasive::unreached(),
        }
        proof {
            assert(self@ =~= old(self)@.update(index as int, value));
        }
    }

    // --- packed views ---

    /// The number of bytes in the packed image: the component count times
    /// the element size.
    #[inline]
    pub fn byte_size() -> (r: usize)
        ensures
            r == 8,
    {
        8
    }

    /// The alignment a buffer of these vectors needs: that of the element
    /// kind.
    #[inline]
    pub fn byte_align() -> (r: usize)
        ensures
            r == 4,
    {
        4
    }

    /// The components as a contiguous little-endian byte image, in
    /// declaration order.
    pub fn to_bytes(&self) -> (r: Vec<u8>)
        ensures
            r@ == self.bytes_spec(),
            r@.len() == 8,
    {
        let mut out: Vec<u8> = Vec::new();
        push_i32_le(&mut out, self.x);
        push_i32_le(&mut out, self.y);
        proof {
            assert(out@ =~= self.bytes_spec());
        }
        out
    }

    /// The components as a fixed-size array, in declaration order.
    #[inline]
    pub fn into_array(self) -> (r: [i32; 2])
        ensures
            r@ == self@,
    {
        let r = [self.x, self.y];
        proof {
            assert(r@ =~= self@);
        }
        r
    }

    /// The components as a tuple, in declaration order.
    #[inline]
    pub fn into_tuple(self) -> (r: (i32, i32))
        ensures
            r.0 == self.x,
            r.1 == self.y,
    {
        (self.x, self.y)
    }
}

impl vstd::std_specs::convert::FromSpecImpl<[i32; 2]> for Vec2i {
    open spec fn obeys_from_spec() -> bool {
        true
    }

    open spec fn from_spec(comps: [i32; 2]) -> Vec2i {
        Vec2i { x: comps@[0], y: comps@[1] }
    }
}

impl From<[i32; 2]> for Vec2i {
    #[inline]
    fn from(comps: [i32; 2]) -> (r: Self) {
        Self::new(comps[0], comps[1])
    }
}

impl vstd::std_specs::convert::FromSpecImpl<&[i32; 2]> for Vec2i {
    open spec fn obeys_from_spec() -> bool {
        true
    }

    open spec fn from_spec(comps: &[i32; 2]) -> Vec2i {
        Vec2i { x: comps@[0], y: comps@[1] }
    }
}

impl From<&[i32; 2]> for Vec2i {
    #[inline]
    fn from(comps: &[i32; 2]) -> (r: Self) {
        Self::new(comps[0], comps[1])
    }
}

impl vstd::std_specs::convert::FromSpecImpl<(i32, i32)> for Vec2i {
    open spec fn obeys_from_spec() -> bool {
        true
    }

    open spec fn from_spec(comps: (i32, i32)) -> Vec2i {
        Vec2i { x: comps.0, y: comps.1 }
    }
}

impl From<(i32, i32)> for Vec2i {
    #[inline]
    fn from(comps: (i32, i32)) -> (r: Self) {
        Self::new(comps.0, comps.1)
    }
}

impl vstd::std_specs::convert::FromSpecImpl<&(i32, i32)> for Vec2i {
    open spec fn obeys_from_spec() -> bool {
        true
    }

    open spec fn from_spec(comps: &(i32, i32)) -> Vec2i {
        Vec2i { x: comps.0, y: comps.1 }
    }
}

impl From<&(i32, i32)> for Vec2i {
    #[inline]
    fn from(comps: &(i32, i32)) -> (r: Self) {
        Self::new(comps.0, comps.1)
    }
}

impl vstd::std_specs::convert::FromSpecImpl<Vec3i> for Vec2i {
    open spec fn obeys_from_spec() -> bool {
        true
    }

    open spec fn from_spec(vec: Vec3i) -> Vec2i {
        Vec2i { x: vec.x, y: vec.y }
    }
}

impl From<Vec3i> for Vec2i {
    /// Truncation to the first two components: a plain dimension
    /// change, not a homogeneous-coordinate operation.
    #[inline]
    fn from(vec: Vec3i) -> (r: Self) {
        Vec2i { x: vec.x, y: vec.y }
    }
}

// --- laws ---

/// Widening a point into homogeneous coordinates and narrowing back by the
/// homogeneous division returns the original vector.
pub proof fn lemma_vec2i_homogeneous_point_round_trip(v: Vec2i)
    ensures
        Vec2i::from_homogeneous_point_spec(v.into_homogeneous_point_spec()) == v,
{
    lemma_div_trunc_by_one(v.x as int);
    lemma_div_trunc_by_one(v.y as int);
}

/// Widening a vector into homogeneous coordinates and dropping the appended
/// component returns the original vector.
pub proof fn lemma_vec2i_homogeneous_vector_round_trip(v: Vec2i)
    ensures
        Vec2i::from_homogeneous_vector_spec(v.into_homogeneous_vector_spec()) == v,
{
}

/// The dot product is commutative.
pub proof fn lemma_vec2i_dot_comm(a: Vec2i, b: Vec2i)
    ensures
        a.dot_spec(b) == b.dot_spec(a),
{
}

/// The all-zero vector is the additive identity.
pub proof fn lemma_vec2i_add_zero(v: Vec2i)
    ensures
        v.add_spec(Vec2i::zero_spec()) == v,
{
}

/// The all-one vector is the identity of the component-wise product.
pub proof fn lemma_vec2i_mul_one(v: Vec2i)
    ensures
        v.mul_spec(Vec2i::one_spec()) == v,
{
    lemma_wrapping_mul_one_i32(v.x);
    lemma_wrapping_mul_one_i32(v.y);
}

/// Scaling by a nonzero scalar and dividing by it returns the original
/// vector, whenever no component's product wraps.
pub proof fn lemma_vec2i_mul_div_scalar(v: Vec2i, s: i32)
    requires
        s != 0,
        i32::MIN <= v.x * s <= i32::MAX,
        i32::MIN <= v.y * s <= i32::MAX,
    ensures
        v.mul_scalar_spec(s).div_scalar_spec(s) == v,
{
    lemma_mul_div_exact_i32(v.x, s);
    lemma_mul_div_exact_i32(v.y, s);
}

} // verus!
