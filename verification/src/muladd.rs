//! The fused multiply-add capability shared by the vector element kinds.
//!
//! Every dot product, cross product and squared magnitude in this crate
//! funnels through this one primitive, so their exact wraparound arithmetic
//! is stated in a single place.

use vstd::prelude::*;

verus! {

/// A multiply-then-add over one integer element kind, computed with that
/// kind's wraparound arithmetic: the result equals `self * a + b` taken
/// modulo the kind's range.
pub trait MulAdd<A = Self, B = Self>: Sized {
    /// The resulting type after applying the fused multiply-add.
    type Output;

    /// What the fused multiply-add returns.
    spec fn mul_add_spec(self, a: A, b: B) -> Self::Output;

    /// Performs the fused multiply-add operation.
    fn mul_add(self, a: A, b: B) -> (r: Self::Output)
        ensures
            r == self.mul_add_spec(a, b),
    ;
}

impl MulAdd<u32, u32> for u32 {
    type Output = u32;

    open spec fn mul_add_spec(self, a: u32, b: u32) -> u32 {
        self.wrapping_mul(a).wrapping_add(b)
    }

    fn mul_add(self, a: u32, b: u32) -> (r: u32)
        ensures
            r == self.mul_add_spec(a, b),
    {
        self.wrapping_mul(a).wrapping_add(b)
    }
}

impl MulAdd<i32, i32> for i32 {
    type Output = i32;

    open spec fn mul_add_spec(self, a: i32, b: i32) -> i32 {
        self.wrapping_mul(a).wrapping_add(b)
    }

    fn mul_add(self, a: i32, b: i32) -> (r: i32)
        ensures
            r == self.mul_add_spec(a, b),
    {
        self.wrapping_mul(a).wrapping_add(b)
    }
}

} // verus!
