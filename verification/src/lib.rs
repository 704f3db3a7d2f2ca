//! Exact-integer vector types for 2, 3 and 4 dimensions, in unsigned and
//! signed 32-bit element kinds, with component-wise arithmetic, geometric
//! operations, homogeneous-coordinate bridging and packed byte views.
//!
//! All arithmetic follows the element kind's wraparound semantics, so every
//! operation is total except division, whose divisor must be nonzero.

pub mod arith;
pub mod muladd;
pub mod vec2i;
pub mod vec2u;
pub mod vec3i;
pub mod vec3u;
pub mod vec4i;
pub mod vec4u;

pub use muladd::MulAdd;
pub use vec2i::Vec2i;
pub use vec2u::Vec2u;
pub use vec3i::Vec3i;
pub use vec3u::Vec3u;
pub use vec4i::Vec4i;
pub use vec4u::Vec4u;
