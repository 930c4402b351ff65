//! Integer vectors, their axes and per-component arithmetic.

pub mod axis;
pub mod component;
pub mod swizzle;
pub mod vector2i;
pub mod vector3i;
pub mod vector4i;

pub use axis::{Vector2Axis, Vector2iAxis, Vector3Axis, Vector3iAxis, Vector4Axis};
pub use vector2i::Vector2i;
pub use vector3i::Vector3i;
pub use vector4i::Vector4i;
pub use swizzle::SwizzleToVector;
