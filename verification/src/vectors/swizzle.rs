//! Conversion of tuples of components into vectors, which lets components be rearranged.

use vstd::prelude::*;

use super::{Vector2i, Vector3i, Vector4i};

verus! {

/// Conversion from tuples to vectors; the vector type follows from the number of components.
pub trait SwizzleToVector: Sized {
    /// The vector type with as many components as the tuple.
    type Output;

    /// The vector whose components are the tuple's, in order.
    fn swizzle_to_vector(self) -> Self::Output;
}

impl SwizzleToVector for (i32, i32) {
    type Output = Vector2i;

    fn swizzle_to_vector(self) -> (r: Vector2i)
        ensures
            r == (Vector2i { x: self.0, y: self.1 }),
    {
        Vector2i::new(self.0, self.1)
    }
}

impl SwizzleToVector for (i32, i32, i32) {
    type Output = Vector3i;

    fn swizzle_to_vector(self) -> (r: Vector3i)
        ensures
            r == (Vector3i { x: self.0, y: self.1, z: self.2 }),
    {
        Vector3i::new(self.0, self.1, self.2)
    }
}

impl SwizzleToVector for (i32, i32, i32, i32) {
    type Output = Vector4i;

    fn swizzle_to_vector(self) -> (r: Vector4i)
        ensures
            r == (Vector4i { x: self.0, y: self.1, z: self.2, w: self.3 }),
    {
        Vector4i::new(self.0, self.1, self.2, self.3)
    }
}

} // verus!
