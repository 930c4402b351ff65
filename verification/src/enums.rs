//! Small enumerations of the built-in types.

use vstd::prelude::*;

verus! {

/// A projection's clipping plane.
#[derive(Copy, Clone, Eq, PartialEq, Structural, Hash, Debug)]
pub enum ProjectionPlane {
    /// The near plane.
    Near,
    /// The far plane.
    Far,
    /// The left plane.
    Left,
    /// The top plane.
    Top,
    /// The right plane.
    Right,
    /// The bottom plane.
    Bottom,
}

impl ProjectionPlane {
    /// The engine ordinal of the plane.
    pub fn ord(self) -> (r: i32)
        ensures
            r == match self {
                ProjectionPlane::Near => 0i32,
                ProjectionPlane::Far => 1,
                ProjectionPlane::Left => 2,
                ProjectionPlane::Top => 3,
                ProjectionPlane::Right => 4,
                ProjectionPlane::Bottom => 5,
            },
    {
        match self {
            ProjectionPlane::Near => 0i32,
            ProjectionPlane::Far => 1,
            ProjectionPlane::Left => 2,
            ProjectionPlane::Top => 3,
            ProjectionPlane::Right => 4,
            ProjectionPlane::Bottom => 5,
        }
    }
}

/// The eye to create a projection for, when creating a projection adjusted for head-mounted
/// displays.
#[derive(Copy, Clone, Eq, PartialEq, Structural, Hash, Debug)]
pub enum ProjectionEye {
    /// The left eye.
    Left,
    /// The right eye.
    Right,
}

impl ProjectionEye {
    /// The engine ordinal of the eye.
    pub fn ord(self) -> (r: i32)
        ensures
            r == match self {
                ProjectionEye::Left => 1i32,
                ProjectionEye::Right => 2,
            },
    {
        match self {
            ProjectionEye::Left => 1i32,
            ProjectionEye::Right => 2,
        }
    }
}

/// Specifies string encoding.
#[non_exhaustive]
#[derive(Copy, Clone, Eq, PartialEq, Structural, Debug)]
pub enum Encoding {
    /// ASCII.
    Ascii,
    /// Latin-1.
    Latin1,
    /// UTF-8.
    Utf8,
}

/// The ways in which converting a variant to another type can fail.
#[derive(Copy, Clone, Eq, PartialEq, Structural, Debug)]
pub enum VariantConversionError {
    /// Variant type does not match expected type
    BadType,
    /// Variant value cannot be represented in target type
    BadValue,
    /// Variant value is missing a value for the target type
    MissingValue,
    /// Variant value is null but expected to be non-null
    VariantIsNil,
}

impl VariantConversionError {
    /// The human-readable message for the error.
    pub open spec fn spec_message(self) -> Seq<char> {
        match self {
            VariantConversionError::BadType => "Variant type does not match expected type"@,
            VariantConversionError::BadValue => "Variant value cannot be represented in target type"@,
            VariantConversionError::MissingValue => "Variant value is missing a value for the target type"@,
            VariantConversionError::VariantIsNil => "Variant value is null but expected to be non-null"@,
        }
    }

    /// The human-readable message for the error.
    pub fn message(&self) -> (r: &'static str)
        ensures
            r@ == self.spec_message(),
    {
        match self {
            VariantConversionError::BadType => "Variant type does not match expected type",
            VariantConversionError::BadValue => "Variant value cannot be represented in target type",
            VariantConversionError::MissingValue => "Variant value is missing a value for the target type",
            VariantConversionError::VariantIsNil => "Variant value is null but expected to be non-null",
        }
    }
}

} // verus!
