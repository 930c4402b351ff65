//! Enumerations of the axes of integer vectors, with their engine ordinals and names.

use vstd::prelude::*;

verus! {

/// Enumerates the axes in a 2D vector.
#[derive(Copy, Clone, Eq, PartialEq, Structural, Ord, PartialOrd, Hash, Debug)]
pub enum Vector2Axis {
    /// The X axis.
    X,
    /// The Y axis.
    Y,
}

/// Enumerates the axes in a 3D vector.
#[derive(Copy, Clone, Eq, PartialEq, Structural, Ord, PartialOrd, Hash, Debug)]
pub enum Vector3Axis {
    /// The X axis.
    X,
    /// The Y axis.
    Y,
    /// The Z axis.
    Z,
}

/// Enumerates the axes in a 4D vector.
#[derive(Copy, Clone, Eq, PartialEq, Structural, Ord, PartialOrd, Hash, Debug)]
pub enum Vector4Axis {
    /// The X axis.
    X,
    /// The Y axis.
    Y,
    /// The Z axis.
    Z,
    /// The W axis.
    W,
}

/// Enumerates the axes in a [`Vector2i`](crate::vectors::Vector2i).
#[derive(Copy, Clone, Eq, PartialEq, Structural, Ord, PartialOrd, Debug)]
pub enum Vector2iAxis {
    /// The X axis.
    X,
    /// The Y axis.
    Y,
}

/// Enumerates the axes in a [`Vector3i`](crate::vectors::Vector3i).
#[derive(Copy, Clone, Eq, PartialEq, Structural, Ord, PartialOrd, Debug)]
pub enum Vector3iAxis {
    /// The X axis.
    X,
    /// The Y axis.
    Y,
    /// The Z axis.
    Z,
}

impl Vector2Axis {
    /// The axis' position in `X, Y`, counted from zero.
    pub open spec fn index_of(self) -> int {
        match self {
            Vector2Axis::X => 0,
            Vector2Axis::Y => 1,
        }
    }

    /// The engine ordinal of this axis.
    pub fn ord(self) -> (r: i32)
        ensures
            r == self.index_of(),
    {
        match self {
            Vector2Axis::X => 0,
            Vector2Axis::Y => 1,
        }
    }

    /// The axis at position `i`, or `None` if there is no such position.
    pub open spec fn from_index(i: int) -> Option<Self> {
        if i == 0 {
            Some(Vector2Axis::X)
        } else if i == 1 {
            Some(Vector2Axis::Y)
        } else {
            None
        }
    }

    /// The axis with the given engine ordinal, or `None` if no axis has it.
    pub fn try_from_ord(ord: i32) -> (r: Option<Self>)
        ensures
            r == Self::from_index(ord as int),
    {
        if ord == 0 {
            Some(Vector2Axis::X)
        } else if ord == 1 {
            Some(Vector2Axis::Y)
        } else {
            None
        }
    }

    /// The Rust name of the axis, such as `"X"`.
    pub fn as_str(&self) -> (r: &'static str)
        ensures
            r@ == axis_letter(self.index_of()),
    {
        proof {
            reveal_strlit("X");
            reveal_strlit("Y");
        }
        match self {
            Vector2Axis::X => "X",
            Vector2Axis::Y => "Y",
        }
    }

    /// The Godot name of the axis constant, such as `"AXIS_X"`.
    pub fn godot_name(&self) -> (r: &'static str)
        ensures
            r@ == "AXIS_"@ + axis_letter(self.index_of()),
    {
        proof {
            reveal_strlit("AXIS_");
            reveal_strlit("AXIS_X");
            reveal_strlit("AXIS_Y");
            reveal_strlit("X");
            reveal_strlit("Y");
        }
        match self {
            Vector2Axis::X => "AXIS_X",
            Vector2Axis::Y => "AXIS_Y",
        }
    }
}

impl Vector3Axis {
    /// The axis' position in `X, Y, Z`, counted from zero.
    pub open spec fn index_of(self) -> int {
        match self {
            Vector3Axis::X => 0,
            Vector3Axis::Y => 1,
            Vector3Axis::Z => 2,
        }
    }

    /// The engine ordinal of this axis.
    pub fn ord(self) -> (r: i32)
        ensures
            r == self.index_of(),
    {
        match self {
            Vector3Axis::X => 0,
            Vector3Axis::Y => 1,
            Vector3Axis::Z => 2,
        }
    }

    /// The axis at position `i`, or `None` if there is no such position.
    pub open spec fn from_index(i: int) -> Option<Self> {
        if i == 0 {
            Some(Vector3Axis::X)
        } else if i == 1 {
            Some(Vector3Axis::Y)
        } else if i == 2 {
            Some(Vector3Axis::Z)
        } else {
            None
        }
    }

    /// The axis with the given engine ordinal, or `None` if no axis has it.
    pub fn try_from_ord(ord: i32) -> (r: Option<Self>)
        ensures
            r == Self::from_index(ord as int),
    {
        if ord == 0 {
            Some(Vector3Axis::X)
        } else if ord == 1 {
            Some(Vector3Axis::Y)
        } else if ord == 2 {
            Some(Vector3Axis::Z)
        } else {
            None
        }
    }

    /// The Rust name of the axis, such as `"X"`.
    pub fn as_str(&self) -> (r: &'static str)
        ensures
            r@ == axis_letter(self.index_of()),
    {
        proof {
            reveal_strlit("X");
            reveal_strlit("Y");
            reveal_strlit("Z");
        }
        match self {
            Vector3Axis::X => "X",
            Vector3Axis::Y => "Y",
            Vector3Axis::Z => "Z",
        }
    }

    /// The Godot name of the axis constant, such as `"AXIS_X"`.
    pub fn godot_name(&self) -> (r: &'static str)
        ensures
            r@ == "AXIS_"@ + axis_letter(self.index_of()),
    {
        proof {
            reveal_strlit("AXIS_");
            reveal_strlit("AXIS_X");
            reveal_strlit("AXIS_Y");
            reveal_strlit("AXIS_Z");
            reveal_strlit("X");
            reveal_strlit("Y");
            reveal_strlit("Z");
        }
        match self {
            Vector3Axis::X => "AXIS_X",
            Vector3Axis::Y => "AXIS_Y",
            Vector3Axis::Z => "AXIS_Z",
        }
    }
}

impl Vector4Axis {
    /// The axis' position in `X, Y, Z, W`, counted from zero.
    pub open spec fn index_of(self) -> int {
        match self {
            Vector4Axis::X => 0,
            Vector4Axis::Y => 1,
            Vector4Axis::Z => 2,
            Vector4Axis::W => 3,
        }
    }

    /// The engine ordinal of this axis.
    pub fn ord(self) -> (r: i32)
        ensures
            r == self.index_of(),
    {
        match self {
            Vector4Axis::X => 0,
            Vector4Axis::Y => 1,
            Vector4Axis::Z => 2,
            Vector4Axis::W => 3,
        }
    }

    /// The axis at position `i`, or `None` if there is no such position.
    pub open spec fn from_index(i: int) -> Option<Self> {
        if i == 0 {
            Some(Vector4Axis::X)
        } else if i == 1 {
            Some(Vector4Axis::Y)
        } else if i == 2 {
            Some(Vector4Axis::Z)
        } else if i == 3 {
            Some(Vector4Axis::W)
        } else {
            None
        }
    }

    /// The axis with the given engine ordinal, or `None` if no axis has it.
    pub fn try_from_ord(ord: i32) -> (r: Option<Self>)
        ensures
            r == Self::from_index(ord as int),
    {
        if ord == 0 {
            Some(Vector4Axis::X)
        } else if ord == 1 {
            Some(Vector4Axis::Y)
        } else if ord == 2 {
            Some(Vector4Axis::Z)
        } else if ord == 3 {
            Some(Vector4Axis::W)
        } else {
            None
        }
    }

    /// The Rust name of the axis, such as `"X"`.
    pub fn as_str(&self) -> (r: &'static str)
        ensures
            r@ == axis_letter(self.index_of()),
    {
        proof {
            reveal_strlit("X");
            reveal_strlit("Y");
            reveal_strlit("Z");
            reveal_strlit("W");
        }
        match self {
            Vector4Axis::X => "X",
            Vector4Axis::Y => "Y",
            Vector4Axis::Z => "Z",
            Vector4Axis::W => "W",
        }
    }

    /// The Godot name of the axis constant, such as `"AXIS_X"`.
    pub fn godot_name(&self) -> (r: &'static str)
        ensures
            r@ == "AXIS_"@ + axis_letter(self.index_of()),
    {
        proof {
            reveal_strlit("AXIS_");
            reveal_strlit("AXIS_X");
            reveal_strlit("AXIS_Y");
            reveal_strlit("AXIS_Z");
            reveal_strlit("AXIS_W");
            reveal_strlit("X");
            reveal_strlit("Y");
            reveal_strlit("Z");
            reveal_strlit("W");
        }
        match self {
            Vector4Axis::X => "AXIS_X",
            Vector4Axis::Y => "AXIS_Y",
            Vector4Axis::Z => "AXIS_Z",
            Vector4Axis::W => "AXIS_W",
        }
    }
}

/// The letter that names the axis at `index` in `X, Y, Z, W`.
pub open spec fn axis_letter(index: int) -> Seq<char> {
    if index == 0 {
        seq!['X']
    } else if index == 1 {
        seq!['Y']
    } else if index == 2 {
        seq!['Z']
    } else {
        seq!['W']
    }
}

} // verus!
