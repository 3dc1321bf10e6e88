//! Coordinates in points (logical pixels), with the origin in the top left
//! corner.
//!
//! The frame-input protocol stores, copies and resets these values but never
//! computes with them, so each scalar is carried as the raw bit pattern of
//! the IEEE-754 number the host measured. Hosts convert at the boundary
//! (`f32::to_bits` on the way in, `f32::from_bits` on the way out), and two
//! scalars are the same measurement exactly when their bits are equal.

use vstd::prelude::*;

verus! {

/// A point-valued scalar (a coordinate, a distance, a scale factor),
/// carried as the bit pattern of a single-precision number.
#[derive(Clone, Copy, Debug, PartialEq, Eq, Structural)]
pub struct ScalarBits {
    pub bits: u32,
}

/// A timestamp in seconds, carried as the bit pattern of a double-precision
/// number.
#[derive(Clone, Copy, Debug, PartialEq, Eq, Structural)]
pub struct TimeBits {
    pub bits: u64,
}

impl ScalarBits {
    /// The bit pattern of positive zero.
    pub open spec fn zero_spec() -> ScalarBits {
        ScalarBits { bits: 0 }
    }

    /// Positive zero.
    #[verifier::when_used_as_spec(zero_spec)]
    pub fn zero() -> (r: ScalarBits)
        ensures
            r == ScalarBits::zero_spec(),
    {
        ScalarBits { bits: 0 }
    }
}

/// A position on the screen, in points.
#[derive(Clone, Copy, Debug, PartialEq, Eq, Structural)]
pub struct Pos2 {
    pub x: ScalarBits,
    pub y: ScalarBits,
}

/// A displacement in points, such as an accumulated scroll distance.
#[derive(Clone, Copy, Debug, PartialEq, Eq, Structural)]
pub struct Vec2 {
    pub x: ScalarBits,
    pub y: ScalarBits,
}

impl Vec2 {
    /// The zero vector: both components the bit pattern of positive zero.
    pub open spec fn zero_spec() -> Vec2 {
        Vec2 { x: ScalarBits::zero_spec(), y: ScalarBits::zero_spec() }
    }

    /// The zero vector.
    #[verifier::when_used_as_spec(zero_spec)]
    pub fn zero() -> (r: Vec2)
        ensures
            r == Vec2::zero_spec(),
    {
        Vec2 { x: ScalarBits::zero(), y: ScalarBits::zero() }
    }
}

/// An axis-aligned rectangle, given by its top-left and bottom-right corner.
#[derive(Clone, Copy, Debug, PartialEq, Eq, Structural)]
pub struct Rect {
    pub min: Pos2,
    pub max: Pos2,
}

} // verus!
