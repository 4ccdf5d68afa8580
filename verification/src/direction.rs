//! Two-dimensional input vectors and the direction classifier.
//!
//! Geometry uses fixed-point coordinates: one movement unit is `UNIT`
//! (one thousand), so a normalized-or-zero input vector has both
//! components in `[-UNIT, UNIT]`.

use vstd::prelude::*;

verus! {

/// One movement unit in fixed-point coordinates (a normalized axis value
/// of 1.0 is stored as `UNIT`).
pub const UNIT: i32 = 1000;

/// Half a movement unit: the classifier's threshold (0.5).
pub const HALF_UNIT: i32 = 500;

/// A two-dimensional vector in fixed-point coordinates.
///
/// `y` grows downward (toward the camera), as is conventional for 2D
/// screen space: a downward input faces the character forward.
#[derive(Clone, Copy, PartialEq, Eq, Structural, Debug)]
pub struct Vec2 {
    pub x: i32,
    pub y: i32,
}

/// The three semantic direction categories an input vector can fall in.
#[derive(Clone, Copy, PartialEq, Eq, Structural, Debug)]
pub enum DirectionType {
    Default,
    Back,
    Side,
}

impl Vec2 {
    pub fn new(x: i32, y: i32) -> (v: Vec2)
        ensures
            v == (Vec2 { x, y }),
    {
        Vec2 { x, y }
    }

    /// The zero vector.
    pub fn zero() -> (v: Vec2)
        ensures
            v == (Vec2 { x: 0, y: 0 }),
    {
        Vec2 { x: 0, y: 0 }
    }

    /// Whether this is the zero vector.
    pub open spec fn spec_is_zero(self) -> bool {
        self.x == 0 && self.y == 0
    }

    #[verifier::when_used_as_spec(spec_is_zero)]
    pub fn is_zero(self) -> (b: bool)
        ensures
            b == self.spec_is_zero(),
    {
        self.x == 0 && self.y == 0
    }

    /// Whether this vector could be a normalized-or-zero input vector:
    /// both components within one movement unit of zero.
    pub open spec fn spec_is_unit_input(self) -> bool {
        &&& -UNIT <= self.x <= UNIT
        &&& -UNIT <= self.y <= UNIT
    }

    #[verifier::when_used_as_spec(spec_is_unit_input)]
    pub fn is_unit_input(self) -> (b: bool)
        ensures
            b == self.spec_is_unit_input(),
    {
        -UNIT <= self.x && self.x <= UNIT && -UNIT <= self.y && self.y <= UNIT
    }
}

/// The direction category of an input vector: the first matching rule of
///   1. `y > 0.5` is `Default` (downward, forward-facing input),
///   2. `y < -0.5` is `Back`,
///   3. `|x| > 0.5` is `Side`,
///   4. anything else (the zero vector included) is `Default`.
pub open spec fn spec_direction_of(v: Vec2) -> DirectionType {
    if v.y > HALF_UNIT {
        DirectionType::Default
    } else if v.y < -HALF_UNIT {
        DirectionType::Back
    } else if v.x > HALF_UNIT || v.x < -HALF_UNIT {
        DirectionType::Side
    } else {
        DirectionType::Default
    }
}

/// Classifies an input vector (expected normalized-or-zero by the caller)
/// into one of the three direction categories.
pub fn determine_direction_type(direction: Vec2) -> (t: DirectionType)
    ensures
        t == spec_direction_of(direction),
{
    if direction.is_zero() {
        return DirectionType::Default;
    }
    if direction.y > HALF_UNIT {
        DirectionType::Default
    } else if direction.y < -HALF_UNIT {
        DirectionType::Back
    } else if direction.x > HALF_UNIT || direction.x < -HALF_UNIT {
        DirectionType::Side
    } else {
        DirectionType::Default
    }
}

} // verus!
