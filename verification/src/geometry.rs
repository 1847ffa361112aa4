//! Plain values shared by the modules: rectangles in pixels, and numbers that
//! are only carried, never computed with.

use vstd::prelude::*;

verus! {

/// A single-precision number, carried as its IEEE-754 bit pattern. The
/// library stores and copies such numbers; it never does arithmetic on them.
#[derive(Clone, Copy, Debug, PartialEq, Eq, Structural)]
pub struct Scalar {
    pub bits: u32,
}

impl Scalar {
    /// The number 0, whose bit pattern is all zeroes.
    pub open spec fn zero_spec() -> Scalar {
        Scalar { bits: 0 }
    }

    #[verifier::when_used_as_spec(zero_spec)]
    pub fn zero() -> (scalar: Scalar)
        ensures
            scalar == Scalar::zero_spec(),
    {
        Scalar { bits: 0 }
    }

    /// The number 1, whose bit pattern is `0x3f80_0000`.
    pub open spec fn one_spec() -> Scalar {
        Scalar { bits: 0x3f80_0000 }
    }

    #[verifier::when_used_as_spec(one_spec)]
    pub fn one() -> (scalar: Scalar)
        ensures
            scalar == Scalar::one_spec(),
    {
        Scalar { bits: 0x3f80_0000 }
    }
}

/// A double-precision number, carried as its IEEE-754 bit pattern.
#[derive(Clone, Copy, Debug, PartialEq, Eq, Structural)]
pub struct Double {
    pub bits: u64,
}

/// Two numbers that are carried together.
#[derive(Clone, Copy, Debug, PartialEq, Eq, Structural)]
pub struct Vec2 {
    pub x: Scalar,
    pub y: Scalar,
}

impl Vec2 {
    pub open spec fn zero_spec() -> Vec2 {
        Vec2 { x: Scalar::zero_spec(), y: Scalar::zero_spec() }
    }

    #[verifier::when_used_as_spec(zero_spec)]
    pub fn zero() -> (pair: Vec2)
        ensures
            pair == Vec2::zero_spec(),
    {
        Vec2 { x: Scalar::zero(), y: Scalar::zero() }
    }
}

/// Four numbers that are carried together.
#[derive(Clone, Copy, Debug, PartialEq, Eq, Structural)]
pub struct Vec4 {
    pub x: Scalar,
    pub y: Scalar,
    pub z: Scalar,
    pub w: Scalar,
}

/// A rectangle in whole pixels.
#[derive(Clone, Copy, Debug, PartialEq, Eq, Structural)]
pub struct Rect2D {
    pub x: u32,
    pub y: u32,
    pub w: u32,
    pub h: u32,
}

impl Rect2D {
    pub open spec fn zero_spec() -> Rect2D {
        Rect2D { x: 0, y: 0, w: 0, h: 0 }
    }

    #[verifier::when_used_as_spec(zero_spec)]
    pub fn zero() -> (rect: Rect2D)
        ensures
            rect == Rect2D::zero_spec(),
    {
        Rect2D { x: 0, y: 0, w: 0, h: 0 }
    }
}

} // verus!
