//! A vector in 2D space, carried as two IEEE-754 binary32 encodings.

use vstd::prelude::*;

use crate::scalar::{eq_bits, spec_eq};

verus! {

/// A point or direction in the plane.  Each component is the raw 32-bit
/// encoding of a single-precision value.  `==` compares the stored
/// encodings; `ieee_eq` compares the encoded values, under which the two
/// zero encodings are equal and a NaN is equal to nothing.
#[derive(Clone, Copy, Debug, PartialEq, Eq, Structural)]
pub struct Float2 {
    pub x: u32,
    pub y: u32,
}

/// IEEE-754 equality of two points: both components equal as encoded
/// values.
pub open spec fn spec_point_eq(p: Float2, q: Float2) -> bool {
    spec_eq(p.x, q.x) && spec_eq(p.y, q.y)
}

impl Float2 {
    /// Builds a point from the encodings of its two components.
    pub fn new(x: u32, y: u32) -> (r: Self)
        ensures
            r.x == x,
            r.y == y,
    {
        Float2 { x, y }
    }

    /// The encoding of the first component.
    pub fn x(self) -> (r: u32)
        ensures
            r == self.x,
    {
        self.x
    }

    /// The encoding of the second component.
    pub fn y(self) -> (r: u32)
        ensures
            r == self.y,
    {
        self.y
    }

    /// IEEE-754 equality with another point.
    pub fn ieee_eq(self, rhs: Self) -> (r: bool)
        ensures
            r == spec_point_eq(self, rhs),
    {
        eq_bits(self.x, rhs.x) && eq_bits(self.y, rhs.y)
    }
}

} // verus!
