//! A 4-lane vector, carried as four IEEE-754 binary32 encodings.
//!
//! Lane permutation, elementwise maximum and minimum, and equality are
//! integer logic on the encodings and are verified here.  Elementwise
//! rounding arithmetic (multiply, divide, add, subtract) belongs to the
//! unverified front end that decodes the lanes.

use vstd::prelude::*;

use crate::scalar::{eq_bits, max_bits, min_bits, spec_eq, spec_max, spec_min};

verus! {

/// A vector of four lanes.  Each lane is the raw 32-bit encoding of a
/// single-precision value.  `==` compares the stored encodings;
/// `eq_elements` compares the encoded values lane by lane.
#[derive(Clone, Copy, Debug, PartialEq, Eq, Structural)]
pub struct Float4 {
    pub x: u32,
    pub y: u32,
    pub z: u32,
    pub w: u32,
}

impl Float4 {
    /// The `zwxy` lane permutation of a vector.
    pub open spec fn spec_zwxy(self) -> Float4 {
        Float4 { x: self.z, y: self.w, z: self.x, w: self.y }
    }

    /// The elementwise maximum of two vectors, lane by lane.
    pub open spec fn spec_max4(self, rhs: Float4) -> Float4 {
        Float4 {
            x: spec_max(self.x, rhs.x),
            y: spec_max(self.y, rhs.y),
            z: spec_max(self.z, rhs.z),
            w: spec_max(self.w, rhs.w),
        }
    }

    /// The elementwise minimum of two vectors, lane by lane.
    pub open spec fn spec_min4(self, rhs: Float4) -> Float4 {
        Float4 {
            x: spec_min(self.x, rhs.x),
            y: spec_min(self.y, rhs.y),
            z: spec_min(self.z, rhs.z),
            w: spec_min(self.w, rhs.w),
        }
    }

    /// IEEE-754 equality of two vectors: every lane equal as an encoded
    /// value.
    pub open spec fn spec_eq4(self, rhs: Float4) -> bool {
        &&& spec_eq(self.x, rhs.x)
        &&& spec_eq(self.y, rhs.y)
        &&& spec_eq(self.z, rhs.z)
        &&& spec_eq(self.w, rhs.w)
    }

    /// Builds a vector from the encodings of its four lanes.
    pub fn new(x: u32, y: u32, z: u32, w: u32) -> (r: Self)
        ensures
            r == (Float4 { x, y, z, w }),
    {
        Float4 { x, y, z, w }
    }

    /// The encoding of the first lane.
    pub fn x(&self) -> (r: u32)
        ensures
            r == self.x,
    {
        self.x
    }

    /// The encoding of the second lane.
    pub fn y(&self) -> (r: u32)
        ensures
            r == self.y,
    {
        self.y
    }

    /// The encoding of the third lane.
    pub fn z(&self) -> (r: u32)
        ensures
            r == self.z,
    {
        self.z
    }

    /// The encoding of the fourth lane.
    pub fn w(&self) -> (r: u32)
        ensures
            r == self.w,
    {
        self.w
    }

    /// Permutes the lanes: the result's lanes are the third, fourth,
    /// first and second lane of `self`, in that order.
    pub fn zwxy(&self) -> (r: Self)
        ensures
            r == self.spec_zwxy(),
    {
        Float4 { x: self.z, y: self.w, z: self.x, w: self.y }
    }

    /// The elementwise maximum: each lane of the result is the larger of
    /// the corresponding lanes of the operands, a NaN lane losing to the
    /// other operand's lane.
    pub fn max(&self, rhs: &Self) -> (r: Self)
        ensures
            r == self.spec_max4(*rhs),
    {
        Float4 {
            x: max_bits(self.x, rhs.x),
            y: max_bits(self.y, rhs.y),
            z: max_bits(self.z, rhs.z),
            w: max_bits(self.w, rhs.w),
        }
    }

    /// The elementwise minimum: each lane of the result is the smaller of
    /// the corresponding lanes of the operands, a NaN lane losing to the
    /// other operand's lane.
    pub fn min(&self, rhs: &Self) -> (r: Self)
        ensures
            r == self.spec_min4(*rhs),
    {
        Float4 {
            x: min_bits(self.x, rhs.x),
            y: min_bits(self.y, rhs.y),
            z: min_bits(self.z, rhs.z),
            w: min_bits(self.w, rhs.w),
        }
    }

    /// IEEE-754 equality with another vector, lane by lane.
    pub fn eq_elements(&self, rhs: &Self) -> (r: bool)
        ensures
            r == self.spec_eq4(*rhs),
    {
        eq_bits(self.x, rhs.x) && eq_bits(self.y, rhs.y) && eq_bits(self.z, rhs.z) && eq_bits(
            self.w,
            rhs.w,
        )
    }

    /// IEEE-754 equality against a raw four-lane tuple of encodings.
    pub fn eq_tuple(&self, rhs: (u32, u32, u32, u32)) -> (r: bool)
        ensures
            r == self.spec_eq4((Float4 { x: rhs.0, y: rhs.1, z: rhs.2, w: rhs.3 })),
    {
        eq_bits(self.x, rhs.0) && eq_bits(self.y, rhs.1) && eq_bits(self.z, rhs.2) && eq_bits(
            self.w,
            rhs.3,
        )
    }
}

/// The `zwxy` permutation is self-inverse: applying it twice returns the
/// original vector.
pub proof fn lemma_zwxy_self_inverse(v: Float4)
    ensures
        v.spec_zwxy().spec_zwxy() == v,
{
}

} // verus!
