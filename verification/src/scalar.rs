//! Bit-level model of IEEE-754 binary32 scalars.
//!
//! The geometry core stores every coordinate as the raw 32-bit encoding of a
//! single-precision value.  Comparison of encoded values (NaN detection,
//! ordering, equality, elementwise maximum and minimum) is pure integer logic
//! on the encoding and is verified here.  Arithmetic that rounds (addition,
//! multiplication, division, square root) is not part of the core.

use vstd::prelude::*;

verus! {

/// An encoding is a NaN iff its exponent field is all ones and its
/// significand field is nonzero.
pub open spec fn spec_is_nan(b: u32) -> bool {
    (b >> 23) & 0xff == 0xff && b & 0x007f_ffff != 0
}

/// The magnitude of an encoding: the value with the sign bit cleared.
pub open spec fn spec_magnitude(b: u32) -> u32 {
    b & 0x7fff_ffff
}

/// Whether the sign bit of an encoding is set.
pub open spec fn spec_sign_neg(b: u32) -> bool {
    b & 0x8000_0000 != 0
}

/// The order key of a non-NaN encoding: an integer that orders encodings
/// exactly as IEEE-754 orders the values they encode.  Negative values sort
/// below positive ones by magnitude; the two zero encodings share key 0, so
/// they compare equal, as the standard requires.
pub open spec fn spec_order_key(b: u32) -> int {
    if spec_sign_neg(b) {
        -(spec_magnitude(b) as int)
    } else {
        spec_magnitude(b) as int
    }
}

/// IEEE-754 `<` on encodings: false whenever either operand is NaN,
/// otherwise the order of the encoded values.
pub open spec fn spec_lt(a: u32, b: u32) -> bool {
    &&& !spec_is_nan(a)
    &&& !spec_is_nan(b)
    &&& spec_order_key(a) < spec_order_key(b)
}

/// IEEE-754 `==` on encodings: false whenever either operand is NaN;
/// the two zero encodings are equal; all other values are equal only to
/// their own encoding.
pub open spec fn spec_eq(a: u32, b: u32) -> bool {
    &&& !spec_is_nan(a)
    &&& !spec_is_nan(b)
    &&& spec_order_key(a) == spec_order_key(b)
}

/// The elementwise maximum of two encodings: a NaN operand is ignored in
/// favour of the other operand; otherwise the larger value is returned,
/// and on equal values (including the two zeros) the left operand.
pub open spec fn spec_max(a: u32, b: u32) -> u32 {
    if spec_is_nan(a) {
        b
    } else if spec_is_nan(b) {
        a
    } else if spec_order_key(a) < spec_order_key(b) {
        b
    } else {
        a
    }
}

/// The elementwise minimum of two encodings: a NaN operand is ignored in
/// favour of the other operand; otherwise the smaller value is returned,
/// and on equal values (including the two zeros) the left operand.
pub open spec fn spec_min(a: u32, b: u32) -> u32 {
    if spec_is_nan(a) {
        b
    } else if spec_is_nan(b) {
        a
    } else if spec_order_key(b) < spec_order_key(a) {
        b
    } else {
        a
    }
}

/// On encodings that are not NaN, the elementwise maximum and minimum
/// each return one of their operands; the maximum is smaller than
/// neither operand and the minimum larger than neither.
pub proof fn lemma_max_min_bounds(a: u32, b: u32)
    requires
        !spec_is_nan(a),
        !spec_is_nan(b),
    ensures
        spec_max(a, b) == a || spec_max(a, b) == b,
        spec_min(a, b) == a || spec_min(a, b) == b,
        !spec_lt(spec_max(a, b), a),
        !spec_lt(spec_max(a, b), b),
        !spec_lt(a, spec_min(a, b)),
        !spec_lt(b, spec_min(a, b)),
{
}

/// Tests whether an encoding is a NaN.
pub fn is_nan_bits(b: u32) -> (r: bool)
    ensures
        r == spec_is_nan(b),
{
    (b >> 23) & 0xff == 0xff && b & 0x007f_ffff != 0
}

/// IEEE-754 `<` on encodings.
pub fn lt_bits(a: u32, b: u32) -> (r: bool)
    ensures
        r == spec_lt(a, b),
{
    if is_nan_bits(a) || is_nan_bits(b) {
        false
    } else {
        let ma: u32 = a & 0x7fff_ffff;
        let mb: u32 = b & 0x7fff_ffff;
        let sa: bool = a & 0x8000_0000 != 0;
        let sb: bool = b & 0x8000_0000 != 0;
        if sa != sb {
            sa && (ma != 0 || mb != 0)
        } else if sa {
            mb < ma
        } else {
            ma < mb
        }
    }
}

/// IEEE-754 `==` on encodings.
pub fn eq_bits(a: u32, b: u32) -> (r: bool)
    ensures
        r == spec_eq(a, b),
{
    if is_nan_bits(a) || is_nan_bits(b) {
        false
    } else {
        let ma: u32 = a & 0x7fff_ffff;
        let mb: u32 = b & 0x7fff_ffff;
        let sa: bool = a & 0x8000_0000 != 0;
        let sb: bool = b & 0x8000_0000 != 0;
        if sa == sb {
            ma == mb
        } else {
            ma == 0 && mb == 0
        }
    }
}

/// The elementwise maximum of two encodings.
pub fn max_bits(a: u32, b: u32) -> (r: u32)
    ensures
        r == spec_max(a, b),
{
    if is_nan_bits(a) {
        b
    } else if is_nan_bits(b) {
        a
    } else if lt_bits(a, b) {
        b
    } else {
        a
    }
}

/// The elementwise minimum of two encodings.
pub fn min_bits(a: u32, b: u32) -> (r: u32)
    ensures
        r == spec_min(a, b),
{
    if is_nan_bits(a) {
        b
    } else if is_nan_bits(b) {
        a
    } else if lt_bits(b, a) {
        b
    } else {
        a
    }
}

} // verus!
