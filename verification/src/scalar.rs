//! Quantities as IEEE 754 single-precision bit patterns.
//!
//! The library routes and tests quantities, it never rounds one: every
//! operation here is exact on the bit pattern.

use vstd::prelude::*;

verus! {

/// The pattern with only the sign bit set.
pub const SIGN_BIT: u32 = 0x8000_0000;

/// The pattern of positive infinity: every exponent bit set, no fraction bit.
pub const INFINITY_BITS: u32 = 0x7f80_0000;

/// A single-precision number, held as its bit pattern.
///
/// Equality is equality of patterns: a NaN equals itself, and the two zeros
/// differ.
#[derive(Clone, Copy, Debug, PartialEq, Eq, Structural)]
pub struct Scalar {
    pub bits: u32,
}

impl Scalar {
    /// The pattern without its sign bit.
    pub open spec fn magnitude(self) -> int {
        self.bits as int % SIGN_BIT as int
    }

    /// Whether the sign bit is set.
    pub open spec fn is_negative(self) -> bool {
        self.bits >= SIGN_BIT
    }

    /// Not a number: every exponent bit set, and some fraction bit.
    pub open spec fn spec_is_nan(self) -> bool {
        self.magnitude() > INFINITY_BITS
    }

    /// Neither infinite nor NaN: some exponent bit is clear.
    pub open spec fn spec_is_finite(self) -> bool {
        self.magnitude() < INFINITY_BITS
    }

    /// The place of a number that is not NaN among all such numbers: patterns
    /// of one sign are ordered as their magnitudes, negative ones in reverse,
    /// and the two zeros share a place.
    pub open spec fn rank(self) -> int {
        if self.is_negative() {
            -self.magnitude()
        } else {
            self.magnitude()
        }
    }

    /// The order of the numbers: false whenever either side is NaN.
    pub open spec fn spec_lt(self, other: Scalar) -> bool {
        !self.spec_is_nan() && !other.spec_is_nan() && self.rank() < other.rank()
    }

    /// Positive zero.
    pub open spec fn spec_zero() -> Scalar {
        Scalar { bits: 0 }
    }

    /// Positive zero.
    #[verifier::when_used_as_spec(spec_zero)]
    pub fn zero() -> (r: Scalar)
        ensures
            r == Scalar::spec_zero(),
    {
        Scalar { bits: 0 }
    }

    /// Whether the number is NaN.
    #[verifier::when_used_as_spec(spec_is_nan)]
    pub fn is_nan(self) -> (r: bool)
        ensures
            r == self.spec_is_nan(),
    {
        self.bits % SIGN_BIT > INFINITY_BITS
    }

    /// Whether the number is neither infinite nor NaN.
    #[verifier::when_used_as_spec(spec_is_finite)]
    pub fn is_finite(self) -> (r: bool)
        ensures
            r == self.spec_is_finite(),
    {
        self.bits % SIGN_BIT < INFINITY_BITS
    }

    /// Whether `self` is strictly less than `other`.
    #[verifier::when_used_as_spec(spec_lt)]
    pub fn lt(self, other: Scalar) -> (r: bool)
        ensures
            r == self.spec_lt(other),
    {
        let a: u32 = self.bits % SIGN_BIT;
        let b: u32 = other.bits % SIGN_BIT;
        if self.is_nan() || other.is_nan() {
            false
        } else if self.bits >= SIGN_BIT {
            if other.bits >= SIGN_BIT {
                b < a
            } else {
                a != 0 || b != 0
            }
        } else {
            other.bits < SIGN_BIT && a < b
        }
    }
}

/// A planar vector.
#[derive(Clone, Copy, Debug, PartialEq, Eq, Structural)]
pub struct Vector2 {
    pub x: Scalar,
    pub y: Scalar,
}

/// A spatial vector. A planar quantity has a zero `z`; a rotation about the
/// axis that leaves the plane has only `z`.
#[derive(Clone, Copy, Debug, PartialEq, Eq, Structural)]
pub struct Vector3 {
    pub x: Scalar,
    pub y: Scalar,
    pub z: Scalar,
}

/// A rotation, carried through unread.
#[derive(Clone, Copy, Debug, PartialEq, Eq, Structural)]
pub struct Quaternion {
    pub x: Scalar,
    pub y: Scalar,
    pub z: Scalar,
    pub w: Scalar,
}

impl Vector2 {
    /// The spatial vector with the same `x` and `y` and the given `z`.
    pub open spec fn spec_extend(self, z: Scalar) -> Vector3 {
        Vector3 { x: self.x, y: self.y, z }
    }

    /// The spatial vector with the same `x` and `y` and the given `z`.
    #[verifier::when_used_as_spec(spec_extend)]
    pub fn extend(self, z: Scalar) -> (r: Vector3)
        ensures
            r == self.spec_extend(z),
    {
        Vector3 { x: self.x, y: self.y, z }
    }
}

impl Vector3 {
    /// The vector with all components positive zero.
    pub open spec fn spec_zero() -> Vector3 {
        Vector3 { x: Scalar::spec_zero(), y: Scalar::spec_zero(), z: Scalar::spec_zero() }
    }

    /// The vector about the axis that leaves the plane: only `z` is set.
    pub open spec fn spec_axial(z: Scalar) -> Vector3 {
        Vector3 { x: Scalar::spec_zero(), y: Scalar::spec_zero(), z }
    }

    /// The planar part: `x` and `y`.
    pub open spec fn spec_truncate(self) -> Vector2 {
        Vector2 { x: self.x, y: self.y }
    }

    /// Whether every component is neither infinite nor NaN.
    pub open spec fn spec_is_finite(self) -> bool {
        self.x.spec_is_finite() && self.y.spec_is_finite() && self.z.spec_is_finite()
    }

    /// The vector with all components positive zero.
    #[verifier::when_used_as_spec(spec_zero)]
    pub fn zero() -> (r: Vector3)
        ensures
            r == Vector3::spec_zero(),
    {
        Vector3 { x: Scalar::zero(), y: Scalar::zero(), z: Scalar::zero() }
    }

    /// The vector about the axis that leaves the plane: only `z` is set.
    #[verifier::when_used_as_spec(spec_axial)]
    pub fn axial(z: Scalar) -> (r: Vector3)
        ensures
            r == Vector3::spec_axial(z),
    {
        Vector3 { x: Scalar::zero(), y: Scalar::zero(), z }
    }

    /// The planar part: `x` and `y`.
    #[verifier::when_used_as_spec(spec_truncate)]
    pub fn truncate(self) -> (r: Vector2)
        ensures
            r == self.spec_truncate(),
    {
        Vector2 { x: self.x, y: self.y }
    }

    /// Whether every component is neither infinite nor NaN.
    #[verifier::when_used_as_spec(spec_is_finite)]
    pub fn is_finite(self) -> (r: bool)
        ensures
            r == self.spec_is_finite(),
    {
        self.x.is_finite() && self.y.is_finite() && self.z.is_finite()
    }
}

} // verus!
