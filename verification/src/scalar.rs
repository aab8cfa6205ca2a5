//! Single-precision numbers held by their bit pattern.
//!
//! Every number that travels to the device is an IEEE 754 binary32 value.
//! This module never computes with such a value; it carries the 32 bits and
//! orders them. For two values that are not NaN, comparing their keys
//! ([`Scalar::key`]) is comparing the numbers they encode.

use vstd::prelude::*;

verus! {

/// The bit that holds the sign of a binary32 value.
pub const SIGN_BIT: u32 = 0x8000_0000;

/// The bits of positive infinity: every larger magnitude is a NaN.
pub const INFINITY_BITS: u32 = 0x7F80_0000;

/// The bits of `0.0`.
pub const ZERO_BITS: u32 = 0;

/// The bits of `1.0`.
pub const ONE_BITS: u32 = 0x3F80_0000;

/// A binary32 value, stored as the 32 bits of its encoding.
///
/// Two scalars are `==` when their bits are equal. That is finer than the
/// equality of the numbers: `0.0` and `-0.0` differ, and a NaN equals itself.
#[derive(Clone, Copy, Debug, PartialEq, Eq, Structural)]
pub struct Scalar {
    pub bits: u32,
}

impl Scalar {
    /// The encoding with the sign cleared.
    pub open spec fn magnitude(self) -> int {
        if self.bits >= SIGN_BIT {
            self.bits - SIGN_BIT
        } else {
            self.bits as int
        }
    }

    /// Whether the sign bit is set.
    pub open spec fn negative(self) -> bool {
        self.bits >= SIGN_BIT
    }

    pub open spec fn spec_is_nan(self) -> bool {
        self.magnitude() > INFINITY_BITS
    }

    pub open spec fn spec_is_finite(self) -> bool {
        self.magnitude() < INFINITY_BITS
    }

    /// An integer that orders the scalars as the numbers they encode are
    /// ordered. Both zeros have key 0. The key of a NaN means nothing.
    pub open spec fn key(self) -> int {
        if self.negative() {
            -self.magnitude()
        } else {
            self.magnitude()
        }
    }

    /// `self <= other` as numbers. False when either is a NaN.
    pub open spec fn spec_le(self, other: Scalar) -> bool {
        !self.spec_is_nan() && !other.spec_is_nan() && self.key() <= other.key()
    }

    /// `self < other` as numbers. False when either is a NaN.
    pub open spec fn spec_lt(self, other: Scalar) -> bool {
        !self.spec_is_nan() && !other.spec_is_nan() && self.key() < other.key()
    }

    /// `self` limited to the closed interval from `lo` to `hi`. A NaN is
    /// returned as it is.
    pub open spec fn spec_clamp(self, lo: Scalar, hi: Scalar) -> Scalar {
        if self.spec_lt(lo) {
            lo
        } else if hi.spec_lt(self) {
            hi
        } else {
            self
        }
    }

    pub open spec fn spec_neg(self) -> Scalar {
        if self.bits >= SIGN_BIT {
            Scalar { bits: (self.bits - SIGN_BIT) as u32 }
        } else {
            Scalar { bits: (self.bits + SIGN_BIT) as u32 }
        }
    }

    /// The scalar with the given bits.
    pub fn from_bits(bits: u32) -> (s: Scalar)
        ensures
            s == (Scalar { bits }),
    {
        Scalar { bits }
    }

    /// The bits of the scalar.
    pub fn to_bits(self) -> (bits: u32)
        ensures
            bits == self.bits,
    {
        self.bits
    }

    /// Whether the value is a NaN.
    #[verifier::when_used_as_spec(spec_is_nan)]
    pub fn is_nan(self) -> (r: bool)
        ensures
            r == self.spec_is_nan(),
    {
        self.abs_bits() > INFINITY_BITS
    }

    /// Whether the value is neither infinite nor a NaN.
    #[verifier::when_used_as_spec(spec_is_finite)]
    pub fn is_finite(self) -> (r: bool)
        ensures
            r == self.spec_is_finite(),
    {
        self.abs_bits() < INFINITY_BITS
    }

    /// The encoding with the sign cleared.
    pub fn abs_bits(self) -> (m: u32)
        ensures
            m == self.magnitude(),
    {
        if self.bits >= SIGN_BIT {
            self.bits - SIGN_BIT
        } else {
            self.bits
        }
    }

    /// The key of the value, see [`Scalar::key`].
    pub fn ordering_key(self) -> (k: i64)
        ensures
            k == self.key(),
    {
        let m: i64 = self.abs_bits() as i64;
        if self.bits >= SIGN_BIT {
            -m
        } else {
            m
        }
    }

    /// `self <= other` as numbers.
    #[verifier::when_used_as_spec(spec_le)]
    pub fn le(self, other: Scalar) -> (r: bool)
        ensures
            r == self.spec_le(other),
    {
        !self.is_nan() && !other.is_nan() && self.ordering_key() <= other.ordering_key()
    }

    /// `self < other` as numbers.
    #[verifier::when_used_as_spec(spec_lt)]
    pub fn lt(self, other: Scalar) -> (r: bool)
        ensures
            r == self.spec_lt(other),
    {
        !self.is_nan() && !other.is_nan() && self.ordering_key() < other.ordering_key()
    }

    /// Limits `self` to the closed interval from `lo` to `hi`.
    ///
    /// The bounds must be ordered, which also says that neither is a NaN.
    /// A NaN is returned as it is, and so is a zero of either sign that lies
    /// within the bounds.
    #[verifier::when_used_as_spec(spec_clamp)]
    pub fn clamp(self, lo: Scalar, hi: Scalar) -> (r: Scalar)
        requires
            lo.spec_le(hi),
        ensures
            r == self.spec_clamp(lo, hi),
            !self.spec_is_nan() ==> lo.spec_le(r) && r.spec_le(hi),
            lo.spec_le(self) && self.spec_le(hi) ==> r == self,
    {
        if self.lt(lo) {
            lo
        } else if hi.lt(self) {
            hi
        } else {
            self
        }
    }

    /// The value with its sign flipped.
    #[verifier::when_used_as_spec(spec_neg)]
    pub fn neg(self) -> (r: Scalar)
        ensures
            r == self.spec_neg(),
            r.magnitude() == self.magnitude(),
            r.negative() != self.negative(),
            r.key() == -self.key(),
    {
        if self.bits >= SIGN_BIT {
            Scalar { bits: self.bits - SIGN_BIT }
        } else {
            Scalar { bits: self.bits + SIGN_BIT }
        }
    }
}

/// On the scalars that are not NaN, `<=` is a total preorder, and two
/// scalars that are `<=` each other encode the same number: they have the same
/// bits, or both are zeros.
pub proof fn lemma_order_is_total(a: Scalar, b: Scalar, c: Scalar)
    requires
        !a.spec_is_nan(),
        !b.spec_is_nan(),
        !c.spec_is_nan(),
    ensures
        a.spec_le(a),
        a.spec_le(b) || b.spec_le(a),
        a.spec_le(b) && b.spec_le(c) ==> a.spec_le(c),
        a.spec_le(b) && b.spec_le(a) ==> a == b || (a.magnitude() == 0 && b.magnitude() == 0),
        a.spec_lt(b) <==> !b.spec_le(a),
{
}

/// Flipping the sign reverses the order and undoes itself.
pub proof fn lemma_neg_reverses_order(a: Scalar, b: Scalar)
    ensures
        a.spec_neg().spec_neg() == a,
        a.spec_neg().spec_is_nan() == a.spec_is_nan(),
        a.spec_le(b) <==> b.spec_neg().spec_le(a.spec_neg()),
{
}

/// A value that is not a NaN ends within the bounds it is clamped to, and
/// clamping a second time changes nothing.
pub proof fn lemma_clamp_is_within(x: Scalar, lo: Scalar, hi: Scalar)
    requires
        lo.spec_le(hi),
    ensures
        !x.spec_is_nan() ==> lo.spec_le(x.spec_clamp(lo, hi)) && x.spec_clamp(lo, hi).spec_le(hi),
        x.spec_is_nan() ==> x.spec_clamp(lo, hi) == x,
        x.spec_clamp(lo, hi).spec_clamp(lo, hi) == x.spec_clamp(lo, hi),
{
}

} // verus!
