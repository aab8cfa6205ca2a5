//! Vectors and matrices of scalars, as plain containers.

use crate::scalar::Scalar;
use vstd::prelude::*;

verus! {

/// Three scalars.
#[derive(Clone, Copy, Debug, PartialEq, Eq, Structural)]
pub struct Vec3 {
    pub x: Scalar,
    pub y: Scalar,
    pub z: Scalar,
}

/// Four scalars.
#[derive(Clone, Copy, Debug, PartialEq, Eq, Structural)]
pub struct Vec4 {
    pub x: Scalar,
    pub y: Scalar,
    pub z: Scalar,
    pub w: Scalar,
}

/// A 3×3 matrix, stored by columns.
#[derive(Clone, Copy, Debug, PartialEq, Eq, Structural)]
pub struct Mat3 {
    pub x_axis: Vec3,
    pub y_axis: Vec3,
    pub z_axis: Vec3,
}

impl Vec3 {
    pub open spec fn spec_from_bits(x: u32, y: u32, z: u32) -> Vec3 {
        Vec3 { x: Scalar { bits: x }, y: Scalar { bits: y }, z: Scalar { bits: z } }
    }

    pub open spec fn spec_extend(self, w: Scalar) -> Vec4 {
        Vec4 { x: self.x, y: self.y, z: self.z, w }
    }

    /// The components in order, as their bits.
    pub open spec fn words(self) -> Seq<u32> {
        seq![self.x.bits, self.y.bits, self.z.bits]
    }

    /// Whether no component is a NaN.
    pub open spec fn ordered(self) -> bool {
        !self.x.spec_is_nan() && !self.y.spec_is_nan() && !self.z.spec_is_nan()
    }

    /// The vector with the given components.
    pub fn new(x: Scalar, y: Scalar, z: Scalar) -> (v: Vec3)
        ensures
            v == (Vec3 { x, y, z }),
    {
        Vec3 { x, y, z }
    }

    /// The vector whose components have the given bits.
    #[verifier::when_used_as_spec(spec_from_bits)]
    pub fn from_bits(x: u32, y: u32, z: u32) -> (v: Vec3)
        ensures
            v == Vec3::spec_from_bits(x, y, z),
    {
        Vec3 { x: Scalar { bits: x }, y: Scalar { bits: y }, z: Scalar { bits: z } }
    }

    /// The vector with a fourth component appended.
    #[verifier::when_used_as_spec(spec_extend)]
    pub fn extend(self, w: Scalar) -> (v: Vec4)
        ensures
            v == self.spec_extend(w),
    {
        Vec4 { x: self.x, y: self.y, z: self.z, w }
    }

    /// Appends the three words of the vector.
    pub fn write_words(&self, out: &mut Vec<u32>)
        ensures
            final(out)@ == old(out)@ + self.words(),
    {
        out.push(self.x.bits);
        out.push(self.y.bits);
        out.push(self.z.bits);
        assert(out@ =~= old(out)@ + self.words());
    }
}

impl Vec4 {
    pub open spec fn spec_truncate(self) -> Vec3 {
        Vec3 { x: self.x, y: self.y, z: self.z }
    }

    /// The components in order, as their bits.
    pub open spec fn words(self) -> Seq<u32> {
        seq![self.x.bits, self.y.bits, self.z.bits, self.w.bits]
    }

    /// The vector with the given components.
    pub fn new(x: Scalar, y: Scalar, z: Scalar, w: Scalar) -> (v: Vec4)
        ensures
            v == (Vec4 { x, y, z, w }),
    {
        Vec4 { x, y, z, w }
    }

    /// The first three components.
    #[verifier::when_used_as_spec(spec_truncate)]
    pub fn truncate(self) -> (v: Vec3)
        ensures
            v == self.spec_truncate(),
    {
        Vec3 { x: self.x, y: self.y, z: self.z }
    }

    /// Appends the four words of the vector.
    pub fn write_words(&self, out: &mut Vec<u32>)
        ensures
            final(out)@ == old(out)@ + self.words(),
    {
        out.push(self.x.bits);
        out.push(self.y.bits);
        out.push(self.z.bits);
        out.push(self.w.bits);
        assert(out@ =~= old(out)@ + self.words());
    }
}

impl Mat3 {
    /// The matrix with the given columns.
    pub fn from_cols(x_axis: Vec3, y_axis: Vec3, z_axis: Vec3) -> (m: Mat3)
        ensures
            m == (Mat3 { x_axis, y_axis, z_axis }),
    {
        Mat3 { x_axis, y_axis, z_axis }
    }
}

} // verus!
