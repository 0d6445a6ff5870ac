//! Points, directions and normals in space.

use vstd::prelude::*;
use crate::scalar::Scalar;

verus! {

/// Three scalars: a position, a direction or a normal.
///
/// Directions and normals are meant to have length one. Nothing here checks
/// that: whoever builds one normalizes it.
#[derive(Clone, Copy, Debug, PartialEq, Eq, Structural)]
pub struct Vector3 {
    pub x: Scalar,
    pub y: Scalar,
    pub z: Scalar,
}

impl Vector3 {
    /// The vector with the given components.
    pub fn new(x: Scalar, y: Scalar, z: Scalar) -> (v: Vector3)
        ensures
            v == (Vector3 { x, y, z }),
    {
        Vector3 { x, y, z }
    }

    /// The vector whose components have the given patterns.
    pub fn from_bits(x: u32, y: u32, z: u32) -> (v: Vector3)
        ensures
            v.x.bits == x,
            v.y.bits == y,
            v.z.bits == z,
    {
        Vector3 { x: Scalar { bits: x }, y: Scalar { bits: y }, z: Scalar { bits: z } }
    }

    /// Whether every component is zero: the vector has no length, and so no
    /// direction.
    pub open spec fn spec_is_zero(self) -> bool {
        self.x.same(Scalar::zero()) && self.y.same(Scalar::zero()) && self.z.same(Scalar::zero())
    }

    /// Whether every component is zero.
    #[verifier::when_used_as_spec(spec_is_zero)]
    pub fn is_zero(self) -> (r: bool)
        ensures
            r == self.spec_is_zero(),
    {
        let zero = Scalar::zero();
        self.x.same(zero) && self.y.same(zero) && self.z.same(zero)
    }

    /// Whether any component is a NaN.
    pub open spec fn spec_has_nan(self) -> bool {
        self.x.is_nan() || self.y.is_nan() || self.z.is_nan()
    }

    /// Whether any component is a NaN.
    #[verifier::when_used_as_spec(spec_has_nan)]
    pub fn has_nan(self) -> (r: bool)
        ensures
            r == self.spec_has_nan(),
    {
        self.x.is_nan() || self.y.is_nan() || self.z.is_nan()
    }
}

} // verus!
