//! Rays, and where a ray meets a plane.

use vstd::prelude::*;
use crate::scalar::Scalar;
use crate::vector::Vector3;

verus! {

/// A ray: the point it starts from and the direction it travels in.
#[derive(Clone, Copy, Debug, PartialEq, Eq, Structural)]
pub struct Ray {
    /// The point at which the ray starts.
    pub origin: Vector3,
    /// The direction of the ray, of length one.
    pub direction: Vector3,
}

/// Where a ray meets a plane, if it does.
///
/// `denom` is the dot product of the plane's normal and the ray's direction;
/// `dist` is the dot product of the normal and the vector from the ray's origin
/// to a point of the plane, divided by `denom`. A ray that runs along the plane
/// (`denom` is zero) never meets it; a plane behind the ray (`dist` below zero,
/// or no number at all) is not met either.
pub open spec fn plane_hit(denom: Scalar, dist: Scalar) -> Option<Scalar> {
    if denom.same(Scalar::zero()) {
        None
    } else if dist.ge(Scalar::zero()) {
        Some(dist)
    } else {
        None
    }
}

impl Ray {
    /// The ray from `origin` along `direction`.
    pub fn new(origin: Vector3, direction: Vector3) -> (r: Ray)
        ensures
            r == (Ray { origin, direction }),
    {
        Ray { origin, direction }
    }

    /// The distance at which the ray meets a plane, from the two numbers that
    /// [`plane_hit`] describes.
    pub fn collide_plane(denom: Scalar, dist: Scalar) -> (r: Option<Scalar>)
        ensures
            r == plane_hit(denom, dist),
            denom.same(Scalar::zero()) ==> r is None,
            r matches Some(d) ==> d == dist && d.ge(Scalar::zero()),
    {
        if denom.same(Scalar::zero()) {
            None
        } else if dist.ge(Scalar::zero()) {
            Some(dist)
        } else {
            None
        }
    }
}

} // verus!
