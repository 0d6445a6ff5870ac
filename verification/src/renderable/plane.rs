use vstd::prelude::*;
use crate::material::Material;
use crate::ray::{plane_hit, Ray};
use crate::scalar::Scalar;
use crate::vector::Vector3;

verus! {

/// An infinite plane.
#[derive(Clone, Copy, Debug, PartialEq, Eq, Structural)]
pub struct Plane {
    /// An arbitrary point on the plane.
    pub point: Vector3,
    /// The normal vector from the plane.
    pub normal: Vector3,
    /// The material the plane is made of.
    pub material: Material,
}

impl Plane {
    /// The distance at which a ray meets the plane. `denom` is the dot product
    /// of the normal and the ray's direction, `dist` the dot product of the
    /// normal and the vector from the ray's origin to `point`, divided by
    /// `denom`.
    pub fn collides_with(denom: Scalar, dist: Scalar) -> (r: Option<Scalar>)
        ensures
            r == plane_hit(denom, dist),
            denom.same(Scalar::zero()) ==> r is None,
    {
        Ray::collide_plane(denom, dist)
    }

    /// The material the plane is made of.
    pub fn material(&self) -> (m: Material)
        ensures
            m == self.material,
    {
        self.material
    }

    /// The normal at a point of the plane: the same everywhere. A point that
    /// is not on the plane gets it too.
    pub fn normal_at(&self, pos: Vector3) -> (n: Vector3)
        ensures
            n == self.normal,
    {
        self.normal
    }
}

} // verus!
