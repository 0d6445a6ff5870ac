use vstd::prelude::*;
use crate::material::Material;
use crate::scalar::{lemma_ordinal_orders, Scalar};
use crate::vector::Vector3;

verus! {

/// A sphere.
#[derive(Clone, Copy, Debug, PartialEq, Eq, Structural)]
pub struct Sphere {
    /// The position of the center of the sphere.
    pub position: Vector3,
    /// The radius of the sphere, above zero.
    pub radius: Scalar,
    /// The material the sphere is made of.
    pub material: Material,
}

/// Where a ray meets a sphere, if it does.
///
/// The distances `t` at which the ray is on the sphere solve
/// `a t^2 + b t + c = 0`. `delta` is the discriminant `b^2 - 4ac`, `near` the
/// smaller root and `far` the larger. With `delta` below zero the ray misses.
/// Else the ray meets the sphere at `near` if that lies ahead, at `far` if
/// only that lies ahead (the ray starts inside the sphere), and not at all if
/// the sphere lies behind it.
pub open spec fn sphere_hit(delta: Scalar, near: Scalar, far: Scalar) -> Option<Scalar> {
    if delta.lt(Scalar::zero()) {
        None
    } else if near.gt(Scalar::zero()) {
        Some(near)
    } else if far.gt(Scalar::zero()) {
        Some(far)
    } else {
        None
    }
}

impl Sphere {
    /// Whether the radius is above zero.
    pub open spec fn well_formed(self) -> bool {
        self.radius.gt(Scalar::zero())
    }

    /// Whether the radius is above zero.
    pub fn is_well_formed(&self) -> (r: bool)
        ensures
            r == self.well_formed(),
    {
        self.radius.gt(Scalar::zero())
    }

    /// The distance at which a ray meets the sphere, from the three numbers
    /// that [`sphere_hit`] describes. The distance is never zero or below.
    pub fn collides_with(delta: Scalar, near: Scalar, far: Scalar) -> (r: Option<Scalar>)
        ensures
            r == sphere_hit(delta, near, far),
            r matches Some(t) ==> t.gt(Scalar::zero()) && (t == near || t == far),
    {
        if delta.lt(Scalar::zero()) {
            None
        } else if near.gt(Scalar::zero()) {
            Some(near)
        } else if far.gt(Scalar::zero()) {
            Some(far)
        } else {
            None
        }
    }

    /// The material the sphere is made of.
    pub fn material(&self) -> (m: Material)
        ensures
            m == self.material,
    {
        self.material
    }
}

/// A ray that starts inside a sphere leaves it once, ahead: with one root
/// behind the origin or at it and the other ahead, the hit is the root ahead.
pub proof fn lemma_hit_from_inside(delta: Scalar, near: Scalar, far: Scalar)
    requires
        delta.ge(Scalar::zero()),
        near.le(Scalar::zero()),
        far.gt(Scalar::zero()),
    ensures
        sphere_hit(delta, near, far) == Some(far),
{
}

/// No hit lies behind the ray's origin or at it.
pub proof fn lemma_hit_is_ahead(delta: Scalar, near: Scalar, far: Scalar)
    ensures
        sphere_hit(delta, near, far) matches Some(t) ==> t.gt(Scalar::zero()) && !t.is_nan()
            && t.value() > 0 && !t.negative(),
{
    let zero = Scalar::zero();
    lemma_ordinal_orders(zero, near);
    lemma_ordinal_orders(zero, far);
}

} // verus!
