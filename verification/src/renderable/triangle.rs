use vstd::prelude::*;
use crate::material::Material;
use crate::ray::plane_hit;
use crate::scalar::Scalar;
use crate::vector::Vector3;

verus! {

/// A triangle.
#[derive(Clone, Copy, Debug, PartialEq, Eq)]
pub struct Triangle {
    /// The vertices of the triangle.
    pub vertices: (Vector3, Vector3, Vector3),
    /// The normal vector from the triangle, fixed when the triangle is built.
    pub normal: Vector3,
    /// The material the triangle is made of.
    pub material: Material,
}

/// Whether a point of the triangle's plane lies in the triangle.
///
/// `alpha` and `beta` are the point's barycentric coordinates along the edges
/// from the first vertex to the second and to the third; `sum` is
/// `alpha + beta`. The point is inside if neither coordinate is below zero and
/// the sum is not above one. The edges and corners are inside.
pub open spec fn inside_triangle(alpha: Scalar, beta: Scalar, sum: Scalar) -> bool {
    alpha.ge(Scalar::zero()) && beta.ge(Scalar::zero()) && sum.le(Scalar::one())
}

/// Where a ray meets a triangle, if it does: where it meets the triangle's
/// plane, provided that point lies in the triangle.
pub open spec fn triangle_hit(
    denom: Scalar,
    dist: Scalar,
    alpha: Scalar,
    beta: Scalar,
    sum: Scalar,
) -> Option<Scalar> {
    if plane_hit(denom, dist) is Some && inside_triangle(alpha, beta, sum) {
        Some(dist)
    } else {
        None
    }
}

impl Triangle {
    /// Whether a point of the plane lies in the triangle, from its barycentric
    /// coordinates and their sum.
    pub fn contains(alpha: Scalar, beta: Scalar, sum: Scalar) -> (r: bool)
        ensures
            r == inside_triangle(alpha, beta, sum),
    {
        alpha.ge(Scalar::zero()) && beta.ge(Scalar::zero()) && sum.le(Scalar::one())
    }

    /// The distance at which a ray meets the triangle. `denom` and `dist` are
    /// those of the triangle's plane, through the first vertex (see
    /// [`plane_hit`]); `alpha`, `beta` and `sum` are those of the point at
    /// `dist` along the ray (see [`inside_triangle`]).
    pub fn collides_with(
        denom: Scalar,
        dist: Scalar,
        alpha: Scalar,
        beta: Scalar,
        sum: Scalar,
    ) -> (r: Option<Scalar>)
        ensures
            r == triangle_hit(denom, dist, alpha, beta, sum),
            r is Some ==> plane_hit(denom, dist) == r,
    {
        if denom.same(Scalar::zero()) {
            None
        } else if !dist.ge(Scalar::zero()) {
            None
        } else if Triangle::contains(alpha, beta, sum) {
            Some(dist)
        } else {
            None
        }
    }

    /// The material the triangle is made of.
    pub fn material(&self) -> (m: Material)
        ensures
            m == self.material,
    {
        self.material
    }

    /// The normal at a point of the triangle: the flat normal, the same
    /// everywhere.
    pub fn normal_at(&self, pos: Vector3) -> (n: Vector3)
        ensures
            n == self.normal,
    {
        self.normal
    }
}

} // verus!
