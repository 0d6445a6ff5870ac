//! The surfaces a ray can meet.

pub mod plane;
pub mod sphere;
pub mod triangle;

use vstd::prelude::*;
use crate::material::Material;
pub use crate::renderable::plane::Plane;
pub use crate::renderable::sphere::Sphere;
pub use crate::renderable::triangle::Triangle;

verus! {

/// Any of the surfaces.
#[derive(Clone, Copy, Debug, PartialEq, Eq)]
pub enum DynamicRenderable {
    /// A plane.
    Plane(Plane),
    /// A sphere.
    Sphere(Sphere),
    /// A triangle.
    Triangle(Triangle),
}

impl DynamicRenderable {
    /// The material of the surface.
    pub open spec fn spec_material(&self) -> Material {
        match *self {
            DynamicRenderable::Plane(p) => p.material,
            DynamicRenderable::Sphere(s) => s.material,
            DynamicRenderable::Triangle(t) => t.material,
        }
    }

    /// Whether the surface is one the tracer accepts: a sphere has a radius
    /// above zero, a plane and a triangle have a normal that is not zero.
    pub open spec fn well_formed(self) -> bool {
        match self {
            DynamicRenderable::Plane(p) => !p.normal.is_zero(),
            DynamicRenderable::Sphere(s) => s.well_formed(),
            DynamicRenderable::Triangle(t) => !t.normal.is_zero(),
        }
    }

    /// The material the surface is made of.
    #[verifier::when_used_as_spec(spec_material)]
    pub fn material(&self) -> (m: Material)
        ensures
            m == self.spec_material(),
    {
        match self {
            DynamicRenderable::Plane(p) => p.material(),
            DynamicRenderable::Sphere(s) => s.material(),
            DynamicRenderable::Triangle(t) => t.material(),
        }
    }

    /// Whether the surface is one the tracer accepts.
    pub fn is_well_formed(&self) -> (r: bool)
        ensures
            r == self.well_formed(),
    {
        match self {
            DynamicRenderable::Plane(p) => !p.normal.is_zero(),
            DynamicRenderable::Sphere(s) => s.is_well_formed(),
            DynamicRenderable::Triangle(t) => !t.normal.is_zero(),
        }
    }
}

} // verus!
