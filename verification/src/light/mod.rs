//! The lights of a scene.

pub mod directional;
pub mod point;
pub mod spot;

use vstd::prelude::*;
pub use crate::light::directional::Directional;
pub use crate::light::point::Point;
pub use crate::light::spot::Spot;
use crate::util::Color;

verus! {

/// Any of the lights.
#[derive(Clone, Copy, Debug, PartialEq, Eq, Structural)]
pub enum DynamicLight {
    /// A directional light.
    Directional(Directional),
    /// A point light source.
    Point(Point),
    /// A spotlight.
    Spot(Spot),
}

impl DynamicLight {
    /// The colour of the light.
    pub open spec fn spec_color(&self) -> Color {
        match *self {
            DynamicLight::Directional(d) => d.color,
            DynamicLight::Point(p) => p.color,
            DynamicLight::Spot(s) => s.color,
        }
    }

    /// Whether the light is one the tracer accepts: a light that shines in a
    /// direction has a direction that is not zero.
    pub open spec fn well_formed(self) -> bool {
        match self {
            DynamicLight::Directional(d) => !d.direction.is_zero(),
            DynamicLight::Point(p) => true,
            DynamicLight::Spot(s) => !s.direction.is_zero(),
        }
    }

    /// Whether the light is one the tracer accepts.
    pub fn is_well_formed(&self) -> (r: bool)
        ensures
            r == self.well_formed(),
    {
        match self {
            DynamicLight::Directional(d) => !d.direction.is_zero(),
            DynamicLight::Point(p) => true,
            DynamicLight::Spot(s) => !s.direction.is_zero(),
        }
    }

    /// The color of the light.
    #[verifier::when_used_as_spec(spec_color)]
    pub fn color(&self) -> (c: Color)
        ensures
            c == self.spec_color(),
    {
        match self {
            DynamicLight::Directional(d) => d.color(),
            DynamicLight::Point(p) => p.color(),
            DynamicLight::Spot(s) => s.color(),
        }
    }
}

} // verus!
