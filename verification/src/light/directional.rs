use vstd::prelude::*;
use crate::scalar::Scalar;
use crate::util::Color;
use crate::vector::Vector3;

verus! {

/// A directional light: light of one colour that comes from one direction
/// with one strength everywhere.
#[derive(Clone, Copy, Debug, PartialEq, Eq, Structural)]
pub struct Directional {
    /// The color of the light.
    pub color: Color,
    /// The direction from a point toward the light, of length one.
    pub direction: Vector3,
    /// The intensity of the light.
    pub intensity: Scalar,
}

impl Directional {
    /// The color of the light.
    pub fn color(&self) -> (c: Color)
        ensures
            c == self.color,
    {
        self.color
    }

    /// The direction from a point toward the light and the distance to it:
    /// the same direction from every point, and the light is infinitely far.
    pub fn direction_from(&self, point: Vector3) -> (r: (Vector3, Scalar))
        ensures
            r.0 == self.direction,
            r.1 == Scalar::infinity(),
    {
        (self.direction, Scalar::infinity())
    }

    /// The intensity of the light at a point that nothing shades: the same at
    /// every point.
    pub fn intensity_at(&self, point: Vector3) -> (i: Scalar)
        ensures
            i == self.intensity,
    {
        self.intensity
    }
}

} // verus!
