use vstd::prelude::*;
use crate::scalar::Scalar;
use crate::util::Color;
use crate::vector::Vector3;

verus! {

/// A point light: light of one colour that spreads from one position and
/// weakens with the square of the distance.
#[derive(Clone, Copy, Debug, PartialEq, Eq, Structural)]
pub struct Point {
    /// The color of the light.
    pub color: Color,
    /// The position the light is emitted from.
    pub position: Vector3,
    /// The intensity of the light.
    pub intensity: Scalar,
}

impl Point {
    /// The color of the light.
    pub fn color(&self) -> (c: Color)
        ensures
            c == self.color,
    {
        self.color
    }
}

} // verus!
