use vstd::prelude::*;
use crate::scalar::Scalar;
use crate::util::Color;
use crate::vector::Vector3;

verus! {

/// A spotlight: a point light that shines in a cone around its axis.
#[derive(Clone, Copy, Debug, PartialEq, Eq, Structural)]
pub struct Spot {
    /// The color of the light.
    pub color: Color,
    /// The position the light is emitted from.
    pub position: Vector3,
    /// The direction the light is pointing in: the axis of the cone.
    pub direction: Vector3,
    /// The intensity of the light on its axis.
    pub intensity: Scalar,
    /// The angle from the axis at which the light starts falling off.
    pub falloff_angle: Scalar,
    /// The angle from the axis from which on the light has no effect.
    pub max_angle: Scalar,
}

impl Spot {
    /// The intensity of the spotlight at a point that lies at `angle` from
    /// its axis.
    ///
    /// At `max_angle` and beyond it is zero, and so it is where the angle is
    /// no number. Nearer to the axis it is the full `intensity` up to
    /// `falloff_angle`, and from there on it is `faded`, which the caller has
    /// worked out: `intensity * (max_angle - angle) / (max_angle -
    /// falloff_angle)`, a straight line from the full intensity at
    /// `falloff_angle` down to nothing at `max_angle`.
    pub open spec fn spec_intensity_at(&self, angle: Scalar, faded: Scalar) -> Scalar {
        if !angle.lt(self.max_angle) {
            Scalar::zero()
        } else if angle.le(self.falloff_angle) {
            self.intensity
        } else {
            faded
        }
    }

    /// The color of the light.
    pub fn color(&self) -> (c: Color)
        ensures
            c == self.color,
    {
        self.color
    }

    /// The intensity of the spotlight at a point that lies at `angle` from
    /// its axis and that nothing shades; `faded` is what the straight line of
    /// [`Spot::spec_intensity_at`] gives at that angle.
    #[verifier::when_used_as_spec(spec_intensity_at)]
    pub fn intensity_at(&self, angle: Scalar, faded: Scalar) -> (i: Scalar)
        ensures
            i == self.spec_intensity_at(angle, faded),
            angle.le(self.falloff_angle) && angle.lt(self.max_angle) ==> i == self.intensity,
            angle.ge(self.max_angle) ==> i == Scalar::zero(),
    {
        if !angle.lt(self.max_angle) {
            Scalar::zero()
        } else if angle.le(self.falloff_angle) {
            self.intensity
        } else {
            faded
        }
    }
}

} // verus!
