//! The parts of a square that a pointer can take hold of.
//!
//! The square is two units wide and high and centered at the origin. A strip
//! half a unit wide runs along each side; where two strips cross lies a
//! corner, the rest of a strip is an edge, and what the strips leave is the
//! middle.

use vstd::prelude::*;
use crate::scalar::{Scalar, ONE_BITS};

verus! {

/// The pattern of minus one.
pub const MINUS_ONE_BITS: u32 = 0xbf80_0000;

/// The pattern of minus one half.
pub const MINUS_HALF_BITS: u32 = 0xbf00_0000;

/// The pattern of one half, the width of a strip.
pub const HALF_BITS: u32 = 0x3f00_0000;

/// Where a coordinate lies on one axis of the square.
#[derive(Clone, Copy, Debug, PartialEq, Eq, Structural)]
pub enum AxisPart {
    /// In the strip at the lower end, from minus one to minus one half.
    Minus,
    /// Between the strips.
    Center,
    /// In the strip at the upper end, from one half to one.
    Plus,
}

/// The kind of a part of the square.
#[derive(Clone, Copy, Debug, PartialEq, Eq, Structural)]
pub enum Bounds {
    /// Where two strips cross.
    Corner,
    /// In one strip only.
    Edge,
    /// In no strip.
    Middle,
}

impl AxisPart {
    /// The part of the axis that holds `x`, or nothing where `x` is off the
    /// square. The ends of a strip belong to the strip.
    pub open spec fn spec_from_coord(x: Scalar) -> Option<AxisPart> {
        if x.ge(Scalar { bits: MINUS_ONE_BITS }) && x.le(Scalar { bits: MINUS_HALF_BITS }) {
            Some(AxisPart::Minus)
        } else if x.ge(Scalar { bits: HALF_BITS }) && x.le(Scalar { bits: ONE_BITS }) {
            Some(AxisPart::Plus)
        } else if x.ge(Scalar { bits: MINUS_HALF_BITS }) && x.le(Scalar { bits: HALF_BITS }) {
            Some(AxisPart::Center)
        } else {
            None
        }
    }

    /// The part of the axis that holds `x`, or nothing where `x` is off the
    /// square.
    #[verifier::when_used_as_spec(spec_from_coord)]
    pub fn from_coord(x: Scalar) -> (r: Option<AxisPart>)
        ensures
            r == AxisPart::spec_from_coord(x),
            r is Some <==> x.ge(Scalar { bits: MINUS_ONE_BITS }) && x.le(Scalar { bits: ONE_BITS }),
    {
        let minus_one = Scalar { bits: MINUS_ONE_BITS };
        let minus_half = Scalar { bits: MINUS_HALF_BITS };
        let half = Scalar { bits: HALF_BITS };
        let one = Scalar { bits: ONE_BITS };
        proof {
            crate::scalar::lemma_ordinal_orders(minus_one, minus_half);
            crate::scalar::lemma_ordinal_orders(minus_half, half);
            crate::scalar::lemma_ordinal_orders(half, one);
        }
        if x.ge(minus_one) && x.le(minus_half) {
            Some(AxisPart::Minus)
        } else if x.ge(half) && x.le(one) {
            Some(AxisPart::Plus)
        } else if x.ge(minus_half) && x.le(half) {
            Some(AxisPart::Center)
        } else {
            None
        }
    }
}

impl Bounds {
    /// The kind of the part that lies at the given parts of the two axes.
    pub open spec fn spec_from_parts(x: AxisPart, y: AxisPart) -> Bounds {
        if x == AxisPart::Center && y == AxisPart::Center {
            Bounds::Middle
        } else if x == AxisPart::Center || y == AxisPart::Center {
            Bounds::Edge
        } else {
            Bounds::Corner
        }
    }

    /// The kind of the part that lies at the given parts of the two axes.
    #[verifier::when_used_as_spec(spec_from_parts)]
    pub fn from_parts(x: AxisPart, y: AxisPart) -> (r: Bounds)
        ensures
            r == Bounds::spec_from_parts(x, y),
    {
        match (x, y) {
            (AxisPart::Center, AxisPart::Center) => Bounds::Middle,
            (AxisPart::Center, _) => Bounds::Edge,
            (_, AxisPart::Center) => Bounds::Edge,
            _ => Bounds::Corner,
        }
    }

    /// The kind of the part of the square that holds the point `(x, y)`, or
    /// nothing where the point is off the square.
    pub fn from_coords(x: Scalar, y: Scalar) -> (r: Option<Bounds>)
        ensures
            r == (match (AxisPart::from_coord(x), AxisPart::from_coord(y)) {
                (Some(x_part), Some(y_part)) => Some(Bounds::from_parts(x_part, y_part)),
                _ => None,
            }),
    {
        match AxisPart::from_coord(x) {
            Some(x_part) => match AxisPart::from_coord(y) {
                Some(y_part) => Some(Bounds::from_parts(x_part, y_part)),
                None => None,
            },
            None => None,
        }
    }
}

} // verus!
