//! Colours, and what the tracer decides about them.

use vstd::prelude::*;
use crate::scalar::{lemma_order_key_orders, lemma_ordinal_orders, Scalar, ONE_BITS};
use crate::vector::Vector3;

verus! {

/// A colour: red, green and blue. While light is added up a channel may pass
/// one; before it becomes a byte it lies between zero and one.
#[derive(Clone, Copy, Debug, PartialEq, Eq, Structural)]
pub struct Color {
    pub r: Scalar,
    pub g: Scalar,
    pub b: Scalar,
}

impl Color {
    /// Black: every channel zero.
    pub open spec fn spec_black() -> Color {
        Color { r: Scalar { bits: 0 }, g: Scalar { bits: 0 }, b: Scalar { bits: 0 } }
    }

    /// White: every channel one.
    pub open spec fn spec_white() -> Color {
        Color {
            r: Scalar { bits: ONE_BITS },
            g: Scalar { bits: ONE_BITS },
            b: Scalar { bits: ONE_BITS },
        }
    }

    /// Black: every channel zero.
    #[verifier::when_used_as_spec(spec_black)]
    pub fn black() -> (c: Color)
        ensures
            c == Color::spec_black(),
    {
        Color { r: Scalar { bits: 0 }, g: Scalar { bits: 0 }, b: Scalar { bits: 0 } }
    }

    /// White: every channel one.
    #[verifier::when_used_as_spec(spec_white)]
    pub fn white() -> (c: Color)
        ensures
            c == Color::spec_white(),
    {
        Color {
            r: Scalar { bits: ONE_BITS },
            g: Scalar { bits: ONE_BITS },
            b: Scalar { bits: ONE_BITS },
        }
    }

    /// The colour whose channels have the given patterns.
    pub fn from_bits(r: u32, g: u32, b: u32) -> (c: Color)
        ensures
            c.r.bits == r,
            c.g.bits == g,
            c.b.bits == b,
    {
        Color { r: Scalar { bits: r }, g: Scalar { bits: g }, b: Scalar { bits: b } }
    }

    /// Whether every channel lies between zero and one, both included: the
    /// colours that can be shown as they are.
    pub open spec fn spec_displayable(self) -> bool {
        &&& self.r.ge(Scalar::zero()) && self.r.le(Scalar::one())
        &&& self.g.ge(Scalar::zero()) && self.g.le(Scalar::one())
        &&& self.b.ge(Scalar::zero()) && self.b.le(Scalar::one())
    }

    /// Whether every channel lies between zero and one, both included.
    #[verifier::when_used_as_spec(spec_displayable)]
    pub fn displayable(self) -> (r: bool)
        ensures
            r == self.spec_displayable(),
    {
        let zero = Scalar::zero();
        let one = Scalar::one();
        self.r.ge(zero) && self.r.le(one) && self.g.ge(zero) && self.g.le(one) && self.b.ge(zero)
            && self.b.le(one)
    }
}

/// `x` kept between zero and one: zero for what lies below, one for what lies
/// above, `x` itself otherwise. A NaN lies neither below nor above and is kept.
pub open spec fn clamp_unit(x: Scalar) -> Scalar {
    if x.lt(Scalar::zero()) {
        Scalar::zero()
    } else if x.gt(Scalar::one()) {
        Scalar::one()
    } else {
        x
    }
}

/// Keeps one channel between zero and one.
fn clamp_channel(x: Scalar) -> (r: Scalar)
    ensures
        r == clamp_unit(x),
{
    if x.lt(Scalar::zero()) {
        Scalar::zero()
    } else if x.gt(Scalar::one()) {
        Scalar::one()
    } else {
        x
    }
}

/// Clamps a colour: each channel is kept between zero and one by itself.
pub fn clamp_color(c: Color) -> (r: Color)
    ensures
        r.r == clamp_unit(c.r),
        r.g == clamp_unit(c.g),
        r.b == clamp_unit(c.b),
{
    Color { r: clamp_channel(c.r), g: clamp_channel(c.g), b: clamp_channel(c.b) }
}

/// A clamped colour can be shown, unless a channel was a NaN.
pub proof fn lemma_clamped_is_displayable(c: Color)
    requires
        !c.r.is_nan(),
        !c.g.is_nan(),
        !c.b.is_nan(),
    ensures
        (Color { r: clamp_unit(c.r), g: clamp_unit(c.g), b: clamp_unit(c.b) }).displayable(),
{
    lemma_ordinal_orders(Scalar::zero(), Scalar::one());
}

/// Whether `s` is the divisor that brings `c` down into what can be shown:
/// the last in the total order among one and the three channels.
pub open spec fn is_normalization_scale(c: Color, s: Scalar) -> bool {
    &&& s == Scalar::one() || s == c.r || s == c.g || s == c.b
    &&& s.order_key() >= Scalar::one().order_key()
    &&& s.order_key() >= c.r.order_key()
    &&& s.order_key() >= c.g.order_key()
    &&& s.order_key() >= c.b.order_key()
}

/// The later of two scalars in the total order.
fn later(a: Scalar, b: Scalar) -> (r: Scalar)
    ensures
        r == a || r == b,
        r.order_key() >= a.order_key(),
        r.order_key() >= b.order_key(),
{
    if b.order_key() >= a.order_key() {
        b
    } else {
        a
    }
}

/// The divisor by which a colour is normalized down: the largest of one and
/// its three channels. Dividing every channel by it keeps the hue and brings
/// the largest channel to one; a colour that can be shown already is divided
/// by one.
pub fn normalization_scale(c: Color) -> (s: Scalar)
    ensures
        is_normalization_scale(c, s),
{
    later(later(later(Scalar::one(), c.r), c.g), c.b)
}

/// There is one normalization scale only.
pub proof fn lemma_normalization_scale_unique(c: Color, s: Scalar, t: Scalar)
    requires
        is_normalization_scale(c, s),
        is_normalization_scale(c, t),
    ensures
        s == t,
{
    lemma_order_key_orders(s, t);
}

/// A colour that can be shown is normalized by one: tone mapping leaves it
/// as it is.
pub proof fn lemma_displayable_scale_is_one(c: Color, s: Scalar)
    requires
        c.displayable(),
        is_normalization_scale(c, s),
    ensures
        s == Scalar::one(),
{
    let one = Scalar::one();
    lemma_ordinal_orders(c.r, one);
    lemma_ordinal_orders(c.g, one);
    lemma_ordinal_orders(c.b, one);
    lemma_order_key_orders(c.r, one);
    lemma_order_key_orders(c.g, one);
    lemma_order_key_orders(c.b, one);
    lemma_order_key_orders(one, c.r);
    lemma_order_key_orders(one, c.g);
    lemma_order_key_orders(one, c.b);
}

/// The colour with the components of a vector as its channels.
pub fn rgb_from_vector(v: Vector3) -> (c: Color)
    ensures
        c == (Color { r: v.x, g: v.y, b: v.z }),
{
    Color { r: v.x, g: v.y, b: v.z }
}

/// The vector with the channels of a colour as its components.
pub fn vector_from_rgb(c: Color) -> (v: Vector3)
    ensures
        v == (Vector3 { x: c.r, y: c.g, z: c.b }),
{
    Vector3 { x: c.r, y: c.g, z: c.b }
}

} // verus!
