//! How a surface answers to light.

use vstd::prelude::*;
use crate::scalar::{Scalar, ONE_BITS};
use crate::util::Color;

verus! {

/// The pattern of five, the phong exponent of the default material.
pub const DEFAULT_PHONG_BITS: u32 = 0x40a0_0000;

/// The material a surface is made of.
///
/// Only `ambient` and `diffuse` take part in shading. The other fields are
/// carried for a tracer that follows reflected and refracted rays.
#[derive(Clone, Copy, Debug, PartialEq, Eq, Structural)]
pub struct Material {
    /// The share of the scene's ambient light that the surface gives back.
    pub ambient: Color,
    /// The share of the light that falls on it that the surface gives back.
    pub diffuse: Color,
    /// The colour of specular highlights.
    pub specular: Color,
    /// The phong cosine power for specular highlights.
    pub phong: Scalar,
    /// The colour that passes through the surface.
    pub transmissive: Color,
    /// The index of refraction.
    pub ior: Scalar,
}

impl Material {
    /// The default material: white diffuse, nothing else, phong exponent 5,
    /// index of refraction 1.
    pub open spec fn spec_default() -> Material {
        Material {
            ambient: Color::black(),
            diffuse: Color::white(),
            specular: Color::black(),
            phong: Scalar { bits: DEFAULT_PHONG_BITS },
            transmissive: Color::black(),
            ior: Scalar { bits: ONE_BITS },
        }
    }
}

impl Default for Material {
    fn default() -> (m: Material)
        ensures
            m == Material::spec_default(),
    {
        Material {
            ambient: Color::black(),
            diffuse: Color::white(),
            specular: Color::black(),
            phong: Scalar { bits: DEFAULT_PHONG_BITS },
            transmissive: Color::black(),
            ior: Scalar { bits: ONE_BITS },
        }
    }
}

} // verus!
