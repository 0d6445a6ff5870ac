//! The decisions of a ray tracer: which surface a ray meets first, whether a
//! light reaches a point, how a colour becomes three bytes, and where each
//! pixel stands in the picture.
//!
//! Numbers are held by their bit patterns ([`scalar::Scalar`]). The sums and
//! products of tracing are worked out by the caller; what is decided from them
//! is decided here.

pub mod light;
pub mod material;
pub mod picture;
pub mod ray;
pub mod renderable;
pub mod report;
pub mod sample;
pub mod scalar;
pub mod scene;
pub mod square;
pub mod trace;
pub mod util;
pub mod vector;

pub use crate::material::Material;
pub use crate::ray::Ray;
pub use crate::scene::Scene;
