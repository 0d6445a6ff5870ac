//! How a picture is read between its pixels.

use vstd::prelude::*;

verus! {

/// The way a picture is sampled at a place that is no pixel's own.
#[derive(Clone, Copy, Debug, PartialEq, Eq, PartialOrd, Ord, Hash)]
pub enum SampleMode {
    /// The four pixels around the place, each by its nearness.
    Bilinear,
    /// The pixels around the place, weighted by a bell curve.
    Gaussian,
    /// The nearest pixel.
    Point,
}

} // verus!
