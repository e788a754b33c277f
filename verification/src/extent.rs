//! Pixel extents and exact ratios. Texture-coordinate scales are kept as
//! exact integer ratios rather than approximate fractions, so every statement
//! about them is precise; a renderer divides at the very end.

use vstd::prelude::*;

verus! {

/// A width and height in whole pixels.
#[derive(PartialEq, Eq, Structural, Clone, Copy, Debug)]
pub struct Extent2D {
    pub width: u32,
    pub height: u32,
}

impl Extent2D {
    /// A new extent of the given pixel dimensions.
    pub fn new(width: u32, height: u32) -> (r: Self)
        ensures
            r.width == width,
            r.height == height,
    {
        Extent2D { width, height }
    }
}

/// An exact non-negative ratio `num / den`.
#[derive(PartialEq, Eq, Structural, Clone, Copy, Debug)]
pub struct Ratio {
    pub num: u32,
    pub den: u32,
}

impl Ratio {
    /// The ratio `num / den`.
    pub fn new(num: u32, den: u32) -> (r: Self)
        ensures
            r.num == num,
            r.den == den,
    {
        Ratio { num, den }
    }
}

/// A pair of ratios: a normalized width and height.
#[derive(PartialEq, Eq, Structural, Clone, Copy, Debug)]
pub struct RatioSize {
    pub width: Ratio,
    pub height: Ratio,
}

} // verus!
