//! The resolved color values the palette hands out.
//!
//! Colors live in a perceptual lightness/chroma/hue space. To keep the
//! arithmetic exact, the axes are held in fixed-point units: lightness and
//! chroma in ten-thousandths of a unit, hue in hundredths of a degree.

use vstd::prelude::*;

verus! {

/// One whole unit of the lightness axis, in fixed-point steps.
pub const AXIS_UNIT: u32 = 10000;

/// Upper bound of the lightness axis: lightness ranges over `0.0..=1.0`.
pub const LIGHTNESS_MAX: u32 = 10000;

/// Upper bound of the chroma axis. No displayable color exceeds a chroma of
/// `0.4`, so the palette treats that as the edge of the valid domain.
pub const CHROMA_MAX: u32 = 4000;

/// Hues are angles: valid values lie strictly below 360 degrees.
pub const HUE_LIMIT: u32 = 36000;

/// A fully resolved color: lightness and chroma in ten-thousandths of a
/// unit, hue in hundredths of a degree.
#[derive(Clone, Copy, Debug, PartialEq, Eq, Structural)]
pub struct Color {
    pub l: u32,
    pub c: u32,
    pub h: u32,
}

/// A color is well formed when every component lies within the valid
/// domain of its axis.
pub open spec fn color_wf(c: Color) -> bool {
    &&& c.l <= LIGHTNESS_MAX
    &&& c.c <= CHROMA_MAX
    &&& c.h < HUE_LIMIT
}

impl Color {
    /// Builds a color from its three components.
    pub fn new(l: u32, c: u32, h: u32) -> (r: Color)
        ensures
            r == (Color { l, c, h }),
    {
        Color { l, c, h }
    }

    /// Reports whether every component lies within its axis's valid domain.
    pub fn is_well_formed(&self) -> (r: bool)
        ensures
            r == color_wf(*self),
    {
        self.l <= LIGHTNESS_MAX && self.c <= CHROMA_MAX && self.h < HUE_LIMIT
    }
}

} // verus!
