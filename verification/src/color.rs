//! Zone colors, packed as `0x00RRGGBB` the way the collector expects them.

use vstd::prelude::*;

verus! {

/// An RGB color for a zone, packed into the low 24 bits of a `u32`.
#[derive(Clone, Copy, PartialEq, Eq, Structural, Debug)]
pub struct Color(pub u32);

impl Color {
    /// Pack three channel values into one color word.
    pub fn new(r: u8, g: u8, b: u8) -> (c: Color)
        ensures
            c.0 == (r as u32) << 16 | (g as u32) << 8 | (b as u32),
    {
        Color((r as u32) << 16 | (g as u32) << 8 | (b as u32))
    }

    /// The sentinel color: the collector treats zero as "no color".
    pub fn none() -> (c: Color)
        ensures
            c.0 == 0,
    {
        Color(0)
    }

    /// The packed color word.
    pub fn to_u32(&self) -> (r: u32)
        ensures
            r == self.0,
    {
        self.0
    }
}

} // verus!
