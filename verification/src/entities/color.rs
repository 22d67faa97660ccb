//! RGBA colors, a keyword's palette entry, and the selector over its roles.

use vstd::prelude::*;

verus! {

/// Selects one of the color roles a palette entry can carry.
#[derive(Debug, Clone, Copy, Hash, PartialEq, Eq, Structural)]
pub enum ColorType {
    Background,
}

/// An RGBA color with four unsigned byte channels.
#[derive(Debug, Clone, Copy, PartialEq, Eq, Structural)]
pub struct Color {
    pub r: u8,
    pub g: u8,
    pub b: u8,
    pub a: u8,
}

/// The neutral gray used wherever no color was configured.
pub open spec fn default_color() -> Color {
    Color { r: 134, g: 134, b: 134, a: 255 }
}

impl Color {
    pub fn into_components(self) -> (r: (u8, u8, u8, u8))
        ensures
            r == (self.r, self.g, self.b, self.a),
    {
        (self.r, self.g, self.b, self.a)
    }

    pub fn new(r: u8, g: u8, b: u8, a: u8) -> (c: Self)
        ensures
            c == (Color { r, g, b, a }),
    {
        Color { r, g, b, a }
    }
}

impl Default for Color {
    fn default() -> (c: Self)
        ensures
            c == default_color(),
    {
        Color { r: 134, g: 134, b: 134, a: 255 }
    }
}

/// The configured colors of one keyword; currently only a background role.
#[derive(Debug, Clone, Copy, PartialEq, Eq, Structural)]
pub struct Colors {
    pub background: Color,
}

impl Colors {
    pub fn new(background: Color) -> (c: Self)
        ensures
            c == (Colors { background }),
    {
        Colors { background }
    }
}

impl Default for Colors {
    fn default() -> (c: Self)
        ensures
            c == (Colors { background: default_color() }),
    {
        Colors { background: Color { r: 134, g: 134, b: 134, a: 255 } }
    }
}

} // verus!
