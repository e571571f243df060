//! RGBA colors.

use vstd::prelude::*;

verus! {

/// Color with red, green, blue and alpha channels of one byte each.
#[derive(Debug, Copy, Clone, PartialEq, Eq, Hash, Structural)]
pub struct Color {
    r: u8,
    g: u8,
    b: u8,
    a: u8,
}

impl Color {
    /// Opaque black.
    pub fn black() -> (c: Color)
        ensures
            c.channels() == [0u8, 0u8, 0u8, 255u8],
    {
        Color { r: 0, g: 0, b: 0, a: 255 }
    }

    /// Opaque white.
    pub fn white() -> (c: Color)
        ensures
            c.channels() == [255u8, 255u8, 255u8, 255u8],
    {
        Color { r: 255, g: 255, b: 255, a: 255 }
    }

    /// Opaque red.
    pub fn red() -> (c: Color)
        ensures
            c.channels() == [255u8, 0u8, 0u8, 255u8],
    {
        Color { r: 255, g: 0, b: 0, a: 255 }
    }

    /// Fully transparent color.
    pub fn transparent() -> (c: Color)
        ensures
            c.channels() == [0u8, 0u8, 0u8, 0u8],
    {
        Color { r: 0, g: 0, b: 0, a: 0 }
    }

    /// The channels `[r, g, b, a]` of the color.
    pub closed spec fn channels(self) -> [u8; 4] {
        [self.r, self.g, self.b, self.a]
    }

    /// Creates a color from its four channels.
    pub fn rgba(r: u8, g: u8, b: u8, a: u8) -> (c: Color)
        ensures
            c.channels() == [r, g, b, a],
    {
        Color { r, g, b, a }
    }

    /// Red channel.
    pub fn r(&self) -> (v: u8)
        ensures
            v == self.channels()[0],
    {
        self.r
    }

    /// Green channel.
    pub fn g(&self) -> (v: u8)
        ensures
            v == self.channels()[1],
    {
        self.g
    }

    /// Blue channel.
    pub fn b(&self) -> (v: u8)
        ensures
            v == self.channels()[2],
    {
        self.b
    }

    /// Alpha channel.
    pub fn a(&self) -> (v: u8)
        ensures
            v == self.channels()[3],
    {
        self.a
    }

    /// Returns the channels as a `[r, g, b, a]` array.
    pub fn to_u8_array(&self) -> (arr: [u8; 4])
        ensures
            arr == self.channels(),
    {
        [self.r, self.g, self.b, self.a]
    }

    /// A color is transparent when its alpha channel is zero.
    pub open spec fn spec_is_transparent(self) -> bool {
        self.channels()[3] == 0
    }

    /// Returns true if the color is fully transparent.
    pub fn is_transparent(&self) -> (t: bool)
        ensures
            t == self.spec_is_transparent(),
    {
        self.a == 0
    }

    /// Returns the same color with the alpha channel replaced.
    pub fn with_alpha(&self, a: u8) -> (c: Color)
        ensures
            c.channels() == [self.channels()[0], self.channels()[1], self.channels()[2], a],
    {
        Color { r: self.r, g: self.g, b: self.b, a }
    }
}

} // verus!
