//! Text labels: alignment, font properties and font selection.

use crate::color::Color;
use vstd::prelude::*;

pub mod font_provider;
pub mod text_service;

verus! {

/// Default color of label text.
pub fn default_font_color() -> (c: Color)
    ensures
        c.channels() == [0u8, 0u8, 0u8, 255u8],
{
    Color::black()
}

/// Default color of the outline around label text.
pub fn default_outline_color() -> (c: Color)
    ensures
        c.channels() == [0u8, 0u8, 0u8, 0u8],
{
    Color::transparent()
}

/// Horizontal alignment.
#[derive(Debug, Copy, Clone, PartialEq, Eq, Structural)]
pub enum HorizontalAlignment {
    /// Align to left.
    Left,
    /// Align to center.
    Center,
    /// Align to right.
    Right,
}

impl Default for HorizontalAlignment {
    fn default() -> (r: Self)
        ensures
            r == HorizontalAlignment::Center,
    {
        HorizontalAlignment::Center
    }
}

/// Vertical alignment.
#[derive(Debug, Copy, Clone, PartialEq, Eq, Structural)]
pub enum VerticalAlignment {
    /// Align to top.
    Top,
    /// Align to middle.
    Middle,
    /// Align to bottom.
    Bottom,
}

impl Default for VerticalAlignment {
    fn default() -> (r: Self)
        ensures
            r == VerticalAlignment::Bottom,
    {
        VerticalAlignment::Bottom
    }
}

/// Font weight.
#[derive(Debug, Copy, Clone, PartialEq, Eq, PartialOrd, Ord, Hash, Structural)]
pub struct FontWeight(pub u16);

impl FontWeight {
    /// Normal font.
    pub fn normal() -> (w: Self)
        ensures
            w == FontWeight(500),
    {
        FontWeight(500)
    }

    /// Bold font.
    pub fn bold() -> (w: Self)
        ensures
            w == FontWeight(700),
    {
        FontWeight(700)
    }

    /// Thin font.
    pub fn thin() -> (w: Self)
        ensures
            w == FontWeight(300),
    {
        FontWeight(300)
    }
}

impl Default for FontWeight {
    fn default() -> (r: Self)
        ensures
            r == FontWeight(500),
    {
        Self::normal()
    }
}

/// Font style.
#[derive(Debug, Copy, Clone, PartialEq, Eq, Structural)]
pub enum FontStyle {
    /// Normal font.
    Normal,
    /// Italic font.
    Italic,
    /// Oblique font.
    Oblique,
}

impl Default for FontStyle {
    fn default() -> (r: Self)
        ensures
            r == FontStyle::Normal,
    {
        FontStyle::Normal
    }
}

/// Queryable properties of a font.
#[derive(Debug, Copy, Clone, PartialEq, Eq, Structural)]
pub struct FontProperties {
    /// Font weight.
    pub weight: FontWeight,
    /// Font style.
    pub style: FontStyle,
}

} // verus!
