//! Rendering: paints, render bundles, text and the GPU pipelines.

use crate::color::Color;
use vstd::prelude::*;

pub mod point_paint;
pub mod render_bundle;
pub mod text;
pub mod wgpu;

verus! {

/// Id of a rendering primitive.
#[derive(Debug, Copy, Clone, PartialEq, Eq, Hash, Structural)]
pub struct PrimitiveId(usize);

impl PrimitiveId {
    /// The position of the primitive in the bundle's primitive table.
    pub closed spec fn spec_index(self) -> nat {
        self.0 as nat
    }

    /// Creates an id for the primitive at the given position.
    pub fn from_index(index: usize) -> (id: PrimitiveId)
        ensures
            id.spec_index() == index,
    {
        PrimitiveId(index)
    }

    /// The position of the primitive in the bundle's primitive table.
    pub fn index(&self) -> (i: usize)
        ensures
            i == self.spec_index(),
    {
        self.0
    }
}

/// Rendering options.
#[derive(Debug, Copy, Clone, PartialEq, Eq, Structural)]
pub struct RenderOptions {
    /// If set to true, the primitives will be drawn using antialiasing (multisampling).
    pub antialias: bool,
}

impl Default for RenderOptions {
    fn default() -> (r: Self)
        ensures
            r.antialias,
    {
        Self { antialias: true }
    }
}

/// Parameters to draw a polygon primitive with.
#[derive(Debug, Clone, Copy, PartialEq, Eq, Structural)]
pub struct PolygonPaint {
    /// Fill color of the polygon.
    pub color: Color,
}

/// Cap (end point) style of the line.
#[derive(Debug, Clone, Copy, PartialEq, Eq, Structural)]
pub enum LineCap {
    /// Half-circle cap.
    Round,
    /// Strait rectangular cap.
    Butt,
}

/// Parameter to render an image with.
#[derive(Debug, Clone, Copy, PartialEq, Eq, Structural)]
pub struct ImagePaint {
    /// Opacity of the image. The value of 255 means fully opaque image.
    ///
    /// If an image contains non-opaque pixels, the resulting opacity of those pixels is the product of the pixel
    /// opacity and this value represented in percents.
    pub opacity: u8,
}

} // verus!
