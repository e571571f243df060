//! A geo-rendering library: tile indexing, render bundle bookkeeping and
//! the GPU pipeline plumbing that draws the bundles.

pub mod color;
pub mod error;
pub mod primitives;
pub mod render;
pub mod tile_schema;
pub mod winit;

pub use color::Color;
