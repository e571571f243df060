//! The pipeline that draws map-referenced lines and polygons.

use crate::render::wgpu::{
    draw_indexed, indexed_draw, pipeline_for, calls_made, set_index_buffer, set_pipeline,
    set_vertex_buffer, IndexFormat, WgpuVertexBuffers,
};
use crate::render::RenderOptions;
use vstd::prelude::*;

verus! {

/// Draws the tessellation of the map-referenced primitives of a bundle.
pub struct MapRefPipeline {
    /// Pipeline used without antialiasing.
    pub wgpu_pipeline: ::wgpu::RenderPipeline,
    /// Pipeline used with antialiasing (multisampling).
    pub wgpu_pipeline_antialias: ::wgpu::RenderPipeline,
}

impl MapRefPipeline {
    /// Draws `buffers` as instance `bundle_index`.
    pub fn render(
        &self,
        buffers: &WgpuVertexBuffers,
        render_pass: &mut ::wgpu::RenderPass,
        render_options: RenderOptions,
        bundle_index: u32,
    )
        requires
            bundle_index < u32::MAX,
        ensures
            calls_made(*final(render_pass)) == calls_made(*old(render_pass))
                + indexed_draw(
                pipeline_for(
                    render_options.antialias,
                    self.wgpu_pipeline,
                    self.wgpu_pipeline_antialias,
                ),
                *buffers,
                bundle_index,
                bundle_index + 1,
            ),
    {
        if render_options.antialias {
            set_pipeline(render_pass, &self.wgpu_pipeline_antialias);
        } else {
            set_pipeline(render_pass, &self.wgpu_pipeline);
        }
        set_vertex_buffer(render_pass, 0, buffers.vertex.buffer());
        set_index_buffer(render_pass, buffers.index.buffer(), IndexFormat::Uint32);
        draw_indexed(render_pass, 0, buffers.index_count, 0, bundle_index, bundle_index + 1);
    }
}

} // verus!
