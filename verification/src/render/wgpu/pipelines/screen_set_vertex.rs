//! The pipeline that draws the tessellated screen sets (labels).

use crate::render::wgpu::{
    draw_indexed, indexed_draw, calls_made, set_index_buffer, set_pipeline,
    set_vertex_buffer, IndexFormat, WgpuVertexBuffers,
};
use vstd::prelude::*;

verus! {

/// Draws the tessellation of a screen set; screen sets are always drawn with multisampling.
pub struct ScreenSetPipeline {
    /// The (multisampling) pipeline.
    pub wgpu_pipeline: ::wgpu::RenderPipeline,
}

impl ScreenSetPipeline {
    /// Draws `buffers` as instance `bundle_index`.
    pub fn render(
        &self,
        buffers: &WgpuVertexBuffers,
        render_pass: &mut ::wgpu::RenderPass,
        bundle_index: u32,
    )
        requires
            bundle_index < u32::MAX,
        ensures
            calls_made(*final(render_pass)) == calls_made(*old(render_pass))
                + indexed_draw(self.wgpu_pipeline, *buffers, bundle_index, bundle_index + 1),
    {
        set_pipeline(render_pass, &self.wgpu_pipeline);
        set_vertex_buffer(render_pass, 0, buffers.vertex.buffer());
        set_index_buffer(render_pass, buffers.index.buffer(), IndexFormat::Uint32);
        draw_indexed(render_pass, 0, buffers.index_count, 0, bundle_index, bundle_index + 1);
    }
}

} // verus!
