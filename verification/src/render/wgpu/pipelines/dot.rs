//! The pipeline that draws dots (points of a fixed screen size).

use crate::render::wgpu::{
    draw, pipeline_for, calls_made, set_pipeline, set_vertex_buffer, PassCall,
    WgpuDotBuffers,
};
use crate::render::RenderOptions;
use vstd::prelude::*;

verus! {

/// Draws the point list of a bundle.
pub struct DotPipeline {
    /// Pipeline used without antialiasing.
    pub wgpu_pipeline: ::wgpu::RenderPipeline,
    /// Pipeline used with antialiasing (multisampling).
    pub wgpu_pipeline_antialias: ::wgpu::RenderPipeline,
}

/// The pass calls that draw the points of `buffers` as instance `bundle_index`.
pub open spec fn dot_commands(
    pipeline: DotPipeline,
    buffers: WgpuDotBuffers,
    antialias: bool,
    bundle_index: u32,
) -> Seq<PassCall> {
    seq![
        PassCall::SetPipeline(
            pipeline_for(antialias, pipeline.wgpu_pipeline, pipeline.wgpu_pipeline_antialias),
        ),
        PassCall::SetVertexBuffer { slot: 0, buffer: buffers.buffer.spec_buffer() },
        PassCall::Draw {
            vertices: (0, buffers.point_count),
            instances: (bundle_index, (bundle_index + 1) as u32),
        },
    ]
}

impl DotPipeline {
    /// Draws the points of `buffers` as instance `bundle_index`.
    pub fn render(
        &self,
        buffers: &WgpuDotBuffers,
        render_pass: &mut ::wgpu::RenderPass,
        render_options: RenderOptions,
        bundle_index: u32,
    )
        requires
            bundle_index < u32::MAX,
        ensures
            calls_made(*final(render_pass)) == calls_made(*old(render_pass))
                + dot_commands(*self, *buffers, render_options.antialias, bundle_index),
    {
        if render_options.antialias {
            set_pipeline(render_pass, &self.wgpu_pipeline_antialias);
        } else {
            set_pipeline(render_pass, &self.wgpu_pipeline);
        }
        set_vertex_buffer(render_pass, 0, buffers.buffer.buffer());
        draw(render_pass, 0, buffers.point_count, bundle_index, bundle_index + 1);
    }
}

} // verus!
