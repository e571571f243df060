//! The pipeline that draws map-referenced images.

use crate::render::wgpu::{
    draw_indexed, pipeline_for, calls_made, set_bind_group, set_index_buffer,
    set_pipeline, set_vertex_buffer, IndexFormat, NonEmptyBuffer, PassCall,
};
use crate::render::RenderOptions;
use std::sync::Arc;
use vstd::prelude::*;

verus! {

/// Number of indices that draw an image: two triangles over its four vertices.
pub const IMAGE_INDEX_COUNT: u32 = 6;

/// An image uploaded to the GPU.
pub struct WgpuImage {
    /// The texture and its sampler.
    pub texture_bind_group: Arc<::wgpu::BindGroup>,
    /// The four vertices of the image.
    pub vertex_buffer: NonEmptyBuffer,
}

/// Draws images: the four vertices of each image with the shared index buffer of two
/// triangles.
pub struct ImagePipeline {
    /// Pipeline used without antialiasing.
    pub wgpu_pipeline: ::wgpu::RenderPipeline,
    /// The indices of the two triangles of an image (16-bit).
    pub index_buffer: NonEmptyBuffer,
    /// Pipeline used with antialiasing (multisampling).
    pub wgpu_pipeline_antialias: ::wgpu::RenderPipeline,
}

/// The pass calls that draw `image` as instance `bundle_index`.
pub open spec fn image_commands(
    pipeline: ImagePipeline,
    image: WgpuImage,
    antialias: bool,
    bundle_index: u32,
) -> Seq<PassCall> {
    seq![
        PassCall::SetPipeline(
            pipeline_for(antialias, pipeline.wgpu_pipeline, pipeline.wgpu_pipeline_antialias),
        ),
        PassCall::SetBindGroup { index: 1, bind_group: *image.texture_bind_group },
        PassCall::SetVertexBuffer { slot: 0, buffer: image.vertex_buffer.spec_buffer() },
        PassCall::SetIndexBuffer {
            buffer: pipeline.index_buffer.spec_buffer(),
            format: IndexFormat::Uint16,
        },
        PassCall::DrawIndexed {
            indices: (0, IMAGE_INDEX_COUNT),
            base_vertex: 0,
            instances: (bundle_index, (bundle_index + 1) as u32),
        },
    ]
}

impl ImagePipeline {
    /// Draws `buffers` as instance `bundle_index`.
    pub fn render(
        &self,
        buffers: &WgpuImage,
        render_pass: &mut ::wgpu::RenderPass,
        render_options: RenderOptions,
        bundle_index: u32,
    )
        requires
            bundle_index < u32::MAX,
        ensures
            calls_made(*final(render_pass)) == calls_made(*old(render_pass))
                + image_commands(*self, *buffers, render_options.antialias, bundle_index),
    {
        if render_options.antialias {
            set_pipeline(render_pass, &self.wgpu_pipeline_antialias);
        } else {
            set_pipeline(render_pass, &self.wgpu_pipeline);
        }
        let bind_group: &::wgpu::BindGroup = &buffers.texture_bind_group;
        set_bind_group(render_pass, 1, bind_group);
        set_vertex_buffer(render_pass, 0, buffers.vertex_buffer.buffer());
        set_index_buffer(render_pass, self.index_buffer.buffer(), IndexFormat::Uint16);
        draw_indexed(render_pass, 0, IMAGE_INDEX_COUNT, 0, bundle_index, bundle_index + 1);
    }
}

} // verus!
