//! Drawing of standalone images with their own pipeline.

use crate::render::wgpu::pipelines::image::IMAGE_INDEX_COUNT;
use crate::render::wgpu::{
    draw_indexed, calls_made, set_bind_group, set_index_buffer, set_pipeline,
    set_vertex_buffer, IndexFormat, NonEmptyBuffer, PassCall,
};
use vstd::prelude::*;

verus! {

/// Declares `wgpu::Texture`.
#[verifier::external_type_specification]
#[verifier::external_body]
pub struct ExTexture(::wgpu::Texture);

/// Draws images, each with its texture bound at group 0 and the map view at group 1.
pub struct ImagePainter {
    /// The image pipeline.
    pub pipeline: ::wgpu::RenderPipeline,
    /// The indices of the two triangles of an image (16-bit).
    pub index_buffer: NonEmptyBuffer,
    /// Layout of the bind groups of image textures.
    pub texture_bind_group_layout: ::wgpu::BindGroupLayout,
}

/// An image uploaded to the GPU for an [`ImagePainter`].
pub struct WgpuImage {
    /// The texture with the pixels of the image.
    pub texture: ::wgpu::Texture,
    /// The texture and its sampler.
    pub texture_bind_group: ::wgpu::BindGroup,
    /// The four vertices of the image.
    pub vertex_buffer: NonEmptyBuffer,
}

impl ImagePainter {
    /// Draws `image` once, with the map view bound by `map_view_bind_group`.
    pub fn draw_image(
        &self,
        render_pass: &mut ::wgpu::RenderPass,
        image: &WgpuImage,
        map_view_bind_group: &::wgpu::BindGroup,
    )
        ensures
            calls_made(*final(render_pass)) == calls_made(*old(render_pass)) + seq![
                PassCall::SetPipeline(self.pipeline),
                PassCall::SetBindGroup { index: 0, bind_group: image.texture_bind_group },
                PassCall::SetBindGroup { index: 1, bind_group: *map_view_bind_group },
                PassCall::SetVertexBuffer { slot: 0, buffer: image.vertex_buffer.spec_buffer() },
                PassCall::SetIndexBuffer {
                    buffer: self.index_buffer.spec_buffer(),
                    format: IndexFormat::Uint16,
                },
                PassCall::DrawIndexed {
                    indices: (0, IMAGE_INDEX_COUNT),
                    base_vertex: 0,
                    instances: (0, 1),
                },
            ],
    {
        set_pipeline(render_pass, &self.pipeline);
        set_bind_group(render_pass, 0, &image.texture_bind_group);
        set_bind_group(render_pass, 1, map_view_bind_group);
        set_vertex_buffer(render_pass, 0, image.vertex_buffer.buffer());
        set_index_buffer(render_pass, self.index_buffer.buffer(), IndexFormat::Uint16);
        draw_indexed(render_pass, 0, IMAGE_INDEX_COUNT, 0, 0, 1);
    }
}

} // verus!
