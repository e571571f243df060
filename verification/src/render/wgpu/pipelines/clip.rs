//! The pipeline that writes the clip area of a bundle into the stencil buffer.

use crate::render::wgpu::{
    draw_indexed, indexed_draw, pipeline_for, calls_made, set_index_buffer, set_pipeline,
    set_stencil_reference, set_vertex_buffer, IndexFormat, PassCall, WgpuVertexBuffers,
};
use crate::render::RenderOptions;
use vstd::prelude::*;

verus! {

/// Stencil reference that resets the clip area.
pub const UNCLIP_REFERENCE: u32 = 0;

/// Stencil value written inside the clip area.
pub const CLIP_STENCIL_VALUE: u32 = 1;

/// Writes the tessellation of a clip area into the stencil buffer.
pub struct ClipPipeline {
    /// Pipeline used without antialiasing.
    pub wgpu_pipeline: ::wgpu::RenderPipeline,
    /// Pipeline used with antialiasing (multisampling).
    pub wgpu_pipeline_antialias: ::wgpu::RenderPipeline,
}

/// The pass calls that draw the clip area `buffers` with the given stencil reference.
pub open spec fn clip_commands(
    pipeline: ClipPipeline,
    buffers: WgpuVertexBuffers,
    stencil_reference: u32,
    antialias: bool,
    bundle_index: u32,
) -> Seq<PassCall> {
    let draw = indexed_draw(
        pipeline_for(antialias, pipeline.wgpu_pipeline, pipeline.wgpu_pipeline_antialias),
        buffers,
        bundle_index,
        bundle_index + 1,
    );
    seq![draw[0], PassCall::SetStencilReference(stencil_reference)] + draw.subrange(1, 4)
}

/// Unclipping mirrors clipping: for the same pipeline, buffers, options and instance, the calls
/// that reset the clip area are those that write it, with the stencil reference set to
/// [`UNCLIP_REFERENCE`] in place of [`CLIP_STENCIL_VALUE`]; so a clip followed by an unclip
/// leaves the stencil reference at zero.
pub proof fn lemma_unclip_mirrors_clip(
    pipeline: ClipPipeline,
    buffers: WgpuVertexBuffers,
    antialias: bool,
    bundle_index: u32,
)
    ensures
        clip_commands(pipeline, buffers, UNCLIP_REFERENCE, antialias, bundle_index) == clip_commands(
            pipeline,
            buffers,
            CLIP_STENCIL_VALUE,
            antialias,
            bundle_index,
        ).update(1, PassCall::SetStencilReference(UNCLIP_REFERENCE)),
        clip_commands(pipeline, buffers, UNCLIP_REFERENCE, antialias, bundle_index)[1]
            == PassCall::SetStencilReference(0),
        clip_commands(pipeline, buffers, UNCLIP_REFERENCE, antialias, bundle_index).len() == 5,
{
    let clip = clip_commands(pipeline, buffers, CLIP_STENCIL_VALUE, antialias, bundle_index);
    let unclip = clip_commands(pipeline, buffers, UNCLIP_REFERENCE, antialias, bundle_index);
    assert(unclip =~= clip.update(1, PassCall::SetStencilReference(UNCLIP_REFERENCE)));
}

impl ClipPipeline {
    /// Marks the area of `buffers` in the stencil buffer, so that the following primitives
    /// of the bundle are drawn only inside it.
    pub fn clip(
        &self,
        buffers: &WgpuVertexBuffers,
        render_pass: &mut ::wgpu::RenderPass,
        render_options: RenderOptions,
        bundle_index: u32,
    )
        requires
            bundle_index < u32::MAX,
        ensures
            calls_made(*final(render_pass)) == calls_made(*old(render_pass))
                + clip_commands(
                *self,
                *buffers,
                CLIP_STENCIL_VALUE,
                render_options.antialias,
                bundle_index,
            ),
    {
        self.render(buffers, render_pass, CLIP_STENCIL_VALUE, render_options, bundle_index);
    }

    /// Resets the area of `buffers` in the stencil buffer.
    pub fn unclip(
        &self,
        buffers: &WgpuVertexBuffers,
        render_pass: &mut ::wgpu::RenderPass,
        render_options: RenderOptions,
        bundle_index: u32,
    )
        requires
            bundle_index < u32::MAX,
        ensures
            calls_made(*final(render_pass)) == calls_made(*old(render_pass))
                + clip_commands(
                *self,
                *buffers,
                UNCLIP_REFERENCE,
                render_options.antialias,
                bundle_index,
            ),
    {
        self.render(buffers, render_pass, UNCLIP_REFERENCE, render_options, bundle_index);
    }

    fn render(
        &self,
        buffers: &WgpuVertexBuffers,
        render_pass: &mut ::wgpu::RenderPass,
        stencil_reference: u32,
        render_options: RenderOptions,
        bundle_index: u32,
    )
        requires
            bundle_index < u32::MAX,
        ensures
            calls_made(*final(render_pass)) == calls_made(*old(render_pass))
                + clip_commands(
                *self,
                *buffers,
                stencil_reference,
                render_options.antialias,
                bundle_index,
            ),
    {
        if render_options.antialias {
            set_pipeline(render_pass, &self.wgpu_pipeline_antialias);
        } else {
            set_pipeline(render_pass, &self.wgpu_pipeline);
        }
        set_stencil_reference(render_pass, stencil_reference);
        set_vertex_buffer(render_pass, 0, buffers.vertex.buffer());
        set_index_buffer(render_pass, buffers.index.buffer(), IndexFormat::Uint32);
        draw_indexed(render_pass, 0, buffers.index_count, 0, bundle_index, bundle_index + 1);
    }
}

} // verus!
