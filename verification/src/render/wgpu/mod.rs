//! Drawing of packed render bundles with `wgpu`: the GPU buffers of a bundle and the calls
//! that the pipelines make on a render pass.
//!
//! The library describes a render pass by the calls it has made on it so far
//! ([`calls_made`]); each wrapper below adds its own call to that sequence.

use vstd::prelude::*;

pub mod effects;
pub mod image;
pub mod pipelines;

verus! {

/// Declares `wgpu::RenderPipeline` (a compiled GPU pipeline handle).
#[verifier::external_type_specification]
#[verifier::external_body]
pub struct ExRenderPipeline(::wgpu::RenderPipeline);

/// Declares `wgpu::Buffer` (a GPU buffer handle).
#[verifier::external_type_specification]
#[verifier::external_body]
pub struct ExBuffer(::wgpu::Buffer);

/// Declares `wgpu::BindGroup` (a set of resources bound to a shader).
#[verifier::external_type_specification]
#[verifier::external_body]
pub struct ExBindGroup(::wgpu::BindGroup);

/// Declares `wgpu::BindGroupLayout`.
#[verifier::external_type_specification]
#[verifier::external_body]
pub struct ExBindGroupLayout(::wgpu::BindGroupLayout);

/// Declares `wgpu::RenderPass` (an in-progress recording of render commands).
#[verifier::external_type_specification]
#[verifier::external_body]
pub struct ExRenderPass<'a>(::wgpu::RenderPass<'a>);

/// Width of the entries of an index buffer.
#[derive(Debug, Clone, Copy, PartialEq, Eq, Structural)]
pub enum IndexFormat {
    /// 16-bit indices.
    Uint16,
    /// 32-bit indices.
    Uint32,
}

/// A call made on a render pass through this library. Ranges are written as `(start, end)`,
/// end excluded; a buffer stands for the whole of that buffer.
pub enum PassCall {
    /// `set_pipeline`: subsequent draws use this pipeline.
    SetPipeline(::wgpu::RenderPipeline),
    /// `set_bind_group` with no dynamic offsets.
    SetBindGroup { index: u32, bind_group: ::wgpu::BindGroup },
    /// `set_vertex_buffer` of a whole buffer.
    SetVertexBuffer { slot: u32, buffer: ::wgpu::Buffer },
    /// `set_index_buffer` of a whole buffer.
    SetIndexBuffer { buffer: ::wgpu::Buffer, format: IndexFormat },
    /// `set_stencil_reference`.
    SetStencilReference(u32),
    /// `draw` of a range of vertices for a range of instances.
    Draw { vertices: (u32, u32), instances: (u32, u32) },
    /// `draw_indexed` of a range of indices for a range of instances.
    DrawIndexed { indices: (u32, u32), base_vertex: i32, instances: (u32, u32) },
}

/// The calls made on a render pass through the wrappers below, in the order they were made.
///
/// This is the sequence of calls, not the list of commands that `wgpu` keeps for the pass:
/// `wgpu` drops a `set_pipeline` or `set_bind_group` that repeats what is already set, and
/// reports a call that it cannot record to the device's error handler. What the GPU then does
/// with the pass is left unsaid.
pub uninterp spec fn calls_made(pass: ::wgpu::RenderPass) -> Seq<PassCall>;

/// The size in bytes of a GPU buffer, fixed when the buffer was created.
pub uninterp spec fn buffer_size(buffer: ::wgpu::Buffer) -> u64;

/// `Buffer::size`. Trusted: returns the size in bytes that the buffer was created with.
#[verifier::external_body]
fn buffer_len(buffer: &::wgpu::Buffer) -> (r: u64)
    ensures
        r == buffer_size(*buffer),
{
    buffer.size()
}

/// `RenderPass::set_pipeline`. Trusted: the call is added to [`calls_made`].
#[verifier::external_body]
pub(crate) fn set_pipeline(pass: &mut ::wgpu::RenderPass, pipeline: &::wgpu::RenderPipeline)
    ensures
        calls_made(*final(pass)) == calls_made(*old(pass)).push(PassCall::SetPipeline(*pipeline)),
{
    pass.set_pipeline(pipeline);
}

/// `RenderPass::set_bind_group` with no dynamic offsets. Trusted: the call is added to
/// [`calls_made`].
#[verifier::external_body]
pub(crate) fn set_bind_group(
    pass: &mut ::wgpu::RenderPass,
    index: u32,
    bind_group: &::wgpu::BindGroup,
)
    ensures
        calls_made(*final(pass)) == calls_made(*old(pass)).push(
            PassCall::SetBindGroup { index, bind_group: *bind_group },
        ),
{
    pass.set_bind_group(index, bind_group, &[]);
}

/// `RenderPass::set_vertex_buffer` with the whole of `buffer` (`buffer.slice(..)`, which
/// panics on a buffer of size 0, hence the `requires`). Trusted: the call is added to
/// [`calls_made`].
#[verifier::external_body]
pub(crate) fn set_vertex_buffer(pass: &mut ::wgpu::RenderPass, slot: u32, buffer: &::wgpu::Buffer)
    requires
        buffer_size(*buffer) > 0,
    ensures
        calls_made(*final(pass)) == calls_made(*old(pass)).push(
            PassCall::SetVertexBuffer { slot, buffer: *buffer },
        ),
{
    pass.set_vertex_buffer(slot, buffer.slice(..));
}

/// `RenderPass::set_index_buffer` with the whole of `buffer` (`buffer.slice(..)`, which
/// panics on a buffer of size 0, hence the `requires`). Trusted: the call is added to
/// [`calls_made`].
#[verifier::external_body]
pub(crate) fn set_index_buffer(
    pass: &mut ::wgpu::RenderPass,
    buffer: &::wgpu::Buffer,
    format: IndexFormat,
)
    requires
        buffer_size(*buffer) > 0,
    ensures
        calls_made(*final(pass)) == calls_made(*old(pass)).push(
            PassCall::SetIndexBuffer { buffer: *buffer, format },
        ),
{
    let wgpu_format = match format {
        IndexFormat::Uint16 => ::wgpu::IndexFormat::Uint16,
        IndexFormat::Uint32 => ::wgpu::IndexFormat::Uint32,
    };
    pass.set_index_buffer(buffer.slice(..), wgpu_format);
}

/// `RenderPass::set_stencil_reference`. Trusted: the call is added to [`calls_made`].
#[verifier::external_body]
pub(crate) fn set_stencil_reference(pass: &mut ::wgpu::RenderPass, reference: u32)
    ensures
        calls_made(*final(pass)) == calls_made(*old(pass)).push(
            PassCall::SetStencilReference(reference),
        ),
{
    pass.set_stencil_reference(reference);
}

/// `RenderPass::draw` with the ranges `vertex_start..vertex_end` and
/// `instance_start..instance_end` (`wgpu` subtracts the start of each range from its end,
/// which overflows on a reversed range, hence the `requires`). Trusted: the call is added to
/// [`calls_made`].
#[verifier::external_body]
pub(crate) fn draw(
    pass: &mut ::wgpu::RenderPass,
    vertex_start: u32,
    vertex_end: u32,
    instance_start: u32,
    instance_end: u32,
)
    requires
        vertex_start <= vertex_end,
        instance_start <= instance_end,
    ensures
        calls_made(*final(pass)) == calls_made(*old(pass)).push(
            PassCall::Draw {
                vertices: (vertex_start, vertex_end),
                instances: (instance_start, instance_end),
            },
        ),
{
    pass.draw(vertex_start..vertex_end, instance_start..instance_end);
}

/// `RenderPass::draw_indexed` with the ranges `index_start..index_end` and
/// `instance_start..instance_end` (`wgpu` subtracts the start of each range from its end,
/// which overflows on a reversed range, hence the `requires`). Trusted: the call is added to
/// [`calls_made`].
#[verifier::external_body]
pub(crate) fn draw_indexed(
    pass: &mut ::wgpu::RenderPass,
    index_start: u32,
    index_end: u32,
    base_vertex: i32,
    instance_start: u32,
    instance_end: u32,
)
    requires
        index_start <= index_end,
        instance_start <= instance_end,
    ensures
        calls_made(*final(pass)) == calls_made(*old(pass)).push(
            PassCall::DrawIndexed {
                indices: (index_start, index_end),
                base_vertex,
                instances: (instance_start, instance_end),
            },
        ),
{
    pass.draw_indexed(index_start..index_end, base_vertex, instance_start..instance_end);
}

/// A GPU buffer of at least one byte, so that the whole of it can be bound to a render pass.
pub struct NonEmptyBuffer {
    buffer: ::wgpu::Buffer,
}

impl NonEmptyBuffer {
    #[verifier::type_invariant]
    spec fn is_non_empty(self) -> bool {
        buffer_size(self.buffer) > 0
    }

    /// The buffer held.
    pub closed spec fn spec_buffer(self) -> ::wgpu::Buffer {
        self.buffer
    }

    /// Holds `buffer` if it is not empty; `None` for a buffer of size 0.
    pub fn new(buffer: ::wgpu::Buffer) -> (r: Option<Self>)
        ensures
            r is Some <==> buffer_size(buffer) > 0,
            r matches Some(b) ==> b.spec_buffer() == buffer,
    {
        if buffer_len(&buffer) > 0 {
            Some(NonEmptyBuffer { buffer })
        } else {
            None
        }
    }

    /// The buffer held, of size greater than 0.
    pub fn buffer(&self) -> (r: &::wgpu::Buffer)
        ensures
            *r == self.spec_buffer(),
            buffer_size(*r) > 0,
    {
        proof {
            use_type_invariant(self);
        }
        &self.buffer
    }
}

/// Vertex and index buffers of a tessellation uploaded to the GPU.
pub struct WgpuVertexBuffers {
    /// The vertices.
    pub vertex: NonEmptyBuffer,
    /// The indices.
    pub index: NonEmptyBuffer,
    /// Number of indices in `index`.
    pub index_count: u32,
}

/// Point instances uploaded to the GPU.
pub struct WgpuDotBuffers {
    /// The point instances.
    pub buffer: NonEmptyBuffer,
    /// Number of points in `buffer`.
    pub point_count: u32,
}

/// A render bundle whose world-set primitives are uploaded to the GPU.
pub struct WgpuPackedBundle {
    /// Tessellation of the clip area, if the bundle is clipped.
    pub clip_area_buffers: Option<WgpuVertexBuffers>,
    /// Tessellation of the map-referenced primitives (lines and polygons), if it has any
    /// vertices and indices.
    pub map_ref_buffers: Option<WgpuVertexBuffers>,
    /// Tessellation of the screen-referenced primitives, if there are any.
    pub screen_ref_buffers: Option<WgpuVertexBuffers>,
    /// The dots, if there are any.
    pub dot_buffers: Option<WgpuDotBuffers>,
    /// The images, in drawing order.
    pub image_buffers: Vec<pipelines::image::WgpuImage>,
}

/// The pass calls that draw the whole of `buffers` (32-bit indices) as triangles with `pipeline`,
/// for the instances `instance_start..instance_end`.
pub open spec fn indexed_draw(
    pipeline: ::wgpu::RenderPipeline,
    buffers: WgpuVertexBuffers,
    instance_start: u32,
    instance_end: int,
) -> Seq<PassCall> {
    seq![
        PassCall::SetPipeline(pipeline),
        PassCall::SetVertexBuffer { slot: 0, buffer: buffers.vertex.spec_buffer() },
        PassCall::SetIndexBuffer {
            buffer: buffers.index.spec_buffer(),
            format: IndexFormat::Uint32,
        },
        PassCall::DrawIndexed {
            indices: (0, buffers.index_count),
            base_vertex: 0,
            instances: (instance_start, instance_end as u32),
        },
    ]
}

/// The pipeline that is used with the given options: the multisampling one when antialiasing
/// is on.
pub open spec fn pipeline_for(
    antialias: bool,
    plain: ::wgpu::RenderPipeline,
    antialiased: ::wgpu::RenderPipeline,
) -> ::wgpu::RenderPipeline {
    if antialias {
        antialiased
    } else {
        plain
    }
}

} // verus!
