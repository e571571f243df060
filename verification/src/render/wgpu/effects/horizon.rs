//! The horizon effect: three rings of a vertical cylinder around the view position, shading
//! the ground into mist at the horizon line and the mist into the sky above it.
//!
//! Each ring has [`SEGMENTS`] segments; a segment is a quad between two consecutive pairs of
//! vertices (the lower and the upper vertex at one angle), drawn as two triangles. The last
//! segment closes the ring back to its first pair.

use crate::color::Color;
use crate::render::wgpu::{
    draw_indexed, calls_made, set_bind_group, set_index_buffer, set_pipeline,
    set_vertex_buffer, IndexFormat, PassCall, WgpuVertexBuffers,
};
use vstd::prelude::*;

verus! {

/// Number of segments of a ring.
pub const SEGMENTS: usize = 32;

/// Number of vertices of a ring: a lower and an upper vertex for each segment.
pub const RING_VERTEX_COUNT: usize = 64;

/// Number of indices of a ring: two triangles for each segment.
pub const RING_INDEX_COUNT: usize = 192;

/// The indices as integers.
pub open spec fn index_values(indices: Seq<u16>) -> Seq<int> {
    indices.map_values(|i: u16| i as int)
}

/// The two triangles of the quad whose lower left vertex is `first`: the pairs `first`,
/// `first + 1` and `first + 2`, `first + 3` (lower, upper).
pub open spec fn quad_indices(first: int) -> Seq<int> {
    seq![first, first + 1, first + 2, first + 1, first + 3, first + 2]
}

/// The triangles of the first `segments` segments of the ring whose first vertex is `base`.
pub open spec fn ring_strip(base: int, segments: nat) -> Seq<int>
    decreases segments,
{
    if segments == 0 {
        seq![]
    } else {
        ring_strip(base, (segments - 1) as nat) + quad_indices(base + 2 * (segments - 1))
    }
}

/// The triangles of the ring whose first vertex is `base`: all segments but the last one, then
/// the last one, which joins the last pair of vertices to the first.
pub open spec fn ring_index_seq(base: int) -> Seq<int> {
    let last = base + 2 * (SEGMENTS - 1);
    ring_strip(base, (SEGMENTS - 1) as nat) + seq![last, last + 1, base, last + 1, base + 1, base]
}

/// The triangles of the three rings of the horizon (mist to sky, sky, ground to mist), whose
/// vertices follow each other in this order.
pub open spec fn horizon_index_seq() -> Seq<int> {
    ring_index_seq(0) + ring_index_seq(RING_VERTEX_COUNT as int) + ring_index_seq(
        2 * RING_VERTEX_COUNT,
    )
}

/// The colors of the vertices of a ring: the lower vertices get `color0`, the upper ones
/// `color1`.
pub open spec fn ring_color_seq(color0: Color, color1: Color) -> Seq<[u8; 4]> {
    Seq::new(
        RING_VERTEX_COUNT as nat,
        |k: int|
            if k % 2 == 0 {
                color0.channels()
            } else {
                color1.channels()
            },
    )
}

/// The first `segments` segments of a ring have six indices each, all of them among the
/// `2 * segments + 2` vertices that start at `base`.
proof fn lemma_ring_strip_bounds(base: int, segments: nat)
    ensures
        ring_strip(base, segments).len() == 6 * segments,
        forall|k: int|
            0 <= k < ring_strip(base, segments).len() ==> base <= #[trigger] ring_strip(
                base,
                segments,
            )[k] < base + 2 * segments + 2,
    decreases segments,
{
    if segments > 0 {
        lemma_ring_strip_bounds(base, (segments - 1) as nat);
    }
}

/// Every triangle of a ring is made of that ring's own vertices: a ring starting at `base`
/// has [`RING_INDEX_COUNT`] indices, each in `base .. base + RING_VERTEX_COUNT`.
pub proof fn lemma_ring_indices_in_ring(base: int)
    ensures
        ring_index_seq(base).len() == RING_INDEX_COUNT,
        forall|k: int|
            0 <= k < RING_INDEX_COUNT ==> base <= #[trigger] ring_index_seq(base)[k] < base
                + RING_VERTEX_COUNT,
{
    lemma_ring_strip_bounds(base, (SEGMENTS - 1) as nat);
    let s = ring_strip(base, (SEGMENTS - 1) as nat);
    assert forall|k: int| 0 <= k < RING_INDEX_COUNT implies base <= #[trigger] ring_index_seq(
        base,
    )[k] < base + RING_VERTEX_COUNT by {
        if k < s.len() {
            assert(ring_index_seq(base)[k] == s[k]);
        }
    }
}

/// Every index of the horizon refers to one of its `3 * RING_VERTEX_COUNT` vertices.
pub proof fn lemma_horizon_indices_in_range()
    ensures
        horizon_index_seq().len() == 3 * RING_INDEX_COUNT,
        forall|k: int|
            0 <= k < 3 * RING_INDEX_COUNT ==> 0 <= #[trigger] horizon_index_seq()[k] < 3
                * RING_VERTEX_COUNT,
{
    let v = RING_VERTEX_COUNT as int;
    lemma_ring_indices_in_ring(0);
    lemma_ring_indices_in_ring(v);
    lemma_ring_indices_in_ring(2 * v);
    let r0 = ring_index_seq(0);
    let r1 = ring_index_seq(v);
    let r2 = ring_index_seq(2 * v);
    assert forall|k: int| 0 <= k < 3 * RING_INDEX_COUNT implies 0 <= #[trigger] horizon_index_seq()[k]
        < 3 * RING_VERTEX_COUNT by {
        let n = RING_INDEX_COUNT as int;
        if k < n {
            assert(horizon_index_seq()[k] == r0[k]);
        } else if k < 2 * n {
            assert(horizon_index_seq()[k] == r1[k - n]);
        } else {
            assert(horizon_index_seq()[k] == r2[k - 2 * n]);
        }
    }
}

/// Draws the horizon rings.
pub struct HorizonPipeline {
    /// The horizon pipeline.
    pub wgpu_pipeline: ::wgpu::RenderPipeline,
    /// The vertices and the 16-bit indices of the three rings.
    pub buffers: WgpuVertexBuffers,
    /// Binds `uniform_buffer` at group 1.
    pub binding: ::wgpu::BindGroup,
    /// Uniform buffer with the transformation that places the rings around the view position.
    pub uniform_buffer: ::wgpu::Buffer,
}

impl HorizonPipeline {
    /// Makes the calls that draw the horizon as instance `bundle_index`. The pipeline and the
    /// uniform binding are always set; the rings are drawn only when the view has a position
    /// on the map (`has_view_position`), for which the caller has written the placement into
    /// `uniform_buffer`.
    pub fn render(
        &self,
        render_pass: &mut ::wgpu::RenderPass,
        has_view_position: bool,
        bundle_index: u32,
    )
        requires
            bundle_index < u32::MAX,
        ensures
            calls_made(*final(render_pass)) == calls_made(*old(render_pass)) + seq![
                PassCall::SetPipeline(self.wgpu_pipeline),
                PassCall::SetBindGroup { index: 1, bind_group: self.binding },
            ] + if has_view_position {
                seq![
                    PassCall::SetVertexBuffer {
                        slot: 0,
                        buffer: self.buffers.vertex.spec_buffer(),
                    },
                    PassCall::SetIndexBuffer {
                        buffer: self.buffers.index.spec_buffer(),
                        format: IndexFormat::Uint16,
                    },
                    PassCall::DrawIndexed {
                        indices: (0, self.buffers.index_count),
                        base_vertex: 0,
                        instances: (bundle_index, (bundle_index + 1) as u32),
                    },
                ]
            } else {
                seq![]
            },
    {
        set_pipeline(render_pass, &self.wgpu_pipeline);
        set_bind_group(render_pass, 1, &self.binding);
        if !has_view_position {
            return;
        }
        set_vertex_buffer(render_pass, 0, self.buffers.vertex.buffer());
        set_index_buffer(render_pass, self.buffers.index.buffer(), IndexFormat::Uint16);
        draw_indexed(render_pass, 0, self.buffers.index_count, 0, bundle_index, bundle_index + 1);
    }

    /// The indices of the triangles of the ring whose vertices start at `base_index`.
    pub fn ring_indices(base_index: u16) -> (indices: Vec<u16>)
        requires
            base_index + RING_VERTEX_COUNT <= u16::MAX + 1,
        ensures
            index_values(indices@) == ring_index_seq(base_index as int),
    {
        let mut indices: Vec<u16> = Vec::new();
        let mut i: usize = 1;
        while i < SEGMENTS
            invariant
                1 <= i <= SEGMENTS,
                base_index + RING_VERTEX_COUNT <= u16::MAX + 1,
                index_values(indices@) == ring_strip(base_index as int, (i - 1) as nat),
            decreases SEGMENTS - i,
        {
            let first: u16 = (2 * i - 2) as u16 + base_index;
            let ghost before = indices@;
            indices.push(first);
            indices.push(first + 1);
            indices.push(first + 2);
            indices.push(first + 1);
            indices.push(first + 3);
            indices.push(first + 2);
            assert(index_values(indices@) == index_values(before) + quad_indices(first as int));
            i = i + 1;
        }
        let last: u16 = (2 * SEGMENTS - 2) as u16 + base_index;
        let ghost before = indices@;
        indices.push(last);
        indices.push(last + 1);
        indices.push(base_index);
        indices.push(last + 1);
        indices.push(base_index + 1);
        indices.push(base_index);
        assert(index_values(indices@) == index_values(before) + seq![
            last as int,
            last + 1,
            base_index as int,
            last + 1,
            base_index + 1,
            base_index as int,
        ]);
        indices
    }

    /// The indices of the three rings of the horizon: the ring from the horizon line to the
    /// sky, the sky ring and the ground ring, whose vertices follow each other in this order.
    pub fn generate_indices() -> (indices: Vec<u16>)
        ensures
            index_values(indices@) == horizon_index_seq(),
    {
        let mut indices = Self::ring_indices(0);
        let mut sky_indices = Self::ring_indices(64);
        let mut ground_indices = Self::ring_indices(128);
        let ghost (r0, r1, r2) = (indices@, sky_indices@, ground_indices@);
        indices.append(&mut sky_indices);
        indices.append(&mut ground_indices);
        assert(indices@ == r0 + r1 + r2);
        assert(index_values(indices@) == index_values(r0) + index_values(r1) + index_values(r2));
        indices
    }

    /// The colors of the vertices of a ring, in vertex order: lower vertices get `color0`,
    /// upper vertices `color1`.
    pub fn ring_colors(color0: Color, color1: Color) -> (colors: Vec<[u8; 4]>)
        ensures
            colors@ == ring_color_seq(color0, color1),
    {
        let c0 = color0.to_u8_array();
        let c1 = color1.to_u8_array();
        let mut colors: Vec<[u8; 4]> = Vec::new();
        let mut k: usize = 0;
        while k < RING_VERTEX_COUNT
            invariant
                k <= RING_VERTEX_COUNT,
                k % 2 == 0,
                c0 == color0.channels(),
                c1 == color1.channels(),
                colors@ == ring_color_seq(color0, color1).subrange(0, k as int),
            decreases RING_VERTEX_COUNT - k,
        {
            colors.push(c0);
            colors.push(c1);
            k = k + 2;
        }
        colors
    }
}

} // verus!
