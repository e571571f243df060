//! The pipelines that draw packed render bundles.

use crate::render::wgpu::{
    indexed_draw, pipeline_for, calls_made, set_bind_group, PassCall, WgpuDotBuffers,
    WgpuPackedBundle, WgpuVertexBuffers,
};
use crate::render::RenderOptions;
use vstd::prelude::*;

pub mod clip;
pub mod dot;
pub mod image;
pub mod map_ref;
pub mod screen_ref;
pub mod screen_set_vertex;

use clip::{clip_commands, ClipPipeline, CLIP_STENCIL_VALUE, UNCLIP_REFERENCE};
use dot::{dot_commands, DotPipeline};
use image::{image_commands, ImagePipeline, WgpuImage};
use map_ref::MapRefPipeline;
use screen_set_vertex::ScreenSetPipeline;

verus! {

/// All pipelines of a renderer, with the uniform buffer of the map view that they share.
pub struct Pipelines {
    /// Binds the map view uniform buffer at group 0.
    pub map_view_binding: ::wgpu::BindGroup,
    /// Uniform buffer holding the map view transformation.
    pub map_view_buffer: ::wgpu::Buffer,
    /// Layout of `map_view_binding`.
    pub map_view_bind_group_layout: ::wgpu::BindGroupLayout,
    /// Layout of the bind groups of image textures.
    pub texture_bind_group_layout: ::wgpu::BindGroupLayout,
    /// Draws images.
    pub image: ImagePipeline,
    /// Draws map-referenced lines and polygons.
    pub map_ref: MapRefPipeline,
    /// Writes clip areas into the stencil buffer.
    pub clip: ClipPipeline,
    /// Draws dots.
    pub dot: DotPipeline,
    /// Draws tessellated screen sets.
    pub screen_set: ScreenSetPipeline,
}

/// The pass calls that draw `images` in order, each as instance `bundle_index`.
pub open spec fn images_commands(
    pipeline: ImagePipeline,
    images: Seq<WgpuImage>,
    antialias: bool,
    bundle_index: u32,
) -> Seq<PassCall>
    decreases images.len(),
{
    if images.len() == 0 {
        seq![]
    } else {
        images_commands(pipeline, images.drop_last(), antialias, bundle_index) + image_commands(
            pipeline,
            images.last(),
            antialias,
            bundle_index,
        )
    }
}

/// The pass calls that write the clip area `clip_area` (if there is one) into the stencil
/// buffer with the given stencil reference.
pub open spec fn optional_clip_commands(
    pipeline: ClipPipeline,
    clip_area: Option<WgpuVertexBuffers>,
    stencil_reference: u32,
    antialias: bool,
    bundle_index: u32,
) -> Seq<PassCall> {
    match clip_area {
        Some(c) => clip_commands(pipeline, c, stencil_reference, antialias, bundle_index),
        None => seq![],
    }
}

/// The pass calls that draw the lines and polygons of a bundle, none when it has no
/// tessellation or no indices.
pub open spec fn map_ref_commands(
    pipeline: MapRefPipeline,
    buffers: Option<WgpuVertexBuffers>,
    antialias: bool,
    bundle_index: u32,
) -> Seq<PassCall> {
    match buffers {
        Some(b) => if b.index_count > 0 {
            indexed_draw(
                pipeline_for(antialias, pipeline.wgpu_pipeline, pipeline.wgpu_pipeline_antialias),
                b,
                bundle_index,
                bundle_index + 1,
            )
        } else {
            seq![]
        },
        None => seq![],
    }
}

/// The pass calls that draw the dots of a bundle, if it has any.
pub open spec fn optional_dot_commands(
    pipeline: DotPipeline,
    dots: Option<WgpuDotBuffers>,
    antialias: bool,
    bundle_index: u32,
) -> Seq<PassCall> {
    match dots {
        Some(d) => dot_commands(pipeline, d, antialias, bundle_index),
        None => seq![],
    }
}

/// The pass calls that draw a packed bundle as instance `bundle_index`: the map view binding;
/// the clip area into the stencil buffer, if the bundle is clipped; the images in order; the
/// lines and polygons, if there are any indices; the reset of the clip area; the dots.
pub open spec fn bundle_commands(
    pipelines: Pipelines,
    bundle: WgpuPackedBundle,
    antialias: bool,
    bundle_index: u32,
) -> Seq<PassCall> {
    seq![PassCall::SetBindGroup { index: 0, bind_group: pipelines.map_view_binding }]
        + optional_clip_commands(
        pipelines.clip,
        bundle.clip_area_buffers,
        CLIP_STENCIL_VALUE,
        antialias,
        bundle_index,
    ) + images_commands(pipelines.image, bundle.image_buffers@, antialias, bundle_index)
        + map_ref_commands(pipelines.map_ref, bundle.map_ref_buffers, antialias, bundle_index)
        + optional_clip_commands(
        pipelines.clip,
        bundle.clip_area_buffers,
        UNCLIP_REFERENCE,
        antialias,
        bundle_index,
    ) + optional_dot_commands(pipelines.dot, bundle.dot_buffers, antialias, bundle_index)
}

/// The pass calls that draw `bundles` in order, the bundle at position `i` as instance `i`.
pub open spec fn bundles_commands(
    pipelines: Pipelines,
    bundles: Seq<&WgpuPackedBundle>,
    antialias: bool,
) -> Seq<PassCall>
    decreases bundles.len(),
{
    if bundles.len() == 0 {
        seq![]
    } else {
        bundles_commands(pipelines, bundles.drop_last(), antialias) + bundle_commands(
            pipelines,
            *bundles.last(),
            antialias,
            (bundles.len() - 1) as u32,
        )
    }
}

/// The pass calls that draw one tessellated screen set as instance `index`: the map view binding,
/// then the set's triangles.
pub open spec fn screen_set_commands(
    pipelines: Pipelines,
    data: WgpuVertexBuffers,
    index: u32,
) -> Seq<PassCall> {
    seq![PassCall::SetBindGroup { index: 0, bind_group: pipelines.map_view_binding }]
        + indexed_draw(pipelines.screen_set.wgpu_pipeline, data, index, index + 1)
}

/// The pass calls that draw the screen sets `sets[0..n]` from the last one down to the first, the
/// set at position `i` as instance `i`.
pub open spec fn screen_sets_commands(
    pipelines: Pipelines,
    sets: Seq<&WgpuVertexBuffers>,
    n: nat,
) -> Seq<PassCall>
    decreases n,
{
    if n == 0 {
        seq![]
    } else {
        screen_set_commands(pipelines, *sets[n - 1], (n - 1) as u32) + screen_sets_commands(
            pipelines,
            sets,
            (n - 1) as nat,
        )
    }
}

/// The stencil reference that the last `set_stencil_reference` among `calls` set, if any.
pub open spec fn last_stencil_reference(calls: Seq<PassCall>) -> Option<u32>
    decreases calls.len(),
{
    if calls.len() == 0 {
        None
    } else {
        match calls.last() {
            PassCall::SetStencilReference(r) => Some(r),
            _ => last_stencil_reference(calls.drop_last()),
        }
    }
}

proof fn lemma_last_stencil_concat(a: Seq<PassCall>, b: Seq<PassCall>)
    ensures
        last_stencil_reference(a + b) == match last_stencil_reference(b) {
            Some(r) => Some(r),
            None => last_stencil_reference(a),
        },
    decreases b.len(),
{
    if b.len() == 0 {
        assert(a + b =~= a);
    } else {
        assert((a + b).drop_last() =~= a + b.drop_last());
        assert((a + b).last() == b.last());
        lemma_last_stencil_concat(a, b.drop_last());
    }
}

proof fn lemma_images_set_no_stencil(
    pipeline: ImagePipeline,
    images: Seq<WgpuImage>,
    antialias: bool,
    bundle_index: u32,
)
    ensures
        last_stencil_reference(images_commands(pipeline, images, antialias, bundle_index)) is None,
    decreases images.len(),
{
    if images.len() > 0 {
        lemma_images_set_no_stencil(pipeline, images.drop_last(), antialias, bundle_index);
        let one = image_commands(pipeline, images.last(), antialias, bundle_index);
        reveal_with_fuel(last_stencil_reference, 6);
        lemma_last_stencil_concat(
            images_commands(pipeline, images.drop_last(), antialias, bundle_index),
            one,
        );
    }
}

proof fn lemma_part_stencils(
    pipelines: Pipelines,
    bundle: WgpuPackedBundle,
    antialias: bool,
    bundle_index: u32,
    reference: u32,
)
    ensures
        last_stencil_reference(
            seq![PassCall::SetBindGroup { index: 0, bind_group: pipelines.map_view_binding }],
        ) is None,
        last_stencil_reference(
            map_ref_commands(pipelines.map_ref, bundle.map_ref_buffers, antialias, bundle_index),
        ) is None,
        last_stencil_reference(
            optional_dot_commands(pipelines.dot, bundle.dot_buffers, antialias, bundle_index),
        ) is None,
        last_stencil_reference(
            optional_clip_commands(
                pipelines.clip,
                bundle.clip_area_buffers,
                reference,
                antialias,
                bundle_index,
            ),
        ) == if bundle.clip_area_buffers is Some {
            Some(reference)
        } else {
            None
        },
{
    reveal_with_fuel(last_stencil_reference, 6);
    lemma_images_set_no_stencil(pipelines.image, bundle.image_buffers@, antialias, bundle_index);
    if let Some(c) = bundle.clip_area_buffers {
        let calls = clip_commands(pipelines.clip, c, reference, antialias, bundle_index);
        assert(calls.drop_last().drop_last().drop_last().last() == PassCall::SetStencilReference(
            reference,
        ));
    }
}

/// Drawing a bundle leaves the stencil reference reset: a bundle with a clip area writes it with
/// [`CLIP_STENCIL_VALUE`] before its images, lines and polygons, and afterwards draws the clip
/// area again with [`UNCLIP_REFERENCE`], the last stencil reference it sets; a bundle without a
/// clip area sets none. Across any sequence of bundles, the last stencil reference set is
/// therefore none or `UNCLIP_REFERENCE`, so no bundle is clipped by the area of another.
pub proof fn lemma_bundle_leaves_stencil_reset(
    pipelines: Pipelines,
    bundle: WgpuPackedBundle,
    antialias: bool,
    bundle_index: u32,
)
    ensures
        bundle.clip_area_buffers matches Some(c) ==> {
            let calls = bundle_commands(pipelines, bundle, antialias, bundle_index);
            &&& last_stencil_reference(calls) == Some(UNCLIP_REFERENCE)
            &&& calls[2] == PassCall::SetStencilReference(CLIP_STENCIL_VALUE)
            &&& exists|p: int|
                6 <= p && p + 5 <= calls.len() && calls.subrange(p, p + 5) == clip_commands(
                    pipelines.clip,
                    c,
                    UNCLIP_REFERENCE,
                    antialias,
                    bundle_index,
                ) && last_stencil_reference(calls.subrange(0, p)) == Some(CLIP_STENCIL_VALUE)
        },
        bundle.clip_area_buffers is None ==> last_stencil_reference(
            bundle_commands(pipelines, bundle, antialias, bundle_index),
        ) is None,
{
    let bind = seq![PassCall::SetBindGroup { index: 0, bind_group: pipelines.map_view_binding }];
    let clip = optional_clip_commands(
        pipelines.clip,
        bundle.clip_area_buffers,
        CLIP_STENCIL_VALUE,
        antialias,
        bundle_index,
    );
    let images = images_commands(pipelines.image, bundle.image_buffers@, antialias, bundle_index);
    let map_ref = map_ref_commands(pipelines.map_ref, bundle.map_ref_buffers, antialias, bundle_index);
    let unclip = optional_clip_commands(
        pipelines.clip,
        bundle.clip_area_buffers,
        UNCLIP_REFERENCE,
        antialias,
        bundle_index,
    );
    let dots = optional_dot_commands(pipelines.dot, bundle.dot_buffers, antialias, bundle_index);
    let calls = bundle_commands(pipelines, bundle, antialias, bundle_index);
    assert(calls == bind + clip + images + map_ref + unclip + dots);
    lemma_images_set_no_stencil(pipelines.image, bundle.image_buffers@, antialias, bundle_index);
    lemma_part_stencils(pipelines, bundle, antialias, bundle_index, CLIP_STENCIL_VALUE);
    lemma_part_stencils(pipelines, bundle, antialias, bundle_index, UNCLIP_REFERENCE);
    lemma_last_stencil_concat(bind, clip);
    lemma_last_stencil_concat(bind + clip, images);
    lemma_last_stencil_concat(bind + clip + images, map_ref);
    lemma_last_stencil_concat(bind + clip + images + map_ref, unclip);
    lemma_last_stencil_concat(bind + clip + images + map_ref + unclip, dots);
    if let Some(c) = bundle.clip_area_buffers {
        let p = (bind + clip + images + map_ref).len() as int;
        assert(calls.subrange(p, p + 5) =~= unclip);
        assert(calls.subrange(0, p) =~= bind + clip + images + map_ref);
        assert(calls[2] == clip[1]);
    }
}

/// Drawing any sequence of bundles leaves the stencil reference reset (see
/// [`lemma_bundle_leaves_stencil_reset`]).
pub proof fn lemma_bundles_leave_stencil_reset(
    pipelines: Pipelines,
    bundles: Seq<&WgpuPackedBundle>,
    antialias: bool,
)
    ensures
        last_stencil_reference(bundles_commands(pipelines, bundles, antialias)) is None
            || last_stencil_reference(bundles_commands(pipelines, bundles, antialias)) == Some(
            UNCLIP_REFERENCE,
        ),
    decreases bundles.len(),
{
    if bundles.len() > 0 {
        lemma_bundles_leave_stencil_reset(pipelines, bundles.drop_last(), antialias);
        let i = (bundles.len() - 1) as u32;
        lemma_bundle_leaves_stencil_reset(pipelines, *bundles.last(), antialias, i);
        lemma_last_stencil_concat(
            bundles_commands(pipelines, bundles.drop_last(), antialias),
            bundle_commands(pipelines, *bundles.last(), antialias, i),
        );
    }
}

/// Whether drawing `bundle` draws anything with an instance range (the clip area, images, lines
/// and polygons, or dots), beyond binding the map view.
pub open spec fn draws_instances(bundle: WgpuPackedBundle) -> bool {
    ||| bundle.clip_area_buffers is Some
    ||| bundle.image_buffers@.len() > 0
    ||| bundle.map_ref_buffers matches Some(b) && b.index_count > 0
    ||| bundle.dot_buffers is Some
}

impl Pipelines {
    /// Draws a packed bundle as instance `bundle_index`. The instance range ends one past it,
    /// so `bundle_index` is below `u32::MAX` unless the bundle has nothing to draw.
    pub fn render(
        &self,
        render_pass: &mut ::wgpu::RenderPass,
        bundle: &WgpuPackedBundle,
        render_options: RenderOptions,
        bundle_index: u32,
    )
        requires
            bundle_index < u32::MAX || !draws_instances(*bundle),
        ensures
            calls_made(*final(render_pass)) == calls_made(*old(render_pass))
                + bundle_commands(*self, *bundle, render_options.antialias, bundle_index),
    {
        let ghost start = calls_made(*render_pass);
        let ghost antialias = render_options.antialias;
        let ghost clip_part = optional_clip_commands(
            self.clip,
            bundle.clip_area_buffers,
            CLIP_STENCIL_VALUE,
            antialias,
            bundle_index,
        );
        let ghost unclip_part = optional_clip_commands(
            self.clip,
            bundle.clip_area_buffers,
            UNCLIP_REFERENCE,
            antialias,
            bundle_index,
        );
        let ghost images_part = images_commands(
            self.image,
            bundle.image_buffers@,
            antialias,
            bundle_index,
        );
        let ghost map_ref_part = map_ref_commands(
            self.map_ref,
            bundle.map_ref_buffers,
            antialias,
            bundle_index,
        );
        let ghost dots_part = optional_dot_commands(self.dot, bundle.dot_buffers, antialias, bundle_index);

        self.set_bindings(render_pass);
        let ghost bind_part = seq![
            PassCall::SetBindGroup { index: 0, bind_group: self.map_view_binding },
        ];
        assert(calls_made(*render_pass) == start + bind_part);

        if let Some(clip) = &bundle.clip_area_buffers {
            self.clip.clip(clip, render_pass, render_options, bundle_index);
        }
        let ghost after_clip = calls_made(*render_pass);
        assert(after_clip == start + bind_part + clip_part);

        self.render_images(render_pass, &bundle.image_buffers, render_options, bundle_index);
        assert(calls_made(*render_pass) == start + bind_part + clip_part + images_part);

        if let Some(map_ref) = &bundle.map_ref_buffers {
            if map_ref.index_count > 0 {
                self.map_ref.render(map_ref, render_pass, render_options, bundle_index);
            }
        }
        assert(calls_made(*render_pass) == start + bind_part + clip_part + images_part
            + map_ref_part);

        if let Some(clip) = &bundle.clip_area_buffers {
            self.clip.unclip(clip, render_pass, render_options, bundle_index);
        }
        assert(calls_made(*render_pass) == start + bind_part + clip_part + images_part
            + map_ref_part + unclip_part);

        if let Some(dot_buffers) = &bundle.dot_buffers {
            self.dot.render(dot_buffers, render_pass, render_options, bundle_index);
        }
        assert(calls_made(*render_pass) == start + bind_part + clip_part + images_part
            + map_ref_part + unclip_part + dots_part);
        proof {
            assert(bind_part + clip_part + images_part + map_ref_part + unclip_part + dots_part
                == bundle_commands(*self, *bundle, antialias, bundle_index));
        }
    }

    /// Draws `images` in order, each as instance `bundle_index`.
    fn render_images(
        &self,
        render_pass: &mut ::wgpu::RenderPass,
        images: &Vec<WgpuImage>,
        render_options: RenderOptions,
        bundle_index: u32,
    )
        requires
            bundle_index < u32::MAX || images@.len() == 0,
        ensures
            calls_made(*final(render_pass)) == calls_made(*old(render_pass))
                + images_commands(self.image, images@, render_options.antialias, bundle_index),
    {
        let ghost start = calls_made(*render_pass);
        let mut i: usize = 0;
        while i < images.len()
            invariant
                i <= images.len(),
                bundle_index < u32::MAX || images@.len() == 0,
                calls_made(*render_pass) == start + images_commands(
                    self.image,
                    images@.subrange(0, i as int),
                    render_options.antialias,
                    bundle_index,
                ),
            decreases images.len() - i,
        {
            self.image.render(&images[i], render_pass, render_options, bundle_index);
            proof {
                assert(images@.subrange(0, i + 1).drop_last() == images@.subrange(0, i as int));
            }
            i = i + 1;
        }
        proof {
            assert(images@.subrange(0, images.len() as int) == images@);
        }
    }

    /// Draws the bundles in order, the bundle at position `i` as instance `i` (the instance
    /// selects the bundle's opacity).
    pub fn render_bundles(
        &self,
        render_pass: &mut ::wgpu::RenderPass,
        bundles: &[&WgpuPackedBundle],
        render_options: RenderOptions,
    )
        requires
            bundles@.len() <= u32::MAX,
        ensures
            calls_made(*final(render_pass)) == calls_made(*old(render_pass))
                + bundles_commands(*self, bundles@, render_options.antialias),
    {
        let ghost start = calls_made(*render_pass);
        let mut i: usize = 0;
        while i < bundles.len()
            invariant
                i <= bundles@.len(),
                bundles@.len() <= u32::MAX,
                calls_made(*render_pass) == start + bundles_commands(
                    *self,
                    bundles@.subrange(0, i as int),
                    render_options.antialias,
                ),
            decreases bundles@.len() - i,
        {
            self.render(render_pass, bundles[i], render_options, i as u32);
            proof {
                let prefix = bundles@.subrange(0, i + 1);
                assert(prefix.drop_last() == bundles@.subrange(0, i as int));
                assert(prefix.last() == bundles@[i as int]);
            }
            i = i + 1;
        }
        proof {
            assert(bundles@.subrange(0, bundles@.len() as int) == bundles@);
        }
    }

    /// Draws a tessellated screen set as instance `bundle_index`, binding the map view first.
    pub fn render_screen_set(
        &self,
        data: &WgpuVertexBuffers,
        render_pass: &mut ::wgpu::RenderPass,
        bundle_index: u32,
    )
        requires
            bundle_index < u32::MAX,
        ensures
            calls_made(*final(render_pass)) == calls_made(*old(render_pass))
                + screen_set_commands(*self, *data, bundle_index),
    {
        self.set_bindings(render_pass);
        self.screen_set.render(data, render_pass, bundle_index);
    }

    /// Draws the screen sets from the last one down to the first, the set at position `i` as
    /// instance `i`, so that the first sets end up on top.
    pub fn render_screen_sets(
        &self,
        sets: &[&WgpuVertexBuffers],
        render_pass: &mut ::wgpu::RenderPass,
    )
        requires
            sets@.len() <= u32::MAX,
        ensures
            calls_made(*final(render_pass)) == calls_made(*old(render_pass))
                + screen_sets_commands(*self, sets@, sets@.len()),
    {
        let ghost start = calls_made(*render_pass);
        let mut i: usize = sets.len();
        while i > 0
            invariant
                i <= sets@.len(),
                sets@.len() <= u32::MAX,
                start + screen_sets_commands(*self, sets@, sets@.len()) == calls_made(
                    *render_pass,
                ) + screen_sets_commands(*self, sets@, i as nat),
            decreases i,
        {
            let ghost before = calls_made(*render_pass);
            self.render_screen_set(sets[i - 1], render_pass, (i - 1) as u32);
            proof {
                let rest = screen_sets_commands(*self, sets@, (i - 1) as nat);
                let one = screen_set_commands(*self, *sets@[i - 1], (i - 1) as u32);
                assert(screen_sets_commands(*self, sets@, i as nat) == one + rest);
                assert(before + (one + rest) == (before + one) + rest);
            }
            i = i - 1;
        }
        proof {
            assert(calls_made(*render_pass) + screen_sets_commands(*self, sets@, 0)
                == calls_made(*render_pass));
        }
    }

    /// The uniform buffer of the map view.
    pub fn map_view_buffer(&self) -> (r: &::wgpu::Buffer)
        ensures
            *r == self.map_view_buffer,
    {
        &self.map_view_buffer
    }

    /// The pipeline that draws images.
    pub fn image_pipeline(&self) -> (r: &ImagePipeline)
        ensures
            *r == self.image,
    {
        &self.image
    }

    /// Binds the map view uniform buffer at group 0.
    pub fn set_bindings(&self, render_pass: &mut ::wgpu::RenderPass)
        ensures
            calls_made(*final(render_pass)) == calls_made(*old(render_pass)).push(
                PassCall::SetBindGroup { index: 0, bind_group: self.map_view_binding },
            ),
    {
        set_bind_group(render_pass, 0, &self.map_view_binding);
    }
}

} // verus!
