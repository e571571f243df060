//! A render set for map-referenced data that is only ever added to: lines, polygons, point
//! symbols and labels all go into one polygon tessellation, dots into a list, and images into
//! an image table backed by a store that keeps each bitmap once.

use super::tessellating::{
    same_allocation, sector_index_count, PolyVertex, IMAGE_VERTEX_SIZE, INDEX_SIZE, POINT_INSTANCE_SIZE,
    POLY_VERTEX_SIZE, SCREEN_REF_VERTEX_SIZE,
};
use super::{
    append_tessellation, append_tessellations, joined_indices, joined_vertices, lemma_fan_len,
    lemma_joined_indices_len, lemma_joined_len, offset_indices, sector_fan_indices,
    sector_indices, total_indices, total_vertices, VertexBuffers,
};
use crate::primitives::DecodedImage;
use crate::render::ImagePaint;
use std::sync::Arc;
use vstd::prelude::*;

verus! {

/// A drawn image: the slot of its bitmap in the store, its corners and its opacity.
#[derive(Debug, Clone, Copy)]
pub struct ImageInfo<I> {
    /// Slot of the image store that holds the bitmap.
    pub store_index: usize,
    /// The four corners of the image.
    pub vertices: [I; 4],
    /// Opacity the image is drawn with (255 is opaque).
    pub opacity: u8,
}

/// The tessellated form of a point symbol, as a world render set stores it.
pub enum WorldPointGeometry<G, D> {
    /// A single dot.
    Dot(D),
    /// A circle sector drawn as a fan around its center.
    Sector {
        /// Center vertex of the fan.
        center: PolyVertex<G>,
        /// Rim vertices of the fan, in order.
        rim: Vec<PolyVertex<G>>,
        /// Whether the sector closes into a full circle.
        is_full_circle: bool,
        /// Outline: none, a failed tessellation, or its tessellation.
        outline: Option<Option<VertexBuffers<PolyVertex<G>>>>,
    },
    /// A polygonal shape.
    Shape {
        /// Outline: none, a failed tessellation, or its tessellation.
        outline: Option<Option<VertexBuffers<PolyVertex<G>>>>,
        /// Fill tessellation, if the fill is drawn and tessellated.
        fill: Option<VertexBuffers<PolyVertex<G>>>,
    },
    /// A text label: the tessellated glyphs, or `None` if the text could not be shaped.
    Label(Option<Vec<VertexBuffers<PolyVertex<G>>>>),
}

/// The tessellations a shape appends: its outline (unless the outline failed, which leaves the
/// shape out altogether) followed by its fill.
pub open spec fn world_shape_parts<G>(
    outline: Option<Option<VertexBuffers<PolyVertex<G>>>>,
    fill: Option<VertexBuffers<PolyVertex<G>>>,
) -> Seq<VertexBuffers<PolyVertex<G>>> {
    let fill_part = match fill {
        Some(f) => seq![f],
        None => Seq::empty(),
    };
    match outline {
        Some(None) => Seq::empty(),
        Some(Some(o)) => seq![o] + fill_part,
        None => fill_part,
    }
}

/// Bytes shape parts add to the buffer estimate (counted at the screen-referenced vertex size).
pub open spec fn world_parts_size<G>(parts: Seq<VertexBuffers<PolyVertex<G>>>) -> int {
    SCREEN_REF_VERTEX_SIZE * total_vertices(parts) + INDEX_SIZE * total_indices(parts)
}

/// Bytes a circle sector adds to the buffer estimate; its outline is counted twice.
pub open spec fn world_sector_size<G>(
    n: int,
    is_full_circle: bool,
    outline: Option<Option<VertexBuffers<PolyVertex<G>>>>,
) -> int {
    SCREEN_REF_VERTEX_SIZE * (1 + n) + INDEX_SIZE * sector_index_count(n, is_full_circle) + 2
        * world_parts_size(world_shape_parts(outline, None))
}

/// Render set for map-referenced data.
pub struct WorldRenderSet<G, D, I> {
    /// Lines, polygons, point symbols and labels.
    pub poly_tessellation: VertexBuffers<PolyVertex<G>>,
    /// Dots.
    pub points: Vec<D>,
    /// Drawn images.
    pub images: Vec<ImageInfo<I>>,
    /// Area the set is clipped to.
    pub clip_area: Option<VertexBuffers<PolyVertex<G>>>,
    /// Bitmaps of the drawn images, each kept once.
    pub image_store: Vec<Arc<DecodedImage>>,
    /// Estimated size of the GPU buffers of the set, in bytes.
    pub buffer_size: usize,
}

impl<G, D, I> WorldRenderSet<G, D, I> {
    /// Every image refers to a stored bitmap.
    pub open spec fn wf(&self) -> bool {
        forall|k: int|
            0 <= k < self.images@.len() ==> #[trigger] self.images@[k].store_index
                < self.image_store@.len()
    }

    /// Creates an empty set.
    pub fn new() -> (r: Self)
        ensures
            r.wf(),
            r.poly_tessellation.vertices@.len() == 0,
            r.poly_tessellation.indices@.len() == 0,
            r.points@.len() == 0,
            r.images@.len() == 0,
            r.clip_area is None,
            r.image_store@.len() == 0,
            r.buffer_size == 0,
    {
        WorldRenderSet {
            poly_tessellation: VertexBuffers::new(),
            points: Vec::new(),
            images: Vec::new(),
            clip_area: None,
            image_store: Vec::new(),
            buffer_size: 0,
        }
    }

    /// Estimated size of the GPU buffers of the set, in bytes.
    pub fn approx_buffer_size(&self) -> (size: usize)
        ensures
            size == self.buffer_size,
    {
        self.buffer_size
    }

    /// Sets the area the set is clipped to, from its tessellation.
    pub fn clip_area(&mut self, tessellation: VertexBuffers<PolyVertex<G>>)
        requires
            old(self).buffer_size + POLY_VERTEX_SIZE * tessellation.vertices@.len() + INDEX_SIZE
                * tessellation.indices@.len() <= usize::MAX,
        ensures
            final(self).buffer_size == old(self).buffer_size + POLY_VERTEX_SIZE
                * tessellation.vertices@.len() + INDEX_SIZE * tessellation.indices@.len(),
            final(self).clip_area == Some(tessellation),
            final(self).poly_tessellation == old(self).poly_tessellation,
            final(self).points == old(self).points,
            final(self).images == old(self).images,
            final(self).image_store == old(self).image_store,
    {
        self.buffer_size = self.buffer_size + tessellation.vertices.len() * POLY_VERTEX_SIZE
            + tessellation.indices.len() * INDEX_SIZE;
        self.clip_area = Some(tessellation);
    }

    /// Adds an image the set takes ownership of.
    pub fn add_image_owned(&mut self, image: DecodedImage, vertices: [I; 4], paint: ImagePaint)
        requires
            old(self).wf(),
            old(self).buffer_size + image.bytes@.len() + IMAGE_VERTEX_SIZE * 4 <= usize::MAX,
        ensures
            final(self).wf(),
            final(self).buffer_size == old(self).buffer_size + image.bytes@.len() + IMAGE_VERTEX_SIZE
                * 4,
            final(self).images@.len() == old(self).images@.len() + 1,
            final(self).images@.drop_last() == old(self).images@,
            final(self).images@.last().vertices == vertices,
            final(self).images@.last().opacity == paint.opacity,
            final(self).image_store@[final(self).images@.last().store_index as int] == Arc::new(image),
            final(self).poly_tessellation == old(self).poly_tessellation,
            final(self).points == old(self).points,
            final(self).clip_area == old(self).clip_area,
    {
        self.add_image(Arc::new(image), vertices, paint)
    }

    /// Adds an image. A bitmap whose handle points to an already stored allocation is not stored
    /// again.
    pub fn add_image(&mut self, image: Arc<DecodedImage>, vertices: [I; 4], paint: ImagePaint)
        requires
            old(self).wf(),
            old(self).buffer_size + image.bytes@.len() + IMAGE_VERTEX_SIZE * 4 <= usize::MAX,
        ensures
            final(self).wf(),
            final(self).buffer_size == old(self).buffer_size + image.bytes@.len() + IMAGE_VERTEX_SIZE
                * 4,
            final(self).images@.len() == old(self).images@.len() + 1,
            final(self).images@.drop_last() == old(self).images@,
            final(self).images@.last().vertices == vertices,
            final(self).images@.last().opacity == paint.opacity,
            final(self).image_store@[final(self).images@.last().store_index as int] == image,
            final(self).image_store@ == old(self).image_store@ || final(self).image_store@ == old(
                self,
            ).image_store@.push(image),
            final(self).poly_tessellation == old(self).poly_tessellation,
            final(self).points == old(self).points,
            final(self).clip_area == old(self).clip_area,
    {
        self.buffer_size = self.buffer_size + image.bytes.len() + IMAGE_VERTEX_SIZE * 4;
        let index = self.add_image_to_store(image);
        let ghost before = self.images@;
        self.images.push(ImageInfo { store_index: index, vertices, opacity: paint.opacity });
        proof {
            assert(self.images@.drop_last() =~= before);
            assert forall|k: int| 0 <= k < self.images@.len() implies #[trigger] self.images@[k].store_index
                < self.image_store@.len() by {
                if k < before.len() {
                    assert(self.images@[k] == before[k]);
                }
            }
        }
    }

    fn add_image_to_store(&mut self, image: Arc<DecodedImage>) -> (index: usize)
        requires
            old(self).wf(),
        ensures
            final(self).wf(),
            index < final(self).image_store@.len(),
            final(self).image_store@[index as int] == image,
            final(self).image_store@ == old(self).image_store@ || (final(self).image_store@ == old(
                self,
            ).image_store@.push(image) && index == old(self).image_store@.len()),
            final(self).poly_tessellation == old(self).poly_tessellation,
            final(self).points == old(self).points,
            final(self).images == old(self).images,
            final(self).clip_area == old(self).clip_area,
            final(self).buffer_size == old(self).buffer_size,
    {
        let mut i: usize = 0;
        while i < self.image_store.len()
            invariant
                i <= self.image_store@.len(),
                *self == *old(self),
                old(self).wf(),
            decreases self.image_store@.len() - i,
        {
            if same_allocation(&self.image_store[i], &image) {
                return i;
            }
            i = i + 1;
        }
        let index = self.image_store.len();
        self.image_store.push(image);
        index
    }

    /// Adds a dot.
    fn add_dot(&mut self, point: D)
        requires
            old(self).buffer_size + POINT_INSTANCE_SIZE <= usize::MAX,
        ensures
            final(self).points@ == old(self).points@.push(point),
            final(self).buffer_size == old(self).buffer_size + POINT_INSTANCE_SIZE,
            final(self).poly_tessellation == old(self).poly_tessellation,
            final(self).images == old(self).images,
            final(self).clip_area == old(self).clip_area,
            final(self).image_store == old(self).image_store,
    {
        self.points.push(point);
        self.buffer_size = self.buffer_size + POINT_INSTANCE_SIZE;
    }

    /// Appends a tessellation to the polygon buffers, counting it in the buffer estimate.
    fn append_counted(&mut self, tessellation: VertexBuffers<PolyVertex<G>>)
        requires
            old(self).poly_tessellation.vertices@.len() + tessellation.vertices@.len() <= u32::MAX,
            tessellation.indices_in_range(),
            old(self).buffer_size + POLY_VERTEX_SIZE * tessellation.vertices@.len() + INDEX_SIZE
                * tessellation.indices@.len() <= usize::MAX,
        ensures
            final(self).poly_tessellation.vertices@ == old(self).poly_tessellation.vertices@
                + tessellation.vertices@,
            final(self).poly_tessellation.indices@ == old(self).poly_tessellation.indices@
                + offset_indices(
                tessellation.indices@,
                old(self).poly_tessellation.vertices@.len() as int,
            ),
            final(self).buffer_size == old(self).buffer_size + POLY_VERTEX_SIZE
                * tessellation.vertices@.len() + INDEX_SIZE * tessellation.indices@.len(),
            final(self).points == old(self).points,
            final(self).images == old(self).images,
            final(self).clip_area == old(self).clip_area,
            final(self).image_store == old(self).image_store,
    {
        let start_index = self.poly_tessellation.vertices.len();
        let start_index_count = self.poly_tessellation.indices.len();
        append_tessellation(&mut self.poly_tessellation, tessellation);
        let end_index = self.poly_tessellation.vertices.len();
        self.buffer_size = self.buffer_size + (end_index - start_index) * POLY_VERTEX_SIZE;
        self.buffer_size = self.buffer_size + (self.poly_tessellation.indices.len()
            - start_index_count) * INDEX_SIZE;
    }

    /// Adds a line from its stroke tessellation; `None` (an empty line, or a tessellation that
    /// failed) adds nothing.
    pub fn add_line(&mut self, tessellation: Option<VertexBuffers<PolyVertex<G>>>)
        requires
            tessellation matches Some(t) ==> {
                &&& old(self).poly_tessellation.vertices@.len() + t.vertices@.len() <= u32::MAX
                &&& t.indices_in_range()
                &&& old(self).buffer_size + POLY_VERTEX_SIZE * t.vertices@.len() + INDEX_SIZE
                    * t.indices@.len() <= usize::MAX
            },
        ensures
            tessellation is None ==> *final(self) == *old(self),
            tessellation matches Some(t) ==> {
                &&& final(self).poly_tessellation.vertices@ == old(self).poly_tessellation.vertices@
                    + t.vertices@
                &&& final(self).poly_tessellation.indices@ == old(self).poly_tessellation.indices@
                    + offset_indices(t.indices@, old(self).poly_tessellation.vertices@.len() as int)
                &&& final(self).buffer_size == old(self).buffer_size + POLY_VERTEX_SIZE
                    * t.vertices@.len() + INDEX_SIZE * t.indices@.len()
            },
            final(self).points == old(self).points,
            final(self).images == old(self).images,
            final(self).clip_area == old(self).clip_area,
            final(self).image_store == old(self).image_store,
    {
        if let Some(t) = tessellation {
            self.append_counted(t);
        }
    }

    /// Adds a polygon from its fill tessellation.
    pub fn add_polygon(&mut self, tessellation: VertexBuffers<PolyVertex<G>>)
        requires
            old(self).poly_tessellation.vertices@.len() + tessellation.vertices@.len() <= u32::MAX,
            tessellation.indices_in_range(),
            old(self).buffer_size + POLY_VERTEX_SIZE * tessellation.vertices@.len() + INDEX_SIZE
                * tessellation.indices@.len() <= usize::MAX,
        ensures
            final(self).poly_tessellation.vertices@ == old(self).poly_tessellation.vertices@
                + tessellation.vertices@,
            final(self).poly_tessellation.indices@ == old(self).poly_tessellation.indices@
                + offset_indices(
                tessellation.indices@,
                old(self).poly_tessellation.vertices@.len() as int,
            ),
            final(self).buffer_size == old(self).buffer_size + POLY_VERTEX_SIZE
                * tessellation.vertices@.len() + INDEX_SIZE * tessellation.indices@.len(),
            final(self).points == old(self).points,
            final(self).images == old(self).images,
            final(self).clip_area == old(self).clip_area,
            final(self).image_store == old(self).image_store,
    {
        self.append_counted(tessellation);
    }

    fn add_shape(
        &mut self,
        outline: Option<Option<VertexBuffers<PolyVertex<G>>>>,
        fill: Option<VertexBuffers<PolyVertex<G>>>,
    )
        requires
            old(self).poly_tessellation.vertices@.len() + total_vertices(world_shape_parts(outline, fill))
                <= u32::MAX,
            forall|g: int|
                0 <= g < world_shape_parts(outline, fill).len() ==> (#[trigger] world_shape_parts(
                    outline,
                    fill,
                )[g]).indices_in_range(),
            old(self).buffer_size + world_parts_size(world_shape_parts(outline, fill)) <= usize::MAX,
        ensures
            final(self).poly_tessellation.vertices@ == old(self).poly_tessellation.vertices@
                + joined_vertices(world_shape_parts(outline, fill)),
            final(self).poly_tessellation.indices@ == old(self).poly_tessellation.indices@
                + joined_indices(
                old(self).poly_tessellation.vertices@.len() as int,
                world_shape_parts(outline, fill),
            ),
            final(self).buffer_size == old(self).buffer_size + world_parts_size(
                world_shape_parts(outline, fill),
            ),
            final(self).points == old(self).points,
            final(self).images == old(self).images,
            final(self).clip_area == old(self).clip_area,
            final(self).image_store == old(self).image_store,
    {
        let ghost parts_spec = world_shape_parts(outline, fill);
        let start_vertex_count = self.poly_tessellation.vertices.len();
        let start_index_count = self.poly_tessellation.indices.len();
        let mut parts: Vec<VertexBuffers<PolyVertex<G>>> = Vec::new();
        match outline {
            Some(Some(o)) => parts.push(o),
            Some(None) => {
                proof {
                    assert(parts_spec =~= Seq::<VertexBuffers<PolyVertex<G>>>::empty());
                    assert(self.poly_tessellation.vertices@ =~= old(self).poly_tessellation.vertices@
                        + joined_vertices(parts_spec));
                    assert(self.poly_tessellation.indices@ =~= old(self).poly_tessellation.indices@
                        + joined_indices(start_vertex_count as int, parts_spec));
                }
                return;
            },
            None => {},
        }
        if let Some(f) = fill {
            parts.push(f);
        }
        proof {
            assert(parts@ =~= parts_spec);
            lemma_joined_len(parts_spec);
            lemma_joined_indices_len(start_vertex_count as int, parts_spec);
        }
        append_tessellations(&mut self.poly_tessellation, parts);
        self.buffer_size = self.buffer_size + (self.poly_tessellation.vertices.len()
            - start_vertex_count) * SCREEN_REF_VERTEX_SIZE;
        self.buffer_size = self.buffer_size + (self.poly_tessellation.indices.len()
            - start_index_count) * INDEX_SIZE;
    }

    fn add_circle_sector(
        &mut self,
        center: PolyVertex<G>,
        rim: Vec<PolyVertex<G>>,
        is_full_circle: bool,
        outline: Option<Option<VertexBuffers<PolyVertex<G>>>>,
    )
        requires
            old(self).poly_tessellation.vertices@.len() + 1 + rim@.len() + total_vertices(
                world_shape_parts(outline, None),
            ) <= u32::MAX,
            forall|g: int|
                0 <= g < world_shape_parts(outline, None).len() ==> (#[trigger] world_shape_parts(
                    outline,
                    None,
                )[g]).indices_in_range(),
            old(self).buffer_size + world_sector_size(rim@.len() as int, is_full_circle, outline)
                <= usize::MAX,
        ensures
            final(self).poly_tessellation.vertices@ == old(self).poly_tessellation.vertices@
                + seq![center] + rim@ + joined_vertices(world_shape_parts(outline, None)),
            final(self).poly_tessellation.indices@ == old(self).poly_tessellation.indices@
                + sector_indices(
                old(self).poly_tessellation.vertices@.len() as int,
                rim@.len() as int,
                is_full_circle,
            ) + joined_indices(
                (old(self).poly_tessellation.vertices@.len() + 1 + rim@.len()) as int,
                world_shape_parts(outline, None),
            ),
            final(self).buffer_size == old(self).buffer_size + world_sector_size(
                rim@.len() as int,
                is_full_circle,
                outline,
            ),
            final(self).points == old(self).points,
            final(self).images == old(self).images,
            final(self).clip_area == old(self).clip_area,
            final(self).image_store == old(self).image_store,
    {
        let ghost parts = world_shape_parts(outline, None);
        let ghost rim_view = rim@;
        proof {
            lemma_joined_len(parts);
            lemma_joined_indices_len(0, parts);
            lemma_fan_len(old(self).poly_tessellation.vertices@.len() as int, rim@.len() as int);
        }
        let first_index = self.poly_tessellation.vertices.len() as u32;
        let start_vertex_count = self.poly_tessellation.vertices.len();
        let start_index_count = self.poly_tessellation.indices.len();
        let n = rim.len();
        let mut vertices: Vec<PolyVertex<G>> = Vec::new();
        vertices.push(center);
        let mut rim = rim;
        vertices.append(&mut rim);
        let mut indices = sector_fan_indices(first_index, n, is_full_circle);
        self.poly_tessellation.vertices.append(&mut vertices);
        self.poly_tessellation.indices.append(&mut indices);
        let ghost mid = *self;
        if outline.is_some() {
            proof {
                lemma_joined_indices_len(self.poly_tessellation.vertices@.len() as int, parts);
            }
            self.add_shape(outline, None);
        } else {
            proof {
                assert(parts =~= Seq::<VertexBuffers<PolyVertex<G>>>::empty());
                assert(self.poly_tessellation.vertices@ =~= mid.poly_tessellation.vertices@
                    + joined_vertices(parts));
                assert(self.poly_tessellation.indices@ =~= mid.poly_tessellation.indices@
                    + joined_indices(mid.poly_tessellation.vertices@.len() as int, parts));
            }
        }
        proof {
            lemma_joined_indices_len(mid.poly_tessellation.vertices@.len() as int, parts);
            assert(self.poly_tessellation.vertices@ =~= old(self).poly_tessellation.vertices@
                + seq![center] + rim_view + joined_vertices(parts)) by {
                assert(mid.poly_tessellation.vertices@ =~= old(self).poly_tessellation.vertices@
                    + seq![center] + rim_view);
            }
        }
        self.buffer_size = self.buffer_size + (self.poly_tessellation.vertices.len()
            - start_vertex_count) * SCREEN_REF_VERTEX_SIZE;
        self.buffer_size = self.buffer_size + (self.poly_tessellation.indices.len()
            - start_index_count) * INDEX_SIZE;
    }

    /// Adds the tessellated glyphs of a label; `None` (text that could not be shaped) adds
    /// nothing. Labels are not counted in the buffer estimate.
    pub fn add_label(&mut self, glyphs: Option<Vec<VertexBuffers<PolyVertex<G>>>>)
        requires
            glyphs matches Some(g) ==> {
                &&& old(self).poly_tessellation.vertices@.len() + total_vertices(g@) <= u32::MAX
                &&& forall|k: int| 0 <= k < g@.len() ==> (#[trigger] g@[k]).indices_in_range()
            },
        ensures
            glyphs is None ==> *final(self) == *old(self),
            glyphs matches Some(g) ==> {
                &&& final(self).poly_tessellation.vertices@ == old(self).poly_tessellation.vertices@
                    + joined_vertices(g@)
                &&& final(self).poly_tessellation.indices@ == old(self).poly_tessellation.indices@
                    + joined_indices(old(self).poly_tessellation.vertices@.len() as int, g@)
            },
            final(self).points == old(self).points,
            final(self).images == old(self).images,
            final(self).clip_area == old(self).clip_area,
            final(self).image_store == old(self).image_store,
            final(self).buffer_size == old(self).buffer_size,
    {
        if let Some(glyphs) = glyphs {
            append_tessellations(&mut self.poly_tessellation, glyphs);
        }
    }

    /// Adding the point symbol `geometry` stays within the `u32` index arithmetic and the size
    /// estimate stays within `usize`; the tessellations it carries are well formed.
    pub open spec fn point_defined(self, geometry: WorldPointGeometry<G, D>) -> bool {
        match geometry {
            WorldPointGeometry::Dot(_) => self.buffer_size + POINT_INSTANCE_SIZE <= usize::MAX,
            WorldPointGeometry::Sector { rim, is_full_circle, outline, .. } => {
                &&& self.poly_tessellation.vertices@.len() + 1 + rim@.len() + total_vertices(
                    world_shape_parts(outline, None),
                ) <= u32::MAX
                &&& forall|g: int|
                    0 <= g < world_shape_parts(outline, None).len() ==> (#[trigger] world_shape_parts(
                        outline,
                        None,
                    )[g]).indices_in_range()
                &&& self.buffer_size + world_sector_size(rim@.len() as int, is_full_circle, outline)
                    <= usize::MAX
            },
            WorldPointGeometry::Shape { outline, fill } => {
                &&& self.poly_tessellation.vertices@.len() + total_vertices(
                    world_shape_parts(outline, fill),
                ) <= u32::MAX
                &&& forall|g: int|
                    0 <= g < world_shape_parts(outline, fill).len() ==> (#[trigger] world_shape_parts(
                        outline,
                        fill,
                    )[g]).indices_in_range()
                &&& self.buffer_size + world_parts_size(world_shape_parts(outline, fill))
                    <= usize::MAX
            },
            WorldPointGeometry::Label(glyphs) => glyphs matches Some(g) ==> {
                &&& self.poly_tessellation.vertices@.len() + total_vertices(g@) <= u32::MAX
                &&& forall|k: int| 0 <= k < g@.len() ==> (#[trigger] g@[k]).indices_in_range()
            },
        }
    }

    /// `new` is this set after the point symbol `geometry` was added: a dot is appended to the
    /// dots; a sector, a shape or a label appends its tessellation to the polygon tessellation;
    /// the images, the image store and the clip area are kept.
    pub open spec fn point_added(self, new: Self, geometry: WorldPointGeometry<G, D>) -> bool {
        &&& match geometry {
            WorldPointGeometry::Dot(d) => new.points@ == self.points@.push(d)
                && new.buffer_size == self.buffer_size + POINT_INSTANCE_SIZE
                && new.poly_tessellation == self.poly_tessellation,
            WorldPointGeometry::Sector { center, rim, is_full_circle, outline } => {
                &&& new.poly_tessellation.vertices@ == self.poly_tessellation.vertices@
                    + seq![center] + rim@ + joined_vertices(world_shape_parts(outline, None))
                &&& new.poly_tessellation.indices@ == self.poly_tessellation.indices@
                    + sector_indices(
                    self.poly_tessellation.vertices@.len() as int,
                    rim@.len() as int,
                    is_full_circle,
                ) + joined_indices(
                    (self.poly_tessellation.vertices@.len() + 1 + rim@.len()) as int,
                    world_shape_parts(outline, None),
                )
                &&& new.buffer_size == self.buffer_size + world_sector_size(
                    rim@.len() as int,
                    is_full_circle,
                    outline,
                )
                &&& new.points == self.points
            },
            WorldPointGeometry::Shape { outline, fill } => {
                &&& new.poly_tessellation.vertices@ == self.poly_tessellation.vertices@
                    + joined_vertices(world_shape_parts(outline, fill))
                &&& new.poly_tessellation.indices@ == self.poly_tessellation.indices@
                    + joined_indices(
                    self.poly_tessellation.vertices@.len() as int,
                    world_shape_parts(outline, fill),
                )
                &&& new.buffer_size == self.buffer_size + world_parts_size(
                    world_shape_parts(outline, fill),
                )
                &&& new.points == self.points
            },
            WorldPointGeometry::Label(glyphs) => {
                &&& new.buffer_size == self.buffer_size
                &&& new.points == self.points
                &&& match glyphs {
                    None => new.poly_tessellation == self.poly_tessellation,
                    Some(g) => {
                        &&& new.poly_tessellation.vertices@
                            == self.poly_tessellation.vertices@ + joined_vertices(g@)
                        &&& new.poly_tessellation.indices@
                            == self.poly_tessellation.indices@ + joined_indices(
                            self.poly_tessellation.vertices@.len() as int,
                            g@,
                        )
                    },
                }
            },
        }
        &&& new.images == self.images
        &&& new.clip_area == self.clip_area
        &&& new.image_store == self.image_store
    }

    /// Adds a point symbol.
    pub fn add_point(&mut self, geometry: WorldPointGeometry<G, D>)
        requires
            old(self).point_defined(geometry),
        ensures
            old(self).point_added(*final(self), geometry),
    {
        match geometry {
            WorldPointGeometry::Dot(point) => self.add_dot(point),
            WorldPointGeometry::Sector { center, rim, is_full_circle, outline } => {
                self.add_circle_sector(center, rim, is_full_circle, outline)
            },
            WorldPointGeometry::Shape { outline, fill } => self.add_shape(outline, fill),
            WorldPointGeometry::Label(glyphs) => self.add_label(glyphs),
        }
    }

}

} // verus!
