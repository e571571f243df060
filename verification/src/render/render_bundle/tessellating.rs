//! A render bundle that keeps every primitive it was given addressable by a [`PrimitiveId`],
//! so that primitives can be updated or removed after they were added.
//!
//! Vertex geometry is opaque here (`G` for map-referenced polygon vertices, `S` for
//! screen-referenced vertices, `D` for dot instances, `I` for image corners); what the bundle
//! tracks is where each primitive's data lies in the shared buffers, which slots are free for
//! reuse, and an estimate of the GPU buffer size.

use super::{
    append_tessellation, append_tessellations, fan_triangles, lemma_cut_undoes_append, lemma_fan_entries,
    lemma_fan_len, lemma_joined_indices_len,
    lemma_joined_len, total_indices, compact_indices, cut_vertices, joined_indices,
    joined_vertices, offset_indices, remove_from_tessellation, sector_fan_indices, sector_indices,
    sector_indices_fit, total_vertices, VertexBuffers,
};
use crate::color::Color;
use crate::error::{is_generic_error, GalileoError};
use crate::primitives::DecodedImage;
use crate::render::{ImagePaint, PrimitiveId};
use core::ops::Range;
use std::sync::Arc;
use vstd::prelude::*;

verus! {

/// Bytes of one map-referenced polygon vertex in the GPU buffer.
pub const POLY_VERTEX_SIZE: usize = 40;

/// Bytes of one screen-referenced vertex in the GPU buffer.
pub const SCREEN_REF_VERTEX_SIZE: usize = 24;

/// Bytes of one dot instance in the GPU buffer.
pub const POINT_INSTANCE_SIZE: usize = 16;

/// Bytes of one image corner vertex in the GPU buffer.
pub const IMAGE_VERTEX_SIZE: usize = 28;

/// Bytes of one index in the GPU buffer.
pub const INDEX_SIZE: usize = 4;

/// A map-referenced vertex: its geometry and its color.
#[derive(Debug, Clone, Copy)]
pub struct PolyVertex<G> {
    /// Position and offsets of the vertex.
    pub geometry: G,
    /// Color of the vertex.
    pub color: Color,
}

/// A slot of the image store.
#[derive(Debug, Clone)]
pub enum ImageStoreInfo {
    /// Free slot.
    Vacant,
    /// A stored image.
    Image(Arc<DecodedImage>),
}

/// A slot of the image table: a drawn image refers to a stored image and has four corners.
#[derive(Debug, Clone, Copy)]
pub enum ImageInfo<I> {
    /// Free slot.
    Vacant,
    /// A drawn image.
    Image {
        /// Slot of the image store that holds the bitmap.
        store_index: usize,
        /// The four corners of the image.
        vertices: [I; 4],
        /// Opacity the image is drawn with (255 is opaque).
        opacity: u8,
    },
}

/// Where the data of a primitive lies.
#[derive(Debug)]
pub enum PrimitiveInfo {
    /// The primitive produced no data.
    NoData,
    /// Free slot.
    Vacant,
    /// Vertices `vertex_range` of the polygon tessellation.
    MapRef { vertex_range: Range<usize> },
    /// Range of the screen-referenced tessellation.
    ScreenRef { vertex_range: Range<usize> },
    /// Entry of the dot list.
    Dot { point_index: usize },
    /// Slot of the image table.
    Image { image_index: usize },
}

impl PrimitiveInfo {
    /// Returns an equal value.
    pub fn duplicate(&self) -> (r: PrimitiveInfo)
        ensures
            r == *self,
    {
        match self {
            PrimitiveInfo::NoData => PrimitiveInfo::NoData,
            PrimitiveInfo::Vacant => PrimitiveInfo::Vacant,
            PrimitiveInfo::MapRef { vertex_range } => PrimitiveInfo::MapRef {
                vertex_range: vertex_range.start..vertex_range.end,
            },
            PrimitiveInfo::ScreenRef { vertex_range } => PrimitiveInfo::ScreenRef {
                vertex_range: vertex_range.start..vertex_range.end,
            },
            PrimitiveInfo::Dot { point_index } => PrimitiveInfo::Dot { point_index: *point_index },
            PrimitiveInfo::Image { image_index } => PrimitiveInfo::Image { image_index: *image_index },
        }
    }
}

/// The tessellated form of a point symbol, as the bundle stores it.
pub enum PointGeometry<S, D, I> {
    /// A single dot.
    Dot(D),
    /// An image anchored at the point.
    Image {
        /// The bitmap.
        image: Arc<DecodedImage>,
        /// Opacity of the image.
        opacity: u8,
        /// The four corners.
        vertices: [I; 4],
    },
    /// A circle sector drawn as a fan around its center.
    Sector {
        /// Center vertex of the fan.
        center: S,
        /// Rim vertices of the fan, in order.
        rim: Vec<S>,
        /// Whether the sector closes into a full circle.
        is_full_circle: bool,
        /// Outline: none, a failed tessellation, or its tessellation.
        outline: Option<Option<VertexBuffers<S>>>,
    },
    /// A polygonal shape.
    Shape {
        /// Outline: none, a failed tessellation, or its tessellation.
        outline: Option<Option<VertexBuffers<S>>>,
        /// Fill tessellation, if the fill is drawn and tessellated.
        fill: Option<VertexBuffers<S>>,
    },
    /// A text label: the tessellated glyphs, or `None` if the text could not be shaped.
    Label(Option<Vec<VertexBuffers<S>>>),
}

/// What an update of a primitive can change: the color of a line or polygon.
pub enum PrimitivePaint {
    /// A point primitive.
    Point,
    /// A line primitive of the given color.
    Contour(Color),
    /// A polygon primitive of the given color.
    Polygon(Color),
}

/// Render bundle that keeps primitives addressable for updates and removal.
pub struct TessellatingRenderBundle<G, S, D, I> {
    /// Map-referenced polygons and lines.
    pub poly_tessellation: VertexBuffers<PolyVertex<G>>,
    /// Dots.
    pub points: Vec<D>,
    /// Screen-referenced symbols and labels.
    pub screen_ref: VertexBuffers<S>,
    /// Drawn images.
    pub images: Vec<ImageInfo<I>>,
    /// Area the bundle is clipped to.
    pub clip_area: Option<VertexBuffers<PolyVertex<G>>>,
    /// Bitmaps of the drawn images.
    pub image_store: Vec<ImageStoreInfo>,
    /// Where each primitive's data lies.
    pub primitives: Vec<PrimitiveInfo>,
    /// Slots of the primitive table free for reuse, the last one reused first.
    pub vacant_ids: Vec<usize>,
    /// Slots of the image table free for reuse, the last one reused first.
    pub vacant_image_ids: Vec<usize>,
    /// Slots of the image store free for reuse, the last one reused first.
    pub vacant_image_store_ids: Vec<usize>,
    /// Estimated size of the GPU buffers of the bundle, in bytes.
    pub buffer_size: usize,
}

/// The slot a new entry of a table of `len` entries takes: the last freed slot, or a new slot
/// at the end when none is free.
pub open spec fn free_slot(len: int, vacant: Seq<usize>) -> int {
    if vacant.len() == 0 {
        len
    } else {
        vacant.last() as int
    }
}

/// The table after `x` is put into its free slot (see [`free_slot`]).
pub open spec fn placed<T>(table: Seq<T>, vacant: Seq<usize>, x: T) -> Seq<T> {
    if vacant.len() == 0 {
        table.push(x)
    } else {
        table.update(vacant.last() as int, x)
    }
}

/// The free slots after one of them was taken (none is taken when there is none).
pub open spec fn released_slots(vacant: Seq<usize>) -> Seq<usize> {
    if vacant.len() == 0 {
        vacant
    } else {
        vacant.drop_last()
    }
}

/// Range of a map-referenced primitive.
pub open spec fn map_ref_range(p: PrimitiveInfo) -> Option<(int, int)> {
    match p {
        PrimitiveInfo::MapRef { vertex_range } => Some(
            (vertex_range.start as int, vertex_range.end as int),
        ),
        _ => None,
    }
}

/// Range of a screen-referenced primitive.
pub open spec fn screen_ref_range(p: PrimitiveInfo) -> Option<(int, int)> {
    match p {
        PrimitiveInfo::ScreenRef { vertex_range } => Some(
            (vertex_range.start as int, vertex_range.end as int),
        ),
        _ => None,
    }
}

/// Ranges recorded in the table are not reversed.
pub open spec fn ranges_ordered(prims: Seq<PrimitiveInfo>) -> bool {
    forall|i: int|
        0 <= i < prims.len() ==> {
            &&& (#[trigger] map_ref_range(prims[i])) matches Some((s, e)) ==> s <= e
            &&& screen_ref_range(prims[i]) matches Some((s, e)) ==> s <= e
        }
}

/// A map-referenced range at or after `end` moves down by `len`.
pub open spec fn shift_map_ref(p: PrimitiveInfo, end: int, len: int) -> PrimitiveInfo {
    match p {
        PrimitiveInfo::MapRef { vertex_range } => if vertex_range.start >= end {
            PrimitiveInfo::MapRef {
                vertex_range: Range {
                    start: (vertex_range.start - len) as usize,
                    end: (vertex_range.end - len) as usize,
                },
            }
        } else {
            p
        },
        _ => p,
    }
}

/// A screen-referenced range at or after `end` moves down by `len`.
pub open spec fn shift_screen_ref(p: PrimitiveInfo, end: int, len: int) -> PrimitiveInfo {
    match p {
        PrimitiveInfo::ScreenRef { vertex_range } => if vertex_range.start >= end {
            PrimitiveInfo::ScreenRef {
                vertex_range: Range {
                    start: (vertex_range.start - len) as usize,
                    end: (vertex_range.end - len) as usize,
                },
            }
        } else {
            p
        },
        _ => p,
    }
}

/// A dot index above `index` moves down by one.
pub open spec fn shift_dot(p: PrimitiveInfo, index: int) -> PrimitiveInfo {
    match p {
        PrimitiveInfo::Dot { point_index } => if point_index > index {
            PrimitiveInfo::Dot { point_index: (point_index - 1) as usize }
        } else {
            p
        },
        _ => p,
    }
}

/// Number of vertices in `start..end` (zero when the range is empty or reversed).
pub open spec fn range_len(start: int, end: int) -> int {
    if start < end {
        end - start
    } else {
        0
    }
}

/// Number of indices dropped when the vertices `start..end` are cut out.
pub open spec fn dropped_indices(indices: Seq<u32>, start: int, end: int) -> int {
    if start < end {
        indices.len() - compact_indices(indices, start, end).len()
    } else {
        0
    }
}


/// Every map-referenced range of `prims` lies in `0..n`, and no two of them overlap.
pub open spec fn map_ranges_valid(prims: Seq<PrimitiveInfo>, n: int) -> bool {
    &&& forall|i: int|
        0 <= i < prims.len() ==> ((#[trigger] map_ref_range(prims[i])) matches Some((s, e)) ==> 0
            <= s <= e <= n)
    &&& forall|i: int, j: int|
        0 <= i < prims.len() && 0 <= j < prims.len() && i != j ==> (
        #[trigger] map_ref_range(prims[i]) matches Some((si, ei)) ==> (
        #[trigger] map_ref_range(prims[j]) matches Some((sj, ej)) ==> ei <= sj || ej <= si))
}

proof fn lemma_ranges_push_other(p: Seq<PrimitiveInfo>, x: PrimitiveInfo, n: int)
    requires
        map_ref_range(x) is None,
    ensures
        map_ranges_valid(p.push(x), n) == map_ranges_valid(p, n),
{
    let q = p.push(x);
    assert(forall|i: int| 0 <= i < p.len() ==> q[i] == p[i]);
    assert(map_ref_range(q[p.len() as int]) is None);
}

proof fn lemma_ranges_update_other(p: Seq<PrimitiveInfo>, k: int, x: PrimitiveInfo, n: int)
    requires
        0 <= k < p.len(),
        map_ref_range(x) is None,
    ensures
        map_ranges_valid(p, n) ==> map_ranges_valid(p.update(k, x), n),
        map_ref_range(p[k]) is None ==> map_ranges_valid(p.update(k, x), n) == map_ranges_valid(p, n),
{
    let q = p.update(k, x);
    assert(forall|i: int| 0 <= i < p.len() && i != k ==> q[i] == p[i]);
    assert(map_ref_range(q[k]) is None);
}


proof fn lemma_ranges_add(p: Seq<PrimitiveInfo>, x: PrimitiveInfo, n: int, m: int, a: int, b: int)
    requires
        map_ranges_valid(p, n),
        n <= m,
        map_ref_range(x) == Some((a, b)),
        0 <= a <= b <= m,
        forall|i: int|
            0 <= i < p.len() ==> ((#[trigger] map_ref_range(p[i])) matches Some((s, e)) ==> e <= a
                || b <= s),
    ensures
        map_ranges_valid(p.push(x), m),
        forall|k: int| 0 <= k < p.len() ==> map_ranges_valid(#[trigger] p.update(k, x), m),
{
    let q = p.push(x);
    assert(forall|i: int| 0 <= i < p.len() ==> q[i] == p[i]);
    assert(q[p.len() as int] == x);
    assert forall|k: int| 0 <= k < p.len() implies map_ranges_valid(#[trigger] p.update(k, x), m) by {
        let r = p.update(k, x);
        assert(forall|i: int| 0 <= i < p.len() && i != k ==> r[i] == p[i]);
        assert(r[k] == x);
    }
}

proof fn lemma_ranges_ordered_push(p: Seq<PrimitiveInfo>, x: PrimitiveInfo)
    requires
        ranges_ordered(p),
        ranges_ordered(seq![x]),
    ensures
        ranges_ordered(p.push(x)),
{
    let q = p.push(x);
    assert(seq![x][0] == x);
    assert forall|i: int| 0 <= i < q.len() implies {
        &&& (#[trigger] map_ref_range(q[i])) matches Some((s, e)) ==> s <= e
        &&& screen_ref_range(q[i]) matches Some((s, e)) ==> s <= e
    } by {
        if i < p.len() {
            assert(q[i] == p[i]);
        } else {
            assert(q[i] == seq![x][0]);
        }
    }
}

proof fn lemma_ranges_ordered_update(p: Seq<PrimitiveInfo>, k: int, x: PrimitiveInfo)
    requires
        ranges_ordered(p),
        ranges_ordered(seq![x]),
        0 <= k < p.len(),
    ensures
        ranges_ordered(p.update(k, x)),
{
    let q = p.update(k, x);
    assert(seq![x][0] == x);
    assert forall|i: int| 0 <= i < q.len() implies {
        &&& (#[trigger] map_ref_range(q[i])) matches Some((s, e)) ==> s <= e
        &&& screen_ref_range(q[i]) matches Some((s, e)) ==> s <= e
    } by {
        if i != k {
            assert(q[i] == p[i]);
        } else {
            assert(q[i] == seq![x][0]);
        }
    }
}


/// Each entry of `prims`, with map-referenced ranges at or after `end` moved down by `len`.
pub open spec fn shifted_map_refs(prims: Seq<PrimitiveInfo>, end: int, len: int) -> Seq<PrimitiveInfo> {
    Seq::new(prims.len(), |i: int| shift_map_ref(prims[i], end, len))
}

/// Each entry of `prims`, with screen-referenced ranges at or after `end` moved down by `len`.
pub open spec fn shifted_screen_refs(prims: Seq<PrimitiveInfo>, end: int, len: int) -> Seq<
    PrimitiveInfo,
> {
    Seq::new(prims.len(), |i: int| shift_screen_ref(prims[i], end, len))
}

/// Each entry of `prims`, with dot indices above `index` moved down by one.
pub open spec fn shifted_dots(prims: Seq<PrimitiveInfo>, index: int) -> Seq<PrimitiveInfo> {
    Seq::new(prims.len(), |i: int| shift_dot(prims[i], index))
}

/// Removing the vertices `start..end` from a tessellation neither overflows the `u32` index
/// arithmetic nor makes the buffer size estimate (reduced by `vertex_size` per vertex and
/// `INDEX_SIZE` per dropped index) negative.
pub open spec fn cut_defined(
    vertex_count: int,
    indices: Seq<u32>,
    start: int,
    end: int,
    vertex_size: int,
    buffer_size: int,
) -> bool {
    start < end <= vertex_count ==> {
        &&& end <= u32::MAX
        &&& vertex_size * (end - start) + INDEX_SIZE * dropped_indices(indices, start, end)
            <= buffer_size
    }
}


/// A range at or after `end` moved down by `len`.
pub open spec fn shifted_range(r: Option<(int, int)>, end: int, len: int) -> Option<(int, int)> {
    match r {
        Some((a, b)) => if a >= end {
            Some((a - len, b - len))
        } else {
            Some((a, b))
        },
        None => None,
    }
}

proof fn lemma_shift_map_refs_valid(p: Seq<PrimitiveInfo>, n: int, s: int, e: int)
    requires
        map_ranges_valid(p, n),
        0 <= s <= e <= n,
        forall|i: int|
            0 <= i < p.len() ==> ((#[trigger] map_ref_range(p[i])) matches Some((a, b)) ==> b <= s
                || e <= a),
    ensures
        map_ranges_valid(shifted_map_refs(p, e, e - s), n - (e - s)),
{
    let q = shifted_map_refs(p, e, e - s);
    assert forall|i: int| 0 <= i < p.len() implies #[trigger] map_ref_range(q[i]) == shifted_range(
        map_ref_range(p[i]),
        e,
        e - s,
    ) by {
        assert(q[i] == shift_map_ref(p[i], e, e - s));
    }
}

proof fn lemma_same_map_refs(p: Seq<PrimitiveInfo>, q: Seq<PrimitiveInfo>, n: int)
    requires
        p.len() == q.len(),
        forall|i: int| 0 <= i < p.len() ==> #[trigger] map_ref_range(q[i]) == map_ref_range(p[i]),
    ensures
        map_ranges_valid(p, n) == map_ranges_valid(q, n),
{
    if map_ranges_valid(p, n) {
        assert forall|i: int|
            0 <= i < q.len() implies ((#[trigger] map_ref_range(q[i])) matches Some((s, e)) ==> 0 <= s
            <= e <= n) by {
            assert(map_ref_range(q[i]) == map_ref_range(p[i]));
        }
        assert forall|i: int, j: int|
            0 <= i < q.len() && 0 <= j < q.len() && i != j implies (#[trigger] map_ref_range(q[i])
            matches Some((si, ei)) ==> (#[trigger] map_ref_range(q[j]) matches Some((sj, ej)) ==> ei
            <= sj || ej <= si)) by {
            assert(map_ref_range(q[i]) == map_ref_range(p[i]));
            assert(map_ref_range(q[j]) == map_ref_range(p[j]));
        }
    }
    if map_ranges_valid(q, n) {
        assert forall|i: int|
            0 <= i < p.len() implies ((#[trigger] map_ref_range(p[i])) matches Some((s, e)) ==> 0 <= s
            <= e <= n) by {
            assert(map_ref_range(q[i]) == map_ref_range(p[i]));
        }
        assert forall|i: int, j: int|
            0 <= i < p.len() && 0 <= j < p.len() && i != j implies (#[trigger] map_ref_range(p[i])
            matches Some((si, ei)) ==> (#[trigger] map_ref_range(p[j]) matches Some((sj, ej)) ==> ei
            <= sj || ej <= si)) by {
            assert(map_ref_range(q[i]) == map_ref_range(p[i]));
            assert(map_ref_range(q[j]) == map_ref_range(p[j]));
        }
    }
}

proof fn lemma_shift_other_keeps_map_refs(p: Seq<PrimitiveInfo>, n: int, end: int, len: int, index: int)
    ensures
        map_ranges_valid(shifted_screen_refs(p, end, len), n) == map_ranges_valid(p, n),
        map_ranges_valid(shifted_dots(p, index), n) == map_ranges_valid(p, n),
{
    let q = shifted_screen_refs(p, end, len);
    let r = shifted_dots(p, index);
    assert forall|i: int| 0 <= i < p.len() implies #[trigger] map_ref_range(q[i]) == map_ref_range(p[i])
        by {
        assert(q[i] == shift_screen_ref(p[i], end, len));
    }
    assert forall|i: int| 0 <= i < p.len() implies #[trigger] map_ref_range(r[i]) == map_ref_range(p[i])
        by {
        assert(r[i] == shift_dot(p[i], index));
    }
    lemma_same_map_refs(p, q, n);
    lemma_same_map_refs(p, r, n);
}


/// `vs` with the colors of vertices `start..end` replaced by `color`.
pub open spec fn recolored<G>(vs: Seq<PolyVertex<G>>, start: int, end: int, color: Color) -> Seq<
    PolyVertex<G>,
> {
    Seq::new(
        vs.len(),
        |k: int|
            if start <= k < end {
                PolyVertex { geometry: vs[k].geometry, color }
            } else {
                vs[k]
            },
    )
}

/// The color an update gives to a line or polygon.
pub open spec fn paint_color(paint: PrimitivePaint) -> Option<Color> {
    match paint {
        PrimitivePaint::Point => None,
        PrimitivePaint::Contour(c) => Some(c),
        PrimitivePaint::Polygon(c) => Some(c),
    }
}


/// The tessellations a shape appends: its outline (unless the outline failed, which leaves the
/// shape out altogether) followed by its fill.
pub open spec fn shape_parts<S>(
    outline: Option<Option<VertexBuffers<S>>>,
    fill: Option<VertexBuffers<S>>,
) -> Seq<VertexBuffers<S>> {
    let fill_part = match fill {
        Some(f) => seq![f],
        None => Seq::empty(),
    };
    match outline {
        Some(None) => Seq::empty(),
        Some(Some(o)) => seq![o] + fill_part,
        None => fill_part,
    }
}

/// The vertices of an optional tessellation (none for `None`).
pub open spec fn optional_vertices<V>(t: Option<VertexBuffers<V>>) -> Seq<V> {
    match t {
        Some(t) => t.vertices@,
        None => Seq::empty(),
    }
}

/// The indices of an optional tessellation moved by `offset` (none for `None`).
pub open spec fn optional_indices<V>(t: Option<VertexBuffers<V>>, offset: int) -> Seq<u32> {
    match t {
        Some(t) => offset_indices(t.indices@, offset),
        None => Seq::empty(),
    }
}

/// Adding a shape appends its outline and then its fill to the screen-referenced tessellation:
/// the vertices of the outline (if it was tessellated) followed by those of the fill (if any),
/// each part's indices moved to point at its own vertices. A shape whose outline could not be
/// tessellated adds nothing. The premise is what `add_point` ensures for a shape.
pub proof fn lemma_shape_appends_outline_then_fill<G, S, D, I>(
    before: TessellatingRenderBundle<G, S, D, I>,
    outline: Option<Option<VertexBuffers<S>>>,
    fill: Option<VertexBuffers<S>>,
    after: TessellatingRenderBundle<G, S, D, I>,
    info: PrimitiveInfo,
)
    requires
        before.point_added(after, PointGeometry::Shape { outline, fill }, info),
    ensures
        outline matches Some(None) ==> after.screen_ref.vertices@ == before.screen_ref.vertices@
            && after.screen_ref.indices@ == before.screen_ref.indices@,
        outline matches Some(Some(o)) ==> {
            &&& after.screen_ref.vertices@ == before.screen_ref.vertices@ + o.vertices@
                + optional_vertices(fill)
            &&& after.screen_ref.indices@ == before.screen_ref.indices@ + offset_indices(
                o.indices@,
                before.screen_ref.vertices@.len() as int,
            ) + optional_indices(fill, (before.screen_ref.vertices@.len() + o.vertices@.len()) as int)
        },
        outline is None ==> {
            &&& after.screen_ref.vertices@ == before.screen_ref.vertices@ + optional_vertices(fill)
            &&& after.screen_ref.indices@ == before.screen_ref.indices@ + optional_indices(
                fill,
                before.screen_ref.vertices@.len() as int,
            )
        },
{
    let n = before.screen_ref.vertices@.len() as int;
    let parts = shape_parts(outline, fill);
    reveal_with_fuel(joined_vertices, 3);
    reveal_with_fuel(joined_indices, 3);
    reveal_with_fuel(total_vertices, 3);
    match outline {
        Some(None) => {
            assert(parts.len() == 0);
            assert(before.screen_ref.vertices@ + joined_vertices(parts) =~= before.screen_ref.vertices@);
            assert(before.screen_ref.indices@ + joined_indices(n, parts) =~= before.screen_ref.indices@);
        },
        Some(Some(o)) => {
            match fill {
                Some(f) => {
                    assert(parts =~= seq![o, f]);
                    assert(parts.drop_last() =~= seq![o]);
                    assert(seq![o].drop_last() =~= Seq::<VertexBuffers<S>>::empty());
                    assert(joined_vertices(parts) =~= o.vertices@ + f.vertices@);
                    assert(joined_indices(n, parts) =~= offset_indices(o.indices@, n)
                        + offset_indices(f.indices@, n + o.vertices@.len()));
                },
                None => {
                    assert(parts =~= seq![o]);
                    assert(parts.drop_last() =~= Seq::<VertexBuffers<S>>::empty());
                    assert(joined_vertices(parts) =~= o.vertices@);
                    assert(joined_indices(n, parts) =~= offset_indices(o.indices@, n));
                },
            }
        },
        None => {
            match fill {
                Some(f) => {
                    assert(parts =~= seq![f]);
                    assert(parts.drop_last() =~= Seq::<VertexBuffers<S>>::empty());
                    assert(joined_vertices(parts) =~= f.vertices@);
                    assert(joined_indices(n, parts) =~= offset_indices(f.indices@, n));
                },
                None => {
                    assert(parts.len() == 0);
                },
            }
        },
    }
}

/// Bytes a list of screen-referenced tessellations adds to the buffer estimate.
pub open spec fn screen_parts_size<S>(parts: Seq<VertexBuffers<S>>) -> int {
    SCREEN_REF_VERTEX_SIZE * total_vertices(parts) + INDEX_SIZE * total_indices(parts)
}

/// Number of indices of a circle sector fan over `n` rim vertices.
pub open spec fn sector_index_count(n: int, is_full_circle: bool) -> int {
    (if n <= 1 {
        0
    } else {
        3 * (n - 1)
    }) + if is_full_circle {
        3int
    } else {
        0int
    }
}

/// Bytes a circle sector adds to the buffer estimate. Its outline is counted twice: once as a
/// shape, and once more as part of the sector.
pub open spec fn sector_size<S>(n: int, is_full_circle: bool, outline: Option<Option<VertexBuffers<S>>>) -> int {
    let parts = shape_parts(outline, None);
    SCREEN_REF_VERTEX_SIZE * (1 + n) + INDEX_SIZE * sector_index_count(n, is_full_circle) + 2
        * screen_parts_size(parts)
}


/// Removing a polygon or line right after adding it restores the polygon buffers and the buffer
/// size estimate: the premises are what `add_polygon` (or `add_line` with a tessellation)
/// ensures, followed by what `remove` ensures for the new primitive.
pub proof fn lemma_remove_undoes_add<G, S, D, I>(
    before: TessellatingRenderBundle<G, S, D, I>,
    tessellation: VertexBuffers<PolyVertex<G>>,
    added: TessellatingRenderBundle<G, S, D, I>,
    id: PrimitiveId,
    removed: TessellatingRenderBundle<G, S, D, I>,
    res: Result<(), GalileoError>,
)
    requires
        before.map_refs_valid(),
        tessellation.indices_in_range(),
        added.poly_tessellation.vertices@ == before.poly_tessellation.vertices@
            + tessellation.vertices@,
        added.poly_tessellation.indices@ == before.poly_tessellation.indices@ + offset_indices(
            tessellation.indices@,
            before.poly_tessellation.vertices@.len() as int,
        ),
        added.poly_tessellation.vertices@.len() <= u32::MAX,
        added.buffer_size == before.buffer_size + POLY_VERTEX_SIZE * tessellation.vertices@.len()
            + INDEX_SIZE * tessellation.indices@.len(),
        id.spec_index() < added.primitives@.len(),
        added.map_ref_removed(
            removed,
            id.spec_index() as int,
            before.poly_tessellation.vertices@.len() as int,
            added.poly_tessellation.vertices@.len() as int,
            res,
        ),
    ensures
        res is Ok,
        removed.poly_tessellation.vertices@ == before.poly_tessellation.vertices@,
        removed.poly_tessellation.indices@ == before.poly_tessellation.indices@,
        removed.buffer_size == before.buffer_size,
{
    let n = before.poly_tessellation.vertices@.len() as int;
    let m = tessellation.vertices@.len() as int;
    if m > 0 {
        lemma_cut_undoes_append(
            before.poly_tessellation.vertices@,
            before.poly_tessellation.indices@,
            tessellation,
        );
        assert(added.poly_tessellation.indices@.len() == before.poly_tessellation.indices@.len()
            + tessellation.indices@.len());
    } else {
        assert(tessellation.vertices@ =~= Seq::<PolyVertex<G>>::empty());
        assert(tessellation.indices@.len() == 0) by {
            if tessellation.indices@.len() > 0 {
                assert(tessellation.indices@[0] < tessellation.vertices@.len());
            }
        }
        assert(added.poly_tessellation.vertices@ =~= before.poly_tessellation.vertices@);
        assert(added.poly_tessellation.indices@ =~= before.poly_tessellation.indices@);
    }
}

/// Removing a dot right after adding it restores the dot list and the buffer size estimate: the
/// premises are what `add_point` ensures for a dot, followed by what `remove` ensures for it.
pub proof fn lemma_remove_dot_undoes_add<G, S, D, I>(
    before: TessellatingRenderBundle<G, S, D, I>,
    dot: D,
    added: TessellatingRenderBundle<G, S, D, I>,
    id: PrimitiveId,
    removed: TessellatingRenderBundle<G, S, D, I>,
    res: Result<(), GalileoError>,
)
    requires
        added.points@ == before.points@.push(dot),
        added.buffer_size == before.buffer_size + POINT_INSTANCE_SIZE,
        added.dot_removed(removed, id.spec_index() as int, before.points@.len() as int, res),
    ensures
        res is Ok,
        removed.points@ == before.points@,
        removed.buffer_size == before.buffer_size,
{
    assert(before.points@.push(dot).remove(before.points@.len() as int) =~= before.points@);
}

/// The slot of a removed image is the one the next image takes: the premises are what `remove`
/// ensures for image `k`, followed by what adding an image ensures.
pub proof fn lemma_removed_image_slot_is_reused<G, S, D, I>(
    before: TessellatingRenderBundle<G, S, D, I>,
    id: int,
    k: int,
    removed: TessellatingRenderBundle<G, S, D, I>,
    res: Result<(), GalileoError>,
    image: Arc<DecodedImage>,
    vertices: [I; 4],
    opacity: u8,
    added: TessellatingRenderBundle<G, S, D, I>,
    info: PrimitiveInfo,
)
    requires
        0 <= k < before.images@.len(),
        before.images@[k] is Image,
        before.image_removed(removed, id, k, res),
        removed.image_placed(added, info, image, vertices, opacity),
    ensures
        res is Ok,
        info == (PrimitiveInfo::Image { image_index: k as usize }),
        added.images@.len() == before.images@.len(),
        added.vacant_image_ids@ == before.vacant_image_ids@,
{
}

/// An id handed out by an addition keeps naming its primitive through a later addition: in a
/// bundle with no free primitive slot, an addition appends its primitive at a new id and leaves
/// the bundle without a free slot. (A bundle made by `new` has no free slot, an addition takes
/// none when there is none, and `remove` leaves the free slots as they are, so no bundle
/// reached from `new` has one.) The premises are what `add_line`, `add_polygon` and `add_point`
/// ensure of their primitive table and free slots, for two additions in a row.
pub proof fn lemma_added_id_stays<G, S, D, I>(
    before: TessellatingRenderBundle<G, S, D, I>,
    first_id: PrimitiveId,
    mid: TessellatingRenderBundle<G, S, D, I>,
    second_id: PrimitiveId,
    after: TessellatingRenderBundle<G, S, D, I>,
)
    requires
        before.vacant_ids@.len() == 0,
        first_id.spec_index() == free_slot(before.primitives@.len() as int, before.vacant_ids@),
        mid.primitives@ == placed(
            before.primitives@,
            before.vacant_ids@,
            mid.primitives@[first_id.spec_index() as int],
        ),
        mid.vacant_ids@ == released_slots(before.vacant_ids@),
        second_id.spec_index() == free_slot(mid.primitives@.len() as int, mid.vacant_ids@),
        after.primitives@ == placed(
            mid.primitives@,
            mid.vacant_ids@,
            after.primitives@[second_id.spec_index() as int],
        ),
        after.vacant_ids@ == released_slots(mid.vacant_ids@),
    ensures
        first_id.spec_index() == before.primitives@.len(),
        second_id.spec_index() == before.primitives@.len() + 1,
        after.primitives@.len() == before.primitives@.len() + 2,
        forall|k: int| 0 <= k < before.primitives@.len() ==> after.primitives@[k] == before.primitives@[k],
        after.primitives@[first_id.spec_index() as int] == mid.primitives@[first_id.spec_index() as int],
        after.vacant_ids@.len() == 0,
{
}

/// Removing a primitive twice: the first removal leaves its slot vacant, whatever it returns,
/// and the second succeeds and changes nothing. An id past the end of the table is refused both
/// times, and the bundle stays as it was. The premises are what `remove` ensures, twice.
pub proof fn lemma_remove_twice<G, S, D, I>(
    before: TessellatingRenderBundle<G, S, D, I>,
    id: PrimitiveId,
    mid: TessellatingRenderBundle<G, S, D, I>,
    first: Result<(), GalileoError>,
    after: TessellatingRenderBundle<G, S, D, I>,
    second: Result<(), GalileoError>,
)
    requires
        before.removed(mid, id, first),
        mid.removed(after, id, second),
    ensures
        id.spec_index() < before.primitives@.len() ==> {
            &&& mid.primitives@.len() == before.primitives@.len()
            &&& mid.primitives@[id.spec_index() as int] is Vacant
            &&& second is Ok
            &&& after.primitives@ == mid.primitives@
            &&& after.same_contents_except_primitives(mid)
            &&& after.buffer_size == mid.buffer_size
        },
        id.spec_index() >= before.primitives@.len() ==> {
            &&& first is Err
            &&& second is Err
            &&& mid == before
            &&& after == before
        },
{
    let k = id.spec_index() as int;
    if k < before.primitives@.len() {
        assert(mid.primitives@.len() == before.primitives@.len());
        assert(mid.primitives@[k] is Vacant);
        assert(mid.cleared(k) =~= mid.primitives@);
    }
}

/// Removing a line or a polygon succeeds in a bundle whose map-referenced ranges are valid
/// (`map_refs_valid`, which `new` establishes and every operation keeps). The premises are what
/// `remove` ensures.
pub proof fn lemma_map_ref_removal_succeeds<G, S, D, I>(
    before: TessellatingRenderBundle<G, S, D, I>,
    id: PrimitiveId,
    after: TessellatingRenderBundle<G, S, D, I>,
    res: Result<(), GalileoError>,
)
    requires
        before.map_refs_valid(),
        id.spec_index() < before.primitives@.len(),
        before.primitives@[id.spec_index() as int] is MapRef,
        before.removed(after, id, res),
    ensures
        res is Ok,
        after.primitives@[id.spec_index() as int] is Vacant,
{
    assert(map_ref_range(before.primitives@[id.spec_index() as int]) is Some);
}

/// The length of a vector fits in `usize`: it is what `len` returns.
fn vec_len_fits<T>(v: &Vec<T>)
    ensures
        v@.len() <= usize::MAX,
{
    let _len: usize = v.len();
}

/// Removing a line or polygon keeps every other line and polygon: each keeps its kind, and its
/// recorded range, moved down when it lay after the removed one, covers the same vertices as
/// before. The removed one's slot becomes vacant. The premises are what `remove` ensures, on a
/// bundle whose map-referenced ranges are valid.
pub proof fn lemma_map_ref_removal_keeps_others<G, S, D, I>(
    before: TessellatingRenderBundle<G, S, D, I>,
    id: PrimitiveId,
    after: TessellatingRenderBundle<G, S, D, I>,
    res: Result<(), GalileoError>,
)
    requires
        before.map_refs_valid(),
        id.spec_index() < before.primitives@.len(),
        before.primitives@[id.spec_index() as int] is MapRef,
        before.removed(after, id, res),
    ensures
        after.primitives@.len() == before.primitives@.len(),
        after.primitives@[id.spec_index() as int] is Vacant,
        forall|i: int|
            0 <= i < before.primitives@.len() && i != id.spec_index() ==> match (
            #[trigger] before.primitives@[i]) {
                PrimitiveInfo::MapRef { vertex_range: r } => after.primitives@[i] matches PrimitiveInfo::MapRef {
                    vertex_range: q,
                } && q.end - q.start == r.end - r.start && after.poly_tessellation.vertices@.subrange(
                    q.start as int,
                    q.end as int,
                ) == before.poly_tessellation.vertices@.subrange(r.start as int, r.end as int),
                _ => true,
            },
{
    let k = id.spec_index() as int;
    let p = before.primitives@;
    let v = before.poly_tessellation.vertices@;
    let n = v.len() as int;
    assert(map_ref_range(p[k]) is Some);
    let s0 = p[k]->MapRef_vertex_range.start as int;
    let e = p[k]->MapRef_vertex_range.end as int;
    assert(0 <= s0 <= e <= n);
    let l = range_len(s0, e);
    let c = before.cleared(k);
    assert(after.primitives@ == shifted_map_refs(c, e, l));
    let w = after.poly_tessellation.vertices@;
    assert forall|i: int|
        0 <= i < p.len() && i != k implies match (#[trigger] p[i]) {
        PrimitiveInfo::MapRef { vertex_range: r } => after.primitives@[i] matches PrimitiveInfo::MapRef {
            vertex_range: q,
        } && q.end - q.start == r.end - r.start && w.subrange(q.start as int, q.end as int)
            == v.subrange(r.start as int, r.end as int),
        _ => true,
    } by {
        if p[i] is MapRef {
            let r = p[i]->MapRef_vertex_range;
            assert(map_ref_range(p[i]) == Some((r.start as int, r.end as int)));
            assert(0 <= r.start <= r.end <= n);
            assert(r.end <= s0 || e <= r.start);
            assert(c[i] == p[i]);
            assert(after.primitives@[i] == shift_map_ref(p[i], e, l));
            if s0 < e {
                assert(w == cut_vertices(v, s0, e));
                if r.start >= e {
                    assert(w.subrange(r.start - l, r.end - l) =~= v.subrange(
                        r.start as int,
                        r.end as int,
                    ));
                } else {
                    assert(w.subrange(r.start as int, r.end as int) =~= v.subrange(
                        r.start as int,
                        r.end as int,
                    ));
                }
            } else {
                assert(l == 0);
                assert(w == v);
            }
        }
    }
}

/// Removing a dot keeps every other dot that records another index: it stays a dot, and its
/// index, moved down when it lay above the removed one, names the same point as before. The
/// premises are what `remove` ensures for a dot whose index is in the dot list.
pub proof fn lemma_dot_removal_keeps_others<G, S, D, I>(
    before: TessellatingRenderBundle<G, S, D, I>,
    id: PrimitiveId,
    after: TessellatingRenderBundle<G, S, D, I>,
    res: Result<(), GalileoError>,
)
    requires
        id.spec_index() < before.primitives@.len(),
        before.primitives@[id.spec_index() as int] matches PrimitiveInfo::Dot { point_index }
            && point_index < before.points@.len(),
        before.removed(after, id, res),
    ensures
        res is Ok,
        after.points@.len() == before.points@.len() - 1,
        after.primitives@[id.spec_index() as int] is Vacant,
        forall|i: int|
            0 <= i < before.primitives@.len() && i != id.spec_index() ==> match (
            #[trigger] before.primitives@[i]) {
                PrimitiveInfo::Dot { point_index: d } => d
                    != before.primitives@[id.spec_index() as int]->point_index && d
                    < before.points@.len() ==> (after.primitives@[i] matches PrimitiveInfo::Dot {
                    point_index: e,
                } && e < after.points@.len() && after.points@[e as int] == before.points@[d as int]),
                _ => true,
            },
{
    let k = id.spec_index() as int;
    let p = before.primitives@;
    let x = p[k]->point_index as int;
    let c = before.cleared(k);
    assert(after.primitives@ == shifted_dots(c, x));
    assert forall|i: int|
        0 <= i < p.len() && i != k implies match (#[trigger] p[i]) {
        PrimitiveInfo::Dot { point_index: d } => d != x && d < before.points@.len() ==> (
        after.primitives@[i] matches PrimitiveInfo::Dot { point_index: e } && e < after.points@.len()
            && after.points@[e as int] == before.points@[d as int]),
        _ => true,
    } by {
        if p[i] is Dot {
            assert(c[i] == p[i]);
            assert(after.primitives@[i] == shift_dot(p[i], x));
        }
    }
}

/// The three indices at `m` are in range of `vs` and name the vertices `a`, `b` and `c`.
pub open spec fn fan_triangle_names<V>(vs: Seq<V>, is: Seq<u32>, m: int, a: V, b: V, c: V) -> bool {
    &&& 0 <= m && m + 3 <= is.len()
    &&& is[m] < vs.len() && vs[is[m] as int] == a
    &&& is[m + 1] < vs.len() && vs[is[m + 1] as int] == b
    &&& is[m + 2] < vs.len() && vs[is[m + 2] as int] == c
}

/// Adding a circle sector draws it as a fan around its center: triangle `t` of the indices it
/// appends names the center and the rim vertices `t` and `t + 1`, and a full circle ends with a
/// triangle that names the center, the last rim vertex and the first one. The premises are what
/// `add_point` requires and ensures for a sector.
pub proof fn lemma_sector_is_a_fan<G, S, D, I>(
    before: TessellatingRenderBundle<G, S, D, I>,
    center: S,
    rim: Vec<S>,
    is_full_circle: bool,
    outline: Option<Option<VertexBuffers<S>>>,
    after: TessellatingRenderBundle<G, S, D, I>,
    info: PrimitiveInfo,
)
    requires
        before.screen_ref.vertices@.len() + 1 + rim@.len() <= u32::MAX,
        before.point_added(after, PointGeometry::Sector { center, rim, is_full_circle, outline }, info),
    ensures
        forall|t: int|
            0 <= t < rim@.len() - 1 ==> fan_triangle_names(
                after.screen_ref.vertices@,
                after.screen_ref.indices@,
                before.screen_ref.indices@.len() + 3 * t,
                center,
                #[trigger] rim@[t],
                rim@[t + 1],
            ),
        is_full_circle && rim@.len() >= 1 ==> fan_triangle_names(
            after.screen_ref.vertices@,
            after.screen_ref.indices@,
            before.screen_ref.indices@.len() + 3 * (rim@.len() - 1),
            center,
            rim@[rim@.len() - 1],
            rim@[0],
        ),
{
    let first = before.screen_ref.vertices@.len() as int;
    let n = rim@.len() as int;
    let base = before.screen_ref.indices@.len() as int;
    let vs = after.screen_ref.vertices@;
    let is = after.screen_ref.indices@;
    let fan = fan_triangles(first, n);
    let closing = if is_full_circle {
        seq![first as u32, (first + n) as u32, (first + 1) as u32]
    } else {
        Seq::empty()
    };
    let tail = joined_indices(first + 1 + n, shape_parts(outline, None));
    assert(is == before.screen_ref.indices@ + (fan + closing) + tail);
    lemma_fan_len(first, n);
    assert(vs.len() >= first + 1 + n);
    assert(vs[first] == center);
    assert forall|j: int| 0 <= j < n implies vs[first + 1 + j] == #[trigger] rim@[j] by {}
    assert forall|t: int| 0 <= t < n - 1 implies fan_triangle_names(
        vs,
        is,
        base + 3 * t,
        center,
        #[trigger] rim@[t],
        rim@[t + 1],
    ) by {
        lemma_fan_entries(first, n, t);
        assert(is[base + 3 * t] == fan[3 * t]);
        assert(is[base + 3 * t + 1] == fan[3 * t + 1]);
        assert(is[base + 3 * t + 2] == fan[3 * t + 2]);
        assert(vs[first + 1 + t] == rim@[t]);
        assert(vs[first + 1 + (t + 1)] == rim@[t + 1]);
    }
    if is_full_circle && n >= 1 {
        let m = base + 3 * (n - 1);
        assert(fan.len() == 3 * (n - 1)) by {
            if n == 1 {
                assert(fan.len() == 0);
            }
        }
        assert(is[m] == closing[0]);
        assert(is[m + 1] == closing[1]);
        assert(is[m + 2] == closing[2]);
        assert(vs[first + 1 + (n - 1)] == rim@[n - 1]);
        assert(vs[first + 1 + 0] == rim@[0]);
    }
}

/// `Arc::ptr_eq`: true when both handles point to the same allocation. Trusted: handles to one
/// allocation hold the same image.
#[verifier::external_body]
pub(crate) fn same_allocation(a: &Arc<DecodedImage>, b: &Arc<DecodedImage>) -> (r: bool)
    ensures
        r ==> a == b,
{
    Arc::ptr_eq(a, b)
}

impl<G, S, D, I> TessellatingRenderBundle<G, S, D, I> {
    /// The free slots are inside their tables and the recorded ranges are not reversed.
    pub open spec fn wf(&self) -> bool {
        &&& forall|k: int|
            0 <= k < self.vacant_ids@.len() ==> #[trigger] self.vacant_ids@[k] < self.primitives@.len()
        &&& forall|k: int|
            0 <= k < self.vacant_image_ids@.len() ==> #[trigger] self.vacant_image_ids@[k]
                < self.images@.len()
        &&& forall|k: int|
            0 <= k < self.vacant_image_store_ids@.len() ==> #[trigger] self.vacant_image_store_ids@[k]
                < self.image_store@.len()
        &&& ranges_ordered(self.primitives@)
    }

    /// Every map-referenced primitive lies inside the polygon vertices, no two of them overlap,
    /// and every polygon index refers to a polygon vertex.
    pub open spec fn map_refs_valid(&self) -> bool {
        &&& self.poly_tessellation.indices_in_range()
        &&& self.poly_tessellation.vertices@.len() <= u32::MAX
        &&& map_ranges_valid(self.primitives@, self.poly_tessellation.vertices@.len() as int)
    }

    /// Creates an empty bundle.
    pub fn new() -> (r: Self)
        ensures
            r.wf(),
            r.poly_tessellation.vertices@.len() == 0,
            r.poly_tessellation.indices@.len() == 0,
            r.points@.len() == 0,
            r.screen_ref.vertices@.len() == 0,
            r.screen_ref.indices@.len() == 0,
            r.images@.len() == 0,
            r.clip_area is None,
            r.image_store@.len() == 0,
            r.primitives@.len() == 0,
            r.vacant_ids@.len() == 0,
            r.vacant_image_ids@.len() == 0,
            r.vacant_image_store_ids@.len() == 0,
            r.buffer_size == 0,
    {
        Self {
            poly_tessellation: VertexBuffers::new(),
            points: Vec::new(),
            screen_ref: VertexBuffers::new(),
            images: Vec::new(),
            primitives: Vec::new(),
            clip_area: None,
            image_store: Vec::new(),
            vacant_ids: Vec::new(),
            vacant_image_ids: Vec::new(),
            vacant_image_store_ids: Vec::new(),
            buffer_size: 0,
        }
    }

    /// Estimated size of the GPU buffers of the bundle, in bytes.
    pub fn approx_buffer_size(&self) -> (size: usize)
        ensures
            size == self.buffer_size,
    {
        self.buffer_size
    }

    /// Overrides the estimated size of the GPU buffers.
    pub fn set_approx_buffer_size(&mut self, size: usize)
        requires
            old(self).wf(),
        ensures
            final(self).wf(),
            final(self).buffer_size == size,
            final(self).same_contents(*old(self)),
    {
        self.buffer_size = size;
    }

    /// Everything but the buffer size estimate is the same in both bundles.
    pub open spec fn same_contents(&self, other: Self) -> bool {
        &&& self.poly_tessellation.vertices@ == other.poly_tessellation.vertices@
        &&& self.poly_tessellation.indices@ == other.poly_tessellation.indices@
        &&& self.points@ == other.points@
        &&& self.screen_ref.vertices@ == other.screen_ref.vertices@
        &&& self.screen_ref.indices@ == other.screen_ref.indices@
        &&& self.images@ == other.images@
        &&& self.clip_area == other.clip_area
        &&& self.image_store@ == other.image_store@
        &&& self.primitives@ == other.primitives@
        &&& self.vacant_ids@ == other.vacant_ids@
        &&& self.vacant_image_ids@ == other.vacant_image_ids@
        &&& self.vacant_image_store_ids@ == other.vacant_image_store_ids@
    }

    /// Sets the area the bundle is clipped to, from its tessellation.
    pub fn clip_area(&mut self, tessellation: VertexBuffers<PolyVertex<G>>)
        requires
            old(self).wf(),
            old(self).buffer_size + POLY_VERTEX_SIZE * tessellation.vertices@.len() + INDEX_SIZE
                * tessellation.indices@.len() <= usize::MAX,
        ensures
            final(self).wf(),
            final(self).buffer_size == old(self).buffer_size + POLY_VERTEX_SIZE
                * tessellation.vertices@.len() + INDEX_SIZE * tessellation.indices@.len(),
            final(self).clip_area == Some(tessellation),
            final(self).poly_tessellation.vertices@ == old(self).poly_tessellation.vertices@,
            final(self).poly_tessellation.indices@ == old(self).poly_tessellation.indices@,
            final(self).points@ == old(self).points@,
            final(self).screen_ref.vertices@ == old(self).screen_ref.vertices@,
            final(self).screen_ref.indices@ == old(self).screen_ref.indices@,
            final(self).images@ == old(self).images@,
            final(self).image_store@ == old(self).image_store@,
            final(self).primitives@ == old(self).primitives@,
    {
        self.buffer_size = self.buffer_size + tessellation.vertices.len() * POLY_VERTEX_SIZE
            + tessellation.indices.len() * INDEX_SIZE;
        self.clip_area = Some(tessellation);
    }

    fn add_primitive_info(&mut self, info: PrimitiveInfo) -> (id: PrimitiveId)
        requires
            old(self).wf(),
            ranges_ordered(seq![info]),
        ensures
            final(self).wf(),
            old(self).vacant_ids@.len() == 0 ==> {
                &&& id.spec_index() == old(self).primitives@.len()
                &&& final(self).primitives@ == old(self).primitives@.push(info)
                &&& final(self).vacant_ids@ == old(self).vacant_ids@
            },
            old(self).vacant_ids@.len() > 0 ==> {
                &&& id.spec_index() == old(self).vacant_ids@.last()
                &&& final(self).primitives@ == old(self).primitives@.update(id.spec_index() as int, info)
                &&& final(self).vacant_ids@ == old(self).vacant_ids@.drop_last()
            },
            final(self).poly_tessellation == old(self).poly_tessellation,
            final(self).points == old(self).points,
            final(self).screen_ref == old(self).screen_ref,
            final(self).images == old(self).images,
            final(self).clip_area == old(self).clip_area,
            final(self).image_store == old(self).image_store,
            final(self).vacant_image_ids == old(self).vacant_image_ids,
            final(self).vacant_image_store_ids == old(self).vacant_image_store_ids,
            final(self).buffer_size == old(self).buffer_size,
    {
        if let Some(id) = self.vacant_ids.pop() {
            proof {
                lemma_ranges_ordered_update(self.primitives@, id as int, info);
            }
            self.primitives.set(id, info);
            PrimitiveId::from_index(id)
        } else {
            let id = self.primitives.len();
            proof {
                lemma_ranges_ordered_push(self.primitives@, info);
            }
            self.primitives.push(info);
            PrimitiveId::from_index(id)
        }
    }

    /// Stores `image`, reusing the slot of an earlier handle to the same allocation if there is
    /// one, else a free slot, else a new slot at the end. Bitmaps are never released: a slot
    /// whose image was removed still holds it.
    fn add_image_to_store(&mut self, image: Arc<DecodedImage>) -> (index: usize)
        requires
            old(self).wf(),
        ensures
            final(self).wf(),
            index < final(self).image_store@.len(),
            final(self).image_store@[index as int] == ImageStoreInfo::Image(image),
            ({
                ||| final(self).image_store@ == old(self).image_store@
                    && final(self).vacant_image_store_ids@ == old(self).vacant_image_store_ids@
                ||| old(self).vacant_image_store_ids@.len() > 0
                    && index == old(self).vacant_image_store_ids@.last()
                    && final(self).image_store@ == old(self).image_store@.update(
                    index as int,
                    ImageStoreInfo::Image(image),
                ) && final(self).vacant_image_store_ids@
                    == old(self).vacant_image_store_ids@.drop_last()
                ||| old(self).vacant_image_store_ids@.len() == 0 && index == old(self).image_store@.len()
                    && final(self).image_store@ == old(self).image_store@.push(
                    ImageStoreInfo::Image(image),
                ) && final(self).vacant_image_store_ids@ == old(self).vacant_image_store_ids@
            }),
            final(self).poly_tessellation == old(self).poly_tessellation,
            final(self).points == old(self).points,
            final(self).screen_ref == old(self).screen_ref,
            final(self).images == old(self).images,
            final(self).clip_area == old(self).clip_area,
            final(self).primitives == old(self).primitives,
            final(self).vacant_ids == old(self).vacant_ids,
            final(self).vacant_image_ids == old(self).vacant_image_ids,
            final(self).buffer_size == old(self).buffer_size,
    {
        let mut i: usize = 0;
        while i < self.image_store.len()
            invariant
                i <= self.image_store@.len(),
                *self == *old(self),
                old(self).wf(),
            decreases self.image_store@.len() - i,
        {
            match &self.image_store[i] {
                ImageStoreInfo::Vacant => {},
                ImageStoreInfo::Image(stored) => {
                    if same_allocation(stored, &image) {
                        return i;
                    }
                },
            }
            i = i + 1;
        }
        if let Some(id) = self.vacant_image_store_ids.pop() {
            self.image_store.set(id, ImageStoreInfo::Image(image));
            id
        } else {
            let index = self.image_store.len();
            self.image_store.push(ImageStoreInfo::Image(image));
            index
        }
    }

    /// Puts a drawn image into a free slot of the image table, or a new slot at the end.
    fn add_image_info(&mut self, store_index: usize, vertices: [I; 4], opacity: u8) -> (index: usize)
        requires
            old(self).wf(),
        ensures
            final(self).wf(),
            old(self).vacant_image_ids@.len() == 0 ==> {
                &&& index == old(self).images@.len()
                &&& final(self).images@ == old(self).images@.push(
                    ImageInfo::Image { store_index, vertices, opacity },
                )
                &&& final(self).vacant_image_ids@ == old(self).vacant_image_ids@
            },
            old(self).vacant_image_ids@.len() > 0 ==> {
                &&& index == old(self).vacant_image_ids@.last()
                &&& final(self).images@ == old(self).images@.update(
                    index as int,
                    ImageInfo::Image { store_index, vertices, opacity },
                )
                &&& final(self).vacant_image_ids@ == old(self).vacant_image_ids@.drop_last()
            },
            final(self).poly_tessellation == old(self).poly_tessellation,
            final(self).points == old(self).points,
            final(self).screen_ref == old(self).screen_ref,
            final(self).clip_area == old(self).clip_area,
            final(self).image_store == old(self).image_store,
            final(self).primitives == old(self).primitives,
            final(self).vacant_ids == old(self).vacant_ids,
            final(self).vacant_image_store_ids == old(self).vacant_image_store_ids,
            final(self).buffer_size == old(self).buffer_size,
    {
        if let Some(id) = self.vacant_image_ids.pop() {
            self.images.set(id, ImageInfo::Image { store_index, vertices, opacity });
            id
        } else {
            let index = self.images.len();
            self.images.push(ImageInfo::Image { store_index, vertices, opacity });
            index
        }
    }

    /// Adds an image given by its four corners. The image is always given a new primitive id
    /// at the end of the primitive table.
    pub fn add_image(&mut self, image: DecodedImage, vertices: [I; 4], paint: ImagePaint) -> (id:
        PrimitiveId)
        requires
            old(self).wf(),
            old(self).buffer_size + image.bytes@.len() + IMAGE_VERTEX_SIZE * 4 <= usize::MAX,
        ensures
            final(self).wf(),
            final(self).buffer_size == old(self).buffer_size + image.bytes@.len() + IMAGE_VERTEX_SIZE
                * 4,
            id.spec_index() == old(self).primitives@.len(),
            old(self).image_placed(
                *final(self),
                final(self).primitives@.last(),
                Arc::new(image),
                vertices,
                paint.opacity,
            ),
            final(self).primitives@.drop_last() == old(self).primitives@,
            final(self).primitives@.len() == old(self).primitives@.len() + 1,
            final(self).vacant_ids == old(self).vacant_ids,
            final(self).poly_tessellation == old(self).poly_tessellation,
            final(self).points == old(self).points,
            final(self).screen_ref == old(self).screen_ref,
            final(self).clip_area == old(self).clip_area,
            final(self).map_refs_valid() == old(self).map_refs_valid(),
            final(self).images@.len() <= usize::MAX,
    {
        self.buffer_size = self.buffer_size + image.bytes.len() + IMAGE_VERTEX_SIZE * 4;
        let ghost stored = Arc::new(image);
        let index = self.add_image_to_store(Arc::new(image));
        let image_index = self.add_image_info(index, vertices, paint.opacity);
        let id = self.primitives.len();
        let ghost before = self.primitives@;
        proof {
            lemma_ranges_ordered_push(before, PrimitiveInfo::Image { image_index });
            lemma_ranges_push_other(
                before,
                PrimitiveInfo::Image { image_index },
                self.poly_tessellation.vertices@.len() as int,
            );
        }
        self.primitives.push(PrimitiveInfo::Image { image_index });
        proof {
            assert(self.images@ == placed(
                old(self).images@,
                old(self).vacant_image_ids@,
                ImageInfo::Image { store_index: index, vertices, opacity: paint.opacity },
            ));
            assert(self.image_store@[index as int] == ImageStoreInfo::Image(stored));
            assert(self.primitives@.drop_last() == old(self).primitives@);
        }
        vec_len_fits(&self.images);
        PrimitiveId::from_index(id)
    }


    /// Appends a tessellation to the polygon buffers and returns the range of its vertices.
    fn append_map_ref(&mut self, tessellation: VertexBuffers<PolyVertex<G>>) -> (range: Range<usize>)
        requires
            old(self).wf(),
            old(self).poly_tessellation.vertices@.len() + tessellation.vertices@.len() <= u32::MAX,
            tessellation.indices_in_range(),
            old(self).buffer_size + POLY_VERTEX_SIZE * tessellation.vertices@.len() + INDEX_SIZE
                * tessellation.indices@.len() <= usize::MAX,
        ensures
            final(self).wf(),
            range.start == old(self).poly_tessellation.vertices@.len(),
            range.end == final(self).poly_tessellation.vertices@.len(),
            final(self).poly_tessellation.vertices@ == old(self).poly_tessellation.vertices@
                + tessellation.vertices@,
            final(self).poly_tessellation.indices@ == old(self).poly_tessellation.indices@
                + offset_indices(
                tessellation.indices@,
                old(self).poly_tessellation.vertices@.len() as int,
            ),
            old(self).poly_tessellation.indices_in_range()
                ==> final(self).poly_tessellation.indices_in_range(),
            final(self).buffer_size == old(self).buffer_size + POLY_VERTEX_SIZE
                * tessellation.vertices@.len() + INDEX_SIZE * tessellation.indices@.len(),
            final(self).points == old(self).points,
            final(self).screen_ref == old(self).screen_ref,
            final(self).images == old(self).images,
            final(self).clip_area == old(self).clip_area,
            final(self).image_store == old(self).image_store,
            final(self).primitives == old(self).primitives,
            final(self).vacant_ids == old(self).vacant_ids,
            final(self).vacant_image_ids == old(self).vacant_image_ids,
            final(self).vacant_image_store_ids == old(self).vacant_image_store_ids,
    {
        let start_index = self.poly_tessellation.vertices.len();
        let start_index_count = self.poly_tessellation.indices.len();
        append_tessellation(&mut self.poly_tessellation, tessellation);
        let end_index = self.poly_tessellation.vertices.len();
        self.buffer_size = self.buffer_size + (end_index - start_index) * POLY_VERTEX_SIZE;
        self.buffer_size = self.buffer_size + (self.poly_tessellation.indices.len()
            - start_index_count) * INDEX_SIZE;
        start_index..end_index
    }

    proof fn lemma_new_map_ref_valid(
        old_bundle: Self,
        new_bundle: Self,
        info: PrimitiveInfo,
        id: PrimitiveId,
        a: int,
        b: int,
    )
        requires
            old_bundle.map_refs_valid(),
            new_bundle.poly_tessellation.indices_in_range(),
            new_bundle.poly_tessellation.vertices@.len() <= u32::MAX,
            old_bundle.poly_tessellation.vertices@.len() <= new_bundle.poly_tessellation.vertices@.len(),
            map_ref_range(info) == Some((a, b)),
            (a == 0 && b == 0) || (a == old_bundle.poly_tessellation.vertices@.len() && b
                == new_bundle.poly_tessellation.vertices@.len()),
            new_bundle.primitives@ == old_bundle.primitives@.push(info) || (id.spec_index()
                < old_bundle.primitives@.len() && new_bundle.primitives@
                == old_bundle.primitives@.update(id.spec_index() as int, info)),
        ensures
            new_bundle.map_refs_valid(),
    {
        let p = old_bundle.primitives@;
        let n = old_bundle.poly_tessellation.vertices@.len() as int;
        assert forall|i: int|
            0 <= i < p.len() implies ((#[trigger] map_ref_range(p[i])) matches Some((s, e)) ==> e
            <= a || b <= s) by {
            if let Some((s, e)) = map_ref_range(p[i]) {
                assert(0 <= s <= e <= n);
            }
        }
        lemma_ranges_add(p, info, n, new_bundle.poly_tessellation.vertices@.len() as int, a, b);
        if new_bundle.primitives@ != p.push(info) {
            assert(map_ranges_valid(p.update(id.spec_index() as int, info), new_bundle.poly_tessellation.vertices@.len() as int));
        }
    }

    /// Adds a line from its stroke tessellation; `None` (an empty line, or a tessellation that
    /// failed) adds a line with no vertices.
    pub fn add_line(&mut self, tessellation: Option<VertexBuffers<PolyVertex<G>>>) -> (id: PrimitiveId)
        requires
            old(self).wf(),
            tessellation matches Some(t) ==> {
                &&& old(self).poly_tessellation.vertices@.len() + t.vertices@.len() <= u32::MAX
                &&& t.indices_in_range()
                &&& old(self).buffer_size + POLY_VERTEX_SIZE * t.vertices@.len() + INDEX_SIZE
                    * t.indices@.len() <= usize::MAX
            },
        ensures
            final(self).wf(),
            tessellation is None ==> {
                &&& final(self).poly_tessellation == old(self).poly_tessellation
                &&& final(self).buffer_size == old(self).buffer_size
                &&& final(self).primitives@[id.spec_index() as int] == (PrimitiveInfo::MapRef {
                    vertex_range: 0..0,
                })
            },
            tessellation matches Some(t) ==> {
                &&& final(self).poly_tessellation.vertices@ == old(self).poly_tessellation.vertices@
                    + t.vertices@
                &&& final(self).poly_tessellation.indices@ == old(self).poly_tessellation.indices@
                    + offset_indices(t.indices@, old(self).poly_tessellation.vertices@.len() as int)
                &&& final(self).buffer_size == old(self).buffer_size + POLY_VERTEX_SIZE
                    * t.vertices@.len() + INDEX_SIZE * t.indices@.len()
                &&& final(self).primitives@[id.spec_index() as int] == (PrimitiveInfo::MapRef {
                    vertex_range: Range {
                        start: old(self).poly_tessellation.vertices@.len() as usize,
                        end: final(self).poly_tessellation.vertices@.len() as usize,
                    },
                })
            },
            old(self).vacant_ids@.len() == 0 ==> id.spec_index() == old(self).primitives@.len()
                && final(self).primitives@.len() == old(self).primitives@.len() + 1,
            old(self).vacant_ids@.len() > 0 ==> id.spec_index() == old(self).vacant_ids@.last()
                && final(self).primitives@ == old(self).primitives@.update(
                id.spec_index() as int,
                final(self).primitives@[id.spec_index() as int],
            ),
            final(self).primitives@ == old(self).primitives@.push(
                final(self).primitives@[id.spec_index() as int],
            ) || final(self).primitives@ == old(self).primitives@.update(
                id.spec_index() as int,
                final(self).primitives@[id.spec_index() as int],
            ),
            final(self).points == old(self).points,
            final(self).screen_ref == old(self).screen_ref,
            final(self).images == old(self).images,
            final(self).clip_area == old(self).clip_area,
            final(self).image_store == old(self).image_store,
            id.spec_index() == free_slot(old(self).primitives@.len() as int, old(self).vacant_ids@),
            final(self).primitives@ == placed(
                old(self).primitives@,
                old(self).vacant_ids@,
                final(self).primitives@[id.spec_index() as int],
            ),
            final(self).vacant_ids@ == released_slots(old(self).vacant_ids@),
            final(self).vacant_image_ids == old(self).vacant_image_ids,
            final(self).vacant_image_store_ids == old(self).vacant_image_store_ids,
            old(self).map_refs_valid() ==> final(self).map_refs_valid(),
    {
        let ghost before = *self;
        let range = match tessellation {
            Some(t) => self.append_map_ref(t),
            None => 0..0,
        };
        let ghost mid = *self;
        let info = PrimitiveInfo::MapRef { vertex_range: range };
        let id = self.add_primitive_info(info);
        proof {
            if before.map_refs_valid() {
                Self::lemma_new_map_ref_valid(
                    before,
                    *self,
                    PrimitiveInfo::MapRef { vertex_range: range },
                    id,
                    range.start as int,
                    range.end as int,
                );
            }
        }
        id
    }

    /// Adds a polygon from its fill tessellation.
    pub fn add_polygon(&mut self, tessellation: VertexBuffers<PolyVertex<G>>) -> (id: PrimitiveId)
        requires
            old(self).wf(),
            old(self).poly_tessellation.vertices@.len() + tessellation.vertices@.len() <= u32::MAX,
            tessellation.indices_in_range(),
            old(self).buffer_size + POLY_VERTEX_SIZE * tessellation.vertices@.len() + INDEX_SIZE
                * tessellation.indices@.len() <= usize::MAX,
        ensures
            final(self).wf(),
            final(self).poly_tessellation.vertices@ == old(self).poly_tessellation.vertices@
                + tessellation.vertices@,
            final(self).poly_tessellation.indices@ == old(self).poly_tessellation.indices@
                + offset_indices(
                tessellation.indices@,
                old(self).poly_tessellation.vertices@.len() as int,
            ),
            final(self).buffer_size == old(self).buffer_size + POLY_VERTEX_SIZE
                * tessellation.vertices@.len() + INDEX_SIZE * tessellation.indices@.len(),
            final(self).primitives@[id.spec_index() as int] == (PrimitiveInfo::MapRef {
                vertex_range: Range {
                    start: old(self).poly_tessellation.vertices@.len() as usize,
                    end: final(self).poly_tessellation.vertices@.len() as usize,
                },
            }),
            old(self).vacant_ids@.len() == 0 ==> id.spec_index() == old(self).primitives@.len()
                && final(self).primitives@.len() == old(self).primitives@.len() + 1,
            old(self).vacant_ids@.len() > 0 ==> id.spec_index() == old(self).vacant_ids@.last(),
            final(self).primitives@ == old(self).primitives@.push(
                final(self).primitives@[id.spec_index() as int],
            ) || final(self).primitives@ == old(self).primitives@.update(
                id.spec_index() as int,
                final(self).primitives@[id.spec_index() as int],
            ),
            final(self).points == old(self).points,
            final(self).screen_ref == old(self).screen_ref,
            final(self).images == old(self).images,
            final(self).clip_area == old(self).clip_area,
            final(self).image_store == old(self).image_store,
            id.spec_index() == free_slot(old(self).primitives@.len() as int, old(self).vacant_ids@),
            final(self).primitives@ == placed(
                old(self).primitives@,
                old(self).vacant_ids@,
                final(self).primitives@[id.spec_index() as int],
            ),
            final(self).vacant_ids@ == released_slots(old(self).vacant_ids@),
            final(self).vacant_image_ids == old(self).vacant_image_ids,
            final(self).vacant_image_store_ids == old(self).vacant_image_store_ids,
            old(self).map_refs_valid() ==> final(self).map_refs_valid(),
    {
        let ghost before = *self;
        let range = self.append_map_ref(tessellation);
        let info = PrimitiveInfo::MapRef { vertex_range: range };
        let id = self.add_primitive_info(info);
        proof {
            if before.map_refs_valid() {
                Self::lemma_new_map_ref_valid(
                    before,
                    *self,
                    PrimitiveInfo::MapRef { vertex_range: range },
                    id,
                    range.start as int,
                    range.end as int,
                );
            }
        }
        id
    }


    fn shift_map_refs(&mut self, end: usize, len: usize)
        requires
            old(self).wf(),
            len <= end,
        ensures
            final(self).wf(),
            final(self).primitives@ == shifted_map_refs(old(self).primitives@, end as int, len as int),
            final(self).poly_tessellation == old(self).poly_tessellation,
            final(self).points == old(self).points,
            final(self).screen_ref == old(self).screen_ref,
            final(self).images == old(self).images,
            final(self).clip_area == old(self).clip_area,
            final(self).image_store == old(self).image_store,
            final(self).vacant_ids == old(self).vacant_ids,
            final(self).vacant_image_ids == old(self).vacant_image_ids,
            final(self).vacant_image_store_ids == old(self).vacant_image_store_ids,
            final(self).buffer_size == old(self).buffer_size,
    {
        let n = self.primitives.len();
        let mut i: usize = 0;
        while i < n
            invariant
                n == self.primitives@.len(),
                n == old(self).primitives@.len(),
                i <= n,
                len <= end,
                old(self).wf(),
                self.wf(),
                forall|k: int| 0 <= k < i ==> self.primitives@[k] == shift_map_ref(old(self).primitives@[k], end as int, len as int),
                forall|k: int| i <= k < n ==> self.primitives@[k] == old(self).primitives@[k],
                self.poly_tessellation == old(self).poly_tessellation,
                self.points == old(self).points,
                self.screen_ref == old(self).screen_ref,
                self.images == old(self).images,
                self.clip_area == old(self).clip_area,
                self.image_store == old(self).image_store,
                self.vacant_ids == old(self).vacant_ids,
                self.vacant_image_ids == old(self).vacant_image_ids,
                self.vacant_image_store_ids == old(self).vacant_image_store_ids,
                self.buffer_size == old(self).buffer_size,
            decreases n - i,
        {
            let shifted: Option<PrimitiveInfo> = match &self.primitives[i] {
                PrimitiveInfo::MapRef { vertex_range } => {
                    if vertex_range.start >= end {
                        proof {
                            assert(map_ref_range(self.primitives@[i as int]) is Some);
                        }
                        Some(PrimitiveInfo::MapRef {
                            vertex_range: (vertex_range.start - len)..(vertex_range.end - len),
                        })
                    } else {
                        None
                    }
                },
                _ => None,
            };
            if let Some(info) = shifted {
                proof {
                    lemma_ranges_ordered_update(self.primitives@, i as int, info);
                }
                self.primitives.set(i, info);
            }
            i = i + 1;
        }
        proof {
            assert(self.primitives@ =~= shifted_map_refs(old(self).primitives@, end as int, len as int));
        }
    }

    fn shift_screen_refs(&mut self, end: usize, len: usize)
        requires
            old(self).wf(),
            len <= end,
        ensures
            final(self).wf(),
            final(self).primitives@ == shifted_screen_refs(old(self).primitives@, end as int, len as int),
            final(self).poly_tessellation == old(self).poly_tessellation,
            final(self).points == old(self).points,
            final(self).screen_ref == old(self).screen_ref,
            final(self).images == old(self).images,
            final(self).clip_area == old(self).clip_area,
            final(self).image_store == old(self).image_store,
            final(self).vacant_ids == old(self).vacant_ids,
            final(self).vacant_image_ids == old(self).vacant_image_ids,
            final(self).vacant_image_store_ids == old(self).vacant_image_store_ids,
            final(self).buffer_size == old(self).buffer_size,
    {
        let n = self.primitives.len();
        let mut i: usize = 0;
        while i < n
            invariant
                n == self.primitives@.len(),
                n == old(self).primitives@.len(),
                i <= n,
                len <= end,
                old(self).wf(),
                self.wf(),
                forall|k: int| 0 <= k < i ==> self.primitives@[k] == shift_screen_ref(old(self).primitives@[k], end as int, len as int),
                forall|k: int| i <= k < n ==> self.primitives@[k] == old(self).primitives@[k],
                self.poly_tessellation == old(self).poly_tessellation,
                self.points == old(self).points,
                self.screen_ref == old(self).screen_ref,
                self.images == old(self).images,
                self.clip_area == old(self).clip_area,
                self.image_store == old(self).image_store,
                self.vacant_ids == old(self).vacant_ids,
                self.vacant_image_ids == old(self).vacant_image_ids,
                self.vacant_image_store_ids == old(self).vacant_image_store_ids,
                self.buffer_size == old(self).buffer_size,
            decreases n - i,
        {
            let shifted: Option<PrimitiveInfo> = match &self.primitives[i] {
                PrimitiveInfo::ScreenRef { vertex_range } => {
                    if vertex_range.start >= end {
                        proof {
                            assert(screen_ref_range(self.primitives@[i as int]) is Some);
                            assert(map_ref_range(self.primitives@[i as int]) is None);
                        }
                        Some(PrimitiveInfo::ScreenRef {
                            vertex_range: (vertex_range.start - len)..(vertex_range.end - len),
                        })
                    } else {
                        None
                    }
                },
                _ => None,
            };
            if let Some(info) = shifted {
                proof {
                    lemma_ranges_ordered_update(self.primitives@, i as int, info);
                }
                self.primitives.set(i, info);
            }
            i = i + 1;
        }
        proof {
            assert(self.primitives@ =~= shifted_screen_refs(old(self).primitives@, end as int, len as int));
        }
    }

    fn shift_dots(&mut self, index: usize)
        requires
            old(self).wf(),
        ensures
            final(self).wf(),
            final(self).primitives@ == shifted_dots(old(self).primitives@, index as int),
            final(self).poly_tessellation == old(self).poly_tessellation,
            final(self).points == old(self).points,
            final(self).screen_ref == old(self).screen_ref,
            final(self).images == old(self).images,
            final(self).clip_area == old(self).clip_area,
            final(self).image_store == old(self).image_store,
            final(self).vacant_ids == old(self).vacant_ids,
            final(self).vacant_image_ids == old(self).vacant_image_ids,
            final(self).vacant_image_store_ids == old(self).vacant_image_store_ids,
            final(self).buffer_size == old(self).buffer_size,
    {
        let n = self.primitives.len();
        let mut i: usize = 0;
        while i < n
            invariant
                n == self.primitives@.len(),
                n == old(self).primitives@.len(),
                i <= n,
                old(self).wf(),
                self.wf(),
                forall|k: int| 0 <= k < i ==> self.primitives@[k] == shift_dot(old(self).primitives@[k], index as int),
                forall|k: int| i <= k < n ==> self.primitives@[k] == old(self).primitives@[k],
                self.poly_tessellation == old(self).poly_tessellation,
                self.points == old(self).points,
                self.screen_ref == old(self).screen_ref,
                self.images == old(self).images,
                self.clip_area == old(self).clip_area,
                self.image_store == old(self).image_store,
                self.vacant_ids == old(self).vacant_ids,
                self.vacant_image_ids == old(self).vacant_image_ids,
                self.vacant_image_store_ids == old(self).vacant_image_store_ids,
                self.buffer_size == old(self).buffer_size,
            decreases n - i,
        {
            let shifted: Option<usize> = match &self.primitives[i] {
                PrimitiveInfo::Dot { point_index } => {
                    if *point_index > index {
                        Some(*point_index - 1)
                    } else {
                        None
                    }
                },
                _ => None,
            };
            if let Some(point_index) = shifted {
                proof {
                    lemma_ranges_ordered_update(self.primitives@, i as int, PrimitiveInfo::Dot { point_index });
                }
                self.primitives.set(i, PrimitiveInfo::Dot { point_index });
            }
            i = i + 1;
        }
        proof {
            assert(self.primitives@ =~= shifted_dots(old(self).primitives@, index as int));
        }
    }


    /// The primitive table with slot `id` freed.
    pub open spec fn cleared(self, id: int) -> Seq<PrimitiveInfo> {
        self.primitives@.update(id, PrimitiveInfo::Vacant)
    }

    /// Removing primitive `id` does not panic: the cut of its vertices stays within the index
    /// arithmetic and the buffer size estimate does not go below zero.
    pub open spec fn remove_defined(self, id: PrimitiveId) -> bool {
        id.spec_index() < self.primitives@.len() ==> match self.primitives@[id.spec_index() as int] {
            PrimitiveInfo::MapRef { vertex_range } => cut_defined(
                self.poly_tessellation.vertices@.len() as int,
                self.poly_tessellation.indices@,
                vertex_range.start as int,
                vertex_range.end as int,
                POLY_VERTEX_SIZE as int,
                self.buffer_size as int,
            ),
            PrimitiveInfo::ScreenRef { vertex_range } => cut_defined(
                self.screen_ref.vertices@.len() as int,
                self.screen_ref.indices@,
                vertex_range.start as int,
                vertex_range.end as int,
                SCREEN_REF_VERTEX_SIZE as int,
                self.buffer_size as int,
            ),
            PrimitiveInfo::Dot { point_index } => point_index < self.points@.len() ==> POINT_INSTANCE_SIZE
                <= self.buffer_size,
            _ => true,
        }
    }

    /// `new` is `self` after removing map-referenced vertices `s..e` of primitive `id`.
    pub open spec fn map_ref_removed(self, new: Self, id: int, s: int, e: int, res: Result<(), GalileoError>) -> bool {
        &&& new.points == self.points
        &&& new.screen_ref == self.screen_ref
        &&& new.images == self.images
        &&& new.clip_area == self.clip_area
        &&& new.image_store == self.image_store
        &&& new.vacant_ids == self.vacant_ids
        &&& new.vacant_image_ids == self.vacant_image_ids
        &&& new.vacant_image_store_ids == self.vacant_image_store_ids
        &&& if s < e && e > self.poly_tessellation.vertices@.len() {
            &&& is_generic_error(res, "range out of bounds"@)
            &&& new.primitives@ == self.cleared(id)
            &&& new.poly_tessellation.vertices@ == self.poly_tessellation.vertices@
            &&& new.poly_tessellation.indices@ == self.poly_tessellation.indices@
            &&& new.buffer_size == self.buffer_size
        } else {
            &&& res is Ok
            &&& new.primitives@ == shifted_map_refs(self.cleared(id), e, range_len(s, e))
            &&& new.poly_tessellation.vertices@ == if s < e {
                cut_vertices(self.poly_tessellation.vertices@, s, e)
            } else {
                self.poly_tessellation.vertices@
            }
            &&& new.poly_tessellation.indices@ == if s < e {
                compact_indices(self.poly_tessellation.indices@, s, e)
            } else {
                self.poly_tessellation.indices@
            }
            &&& new.buffer_size == self.buffer_size - POLY_VERTEX_SIZE * range_len(s, e) - INDEX_SIZE
                * dropped_indices(self.poly_tessellation.indices@, s, e)
        }
    }

    /// `new` is `self` after removing screen-referenced range `s..e` of primitive `id`.
    pub open spec fn screen_ref_removed(self, new: Self, id: int, s: int, e: int, res: Result<(), GalileoError>) -> bool {
        &&& new.points == self.points
        &&& new.poly_tessellation == self.poly_tessellation
        &&& new.images == self.images
        &&& new.clip_area == self.clip_area
        &&& new.image_store == self.image_store
        &&& new.vacant_ids == self.vacant_ids
        &&& new.vacant_image_ids == self.vacant_image_ids
        &&& new.vacant_image_store_ids == self.vacant_image_store_ids
        &&& if s < e && e > self.screen_ref.vertices@.len() {
            &&& is_generic_error(res, "range out of bounds"@)
            &&& new.primitives@ == self.cleared(id)
            &&& new.screen_ref.vertices@ == self.screen_ref.vertices@
            &&& new.screen_ref.indices@ == self.screen_ref.indices@
            &&& new.buffer_size == self.buffer_size
        } else {
            &&& res is Ok
            &&& new.primitives@ == shifted_screen_refs(self.cleared(id), e, range_len(s, e))
            &&& new.screen_ref.vertices@ == if s < e {
                cut_vertices(self.screen_ref.vertices@, s, e)
            } else {
                self.screen_ref.vertices@
            }
            &&& new.screen_ref.indices@ == if s < e {
                compact_indices(self.screen_ref.indices@, s, e)
            } else {
                self.screen_ref.indices@
            }
            &&& new.buffer_size == self.buffer_size - SCREEN_REF_VERTEX_SIZE * range_len(s, e)
                - INDEX_SIZE * dropped_indices(self.screen_ref.indices@, s, e)
        }
    }

    /// `new` is `self` after removing dot `k` of primitive `id`.
    pub open spec fn dot_removed(self, new: Self, id: int, k: int, res: Result<(), GalileoError>) -> bool {
        &&& new.poly_tessellation == self.poly_tessellation
        &&& new.screen_ref == self.screen_ref
        &&& new.images == self.images
        &&& new.clip_area == self.clip_area
        &&& new.image_store == self.image_store
        &&& new.vacant_ids == self.vacant_ids
        &&& new.vacant_image_ids == self.vacant_image_ids
        &&& new.vacant_image_store_ids == self.vacant_image_store_ids
        &&& if k >= self.points@.len() {
            &&& is_generic_error(res, "index out of bounds"@)
            &&& new.primitives@ == self.cleared(id)
            &&& new.points@ == self.points@
            &&& new.buffer_size == self.buffer_size
        } else {
            &&& res is Ok
            &&& new.points@ == self.points@.remove(k)
            &&& new.primitives@ == shifted_dots(self.cleared(id), k)
            &&& new.buffer_size == self.buffer_size - POINT_INSTANCE_SIZE
        }
    }

    /// `new` is `self` after removing drawn image `k` of primitive `id`. The bitmap stays in the
    /// store, and dot indices above `k` move down by one.
    pub open spec fn image_removed(self, new: Self, id: int, k: int, res: Result<(), GalileoError>) -> bool {
        &&& new.poly_tessellation == self.poly_tessellation
        &&& new.screen_ref == self.screen_ref
        &&& new.points == self.points
        &&& new.clip_area == self.clip_area
        &&& new.image_store == self.image_store
        &&& new.vacant_ids == self.vacant_ids
        &&& new.vacant_image_store_ids == self.vacant_image_store_ids
        &&& new.buffer_size == self.buffer_size
        &&& if k >= self.images@.len() {
            &&& is_generic_error(res, "index out of bounds"@)
            &&& new.primitives@ == self.cleared(id)
            &&& new.images@ == self.images@
            &&& new.vacant_image_ids == self.vacant_image_ids
        } else if self.images@[k] is Vacant {
            &&& is_generic_error(res, "tried to replace vacant image with vacant slot"@)
            &&& new.primitives@ == self.cleared(id)
            &&& new.images@ == self.images@
            &&& new.vacant_image_ids == self.vacant_image_ids
        } else {
            &&& res is Ok
            &&& new.images@ == self.images@.update(k, ImageInfo::Vacant)
            &&& new.vacant_image_ids@ == self.vacant_image_ids@.push(k as usize)
            &&& new.primitives@ == shifted_dots(self.cleared(id), k)
        }
    }

    fn remove_map_ref(&mut self, range: Range<usize>) -> (res: Result<(), GalileoError>)
        requires
            old(self).wf(),
            cut_defined(
                old(self).poly_tessellation.vertices@.len() as int,
                old(self).poly_tessellation.indices@,
                range.start as int,
                range.end as int,
                POLY_VERTEX_SIZE as int,
                old(self).buffer_size as int,
            ),
        ensures
            final(self).wf(),
            final(self).points == old(self).points,
            final(self).screen_ref == old(self).screen_ref,
            final(self).images == old(self).images,
            final(self).clip_area == old(self).clip_area,
            final(self).image_store == old(self).image_store,
            final(self).vacant_ids == old(self).vacant_ids,
            final(self).vacant_image_ids == old(self).vacant_image_ids,
            final(self).vacant_image_store_ids == old(self).vacant_image_store_ids,
            range.start < range.end && range.end > old(self).poly_tessellation.vertices@.len() ==> {
                &&& is_generic_error(res, "range out of bounds"@)
                &&& final(self).primitives@ == old(self).primitives@
                &&& final(self).poly_tessellation.vertices@ == old(self).poly_tessellation.vertices@
                &&& final(self).poly_tessellation.indices@ == old(self).poly_tessellation.indices@
                &&& final(self).buffer_size == old(self).buffer_size
            },
            !(range.start < range.end && range.end > old(self).poly_tessellation.vertices@.len()) ==> {
                &&& res is Ok
                &&& final(self).primitives@ == shifted_map_refs(
                    old(self).primitives@,
                    range.end as int,
                    range_len(range.start as int, range.end as int),
                )
                &&& final(self).poly_tessellation.vertices@ == if range.start < range.end {
                    cut_vertices(old(self).poly_tessellation.vertices@, range.start as int, range.end as int)
                } else {
                    old(self).poly_tessellation.vertices@
                }
                &&& final(self).poly_tessellation.indices@ == if range.start < range.end {
                    compact_indices(old(self).poly_tessellation.indices@, range.start as int, range.end as int)
                } else {
                    old(self).poly_tessellation.indices@
                }
                &&& final(self).buffer_size == old(self).buffer_size - POLY_VERTEX_SIZE * range_len(
                    range.start as int,
                    range.end as int,
                ) - INDEX_SIZE * dropped_indices(
                    old(self).poly_tessellation.indices@,
                    range.start as int,
                    range.end as int,
                )
            },
            old(self).poly_tessellation.indices_in_range()
                ==> final(self).poly_tessellation.indices_in_range(),
    {
        let removed_index_count = remove_from_tessellation(
            &mut self.poly_tessellation,
            range.start..range.end,
        )?;
        let len: usize = if range.start < range.end {
            range.end - range.start
        } else {
            0
        };
        proof {
            if range.start < range.end {
                assert(removed_index_count == dropped_indices(
                    old(self).poly_tessellation.indices@,
                    range.start as int,
                    range.end as int,
                ));
            } else {
                assert(removed_index_count == 0);
            }
        }
        assert(POLY_VERTEX_SIZE * len + INDEX_SIZE * removed_index_count <= self.buffer_size);
        self.buffer_size = self.buffer_size - (POLY_VERTEX_SIZE * len + INDEX_SIZE
            * removed_index_count);
        self.shift_map_refs(range.end, len);
        Ok(())
    }

    fn remove_screen_ref(&mut self, range: Range<usize>) -> (res: Result<(), GalileoError>)
        requires
            old(self).wf(),
            cut_defined(
                old(self).screen_ref.vertices@.len() as int,
                old(self).screen_ref.indices@,
                range.start as int,
                range.end as int,
                SCREEN_REF_VERTEX_SIZE as int,
                old(self).buffer_size as int,
            ),
        ensures
            final(self).wf(),
            final(self).points == old(self).points,
            final(self).poly_tessellation == old(self).poly_tessellation,
            final(self).images == old(self).images,
            final(self).clip_area == old(self).clip_area,
            final(self).image_store == old(self).image_store,
            final(self).vacant_ids == old(self).vacant_ids,
            final(self).vacant_image_ids == old(self).vacant_image_ids,
            final(self).vacant_image_store_ids == old(self).vacant_image_store_ids,
            range.start < range.end && range.end > old(self).screen_ref.vertices@.len() ==> {
                &&& is_generic_error(res, "range out of bounds"@)
                &&& final(self).primitives@ == old(self).primitives@
                &&& final(self).screen_ref.vertices@ == old(self).screen_ref.vertices@
                &&& final(self).screen_ref.indices@ == old(self).screen_ref.indices@
                &&& final(self).buffer_size == old(self).buffer_size
            },
            !(range.start < range.end && range.end > old(self).screen_ref.vertices@.len()) ==> {
                &&& res is Ok
                &&& final(self).primitives@ == shifted_screen_refs(
                    old(self).primitives@,
                    range.end as int,
                    range_len(range.start as int, range.end as int),
                )
                &&& final(self).screen_ref.vertices@ == if range.start < range.end {
                    cut_vertices(old(self).screen_ref.vertices@, range.start as int, range.end as int)
                } else {
                    old(self).screen_ref.vertices@
                }
                &&& final(self).screen_ref.indices@ == if range.start < range.end {
                    compact_indices(old(self).screen_ref.indices@, range.start as int, range.end as int)
                } else {
                    old(self).screen_ref.indices@
                }
                &&& final(self).buffer_size == old(self).buffer_size - SCREEN_REF_VERTEX_SIZE * range_len(
                    range.start as int,
                    range.end as int,
                ) - INDEX_SIZE * dropped_indices(
                    old(self).screen_ref.indices@,
                    range.start as int,
                    range.end as int,
                )
            },
            old(self).screen_ref.indices_in_range()
                ==> final(self).screen_ref.indices_in_range(),
    {
        let removed_index_count = remove_from_tessellation(
            &mut self.screen_ref,
            range.start..range.end,
        )?;
        let len: usize = if range.start < range.end {
            range.end - range.start
        } else {
            0
        };
        proof {
            if range.start < range.end {
                assert(removed_index_count == dropped_indices(
                    old(self).screen_ref.indices@,
                    range.start as int,
                    range.end as int,
                ));
            } else {
                assert(removed_index_count == 0);
            }
        }
        assert(SCREEN_REF_VERTEX_SIZE * len + INDEX_SIZE * removed_index_count <= self.buffer_size);
        self.buffer_size = self.buffer_size - (SCREEN_REF_VERTEX_SIZE * len + INDEX_SIZE
            * removed_index_count);
        self.shift_screen_refs(range.end, len);
        Ok(())
    }

    fn remove_dot(&mut self, index: usize) -> (res: Result<(), GalileoError>)
        requires
            old(self).wf(),
            index < old(self).points@.len() ==> POINT_INSTANCE_SIZE <= old(self).buffer_size,
        ensures
            final(self).wf(),
            final(self).poly_tessellation == old(self).poly_tessellation,
            final(self).screen_ref == old(self).screen_ref,
            final(self).images == old(self).images,
            final(self).clip_area == old(self).clip_area,
            final(self).image_store == old(self).image_store,
            final(self).vacant_ids == old(self).vacant_ids,
            final(self).vacant_image_ids == old(self).vacant_image_ids,
            final(self).vacant_image_store_ids == old(self).vacant_image_store_ids,
            index >= old(self).points@.len() ==> {
                &&& is_generic_error(res, "index out of bounds"@)
                &&& final(self).primitives@ == old(self).primitives@
                &&& final(self).points@ == old(self).points@
                &&& final(self).buffer_size == old(self).buffer_size
            },
            index < old(self).points@.len() ==> {
                &&& res is Ok
                &&& final(self).points@ == old(self).points@.remove(index as int)
                &&& final(self).primitives@ == shifted_dots(old(self).primitives@, index as int)
                &&& final(self).buffer_size == old(self).buffer_size - POINT_INSTANCE_SIZE
            },
    {
        if index >= self.points.len() {
            Err(GalileoError::Generic("index out of bounds".to_string()))
        } else {
            self.points.remove(index);
            self.buffer_size = self.buffer_size - POINT_INSTANCE_SIZE;
            self.shift_dots(index);
            Ok(())
        }
    }

    fn remove_image(&mut self, index: usize) -> (res: Result<(), GalileoError>)
        requires
            old(self).wf(),
        ensures
            final(self).wf(),
            final(self).poly_tessellation == old(self).poly_tessellation,
            final(self).screen_ref == old(self).screen_ref,
            final(self).points == old(self).points,
            final(self).clip_area == old(self).clip_area,
            final(self).image_store == old(self).image_store,
            final(self).vacant_ids == old(self).vacant_ids,
            final(self).vacant_image_store_ids == old(self).vacant_image_store_ids,
            final(self).buffer_size == old(self).buffer_size,
            index >= old(self).images@.len() ==> {
                &&& is_generic_error(res, "index out of bounds"@)
                &&& final(self).primitives@ == old(self).primitives@
                &&& final(self).images@ == old(self).images@
                &&& final(self).vacant_image_ids == old(self).vacant_image_ids
            },
            index < old(self).images@.len() && old(self).images@[index as int] is Vacant ==> {
                &&& is_generic_error(res, "tried to replace vacant image with vacant slot"@)
                &&& final(self).primitives@ == old(self).primitives@
                &&& final(self).images@ == old(self).images@
                &&& final(self).vacant_image_ids == old(self).vacant_image_ids
            },
            index < old(self).images@.len() && old(self).images@[index as int] is Image ==> {
                &&& res is Ok
                &&& final(self).images@ == old(self).images@.update(index as int, ImageInfo::Vacant)
                &&& final(self).vacant_image_ids@ == old(self).vacant_image_ids@.push(index)
                &&& final(self).primitives@ == shifted_dots(old(self).primitives@, index as int)
            },
    {
        if index >= self.images.len() {
            return Err(GalileoError::Generic("index out of bounds".to_string()));
        }
        let previous: Option<usize> = match &self.images[index] {
            ImageInfo::Vacant => None,
            ImageInfo::Image { store_index, .. } => Some(*store_index),
        };
        self.images.set(index, ImageInfo::Vacant);
        let image_id = match previous {
            None => {
                proof {
                    assert(self.images@ =~= old(self).images@);
                }
                return Err(
                    GalileoError::Generic("tried to replace vacant image with vacant slot".to_string()),
                );
            },
            Some(image_id) => {
                self.vacant_image_ids.push(index);
                image_id
            },
        };

        let mut stored_image_unused = true;
        let mut j: usize = 0;
        while j < self.images.len()
            invariant
                j <= self.images@.len(),
                index < self.images@.len(),
                self.images@[index as int] is Vacant,
                j > index ==> !stored_image_unused,
            decreases self.images@.len() - j,
        {
            match &self.images[j] {
                ImageInfo::Vacant => {
                    stored_image_unused = false;
                },
                ImageInfo::Image { store_index, .. } => {
                    if *store_index == image_id {
                        stored_image_unused = false;
                    }
                },
            }
            j = j + 1;
        }

        if stored_image_unused {
            // The slot of the removed image is vacant now, so the scan above always finds a
            // vacant slot and the bitmap is never released here.
            let released: bool = match &self.image_store[image_id] {
                ImageStoreInfo::Vacant => false,
                ImageStoreInfo::Image(_) => true,
            };
            if released {
                let size = match &self.image_store[image_id] {
                    ImageStoreInfo::Vacant => 0,
                    ImageStoreInfo::Image(image) => image.bytes.len(),
                };
                self.image_store.set(image_id, ImageStoreInfo::Vacant);
                self.vacant_image_store_ids.push(image_id);
                self.buffer_size = self.buffer_size - (size + IMAGE_VERTEX_SIZE * 4);
            }
        }

        self.shift_dots(index);
        Ok(())
    }


    /// `new` is this bundle after primitive `id` was removed, with result `res`: an id past the
    /// end of the table is refused and changes nothing; otherwise the slot becomes vacant and the
    /// primitive's data is cut out of its buffer (see the `*_removed` relations).
    pub open spec fn removed(self, new: Self, id: PrimitiveId, res: Result<(), GalileoError>) -> bool {
        &&& id.spec_index() >= self.primitives@.len() ==> {
            &&& is_generic_error(res, "no primitive with the given id"@)
            &&& new == self
        }
        &&& id.spec_index() < self.primitives@.len() ==> match self.primitives@[id.spec_index() as int] {
            PrimitiveInfo::MapRef { vertex_range } => self.map_ref_removed(
                new,
                id.spec_index() as int,
                vertex_range.start as int,
                vertex_range.end as int,
                res,
            ),
            PrimitiveInfo::ScreenRef { vertex_range } => self.screen_ref_removed(
                new,
                id.spec_index() as int,
                vertex_range.start as int,
                vertex_range.end as int,
                res,
            ),
            PrimitiveInfo::Dot { point_index } => self.dot_removed(
                new,
                id.spec_index() as int,
                point_index as int,
                res,
            ),
            PrimitiveInfo::Image { image_index } => self.image_removed(
                new,
                id.spec_index() as int,
                image_index as int,
                res,
            ),
            _ => {
                &&& res is Ok
                &&& new.primitives@ == self.cleared(id.spec_index() as int)
                &&& new.same_contents_except_primitives(self)
                &&& new.buffer_size == self.buffer_size
            },
        }
    }

    /// Removes a primitive. Its slot in the primitive table becomes vacant (it is not reused by
    /// later additions), and its data is cut out of the buffers it was stored in; the positions
    /// recorded for the other primitives are moved accordingly.
    ///
    /// Three details of this bookkeeping are kept as they are: removing an image moves down the
    /// index of every dot above the image's index (as if a dot had been removed); the bitmap of
    /// a removed image stays in the image store; and a shaped label records the range of its
    /// indices, which removal cuts as a range of vertices (see the `removal` module).
    pub fn remove(&mut self, primitive_id: PrimitiveId) -> (res: Result<(), GalileoError>)
        requires
            old(self).wf(),
            old(self).remove_defined(primitive_id),
        ensures
            final(self).wf(),
            old(self).removed(*final(self), primitive_id, res),
            final(self).vacant_ids == old(self).vacant_ids,
            old(self).map_refs_valid() ==> final(self).map_refs_valid(),
    {
        let id = primitive_id.index();
        if id >= self.primitives.len() {
            return Err(GalileoError::Generic("no primitive with the given id".to_string()));
        }
        let info = self.primitives[id].duplicate();
        let ghost p0 = self.primitives@;
        let ghost n0 = self.poly_tessellation.vertices@.len() as int;
        proof {
            lemma_ranges_ordered_update(self.primitives@, id as int, PrimitiveInfo::Vacant);
            lemma_ranges_update_other(self.primitives@, id as int, PrimitiveInfo::Vacant, n0);
        }
        self.primitives.set(id, PrimitiveInfo::Vacant);
        let ghost p1 = self.primitives@;
        let res = match info {
            PrimitiveInfo::MapRef { vertex_range } => {
                proof {
                    if old(self).map_refs_valid() && vertex_range.start <= vertex_range.end
                        && vertex_range.end <= n0 {
                        assert forall|i: int|
                            0 <= i < p1.len() implies ((#[trigger] map_ref_range(p1[i])) matches Some(
                            (a, b),
                        ) ==> b <= vertex_range.start || vertex_range.end <= a) by {
                            if i != id {
                                assert(p1[i] == p0[i]);
                                assert(map_ref_range(p0[id as int]) == Some(
                                    (vertex_range.start as int, vertex_range.end as int),
                                ));
                            }
                        }
                        lemma_shift_map_refs_valid(
                            p1,
                            n0,
                            vertex_range.start as int,
                            vertex_range.end as int,
                        );
                    }
                }
                self.remove_map_ref(vertex_range)
            },
            PrimitiveInfo::ScreenRef { vertex_range } => {
                proof {
                    lemma_shift_other_keeps_map_refs(
                        p1,
                        n0,
                        vertex_range.end as int,
                        range_len(vertex_range.start as int, vertex_range.end as int),
                        0,
                    );
                }
                self.remove_screen_ref(vertex_range)
            },
            PrimitiveInfo::Dot { point_index } => {
                proof {
                    lemma_shift_other_keeps_map_refs(p1, n0, 0, 0, point_index as int);
                }
                self.remove_dot(point_index)
            },
            PrimitiveInfo::Image { image_index } => {
                proof {
                    lemma_shift_other_keeps_map_refs(p1, n0, 0, 0, image_index as int);
                }
                self.remove_image(image_index)
            },
            PrimitiveInfo::Vacant => Ok(()),
            PrimitiveInfo::NoData => Ok(()),
        };
        res
    }

    /// Everything but the primitive table and the buffer size estimate is the same in both
    /// bundles.
    pub open spec fn same_contents_except_primitives(&self, other: Self) -> bool {
        &&& self.poly_tessellation == other.poly_tessellation
        &&& self.points == other.points
        &&& self.screen_ref == other.screen_ref
        &&& self.images == other.images
        &&& self.clip_area == other.clip_area
        &&& self.image_store == other.image_store
        &&& self.vacant_ids == other.vacant_ids
        &&& self.vacant_image_ids == other.vacant_image_ids
        &&& self.vacant_image_store_ids == other.vacant_image_store_ids
    }


    fn update_map_ref(&mut self, range: Range<usize>, paint: PrimitivePaint) -> (res: Result<(), GalileoError>)
        requires
            paint_color(paint) is Some ==> range.start <= range.end <= old(self).poly_tessellation.vertices@.len(),
        ensures
            paint_color(paint) is None ==> is_generic_error(
                res,
                "expected line or polygon primitive, but got a point"@,
            ) && *final(self) == *old(self),
            paint_color(paint) matches Some(c) ==> {
                &&& res is Ok
                &&& final(self).poly_tessellation.vertices@ == recolored(
                    old(self).poly_tessellation.vertices@,
                    range.start as int,
                    range.end as int,
                    c,
                )
                &&& final(self).poly_tessellation.indices == old(self).poly_tessellation.indices
                &&& final(self).points == old(self).points
                &&& final(self).screen_ref == old(self).screen_ref
                &&& final(self).images == old(self).images
                &&& final(self).clip_area == old(self).clip_area
                &&& final(self).image_store == old(self).image_store
                &&& final(self).primitives == old(self).primitives
                &&& final(self).vacant_ids == old(self).vacant_ids
                &&& final(self).vacant_image_ids == old(self).vacant_image_ids
                &&& final(self).vacant_image_store_ids == old(self).vacant_image_store_ids
                &&& final(self).buffer_size == old(self).buffer_size
            },
    {
        let color = match paint {
            PrimitivePaint::Contour(color) => color,
            PrimitivePaint::Polygon(color) => color,
            PrimitivePaint::Point => {
                return Err(
                    GalileoError::Generic(
                        "expected line or polygon primitive, but got a point".to_string(),
                    ),
                );
            },
        };
        let mut k: usize = range.start;
        while k < range.end
            invariant
                range.start <= k <= range.end,
                range.end <= self.poly_tessellation.vertices@.len(),
                self.poly_tessellation.vertices@.len() == old(self).poly_tessellation.vertices@.len(),
                forall|j: int|
                    0 <= j < self.poly_tessellation.vertices@.len() ==> #[trigger] self.poly_tessellation.vertices@[j]
                        == if range.start <= j < k {
                        PolyVertex { geometry: old(self).poly_tessellation.vertices@[j].geometry, color }
                    } else {
                        old(self).poly_tessellation.vertices@[j]
                    },
                self.poly_tessellation.indices == old(self).poly_tessellation.indices,
                self.points == old(self).points,
                self.screen_ref == old(self).screen_ref,
                self.images == old(self).images,
                self.clip_area == old(self).clip_area,
                self.image_store == old(self).image_store,
                self.primitives == old(self).primitives,
                self.vacant_ids == old(self).vacant_ids,
                self.vacant_image_ids == old(self).vacant_image_ids,
                self.vacant_image_store_ids == old(self).vacant_image_store_ids,
                self.buffer_size == old(self).buffer_size,
            decreases range.end - k,
        {
            self.poly_tessellation.vertices[k].color = color;
            k = k + 1;
        }
        proof {
            assert(self.poly_tessellation.vertices@ =~= recolored(
                old(self).poly_tessellation.vertices@,
                range.start as int,
                range.end as int,
                color,
            ));
        }
        Ok(())
    }

    /// Updating primitive `id` with `paint` does not panic: an existing primitive is a vacant slot
    /// or a line or polygon, and a line or polygon recolored by a line or polygon paint lies
    /// inside the polygon vertices.
    pub open spec fn update_defined(self, id: PrimitiveId, paint: PrimitivePaint) -> bool {
        id.spec_index() < self.primitives@.len() ==> match self.primitives@[id.spec_index() as int] {
            PrimitiveInfo::MapRef { vertex_range } => paint_color(paint) is Some ==> vertex_range.start
                <= vertex_range.end <= self.poly_tessellation.vertices@.len(),
            PrimitiveInfo::Vacant => true,
            _ => false,
        }
    }

    /// `new` is this bundle after primitive `id` was updated with `paint`, with result `res`: an
    /// id past the end of the table is refused; a line or polygon gets the paint's color on the
    /// vertices of its range (a point paint is refused for it); other primitives are left as
    /// they are.
    pub open spec fn updated(
        self,
        new: Self,
        id: PrimitiveId,
        paint: PrimitivePaint,
        res: Result<(), GalileoError>,
    ) -> bool {
        &&& (id.spec_index() >= self.primitives@.len() ==> is_generic_error(
            res,
            "no primitive with the given id"@,
        ) && new == self)
        &&& id.spec_index() < self.primitives@.len() ==> match self.primitives@[id.spec_index() as int] {
            PrimitiveInfo::MapRef { vertex_range } => match paint_color(paint) {
                None => is_generic_error(
                    res,
                    "expected line or polygon primitive, but got a point"@,
                ) && new == self,
                Some(c) => res is Ok && new.poly_tessellation.vertices@ == recolored(
                    self.poly_tessellation.vertices@,
                    vertex_range.start as int,
                    vertex_range.end as int,
                    c,
                ) && new.poly_tessellation.indices == self.poly_tessellation.indices
                    && new.primitives == self.primitives
                    && new.buffer_size == self.buffer_size,
            },
            _ => res is Ok && new == self,
        }
    }

    /// Updating a line or polygon with a color recolors exactly the vertices of its recorded
    /// range: they keep their geometry and take the color, and every other vertex, the indices
    /// and the primitive table are unchanged. The premise is what `update` ensures.
    pub proof fn lemma_update_recolors_only_its_range(
        self,
        id: PrimitiveId,
        paint: PrimitivePaint,
        new: Self,
        res: Result<(), GalileoError>,
        color: Color,
    )
        requires
            self.updated(new, id, paint, res),
            id.spec_index() < self.primitives@.len(),
            self.primitives@[id.spec_index() as int] is MapRef,
            paint_color(paint) == Some(color),
        ensures
            res is Ok,
            new.poly_tessellation.vertices@.len() == self.poly_tessellation.vertices@.len(),
            new.poly_tessellation.indices == self.poly_tessellation.indices,
            new.primitives == self.primitives,
            self.primitives@[id.spec_index() as int] matches PrimitiveInfo::MapRef { vertex_range }
                ==> forall|k: int|
                0 <= k < self.poly_tessellation.vertices@.len() ==> if vertex_range.start <= k
                    < vertex_range.end {
                    &&& (#[trigger] new.poly_tessellation.vertices@[k]).color == color
                    &&& new.poly_tessellation.vertices@[k].geometry
                        == self.poly_tessellation.vertices@[k].geometry
                } else {
                    new.poly_tessellation.vertices@[k] == self.poly_tessellation.vertices@[k]
                },
    {
    }

    /// Changes the color of a line or polygon.
    pub fn update(&mut self, primitive_id: PrimitiveId, paint: PrimitivePaint) -> (res: Result<
        (),
        GalileoError,
    >)
        requires
            old(self).wf(),
            old(self).update_defined(primitive_id, paint),
        ensures
            final(self).wf(),
            old(self).updated(*final(self), primitive_id, paint, res),
            final(self).points == old(self).points,
            final(self).screen_ref == old(self).screen_ref,
            final(self).images == old(self).images,
            final(self).clip_area == old(self).clip_area,
            final(self).image_store == old(self).image_store,
            old(self).map_refs_valid() ==> final(self).map_refs_valid(),
    {
        let id = primitive_id.index();
        if id >= self.primitives.len() {
            return Err(GalileoError::Generic("no primitive with the given id".to_string()));
        }
        let range: Option<Range<usize>> = match &self.primitives[id] {
            PrimitiveInfo::MapRef { vertex_range } => Some(vertex_range.start..vertex_range.end),
            _ => None,
        };
        match range {
            Some(range) => self.update_map_ref(range, paint),
            None => Ok(()),
        }
    }

    /// Sets the opacity of an image primitive.
    pub fn modify_image(&mut self, id: PrimitiveId, paint: ImagePaint) -> (res: Result<(), GalileoError>)
        requires
            old(self).wf(),
        ensures
            final(self).wf(),
            id.spec_index() >= old(self).primitives@.len() ==> is_generic_error(
                res,
                "primitive does not exist"@,
            ) && *final(self) == *old(self),
            id.spec_index() < old(self).primitives@.len() ==> match old(self).primitives@[id.spec_index() as int] {
                PrimitiveInfo::Image { image_index } => if image_index >= old(self).images@.len() {
                    is_generic_error(res, "invalid image id"@) && *final(self) == *old(self)
                } else {
                    match old(self).images@[image_index as int] {
                        ImageInfo::Vacant => is_generic_error(res, "tried to modify vacant image"@)
                            && *final(self) == *old(self),
                        ImageInfo::Image { store_index, vertices, opacity } => res is Ok
                            && final(self).images@ == old(self).images@.update(
                            image_index as int,
                            ImageInfo::Image { store_index, vertices, opacity: paint.opacity },
                        ) && final(self).primitives == old(self).primitives
                            && final(self).buffer_size == old(self).buffer_size,
                    }
                },
                _ => is_generic_error(res, "invalid primitive type"@) && *final(self) == *old(self),
            },
            final(self).poly_tessellation == old(self).poly_tessellation,
            final(self).points == old(self).points,
            final(self).screen_ref == old(self).screen_ref,
            final(self).clip_area == old(self).clip_area,
            final(self).image_store == old(self).image_store,
            final(self).vacant_ids == old(self).vacant_ids,
            final(self).vacant_image_ids == old(self).vacant_image_ids,
            final(self).vacant_image_store_ids == old(self).vacant_image_store_ids,
            old(self).map_refs_valid() ==> final(self).map_refs_valid(),
    {
        let index = id.index();
        if index >= self.primitives.len() {
            return Err(GalileoError::Generic("primitive does not exist".to_string()));
        }
        let image_index: usize = match &self.primitives[index] {
            PrimitiveInfo::Image { image_index } => *image_index,
            _ => {
                return Err(GalileoError::Generic("invalid primitive type".to_string()));
            },
        };
        if image_index >= self.images.len() {
            return Err(GalileoError::Generic("invalid image id".to_string()));
        }
        if let ImageInfo::Vacant = &self.images[image_index] {
            return Err(GalileoError::Generic("tried to modify vacant image".to_string()));
        }
        match &mut self.images[image_index] {
            ImageInfo::Vacant => {},
            ImageInfo::Image { opacity, .. } => {
                *opacity = paint.opacity;
            },
        }
        Ok(())
    }

    /// Returns true if no primitive was ever added to the bundle.
    pub fn is_empty(&self) -> (r: bool)
        ensures
            r == (self.primitives@.len() == 0),
    {
        self.primitives.len() == 0
    }


    fn add_dot(&mut self, point: D)
        requires
            old(self).wf(),
            old(self).buffer_size + POINT_INSTANCE_SIZE <= usize::MAX,
        ensures
            final(self).wf(),
            final(self).points@ == old(self).points@.push(point),
            final(self).buffer_size == old(self).buffer_size + POINT_INSTANCE_SIZE,
            final(self).poly_tessellation == old(self).poly_tessellation,
            final(self).screen_ref == old(self).screen_ref,
            final(self).images == old(self).images,
            final(self).clip_area == old(self).clip_area,
            final(self).image_store == old(self).image_store,
            final(self).primitives == old(self).primitives,
            final(self).vacant_ids == old(self).vacant_ids,
            final(self).vacant_image_ids == old(self).vacant_image_ids,
            final(self).vacant_image_store_ids == old(self).vacant_image_store_ids,
    {
        self.points.push(point);
        self.buffer_size = self.buffer_size + POINT_INSTANCE_SIZE;
    }

    fn add_image_point(&mut self, image: Arc<DecodedImage>, opacity: u8, vertices: [I; 4]) -> (info:
        PrimitiveInfo)
        requires
            old(self).wf(),
            old(self).buffer_size + image.bytes@.len() + IMAGE_VERTEX_SIZE * 4 <= usize::MAX,
        ensures
            final(self).wf(),
            final(self).buffer_size == old(self).buffer_size + image.bytes@.len() + IMAGE_VERTEX_SIZE
                * 4,
            old(self).image_placed(*final(self), info, image, vertices, opacity),
            final(self).poly_tessellation == old(self).poly_tessellation,
            final(self).points == old(self).points,
            final(self).screen_ref == old(self).screen_ref,
            final(self).clip_area == old(self).clip_area,
            final(self).primitives == old(self).primitives,
            final(self).vacant_ids == old(self).vacant_ids,
    {
        self.buffer_size = self.buffer_size + image.bytes.len() + IMAGE_VERTEX_SIZE * 4;
        let ghost stored = image;
        let index = self.add_image_to_store(image);
        let image_index = self.add_image_info(index, vertices, opacity);
        proof {
            assert(self.images@ == placed(
                old(self).images@,
                old(self).vacant_image_ids@,
                ImageInfo::Image { store_index: index, vertices, opacity },
            ));
            assert(self.image_store@[index as int] == ImageStoreInfo::Image(stored));
        }
        PrimitiveInfo::Image { image_index }
    }

    fn add_shape(
        &mut self,
        outline: Option<Option<VertexBuffers<S>>>,
        fill: Option<VertexBuffers<S>>,
    )
        requires
            old(self).wf(),
            old(self).screen_ref.vertices@.len() + total_vertices(shape_parts(outline, fill)) <= u32::MAX,
            forall|g: int|
                0 <= g < shape_parts(outline, fill).len() ==> (#[trigger] shape_parts(
                    outline,
                    fill,
                )[g]).indices_in_range(),
            old(self).buffer_size + screen_parts_size(shape_parts(outline, fill)) <= usize::MAX,
        ensures
            final(self).wf(),
            final(self).screen_ref.vertices@ == old(self).screen_ref.vertices@ + joined_vertices(
                shape_parts(outline, fill),
            ),
            final(self).screen_ref.indices@ == old(self).screen_ref.indices@ + joined_indices(
                old(self).screen_ref.vertices@.len() as int,
                shape_parts(outline, fill),
            ),
            final(self).buffer_size == old(self).buffer_size + screen_parts_size(
                shape_parts(outline, fill),
            ),
            final(self).poly_tessellation == old(self).poly_tessellation,
            final(self).points == old(self).points,
            final(self).images == old(self).images,
            final(self).clip_area == old(self).clip_area,
            final(self).image_store == old(self).image_store,
            final(self).primitives == old(self).primitives,
            final(self).vacant_ids == old(self).vacant_ids,
            final(self).vacant_image_ids == old(self).vacant_image_ids,
            final(self).vacant_image_store_ids == old(self).vacant_image_store_ids,
    {
        let ghost parts_spec = shape_parts(outline, fill);
        let start_vertex_count = self.screen_ref.vertices.len();
        let start_index_count = self.screen_ref.indices.len();
        let mut parts: Vec<VertexBuffers<S>> = Vec::new();
        match outline {
            Some(Some(o)) => parts.push(o),
            Some(None) => {
                proof {
                    assert(parts_spec =~= Seq::<VertexBuffers<S>>::empty());
                    assert(joined_vertices(parts_spec) =~= Seq::<S>::empty());
                    assert(joined_indices(start_vertex_count as int, parts_spec) =~= Seq::<u32>::empty());
                    assert(self.screen_ref.vertices@ =~= old(self).screen_ref.vertices@ + joined_vertices(parts_spec));
                    assert(self.screen_ref.indices@ =~= old(self).screen_ref.indices@ + joined_indices(
                        start_vertex_count as int,
                        parts_spec,
                    ));
                }
                return;
            },
            None => {},
        }
        if let Some(f) = fill {
            parts.push(f);
        }
        proof {
            assert(parts@ =~= parts_spec);
            lemma_joined_len(parts_spec);
            lemma_joined_indices_len(start_vertex_count as int, parts_spec);
        }
        append_tessellations(&mut self.screen_ref, parts);
        self.buffer_size = self.buffer_size + (self.screen_ref.vertices.len() - start_vertex_count)
            * SCREEN_REF_VERTEX_SIZE;
        self.buffer_size = self.buffer_size + (self.screen_ref.indices.len() - start_index_count)
            * INDEX_SIZE;
    }


    /// `new` is `self` after an image is stored and drawn: the drawn image takes the free slot
    /// of the image table (`info` records it) and refers to a slot of the store that holds the
    /// bitmap; the store either is unchanged (the bitmap's allocation was stored already) or
    /// has the bitmap put into its free slot.
    pub open spec fn image_placed(
        self,
        new: Self,
        info: PrimitiveInfo,
        image: Arc<DecodedImage>,
        vertices: [I; 4],
        opacity: u8,
    ) -> bool {
        &&& info == PrimitiveInfo::Image {
            image_index: free_slot(self.images@.len() as int, self.vacant_image_ids@) as usize,
        }
        &&& exists|store_index: usize|
            {
                &&& store_index < new.image_store@.len()
                &&& new.image_store@[store_index as int] == ImageStoreInfo::Image(image)
                &&& new.images@ == placed(
                    self.images@,
                    self.vacant_image_ids@,
                    ImageInfo::Image { store_index, vertices, opacity },
                )
            }
        &&& new.vacant_image_ids@ == released_slots(self.vacant_image_ids@)
        &&& {
            ||| new.image_store@ == self.image_store@ && new.vacant_image_store_ids@
                == self.vacant_image_store_ids@
            ||| new.image_store@ == placed(
                self.image_store@,
                self.vacant_image_store_ids@,
                ImageStoreInfo::Image(image),
            ) && new.vacant_image_store_ids@ == released_slots(self.vacant_image_store_ids@)
        }
    }

    fn add_circle_sector(
        &mut self,
        center: S,
        rim: Vec<S>,
        is_full_circle: bool,
        outline: Option<Option<VertexBuffers<S>>>,
    )
        requires
            old(self).wf(),
            old(self).screen_ref.vertices@.len() + 1 + rim@.len() + total_vertices(
                shape_parts(outline, None),
            ) <= u32::MAX,
            forall|g: int|
                0 <= g < shape_parts(outline, None).len() ==> (#[trigger] shape_parts(
                    outline,
                    None,
                )[g]).indices_in_range(),
            old(self).buffer_size + sector_size(rim@.len() as int, is_full_circle, outline)
                <= usize::MAX,
        ensures
            final(self).wf(),
            final(self).screen_ref.vertices@ == old(self).screen_ref.vertices@ + seq![center]
                + rim@ + joined_vertices(shape_parts(outline, None)),
            final(self).screen_ref.indices@ == old(self).screen_ref.indices@ + sector_indices(
                old(self).screen_ref.vertices@.len() as int,
                rim@.len() as int,
                is_full_circle,
            ) + joined_indices(
                (old(self).screen_ref.vertices@.len() + 1 + rim@.len()) as int,
                shape_parts(outline, None),
            ),
            final(self).buffer_size == old(self).buffer_size + sector_size(
                rim@.len() as int,
                is_full_circle,
                outline,
            ),
            final(self).poly_tessellation == old(self).poly_tessellation,
            final(self).points == old(self).points,
            final(self).images == old(self).images,
            final(self).clip_area == old(self).clip_area,
            final(self).image_store == old(self).image_store,
            final(self).primitives == old(self).primitives,
            final(self).vacant_ids == old(self).vacant_ids,
            final(self).vacant_image_ids == old(self).vacant_image_ids,
            final(self).vacant_image_store_ids == old(self).vacant_image_store_ids,
    {
        let ghost parts = shape_parts(outline, None);
        let ghost rim_view = rim@;
        proof {
            lemma_joined_len(parts);
            lemma_joined_indices_len(0, parts);
            lemma_fan_len(old(self).screen_ref.vertices@.len() as int, rim@.len() as int);
        }
        let first_index = self.screen_ref.vertices.len() as u32;
        let start_vertex_count = self.screen_ref.vertices.len();
        let start_index_count = self.screen_ref.indices.len();
        let n = rim.len();
        let mut vertices: Vec<S> = Vec::new();
        vertices.push(center);
        let mut rim = rim;
        vertices.append(&mut rim);
        let mut indices = sector_fan_indices(first_index, n, is_full_circle);
        self.screen_ref.vertices.append(&mut vertices);
        self.screen_ref.indices.append(&mut indices);
        let ghost mid = *self;
        let ghost mid_size = self.buffer_size;
        if outline.is_some() {
            proof {
                lemma_joined_indices_len(self.screen_ref.vertices@.len() as int, parts);
            }
            self.add_shape(outline, None);
        } else {
            proof {
                assert(parts =~= Seq::<VertexBuffers<S>>::empty());
                assert(self.screen_ref.vertices@ =~= mid.screen_ref.vertices@ + joined_vertices(parts));
                assert(self.screen_ref.indices@ =~= mid.screen_ref.indices@ + joined_indices(
                    mid.screen_ref.vertices@.len() as int,
                    parts,
                ));
            }
        }
        proof {
            lemma_joined_indices_len(mid.screen_ref.vertices@.len() as int, parts);
            assert(self.screen_ref.vertices@ =~= old(self).screen_ref.vertices@ + seq![center]
                + rim_view + joined_vertices(parts)) by {
                assert(mid.screen_ref.vertices@ =~= old(self).screen_ref.vertices@ + seq![center]
                    + rim_view);
            }
        }
        self.buffer_size = self.buffer_size + (self.screen_ref.vertices.len() - start_vertex_count)
            * SCREEN_REF_VERTEX_SIZE;
        self.buffer_size = self.buffer_size + (self.screen_ref.indices.len() - start_index_count)
            * INDEX_SIZE;
    }

    /// Appends the glyphs of a label. The primitive records the range of the label's indices in
    /// the screen-referenced index list (not of its vertices).
    fn add_label(&mut self, glyphs: Option<Vec<VertexBuffers<S>>>) -> (info: PrimitiveInfo)
        requires
            old(self).wf(),
            glyphs matches Some(g) ==> {
                &&& old(self).screen_ref.vertices@.len() + total_vertices(g@) <= u32::MAX
                &&& forall|k: int| 0 <= k < g@.len() ==> (#[trigger] g@[k]).indices_in_range()
            },
        ensures
            final(self).wf(),
            glyphs is None ==> info == PrimitiveInfo::NoData && final(self).screen_ref
                == old(self).screen_ref,
            ranges_ordered(seq![info]),
            glyphs matches Some(g) ==> {
                &&& final(self).screen_ref.vertices@ == old(self).screen_ref.vertices@
                    + joined_vertices(g@)
                &&& final(self).screen_ref.indices@ == old(self).screen_ref.indices@ + joined_indices(
                    old(self).screen_ref.vertices@.len() as int,
                    g@,
                )
                &&& info == PrimitiveInfo::ScreenRef {
                    vertex_range: Range {
                        start: old(self).screen_ref.indices@.len() as usize,
                        end: final(self).screen_ref.indices@.len() as usize,
                    },
                }
            },
            final(self).poly_tessellation == old(self).poly_tessellation,
            final(self).points == old(self).points,
            final(self).images == old(self).images,
            final(self).clip_area == old(self).clip_area,
            final(self).image_store == old(self).image_store,
            final(self).primitives == old(self).primitives,
            final(self).vacant_ids == old(self).vacant_ids,
            final(self).vacant_image_ids == old(self).vacant_image_ids,
            final(self).vacant_image_store_ids == old(self).vacant_image_store_ids,
            final(self).buffer_size == old(self).buffer_size,
    {
        match glyphs {
            Some(glyphs) => {
                let indices_start = self.screen_ref.indices.len();
                proof {
                    lemma_joined_indices_len(self.screen_ref.vertices@.len() as int, glyphs@);
                }
                append_tessellations(&mut self.screen_ref, glyphs);
                assert(self.screen_ref.indices@.len() >= indices_start);
                let info = PrimitiveInfo::ScreenRef {
                    vertex_range: indices_start..self.screen_ref.indices.len(),
                };
                assert(seq![info][0] == info);
                info
            },
            None => {
                assert(seq![PrimitiveInfo::NoData][0] == PrimitiveInfo::NoData);
                PrimitiveInfo::NoData
            },
        }
    }


    /// Adding the point symbol `geometry` stays within the `u32` index arithmetic and the size
    /// estimate stays within `usize`; the tessellations it carries are well formed.
    pub open spec fn point_defined(self, geometry: PointGeometry<S, D, I>) -> bool {
        match geometry {
            PointGeometry::Dot(_) => self.buffer_size + POINT_INSTANCE_SIZE <= usize::MAX,
            PointGeometry::Image { image, .. } => self.buffer_size + image.bytes@.len()
                + IMAGE_VERTEX_SIZE * 4 <= usize::MAX,
            PointGeometry::Sector { rim, is_full_circle, outline, .. } => {
                &&& self.screen_ref.vertices@.len() + 1 + rim@.len() + total_vertices(
                    shape_parts(outline, None),
                ) <= u32::MAX
                &&& forall|g: int|
                    0 <= g < shape_parts(outline, None).len() ==> (#[trigger] shape_parts(
                        outline,
                        None,
                    )[g]).indices_in_range()
                &&& self.buffer_size + sector_size(rim@.len() as int, is_full_circle, outline)
                    <= usize::MAX
            },
            PointGeometry::Shape { outline, fill } => {
                &&& self.screen_ref.vertices@.len() + total_vertices(shape_parts(outline, fill))
                    <= u32::MAX
                &&& forall|g: int|
                    0 <= g < shape_parts(outline, fill).len() ==> (#[trigger] shape_parts(
                        outline,
                        fill,
                    )[g]).indices_in_range()
                &&& self.buffer_size + screen_parts_size(shape_parts(outline, fill)) <= usize::MAX
            },
            PointGeometry::Label(glyphs) => glyphs matches Some(g) ==> {
                &&& self.screen_ref.vertices@.len() + total_vertices(g@) <= u32::MAX
                &&& forall|k: int| 0 <= k < g@.len() ==> (#[trigger] g@[k]).indices_in_range()
            },
        }
    }

    /// `new` is `self` with the data of the point symbol `geometry` stored, and `info` records
    /// where it lies.
    pub open spec fn point_added(self, new: Self, geometry: PointGeometry<S, D, I>, info: PrimitiveInfo) -> bool {
        &&& new.poly_tessellation == self.poly_tessellation
        &&& new.clip_area == self.clip_area
        &&& !(geometry is Image) ==> new.vacant_image_ids == self.vacant_image_ids
            && new.vacant_image_store_ids == self.vacant_image_store_ids
        &&& match geometry {
            PointGeometry::Dot(d) => {
                &&& info == PrimitiveInfo::Dot { point_index: self.points@.len() as usize }
                &&& new.points@ == self.points@.push(d)
                &&& new.buffer_size == self.buffer_size + POINT_INSTANCE_SIZE
                &&& new.screen_ref == self.screen_ref
                &&& new.images == self.images
                &&& new.image_store == self.image_store
            },
            PointGeometry::Image { image, opacity, vertices } => {
                &&& self.image_placed(new, info, image, vertices, opacity)
                &&& new.buffer_size == self.buffer_size + image.bytes@.len() + IMAGE_VERTEX_SIZE * 4
                &&& new.points == self.points
                &&& new.screen_ref == self.screen_ref
            },
            PointGeometry::Sector { center, rim, is_full_circle, outline } => {
                &&& info == PrimitiveInfo::ScreenRef {
                    vertex_range: Range {
                        start: self.screen_ref.vertices@.len() as usize,
                        end: new.screen_ref.vertices@.len() as usize,
                    },
                }
                &&& new.screen_ref.vertices@ == self.screen_ref.vertices@ + seq![center] + rim@
                    + joined_vertices(shape_parts(outline, None))
                &&& new.screen_ref.indices@ == self.screen_ref.indices@ + sector_indices(
                    self.screen_ref.vertices@.len() as int,
                    rim@.len() as int,
                    is_full_circle,
                ) + joined_indices(
                    (self.screen_ref.vertices@.len() + 1 + rim@.len()) as int,
                    shape_parts(outline, None),
                )
                &&& new.buffer_size == self.buffer_size + sector_size(
                    rim@.len() as int,
                    is_full_circle,
                    outline,
                )
                &&& new.points == self.points
                &&& new.images == self.images
                &&& new.image_store == self.image_store
            },
            PointGeometry::Shape { outline, fill } => {
                &&& info == PrimitiveInfo::ScreenRef {
                    vertex_range: Range {
                        start: self.screen_ref.vertices@.len() as usize,
                        end: new.screen_ref.vertices@.len() as usize,
                    },
                }
                &&& new.screen_ref.vertices@ == self.screen_ref.vertices@ + joined_vertices(
                    shape_parts(outline, fill),
                )
                &&& new.screen_ref.indices@ == self.screen_ref.indices@ + joined_indices(
                    self.screen_ref.vertices@.len() as int,
                    shape_parts(outline, fill),
                )
                &&& new.buffer_size == self.buffer_size + screen_parts_size(shape_parts(outline, fill))
                &&& new.points == self.points
                &&& new.images == self.images
                &&& new.image_store == self.image_store
            },
            PointGeometry::Label(glyphs) => {
                &&& new.buffer_size == self.buffer_size
                &&& new.points == self.points
                &&& new.images == self.images
                &&& new.image_store == self.image_store
                &&& match glyphs {
                    None => info == PrimitiveInfo::NoData && new.screen_ref == self.screen_ref,
                    Some(g) => {
                        &&& new.screen_ref.vertices@ == self.screen_ref.vertices@ + joined_vertices(g@)
                        &&& new.screen_ref.indices@ == self.screen_ref.indices@ + joined_indices(
                            self.screen_ref.vertices@.len() as int,
                            g@,
                        )
                        &&& info == PrimitiveInfo::ScreenRef {
                            vertex_range: Range {
                                start: self.screen_ref.indices@.len() as usize,
                                end: new.screen_ref.indices@.len() as usize,
                            },
                        }
                    },
                }
            },
        }
    }

    /// Adds a point symbol. Screen-referenced symbols record the range of vertices they added;
    /// a label records the range of indices it added.
    pub fn add_point(&mut self, geometry: PointGeometry<S, D, I>) -> (id: PrimitiveId)
        requires
            old(self).wf(),
            old(self).point_defined(geometry),
        ensures
            final(self).wf(),
            old(self).point_added(*final(self), geometry, final(self).primitives@[id.spec_index() as int]),
            old(self).vacant_ids@.len() == 0 ==> id.spec_index() == old(self).primitives@.len()
                && final(self).primitives@.len() == old(self).primitives@.len() + 1,
            old(self).vacant_ids@.len() > 0 ==> id.spec_index() == old(self).vacant_ids@.last(),
            final(self).primitives@ == old(self).primitives@.push(
                final(self).primitives@[id.spec_index() as int],
            ) || final(self).primitives@ == old(self).primitives@.update(
                id.spec_index() as int,
                final(self).primitives@[id.spec_index() as int],
            ),
            id.spec_index() == free_slot(old(self).primitives@.len() as int, old(self).vacant_ids@),
            final(self).primitives@ == placed(
                old(self).primitives@,
                old(self).vacant_ids@,
                final(self).primitives@[id.spec_index() as int],
            ),
            final(self).vacant_ids@ == released_slots(old(self).vacant_ids@),
            final(self).screen_ref.vertices@.len() <= usize::MAX,
            final(self).images@.len() <= usize::MAX,
            old(self).map_refs_valid() ==> final(self).map_refs_valid(),
    {
        let start_index = self.screen_ref.vertices.len();
        let ghost before = *self;
        let info = match geometry {
            PointGeometry::Dot(point) => {
                self.add_dot(point);
                PrimitiveInfo::Dot { point_index: self.points.len() - 1 }
            },
            PointGeometry::Image { image, opacity, vertices } => {
                self.add_image_point(image, opacity, vertices)
            },
            PointGeometry::Sector { center, rim, is_full_circle, outline } => {
                self.add_circle_sector(center, rim, is_full_circle, outline);
                assert(self.screen_ref.vertices@.len() >= start_index);
                PrimitiveInfo::ScreenRef { vertex_range: start_index..self.screen_ref.vertices.len() }
            },
            PointGeometry::Shape { outline, fill } => {
                self.add_shape(outline, fill);
                assert(self.screen_ref.vertices@.len() >= start_index);
                PrimitiveInfo::ScreenRef { vertex_range: start_index..self.screen_ref.vertices.len() }
            },
            PointGeometry::Label(glyphs) => self.add_label(glyphs),
        };
        let ghost mid = *self;
        proof {
            assert(before.point_added(mid, geometry, info));
            assert(map_ref_range(info) is None);
            if info is ScreenRef {
                assert(screen_ref_range(info) matches Some((a, b)) && a <= b);
            }
            assert(ranges_ordered(seq![info])) by {
                assert(seq![info][0] == info);
            }
        }
        let id = self.add_primitive_info(info);
        proof {
            if before.map_refs_valid() {
                lemma_ranges_push_other(mid.primitives@, info, mid.poly_tessellation.vertices@.len() as int);
                if mid.vacant_ids@.len() > 0 {
                    lemma_ranges_update_other(
                        mid.primitives@,
                        id.spec_index() as int,
                        info,
                        mid.poly_tessellation.vertices@.len() as int,
                    );
                }
            }
        }
        vec_len_fits(&self.screen_ref.vertices);
        vec_len_fits(&self.images);
        id
    }

}

} // verus!
