//! Removal of primitives from a [`TessellatingRenderBundle`] succeeds for every id in its
//! table, as long as the bundle is consistent: the ranges, dot indices and image slots that
//! its primitives record fit the buffers they point into. A bundle made by `new` is
//! consistent, and additions (but for shaped labels, see below) and removals keep it so.
//!
//! A shaped label records the range of its indices, not of its vertices, so its range does not
//! fit the screen-referenced vertices: removing it can fail with "range out of bounds" (one
//! glyph of four vertices and six indices, added first, records `0..6` over four vertices).
//! The laws below are stated for bundles that get no shaped label.

use super::tessellating::{
    free_slot, placed, released_slots, screen_ref_range, shift_dot, shift_map_ref,
    shift_screen_ref, shifted_dots, shifted_map_refs, shifted_range, shifted_screen_refs,
    ImageInfo, PointGeometry, PrimitiveInfo, TessellatingRenderBundle, range_len,
};
use super::cut_vertices;
use crate::error::GalileoError;
use crate::render::PrimitiveId;
use vstd::prelude::*;

verus! {

/// 1 when `p` is a dot whose index is at least `v`, else 0.
pub open spec fn dot_at_or_above(p: PrimitiveInfo, v: int) -> int {
    match p {
        PrimitiveInfo::Dot { point_index } => if point_index >= v {
            1
        } else {
            0
        },
        _ => 0,
    }
}

/// Number of dots in `prims` whose index is at least `v`.
pub open spec fn dots_from(prims: Seq<PrimitiveInfo>, v: int) -> int
    decreases prims.len(),
{
    if prims.len() == 0 {
        0
    } else {
        dots_from(prims.drop_last(), v) + dot_at_or_above(prims.last(), v)
    }
}

/// The dot indices fit a dot list of `len` entries: for every `v` up to `len`, at most
/// `len - v` dots have an index of `v` or more. In particular every index is below `len`.
/// (Several dots may share an index: removing an image moves the dot indices above it down.)
pub open spec fn dots_fit(prims: Seq<PrimitiveInfo>, len: int) -> bool {
    forall|v: int| 0 <= v <= len ==> #[trigger] dots_from(prims, v) <= len - v
}

proof fn lemma_dots_push(p: Seq<PrimitiveInfo>, x: PrimitiveInfo, v: int)
    ensures
        dots_from(p.push(x), v) == dots_from(p, v) + dot_at_or_above(x, v),
{
    assert(p.push(x).drop_last() =~= p);
}

proof fn lemma_dots_update(p: Seq<PrimitiveInfo>, i: int, x: PrimitiveInfo, v: int)
    requires
        0 <= i < p.len(),
    ensures
        dots_from(p.update(i, x), v) == dots_from(p, v) - dot_at_or_above(p[i], v)
            + dot_at_or_above(x, v),
    decreases p.len(),
{
    let q = p.update(i, x);
    if i == p.len() - 1 {
        assert(q.drop_last() =~= p.drop_last());
    } else {
        assert(q.drop_last() =~= p.drop_last().update(i, x));
        lemma_dots_update(p.drop_last(), i, x, v);
    }
}

proof fn lemma_dots_bounds(p: Seq<PrimitiveInfo>, v: int, w: int)
    requires
        v <= w,
    ensures
        0 <= dots_from(p, w) <= dots_from(p, v),
    decreases p.len(),
{
    if p.len() > 0 {
        lemma_dots_bounds(p.drop_last(), v, w);
    }
}

proof fn lemma_dots_same(p: Seq<PrimitiveInfo>, q: Seq<PrimitiveInfo>, v: int)
    requires
        p.len() == q.len(),
        forall|i: int| 0 <= i < p.len() ==> dot_at_or_above(#[trigger] q[i], v) == dot_at_or_above(p[i], v),
    ensures
        dots_from(q, v) == dots_from(p, v),
    decreases p.len(),
{
    if p.len() > 0 {
        assert(dot_at_or_above(q[q.len() - 1], v) == dot_at_or_above(p[p.len() - 1], v));
        assert forall|i: int| 0 <= i < p.drop_last().len() implies dot_at_or_above(
            #[trigger] q.drop_last()[i],
            v,
        ) == dot_at_or_above(p.drop_last()[i], v) by {
            assert(q.drop_last()[i] == q[i]);
            assert(p.drop_last()[i] == p[i]);
        }
        lemma_dots_same(p.drop_last(), q.drop_last(), v);
    }
}

proof fn lemma_dots_shifted(p: Seq<PrimitiveInfo>, k: int, v: int)
    requires
        0 <= k,
    ensures
        dots_from(shifted_dots(p, k), v) == if v <= k {
            dots_from(p, v)
        } else {
            dots_from(p, v + 1)
        },
    decreases p.len(),
{
    let q = shifted_dots(p, k);
    if p.len() > 0 {
        assert(q.drop_last() =~= shifted_dots(p.drop_last(), k));
        assert(q.last() == shift_dot(p.last(), k));
        lemma_dots_shifted(p.drop_last(), k, v);
    } else {
        assert(q.len() == 0);
    }
}

proof fn lemma_dots_other_shifts(p: Seq<PrimitiveInfo>, end: int, len: int, v: int)
    ensures
        dots_from(shifted_map_refs(p, end, len), v) == dots_from(p, v),
        dots_from(shifted_screen_refs(p, end, len), v) == dots_from(p, v),
{
    let q = shifted_map_refs(p, end, len);
    let r = shifted_screen_refs(p, end, len);
    assert forall|i: int| 0 <= i < p.len() implies dot_at_or_above(#[trigger] q[i], v)
        == dot_at_or_above(p[i], v) by {
        assert(q[i] == shift_map_ref(p[i], end, len));
    }
    assert forall|i: int| 0 <= i < p.len() implies dot_at_or_above(#[trigger] r[i], v)
        == dot_at_or_above(p[i], v) by {
        assert(r[i] == shift_screen_ref(p[i], end, len));
    }
    lemma_dots_same(p, q, v);
    lemma_dots_same(p, r, v);
}

/// A dot whose index is at least `v` is counted.
proof fn lemma_dot_counted(p: Seq<PrimitiveInfo>, i: int, v: int)
    requires
        0 <= i < p.len(),
        dot_at_or_above(p[i], v) == 1,
    ensures
        dots_from(p, v) >= 1,
{
    lemma_dots_update(p, i, PrimitiveInfo::Vacant, v);
    lemma_dots_bounds(p.update(i, PrimitiveInfo::Vacant), v, v);
}

/// Every screen-referenced range of `prims` lies in `0..n`, and no two of them overlap.
pub open spec fn screen_ranges_valid(prims: Seq<PrimitiveInfo>, n: int) -> bool {
    &&& forall|i: int|
        0 <= i < prims.len() ==> ((#[trigger] screen_ref_range(prims[i])) matches Some((s, e))
            ==> 0 <= s <= e <= n)
    &&& forall|i: int, j: int|
        0 <= i < prims.len() && 0 <= j < prims.len() && i != j ==> (
        #[trigger] screen_ref_range(prims[i]) matches Some((si, ei)) ==> (
        #[trigger] screen_ref_range(prims[j]) matches Some((sj, ej)) ==> ei <= sj || ej <= si))
}

/// Entries that are not screen-referenced do not affect the screen ranges: pushing one keeps
/// them valid, and so does replacing an entry by one, for a bound that does not shrink.
proof fn lemma_screen_push_other(p: Seq<PrimitiveInfo>, x: PrimitiveInfo, n: int, m: int)
    requires
        screen_ranges_valid(p, n),
        n <= m,
        screen_ref_range(x) is None,
    ensures
        screen_ranges_valid(p.push(x), m),
        forall|k: int| 0 <= k < p.len() ==> screen_ranges_valid(#[trigger] p.update(k, x), m),
{
    let q = p.push(x);
    assert(forall|i: int| 0 <= i < p.len() ==> q[i] == p[i]);
    assert(screen_ref_range(q[p.len() as int]) is None);
    assert forall|k: int| 0 <= k < p.len() implies screen_ranges_valid(#[trigger] p.update(k, x), m)
        by {
        let r = p.update(k, x);
        assert(forall|i: int| 0 <= i < p.len() && i != k ==> r[i] == p[i]);
        assert(screen_ref_range(r[k]) is None);
    }
}

/// Appending a range `a..b` past every range of `p` keeps the ranges valid.
proof fn lemma_screen_add(p: Seq<PrimitiveInfo>, x: PrimitiveInfo, n: int, m: int)
    requires
        screen_ranges_valid(p, n),
        n <= m,
        screen_ref_range(x) == Some((n, m)),
    ensures
        screen_ranges_valid(p.push(x), m),
{
    let q = p.push(x);
    assert(forall|i: int| 0 <= i < p.len() ==> q[i] == p[i]);
    assert(q[p.len() as int] == x);
}

proof fn lemma_screen_same(p: Seq<PrimitiveInfo>, q: Seq<PrimitiveInfo>, n: int)
    requires
        p.len() == q.len(),
        forall|i: int| 0 <= i < p.len() ==> #[trigger] screen_ref_range(q[i]) == screen_ref_range(p[i]),
        screen_ranges_valid(p, n),
    ensures
        screen_ranges_valid(q, n),
{
    assert forall|i: int|
        0 <= i < q.len() implies ((#[trigger] screen_ref_range(q[i])) matches Some((s, e)) ==> 0
        <= s <= e <= n) by {
        assert(screen_ref_range(q[i]) == screen_ref_range(p[i]));
    }
    assert forall|i: int, j: int|
        0 <= i < q.len() && 0 <= j < q.len() && i != j implies (#[trigger] screen_ref_range(q[i])
        matches Some((si, ei)) ==> (#[trigger] screen_ref_range(q[j]) matches Some((sj, ej)) ==> ei
        <= sj || ej <= si)) by {
        assert(screen_ref_range(q[i]) == screen_ref_range(p[i]));
        assert(screen_ref_range(q[j]) == screen_ref_range(p[j]));
    }
}

/// Shifting the map-referenced ranges or the dots keeps the screen ranges as they are.
proof fn lemma_screen_other_shifts(p: Seq<PrimitiveInfo>, n: int, end: int, len: int, k: int)
    requires
        screen_ranges_valid(p, n),
    ensures
        screen_ranges_valid(shifted_map_refs(p, end, len), n),
        screen_ranges_valid(shifted_dots(p, k), n),
{
    let q = shifted_map_refs(p, end, len);
    let r = shifted_dots(p, k);
    assert forall|i: int| 0 <= i < p.len() implies #[trigger] screen_ref_range(q[i])
        == screen_ref_range(p[i]) by {
        assert(q[i] == shift_map_ref(p[i], end, len));
    }
    assert forall|i: int| 0 <= i < p.len() implies #[trigger] screen_ref_range(r[i])
        == screen_ref_range(p[i]) by {
        assert(r[i] == shift_dot(p[i], k));
    }
    lemma_screen_same(p, q, n);
    lemma_screen_same(p, r, n);
}

/// Cutting out the range `s..e`, which no other range overlaps, keeps the other ranges valid
/// over the shortened buffer.
proof fn lemma_screen_cut(p: Seq<PrimitiveInfo>, n: int, s: int, e: int)
    requires
        screen_ranges_valid(p, n),
        0 <= s <= e <= n,
        forall|i: int|
            0 <= i < p.len() ==> ((#[trigger] screen_ref_range(p[i])) matches Some((a, b)) ==> b <= s
                || e <= a),
    ensures
        screen_ranges_valid(shifted_screen_refs(p, e, e - s), n - (e - s)),
{
    let q = shifted_screen_refs(p, e, e - s);
    assert forall|i: int| 0 <= i < p.len() implies #[trigger] screen_ref_range(q[i]) == shifted_range(
        screen_ref_range(p[i]),
        e,
        e - s,
    ) by {
        assert(q[i] == shift_screen_ref(p[i], e, e - s));
    }
}

/// The image primitives of `prims` point at drawn images of `images`, no two at the same one,
/// and the free image slots `vacant` are vacant, each listed once.
pub open spec fn images_consistent<I>(
    prims: Seq<PrimitiveInfo>,
    images: Seq<ImageInfo<I>>,
    vacant: Seq<usize>,
) -> bool {
    &&& forall|i: int|
        0 <= i < prims.len() ==> ((#[trigger] prims[i]) matches PrimitiveInfo::Image { image_index }
            ==> image_index < images.len() && images[image_index as int] is Image)
    &&& forall|i: int, j: int|
        0 <= i < prims.len() && 0 <= j < prims.len() && i != j ==> ((#[trigger] prims[i]) matches PrimitiveInfo::Image {
            image_index: a,
        } ==> ((#[trigger] prims[j]) matches PrimitiveInfo::Image { image_index: b } ==> a != b))
    &&& forall|m: int|
        0 <= m < vacant.len() ==> (#[trigger] vacant[m]) < images.len() && images[vacant[m] as int] is Vacant
    &&& forall|m1: int, m2: int|
        0 <= m1 < vacant.len() && 0 <= m2 < vacant.len() && m1 != m2 ==> #[trigger] vacant[m1]
            != #[trigger] vacant[m2]
}

impl<G, S, D, I> TessellatingRenderBundle<G, S, D, I> {
    /// The bundle is consistent: it is well formed with no free primitive slot, the map- and
    /// screen-referenced ranges fit their vertices without overlapping, the dot indices fit the
    /// dot list, and the image primitives fit the image table.
    pub open spec fn consistent(&self) -> bool {
        &&& self.wf()
        &&& self.vacant_ids@.len() == 0
        &&& self.map_refs_valid()
        &&& screen_ranges_valid(self.primitives@, self.screen_ref.vertices@.len() as int)
        &&& dots_fit(self.primitives@, self.points@.len() as int)
        &&& images_consistent(self.primitives@, self.images@, self.vacant_image_ids@)
    }
}

/// A bundle made by `new` is consistent: the premises are what `new` ensures.
pub proof fn lemma_new_is_consistent<G, S, D, I>(b: TessellatingRenderBundle<G, S, D, I>)
    requires
        b.wf(),
        b.poly_tessellation.vertices@.len() == 0,
        b.poly_tessellation.indices@.len() == 0,
        b.points@.len() == 0,
        b.screen_ref.vertices@.len() == 0,
        b.images@.len() == 0,
        b.primitives@.len() == 0,
        b.vacant_ids@.len() == 0,
        b.vacant_image_ids@.len() == 0,
    ensures
        b.consistent(),
{
    assert(dots_from(b.primitives@, 0) == 0);
    assert forall|v: int| 0 <= v <= 0 implies #[trigger] dots_from(b.primitives@, v) <= 0 - v by {}
}

/// Adding a line or a polygon keeps a bundle consistent: the premises are what `add_line` and
/// `add_polygon` ensure.
pub proof fn lemma_map_ref_addition_keeps_consistency<G, S, D, I>(
    before: TessellatingRenderBundle<G, S, D, I>,
    id: PrimitiveId,
    after: TessellatingRenderBundle<G, S, D, I>,
)
    requires
        before.consistent(),
        after.wf(),
        before.map_refs_valid() ==> after.map_refs_valid(),
        id.spec_index() == free_slot(before.primitives@.len() as int, before.vacant_ids@),
        after.primitives@ == placed(
            before.primitives@,
            before.vacant_ids@,
            after.primitives@[id.spec_index() as int],
        ),
        after.primitives@[id.spec_index() as int] is MapRef,
        after.vacant_ids@ == released_slots(before.vacant_ids@),
        after.points == before.points,
        after.screen_ref == before.screen_ref,
        after.images == before.images,
        after.vacant_image_ids == before.vacant_image_ids,
    ensures
        after.consistent(),
{
    let p = before.primitives@;
    let x = after.primitives@[id.spec_index() as int];
    let n = before.screen_ref.vertices@.len() as int;
    assert(after.primitives@ == p.push(x));
    lemma_screen_push_other(p, x, n, n);
    let len = before.points@.len() as int;
    assert forall|v: int| 0 <= v <= len implies #[trigger] dots_from(after.primitives@, v) <= len - v by {
        lemma_dots_push(p, x, v);
    }
    let q = after.primitives@;
    assert forall|i: int| 0 <= i < q.len() implies ((#[trigger] q[i]) matches PrimitiveInfo::Image {
        image_index,
    } ==> image_index < after.images@.len() && after.images@[image_index as int] is Image) by {
        if i < p.len() {
            assert(q[i] == p[i]);
        }
    }
    assert forall|i: int, j: int|
        0 <= i < q.len() && 0 <= j < q.len() && i != j implies ((#[trigger] q[i]) matches PrimitiveInfo::Image {
        image_index: a,
    } ==> ((#[trigger] q[j]) matches PrimitiveInfo::Image { image_index: b } ==> a != b)) by {
        if i < p.len() && j < p.len() {
            assert(q[i] == p[i]);
            assert(q[j] == p[j]);
        }
    }
}

/// Pushing an entry that is not an image primitive onto `p` keeps the image primitives of `p`
/// consistent with `images` and `vacant`.
proof fn lemma_images_push_other<I>(
    p: Seq<PrimitiveInfo>,
    x: PrimitiveInfo,
    images: Seq<ImageInfo<I>>,
    vacant: Seq<usize>,
)
    requires
        images_consistent(p, images, vacant),
        !(x is Image),
    ensures
        images_consistent(p.push(x), images, vacant),
{
    let q = p.push(x);
    assert forall|i: int| 0 <= i < q.len() implies ((#[trigger] q[i]) matches PrimitiveInfo::Image {
        image_index,
    } ==> image_index < images.len() && images[image_index as int] is Image) by {
        if i < p.len() {
            assert(q[i] == p[i]);
        }
    }
    assert forall|i: int, j: int|
        0 <= i < q.len() && 0 <= j < q.len() && i != j implies ((#[trigger] q[i]) matches PrimitiveInfo::Image {
        image_index: a,
    } ==> ((#[trigger] q[j]) matches PrimitiveInfo::Image { image_index: b } ==> a != b)) by {
        if i < p.len() && j < p.len() {
            assert(q[i] == p[i]);
            assert(q[j] == p[j]);
        }
    }
}

/// Adding a point symbol other than a shaped label keeps a bundle consistent: the premises are
/// what `add_point` ensures.
pub proof fn lemma_point_addition_keeps_consistency<G, S, D, I>(
    before: TessellatingRenderBundle<G, S, D, I>,
    geometry: PointGeometry<S, D, I>,
    id: PrimitiveId,
    after: TessellatingRenderBundle<G, S, D, I>,
)
    requires
        before.consistent(),
        !(geometry matches PointGeometry::Label(Some(_))),
        after.wf(),
        before.point_added(after, geometry, after.primitives@[id.spec_index() as int]),
        id.spec_index() == free_slot(before.primitives@.len() as int, before.vacant_ids@),
        after.primitives@ == placed(
            before.primitives@,
            before.vacant_ids@,
            after.primitives@[id.spec_index() as int],
        ),
        after.vacant_ids@ == released_slots(before.vacant_ids@),
        before.map_refs_valid() ==> after.map_refs_valid(),
        after.screen_ref.vertices@.len() <= usize::MAX,
        after.images@.len() <= usize::MAX,
    ensures
        after.consistent(),
{
    let p = before.primitives@;
    let x = after.primitives@[id.spec_index() as int];
    let q = after.primitives@;
    let n = before.screen_ref.vertices@.len() as int;
    let len = before.points@.len() as int;
    assert(q == p.push(x));
    match geometry {
        PointGeometry::Dot(_) => {
            lemma_screen_push_other(p, x, n, n);
            assert forall|v: int| 0 <= v <= len + 1 implies #[trigger] dots_from(q, v) <= len + 1
                - v by {
                lemma_dots_push(p, x, v);
                if v == len + 1 {
                    lemma_dots_bounds(p, len, v);
                }
            }
            lemma_images_push_other(p, x, before.images@, before.vacant_image_ids@);
        },
        PointGeometry::Image { image, opacity, vertices } => {
            lemma_screen_push_other(p, x, n, n);
            assert forall|v: int| 0 <= v <= len implies #[trigger] dots_from(q, v) <= len - v by {
                lemma_dots_push(p, x, v);
            }
            lemma_images_place(before, x, image, vertices, opacity, after);
        },
        PointGeometry::Sector { .. } => {
            lemma_screen_add(p, x, n, after.screen_ref.vertices@.len() as int);
            assert forall|v: int| 0 <= v <= len implies #[trigger] dots_from(q, v) <= len - v by {
                lemma_dots_push(p, x, v);
            }
            lemma_images_push_other(p, x, before.images@, before.vacant_image_ids@);
        },
        PointGeometry::Shape { .. } => {
            lemma_screen_add(p, x, n, after.screen_ref.vertices@.len() as int);
            assert forall|v: int| 0 <= v <= len implies #[trigger] dots_from(q, v) <= len - v by {
                lemma_dots_push(p, x, v);
            }
            lemma_images_push_other(p, x, before.images@, before.vacant_image_ids@);
        },
        PointGeometry::Label(_) => {
            lemma_screen_push_other(p, x, n, n);
            assert forall|v: int| 0 <= v <= len implies #[trigger] dots_from(q, v) <= len - v by {
                lemma_dots_push(p, x, v);
            }
            lemma_images_push_other(p, x, before.images@, before.vacant_image_ids@);
        },
    }
}

/// Placing a drawn image keeps the image primitives consistent: the new primitive `x` points at
/// the slot the image took, which no other image primitive pointed at.
proof fn lemma_images_place<G, S, D, I>(
    before: TessellatingRenderBundle<G, S, D, I>,
    x: PrimitiveInfo,
    image: std::sync::Arc<crate::primitives::DecodedImage>,
    vertices: [I; 4],
    opacity: u8,
    after: TessellatingRenderBundle<G, S, D, I>,
)
    requires
        images_consistent(before.primitives@, before.images@, before.vacant_image_ids@),
        before.image_placed(after, x, image, vertices, opacity),
        after.images@.len() <= usize::MAX,
    ensures
        images_consistent(before.primitives@.push(x), after.images@, after.vacant_image_ids@),
{
    let p = before.primitives@;
    let q = p.push(x);
        let images = before.images@;
        let vacant = before.vacant_image_ids@;
        let k = free_slot(images.len() as int, vacant);
        let store_index = choose|store_index: usize|
            {
                &&& store_index < after.image_store@.len()
                &&& after.image_store@[store_index as int] == super::tessellating::ImageStoreInfo::Image(image)
                &&& after.images@ == placed(
                    images,
                    vacant,
                    ImageInfo::Image { store_index, vertices, opacity },
                )
            };
        let new_images = after.images@;
        let new_vacant = after.vacant_image_ids@;
        assert(x == PrimitiveInfo::Image { image_index: k as usize });
        if vacant.len() > 0 {
            assert(vacant[vacant.len() - 1] == vacant.last());
            assert(0 <= k < images.len() && images[k] is Vacant);
            assert(new_vacant == vacant.drop_last());
            assert forall|m: int| 0 <= m < new_vacant.len() implies (#[trigger] new_vacant[m])
                < new_images.len() && new_images[new_vacant[m] as int] is Vacant by {
                assert(new_vacant[m] == vacant[m]);
                assert(vacant[m] != vacant[vacant.len() - 1]);
            }
            assert forall|m1: int, m2: int|
                0 <= m1 < new_vacant.len() && 0 <= m2 < new_vacant.len() && m1 != m2 implies #[trigger] new_vacant[m1]
                    != #[trigger] new_vacant[m2] by {
                assert(new_vacant[m1] == vacant[m1]);
                assert(new_vacant[m2] == vacant[m2]);
            }
        } else {
            assert(k == images.len());
            assert(new_images.len() == images.len() + 1);
        }
        assert forall|i: int| 0 <= i < q.len() implies ((#[trigger] q[i]) matches PrimitiveInfo::Image {
            image_index,
        } ==> image_index < new_images.len() && new_images[image_index as int] is Image) by {
            if i < p.len() {
                assert(q[i] == p[i]);
                if p[i] is Image {
                    let a = p[i]->image_index;
                    assert(images[a as int] is Image);
                    assert(a != k);
                    assert(new_images[a as int] == images[a as int]);
                }
            } else {
                assert(q[i] == x);
                assert(new_images[k] == ImageInfo::Image { store_index, vertices, opacity });
            }
        }
        assert forall|i: int, j: int|
            0 <= i < q.len() && 0 <= j < q.len() && i != j implies ((#[trigger] q[i]) matches PrimitiveInfo::Image {
            image_index: a,
        } ==> ((#[trigger] q[j]) matches PrimitiveInfo::Image { image_index: b } ==> a != b)) by {
            if i < p.len() && j < p.len() {
                assert(q[i] == p[i]);
                assert(q[j] == p[j]);
            } else if i < p.len() {
                assert(q[i] == p[i]);
                if p[i] is Image {
                    assert(images[p[i]->image_index as int] is Image);
                }
            } else if j < p.len() {
                assert(q[j] == p[j]);
                if p[j] is Image {
                    assert(images[p[j]->image_index as int] is Image);
                }
            }
        }
}

/// Adding an image keeps a bundle consistent: the premises are what `add_image` ensures.
pub proof fn lemma_image_addition_keeps_consistency<G, S, D, I>(
    before: TessellatingRenderBundle<G, S, D, I>,
    image: std::sync::Arc<crate::primitives::DecodedImage>,
    vertices: [I; 4],
    opacity: u8,
    after: TessellatingRenderBundle<G, S, D, I>,
)
    requires
        before.consistent(),
        after.wf(),
        after.primitives@.drop_last() == before.primitives@,
        after.primitives@.len() == before.primitives@.len() + 1,
        before.image_placed(after, after.primitives@.last(), image, vertices, opacity),
        after.vacant_ids == before.vacant_ids,
        after.points == before.points,
        after.screen_ref == before.screen_ref,
        after.map_refs_valid() == before.map_refs_valid(),
        after.images@.len() <= usize::MAX,
    ensures
        after.consistent(),
{
    let p = before.primitives@;
    let x = after.primitives@.last();
    let q = after.primitives@;
    let n = before.screen_ref.vertices@.len() as int;
    let len = before.points@.len() as int;
    assert(q =~= p.push(x));
    assert(x is Image);
    lemma_screen_push_other(p, x, n, n);
    assert forall|v: int| 0 <= v <= len implies #[trigger] dots_from(q, v) <= len - v by {
        lemma_dots_push(p, x, v);
    }
    lemma_images_place(before, x, image, vertices, opacity, after);
}

/// Image primitives of `q` are those of `p` at the same positions: `q` keeps the image
/// primitives consistent.
proof fn lemma_images_kept<I>(
    p: Seq<PrimitiveInfo>,
    q: Seq<PrimitiveInfo>,
    images: Seq<ImageInfo<I>>,
    vacant: Seq<usize>,
)
    requires
        images_consistent(p, images, vacant),
        q.len() == p.len(),
        forall|i: int| 0 <= i < q.len() && (#[trigger] q[i]) is Image ==> q[i] == p[i],
    ensures
        images_consistent(q, images, vacant),
{
    assert forall|i: int| 0 <= i < q.len() implies ((#[trigger] q[i]) matches PrimitiveInfo::Image {
        image_index,
    } ==> image_index < images.len() && images[image_index as int] is Image) by {
        if q[i] is Image {
            assert(q[i] == p[i]);
        }
    }
    assert forall|i: int, j: int|
        0 <= i < q.len() && 0 <= j < q.len() && i != j implies ((#[trigger] q[i]) matches PrimitiveInfo::Image {
        image_index: a,
    } ==> ((#[trigger] q[j]) matches PrimitiveInfo::Image { image_index: b } ==> a != b)) by {
        if q[i] is Image && q[j] is Image {
            assert(q[i] == p[i]);
            assert(q[j] == p[j]);
        }
    }
}

/// In a consistent bundle every removal of an id in the table succeeds, and an id past its end
/// is refused; either way the bundle stays consistent. The premises are what `remove` ensures.
pub proof fn lemma_removal_succeeds<G, S, D, I>(
    before: TessellatingRenderBundle<G, S, D, I>,
    id: PrimitiveId,
    after: TessellatingRenderBundle<G, S, D, I>,
    res: Result<(), GalileoError>,
)
    requires
        before.consistent(),
        before.removed(after, id, res),
        after.wf(),
        before.map_refs_valid() ==> after.map_refs_valid(),
    ensures
        res is Ok <==> id.spec_index() < before.primitives@.len(),
        after.consistent(),
{
    let k = id.spec_index() as int;
    let p = before.primitives@;
    if k >= p.len() {
        return;
    }
    let c = p.update(k, PrimitiveInfo::Vacant);
    assert(c == before.cleared(k));
    let n = before.screen_ref.vertices@.len() as int;
    let len = before.points@.len() as int;
    lemma_screen_push_other(p, PrimitiveInfo::Vacant, n, n);
    assert(screen_ranges_valid(p.update(k, PrimitiveInfo::Vacant), n));
    let q = after.primitives@;
    match p[k] {
        PrimitiveInfo::MapRef { vertex_range } => {
            assert(super::tessellating::map_ref_range(p[k]) is Some);
            let e = vertex_range.end as int;
            let l = super::tessellating::range_len(vertex_range.start as int, e);
            assert(q == shifted_map_refs(c, e, l));
            lemma_screen_other_shifts(c, n, e, l, 0);
            assert forall|v: int| 0 <= v <= len implies #[trigger] dots_from(q, v) <= len - v by {
                lemma_dots_other_shifts(c, e, l, v);
                lemma_dots_update(p, k, PrimitiveInfo::Vacant, v);
            }
            assert forall|i: int| 0 <= i < q.len() && (#[trigger] q[i]) is Image implies q[i]
                == p[i] by {
                assert(q[i] == shift_map_ref(c[i], e, l));
            }
            lemma_images_kept(p, q, before.images@, before.vacant_image_ids@);
        },
        PrimitiveInfo::ScreenRef { vertex_range } => {
            let s0 = vertex_range.start as int;
            let e = vertex_range.end as int;
            assert(screen_ref_range(p[k]) == Some((s0, e)));
            assert(0 <= s0 <= e <= n);
            let l = super::tessellating::range_len(s0, e);
            assert(l == e - s0);
            assert(q == shifted_screen_refs(c, e, l));
            assert forall|i: int|
                0 <= i < c.len() implies ((#[trigger] screen_ref_range(c[i])) matches Some((a, b))
                ==> b <= s0 || e <= a) by {
                if i != k {
                    assert(c[i] == p[i]);
                }
            }
            lemma_screen_cut(c, n, s0, e);
            assert(after.screen_ref.vertices@.len() == n - l);
            assert forall|v: int| 0 <= v <= len implies #[trigger] dots_from(q, v) <= len - v by {
                lemma_dots_other_shifts(c, e, l, v);
                lemma_dots_update(p, k, PrimitiveInfo::Vacant, v);
            }
            assert forall|i: int| 0 <= i < q.len() && (#[trigger] q[i]) is Image implies q[i]
                == p[i] by {
                assert(q[i] == shift_screen_ref(c[i], e, l));
            }
            lemma_images_kept(p, q, before.images@, before.vacant_image_ids@);
        },
        PrimitiveInfo::Dot { point_index } => {
            let d = point_index as int;
            assert(d < len) by {
                if d >= len {
                    lemma_dot_counted(p, k, len);
                }
            }
            assert(q == shifted_dots(c, d));
            lemma_screen_other_shifts(c, n, 0, 0, d);
            assert forall|v: int| 0 <= v <= len - 1 implies #[trigger] dots_from(q, v) <= len - 1
                - v by {
                lemma_dots_shifted(c, d, v);
                lemma_dots_update(p, k, PrimitiveInfo::Vacant, v);
                lemma_dots_update(p, k, PrimitiveInfo::Vacant, v + 1);
            }
            assert forall|i: int| 0 <= i < q.len() && (#[trigger] q[i]) is Image implies q[i]
                == p[i] by {
                assert(q[i] == shift_dot(c[i], d));
            }
            lemma_images_kept(p, q, before.images@, before.vacant_image_ids@);
        },
        PrimitiveInfo::Image { image_index } => {
            let a = image_index as int;
            let images = before.images@;
            let vacant = before.vacant_image_ids@;
            assert(a < images.len() && images[a] is Image);
            assert(q == shifted_dots(c, a));
            lemma_screen_other_shifts(c, n, 0, 0, a);
            assert forall|v: int| 0 <= v <= len implies #[trigger] dots_from(q, v) <= len - v by {
                lemma_dots_shifted(c, a, v);
                lemma_dots_update(p, k, PrimitiveInfo::Vacant, v);
                lemma_dots_update(p, k, PrimitiveInfo::Vacant, v + 1);
                if v == len {
                    lemma_dots_bounds(p, len, len + 1);
                }
            }
            let new_images = after.images@;
            let new_vacant = after.vacant_image_ids@;
            assert forall|i: int| 0 <= i < q.len() implies ((#[trigger] q[i]) matches PrimitiveInfo::Image {
                image_index,
            } ==> image_index < new_images.len() && new_images[image_index as int] is Image) by {
                assert(q[i] == shift_dot(c[i], a));
                if q[i] is Image {
                    assert(i != k);
                    assert(q[i] == p[i]);
                    assert(p[i]->image_index != p[k]->image_index);
                }
            }
            assert forall|i: int, j: int|
                0 <= i < q.len() && 0 <= j < q.len() && i != j implies ((#[trigger] q[i]) matches PrimitiveInfo::Image {
                image_index: x,
            } ==> ((#[trigger] q[j]) matches PrimitiveInfo::Image { image_index: y } ==> x != y)) by {
                assert(q[i] == shift_dot(c[i], a));
                assert(q[j] == shift_dot(c[j], a));
                if q[i] is Image && q[j] is Image {
                    assert(q[i] == p[i]);
                    assert(q[j] == p[j]);
                }
            }
            assert forall|m: int| 0 <= m < new_vacant.len() implies (#[trigger] new_vacant[m])
                < new_images.len() && new_images[new_vacant[m] as int] is Vacant by {
                if m < vacant.len() {
                    assert(new_vacant[m] == vacant[m]);
                    assert(images[vacant[m] as int] is Vacant);
                } else {
                    assert(new_vacant[m] == a);
                }
            }
            assert forall|m1: int, m2: int|
                0 <= m1 < new_vacant.len() && 0 <= m2 < new_vacant.len() && m1 != m2 implies #[trigger] new_vacant[m1]
                    != #[trigger] new_vacant[m2] by {
                if m1 < vacant.len() {
                    assert(images[vacant[m1] as int] is Vacant);
                }
                if m2 < vacant.len() {
                    assert(images[vacant[m2] as int] is Vacant);
                }
            }
        },
        _ => {
            assert(q == c);
            assert forall|v: int| 0 <= v <= len implies #[trigger] dots_from(q, v) <= len - v by {
                lemma_dots_update(p, k, PrimitiveInfo::Vacant, v);
            }
            lemma_images_kept(p, q, before.images@, before.vacant_image_ids@);
        },
    }
}

/// Removing a screen-referenced symbol keeps every other one: each keeps its kind, and its
/// recorded range, moved down when it lay after the removed one, covers the same vertices as
/// before. The removed one's slot becomes vacant. The premises are what `remove` ensures, on a
/// bundle whose screen-referenced ranges are valid (as in a consistent bundle).
pub proof fn lemma_screen_ref_removal_keeps_others<G, S, D, I>(
    before: TessellatingRenderBundle<G, S, D, I>,
    id: PrimitiveId,
    after: TessellatingRenderBundle<G, S, D, I>,
    res: Result<(), GalileoError>,
)
    requires
        screen_ranges_valid(before.primitives@, before.screen_ref.vertices@.len() as int),
        id.spec_index() < before.primitives@.len(),
        before.primitives@[id.spec_index() as int] is ScreenRef,
        before.removed(after, id, res),
    ensures
        after.primitives@.len() == before.primitives@.len(),
        after.primitives@[id.spec_index() as int] is Vacant,
        forall|i: int|
            0 <= i < before.primitives@.len() && i != id.spec_index() ==> match (
            #[trigger] before.primitives@[i]) {
                PrimitiveInfo::ScreenRef { vertex_range: r } => after.primitives@[i] matches PrimitiveInfo::ScreenRef {
                    vertex_range: q,
                } && q.end - q.start == r.end - r.start && after.screen_ref.vertices@.subrange(
                    q.start as int,
                    q.end as int,
                ) == before.screen_ref.vertices@.subrange(r.start as int, r.end as int),
                _ => true,
            },
{
    let k = id.spec_index() as int;
    let p = before.primitives@;
    let v = before.screen_ref.vertices@;
    let n = v.len() as int;
    assert(screen_ref_range(p[k]) is Some);
    let s0 = p[k]->ScreenRef_vertex_range.start as int;
    let e = p[k]->ScreenRef_vertex_range.end as int;
    assert(0 <= s0 <= e <= n);
    let l = range_len(s0, e);
    let c = before.cleared(k);
    assert(after.primitives@ == shifted_screen_refs(c, e, l));
    let w = after.screen_ref.vertices@;
    assert forall|i: int|
        0 <= i < p.len() && i != k implies match (#[trigger] p[i]) {
        PrimitiveInfo::ScreenRef { vertex_range: r } => after.primitives@[i] matches PrimitiveInfo::ScreenRef {
            vertex_range: q,
        } && q.end - q.start == r.end - r.start && w.subrange(q.start as int, q.end as int)
            == v.subrange(r.start as int, r.end as int),
        _ => true,
    } by {
        if p[i] is ScreenRef {
            let r = p[i]->ScreenRef_vertex_range;
            assert(screen_ref_range(p[i]) == Some((r.start as int, r.end as int)));
            assert(0 <= r.start <= r.end <= n);
            assert(r.end <= s0 || e <= r.start);
            assert(c[i] == p[i]);
            assert(after.primitives@[i] == shift_screen_ref(p[i], e, l));
            if s0 < e {
                assert(w == cut_vertices(v, s0, e));
                if r.start >= e {
                    assert(w.subrange(r.start - l, r.end - l) =~= v.subrange(
                        r.start as int,
                        r.end as int,
                    ));
                } else {
                    assert(w.subrange(r.start as int, r.end as int) =~= v.subrange(
                        r.start as int,
                        r.end as int,
                    ));
                }
            } else {
                assert(l == 0);
                assert(w == v);
            }
        }
    }
}

} // verus!
