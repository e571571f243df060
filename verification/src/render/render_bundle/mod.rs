//! Render bundles store tessellated primitives until they are packed for the GPU.
//!
//! The geometry itself (positions, normals, texture coordinates) is produced by a
//! tessellator and is opaque here: the vertex types are generic. What this module
//! keeps track of is how vertex and index buffers are joined and cut.

use crate::error::{is_generic_error, GalileoError};
use crate::primitives::DecodedImage;
use crate::render::ImagePaint;
use tessellating::{PolyVertex, IMAGE_VERTEX_SIZE, INDEX_SIZE, POLY_VERTEX_SIZE};
use world_set::{WorldPointGeometry, WorldRenderSet};
use core::ops::Range;
use std::sync::Arc;
use vstd::prelude::*;

pub mod screen_set;
pub mod tessellating;
pub mod world_set;
pub mod removal;

verus! {

/// Vertex and index buffers of a tessellation: every three indices form a triangle
/// over `vertices`.
#[derive(Debug)]
pub struct VertexBuffers<V> {
    /// Vertices.
    pub vertices: Vec<V>,
    /// Indices into `vertices`.
    pub indices: Vec<u32>,
}

impl<V> VertexBuffers<V> {
    /// Creates empty buffers.
    pub fn new() -> (r: Self)
        ensures
            r.vertices@.len() == 0,
            r.indices@.len() == 0,
    {
        VertexBuffers { vertices: Vec::new(), indices: Vec::new() }
    }

    /// Every index refers to one of the vertices.
    pub open spec fn indices_in_range(&self) -> bool {
        forall|k: int| 0 <= k < self.indices@.len() ==> #[trigger] self.indices@[k] < self.vertices@.len()
    }

    /// Tells whether every index refers to one of the vertices.
    pub fn has_indices_in_range(&self) -> (r: bool)
        ensures
            r == self.indices_in_range(),
    {
        let n = self.vertices.len();
        let mut k: usize = 0;
        while k < self.indices.len()
            invariant
                k <= self.indices@.len(),
                n == self.vertices@.len(),
                forall|j: int| 0 <= j < k ==> #[trigger] self.indices@[j] < self.vertices@.len(),
            decreases self.indices@.len() - k,
        {
            if self.indices[k] as usize >= n {
                return false;
            }
            k = k + 1;
        }
        true
    }
}

/// The indices `s`, each moved by `offset`.
pub open spec fn offset_indices(s: Seq<u32>, offset: int) -> Seq<u32> {
    Seq::new(s.len(), |k: int| (s[k] + offset) as u32)
}

/// Appends `source` to `target`. The indices of `source` are relative to its own vertices;
/// they are moved by the number of vertices `target` had, so they keep pointing at the same
/// vertices after the join.
pub fn append_tessellation<V>(target: &mut VertexBuffers<V>, source: VertexBuffers<V>)
    requires
        old(target).vertices@.len() + source.vertices@.len() <= u32::MAX,
        source.indices_in_range(),
    ensures
        final(target).vertices@ == old(target).vertices@ + source.vertices@,
        final(target).indices@ == old(target).indices@ + offset_indices(
            source.indices@,
            old(target).vertices@.len() as int,
        ),
        old(target).indices_in_range() ==> final(target).indices_in_range(),
{
    let offset: u32 = target.vertices.len() as u32;
    let VertexBuffers { vertices: mut src_vertices, indices: src_indices } = source;
    let ghost old_indices = target.indices@;
    let ghost n = src_vertices@.len();
    let mut k: usize = 0;
    while k < src_indices.len()
        invariant
            k <= src_indices@.len(),
            offset == old(target).vertices@.len(),
            offset + n <= u32::MAX,
            target.vertices@ == old(target).vertices@,
            forall|j: int| 0 <= j < src_indices@.len() ==> #[trigger] src_indices@[j] < n,
            target.indices@ == old_indices + offset_indices(src_indices@, offset as int).subrange(
                0,
                k as int,
            ),
        decreases src_indices@.len() - k,
    {
        let i = src_indices[k];
        target.indices.push(i + offset);
        proof {
            assert(offset_indices(src_indices@, offset as int).subrange(0, k + 1) =~= offset_indices(
                src_indices@,
                offset as int,
            ).subrange(0, k as int).push((i + offset) as u32));
        }
        k = k + 1;
    }
    proof {
        assert(offset_indices(src_indices@, offset as int).subrange(0, k as int) =~= offset_indices(
            src_indices@,
            offset as int,
        ));
    }
    target.vertices.append(&mut src_vertices);
    proof {
        if old(target).indices_in_range() {
            assert forall|j: int| 0 <= j < target.indices@.len() implies #[trigger] target.indices@[j]
                < target.vertices@.len() by {
                if j >= old_indices.len() {
                    assert(src_indices@[j - old_indices.len()] < n);
                }
            }
        }
    }
}

/// The indices that survive cutting the vertices `start..end` out of a tessellation, in order:
/// indices below `start` stay, indices at or above `end` move down by `end - start`, and
/// indices into the removed vertices are dropped.
pub open spec fn compact_indices(s: Seq<u32>, start: int, end: int) -> Seq<u32>
    decreases s.len(),
{
    if s.len() == 0 {
        Seq::empty()
    } else {
        let prev = compact_indices(s.drop_last(), start, end);
        let i = s.last();
        if i < start {
            prev.push(i)
        } else if i >= end {
            prev.push((i - (end - start)) as u32)
        } else {
            prev
        }
    }
}

/// The vertices left after cutting out `start..end`.
pub open spec fn cut_vertices<V>(s: Seq<V>, start: int, end: int) -> Seq<V> {
    s.subrange(0, start) + s.subrange(end, s.len() as int)
}

proof fn lemma_compact_len(s: Seq<u32>, start: int, end: int)
    ensures
        compact_indices(s, start, end).len() <= s.len(),
    decreases s.len(),
{
    if s.len() > 0 {
        lemma_compact_len(s.drop_last(), start, end);
    }
}

/// Cutting a vertex range out of a tessellation whose indices are all in range leaves indices
/// that are all in range of the shortened vertex buffer.
pub proof fn lemma_compact_in_range(s: Seq<u32>, start: int, end: int, n: int)
    requires
        0 <= start < end <= n,
        forall|k: int| 0 <= k < s.len() ==> #[trigger] s[k] < n,
    ensures
        forall|k: int|
            0 <= k < compact_indices(s, start, end).len() ==> #[trigger] compact_indices(
                s,
                start,
                end,
            )[k] < n - (end - start),
    decreases s.len(),
{
    if s.len() > 0 {
        assert forall|k: int| 0 <= k < s.drop_last().len() implies #[trigger] s.drop_last()[k] < n by {
            assert(s[k] < n);
        }
        lemma_compact_in_range(s.drop_last(), start, end, n);
        assert(s[s.len() - 1] < n);
        let prev = compact_indices(s.drop_last(), start, end);
        let c = compact_indices(s, start, end);
        assert forall|k: int| 0 <= k < c.len() implies #[trigger] c[k] < n - (end - start) by {
            if k < prev.len() {
                assert(c[k] == prev[k]);
            }
        }
    }
}

/// Appending a tessellation keeps what every index names: the indices that were there name the
/// same vertices as before, and each appended index names the vertex of the appended
/// tessellation that it named there. The premises are what `append_tessellation` ensures.
pub proof fn lemma_append_keeps_named_vertices<V>(
    before: VertexBuffers<V>,
    source: VertexBuffers<V>,
    after: VertexBuffers<V>,
)
    requires
        before.indices_in_range(),
        source.indices_in_range(),
        before.vertices@.len() + source.vertices@.len() <= u32::MAX,
        after.vertices@ == before.vertices@ + source.vertices@,
        after.indices@ == before.indices@ + offset_indices(
            source.indices@,
            before.vertices@.len() as int,
        ),
    ensures
        after.indices@.len() == before.indices@.len() + source.indices@.len(),
        forall|j: int|
            0 <= j < before.indices@.len() ==> #[trigger] after.indices@[j] < after.vertices@.len()
                && after.vertices@[after.indices@[j] as int] == before.vertices@[before.indices@[j] as int],
        forall|j: int|
            0 <= j < source.indices@.len() ==> #[trigger] after.indices@[before.indices@.len() + j]
                < after.vertices@.len() && after.vertices@[after.indices@[before.indices@.len() + j] as int]
                == source.vertices@[source.indices@[j] as int],
{
    let n = before.vertices@.len() as int;
    assert forall|j: int| 0 <= j < before.indices@.len() implies #[trigger] after.indices@[j]
        < after.vertices@.len() && after.vertices@[after.indices@[j] as int]
        == before.vertices@[before.indices@[j] as int] by {
        assert(after.indices@[j] == before.indices@[j]);
        assert(before.indices@[j] < n);
    }
    assert forall|j: int| 0 <= j < source.indices@.len() implies #[trigger] after.indices@[before.indices@.len() + j]
        < after.vertices@.len() && after.vertices@[after.indices@[before.indices@.len() + j] as int]
        == source.vertices@[source.indices@[j] as int] by {
        assert(source.indices@[j] < source.vertices@.len());
        assert(after.indices@[before.indices@.len() + j] == (source.indices@[j] + n) as u32);
    }
}

/// Whether an index survives cutting the vertices `start..end` out: it does not point into
/// the cut.
pub open spec fn outside_cut(start: int, end: int) -> spec_fn(u32) -> bool {
    |i: u32| !(start <= i && i < end)
}

/// Cutting the vertices `start..end` out of a tessellation keeps what every surviving index
/// names: the compacted indices are as many as the indices outside the cut, and the `j`-th of
/// them names, in the shortened vertex list, the vertex that the `j`-th surviving index named
/// before. (So an index at or above `end` moves down by exactly `end - start`, and one below
/// `start` stays.)
pub proof fn lemma_cut_keeps_named_vertices<V>(v: Seq<V>, s: Seq<u32>, start: int, end: int)
    requires
        0 <= start < end <= v.len(),
        forall|k: int| 0 <= k < s.len() ==> #[trigger] s[k] < v.len(),
    ensures
        compact_indices(s, start, end).len() == s.filter(outside_cut(start, end)).len(),
        forall|j: int|
            0 <= j < compact_indices(s, start, end).len() ==> {
                &&& #[trigger] compact_indices(s, start, end)[j] < cut_vertices(v, start, end).len()
                &&& cut_vertices(v, start, end)[compact_indices(s, start, end)[j] as int]
                    == v[s.filter(outside_cut(start, end))[j] as int]
            },
    decreases s.len(),
{
    let c = compact_indices(s, start, end);
    let w = cut_vertices(v, start, end);
    let f = outside_cut(start, end);
    reveal(Seq::filter);
    if s.len() == 0 {
        assert(s.filter(f).len() == 0);
    } else {
        let t = s.drop_last();
        assert forall|k: int| 0 <= k < t.len() implies #[trigger] t[k] < v.len() by {
            assert(t[k] == s[k]);
        }
        lemma_cut_keeps_named_vertices(v, t, start, end);
        let prev = compact_indices(t, start, end);
        let kept = t.filter(f);
        let x = s.last();
        assert(s.filter(f) == if f(x) { kept.push(x) } else { kept });
        assert(x < v.len());
        assert(w.len() == v.len() - (end - start));
        if x < start {
            assert(c == prev.push(x));
            assert(w[x as int] == v[x as int]);
        } else if x >= end {
            assert(c == prev.push((x - (end - start)) as u32));
            assert(w[(x - (end - start)) as int] == v[x as int]);
        } else {
            assert(c == prev);
        }
        assert forall|j: int| 0 <= j < c.len() implies {
            &&& #[trigger] c[j] < w.len()
            &&& w[c[j] as int] == v[s.filter(f)[j] as int]
        } by {
            if j < prev.len() {
                assert(c[j] == prev[j]);
                assert(s.filter(f)[j] == kept[j]);
            }
        }
    }
}

/// What `remove_from_tessellation` does to a tessellation whose indices are in range, for a
/// range inside its vertices: every surviving index still names the vertex it named before (see
/// [`lemma_cut_keeps_named_vertices`]). The premises are what the function ensures.
pub proof fn lemma_removal_keeps_named_vertices<V>(
    before: VertexBuffers<V>,
    range: Range<usize>,
    after: VertexBuffers<V>,
)
    requires
        before.indices_in_range(),
        range.start < range.end <= before.vertices@.len(),
        after.vertices@ == cut_vertices(before.vertices@, range.start as int, range.end as int),
        after.indices@ == compact_indices(before.indices@, range.start as int, range.end as int),
    ensures
        after.vertices@.len() == before.vertices@.len() - (range.end - range.start),
        after.indices@.len() == before.indices@.filter(
            outside_cut(range.start as int, range.end as int),
        ).len(),
        forall|j: int|
            0 <= j < after.indices@.len() ==> #[trigger] after.indices@[j] < after.vertices@.len()
                && after.vertices@[after.indices@[j] as int] == before.vertices@[before.indices@.filter(
                outside_cut(range.start as int, range.end as int),
            )[j] as int],
{
    lemma_cut_keeps_named_vertices(
        before.vertices@,
        before.indices@,
        range.start as int,
        range.end as int,
    );
}

/// Cuts the vertices `range` out of a tessellation and drops the indices that point at them;
/// the indices above the range move down. Returns how many indices were dropped.
///
/// An empty range changes nothing; a range that ends past the vertices is an error.
pub fn remove_from_tessellation<V>(tessellation: &mut VertexBuffers<V>, range: Range<usize>) -> (res:
    Result<usize, GalileoError>)
    requires
        range.start < range.end <= old(tessellation).vertices@.len() ==> range.end <= u32::MAX,
    ensures
        range.start >= range.end ==> res == Ok::<usize, GalileoError>(0usize)
            && final(tessellation).vertices@ == old(tessellation).vertices@
            && final(tessellation).indices@ == old(tessellation).indices@,
        range.start < range.end && range.end > old(tessellation).vertices@.len() ==> is_generic_error(
            res,
            "range out of bounds"@,
        ) && final(tessellation).vertices@ == old(tessellation).vertices@
            && final(tessellation).indices@ == old(tessellation).indices@,
        range.start < range.end <= old(tessellation).vertices@.len() ==> {
            &&& final(tessellation).vertices@ == cut_vertices(
                old(tessellation).vertices@,
                range.start as int,
                range.end as int,
            )
            &&& final(tessellation).indices@ == compact_indices(
                old(tessellation).indices@,
                range.start as int,
                range.end as int,
            )
            &&& res == Ok::<usize, GalileoError>(
                (old(tessellation).indices@.len() - final(tessellation).indices@.len()) as usize,
            )
        },
        old(tessellation).indices_in_range() ==> final(tessellation).indices_in_range(),
        final(tessellation).indices@.len() <= old(tessellation).indices@.len(),
{
    if range.start >= range.end {
        return Ok(0);
    }
    if range.end > tessellation.vertices.len() {
        return Err(GalileoError::Generic("range out of bounds".to_string()));
    }
    let len: u32 = (range.end - range.start) as u32;
    let start: u32 = range.start as u32;
    let end: u32 = range.end as u32;

    let mut tail = tessellation.vertices.split_off(range.end);
    tessellation.vertices.truncate(range.start);
    tessellation.vertices.append(&mut tail);

    let length_before = tessellation.indices.len();
    let mut kept: Vec<u32> = Vec::new();
    let mut k: usize = 0;
    while k < tessellation.indices.len()
        invariant
            k <= tessellation.indices@.len(),
            tessellation.indices@ == old(tessellation).indices@,
            start == range.start,
            end == range.end,
            len == end - start,
            kept@ == compact_indices(tessellation.indices@.subrange(0, k as int), start as int, end as int),
        decreases tessellation.indices@.len() - k,
    {
        let i = tessellation.indices[k];
        proof {
            assert(tessellation.indices@.subrange(0, k + 1).drop_last() =~= tessellation.indices@.subrange(
                0,
                k as int,
            ));
        }
        if i < start {
            kept.push(i);
        } else if i >= end {
            kept.push(i - len);
        }
        k = k + 1;
    }
    proof {
        assert(tessellation.indices@.subrange(0, k as int) =~= tessellation.indices@);
        lemma_compact_len(old(tessellation).indices@, start as int, end as int);
        if old(tessellation).indices_in_range() {
            lemma_compact_in_range(
                old(tessellation).indices@,
                start as int,
                end as int,
                old(tessellation).vertices@.len() as int,
            );
        }
    }
    tessellation.indices = kept;
    let length_after = tessellation.indices.len();
    Ok(length_before - length_after)
}

/// Triangle fan over a center vertex `first` and the `n` rim vertices that follow it:
/// rim vertices `k` and `k + 1` form a triangle with the center.
pub open spec fn fan_triangles(first: int, n: int) -> Seq<u32>
    decreases n,
{
    if n <= 1 {
        Seq::empty()
    } else {
        fan_triangles(first, n - 1) + seq![first as u32, (first + n - 1) as u32, (first + n) as u32]
    }
}

/// Indices of a circle sector drawn as a fan: the fan triangles, closed back to the first rim
/// vertex when the sector is a full circle.
pub open spec fn sector_indices(first: int, n: int, is_full_circle: bool) -> Seq<u32> {
    fan_triangles(first, n) + if is_full_circle {
        seq![first as u32, (first + n) as u32, (first + 1) as u32]
    } else {
        Seq::empty()
    }
}

/// Every index of the sector fits in `u32`.
pub open spec fn sector_indices_fit(first: int, n: int, is_full_circle: bool) -> bool {
    &&& n >= 2 ==> first + n <= u32::MAX
    &&& is_full_circle ==> first + n + 1 <= u32::MAX
}

/// A fan over `n` rim vertices has one triangle (three indices) for each pair of consecutive rim
/// vertices.
pub proof fn lemma_fan_len(first: int, n: int)
    requires
        n >= 0,
    ensures
        fan_triangles(first, n).len() == if n <= 1 { 0 } else { 3 * (n - 1) },
    decreases n,
{
    if n > 1 {
        lemma_fan_len(first, n - 1);
    }
}

/// The entries of a fan: triangle `t` is the center `first` and the rim vertices `first + 1 + t`
/// and `first + 2 + t`.
pub proof fn lemma_fan_entries(first: int, n: int, t: int)
    requires
        0 <= first,
        first + n <= u32::MAX,
        0 <= t < n - 1,
    ensures
        fan_triangles(first, n)[3 * t] == first as u32,
        fan_triangles(first, n)[3 * t + 1] == (first + 1 + t) as u32,
        fan_triangles(first, n)[3 * t + 2] == (first + 2 + t) as u32,
    decreases n,
{
    lemma_fan_len(first, n - 1);
    if t < n - 2 {
        lemma_fan_entries(first, n - 1, t);
    }
}

/// Indices of a circle sector whose center vertex is at `first_index` and whose `contour_len`
/// rim vertices follow it.
pub fn sector_fan_indices(first_index: u32, contour_len: usize, is_full_circle: bool) -> (indices:
    Vec<u32>)
    requires
        sector_indices_fit(first_index as int, contour_len as int, is_full_circle),
    ensures
        indices@ == sector_indices(first_index as int, contour_len as int, is_full_circle),
{
    let mut indices: Vec<u32> = Vec::new();
    let mut k: usize = 1;
    while k < contour_len
        invariant
            1 <= k,
            k <= contour_len || (contour_len == 0 && k == 1),
            contour_len >= 2 ==> first_index + contour_len <= u32::MAX,
            indices@ == fan_triangles(first_index as int, k as int),
        decreases contour_len - k,
    {
        indices.push(first_index);
        indices.push(first_index + k as u32);
        indices.push(first_index + k as u32 + 1);
        k = k + 1;
        proof {
            assert(indices@ =~= fan_triangles(first_index as int, k as int));
        }
    }
    proof {
        if contour_len >= 1 {
            assert(k == contour_len);
        } else {
            assert(k == 1);
            assert(fan_triangles(first_index as int, 1) =~= Seq::<u32>::empty());
            assert(fan_triangles(first_index as int, 0) =~= Seq::<u32>::empty());
        }
        assert(fan_triangles(first_index as int, k as int) =~= fan_triangles(
            first_index as int,
            contour_len as int,
        ));
    }
    if is_full_circle {
        indices.push(first_index);
        indices.push(first_index + contour_len as u32);
        indices.push(first_index + 1);
    }
    proof {
        assert(indices@ =~= sector_indices(first_index as int, contour_len as int, is_full_circle));
    }
    indices
}

/// Number of vertices of all the tessellations.
pub open spec fn total_vertices<V>(parts: Seq<VertexBuffers<V>>) -> int
    decreases parts.len(),
{
    if parts.len() == 0 {
        0
    } else {
        total_vertices(parts.drop_last()) + parts.last().vertices@.len()
    }
}

/// The vertices of all the tessellations, one after another.
pub open spec fn joined_vertices<V>(parts: Seq<VertexBuffers<V>>) -> Seq<V>
    decreases parts.len(),
{
    if parts.len() == 0 {
        Seq::empty()
    } else {
        joined_vertices(parts.drop_last()) + parts.last().vertices@
    }
}

/// The indices of all the tessellations joined after `base` vertices: each part's indices
/// move by the number of vertices before it.
pub open spec fn joined_indices<V>(base: int, parts: Seq<VertexBuffers<V>>) -> Seq<u32>
    decreases parts.len(),
{
    if parts.len() == 0 {
        Seq::empty()
    } else {
        joined_indices(base, parts.drop_last()) + offset_indices(
            parts.last().indices@,
            base + total_vertices(parts.drop_last()),
        )
    }
}

/// Joining tessellations keeps every vertex: the joined vertex list is as long as all the parts
/// together.
pub proof fn lemma_joined_len<V>(parts: Seq<VertexBuffers<V>>)
    ensures
        joined_vertices(parts).len() == total_vertices(parts),
        total_vertices(parts) >= 0,
    decreases parts.len(),
{
    if parts.len() > 0 {
        lemma_joined_len(parts.drop_last());
    }
}

proof fn lemma_total_prefix<V>(parts: Seq<VertexBuffers<V>>, k: int)
    requires
        0 <= k <= parts.len(),
    ensures
        total_vertices(parts.subrange(0, k)) <= total_vertices(parts),
    decreases parts.len(),
{
    if k < parts.len() {
        assert(parts.drop_last().subrange(0, k) =~= parts.subrange(0, k));
        lemma_total_prefix(parts.drop_last(), k);
    } else {
        assert(parts.subrange(0, k) =~= parts);
    }
}

/// Appends tessellations one after another (the glyphs of a label, the parts of a shape).
pub fn append_tessellations<V>(target: &mut VertexBuffers<V>, parts: Vec<VertexBuffers<V>>)
    requires
        old(target).vertices@.len() + total_vertices(parts@) <= u32::MAX,
        forall|g: int| 0 <= g < parts@.len() ==> (#[trigger] parts@[g]).indices_in_range(),
    ensures
        final(target).vertices@ == old(target).vertices@ + joined_vertices(parts@),
        final(target).indices@ == old(target).indices@ + joined_indices(
            old(target).vertices@.len() as int,
            parts@,
        ),
        old(target).indices_in_range() ==> final(target).indices_in_range(),
{
    let ghost all = parts@;
    let ghost base = old(target).vertices@.len() as int;
    let ghost old_indices = old(target).indices@;
    let ghost old_vertices = old(target).vertices@;
    proof {
        lemma_joined_len(all);
    }
    for part in it: parts
        invariant
            it.seq() == all,
            base == old_vertices.len(),
            base + total_vertices(all) <= u32::MAX,
            forall|g: int| 0 <= g < all.len() ==> (#[trigger] all[g]).indices_in_range(),
            target.vertices@ == old_vertices + joined_vertices(all.subrange(0, it.index() as int)),
            target.indices@ == old_indices + joined_indices(base, all.subrange(0, it.index() as int)),
            old_indices.len() == old(target).indices@.len(),
            old(target).indices_in_range() ==> target.indices_in_range(),
    {
        let ghost k = it.index() as int;
        proof {
            lemma_joined_len(all.subrange(0, k));
            lemma_total_prefix(all, k + 1);
            assert(all.subrange(0, k + 1).drop_last() =~= all.subrange(0, k));
            assert(all.subrange(0, k + 1).last() == all[k]);
            assert(part == all[k]);
            assert(all[k].indices_in_range());
        }
        append_tessellation(target, part);
        proof {
            assert(target.vertices@ =~= old_vertices + joined_vertices(all.subrange(0, k + 1)));
            assert(target.indices@ =~= old_indices + joined_indices(base, all.subrange(0, k + 1)));
        }
    }
    proof {
        assert(all.subrange(0, all.len() as int) =~= all);
    }
}

/// Number of indices of all the tessellations.
pub open spec fn total_indices<V>(parts: Seq<VertexBuffers<V>>) -> int
    decreases parts.len(),
{
    if parts.len() == 0 {
        0
    } else {
        total_indices(parts.drop_last()) + parts.last().indices@.len()
    }
}

/// The joined indices are as many as the indices of all parts.
pub proof fn lemma_joined_indices_len<V>(base: int, parts: Seq<VertexBuffers<V>>)
    ensures
        joined_indices(base, parts).len() == total_indices(parts),
        total_indices(parts) >= 0,
    decreases parts.len(),
{
    if parts.len() > 0 {
        lemma_joined_indices_len(base, parts.drop_last());
    }
}

proof fn lemma_compact_below(a: Seq<u32>, start: int, end: int)
    requires
        forall|k: int| 0 <= k < a.len() ==> #[trigger] a[k] < start,
    ensures
        compact_indices(a, start, end) == a,
    decreases a.len(),
{
    if a.len() > 0 {
        assert forall|k: int| 0 <= k < a.drop_last().len() implies #[trigger] a.drop_last()[k] < start by {
            assert(a[k] < start);
        }
        lemma_compact_below(a.drop_last(), start, end);
        assert(a.drop_last().push(a.last()) =~= a);
    }
}

proof fn lemma_compact_drops_tail(a: Seq<u32>, b: Seq<u32>, start: int, end: int)
    requires
        forall|k: int| 0 <= k < b.len() ==> start <= #[trigger] b[k] < end,
    ensures
        compact_indices(a + b, start, end) == compact_indices(a, start, end),
    decreases b.len(),
{
    if b.len() > 0 {
        assert((a + b).drop_last() =~= a + b.drop_last());
        assert((a + b).last() == b.last());
        assert forall|k: int| 0 <= k < b.drop_last().len() implies start <= #[trigger] b.drop_last()[k]
            < end by {
            assert(b[k] == b.drop_last()[k]);
        }
        lemma_compact_drops_tail(a, b.drop_last(), start, end);
    } else {
        assert(a + b =~= a);
    }
}

/// Cutting out the vertices that `append_tessellation` appended restores the buffers it
/// appended to: the vertices, the indices, and (counting) the indices that were dropped.
pub proof fn lemma_cut_undoes_append<V>(vertices: Seq<V>, indices: Seq<u32>, source: VertexBuffers<V>)
    requires
        forall|k: int| 0 <= k < indices.len() ==> #[trigger] indices[k] < vertices.len(),
        source.indices_in_range(),
        vertices.len() + source.vertices@.len() <= u32::MAX,
        source.vertices@.len() > 0,
    ensures
        cut_vertices(
            vertices + source.vertices@,
            vertices.len() as int,
            (vertices.len() + source.vertices@.len()) as int,
        ) == vertices,
        compact_indices(
            indices + offset_indices(source.indices@, vertices.len() as int),
            vertices.len() as int,
            (vertices.len() + source.vertices@.len()) as int,
        ) == indices,
{
    let n = vertices.len() as int;
    let m = source.vertices@.len() as int;
    let all = vertices + source.vertices@;
    assert(all.subrange(0, n) =~= vertices);
    assert(all.subrange(n + m, all.len() as int) =~= Seq::<V>::empty());
    assert(cut_vertices(all, n, n + m) =~= vertices);
    let moved = offset_indices(source.indices@, n);
    assert forall|k: int| 0 <= k < moved.len() implies n <= #[trigger] moved[k] < n + m by {
        assert(source.indices@[k] < m);
    }
    lemma_compact_drops_tail(indices, moved, n, n + m);
    lemma_compact_below(indices, n, n + m);
}

/// Render bundle: stores render primitives and prepares them to be rendered with the rendering
/// backend. Map-referenced data goes to the world set; labels that keep their screen size go to
/// the screen sets.
pub struct RenderBundle<G, D, I, L> {
    /// Map-referenced data.
    pub world_set: WorldRenderSet<G, D, I>,
    /// Screen-sized labels and markers.
    pub screen_sets: Vec<L>,
}

impl<G, D, I, L> RenderBundle<G, D, I, L> {
    /// Creates an empty bundle.
    pub fn new() -> (r: Self)
        ensures
            r.world_set.wf(),
            r.world_set.poly_tessellation.vertices@.len() == 0,
            r.world_set.poly_tessellation.indices@.len() == 0,
            r.world_set.points@.len() == 0,
            r.world_set.images@.len() == 0,
            r.world_set.image_store@.len() == 0,
            r.world_set.clip_area is None,
            r.world_set.buffer_size == 0,
            r.screen_sets@.len() == 0,
    {
        RenderBundle { world_set: WorldRenderSet::new(), screen_sets: Vec::new() }
    }

    /// Adds an image to the bundle.
    pub fn add_image(&mut self, image: DecodedImage, vertices: [I; 4], paint: ImagePaint)
        requires
            old(self).world_set.wf(),
            old(self).world_set.buffer_size + image.bytes@.len() + IMAGE_VERTEX_SIZE * 4
                <= usize::MAX,
        ensures
            final(self).world_set.wf(),
            final(self).world_set.buffer_size == old(self).world_set.buffer_size + image.bytes@.len()
                + IMAGE_VERTEX_SIZE * 4,
            final(self).world_set.images@.len() == old(self).world_set.images@.len() + 1,
            final(self).world_set.images@.drop_last() == old(self).world_set.images@,
            final(self).world_set.images@.last().vertices == vertices,
            final(self).world_set.images@.last().opacity == paint.opacity,
            final(self).world_set.image_store@[final(self).world_set.images@.last().store_index as int]
                == Arc::new(image),
            final(self).world_set.poly_tessellation == old(self).world_set.poly_tessellation,
            final(self).world_set.points == old(self).world_set.points,
            final(self).screen_sets == old(self).screen_sets,
    {
        self.world_set.add_image_owned(image, vertices, paint);
    }

    /// Adds a point symbol to the bundle.
    pub fn add_point(&mut self, geometry: WorldPointGeometry<G, D>)
        requires
            old(self).world_set.point_defined(geometry),
        ensures
            final(self).screen_sets == old(self).screen_sets,
            old(self).world_set.point_added(final(self).world_set, geometry),
    {
        self.world_set.add_point(geometry);
    }

    /// Adds a line to the bundle, from its stroke tessellation (`None` when there is nothing
    /// to draw).
    pub fn add_line(&mut self, tessellation: Option<VertexBuffers<PolyVertex<G>>>)
        requires
            tessellation matches Some(t) ==> {
                &&& old(self).world_set.poly_tessellation.vertices@.len() + t.vertices@.len()
                    <= u32::MAX
                &&& t.indices_in_range()
                &&& old(self).world_set.buffer_size + POLY_VERTEX_SIZE * t.vertices@.len()
                    + INDEX_SIZE * t.indices@.len() <= usize::MAX
            },
        ensures
            final(self).screen_sets == old(self).screen_sets,
            tessellation is None ==> final(self).world_set == old(self).world_set,
            tessellation matches Some(t) ==> {
                &&& final(self).world_set.poly_tessellation.vertices@
                    == old(self).world_set.poly_tessellation.vertices@ + t.vertices@
                &&& final(self).world_set.poly_tessellation.indices@
                    == old(self).world_set.poly_tessellation.indices@ + offset_indices(
                    t.indices@,
                    old(self).world_set.poly_tessellation.vertices@.len() as int,
                )
                &&& final(self).world_set.buffer_size == old(self).world_set.buffer_size
                    + POLY_VERTEX_SIZE * t.vertices@.len() + INDEX_SIZE * t.indices@.len()
            },
            final(self).world_set.points == old(self).world_set.points,
            final(self).world_set.images == old(self).world_set.images,
            final(self).world_set.clip_area == old(self).world_set.clip_area,
            final(self).world_set.image_store == old(self).world_set.image_store,
    {
        self.world_set.add_line(tessellation);
    }

    /// Adds a polygon to the bundle, from its fill tessellation.
    pub fn add_polygon(&mut self, tessellation: VertexBuffers<PolyVertex<G>>)
        requires
            old(self).world_set.poly_tessellation.vertices@.len() + tessellation.vertices@.len()
                <= u32::MAX,
            tessellation.indices_in_range(),
            old(self).world_set.buffer_size + POLY_VERTEX_SIZE * tessellation.vertices@.len()
                + INDEX_SIZE * tessellation.indices@.len() <= usize::MAX,
        ensures
            final(self).screen_sets == old(self).screen_sets,
            final(self).world_set.poly_tessellation.vertices@
                == old(self).world_set.poly_tessellation.vertices@ + tessellation.vertices@,
            final(self).world_set.poly_tessellation.indices@
                == old(self).world_set.poly_tessellation.indices@ + offset_indices(
                tessellation.indices@,
                old(self).world_set.poly_tessellation.vertices@.len() as int,
            ),
            final(self).world_set.buffer_size == old(self).world_set.buffer_size + POLY_VERTEX_SIZE
                * tessellation.vertices@.len() + INDEX_SIZE * tessellation.indices@.len(),
            final(self).world_set.points == old(self).world_set.points,
            final(self).world_set.images == old(self).world_set.images,
            final(self).world_set.clip_area == old(self).world_set.clip_area,
            final(self).world_set.image_store == old(self).world_set.image_store,
    {
        self.world_set.add_polygon(tessellation);
    }

    /// Adds a label to the bundle; a label whose text could not be shaped (`None`) adds nothing.
    pub fn add_label(&mut self, set: Option<L>)
        ensures
            final(self).world_set == old(self).world_set,
            set is None ==> final(self).screen_sets@ == old(self).screen_sets@,
            set matches Some(l) ==> final(self).screen_sets@ == old(self).screen_sets@.push(l),
    {
        if let Some(set) = set {
            self.screen_sets.push(set);
        }
    }
}

} // verus!
