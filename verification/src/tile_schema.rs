//! Tile indices and the integer part of tile iteration.
//!
//! A tile schema maps a map view onto a rectangular range of tile indices.
//! The floating-point step (from map coordinates to index bounds) is done by
//! the caller; this module enumerates the indices and wraps the `x` index
//! over the antimeridian.

use vstd::prelude::*;

verus! {

/// Direction of the Y index of tiles.
#[derive(Debug, Copy, Clone, PartialEq, Eq, Structural)]
pub enum VerticalDirection {
    /// Tiles with `Y == 0` are at the top of the map.
    TopToBottom,
    /// Tiles with `Y == 0` are at the bottom of the map.
    BottomToTop,
}

/// Tile index with additional virtual `display_x` index that can be used to wrap tiles
/// over 180 longitude line.
#[derive(Debug, PartialEq, Eq, Copy, Clone, Hash, Structural)]
pub struct WrappingTileIndex {
    /// Z index.
    pub z: u32,
    /// X index.
    pub x: i32,
    /// Y index.
    pub y: i32,
    /// Virtual wrapping X index.
    pub display_x: i32,
}

impl WrappingTileIndex {
    /// Create a new index instance without wrapping.
    pub fn new(x: i32, y: i32, z: u32) -> (r: Self)
        ensures
            r == (WrappingTileIndex { x, y, z, display_x: x }),
    {
        Self { x, y, z, display_x: x }
    }
}

/// Tile index.
#[derive(Debug, PartialEq, Eq, Copy, Clone, Hash, Structural)]
pub struct TileIndex {
    /// X index.
    pub x: i32,
    /// Y index.
    pub y: i32,
    /// Z index.
    pub z: u32,
}

impl TileIndex {
    /// Create a new index instance.
    pub fn new(x: i32, y: i32, z: u32) -> (r: Self)
        ensures
            r == (TileIndex { x, y, z }),
    {
        Self { x, y, z }
    }

    /// Converts the tile index into a wrapping tile index by setting `display_x` equal to `x`.
    pub fn into_wrapping(&self) -> (r: WrappingTileIndex)
        ensures
            r == (WrappingTileIndex { x: self.x, y: self.y, z: self.z, display_x: self.x }),
    {
        WrappingTileIndex { x: self.x, y: self.y, z: self.z, display_x: self.x }
    }
}

/// The tile index that a wrapping index stands for: `display_x` is dropped.
pub open spec fn tile_of(w: WrappingTileIndex) -> TileIndex {
    TileIndex { x: w.x, y: w.y, z: w.z }
}

impl From<WrappingTileIndex> for TileIndex {
    fn from(value: WrappingTileIndex) -> (r: Self) {
        Self { x: value.x, y: value.y, z: value.z }
    }
}

impl vstd::std_specs::convert::FromSpecImpl<WrappingTileIndex> for TileIndex {
    open spec fn obeys_from_spec() -> bool {
        true
    }

    open spec fn from_spec(v: WrappingTileIndex) -> TileIndex {
        tile_of(v)
    }
}

/// Dropping the virtual index of a wrapped tile index gives back the index it was made from.
pub proof fn lemma_wrapping_round_trip(t: TileIndex)
    ensures
        tile_of(WrappingTileIndex { x: t.x, y: t.y, z: t.z, display_x: t.x }) == t,
{
}

/// Absolute value on mathematical integers.
pub open spec fn abs_int(a: int) -> int {
    if a < 0 {
        -a
    } else {
        a
    }
}

/// The real `x` index of the tile displayed at `display_x`: the display index
/// brought into the schema's index range `[schema_x_min, schema_x_min + |index_range|)`
/// (Euclidean remainder, as `i32::rem_euclid` computes it).
pub open spec fn wrapped_x(display_x: int, schema_x_min: int, index_range: int) -> int {
    (display_x - schema_x_min) % abs_int(index_range) + schema_x_min
}

/// Wrapping brings any display column into the schema's columns `[schema_x_min, schema_x_max]`,
/// to the column that is a whole number of schema widths away from it, and leaves a column that
/// is already in the schema where it is.
pub proof fn lemma_wrapped_x_in_schema(display_x: int, schema_x_min: int, schema_x_max: int)
    requires
        schema_x_min <= schema_x_max,
    ensures
        ({
            let range = schema_index_range(schema_x_min, schema_x_max);
            let w = wrapped_x(display_x, schema_x_min, range);
            &&& schema_x_min <= w <= schema_x_max
            &&& (display_x - w) % range == 0
            &&& (schema_x_min <= display_x <= schema_x_max ==> w == display_x)
        }),
{
    let range = schema_index_range(schema_x_min, schema_x_max);
    let d = display_x - schema_x_min;
    assert(abs_int(range) == range);
    vstd::arithmetic::div_mod::lemma_fundamental_div_mod(d, range);
    let q = d / range;
    let m = d % range;
    assert(d == range * q + m);
    assert(display_x - wrapped_x(display_x, schema_x_min, range) == range * q);
    vstd::arithmetic::div_mod::lemma_mod_multiples_basic(q, range);
    assert((q * range) % range == 0);
    assert(range * q == q * range) by (nonlinear_arith);
    if 0 <= d < range {
        vstd::arithmetic::div_mod::lemma_small_mod(d as nat, range as nat);
    }
}

/// Wrapping `display_x` is defined in `i32` arithmetic: the difference to the
/// schema minimum fits, the range is not zero, `rem_euclid` does not overflow,
/// and the wrapped index fits.
pub open spec fn wrap_defined(display_x: int, schema_x_min: int, index_range: int) -> bool {
    let d = display_x - schema_x_min;
    &&& i32::MIN <= d <= i32::MAX
    &&& index_range != 0
    &&& !(d == i32::MIN && index_range == -1)
    &&& i32::MIN <= wrapped_x(display_x, schema_x_min, index_range) <= i32::MAX
}

/// Number of tile indices in the schema's `x` range `[schema_x_min, schema_x_max]`.
pub open spec fn schema_index_range(schema_x_min: int, schema_x_max: int) -> int {
    schema_x_max - schema_x_min + 1
}

/// The tile shown at display column `display_x` and row `y` of level `z`.
pub open spec fn grid_tile(
    display_x: int,
    y: int,
    z: u32,
    schema_x_min: int,
    schema_x_max: int,
) -> WrappingTileIndex {
    WrappingTileIndex {
        x: wrapped_x(display_x, schema_x_min, schema_index_range(schema_x_min, schema_x_max)) as i32,
        y: y as i32,
        z,
        display_x: display_x as i32,
    }
}

/// Number of indices in the inclusive range `[lo, hi]` (zero when empty).
pub open spec fn span(lo: int, hi: int) -> int {
    if lo <= hi {
        hi - lo + 1
    } else {
        0
    }
}

/// Enumerating the tiles overflows `i32` arithmetic or divides by zero exactly when this fails.
pub open spec fn tile_range_defined(
    x_min: i32,
    x_max: i32,
    y_min: i32,
    y_max: i32,
    schema_x_min: i32,
    schema_x_max: i32,
) -> bool {
    &&& i32::MIN <= schema_x_max - schema_x_min <= i32::MAX
    &&& schema_x_max - schema_x_min + 1 <= i32::MAX
    &&& (x_min <= x_max && y_min <= y_max) ==> forall|dx: int|
        x_min <= dx <= x_max ==> #[trigger] wrap_defined(
            dx,
            schema_x_min as int,
            schema_index_range(schema_x_min as int, schema_x_max as int),
        )
}

/// Euclidean remainder of `d` by `m`, as `i64::rem_euclid` computes it.
fn rem_euclid_i64(d: i64, m: i64) -> (r: i64)
    requires
        0 < m,
        -0x1_0000_0000 <= d <= 0x1_0000_0000,
        m <= 0x1_0000_0000,
    ensures
        r == d % m,
{
    if d >= 0 {
        ((d as u64) % (m as u64)) as i64
    } else {
        let q: i64 = (((-d) as u64) % (m as u64)) as i64;
        proof {
            let k = (-d) / (m as int);
            vstd::arithmetic::div_mod::lemma_fundamental_div_mod(-d, m as int);
            assert(0 <= q < m);
            assert(-d == m * k + q);
            if q == 0 {
                assert(d == (-k) * m + 0) by (nonlinear_arith)
                    requires -d == m * k + q, q == 0;
                vstd::arithmetic::div_mod::lemma_fundamental_div_mod_converse(
                    d as int, m as int, -k, 0);
            } else {
                assert(d == (-k - 1) * m + (m - q)) by (nonlinear_arith)
                    requires -d == m * k + q;
                vstd::arithmetic::div_mod::lemma_fundamental_div_mod_converse(
                    d as int, m as int, -k - 1, (m - q) as int);
            }
        }
        if q == 0 {
            0
        } else {
            m - q
        }
    }
}

fn actual_x(display_x: i32, schema_x_min: i32, index_range: i32) -> (r: i32)
    requires
        wrap_defined(display_x as int, schema_x_min as int, index_range as int),
    ensures
        r == wrapped_x(display_x as int, schema_x_min as int, index_range as int),
{
    let d: i64 = display_x as i64 - schema_x_min as i64;
    let m: i64 = if index_range < 0 {
        -(index_range as i64)
    } else {
        index_range as i64
    };
    assert(m == abs_int(index_range as int));
    let r = rem_euclid_i64(d, m);
    (r + schema_x_min as i64) as i32
}

/// Whether wrapping `display_x` into the schema's range is defined in `i32` arithmetic.
fn wrap_is_defined(display_x: i32, schema_x_min: i32, index_range: i32) -> (r: bool)
    ensures
        r == wrap_defined(display_x as int, schema_x_min as int, index_range as int),
{
    let d: i64 = display_x as i64 - schema_x_min as i64;
    if d < i32::MIN as i64 || d > i32::MAX as i64 || index_range == 0 {
        return false;
    }
    if d == i32::MIN as i64 && index_range == -1 {
        return false;
    }
    let m: i64 = if index_range < 0 {
        -(index_range as i64)
    } else {
        index_range as i64
    };
    assert(m == abs_int(index_range as int));
    let w = rem_euclid_i64(d, m) + schema_x_min as i64;
    w <= i32::MAX as i64
}

/// Whether the tiles of the display columns `x_min..=x_max` and rows `y_min..=y_max` can be
/// enumerated: the wrapping of every column is defined in `i32` arithmetic and the list of
/// tiles fits in memory.
pub fn tile_range_is_defined(
    x_min: i32,
    x_max: i32,
    y_min: i32,
    y_max: i32,
    schema_x_min: i32,
    schema_x_max: i32,
) -> (r: bool)
    ensures
        r == (tile_range_defined(x_min, x_max, y_min, y_max, schema_x_min, schema_x_max) && span(
            x_min as int,
            x_max as int,
        ) * span(y_min as int, y_max as int) <= usize::MAX),
{
    let width: i64 = schema_x_max as i64 - schema_x_min as i64;
    if width < i32::MIN as i64 || width > i32::MAX as i64 || width + 1 > i32::MAX as i64 {
        return false;
    }
    if x_min > x_max || y_min > y_max {
        assert(span(x_min as int, x_max as int) * span(y_min as int, y_max as int) == 0)
            by (nonlinear_arith)
            requires
                span(x_min as int, x_max as int) == 0 || span(y_min as int, y_max as int) == 0;
        return true;
    }
    let nx: u128 = (x_max as i64 - x_min as i64 + 1) as u128;
    let ny: u128 = (y_max as i64 - y_min as i64 + 1) as u128;
    assert(nx * ny <= 0x1_0000_0000 * 0x1_0000_0000) by (nonlinear_arith)
        requires
            nx <= 0x1_0000_0000,
            ny <= 0x1_0000_0000,
    ;
    if nx * ny > usize::MAX as u128 {
        return false;
    }
    let index_range: i32 = (width + 1) as i32;
    let mut x: i64 = x_min as i64;
    while x <= x_max as i64
        invariant
            x_min <= x <= x_max as i64 + 1,
            x_min <= x_max,
            y_min <= y_max,
            index_range == schema_index_range(schema_x_min as int, schema_x_max as int),
            forall|dx: int|
                x_min <= dx < x ==> #[trigger] wrap_defined(
                    dx,
                    schema_x_min as int,
                    schema_index_range(schema_x_min as int, schema_x_max as int),
                ),
        decreases x_max as i64 + 1 - x,
    {
        if !wrap_is_defined(x as i32, schema_x_min, index_range) {
            assert(!wrap_defined(
                x as int,
                schema_x_min as int,
                schema_index_range(schema_x_min as int, schema_x_max as int),
            ));
            return false;
        }
        x = x + 1;
    }
    true
}

proof fn lemma_grid_position(i: int, j: int, n: int, ny: int)
    requires
        0 <= i < n,
        0 <= j < ny,
    ensures
        0 <= i * ny + j < n * ny,
        i * ny + j < (i + 1) * ny,
        (i + 1) * ny == i * ny + ny,
{
    assert(0 <= i * ny + j < n * ny) by (nonlinear_arith)
        requires 0 <= i < n, 0 <= j < ny;
    assert((i + 1) * ny == i * ny + ny) by (nonlinear_arith);
}

/// Enumerates the tiles of level `z` shown for display columns `x_min..=x_max` and rows
/// `y_min..=y_max`, column by column. Each tile's real `x` is its display column wrapped
/// into the schema's index range `schema_x_min..=schema_x_max`.
pub fn tiles_in_index_range(
    x_min: i32,
    x_max: i32,
    y_min: i32,
    y_max: i32,
    z: u32,
    schema_x_min: i32,
    schema_x_max: i32,
) -> (res: Vec<WrappingTileIndex>)
    requires
        tile_range_defined(x_min, x_max, y_min, y_max, schema_x_min, schema_x_max),
        span(x_min as int, x_max as int) * span(y_min as int, y_max as int) <= usize::MAX,
    ensures
        res.len() == span(x_min as int, x_max as int) * span(y_min as int, y_max as int),
        forall|i: int, j: int|
            0 <= i < span(x_min as int, x_max as int) && 0 <= j < span(y_min as int, y_max as int)
                ==> #[trigger] res@[i * span(y_min as int, y_max as int) + j] == grid_tile(
                x_min + i,
                y_min + j,
                z,
                schema_x_min as int,
                schema_x_max as int,
            ),
{
    let index_range: i32 = schema_x_max - schema_x_min + 1;
    let mut res: Vec<WrappingTileIndex> = Vec::new();
    if x_min > x_max || y_min > y_max {
        assert(span(x_min as int, x_max as int) * span(y_min as int, y_max as int) == 0)
            by (nonlinear_arith)
            requires
                span(x_min as int, x_max as int) == 0 || span(y_min as int, y_max as int) == 0;
        return res;
    }
    let ghost nx = span(x_min as int, x_max as int);
    let ghost ny = span(y_min as int, y_max as int);
    let mut x: i64 = x_min as i64;
    while x <= x_max as i64
        invariant
            x_min <= x <= x_max as i64 + 1,
            y_min <= y_max,
            nx == x_max - x_min + 1,
            ny == y_max - y_min + 1,
            nx * ny <= usize::MAX,
            index_range == schema_index_range(schema_x_min as int, schema_x_max as int),
            tile_range_defined(x_min, x_max, y_min, y_max, schema_x_min, schema_x_max),
            res.len() == (x - x_min) * ny,
            forall|i: int, j: int|
                0 <= i < x - x_min && 0 <= j < ny ==> #[trigger] res@[i * ny + j] == grid_tile(
                    x_min + i,
                    y_min + j,
                    z,
                    schema_x_min as int,
                    schema_x_max as int,
                ),
        decreases x_max as i64 + 1 - x,
    {
        let display_x: i32 = x as i32;
        assert(wrap_defined(display_x as int, schema_x_min as int, index_range as int));
        let wx = actual_x(display_x, schema_x_min, index_range);
        let ghost i0 = x - x_min;
        proof {
            lemma_grid_position(i0, 0, nx, ny);
            assert((i0 + 1) * ny <= nx * ny) by (nonlinear_arith)
                requires i0 + 1 <= nx, 0 <= ny;
        }
        let mut y: i64 = y_min as i64;
        while y <= y_max as i64
            invariant
                y_min <= y <= y_max as i64 + 1,
                x_min <= x <= x_max,
                i0 == x - x_min,
                0 <= i0 < nx,
                nx == x_max - x_min + 1,
                ny == y_max - y_min + 1,
                (i0 + 1) * ny <= nx * ny,
                (i0 + 1) * ny == i0 * ny + ny,
                nx * ny <= usize::MAX,
                display_x == x,
                wx == wrapped_x(display_x as int, schema_x_min as int, index_range as int),
                index_range == schema_index_range(schema_x_min as int, schema_x_max as int),
                res.len() == i0 * ny + (y - y_min),
                forall|i: int, j: int|
                    0 <= i < i0 && 0 <= j < ny ==> #[trigger] res@[i * ny + j] == grid_tile(
                        x_min + i,
                        y_min + j,
                        z,
                        schema_x_min as int,
                        schema_x_max as int,
                    ),
                forall|j: int|
                    0 <= j < y - y_min ==> #[trigger] res@[i0 * ny + j] == grid_tile(
                        x_min + i0,
                        y_min + j,
                        z,
                        schema_x_min as int,
                        schema_x_max as int,
                    ),
            decreases y_max as i64 + 1 - y,
        {
            let ghost before = res@;
            res.push(WrappingTileIndex { x: wx, y: y as i32, z, display_x });
            proof {
                assert forall|i: int, j: int|
                    0 <= i < i0 && 0 <= j < ny implies #[trigger] res@[i * ny + j] == grid_tile(
                        x_min + i,
                        y_min + j,
                        z,
                        schema_x_min as int,
                        schema_x_max as int,
                    ) by {
                    lemma_grid_position(i, j, i0, ny);
                    assert(res@[i * ny + j] == before[i * ny + j]);
                }
                assert forall|j: int|
                    0 <= j < y + 1 - y_min implies #[trigger] res@[i0 * ny + j] == grid_tile(
                        x_min + i0,
                        y_min + j,
                        z,
                        schema_x_min as int,
                        schema_x_max as int,
                    ) by {
                    if j < y - y_min {
                        assert(res@[i0 * ny + j] == before[i0 * ny + j]);
                    }
                }
            }
            y = y + 1;
        }
        proof {
            assert forall|i: int, j: int|
                0 <= i < i0 + 1 && 0 <= j < ny implies #[trigger] res@[i * ny + j] == grid_tile(
                    x_min + i,
                    y_min + j,
                    z,
                    schema_x_min as int,
                    schema_x_max as int,
                ) by {
                if i == i0 {
                    assert(res@[i0 * ny + j] == grid_tile(
                        x_min + i0,
                        y_min + j,
                        z,
                        schema_x_min as int,
                        schema_x_max as int,
                    ));
                }
            }
        }
        x = x + 1;
    }
    res
}

} // verus!
