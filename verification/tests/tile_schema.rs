use galileo::tile_schema::{
    tile_range_is_defined, tiles_in_index_range, TileIndex, WrappingTileIndex,
};

#[test]
fn tile_index_wrapping_round_trip() {
    let t = TileIndex::new(3, 4, 5);
    let w = t.into_wrapping();
    assert_eq!(w, WrappingTileIndex::new(3, 4, 5));
    assert_eq!(w.display_x, 3);
    let back: TileIndex = w.into();
    assert_eq!(back, t);
}

#[test]
fn tiles_are_enumerated_column_by_column() {
    let tiles = tiles_in_index_range(0, 1, 2, 4, 3, 0, 7);
    assert_eq!(tiles.len(), 6);
    assert_eq!(tiles[0], WrappingTileIndex { x: 0, y: 2, z: 3, display_x: 0 });
    assert_eq!(tiles[2], WrappingTileIndex { x: 0, y: 4, z: 3, display_x: 0 });
    assert_eq!(tiles[3], WrappingTileIndex { x: 1, y: 2, z: 3, display_x: 1 });
    assert_eq!(tiles[5], WrappingTileIndex { x: 1, y: 4, z: 3, display_x: 1 });
}

#[test]
fn display_columns_wrap_into_the_schema() {
    // schema columns 0..=3; display columns -2..=5
    let tiles = tiles_in_index_range(-2, 5, 0, 0, 2, 0, 3);
    let xs: Vec<i32> = tiles.iter().map(|t| t.x).collect();
    let display: Vec<i32> = tiles.iter().map(|t| t.display_x).collect();
    assert_eq!(xs, vec![2, 3, 0, 1, 2, 3, 0, 1]);
    assert_eq!(display, vec![-2, -1, 0, 1, 2, 3, 4, 5]);
    assert!(xs.iter().all(|x| (0..=3).contains(x)));
}

#[test]
fn wrapping_with_shifted_schema_minimum() {
    let tiles = tiles_in_index_range(9, 10, 1, 1, 0, -1, 1);
    let xs: Vec<i32> = tiles.iter().map(|t| t.x).collect();
    assert_eq!(xs, vec![0, 1]);
}

#[test]
fn empty_range_has_no_tiles() {
    assert!(tiles_in_index_range(3, 2, 0, 5, 1, 0, 7).is_empty());
    assert!(tiles_in_index_range(0, 2, 5, 4, 1, 0, 7).is_empty());
}

#[test]
fn tile_ranges_that_overflow_are_detected() {
    assert!(tile_range_is_defined(0, 1, 0, 1, 0, 7));
    assert!(tile_range_is_defined(5, 2, 0, 1, 0, 7));
    // the schema is wider than `i32` can count
    assert!(!tile_range_is_defined(0, 1, 0, 1, i32::MIN, i32::MAX));
    // the first display column is too far below the schema minimum
    assert!(!tile_range_is_defined(i32::MIN, i32::MIN + 1, 0, 0, 1, 4));
    assert!(tile_range_is_defined(i32::MIN + 1, i32::MIN + 2, 0, 0, 1, 4));
}
