use std::sync::Arc;

use galileo::primitives::DecodedImage;
use galileo::render::render_bundle::tessellating::PolyVertex;
use galileo::render::render_bundle::world_set::{WorldPointGeometry, WorldRenderSet};
use galileo::render::render_bundle::VertexBuffers;
use galileo::render::ImagePaint;
use galileo::Color;

type WorldSet = WorldRenderSet<u8, u16, u8>;

fn vertex(g: u8) -> PolyVertex<u8> {
    PolyVertex {
        geometry: g,
        color: Color::black(),
    }
}

fn tess(n: u8, indices: Vec<u32>) -> VertexBuffers<PolyVertex<u8>> {
    let mut t = VertexBuffers::new();
    t.vertices = (0..n).map(vertex).collect();
    t.indices = indices;
    t
}

fn image() -> DecodedImage {
    DecodedImage {
        bytes: vec![1, 2, 3, 4],
        dimensions: (1, 1),
    }
}

#[test]
fn same_bitmap_is_stored_once() {
    let mut set = WorldSet::new();
    let bitmap = Arc::new(image());
    set.add_image(bitmap.clone(), [0, 1, 2, 3], ImagePaint { opacity: 255 });
    set.add_image(bitmap.clone(), [4, 5, 6, 7], ImagePaint { opacity: 128 });
    assert_eq!(set.image_store.len(), 1);
    assert_eq!(set.images.len(), 2);
    assert_eq!(set.images[1].store_index, 0);
    assert_eq!(set.images[1].opacity, 128);
    assert_eq!(set.approx_buffer_size(), 2 * (4 + 4 * 28));
}

#[test]
fn equal_but_distinct_bitmaps_are_stored_twice() {
    let mut set = WorldSet::new();
    set.add_image(Arc::new(image()), [0, 1, 2, 3], ImagePaint { opacity: 255 });
    set.add_image(Arc::new(image()), [0, 1, 2, 3], ImagePaint { opacity: 255 });
    assert_eq!(set.image_store.len(), 2);
    assert_eq!(set.images[1].store_index, 1);
}

#[test]
fn sector_is_a_fan_around_its_center() {
    let mut set = WorldSet::new();
    set.add_polygon(tess(2, vec![0, 1, 0]));
    set.add_point(WorldPointGeometry::Sector {
        center: vertex(9),
        rim: vec![vertex(10), vertex(11), vertex(12)],
        is_full_circle: true,
        outline: None,
    });
    assert_eq!(set.poly_tessellation.vertices.len(), 6);
    assert_eq!(
        set.poly_tessellation.indices,
        vec![0, 1, 0, 2, 3, 4, 2, 4, 5, 2, 5, 3]
    );
}

#[test]
fn shape_with_failed_outline_adds_nothing() {
    let mut set = WorldSet::new();
    set.add_point(WorldPointGeometry::Shape {
        outline: Some(None),
        fill: Some(tess(3, vec![0, 1, 2])),
    });
    assert!(set.poly_tessellation.vertices.is_empty());
    set.add_point(WorldPointGeometry::Shape {
        outline: Some(Some(tess(2, vec![1, 0]))),
        fill: Some(tess(3, vec![0, 1, 2])),
    });
    assert_eq!(set.poly_tessellation.vertices.len(), 5);
    assert_eq!(set.poly_tessellation.indices, vec![1, 0, 2, 3, 4]);
}

#[test]
fn labels_and_dots() {
    let mut set = WorldSet::new();
    set.add_point(WorldPointGeometry::Dot(7));
    assert_eq!(set.points, vec![7]);
    assert_eq!(set.approx_buffer_size(), 16);
    set.add_point(WorldPointGeometry::Label(Some(vec![
        tess(1, vec![0]),
        tess(2, vec![1, 0]),
    ])));
    assert_eq!(set.poly_tessellation.indices, vec![0, 2, 1]);
    set.add_point(WorldPointGeometry::Label(None));
    assert_eq!(set.poly_tessellation.vertices.len(), 3);
}

#[test]
fn line_none_adds_nothing() {
    let mut set = WorldSet::new();
    set.add_line(None);
    assert!(set.poly_tessellation.vertices.is_empty());
    set.add_line(Some(tess(2, vec![0, 1])));
    assert_eq!(set.approx_buffer_size(), 2 * 40 + 2 * 4);
}
