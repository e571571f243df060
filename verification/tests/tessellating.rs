use galileo::primitives::DecodedImage;
use galileo::render::render_bundle::tessellating::{
    ImageInfo, PointGeometry, PolyVertex, PrimitiveInfo, PrimitivePaint, TessellatingRenderBundle,
};
use galileo::render::ImagePaint;
use galileo::render::render_bundle::VertexBuffers;
use galileo::render::PrimitiveId;
use galileo::Color;
use lyon::math::point;
use lyon::path::Path;
use lyon::tessellation::{BuffersBuilder, FillOptions, FillTessellator, FillVertex};

type Bundle = TessellatingRenderBundle<[f32; 3], u8, u8, u8>;

fn square_tessellation(color: Color) -> VertexBuffers<PolyVertex<[f32; 3]>> {
    let mut builder = Path::builder();
    builder.begin(point(0.0, 0.0));
    builder.line_to(point(1.0, 0.0));
    builder.line_to(point(1.0, 1.0));
    builder.line_to(point(0.0, 1.0));
    builder.end(true);
    let path = builder.build();
    let mut buffers: lyon::tessellation::VertexBuffers<[f32; 3], u32> =
        lyon::tessellation::VertexBuffers::new();
    FillTessellator::new()
        .tessellate_path(
            &path,
            &FillOptions::default(),
            &mut BuffersBuilder::new(&mut buffers, |v: FillVertex| {
                [v.position().x, v.position().y, 0.0]
            }),
        )
        .unwrap();
    let mut out = VertexBuffers::new();
    for v in buffers.vertices {
        out.vertices.push(PolyVertex {
            geometry: v,
            color,
        });
    }
    out.indices = buffers.indices;
    out
}

#[test]
fn remove_map_ref() {
    let mut bundle = Bundle::new();
    let black = Color::black();
    let red = Color::red();

    let _id0 = bundle.add_polygon(square_tessellation(black));
    let id1 = bundle.add_polygon(square_tessellation(red));
    let id2 = bundle.add_polygon(square_tessellation(black));

    let vertex_range = 0..bundle.poly_tessellation.vertices.len();

    bundle.remove(id1).unwrap();

    assert!(bundle
        .poly_tessellation
        .vertices
        .iter()
        .all(|v| v.color == Color::black()));
    assert!(bundle
        .poly_tessellation
        .indices
        .iter()
        .all(|v| vertex_range.contains(&(*v as usize))));

    let vertex_count = bundle.poly_tessellation.vertices.len();
    let PrimitiveInfo::MapRef { vertex_range } = bundle.primitives[id2.index()].duplicate() else {
        panic!("invalid primitive type");
    };

    assert_eq!(vertex_range.end, vertex_count);
}

#[test]
fn remove_right_after_add_restores_buffers() {
    let mut bundle = Bundle::new();
    bundle.add_polygon(square_tessellation(Color::black()));
    let vertices_before: Vec<[u8; 4]> = bundle
        .poly_tessellation
        .vertices
        .iter()
        .map(|v| v.color.to_u8_array())
        .collect();
    let indices_before = bundle.poly_tessellation.indices.clone();
    let size_before = bundle.approx_buffer_size();

    let id = bundle.add_polygon(square_tessellation(Color::red()));
    assert!(bundle.approx_buffer_size() > size_before);
    bundle.remove(id).unwrap();

    let vertices_after: Vec<[u8; 4]> = bundle
        .poly_tessellation
        .vertices
        .iter()
        .map(|v| v.color.to_u8_array())
        .collect();
    assert_eq!(vertices_after, vertices_before);
    assert_eq!(bundle.poly_tessellation.indices, indices_before);
    assert_eq!(bundle.approx_buffer_size(), size_before);
}

#[test]
fn remove_unknown_primitive_is_an_error() {
    let mut bundle = Bundle::new();
    let res = bundle.remove(PrimitiveId::from_index(3));
    match res {
        Err(galileo::error::GalileoError::Generic(msg)) => {
            assert_eq!(msg, "no primitive with the given id")
        }
        _ => panic!("expected an error"),
    }
}

#[test]
fn buffer_size_counts_vertices_and_indices() {
    let mut bundle = Bundle::new();
    assert!(bundle.is_empty());
    let tessellation = square_tessellation(Color::black());
    let n_vertices = tessellation.vertices.len();
    let n_indices = tessellation.indices.len();
    bundle.add_polygon(tessellation);
    assert_eq!(bundle.approx_buffer_size(), 40 * n_vertices + 4 * n_indices);
    assert!(!bundle.is_empty());
}

#[test]
fn update_polygon_color() {
    let mut bundle = Bundle::new();
    let id = bundle.add_polygon(square_tessellation(Color::black()));
    bundle
        .update(id, PrimitivePaint::Polygon(Color::red()))
        .unwrap();
    assert!(bundle
        .poly_tessellation
        .vertices
        .iter()
        .all(|v| v.color == Color::red()));
}

#[test]
fn dots_are_removed_and_shifted() {
    let mut bundle = Bundle::new();
    let a = bundle.add_point(PointGeometry::Dot(1));
    let b = bundle.add_point(PointGeometry::Dot(2));
    let c = bundle.add_point(PointGeometry::Dot(3));
    assert_eq!(bundle.points, vec![1, 2, 3]);
    bundle.remove(b).unwrap();
    assert_eq!(bundle.points, vec![1, 3]);
    let PrimitiveInfo::Dot { point_index } = bundle.primitives[c.index()].duplicate() else {
        panic!("invalid primitive type");
    };
    assert_eq!(point_index, 1);
    let PrimitiveInfo::Dot { point_index } = bundle.primitives[a.index()].duplicate() else {
        panic!("invalid primitive type");
    };
    assert_eq!(point_index, 0);
    assert!(matches!(bundle.primitives[b.index()], PrimitiveInfo::Vacant));
}

#[test]
fn modify_image_opacity_and_errors() {
    let mut bundle = Bundle::new();
    let polygon = bundle.add_polygon(square_tessellation(Color::black()));
    let image = DecodedImage {
        bytes: vec![0, 0, 0, 255],
        dimensions: (1, 1),
    };
    let id = bundle.add_image(image, [1, 2, 3, 4], ImagePaint { opacity: 255 });
    bundle.modify_image(id, ImagePaint { opacity: 10 }).unwrap();
    match &bundle.images[0] {
        ImageInfo::Image { opacity, vertices, .. } => {
            assert_eq!(*opacity, 10);
            assert_eq!(*vertices, [1, 2, 3, 4]);
        }
        ImageInfo::Vacant => panic!("image expected"),
    }
    match bundle.modify_image(polygon, ImagePaint { opacity: 1 }) {
        Err(galileo::error::GalileoError::Generic(msg)) => {
            assert_eq!(msg, "invalid primitive type")
        }
        _ => panic!("expected an error"),
    }
    match bundle.modify_image(PrimitiveId::from_index(10), ImagePaint { opacity: 1 }) {
        Err(galileo::error::GalileoError::Generic(msg)) => {
            assert_eq!(msg, "primitive does not exist")
        }
        _ => panic!("expected an error"),
    }
}

#[test]
fn buffer_size_can_be_set() {
    let mut bundle = Bundle::new();
    bundle.set_approx_buffer_size(1234);
    assert_eq!(bundle.approx_buffer_size(), 1234);
}

#[test]
fn remove_dot_right_after_add() {
    let mut bundle = Bundle::new();
    bundle.add_point(PointGeometry::Dot(1));
    let size = bundle.approx_buffer_size();
    let id = bundle.add_point(PointGeometry::Dot(2));
    bundle.remove(id).unwrap();
    assert_eq!(bundle.points, vec![1]);
    assert_eq!(bundle.approx_buffer_size(), size);
}

#[test]
fn removed_image_slot_is_reused() {
    let image = || DecodedImage {
        bytes: vec![1, 2, 3, 4],
        dimensions: (1, 1),
    };
    let mut bundle = Bundle::new();
    bundle.add_image(image(), [0, 0, 0, 0], ImagePaint { opacity: 255 });
    let second = bundle.add_image(image(), [1, 1, 1, 1], ImagePaint { opacity: 255 });
    bundle.add_image(image(), [2, 2, 2, 2], ImagePaint { opacity: 255 });
    bundle.remove(second).unwrap();
    assert!(matches!(bundle.images[1], ImageInfo::Vacant));
    let fourth = bundle.add_image(image(), [3, 3, 3, 3], ImagePaint { opacity: 7 });
    assert_eq!(bundle.images.len(), 3);
    let PrimitiveInfo::Image { image_index } = bundle.primitives[fourth.index()].duplicate() else {
        panic!("invalid primitive type");
    };
    assert_eq!(image_index, 1);
    match &bundle.images[1] {
        ImageInfo::Image { vertices, opacity, .. } => {
            assert_eq!(*vertices, [3, 3, 3, 3]);
            assert_eq!(*opacity, 7);
        }
        ImageInfo::Vacant => panic!("image expected"),
    }
}

#[test]
fn added_ids_keep_naming_their_primitives() {
    let mut bundle = Bundle::new();
    let first = bundle.add_polygon(square_tessellation(Color::black()));
    let dot = bundle.add_point(PointGeometry::Dot(7));
    let line = bundle.add_line(None);
    let second = bundle.add_polygon(square_tessellation(Color::red()));
    assert_eq!(
        [first.index(), dot.index(), line.index(), second.index()],
        [0, 1, 2, 3]
    );
    assert!(bundle.vacant_ids.is_empty());
    let PrimitiveInfo::MapRef { vertex_range } = bundle.primitives[first.index()].duplicate() else {
        panic!("the first id names a polygon");
    };
    assert_eq!(vertex_range.start, 0);
    assert!(matches!(
        bundle.primitives[dot.index()].duplicate(),
        PrimitiveInfo::Dot { point_index: 0 }
    ));

    // a removal leaves the slot vacant; later additions take new slots
    bundle.remove(dot).unwrap();
    assert!(bundle.vacant_ids.is_empty());
    let third = bundle.add_point(PointGeometry::Dot(9));
    assert_eq!(third.index(), 4);
    assert!(matches!(bundle.primitives[dot.index()].duplicate(), PrimitiveInfo::Vacant));

    // removing again succeeds and changes nothing
    let count = bundle.primitives.len();
    bundle.remove(dot).unwrap();
    assert_eq!(bundle.primitives.len(), count);
    assert_eq!(bundle.points, vec![9]);
}

fn glyph_quad() -> VertexBuffers<u8> {
    let mut glyph = VertexBuffers::new();
    glyph.vertices = vec![1, 2, 3, 4];
    glyph.indices = vec![0, 1, 2, 0, 2, 3];
    glyph
}

#[test]
fn every_removal_of_a_consistent_bundle_succeeds() {
    let image = || DecodedImage {
        bytes: vec![1, 2, 3, 4],
        dimensions: (1, 1),
    };
    let mut bundle = Bundle::new();
    let a = bundle.add_point(PointGeometry::Dot(1));
    let b = bundle.add_point(PointGeometry::Dot(2));
    let c = bundle.add_point(PointGeometry::Dot(3));
    let polygon = bundle.add_polygon(square_tessellation(Color::black()));
    let first_image = bundle.add_image(image(), [0, 0, 0, 0], ImagePaint { opacity: 255 });
    let sector = bundle.add_point(PointGeometry::Sector {
        center: 0,
        rim: vec![1, 2, 3],
        is_full_circle: false,
        outline: None,
    });
    let shape = bundle.add_point(PointGeometry::Shape {
        outline: None,
        fill: Some(glyph_quad()),
    });
    let second_image = bundle.add_point(PointGeometry::Image {
        image: std::sync::Arc::new(image()),
        opacity: 9,
        vertices: [5, 5, 5, 5],
    });
    let line = bundle.add_line(None);

    // removing the first image moves the dot indices above 0 down: a and b now share index 0
    bundle.remove(first_image).unwrap();
    bundle.remove(sector).unwrap();
    bundle.remove(a).unwrap();
    bundle.remove(c).unwrap();
    bundle.remove(b).unwrap();
    bundle.remove(shape).unwrap();
    bundle.remove(polygon).unwrap();
    bundle.remove(second_image).unwrap();
    bundle.remove(line).unwrap();
    assert!(bundle.points.is_empty());
    assert!(bundle.poly_tessellation.vertices.is_empty());
    assert!(bundle.screen_ref.vertices.is_empty());
    assert!(bundle
        .primitives
        .iter()
        .all(|p| matches!(p, PrimitiveInfo::Vacant)));
    assert!(bundle.remove(PrimitiveId::from_index(9)).is_err());
}

#[test]
fn a_shaped_label_records_its_index_range() {
    let mut bundle = Bundle::new();
    let label = bundle.add_point(PointGeometry::Label(Some(vec![glyph_quad()])));
    let PrimitiveInfo::ScreenRef { vertex_range } = bundle.primitives[label.index()].duplicate()
    else {
        panic!("a label with glyphs is screen-referenced");
    };
    assert_eq!(vertex_range, 0..6);
    assert_eq!(bundle.screen_ref.vertices.len(), 4);
    match bundle.remove(label) {
        Err(galileo::error::GalileoError::Generic(msg)) => assert_eq!(msg, "range out of bounds"),
        _ => panic!("expected an error"),
    }
}
