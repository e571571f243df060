use galileo::render::render_bundle::{
    append_tessellation, append_tessellations, remove_from_tessellation, sector_fan_indices,
    RenderBundle, VertexBuffers,
};

fn buffers(vertices: Vec<u8>, indices: Vec<u32>) -> VertexBuffers<u8> {
    let mut b = VertexBuffers::new();
    b.vertices = vertices;
    b.indices = indices;
    b
}

#[test]
fn remove_from_tessellation_cuts_and_shifts() {
    let mut t = buffers(vec![10, 11, 12, 13, 14], vec![0, 1, 2, 2, 3, 4, 0, 4, 1]);
    let dropped = remove_from_tessellation(&mut t, 2..4).unwrap();
    assert_eq!(t.vertices, vec![10, 11, 14]);
    // indices 2 and 3 point into the cut range: their triangles' entries are dropped,
    // the index 4 moves down to 2
    assert_eq!(t.indices, vec![0, 1, 2, 0, 2, 1]);
    assert_eq!(dropped, 3);
}

#[test]
fn remove_from_tessellation_empty_range() {
    let mut t = buffers(vec![1, 2, 3], vec![0, 1, 2]);
    assert_eq!(remove_from_tessellation(&mut t, 2..2).unwrap(), 0);
    assert_eq!(t.vertices, vec![1, 2, 3]);
    assert_eq!(t.indices, vec![0, 1, 2]);
}

#[test]
fn remove_from_tessellation_out_of_bounds() {
    let mut t = buffers(vec![1, 2, 3], vec![0, 1, 2]);
    match remove_from_tessellation(&mut t, 1..4) {
        Err(galileo::error::GalileoError::Generic(msg)) => assert_eq!(msg, "range out of bounds"),
        _ => panic!("expected an error"),
    }
    assert_eq!(t.vertices, vec![1, 2, 3]);
}

#[test]
fn cut_undoes_append() {
    let mut t = buffers(vec![1, 2, 3], vec![0, 1, 2]);
    append_tessellation(&mut t, buffers(vec![4, 5, 6], vec![2, 1, 0]));
    assert_eq!(t.vertices, vec![1, 2, 3, 4, 5, 6]);
    assert_eq!(t.indices, vec![0, 1, 2, 5, 4, 3]);
    remove_from_tessellation(&mut t, 3..6).unwrap();
    assert_eq!(t.vertices, vec![1, 2, 3]);
    assert_eq!(t.indices, vec![0, 1, 2]);
}

#[test]
fn append_many_tessellations() {
    let mut t = buffers(vec![1], vec![0]);
    append_tessellations(
        &mut t,
        vec![buffers(vec![2, 3], vec![1, 0]), buffers(vec![4], vec![0, 0])],
    );
    assert_eq!(t.vertices, vec![1, 2, 3, 4]);
    assert_eq!(t.indices, vec![0, 2, 1, 3, 3]);
}

#[test]
fn sector_fan() {
    assert_eq!(sector_fan_indices(5, 3, false), vec![5, 6, 7, 5, 7, 8]);
    assert_eq!(sector_fan_indices(5, 3, true), vec![5, 6, 7, 5, 7, 8, 5, 8, 6]);
    assert_eq!(sector_fan_indices(0, 1, false), Vec::<u32>::new());
}

#[test]
fn render_bundle_collects_labels() {
    let mut bundle: RenderBundle<[f32; 3], u8, u8, u16> = RenderBundle::new();
    bundle.add_label(Some(7));
    bundle.add_label(None);
    bundle.add_label(Some(9));
    assert_eq!(bundle.screen_sets, vec![7, 9]);
}
