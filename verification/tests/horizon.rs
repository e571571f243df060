use galileo::render::wgpu::effects::horizon::HorizonPipeline;
use galileo::Color;

#[test]
fn ring_indices_close_the_ring() {
    let ring = HorizonPipeline::ring_indices(0);
    assert_eq!(ring.len(), 192);
    assert_eq!(&ring[0..6], &[0, 1, 2, 1, 3, 2]);
    assert_eq!(&ring[6..12], &[2, 3, 4, 3, 5, 4]);
    assert_eq!(&ring[186..192], &[62, 63, 0, 63, 1, 0]);
    assert!(ring.iter().all(|i| *i < 64));
}

#[test]
fn ring_indices_with_base() {
    let ring = HorizonPipeline::ring_indices(64);
    assert_eq!(&ring[0..6], &[64, 65, 66, 65, 67, 66]);
    assert_eq!(&ring[186..192], &[126, 127, 64, 127, 65, 64]);
    assert!(ring.iter().all(|i| (64..128).contains(i)));
}

#[test]
fn horizon_indices_refer_to_its_vertices() {
    let indices = HorizonPipeline::generate_indices();
    assert_eq!(indices.len(), 576);
    assert!(indices.iter().all(|i| *i < 192));
    assert_eq!(&indices[192..198], &[64, 65, 66, 65, 67, 66]);
    assert_eq!(&indices[384..390], &[128, 129, 130, 129, 131, 130]);
}

#[test]
fn ring_colors_alternate() {
    let c0 = Color::rgba(1, 2, 3, 4);
    let c1 = Color::rgba(5, 6, 7, 8);
    let colors = HorizonPipeline::ring_colors(c0, c1);
    assert_eq!(colors.len(), 64);
    assert_eq!(colors[0], [1, 2, 3, 4]);
    assert_eq!(colors[1], [5, 6, 7, 8]);
    assert_eq!(colors[62], [1, 2, 3, 4]);
    assert_eq!(colors[63], [5, 6, 7, 8]);
}
