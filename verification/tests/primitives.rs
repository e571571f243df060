use galileo::error::GalileoError;
use galileo::primitives::DecodedImage;

fn png_bytes(width: u32, height: u32) -> Vec<u8> {
    let mut img = image::RgbaImage::new(width, height);
    img.put_pixel(1, 0, image::Rgba([10, 20, 30, 40]));
    let mut out = std::io::Cursor::new(Vec::new());
    img.write_to(&mut out, image::ImageFormat::Png).unwrap();
    out.into_inner()
}

#[test]
fn decodes_png_into_rgba() {
    let decoded = DecodedImage::new(&png_bytes(2, 3)).unwrap();
    assert_eq!(decoded.width(), 2);
    assert_eq!(decoded.height(), 3);
    assert_eq!(decoded.dimensions, (2, 3));
    assert_eq!(decoded.bytes.len(), 2 * 3 * 4);
    assert_eq!(&decoded.bytes[4..8], &[10, 20, 30, 40]);
    assert_eq!(&decoded.bytes[0..4], &[0, 0, 0, 0]);
}

#[test]
fn undecodable_bytes_are_an_error() {
    let res = DecodedImage::new(&[1, 2, 3, 4, 5]);
    assert!(matches!(res, Err(GalileoError::ImageDecode(_))));
}

#[test]
fn cloned_image_is_equal() {
    let decoded = DecodedImage::new(&png_bytes(2, 1)).unwrap();
    let copy = decoded.clone();
    assert_eq!(copy.bytes, decoded.bytes);
    assert_eq!(copy.dimensions, decoded.dimensions);
}
