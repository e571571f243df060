//! Decoded raster images.

use crate::error::GalileoError;
use vstd::prelude::*;

verus! {

/// A raster image decoded into RGBA bytes.
#[derive(Debug)]
pub struct DecodedImage {
    /// Pixels, four bytes (`r, g, b, a`) each, row by row.
    pub bytes: Vec<u8>,
    /// Width and height of the image in pixels.
    pub dimensions: (u32, u32),
}

impl Clone for DecodedImage {
    fn clone(&self) -> (r: Self)
        ensures
            r.bytes@ == self.bytes@,
            r.dimensions == self.dimensions,
    {
        let mut bytes: Vec<u8> = Vec::new();
        let mut i: usize = 0;
        while i < self.bytes.len()
            invariant
                i <= self.bytes.len(),
                bytes@ == self.bytes@.subrange(0, i as int),
            decreases self.bytes.len() - i,
        {
            bytes.push(self.bytes[i]);
            i = i + 1;
        }
        assert(bytes@ == self.bytes@);
        DecodedImage { bytes, dimensions: self.dimensions }
    }
}

/// Declares `image::ImageError` (the decoder's error) to the verifier.
#[verifier::external_type_specification]
#[verifier::external_body]
pub struct ExImageError(image::ImageError);

/// What `image::load_from_memory` followed by `to_rgba8` and `dimensions` yields for the
/// given encoded bytes: the RGBA pixel bytes, the width and the height, or `None` when the
/// data cannot be decoded.
pub uninterp spec fn rgba8_decoding(encoded: Seq<u8>) -> Option<(Seq<u8>, u32, u32)>;

/// Decodes an encoded image (format guessed from its content) with `image::load_from_memory`
/// and converts it with `DynamicImage::to_rgba8`, taking its size from
/// `GenericImageView::dimensions`. Trusted: the result is the named decoding of the input
/// bytes, and the RGBA buffer holds four bytes for every pixel of a `width` x `height`
/// image (an `ImageBuffer` of `Rgba<u8>` pixels always does).
#[verifier::external_body]
fn decode_rgba8(encoded: &[u8]) -> (res: Result<(Vec<u8>, u32, u32), image::ImageError>)
    ensures
        res is Ok <==> rgba8_decoding(encoded@) is Some,
        res matches Ok((pixels, w, h)) ==> rgba8_decoding(encoded@) == Some((pixels@, w, h))
            && pixels@.len() == 4 * (w as int) * (h as int),
{
    let decoded = image::load_from_memory(encoded)?;
    let (w, h) = image::GenericImageView::dimensions(&decoded);
    Ok((decoded.to_rgba8().into_raw(), w, h))
}

impl DecodedImage {
    /// Decodes an image from its encoded bytes (PNG or JPEG) into RGBA pixels.
    pub fn new(bytes: &[u8]) -> (res: Result<Self, GalileoError>)
        ensures
            res is Ok <==> rgba8_decoding(bytes@) is Some,
            res matches Ok(img) ==> rgba8_decoding(bytes@) == Some(
                (img.bytes@, img.dimensions.0, img.dimensions.1),
            ) && img.bytes@.len() == 4 * (img.dimensions.0 as int) * (img.dimensions.1 as int),
            res is Err ==> res matches Err(GalileoError::ImageDecode(_)),
    {
        match decode_rgba8(bytes) {
            Ok((pixels, w, h)) => Ok(DecodedImage { bytes: pixels, dimensions: (w, h) }),
            Err(e) => Err(GalileoError::ImageDecode(e)),
        }
    }

    /// Width of the image in pixels.
    pub fn width(&self) -> (w: u32)
        ensures
            w == self.dimensions.0,
    {
        self.dimensions.0
    }

    /// Height of the image in pixels.
    pub fn height(&self) -> (h: u32)
        ensures
            h == self.dimensions.1,
    {
        self.dimensions.1
    }
}

} // verus!
