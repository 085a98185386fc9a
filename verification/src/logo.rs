//! The About dialog's logo: decoding the embedded PNG into RGBA8 bytes (by
//! the `image` crate's PNG decoder) and splitting them into pixels for the canvas.

use vstd::prelude::*;

verus! {

/// What `image::load_from_memory_with_format` with `ImageFormat::Png`
/// followed by `to_rgba8` yields for a byte string: width, height and the
/// RGBA8 bytes row by row, or nothing when the bytes are not a PNG the crate
/// can decode.
pub uninterp spec fn decoded_png_rgba8(bytes: Seq<u8>) -> Option<(u32, u32, Seq<u8>)>;

/// Decodes a PNG held in memory with `image::load_from_memory_with_format`
/// (format fixed to PNG, so the crate's built-in PNG decoder is used with its
/// default limits, and no format-guessing or decoding hook is consulted) and
/// converts it with `DynamicImage::to_rgba8`. Claimed: the result is
/// `decoded_png_rgba8` of the bytes, and a decoded buffer holds at least
/// `4 * width * height` bytes (every `ImageBuffer` is checked to fit its
/// dimensions when it is made).
#[verifier::external_body]
fn load_png_rgba8(bytes: &[u8]) -> (r: Option<(u32, u32, Vec<u8>)>)
    ensures
        match r {
            Some((w, h, px)) => decoded_png_rgba8(bytes@) == Some((w, h, px@)) && 4 * w * h <= px@.len(),
            None => decoded_png_rgba8(bytes@) is None,
        },
{
    match image::load_from_memory_with_format(bytes, image::ImageFormat::Png) {
        Ok(img) => {
            let rgba = img.to_rgba8();
            let (w, h) = rgba.dimensions();
            Some((w, h, rgba.into_raw()))
        },
        Err(_) => None,
    }
}

/// A decoded RGBA8 image.
pub struct RgbaImage {
    pub width: u32,
    pub height: u32,
    /// RGBA bytes, row by row (at least `4 * width * height` of them).
    pub bytes: Vec<u8>,
}

/// Decodes the logo PNG. `None` when the bytes are not a decodable PNG.
pub fn decode_logo(png: &[u8]) -> (r: Option<RgbaImage>)
    ensures
        match r {
            Some(img) => decoded_png_rgba8(png@) == Some((img.width, img.height, img.bytes@)) && 4 * img.width
                * img.height <= img.bytes@.len(),
            None => decoded_png_rgba8(png@) is None,
        },
{
    match load_png_rgba8(png) {
        Some((width, height, bytes)) => Some(RgbaImage { width, height, bytes }),
        None => None,
    }
}

/// The pixels of `width * height` RGBA8 bytes: pixel `i` is bytes
/// `4i .. 4i + 4`.
pub fn rgba_pixels(width: u32, height: u32, bytes: &Vec<u8>) -> (px: Vec<[u8; 4]>)
    requires
        4 * width * height <= bytes@.len(),
    ensures
        px@.len() == width * height,
        forall|i: int|
            0 <= i < px@.len() ==> #[trigger] px@[i] == [
                bytes@[4 * i],
                bytes@[4 * i + 1],
                bytes@[4 * i + 2],
                bytes@[4 * i + 3],
            ],
{
    let len = bytes.len();
    let n = len / 4;
    assert(width * height <= n) by (nonlinear_arith)
        requires
            4 * width * height <= bytes@.len(),
            n == bytes@.len() / 4,
    ;
    let count = width as usize * height as usize;
    let mut px: Vec<[u8; 4]> = Vec::new();
    let mut i: usize = 0;
    while i < count
        invariant
            count == width * height,
            count <= n,
            n == bytes@.len() / 4,
            len == bytes@.len(),
            i <= count,
            px@.len() == i,
            forall|k: int|
                0 <= k < i ==> #[trigger] px@[k] == [
                    bytes@[4 * k],
                    bytes@[4 * k + 1],
                    bytes@[4 * k + 2],
                    bytes@[4 * k + 3],
                ],
        decreases count - i,
    {
        assert(4 * i + 3 < len);
        let b = 4 * i;
        px.push([bytes[b], bytes[b + 1], bytes[b + 2], bytes[b + 3]]);
        i = i + 1;
    }
    px
}

} // verus!
