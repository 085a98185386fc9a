use ivylace::logo::{decode_logo, rgba_pixels};

fn encode_png(width: u32, height: u32, rgba: Vec<u8>) -> Vec<u8> {
    let img = image::RgbaImage::from_raw(width, height, rgba).expect("buffer fits");
    let mut bytes = Vec::new();
    img.write_to(&mut std::io::Cursor::new(&mut bytes), image::ImageFormat::Png).expect("encodes");
    bytes
}

#[test]
fn logo_decodes_to_rgba_pixels() {
    let raw = vec![255, 0, 0, 255, 0, 128, 255, 64, 10, 20, 30, 40, 1, 2, 3, 4];
    let png = encode_png(2, 2, raw.clone());
    let img = decode_logo(&png).expect("a PNG decodes");
    assert_eq!((img.width, img.height), (2, 2));
    assert_eq!(img.bytes, raw);
    let px = rgba_pixels(img.width, img.height, &img.bytes);
    assert_eq!(px, vec![[255, 0, 0, 255], [0, 128, 255, 64], [10, 20, 30, 40], [1, 2, 3, 4]]);
}

#[test]
fn logo_rejects_non_images() {
    assert!(decode_logo(b"not an image at all").is_none());
    assert!(decode_logo(&[]).is_none());
}

#[test]
fn rgba_pixels_ignores_trailing_bytes() {
    let bytes = vec![1, 2, 3, 4, 5, 6, 7, 8, 9];
    assert_eq!(rgba_pixels(1, 2, &bytes), vec![[1, 2, 3, 4], [5, 6, 7, 8]]);
    assert_eq!(rgba_pixels(0, 5, &bytes), Vec::<[u8; 4]>::new());
}
