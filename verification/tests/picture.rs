use microworlds::gui::picture::image_data;

/// A 1x1 BMP file whose one pixel is pure red.
fn red_pixel_bmp() -> Vec<u8> {
    let mut b: Vec<u8> = Vec::new();
    b.extend_from_slice(b"BM");
    b.extend_from_slice(&58u32.to_le_bytes()); // file size
    b.extend_from_slice(&0u32.to_le_bytes()); // reserved
    b.extend_from_slice(&54u32.to_le_bytes()); // pixel data offset
    b.extend_from_slice(&40u32.to_le_bytes()); // header size
    b.extend_from_slice(&1i32.to_le_bytes()); // width
    b.extend_from_slice(&1i32.to_le_bytes()); // height
    b.extend_from_slice(&1u16.to_le_bytes()); // planes
    b.extend_from_slice(&24u16.to_le_bytes()); // bits per pixel
    b.extend_from_slice(&0u32.to_le_bytes()); // no compression
    b.extend_from_slice(&4u32.to_le_bytes()); // image size
    b.extend_from_slice(&2835i32.to_le_bytes());
    b.extend_from_slice(&2835i32.to_le_bytes());
    b.extend_from_slice(&0u32.to_le_bytes());
    b.extend_from_slice(&0u32.to_le_bytes());
    b.extend_from_slice(&[0, 0, 255, 0]); // blue, green, red, padding
    b
}

#[test]
fn unreadable_file_gives_the_path_in_the_error() {
    let err = image_data("pics/cat.png", None).unwrap_err();
    assert_eq!(err.message, "could not open path: pics/cat.png");
}

#[test]
fn bytes_that_are_no_image_are_refused() {
    let err = image_data("cat.png", Some(vec![1, 2, 3])).unwrap_err();
    assert_eq!(err.message, "invalid image format");
}

#[test]
fn an_unknown_extension_names_no_format() {
    let err = image_data("cat.xyz", Some(red_pixel_bmp())).unwrap_err();
    assert_eq!(err.message, "invalid image format");
}

#[test]
fn a_bmp_decodes_to_rgba_pixels() {
    let (w, h, px) = image_data("red.bmp", Some(red_pixel_bmp())).unwrap();
    assert_eq!((w, h), (1, 1));
    assert_eq!(px, vec![255, 0, 0, 255]);
}
