use image::{DynamicImage, GenericImageView, ImageBuffer, ImageOutputFormat, Rgb, Rgba};
use ogl::texture::{DecodedImage, Filter, Texture, TextureUpload, Wrap};

/// A 2 by 3 image with a different colour in every position.
fn sample() -> DynamicImage {
    let mut buffer: ImageBuffer<Rgb<u8>, Vec<u8>> = ImageBuffer::new(2, 3);
    for y in 0..3u32 {
        for x in 0..2u32 {
            buffer.put_pixel(x, y, Rgb([10 * y as u8 + x as u8, 100 + y as u8, 200 + x as u8]));
        }
    }
    DynamicImage::ImageRgb8(buffer)
}

fn png(image: &DynamicImage) -> Vec<u8> {
    let mut bytes: Vec<u8> = Vec::new();
    image.write_to(&mut bytes, ImageOutputFormat::Png).unwrap();
    bytes
}

fn rows_from_top() -> Vec<[u8; 3]> {
    vec![[0, 100, 200], [1, 100, 201], [10, 101, 200], [11, 101, 201], [20, 102, 200], [21, 102, 201]]
}

fn rows_from_bottom() -> Vec<[u8; 3]> {
    vec![[20, 102, 200], [21, 102, 201], [10, 101, 200], [11, 101, 201], [0, 100, 200], [1, 100, 201]]
}

fn decoded() -> DecodedImage {
    DecodedImage { width: 2, height: 3, pixels: rows_from_top() }
}

#[test]
fn from_decoded_keeps_rows_from_the_top() {
    let texture = Texture::from_decoded(7, decoded(), false);
    assert_eq!(texture.id, 7);
    assert_eq!((texture.width, texture.height), (2, 3));
    assert_eq!(texture.data, rows_from_top());
}

#[test]
fn from_decoded_flips_rows_where_asked() {
    let texture = Texture::from_decoded(7, decoded(), true);
    assert_eq!(texture.id, 7);
    assert_eq!((texture.width, texture.height), (2, 3));
    assert_eq!(texture.data, rows_from_bottom());
}

#[test]
fn flipping_twice_gives_the_image_back() {
    let once = Texture::from_decoded(7, decoded(), true);
    let twice = Texture::from_decoded(
        7,
        DecodedImage { width: once.width, height: once.height, pixels: once.data },
        true,
    );
    assert_eq!(twice.data, rows_from_top());
}

#[test]
fn single_row_and_empty_images_flip_to_themselves() {
    let row = vec![[1, 2, 3], [4, 5, 6], [7, 8, 9]];
    let texture =
        Texture::from_decoded(1, DecodedImage { width: 3, height: 1, pixels: row.clone() }, true);
    assert_eq!(texture.data, row);
    let texture =
        Texture::from_decoded(1, DecodedImage { width: 0, height: 0, pixels: Vec::new() }, true);
    assert_eq!((texture.width, texture.height), (0, 0));
    assert!(texture.data.is_empty());
    let column = vec![[1, 1, 1], [2, 2, 2]];
    let texture =
        Texture::from_decoded(1, DecodedImage { width: 1, height: 2, pixels: column }, true);
    assert_eq!(texture.data, vec![[2, 2, 2], [1, 1, 1]]);
}

fn decode(contents: &[u8]) -> DecodedImage {
    let image = image::load_from_memory(contents).unwrap();
    let (width, height) = image.dimensions();
    let pixels = image.into_rgb8().pixels().map(|p| p.0).collect();
    DecodedImage { width, height, pixels }
}

#[test]
fn decoded_png_is_well_formed_and_keeps_its_rows() {
    let image = decode(&png(&sample()));
    assert!(image.is_well_formed());
    let texture = Texture::from_decoded(9, image, false);
    assert_eq!(texture.id, 9);
    assert_eq!((texture.width, texture.height), (2, 3));
    assert_eq!(texture.data, rows_from_top());
}

#[test]
fn decoded_png_flips() {
    let texture = Texture::from_decoded(9, decode(&png(&sample())), true);
    assert_eq!((texture.width, texture.height), (2, 3));
    assert_eq!(texture.data, rows_from_bottom());
}

#[test]
fn decoded_png_with_alpha_flips_as_rgb() {
    let mut buffer: ImageBuffer<Rgba<u8>, Vec<u8>> = ImageBuffer::new(1, 2);
    buffer.put_pixel(0, 0, Rgba([1, 2, 3, 4]));
    buffer.put_pixel(0, 1, Rgba([5, 6, 7, 8]));
    let texture =
        Texture::from_decoded(1, decode(&png(&DynamicImage::ImageRgba8(buffer))), true);
    assert_eq!((texture.width, texture.height), (1, 2));
    assert_eq!(texture.data, vec![[5, 6, 7], [1, 2, 3]]);
}

#[test]
fn pixel_count_decides_well_formedness() {
    assert!(decoded().is_well_formed());
    assert!(DecodedImage { width: 0, height: 5, pixels: Vec::new() }.is_well_formed());
    assert!(!DecodedImage { width: 2, height: 3, pixels: vec![[0, 0, 0]; 5] }.is_well_formed());
    assert!(!DecodedImage { width: 2, height: 3, pixels: vec![[0, 0, 0]; 7] }.is_well_formed());
    assert!(!DecodedImage { width: 65536, height: 65536, pixels: Vec::new() }.is_well_formed());
    assert!(!DecodedImage { width: u32::MAX, height: u32::MAX, pixels: vec![[0, 0, 0]] }
        .is_well_formed());
}

#[test]
fn load_hands_the_pixels_over_and_keeps_none() {
    let mut texture = Texture::from_decoded(7, decoded(), false);
    let upload = texture.load();
    assert_eq!(
        upload,
        Some(TextureUpload {
            id: 7,
            width: 2,
            height: 3,
            wrap_s: Wrap::Repeat,
            wrap_t: Wrap::Repeat,
            min_filter: Filter::Linear,
            mag_filter: Filter::Linear,
            mipmaps: true,
            pixels: rows_from_top(),
        })
    );
    assert!(texture.data.is_empty());
    assert_eq!((texture.id, texture.width, texture.height), (7, 2, 3));
}

#[test]
fn load_twice_has_nothing_left() {
    let mut texture = Texture::from_decoded(7, decoded(), true);
    assert!(texture.load().is_some());
    assert_eq!(texture.load(), None);
    assert!(texture.data.is_empty());
}
