use std::sync::Arc;

use engine::compositor::bbox::Rect;
use engine::graphics::{checker_pattern, compute_within_bbox, mask_to_rgba, ImageFormat, U8Image};
use engine::operations::converters::{arc_image_to_arc_frame, image_to_frame};

#[test]
fn a_tile_larger_than_the_canvas_is_all_first_colour() {
    let pixels = checker_pattern(4, 4, 32, [255, 255, 255, 255], [0, 0, 0, 255]);
    assert_eq!(pixels.len(), 64);
    assert_eq!(pixels[0..4], [255, 255, 255, 255]);
    assert!(pixels.chunks(4).all(|p| p == [255, 255, 255, 255]));
}

#[test]
fn a_unit_tile_alternates_colours() {
    let pixels = checker_pattern(2, 2, 1, [255, 255, 255, 255], [0, 0, 0, 255]);
    assert_eq!(pixels, vec![255, 255, 255, 255, 0, 0, 0, 255, 0, 0, 0, 255, 255, 255, 255, 255]);
}

#[test]
fn the_missing_placeholder_is_magenta_and_black_sixteen_pixel_tiles() {
    let small = U8Image::missing(2, 1);
    assert_eq!((small.width, small.height), (2, 1));
    assert_eq!(small.pixels, vec![255, 0, 255, 255, 255, 0, 255, 255]);

    let wide = U8Image::missing(17, 1);
    assert_eq!(wide.pixels[15 * 4..16 * 4], [255, 0, 255, 255]);
    assert_eq!(wide.pixels[16 * 4..17 * 4], [0, 0, 0, 255]);
}

#[test]
fn contain_fit_letterboxes_a_tall_image_into_a_wide_canvas() {
    let tall = U8Image { pixels: vec![1, 1, 1, 1, 2, 2, 2, 2], width: 1, height: 2, format: ImageFormat::Rgba8 };
    let fitted = tall.contain_fit(4, 2);
    assert_eq!((fitted.width, fitted.height), (4, 2));
    assert_eq!(
        fitted.pixels,
        vec![
            0, 0, 0, 0, 1, 1, 1, 1, 0, 0, 0, 0, 0, 0, 0, 0,
            0, 0, 0, 0, 2, 2, 2, 2, 0, 0, 0, 0, 0, 0, 0, 0,
        ]
    );
}

#[test]
fn contain_fit_of_an_empty_image_is_transparent() {
    let empty = U8Image { pixels: vec![], width: 0, height: 0, format: ImageFormat::Rgba8 };
    assert_eq!(empty.contain_fit(2, 1).pixels, vec![0; 8]);
}

#[test]
fn a_mask_spreads_to_grey_rgba() {
    assert_eq!(mask_to_rgba(&vec![0, 200]), vec![0, 0, 0, 0, 200, 200, 200, 200]);
}

#[test]
fn an_image_becomes_a_frame_with_the_same_pixels() {
    let image = U8Image { pixels: vec![1, 2, 3, 4], width: 1, height: 1, format: ImageFormat::Rgba8 };
    let frame = image_to_frame(&image);
    assert_eq!(frame.pixels, image.pixels);
    assert_eq!((frame.width, frame.height), (1, 1));
    let frame = arc_image_to_arc_frame(Arc::new(image));
    assert_eq!(frame.pixels, vec![1, 2, 3, 4]);
}

#[test]
fn a_smaller_work_area_computes_strictly_fewer_pixels_than_the_full_frame() {
    let original: Vec<u8> = (0..64).collect();
    let (out, small) = compute_within_bbox(4, 4, Rect { x0: 1, y0: 1, x1: 2, y1: 2 }, &original, |_, _| [9, 9, 9, 9]);
    assert_eq!(small, 1);
    let p = (4 + 1) * 4;
    assert_eq!(out[p..p + 4], [9, 9, 9, 9]);
    assert_eq!(out[0..4], original[0..4]);

    let (out, full) = compute_within_bbox(4, 4, Rect::full(4, 4), &original, |x, y| [x as u8, y as u8, 0, 0]);
    assert_eq!(full, 16);
    assert_eq!(out[(3 * 4 + 2) * 4..(3 * 4 + 2) * 4 + 4], [2, 3, 0, 0]);
    assert!(small < full);

    let (out, none) = compute_within_bbox(4, 4, Rect::empty(), &original, |_, _| [9, 9, 9, 9]);
    assert_eq!(none, 0);
    assert_eq!(out, original);
}
