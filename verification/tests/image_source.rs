use std::sync::Arc;

use engine::compositor::{Context, Meta, OperationError, Value};
use engine::graphics::{ImageFormat, U8Image};
use engine::operations::sources::ImageSource;

fn context(width: u32, height: u32) -> Context {
    Context {
        meta: Meta { width, height },
        ..Default::default()
    }
}

fn red_pixel() -> Arc<U8Image> {
    Arc::new(U8Image {
        pixels: vec![255, 0, 0, 255],
        width: 1,
        height: 1,
        format: ImageFormat::Rgba8,
    })
}

#[test]
fn conforms_a_mismatched_image_to_the_graphs_current_resolution() {
    let mut source = ImageSource::new();
    source.set_image(red_pixel());

    let values = source.execute(&context(3, 1), &[]).unwrap();

    match &values[0] {
        Value::Image(out) => {
            assert_eq!(out.width, 3);
            assert_eq!(out.height, 1);
        }
        other => panic!("expected an image, got {:?}", other),
    }
}

#[test]
fn reuses_the_same_arc_when_the_resolution_is_unchanged() {
    let mut source = ImageSource::new();
    source.set_image(red_pixel());

    let first = source.execute(&context(3, 1), &[]).unwrap();
    let second = source.execute(&context(3, 1), &[]).unwrap();

    match (&first[0], &second[0]) {
        (Value::Image(a), Value::Image(b)) => assert!(Arc::ptr_eq(a, b)),
        other => panic!("expected two images, got {:?}", other),
    }
}

#[test]
fn re_fits_when_the_resolution_changes() {
    let mut source = ImageSource::new();
    source.set_image(red_pixel());

    source.execute(&context(3, 1), &[]).unwrap();
    let values = source.execute(&context(5, 5), &[]).unwrap();

    match &values[0] {
        Value::Image(out) => {
            assert_eq!(out.width, 5);
            assert_eq!(out.height, 5);
        }
        other => panic!("expected an image, got {:?}", other),
    }
}

#[test]
fn an_image_source_without_an_image_is_a_missing_source() {
    let mut source = ImageSource::new();
    let err = source.execute(&context(2, 2), &[]).unwrap_err();
    assert!(matches!(err, OperationError::SourceNotFound(ref m) if m == "Image not loaded"));
}

#[test]
fn a_one_pixel_image_fitted_wide_is_centred_with_a_transparent_border() {
    let mut source = ImageSource::new();
    source.set_image(red_pixel());

    let values = source.execute(&context(3, 1), &[]).unwrap();

    match &values[0] {
        Value::Image(out) => {
            assert_eq!(out.pixels, vec![0, 0, 0, 0, 255, 0, 0, 255, 0, 0, 0, 0]);
        }
        other => panic!("expected an image, got {:?}", other),
    }
}

#[test]
fn a_one_pixel_image_fitted_square_fills_the_canvas() {
    let mut source = ImageSource::new();
    source.set_image(red_pixel());

    let values = source.execute(&context(2, 2), &[]).unwrap();

    match &values[0] {
        Value::Image(out) => {
            assert_eq!(out.pixels, [255, 0, 0, 255].repeat(4));
        }
        other => panic!("expected an image, got {:?}", other),
    }
}

#[test]
fn a_newly_loaded_image_replaces_the_fit_of_the_old_one() {
    let mut source = ImageSource::new();
    source.set_image(red_pixel());
    source.execute(&context(1, 1), &[]).unwrap();

    source.set_image(Arc::new(U8Image { pixels: vec![0, 0, 255, 255], width: 1, height: 1, format: ImageFormat::Rgba8 }));
    let values = source.execute(&context(1, 1), &[]).unwrap();

    match &values[0] {
        Value::Image(out) => assert_eq!(out.pixels, vec![0, 0, 255, 255]),
        other => panic!("expected an image, got {:?}", other),
    }
}
