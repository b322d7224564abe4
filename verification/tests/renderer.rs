use std::sync::Arc;

use engine::compositor::{OperationError, Value};
use engine::graphics::{Frame, ImageFormat, Mask, U8Image, Video};
use engine::renderer::to_render_frame;

#[test]
fn a_frame_renders_as_itself() {
    let frame = Arc::new(Frame { pixels: vec![1, 2, 3, 4], width: 1, height: 1 });
    let out = to_render_frame(&Value::Frame(frame.clone())).unwrap();
    assert!(Arc::ptr_eq(&out, &frame));
}

#[test]
fn an_image_renders_with_its_pixels_and_size() {
    let image = Arc::new(U8Image { pixels: vec![5, 6, 7, 8, 9, 10, 11, 12], width: 2, height: 1, format: ImageFormat::Rgba8 });
    let out = to_render_frame(&Value::Image(image)).unwrap();
    assert_eq!(out.pixels, vec![5, 6, 7, 8, 9, 10, 11, 12]);
    assert_eq!((out.width, out.height), (2, 1));
}

#[test]
fn a_mask_renders_as_grey() {
    let mask = Arc::new(Mask { pixels: vec![0, 128], width: 2, height: 1 });
    let out = to_render_frame(&Value::Mask(mask)).unwrap();
    assert_eq!(out.pixels, vec![0, 0, 0, 0, 128, 128, 128, 128]);
}

#[test]
fn a_clip_renders_as_its_first_frame_and_an_empty_clip_is_a_missing_source() {
    let first = Arc::new(U8Image { pixels: vec![1, 1, 1, 1], width: 1, height: 1, format: ImageFormat::Rgba8 });
    let second = Arc::new(U8Image { pixels: vec![2, 2, 2, 2], width: 1, height: 1, format: ImageFormat::Rgba8 });
    let out = to_render_frame(&Value::Video(Arc::new(Video { frames: vec![first, second] }))).unwrap();
    assert_eq!(out.pixels, vec![1, 1, 1, 1]);

    let err = to_render_frame(&Value::Video(Arc::new(Video { frames: vec![] }))).unwrap_err();
    assert!(matches!(err, OperationError::SourceNotFound(ref m) if m == "Video contains no frames"));
}

#[test]
fn other_values_are_the_wrong_type() {
    assert!(matches!(to_render_frame(&Value::Boolean(true)), Err(OperationError::WrongValueType)));
    assert!(matches!(to_render_frame(&Value::Text("x".into())), Err(OperationError::WrongValueType)));
}
