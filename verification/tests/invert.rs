use std::sync::Arc;

use engine::compositor::input::Input;
use engine::compositor::{Context, Meta, OperationError, Value};
use engine::graphics::{Frame, ImageFormat, U8Image};
use engine::operations::transform::invert::Invert;

fn context(width: u32, height: u32) -> Context {
    Context { meta: Meta { width, height }, input_bboxes: vec![] }
}

fn image(pixels: Vec<u8>, width: u32, height: u32) -> Arc<U8Image> {
    Arc::new(U8Image { pixels, width, height, format: ImageFormat::Rgba8 })
}

fn as_u8_pixels(value: &Value) -> Vec<u8> {
    match value {
        Value::Image(out) => out.pixels.clone(),
        other => panic!("expected an image, got {:?}", other),
    }
}

#[test]
fn unconnected_invert_produces_the_missing_placeholder() {
    let invert = Invert::new();
    let values = invert.execute(&context(2, 1), &[]).unwrap();

    match &values[0] {
        Value::Image(out) => {
            assert_eq!(out.width, 2);
            assert_eq!(out.height, 1);
        }
        other => panic!("expected image, got {:?}", other),
    }
}

#[test]
fn a_zero_alpha_mask_leaves_the_source_uninverted() {
    let invert = Invert::new();
    let input = image(vec![10, 200, 50, 255], 1, 1);
    let mask = image(vec![0, 0, 0, 0], 1, 1);

    let values = invert
        .execute(&context(1, 1), &[
            (Input::Source, Value::Image(input.clone())),
            (Input::Mask, Value::Image(mask)),
        ])
        .unwrap();

    assert_eq!(as_u8_pixels(&values[0]), input.pixels);
}

#[test]
fn a_full_alpha_mask_inverts_exactly_as_unmasked() {
    let invert = Invert::new();
    let input = image(vec![10, 200, 50, 255], 1, 1);
    let mask = image(vec![0, 0, 0, 255], 1, 1);

    let values = invert
        .execute(&context(1, 1), &[
            (Input::Source, Value::Image(input)),
            (Input::Mask, Value::Image(mask)),
        ])
        .unwrap();

    assert_eq!(as_u8_pixels(&values[0]), vec![245, 55, 205, 0]);
}

#[test]
fn inverting_black_is_white() {
    let invert = Invert::new();
    let black = Value::Image(image(vec![0, 0, 0, 128], 1, 1));
    let out = invert.execute(&context(1, 1), &[(Input::Source, black)]).unwrap();
    assert_eq!(as_u8_pixels(&out[0]), vec![255, 255, 255, 127]);
}

#[test]
fn inverting_twice_is_identity() {
    let invert = Invert::new();
    let color = vec![10, 200, 50, 255];
    let once = invert
        .execute(&context(1, 1), &[(Input::Source, Value::Image(image(color.clone(), 1, 1)))])
        .unwrap();
    let again = match &once[0] {
        Value::Image(img) => Value::Image(img.clone()),
        other => panic!("expected an image, got {:?}", other),
    };
    let twice = invert.execute(&context(1, 1), &[(Input::Source, again)]).unwrap();
    assert_eq!(as_u8_pixels(&twice[0]), color);
}

#[test]
fn invert_reads_frames_and_refuses_what_it_cannot_read() {
    let invert = Invert::new();
    let frame = Value::Frame(Arc::new(Frame { pixels: vec![0, 1, 2, 3], width: 1, height: 1 }));
    let values = invert.execute(&context(1, 1), &[(Input::Source, frame)]).unwrap();
    assert_eq!(as_u8_pixels(&values[0]), vec![255, 254, 253, 252]);

    let err = invert
        .execute(&context(1, 1), &[(Input::Source, Value::Text("x".into()))])
        .unwrap_err();
    assert!(matches!(err, OperationError::WrongValueType));

    let err = invert
        .execute(&context(1, 1), &[
            (Input::Source, Value::Image(image(vec![1, 2, 3, 4], 1, 1))),
            (Input::Mask, Value::Boolean(false)),
        ])
        .unwrap_err();
    assert!(matches!(err, OperationError::WrongValueType));

    let err = invert
        .execute(&context(1, 1), &[
            (Input::Source, Value::Image(image(vec![1, 2, 3, 4], 1, 1))),
            (Input::Mask, Value::Image(image(vec![0; 8], 2, 1))),
        ])
        .unwrap_err();
    assert!(matches!(err, OperationError::InvalidInputType(_)));
}

#[test]
fn a_half_alpha_mask_inverts_half_way() {
    let invert = Invert::new();
    let values = invert
        .execute(&context(1, 1), &[
            (Input::Source, Value::Image(image(vec![0, 255, 100, 255], 1, 1))),
            (Input::Mask, Value::Image(image(vec![0, 0, 0, 51], 1, 1))),
        ])
        .unwrap();
    // 0 toward 255 by 51/255 is 51; 255 toward 0 is 204; 100 toward 155 is 111.
    assert_eq!(as_u8_pixels(&values[0]), vec![51, 204, 111, 204]);
}
