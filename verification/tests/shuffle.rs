use std::sync::Arc;

use engine::compositor::bbox::Rect;
use engine::graphics::{ImageFormat, U8Image};
use engine::compositor::input::Input;
use engine::compositor::metadata::{OperationCategory, OutputKind, ParameterKind};
use engine::compositor::{Context, Meta, OperationError, Value};
use engine::operations::transform::shuffle::{shuffle_channels, Shuffle, ShuffleChannel};

#[test]
fn channel_names_round_trip_and_ignore_case() {
    for c in [ShuffleChannel::R, ShuffleChannel::G, ShuffleChannel::B, ShuffleChannel::A, ShuffleChannel::Off] {
        assert_eq!(ShuffleChannel::from_str(c.to_str()), Some(c));
        assert_eq!(ShuffleChannel::from_str(&c.to_str().to_lowercase()), Some(c));
    }
    assert_eq!(ShuffleChannel::from_str("r"), Some(ShuffleChannel::R));
    assert_eq!(ShuffleChannel::from_str("G"), Some(ShuffleChannel::G));
    assert_eq!(ShuffleChannel::from_str("b"), Some(ShuffleChannel::B));
    assert_eq!(ShuffleChannel::from_str("a"), Some(ShuffleChannel::A));
    assert_eq!(ShuffleChannel::from_str("oFf"), Some(ShuffleChannel::Off));
    assert_eq!(ShuffleChannel::from_str("O"), None);
    assert_eq!(ShuffleChannel::from_str("PURPLE"), None);
    assert_eq!(ShuffleChannel::default(), ShuffleChannel::R);
    assert_eq!(shuffle_channels(), &["RED", "GREEN", "BLUE", "ALPHA", "OFF"]);
}

#[test]
fn channels_are_taken_from_the_selected_source_channel_in_a_raw_buffer() {
    let mut shuffle = Shuffle::new();
    shuffle.set_parameter("RED", Value::Text("GREEN".into())).unwrap();
    shuffle.set_parameter("GREEN", Value::Text("BLUE".into())).unwrap();
    shuffle.set_parameter("BLUE", Value::Text("RED".into())).unwrap();
    shuffle.set_parameter("ALPHA", Value::Text("OFF".into())).unwrap();

    assert_eq!(shuffle.shuffle_pixels(&[10u8, 20, 30, 40]), vec![20, 30, 10, 0]);
}

#[test]
fn off_zeroes_a_channel_of_a_raw_buffer_without_touching_the_others() {
    let mut shuffle = Shuffle::new();
    shuffle.set_parameter("GREEN", Value::Text("OFF".into())).unwrap();
    assert_eq!(shuffle.shuffle_pixels(&[1u8, 2, 3, 4]), vec![1, 0, 3, 4]);
}

#[test]
fn the_identity_shuffle_keeps_every_pixel_and_zero_stays_zero() {
    let pixels: Vec<u8> = (0..16).collect();
    assert_eq!(Shuffle::new().shuffle_pixels(&pixels), pixels);

    let mut shuffle = Shuffle::new();
    shuffle.set_parameter("RED", Value::Text("ALPHA".into())).unwrap();
    shuffle.set_parameter("BLUE", Value::Text("OFF".into())).unwrap();
    assert_eq!(shuffle.shuffle_pixels(&[0u8; 12]), vec![0u8; 12]);
}

#[test]
fn bytes_past_the_last_whole_pixel_are_zero() {
    assert_eq!(Shuffle::new().shuffle_pixels(&[1u8, 2, 3, 4, 5, 6]), vec![1, 2, 3, 4, 0, 0]);
}

#[test]
fn shuffle_is_generic_over_the_channel_type() {
    let mut shuffle = Shuffle::new();
    shuffle.set_parameter("RED", Value::Text("BLUE".into())).unwrap();
    assert_eq!(shuffle.shuffle_pixels(&[7i64, 8, 9, 10]), vec![9i64, 8, 9, 10]);
}

#[test]
fn set_parameter_reports_each_kind_of_refusal_and_changes_nothing() {
    let mut shuffle = Shuffle::new();

    let err = shuffle.set_parameter("PURPLE", Value::Text("RED".into())).unwrap_err();
    assert!(matches!(err, OperationError::UnknownParameter(ref n) if n == "PURPLE"));

    let err = shuffle.set_parameter("RED", Value::Boolean(true)).unwrap_err();
    assert!(matches!(err, OperationError::InvalidParameterType(ref n) if n == "RED"));

    let err = shuffle.set_parameter("PURPLE", Value::Boolean(true)).unwrap_err();
    assert!(matches!(err, OperationError::InvalidParameterType(ref n) if n == "PURPLE"));

    let err = shuffle.set_parameter("RED", Value::Text("MAUVE".into())).unwrap_err();
    assert!(matches!(err, OperationError::InvalidParameterValue(ref n, ref v) if n == "RED" && v == "MAUVE"));

    assert_eq!(shuffle, Shuffle::new());
}

#[test]
fn get_parameter_reads_back_what_was_set() {
    let mut shuffle = Shuffle::new();
    shuffle.set_parameter("ALPHA", Value::Text("red".into())).unwrap();
    assert!(matches!(shuffle.get_parameter("ALPHA"), Some(Value::Text(ref t)) if t == "RED"));
    assert!(matches!(shuffle.get_parameter("GREEN"), Some(Value::Text(ref t)) if t == "GREEN"));
    assert!(shuffle.get_parameter("alpha").is_none());
}

#[test]
fn shuffle_declares_four_channel_selectors_and_an_image_output() {
    let shuffle = Shuffle::new();
    let parameters = shuffle.parameters();
    let names: Vec<&str> = parameters.iter().map(|p| p.name).collect();
    assert_eq!(names, vec!["RED", "GREEN", "BLUE", "ALPHA"]);
    for p in &parameters {
        assert!(matches!(p.kind, ParameterKind::Enum(options) if options.len() == 5));
        assert_eq!(p.group, None);
    }

    let metadata = shuffle.metadata();
    assert_eq!(metadata.display_name, "Shuffle");
    assert_eq!(metadata.category, OperationCategory::Color);
    assert_eq!(metadata.inputs.len(), 2);
    assert_eq!(metadata.inputs[0].kind, Input::Source);
    assert_eq!(metadata.inputs[1].kind, Input::Mask);
    assert_eq!(metadata.outputs, vec![OutputKind::Image]);

    let descriptor = shuffle.descriptor();
    assert_eq!(descriptor.id, "shuffle");
    assert_eq!(descriptor.submenu, Some("SPECTRA"));
}

fn context(width: u32, height: u32, input_bboxes: Vec<(Input, Rect)>) -> Context {
    Context { meta: Meta { width, height }, input_bboxes }
}

#[test]
fn the_work_area_is_the_source_box_within_the_mask_box() {
    let ctx = context(10, 1, vec![
        (Input::Source, Rect { x0: 3, y0: 0, x1: 7, y1: 1 }),
        (Input::Mask, Rect::full(10, 1)),
    ]);
    assert_eq!(Shuffle::work_area(&ctx, 10, 1), Rect { x0: 3, y0: 0, x1: 7, y1: 1 });

    let ctx = context(4, 4, vec![
        (Input::Source, Rect::full(4, 4)),
        (Input::Mask, Rect { x0: 1, y0: 1, x1: 2, y1: 2 }),
    ]);
    assert_eq!(Shuffle::work_area(&ctx, 4, 4).area(), 1);
    assert_eq!(Shuffle::work_area(&context(4, 4, vec![]), 4, 4), Rect::full(4, 4));
}

fn image(pixels: Vec<u8>, width: u32, height: u32) -> Arc<U8Image> {
    Arc::new(U8Image { pixels, width, height, format: ImageFormat::Rgba8 })
}

fn as_u8_pixels(value: &Value) -> Vec<u8> {
    match value {
        Value::Image(out) => out.pixels.clone(),
        other => panic!("expected an image, got {:?}", other),
    }
}

#[test]
fn an_unconnected_shuffle_produces_the_missing_placeholder_at_the_current_resolution() {
    let shuffle = Shuffle::new();

    let values = shuffle
        .execute(&context(2, 1, vec![]), &[])
        .expect("an unwired shuffle is a legal graph state");

    match &values[0] {
        Value::Image(output) => {
            assert_eq!(output.width, 2);
            assert_eq!(output.height, 1);
            // Both pixels fall in the same 16px checker tile at this tiny
            // size, so they're the placeholder's magenta, not black.
            assert_eq!(output.pixels, vec![255, 0, 255, 255, 255, 0, 255, 255]);
        }
        other => panic!("expected an image, got {:?}", other),
    }
}

#[test]
fn channels_are_taken_from_the_selected_source_channel() {
    let mut shuffle = Shuffle::new();

    shuffle.set_parameter("RED", Value::Text("GREEN".into())).unwrap();
    shuffle.set_parameter("GREEN", Value::Text("BLUE".into())).unwrap();
    shuffle.set_parameter("BLUE", Value::Text("RED".into())).unwrap();
    shuffle.set_parameter("ALPHA", Value::Text("OFF".into())).unwrap();

    let input = Value::Image(image(vec![10, 20, 30, 40], 1, 1));

    let values = shuffle
        .execute(&context(1, 1, vec![]), &[(Input::Source, input)])
        .expect("shuffle should accept an image");

    assert_eq!(as_u8_pixels(&values[0]), vec![20, 30, 10, 0]);
}

#[test]
fn off_zeroes_a_channel_without_touching_the_others() {
    let mut shuffle = Shuffle::new();
    shuffle.set_parameter("GREEN", Value::Text("OFF".into())).unwrap();

    let input = Value::Image(image(vec![1, 2, 3, 4], 1, 1));

    let values = shuffle
        .execute(&context(1, 1, vec![]), &[(Input::Source, input)])
        .expect("shuffle should accept an image");

    assert_eq!(as_u8_pixels(&values[0]), vec![1, 0, 3, 4]);
}

#[test]
fn a_zero_alpha_mask_leaves_the_channels_unshuffled() {
    let mut shuffle = Shuffle::new();
    shuffle.set_parameter("RED", Value::Text("GREEN".into())).unwrap();

    let input = image(vec![10, 20, 30, 40], 1, 1);
    let mask = image(vec![0, 0, 0, 0], 1, 1);

    let values = shuffle
        .execute(&context(1, 1, vec![]), &[
            (Input::Source, Value::Image(input.clone())),
            (Input::Mask, Value::Image(mask)),
        ])
        .unwrap();

    assert_eq!(as_u8_pixels(&values[0]), input.pixels);
}

#[test]
fn shuffle_consume_equivalence_a_real_mask_bbox_produces_the_same_output_as_a_full_frame_one() {
    let mut shuffle = Shuffle::new();
    shuffle.set_parameter("RED", Value::Text("GREEN".into())).unwrap();

    let source = image((0..6u8).flat_map(|n| [n * 10, n * 10 + 1, n * 10 + 2, 255]).collect(), 6, 1);
    let mask = image(
        vec![
            0, 0, 0, 0,   0, 0, 0, 0,
            0, 0, 0, 255, 0, 0, 0, 255,
            0, 0, 0, 0,   0, 0, 0, 0,
        ],
        6, 1,
    );

    let inputs = [
        (Input::Source, Value::Image(source)),
        (Input::Mask, Value::Image(mask)),
    ];

    let ctx_with_real_box = context(6, 1, vec![
        (Input::Source, Rect::full(6, 1)),
        (Input::Mask, Rect { x0: 2, y0: 0, x1: 4, y1: 1 }),
    ]);
    let ctx_full_frame = context(6, 1, vec![]);

    let restricted = shuffle.execute(&ctx_with_real_box, &inputs).unwrap();
    let unrestricted = shuffle.execute(&ctx_full_frame, &inputs).unwrap();

    assert_eq!(as_u8_pixels(&restricted[0]), as_u8_pixels(&unrestricted[0]));
}

#[test]
fn shuffle_consume_equivalence_holds_even_when_source_itself_reports_a_sub_frame_box() {
    // shuffle([0,0,0,0]) is always [0,0,0,0] whatever the channel mapping,
    // so SOURCE's own box is a valid operand of the work area.
    let mut shuffle = Shuffle::new();
    shuffle.set_parameter("RED", Value::Text("BLUE".into())).unwrap();

    let mut source_pixels = vec![0u8; 10 * 4];
    for x in 3..7 {
        source_pixels[x * 4..x * 4 + 4].copy_from_slice(&[100, 150, 200, 255]);
    }
    let source = image(source_pixels, 10, 1);
    let mask = image(vec![255; 10 * 4], 10, 1);

    let inputs = [
        (Input::Source, Value::Image(source)),
        (Input::Mask, Value::Image(mask)),
    ];

    let ctx_with_real_source_box = context(10, 1, vec![
        (Input::Source, Rect { x0: 3, y0: 0, x1: 7, y1: 1 }),
        (Input::Mask, Rect::full(10, 1)),
    ]);
    let ctx_full_frame = context(10, 1, vec![]);

    let restricted = shuffle.execute(&ctx_with_real_source_box, &inputs).unwrap();
    let unrestricted = shuffle.execute(&ctx_full_frame, &inputs).unwrap();

    assert_eq!(as_u8_pixels(&restricted[0]), as_u8_pixels(&unrestricted[0]));
}

#[test]
fn shuffle_a_smaller_mask_bbox_computes_strictly_fewer_pixels_than_a_full_frame_one() {
    let shuffle = Shuffle::new();

    let source = image((0..16u8).flat_map(|n| [n, n, n, 255]).collect(), 4, 4);
    let mask = image(vec![255; 4 * 4 * 4], 4, 4);

    let inputs = [
        (Input::Source, Value::Image(source)),
        (Input::Mask, Value::Image(mask)),
    ];

    let small_box_ctx = context(4, 4, vec![
        (Input::Source, Rect::full(4, 4)),
        (Input::Mask, Rect { x0: 1, y0: 1, x1: 2, y1: 2 }),
    ]);
    let (_, small_box_pixels) = shuffle.execute_counted(&small_box_ctx, &inputs).unwrap();
    let small_box_pixels = small_box_pixels.expect("SHUFFLE with a wired MASK must record a pixel count");

    let full_frame_ctx = context(4, 4, vec![]);
    let (_, full_frame_pixels) = shuffle.execute_counted(&full_frame_ctx, &inputs).unwrap();
    let full_frame_pixels = full_frame_pixels.expect("SHUFFLE with a wired MASK must record a pixel count");

    assert_eq!(small_box_pixels, 1);
    assert_eq!(full_frame_pixels, 16);
    assert!(small_box_pixels < full_frame_pixels);
}

#[test]
fn a_partial_mask_blends_to_the_nearest_level_and_an_unmasked_run_reports_no_count() {
    let mut shuffle = Shuffle::new();
    shuffle.set_parameter("RED", Value::Text("OFF".into())).unwrap();
    let source = image(vec![200, 20, 30, 40], 1, 1);
    let mask = image(vec![0, 0, 0, 128], 1, 1);
    let inputs = [
        (Input::Source, Value::Image(source.clone())),
        (Input::Mask, Value::Image(mask)),
    ];
    // 200 * 127 / 255 = 99.6..., rounded to 100.
    let values = shuffle.execute(&context(1, 1, vec![]), &inputs).unwrap();
    assert_eq!(as_u8_pixels(&values[0]), vec![100, 20, 30, 40]);

    let (values, count) = shuffle
        .execute_counted(&context(1, 1, vec![]), &[(Input::Source, Value::Image(source))])
        .unwrap();
    assert_eq!(as_u8_pixels(&values[0]), vec![0, 20, 30, 40]);
    assert_eq!(count, None);
}

#[test]
fn shuffle_refuses_a_mask_of_another_size_and_a_source_without_pixels() {
    let shuffle = Shuffle::new();
    let source = image(vec![1, 2, 3, 4, 5, 6, 7, 8], 2, 1);
    let mask = image(vec![0, 0, 0, 255], 1, 1);
    let err = shuffle
        .execute(&context(2, 1, vec![]), &[
            (Input::Source, Value::Image(source)),
            (Input::Mask, Value::Image(mask)),
        ])
        .unwrap_err();
    assert!(matches!(err, OperationError::InvalidInputType(_)));

    let err = shuffle
        .execute(&context(2, 1, vec![]), &[(Input::Source, Value::Boolean(true))])
        .unwrap_err();
    assert!(matches!(err, OperationError::WrongValueType));
}
