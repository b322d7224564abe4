use engine::compositor::{OperationError, Value};
use engine::graphics::{ImageFormat, U8Image};
use engine::operations::legacy::BlendMode as ChannelBlend;
use engine::operations::transform::merge::{BlendMode, Merge};
use engine::operations::transform::Multiply;

#[test]
fn blend_channel_applies_over_screen_and_multiply() {
    assert_eq!(ChannelBlend::Over.blend_channel(10, 200), 10);
    assert_eq!(ChannelBlend::Multiply.blend_channel(255, 77), 77);
    assert_eq!(ChannelBlend::Multiply.blend_channel(0, 77), 0);
    assert_eq!(ChannelBlend::Multiply.blend_channel(128, 128), 64);
    assert_eq!(ChannelBlend::Screen.blend_channel(0, 77), 77);
    assert_eq!(ChannelBlend::Screen.blend_channel(255, 77), 255);
    assert_eq!(ChannelBlend::Screen.blend_channel(128, 128), 192);
}

#[test]
fn screen_is_inverted_multiply_of_inverses_and_both_commute() {
    for a in (0..=255u8).step_by(17) {
        for b in (0..=255u8).step_by(15) {
            assert_eq!(
                ChannelBlend::Screen.blend_channel(a, b),
                255 - ChannelBlend::Multiply.blend_channel(255 - a, 255 - b)
            );
            assert_eq!(ChannelBlend::Multiply.blend_channel(a, b), ChannelBlend::Multiply.blend_channel(b, a));
            assert_eq!(ChannelBlend::Screen.blend_channel(a, b), ChannelBlend::Screen.blend_channel(b, a));
            assert!(ChannelBlend::Multiply.blend_channel(a, b) <= a.min(b));
            assert!(ChannelBlend::Screen.blend_channel(a, b) >= a.max(b));
        }
    }
}

#[test]
fn multiply_pixels_normalises_back_to_255_and_pads_unpaired_bytes_with_zero() {
    assert_eq!(Multiply::multiply_pixels(&[255, 128, 0, 10], &[255, 128, 200, 255]), vec![255, 64, 0, 10]);
    assert_eq!(Multiply::multiply_pixels(&[255, 255, 255, 255, 9, 9, 9, 9], &[100, 100, 100, 100]), vec![100, 100, 100, 100, 0, 0, 0, 0]);
}

fn image(pixels: Vec<u8>, width: u32, height: u32) -> U8Image {
    U8Image { pixels, width, height, format: ImageFormat::Rgba8 }
}

#[test]
fn merge_multiplies_same_sized_images_and_refuses_mismatched_ones() {
    let merge = Merge::new();
    let values = merge.combine(&image(vec![255, 128, 0, 255], 1, 1), &image(vec![10, 128, 99, 255], 1, 1)).unwrap();
    match &values[0] {
        Value::Image(out) => {
            assert_eq!(out.pixels, vec![10, 64, 0, 255]);
            assert_eq!((out.width, out.height), (1, 1));
        }
        other => panic!("expected an image, got {:?}", other),
    }

    let err = merge.combine(&image(vec![0; 8], 2, 1), &image(vec![0; 4], 1, 1)).unwrap_err();
    assert!(matches!(err, OperationError::InvalidInputType(ref m) if m == "Merge inputs must have matching dimensions"));

    let err = Multiply::new().combine(&image(vec![0; 8], 1, 2), &image(vec![0; 8], 2, 1)).unwrap_err();
    assert!(matches!(err, OperationError::InvalidInputType(ref m) if m == "Multiply inputs must have matching dimensions"));
}

#[test]
fn merge_blend_mode_parameter_round_trips() {
    let mut merge = Merge::default();
    assert_eq!(BlendMode::from_str("multiply"), Some(BlendMode::Multiply));
    assert_eq!(BlendMode::from_str("screen"), None);
    assert!(matches!(merge.get_parameter("blend_mode"), Some(Value::Text(ref t)) if t == "MULTIPLY"));
    assert!(merge.get_parameter("mode").is_none());
    merge.set_parameter("blend_mode", Value::Text("Multiply".into())).unwrap();
    assert!(matches!(merge.set_parameter("blend_mode", Value::Text("SCREEN".into())), Err(OperationError::InvalidParameterValue(_, _))));
    assert!(matches!(merge.set_parameter("blend_mode", Value::Boolean(false)), Err(OperationError::InvalidParameterType(_))));
    assert!(matches!(merge.set_parameter("mode", Value::Text("MULTIPLY".into())), Err(OperationError::UnknownParameter(_))));
    assert_eq!(merge.parameters()[0].name, "blend_mode");
    assert_eq!(merge.descriptor().id, "merge");
}
