use std::sync::Arc;

use engine::compositor::input::Input;
use engine::compositor::metadata::{OperationCategory, OutputKind};
use engine::compositor::{Context, Meta, OperationError, Value};
use engine::graphics::Frame;
use engine::operations::compose::{Add, Subtract};
use engine::operations::sources::pixel::PixelSource as HeldFrame;
use engine::operations::sources::{CameraSource, PixelSource, Video};
use engine::operations::transform::resize::ResizeAlgorithm;
use engine::operations::transform::rgb_to_hsv::{ColorFormat, RgbToHsv};
use engine::operations::transform::Invert;
use engine::compositor::bbox::Rect;

#[test]
fn add_subtract_and_invert_declare_their_shape_and_take_no_parameters() {
    let add = Add::new();
    assert_eq!(add.descriptor().id, "add");
    assert_eq!(add.metadata().inputs.iter().map(|i| i.kind).collect::<Vec<_>>(), vec![Input::Foreground, Input::Background, Input::Mask]);
    assert_eq!(add.metadata().outputs, vec![OutputKind::FloatImage]);
    assert!(add.parameters().is_empty());
    assert!(add.get_parameter("AMOUNT").is_none());

    let mut subtract = Subtract::default();
    assert_eq!(subtract.descriptor().label, "SUBTRACT");
    let err = subtract.set_parameter("AMOUNT", Value::Boolean(true)).unwrap_err();
    assert!(matches!(err, OperationError::UnknownParameter(ref n) if n == "AMOUNT"));

    let invert = Invert::new();
    assert_eq!(invert.descriptor().submenu, Some("SPECTRA"));
    assert_eq!(invert.metadata().category, OperationCategory::Color);
    assert_eq!(invert.metadata().inputs.len(), 2);
    assert_eq!(invert.metadata().outputs, vec![OutputKind::Image]);
}

#[test]
fn subtract_works_within_the_union_of_both_input_boxes_not_their_intersection() {
    let ctx = Context {
        meta: Meta { width: 10, height: 1 },
        input_bboxes: vec![
            (Input::Foreground, Rect::empty()),
            (Input::Background, Rect { x0: 3, y0: 0, x1: 7, y1: 1 }),
            (Input::Mask, Rect::full(10, 1)),
        ],
    };
    assert_eq!(Subtract::work_area(&ctx, 10, 1), Rect { x0: 3, y0: 0, x1: 7, y1: 1 });
}

#[test]
fn resize_algorithm_and_color_format_names_round_trip() {
    assert_eq!(ResizeAlgorithm::from_str("nearest neighbor"), Some(ResizeAlgorithm::NearestNeighbor));
    assert_eq!(ResizeAlgorithm::from_str("BILINEAR"), None);
    assert_eq!(ResizeAlgorithm::default().to_str(), "NEAREST NEIGHBOR");
    assert_eq!(ColorFormat::from_str("hsv"), Some(ColorFormat::Hsv));
    assert_eq!(ColorFormat::from_str("YUV"), None);
    assert_eq!(ColorFormat::default().to_str(), "HSV");
}

struct Solid(u8);

impl PixelSource for Solid {
    fn read(&self, width: u32, height: u32) -> Result<Frame, OperationError> {
        Ok(Frame { pixels: vec![self.0; (width * height * 4) as usize], width, height })
    }
}

struct Broken;

impl PixelSource for Broken {
    fn read(&self, _width: u32, _height: u32) -> Result<Frame, OperationError> {
        Err(OperationError::SourceNotFound("stream ended".into()))
    }
}

fn context(width: u32, height: u32) -> Context {
    Context { meta: Meta { width, height }, ..Default::default() }
}

#[test]
fn a_camera_reads_its_stream_at_the_render_size() {
    let mut camera: CameraSource<dyn PixelSource> = CameraSource::new();
    let err = camera.execute(&context(2, 1), &[]).unwrap_err();
    assert!(matches!(err, OperationError::SourceNotFound(ref m) if m == "Camera stream not attached"));

    camera.set_pixel_source(Arc::new(Solid(7))).unwrap();
    assert!(camera.get_source().is_some());
    assert!(camera.is_live());
    let values = camera.execute(&context(2, 1), &[]).unwrap();
    match &values[0] {
        Value::Frame(frame) => {
            assert_eq!((frame.width, frame.height), (2, 1));
            assert_eq!(frame.pixels, vec![7; 8]);
        }
        other => panic!("expected a frame, got {:?}", other),
    }

    camera.set_source(Arc::new(Broken));
    assert!(matches!(camera.execute(&context(2, 1), &[]), Err(OperationError::SourceNotFound(_))));
    assert_eq!(camera.descriptor().label, "CAMERA");
}

#[test]
fn a_video_source_hands_its_frame_on_as_an_image() {
    let video: Video<dyn PixelSource> = Video::new(Arc::new(Solid(3)));
    let image = video.image_at(1, 2).unwrap();
    assert_eq!((image.width, image.height), (1, 2));
    assert_eq!(image.pixels, vec![3; 8]);
}

#[test]
fn a_held_frame_can_be_read_changed_and_given_up() {
    let mut held = HeldFrame::new(Frame { pixels: vec![1, 2, 3, 4], width: 1, height: 1 });
    assert_eq!(held.frame().pixels, vec![1, 2, 3, 4]);
    held.frame_mut().pixels[0] = 9;
    assert_eq!(held.into_frame().pixels, vec![9, 2, 3, 4]);
}

#[test]
fn rgb_to_hsv_reads_and_sets_its_format() {
    let mut op = RgbToHsv::new();
    assert_eq!(op.format, ColorFormat::Hsv);
    assert_eq!(op.descriptor().label, "RGB TO HSV");
    assert_eq!(op.metadata().display_name, "RGB to HSV");
    assert_eq!(op.parameters()[0].name, "FORMAT");
    match op.get_parameter("FORMAT") {
        Some(Value::Text(t)) => assert_eq!(t, "HSV"),
        other => panic!("expected the format's name, got {:?}", other),
    }
    assert!(op.get_parameter("SCALE").is_none());

    assert!(op.set_parameter("FORMAT", Value::Text("hsv".into())).is_ok());
    assert!(matches!(
        op.set_parameter("FORMAT", Value::Text("LAB".into())),
        Err(OperationError::InvalidParameterValue(n, v)) if n == "FORMAT" && v == "LAB"
    ));
    assert!(matches!(
        op.set_parameter("FORMAT", Value::Boolean(true)),
        Err(OperationError::InvalidParameterType(n)) if n == "FORMAT"
    ));
    assert!(matches!(
        op.set_parameter("SCALE", Value::Text("HSV".into())),
        Err(OperationError::InvalidParameterType(n)) if n == "SCALE"
    ));
    assert_eq!(op, RgbToHsv::default());
}
