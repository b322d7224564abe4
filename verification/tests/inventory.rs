use engine::compositor::input::Input;
use engine::compositor::metadata::{OperationCategory, OutputKind};
use engine::compositor::OperationRegistry;
use engine::operations::inventory::{create_operation, get_all_descriptors, get_constructor, initialize_inventory, populate_registry, OperationKind};
use engine::operations::output::Render;
use engine::operations::register::register_operations;

#[test]
fn every_operation_is_found_by_its_own_id() {
    let entries = initialize_inventory();
    assert_eq!(entries.len(), 24);
    for entry in &entries {
        assert_eq!(get_constructor(entry.descriptor.id), Some(entry.constructor));
        assert_eq!(create_operation(entry.descriptor.id), Some(entry.constructor));
    }
    assert_eq!(get_constructor("no_such_operation"), None);
}

#[test]
fn descriptors_come_from_the_catalogue_and_match_the_operations() {
    let descriptors = get_all_descriptors();
    assert_eq!(descriptors.len(), 24);
    let render = descriptors.iter().find(|d| d.id == "render").unwrap();
    assert_eq!(*render, Render::new().descriptor());
    let camera = descriptors.iter().find(|d| d.id == "camera_source").unwrap();
    assert_eq!(camera.ui_action, Some("open_camera_stream"));
    assert_eq!(camera.create_node, None);
    assert_eq!(OperationKind::HueKey.category(), OperationCategory::Mask);
}

#[test]
fn populating_an_empty_registry_lists_the_catalogue_once() {
    let mut registry = OperationRegistry::new();
    populate_registry(&mut registry);
    let mut again = OperationRegistry::new();
    register_operations(&mut again);
    register_operations(&mut again);
    let _ = (registry, again);
}

#[test]
fn each_kind_declares_its_inputs_and_outputs() {
    let resize = OperationKind::Resize.metadata();
    assert_eq!(resize.display_name, "Resize");
    assert_eq!(resize.category, OperationCategory::Color);
    assert_eq!(resize.inputs.len(), 1);
    assert_eq!(resize.inputs[0].kind, Input::Source);
    assert_eq!(resize.inputs[0].accepts, &[OutputKind::Image, OutputKind::FloatImage, OutputKind::Frame]);
    assert_eq!(resize.outputs, vec![OutputKind::FloatImage]);

    let patch = OperationKind::Patch.metadata();
    assert_eq!(patch.inputs.len(), 2);
    assert!(patch.inputs[0].accepts.is_empty());
    assert_eq!(patch.inputs[1].kind, Input::Reference);
    assert_eq!(patch.inputs[1].accepts, &[OutputKind::Number]);

    let lissajous = OperationKind::Lissajous.metadata();
    assert_eq!(lissajous.category, OperationCategory::Animation);
    assert!(lissajous.inputs.is_empty());
    assert_eq!(lissajous.outputs, vec![OutputKind::Number, OutputKind::Number]);

    assert_eq!(OperationKind::Ghosts.display_name(), "Ghost");
    assert_eq!(OperationKind::RgbToHsv.display_name(), "RGB to HSV");
    assert_eq!(OperationKind::CameraSource.metadata().outputs, vec![OutputKind::Frame]);
    assert_eq!(OperationKind::HueKey.metadata().inputs[1].kind, Input::Reference);
}

#[test]
fn source_input_accepts_is_unrestricted() {
    let metadata = OperationKind::Patch.metadata();
    let source = metadata.inputs.iter().find(|d| d.kind == Input::Source).unwrap();
    assert!(source.accepts.is_empty(), "SOURCE can be anything - the empty-accepts escape hatch");
}

#[test]
fn reference_input_accepts_exactly_number() {
    let metadata = OperationKind::Patch.metadata();
    let reference = metadata.inputs.iter().find(|d| d.kind == Input::Reference).unwrap();
    assert_eq!(reference.accepts, &[OutputKind::Number]);
}

#[test]
fn reference_input_accepts_differs_from_patchs_reference() {
    let hue_key_metadata = OperationKind::HueKey.metadata();
    let hue_key_reference = hue_key_metadata.inputs.iter().find(|d| d.kind == Input::Reference).unwrap();

    let patch_metadata = OperationKind::Patch.metadata();
    let patch_reference = patch_metadata.inputs.iter().find(|d| d.kind == Input::Reference).unwrap();

    assert_ne!(hue_key_reference.accepts, patch_reference.accepts);
    assert!(hue_key_reference.accepts.contains(&OutputKind::FloatImage));
}

#[test]
fn mask_input_accepts_float_image_and_image() {
    let metadata = OperationKind::ChromaKey.metadata();
    let mask = metadata.inputs.iter().find(|d| d.kind == Input::Mask).unwrap();
    assert!(mask.accepts.contains(&OutputKind::FloatImage));
    assert!(mask.accepts.contains(&OutputKind::Image));
}
