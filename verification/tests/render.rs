use engine::compositor::metadata::OperationCategory;
use engine::compositor::{Context, Meta, Value};
use engine::operations::output::Render;

fn context() -> Context {
    Context {
        meta: Meta { width: 4, height: 4 },
        ..Default::default()
    }
}

#[test]
fn descriptor_matches_spec_output_render_v1() {
    let render = Render::new();
    let descriptor = render.descriptor();
    assert_eq!(descriptor.id, "render");
    assert_eq!(descriptor.menu, "OUTPUT");
    assert_eq!(descriptor.label, "RENDER");
    assert_eq!(descriptor.create_node, Some("render"));
    assert_eq!(descriptor.submenu, None);
}

#[test]
fn metadata_declares_zero_inputs_under_the_output_category() {
    let render = Render::new();
    let metadata = render.metadata();
    assert_eq!(metadata.category, OperationCategory::Output);
    assert!(metadata.inputs.is_empty(), "v1 is not graph-aware - it captures the OUTPUT canvas directly");
}

#[test]
fn parameters_are_empty_for_v1() {
    assert!(Render::new().parameters().is_empty(), "FILE_NAME/FORMAT/RESOLUTION/FPS/COMPRESSOR/FROM-TO are explicitly deferred");
}

#[test]
fn supports_edit_is_true_despite_zero_inputs_and_parameters() {
    assert!(Render::new().supports_edit(), "EDIT must stay reachable purely for the EXECUTE button");
}

#[test]
fn execute_returns_a_harmless_stub_value() {
    let render = Render::new();
    let values = render.execute(&context(), &[]).unwrap();
    assert_eq!(values.len(), 1);
    assert!(matches!(values[0], Value::Boolean(true)));
}
