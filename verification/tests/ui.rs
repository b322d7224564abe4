use engine::compositor::graph::{NodeId, NodeValidation, PatchMode};
use engine::compositor::input::Input;
use engine::ui::utils::{parse_patch_mode, patch_mode_name};
use engine::ui::views::NodeValidationView;

#[test]
fn patch_mode_names_round_trip() {
    for mode in [PatchMode::Replace, PatchMode::Add, PatchMode::Subtract] {
        assert_eq!(parse_patch_mode(patch_mode_name(mode)), Ok(mode));
    }
    assert_eq!(parse_patch_mode("add"), Err("Unknown PATCH mode: add".to_string()));
}

#[test]
fn validation_states_become_tags_with_details() {
    let v = NodeValidationView::from_validation(NodeValidation::Valid);
    assert_eq!((v.state, v.detail), ("valid", None));
    let v = NodeValidationView::from_validation(NodeValidation::Cycle);
    assert_eq!((v.state, v.detail), ("cycle", None));
    let v = NodeValidationView::from_validation(NodeValidation::MissingInput(Input::Mask));
    assert_eq!((v.state, v.detail), ("missing_input", Some("MASK".to_string())));
    let v = NodeValidationView::from_validation(NodeValidation::UnknownInput(NodeId { index: 1207, generation: 3 }));
    assert_eq!((v.state, v.detail), ("unknown_input", Some("1207".to_string())));
    let v = NodeValidationView::from_validation(NodeValidation::InvalidDependency(NodeId { index: 0, generation: 0 }));
    assert_eq!((v.state, v.detail), ("invalid_dependency", Some("0".to_string())));
}
