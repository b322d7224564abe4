use engine::compositor::bbox::Rect;
use engine::operations::transform::blur::natural_bbox;

#[test]
fn intersect_and_union_follow_box_geometry() {
    let a = Rect { x0: 0, y0: 0, x1: 4, y1: 4 };
    let b = Rect { x0: 2, y0: 1, x1: 6, y1: 3 };
    assert_eq!(a.intersect(&b), Rect { x0: 2, y0: 1, x1: 4, y1: 3 });
    assert_eq!(a.intersect(&b), b.intersect(&a));
    assert_eq!(a.union(&b), Rect { x0: 0, y0: 0, x1: 6, y1: 4 });
    assert_eq!(a.union(&Rect::empty()), a);
    assert_eq!(Rect::empty().union(&b), b);
}

#[test]
fn disjoint_boxes_intersect_to_the_canonical_empty_box_not_a_negative_extent() {
    let translated = Rect { x0: 100, y0: 0, x1: 108, y1: 8 };
    let clipped = translated.intersect(&Rect::full(8, 8));
    assert!(clipped.is_empty());
    assert_eq!(clipped, Rect::empty());
    assert_eq!(clipped.area(), 0);
}

#[test]
fn grow_and_area() {
    let r = Rect { x0: 3, y0: 3, x1: 7, y1: 7 };
    assert_eq!(r.grow(2), Rect { x0: 1, y0: 1, x1: 9, y1: 9 });
    assert_eq!(r.area(), 16);
    assert_eq!(Rect::full(6, 1).area(), 6);
}

#[test]
fn output_bbox_grows_a_sub_frame_box_by_exactly_the_radius_clamped_to_the_frame() {
    let bbox = natural_bbox(Some(Rect { x0: 3, y0: 3, x1: 7, y1: 7 }), 10, 10, 2);
    assert_eq!(bbox, Rect { x0: 1, y0: 1, x1: 9, y1: 9 });
}

#[test]
fn output_bbox_growth_past_the_frame_edge_is_clamped() {
    let bbox = natural_bbox(Some(Rect { x0: 0, y0: 0, x1: 3, y1: 3 }), 10, 10, 5);
    assert_eq!(bbox, Rect { x0: 0, y0: 0, x1: 8, y1: 8 });
}

#[test]
fn output_bbox_of_an_already_full_frame_source_stays_full_frame_after_growth() {
    let full = Rect::full(10, 10);
    assert_eq!(natural_bbox(Some(full), 10, 10, 3), full);
}

#[test]
fn output_bbox_with_no_reported_source_box_defaults_to_full_frame_then_grows_and_clamps() {
    assert_eq!(natural_bbox(None, 10, 10, 3), Rect::full(10, 10));
}

#[test]
fn blur_extent_of_an_empty_source_is_empty() {
    assert!(natural_bbox(Some(Rect::empty()), 10, 10, 3).is_empty());
}
