use engine::operations::generators::ghost::capacity;
use engine::operations::generators::{FrameHistory, RingPalette};

#[test]
fn growing_count_fills_new_rings_with_the_last_rings_colour() {
    let mut palette = RingPalette::new('w');
    palette.set_count(2);
    assert!(palette.select(2));
    palette.set_color('r');
    palette.set_count(4);
    assert_eq!(palette.count(), 4);
    assert_eq!((1..=4).map(|n| palette.ring_color(n)).collect::<String>(), "wrrr");
}

#[test]
fn shrinking_count_clamps_an_out_of_range_selection() {
    let mut palette = RingPalette::new(0u8);
    palette.set_count(3);
    assert!(palette.select(3));
    palette.set_count(2);
    assert_eq!(palette.selected_ring(), 2);
    palette.set_count(0);
    assert_eq!(palette.count(), 1);
    assert_eq!(palette.selected_ring(), 1);
}

#[test]
fn ring_selector_rejects_an_index_past_the_live_count() {
    let mut palette = RingPalette::new(0u8); // the count starts at 1
    assert!(!palette.select(2));
}

#[test]
fn each_ring_can_be_given_its_own_colour() {
    let mut palette = RingPalette::new([1.0f32, 1.0, 1.0, 1.0]);
    palette.set_count(2);

    assert!(palette.select(1));
    palette.set_color([1.0, 0.0, 0.0, 1.0]);

    assert!(palette.select(2));
    palette.set_color([0.0, 0.0, 1.0, 1.0]);

    assert_eq!(palette.ring_color(1), [1.0, 0.0, 0.0, 1.0]);
    assert_eq!(palette.ring_color(2), [0.0, 0.0, 1.0, 1.0]);
}

#[test]
fn the_ring_selector_refuses_every_index_outside_the_rings() {
    let mut palette = RingPalette::new(0u8);
    palette.set_count(2);
    assert!(!palette.select(3));
    assert!(!palette.select(0));
    assert!(!palette.select(-1));
    assert_eq!(palette.selected_ring(), 1);
    palette.set_color(9);
    assert_eq!(palette.color(), 9);
    assert_eq!(palette.ring_color(2), 0);
}

#[test]
fn the_history_keeps_exactly_what_the_deepest_ghost_needs() {
    assert_eq!(capacity(3, 2), 7);
    assert_eq!(capacity(1, 0), 1);
    assert_eq!(capacity(u64::MAX, 2), u64::MAX);

    let mut history = FrameHistory::new();
    for frame in 0..10u32 {
        history.record(frame, 2, 2);
    }
    assert_eq!(history.delayed(0), 9);
    assert_eq!(history.delayed(4), 5);
    assert_eq!(history.delayed(100), 5);
}

#[test]
fn delay_clamps_to_the_oldest_available_frame_before_enough_history_exists() {
    let mut history = FrameHistory::new();
    history.record("first", 1, 5);
    history.record("second", 1, 5);
    assert_eq!(history.delayed(5), "first");
    assert_eq!(history.delayed(0), "second");
}

#[test]
fn zero_delay_uses_the_current_frame_same_as_before_delay_existed() {
    let mut history = FrameHistory::new();
    history.record("red", 1, 0);
    history.record("green", 1, 0);
    assert_eq!(history.delayed(0), "green");
}

#[test]
fn delay_shows_an_older_frame_from_history() {
    let mut history = FrameHistory::new();
    history.record("red", 1, 2);
    history.record("green", 1, 2);
    history.record("blue", 1, 2);
    history.record("blue", 1, 2);
    // Two frames back from the fourth entry is the second: green.
    assert_eq!(history.delayed(2), "green");
}

#[test]
fn each_ghost_delay_scales_by_ghost_index_like_distance_does() {
    let mut history = FrameHistory::new();
    history.record("red", 2, 1);
    history.record("green", 2, 1);
    history.record("blue", 2, 1);
    // Ghost n reads n * DELAY frames back.
    assert_eq!(history.delayed(1 * 1), "green");
    assert_eq!(history.delayed(2 * 1), "red");
}
