use night_fishing::hover::{
    backpack_open_hover_step, close_button_hover_step, last_item_hover_step, HoverTimer,
    ItemHoverState, ItemHoverTick, LastItemHover, HOVER_DURATION_NS,
};
use night_fishing::states::GameState;

#[test]
fn hover_fires_after_one_second_of_hovering() {
    let mut t = HoverTimer::new();
    assert!(!t.step(true, 400_000_000));
    assert_eq!(t.ring_progress(), Some(400_000_000));
    assert!(!t.step(true, 500_000_000));
    assert!(t.step(true, 100_000_000));
    assert_eq!(t, HoverTimer { elapsed: 0, active: false });
    assert_eq!(t.ring_progress(), None);
}

#[test]
fn leaving_resets_the_hover() {
    let mut t = HoverTimer::new();
    t.step(true, 900_000_000);
    assert!(!t.step(false, 10));
    assert_eq!(t.ring_progress(), None);
    assert!(!t.step(true, 900_000_000));
}

#[test]
fn backpack_opens_only_in_allowed_states() {
    let mut t = HoverTimer::new();
    assert!(!backpack_open_hover_step(&mut t, Some(GameState::Idle), true, true, 500_000_000));
    assert!(!backpack_open_hover_step(&mut t, Some(GameState::Reeling), true, true, 900_000_000));
    assert_eq!(t, HoverTimer { elapsed: 0, active: false });
    assert!(backpack_open_hover_step(&mut t, Some(GameState::Monster), true, true, HOVER_DURATION_NS));
    t.step(true, 100);
    assert!(!backpack_open_hover_step(&mut t, None, true, true, HOVER_DURATION_NS));
    assert_eq!(t.elapsed, 100);
    assert!(!backpack_open_hover_step(&mut t, Some(GameState::Waiting), false, true, HOVER_DURATION_NS));
    assert_eq!(t.elapsed, 100);
}

#[test]
fn close_button_needs_a_button() {
    let mut t = HoverTimer::new();
    assert!(!close_button_hover_step(&mut t, false, true, HOVER_DURATION_NS));
    assert!(close_button_hover_step(&mut t, true, true, HOVER_DURATION_NS));
}

#[test]
fn last_item_opens_panel_only_with_text() {
    let mut t = HoverTimer::new();
    assert_eq!(
        last_item_hover_step(&mut t, Some(GameState::Idle), true, true, true, HOVER_DURATION_NS),
        LastItemHover::OpenPanel
    );
    assert_eq!(
        last_item_hover_step(&mut t, Some(GameState::Idle), true, true, false, HOVER_DURATION_NS),
        LastItemHover::Nothing
    );
    t.step(true, 5);
    assert_eq!(
        last_item_hover_step(&mut t, Some(GameState::UIOpened), true, true, true, HOVER_DURATION_NS),
        LastItemHover::Nothing
    );
    assert_eq!(t, HoverTimer { elapsed: 0, active: false });
}

#[test]
fn item_hover_restarts_on_a_new_item_and_reveals() {
    let mut s = ItemHoverState::new();
    assert_eq!(s.step(false, Some(1), 10), ItemHoverTick::Closed);
    assert_eq!(s.step(true, Some(1), 600_000_000), ItemHoverTick::Started { item: 1 });
    assert_eq!(s.step(true, Some(1), 100_000_000), ItemHoverTick::Holding { item: 1 });
    assert_eq!(s.ring_progress(), Some(700_000_000));
    assert_eq!(s.step(true, Some(2), 600_000_000), ItemHoverTick::Started { item: 2 });
    assert_eq!(s.step(true, Some(2), 400_000_000), ItemHoverTick::Reveal { item: 2 });
    assert_eq!(s, ItemHoverState { elapsed: 0, active: false, hovered_item: None });
    assert_eq!(s.step(true, None, 10), ItemHoverTick::Idle);
}
