use night_fishing::hand::{
    is_active_button, press_hand_button, update_hand_screen_from_detection,
    update_hand_screen_from_mouse, HandPositionButton, MouseReading, RightHandScreenPosition,
    ScreenHalf,
};

#[test]
fn mouse_hysteresis() {
    let mut p = RightHandScreenPosition::default();
    update_hand_screen_from_mouse(&mut p, MouseReading::At { below: false, above: false });
    assert_eq!(p.right_hand, Some(ScreenHalf::Bottom));
    update_hand_screen_from_mouse(&mut p, MouseReading::At { below: false, above: true });
    assert_eq!(p.right_hand, Some(ScreenHalf::Top));
    update_hand_screen_from_mouse(&mut p, MouseReading::At { below: false, above: false });
    assert_eq!(p.right_hand, Some(ScreenHalf::Top));
    update_hand_screen_from_mouse(&mut p, MouseReading::NoCursor);
    assert_eq!(p.right_hand, Some(ScreenHalf::Top));
    update_hand_screen_from_mouse(&mut p, MouseReading::At { below: true, above: false });
    assert_eq!(p.right_hand, Some(ScreenHalf::Bottom));
    update_hand_screen_from_mouse(&mut p, MouseReading::NoView);
    assert_eq!(p.right_hand, None);
}

#[test]
fn detection_sets_half() {
    let mut p = RightHandScreenPosition::default();
    update_hand_screen_from_detection(&mut p, Some(true));
    assert_eq!(p.right_hand, Some(ScreenHalf::Top));
    update_hand_screen_from_detection(&mut p, Some(false));
    assert_eq!(p.right_hand, Some(ScreenHalf::Bottom));
    update_hand_screen_from_detection(&mut p, None);
    assert_eq!(p.right_hand, None);
}

#[test]
fn debug_buttons_force_and_highlight() {
    let mut p = RightHandScreenPosition::default();
    press_hand_button(&mut p, HandPositionButton::Top);
    assert!(is_active_button(HandPositionButton::Top, &p));
    assert!(!is_active_button(HandPositionButton::Bottom, &p));
    press_hand_button(&mut p, HandPositionButton::Unknown);
    assert!(is_active_button(HandPositionButton::Unknown, &p));
    assert_eq!(p.right_hand, None);
}
