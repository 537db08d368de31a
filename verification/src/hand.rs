//! Which half of the screen the player's right hand is in, from the mouse
//! (with a dead zone around the middle) or from wrist detection, and the
//! debug panel that forces it.
use vstd::prelude::*;

verus! {

/// A half of the screen.
#[derive(Clone, Copy, Debug, PartialEq, Eq, Structural)]
pub enum ScreenHalf {
    Top,
    Bottom,
}

/// Where the right hand is, if it is known.
#[derive(Clone, Copy, Debug, PartialEq, Eq, Default)]
pub struct RightHandScreenPosition {
    pub right_hand: Option<ScreenHalf>,
}

/// Half-height of the dead zone around the screen's middle, in pixels.
pub const HAND_SCREEN_HYSTERESIS_PX: i32 = 80;

/// One reading of the mouse for the hand position.
#[derive(Clone, Copy, Debug, PartialEq, Eq)]
pub enum MouseReading {
    /// There is no window or no camera: the hand is unknown.
    NoView,
    /// The cursor is outside the window or off the world plane.
    NoCursor,
    /// The cursor's world height compared with the dead zone's edges:
    /// `below` is `y < -HAND_SCREEN_HYSTERESIS_PX`, `above` is
    /// `y >= HAND_SCREEN_HYSTERESIS_PX`.
    At { below: bool, above: bool },
}

/// The half the hand is in after the cursor moves: leaving the top takes
/// going below the dead zone, reaching the top takes going above it.
pub open spec fn next_half(current: Option<ScreenHalf>, below: bool, above: bool) -> ScreenHalf {
    match current {
        Some(ScreenHalf::Top) => if below {
            ScreenHalf::Bottom
        } else {
            ScreenHalf::Top
        },
        _ => if above {
            ScreenHalf::Top
        } else {
            ScreenHalf::Bottom
        },
    }
}

/// Updates the hand position from one mouse reading.
pub fn update_hand_screen_from_mouse(pos: &mut RightHandScreenPosition, reading: MouseReading)
    ensures
        match reading {
            MouseReading::NoView => final(pos).right_hand is None,
            MouseReading::NoCursor => *final(pos) == *old(pos),
            MouseReading::At { below, above } => final(pos).right_hand == Some(
                next_half(old(pos).right_hand, below, above),
            ),
        },
{
    match reading {
        MouseReading::NoView => {
            pos.right_hand = None;
        },
        MouseReading::NoCursor => {},
        MouseReading::At { below, above } => {
            let position = match pos.right_hand {
                Some(ScreenHalf::Top) => if below {
                    ScreenHalf::Bottom
                } else {
                    ScreenHalf::Top
                },
                _ => if above {
                    ScreenHalf::Top
                } else {
                    ScreenHalf::Bottom
                },
            };
            pos.right_hand = Some(position);
        },
    }
}

/// Updates the hand position from wrist detection: `wrist_at_or_above`
/// is `None` without a detected wrist, else whether its centre is at or
/// above the middle (`y >= 0`).
pub fn update_hand_screen_from_detection(
    pos: &mut RightHandScreenPosition,
    wrist_at_or_above: Option<bool>,
)
    ensures
        final(pos).right_hand == match wrist_at_or_above {
            None => None,
            Some(up) => Some(
                if up {
                    ScreenHalf::Top
                } else {
                    ScreenHalf::Bottom
                },
            ),
        },
{
    match wrist_at_or_above {
        None => {
            pos.right_hand = None;
        },
        Some(up) => {
            pos.right_hand = Some(
                if up {
                    ScreenHalf::Top
                } else {
                    ScreenHalf::Bottom
                },
            );
        },
    }
}

/// Buttons of the hand debug panel.
#[derive(Clone, Copy, Debug, PartialEq, Eq, Structural)]
pub enum HandPositionButton {
    Top,
    Bottom,
    Unknown,
}

pub open spec fn button_target(b: HandPositionButton) -> Option<ScreenHalf> {
    match b {
        HandPositionButton::Top => Some(ScreenHalf::Top),
        HandPositionButton::Bottom => Some(ScreenHalf::Bottom),
        HandPositionButton::Unknown => None,
    }
}

/// Pressing a debug button forces the hand position.
pub fn press_hand_button(pos: &mut RightHandScreenPosition, button: HandPositionButton)
    ensures
        final(pos).right_hand == button_target(button),
{
    pos.right_hand = match button {
        HandPositionButton::Top => Some(ScreenHalf::Top),
        HandPositionButton::Bottom => Some(ScreenHalf::Bottom),
        HandPositionButton::Unknown => None,
    };
}

/// A debug button is highlighted when it matches the current position.
pub fn is_active_button(button: HandPositionButton, pos: &RightHandScreenPosition) -> (r: bool)
    ensures
        r == (button_target(button) == pos.right_hand),
{
    match (button, pos.right_hand) {
        (HandPositionButton::Top, Some(ScreenHalf::Top)) => true,
        (HandPositionButton::Bottom, Some(ScreenHalf::Bottom)) => true,
        (HandPositionButton::Unknown, None) => true,
        _ => false,
    }
}

/// Inside the dead zone the hand keeps its half (an unknown hand counts as
/// bottom), so a cursor resting near the middle never flickers.
pub proof fn law_dead_zone_keeps_half(current: ScreenHalf)
    ensures
        next_half(Some(current), false, false) == current,
        next_half(None, false, false) == ScreenHalf::Bottom,
{
}

/// Exactly one debug button is highlighted at any time, and it is the one
/// that was pressed last.
pub proof fn law_one_button_active(pos: RightHandScreenPosition, pressed: HandPositionButton)
    ensures
        forall|b: HandPositionButton|
            #![trigger button_target(b)]
            (button_target(b) == button_target(pressed)) <==> b == pressed,
        exists|b: HandPositionButton| #[trigger] button_target(b) == pos.right_hand,
{
    match pos.right_hand {
        Some(ScreenHalf::Top) => assert(button_target(HandPositionButton::Top) == pos.right_hand),
        Some(ScreenHalf::Bottom) => assert(button_target(HandPositionButton::Bottom)
            == pos.right_hand),
        None => assert(button_target(HandPositionButton::Unknown) == pos.right_hand),
    }
}

} // verus!
