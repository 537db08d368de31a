//! Development tools: inspector windows toggled by Super + digit keys and
//! a few debug toggles.
use vstd::prelude::*;
use crate::plan::{AppPlan, InspectorPanel, KeyCode, KeyToggle, PlanStep};
use crate::items::PrefabList;

pub mod bevy_inspector_egui;

verus! {

/// The live state of a Super + `key` toggle.
#[derive(Clone, Copy, Debug, PartialEq, Eq)]
pub struct CommandKeyToggle {
    pub active: bool,
    pub key: KeyCode,
}

/// A run condition that flips each time Super is held and `key` is
/// pressed, starting at `default`.
pub fn command_key_toggle_active(default: bool, key: KeyCode) -> (t: CommandKeyToggle)
    ensures
        t.active == default,
        t.key == key,
{
    CommandKeyToggle { active: default, key }
}

/// The toggle after one frame: flipped when Super is held and the key
/// was just pressed, unchanged otherwise.
pub open spec fn toggled(active: bool, super_held: bool, key_just_pressed: bool) -> bool {
    if super_held && key_just_pressed {
        !active
    } else {
        active
    }
}

impl CommandKeyToggle {
    /// Evaluates the condition for one frame: `super_held` tells whether
    /// left Super is held, `key_just_pressed` whether this toggle's key was
    /// pressed this frame. Returns whether the guarded systems run.
    pub fn evaluate(&mut self, super_held: bool, key_just_pressed: bool) -> (r: bool)
        ensures
            final(self).key == old(self).key,
            final(self).active == toggled(old(self).active, super_held, key_just_pressed),
            r == final(self).active,
    {
        if super_held && key_just_pressed {
            self.active = !self.active;
        }
        self.active
    }
}

/// Adds the state and resource inspectors: the screen and game states and
/// the fish catch sequence on Super+2, the hand position on Super+3.
pub fn debug_resource_plugin(app: &mut AppPlan)
    ensures
        final(app).dev_build == old(app).dev_build,
        final(app).steps@ == old(app).steps@ + seq![
            PlanStep::AddInspector {
                panel: InspectorPanel::ScreenState,
                toggle: KeyToggle { default: false, key: KeyCode::Digit2 },
            },
            PlanStep::AddInspector {
                panel: InspectorPanel::GameStateState,
                toggle: KeyToggle { default: false, key: KeyCode::Digit2 },
            },
            PlanStep::AddInspector {
                panel: InspectorPanel::RightHandScreenPositionResource,
                toggle: KeyToggle { default: false, key: KeyCode::Digit3 },
            },
            PlanStep::AddInspector {
                panel: InspectorPanel::FishCatchSequenceResource,
                toggle: KeyToggle { default: false, key: KeyCode::Digit2 },
            },
        ],
{
    app.add(
        PlanStep::AddInspector {
            panel: InspectorPanel::ScreenState,
            toggle: KeyToggle { default: false, key: KeyCode::Digit2 },
        },
    );
    app.add(
        PlanStep::AddInspector {
            panel: InspectorPanel::GameStateState,
            toggle: KeyToggle { default: false, key: KeyCode::Digit2 },
        },
    );
    app.add(
        PlanStep::AddInspector {
            panel: InspectorPanel::RightHandScreenPositionResource,
            toggle: KeyToggle { default: false, key: KeyCode::Digit3 },
        },
    );
    app.add(
        PlanStep::AddInspector {
            panel: InspectorPanel::FishCatchSequenceResource,
            toggle: KeyToggle { default: false, key: KeyCode::Digit2 },
        },
    );
}

/// Adds the entity inspectors for description panels and backpack
/// containers, both on Super+4.
pub fn debug_component(app: &mut AppPlan)
    ensures
        final(app).dev_build == old(app).dev_build,
        final(app).steps@ == old(app).steps@ + seq![
            PlanStep::AddInspector {
                panel: InspectorPanel::DescriptionPanelEntities,
                toggle: KeyToggle { default: false, key: KeyCode::Digit4 },
            },
            PlanStep::AddInspector {
                panel: InspectorPanel::ContainerEntities,
                toggle: KeyToggle { default: false, key: KeyCode::Digit4 },
            },
        ],
{
    let default_toggle = false;
    app.add(
        PlanStep::AddInspector {
            panel: InspectorPanel::DescriptionPanelEntities,
            toggle: KeyToggle { default: default_toggle, key: KeyCode::Digit4 },
        },
    );
    app.add(
        PlanStep::AddInspector {
            panel: InspectorPanel::ContainerEntities,
            toggle: KeyToggle { default: default_toggle, key: KeyCode::Digit4 },
        },
    );
}

/// Picking debug display modes, cycled with F3.
#[derive(Clone, Copy, Debug, PartialEq, Eq, Structural)]
pub enum DebugPickingMode {
    Disabled,
    Normal,
    Noisy,
}

/// The picking debug mode after one press of F3.
pub open spec fn picking_after(mode: DebugPickingMode) -> DebugPickingMode {
    match mode {
        DebugPickingMode::Disabled => DebugPickingMode::Normal,
        DebugPickingMode::Normal => DebugPickingMode::Noisy,
        DebugPickingMode::Noisy => DebugPickingMode::Disabled,
    }
}

/// The next picking debug mode: disabled, normal, noisy, then disabled
/// again.
pub fn next_picking_mode(mode: DebugPickingMode) -> (r: DebugPickingMode)
    ensures
        r == picking_after(mode),
{
    match mode {
        DebugPickingMode::Disabled => DebugPickingMode::Normal,
        DebugPickingMode::Normal => DebugPickingMode::Noisy,
        DebugPickingMode::Noisy => DebugPickingMode::Disabled,
    }
}

/// Visibility of an entity.
#[derive(Clone, Copy, Debug, PartialEq, Eq, Structural)]
pub enum Visibility {
    Inherited,
    Hidden,
    Visible,
}

/// Super+5 shows hidden debug panels and hides the others.
pub fn toggled_panel_visibility(v: Visibility) -> (r: Visibility)
    ensures
        r == (if v == Visibility::Hidden {
            Visibility::Visible
        } else {
            Visibility::Hidden
        }),
{
    match v {
        Visibility::Hidden => Visibility::Visible,
        _ => Visibility::Hidden,
    }
}

/// Toggling twice restores the starting state, and nothing changes
/// without both Super and the key.
pub proof fn law_toggle_involutive(active: bool, super_held: bool, key: bool)
    ensures
        toggled(toggled(active, super_held, key), super_held, key) == active,
        !(super_held && key) ==> toggled(active, super_held, key) == active,
{
}

/// The toggle after a run of frames, each given as (Super held, key just
/// pressed), starting from `active`.
pub open spec fn toggled_over(active: bool, frames: Seq<(bool, bool)>) -> bool
    decreases frames.len(),
{
    if frames.len() == 0 {
        active
    } else {
        toggled(toggled_over(active, frames.drop_last()), frames.last().0, frames.last().1)
    }
}

/// Number of frames in which Super was held and the key just pressed.
pub open spec fn chord_count(frames: Seq<(bool, bool)>) -> nat
    decreases frames.len(),
{
    if frames.len() == 0 {
        0
    } else {
        chord_count(frames.drop_last()) + if frames.last().0 && frames.last().1 {
            1nat
        } else {
            0nat
        }
    }
}

/// Over any run of frames the toggle starts at its default and flips
/// exactly on the Super + key chords: it ends at the default when the
/// chords are even in number, and at the opposite when they are odd.
pub proof fn law_toggle_over_frames(default: bool, frames: Seq<(bool, bool)>)
    ensures
        toggled_over(default, frames) == (default != (chord_count(frames) % 2 == 1)),
    decreases frames.len(),
{
    if frames.len() > 0 {
        law_toggle_over_frames(default, frames.drop_last());
    }
}

/// Three presses of F3 bring the picking display back to where it was,
/// after passing through the two other modes.
pub proof fn law_picking_cycle(m: DebugPickingMode)
    ensures
        picking_after(picking_after(picking_after(m))) == m,
        picking_after(m) != m,
        picking_after(picking_after(m)) != m,
{
}

/// Pointer interaction with a UI button.
#[derive(Clone, Copy, Debug, PartialEq, Eq, Structural)]
pub enum Interaction {
    Pressed,
    Hovered,
    Idle,
}

/// Background shade of a debug button.
#[derive(Clone, Copy, Debug, PartialEq, Eq, Structural)]
pub enum ButtonShade {
    Normal,
    Hovered,
    Pressed,
}

/// How a debug item button looks: its shade, whether it casts its drop
/// shadow, and how far it is pushed down-right (in pixels).
#[derive(Clone, Copy, Debug, PartialEq, Eq, Structural)]
pub struct ButtonLook {
    pub shade: ButtonShade,
    pub shadow: bool,
    pub offset: i32,
}

/// Offset of the drop shadow, and of a pressed button.
pub const SHADOW_OFFSET: i32 = 5;

/// A debug item button's response to an interaction: a pressed button
/// loses its shadow, moves onto it and catches its fish (the `bool`).
pub fn debug_item_button_response(interaction: Interaction) -> (r: (ButtonLook, bool))
    ensures
        r == match interaction {
            Interaction::Pressed => (
                ButtonLook { shade: ButtonShade::Pressed, shadow: false, offset: SHADOW_OFFSET },
                true,
            ),
            Interaction::Hovered => (
                ButtonLook { shade: ButtonShade::Hovered, shadow: true, offset: 0 },
                false,
            ),
            Interaction::Idle => (
                ButtonLook { shade: ButtonShade::Normal, shadow: true, offset: 0 },
                false,
            ),
        },
{
    match interaction {
        Interaction::Pressed => (
            ButtonLook { shade: ButtonShade::Pressed, shadow: false, offset: SHADOW_OFFSET },
            true,
        ),
        Interaction::Hovered => (ButtonLook { shade: ButtonShade::Hovered, shadow: true, offset: 0 }, false),
        Interaction::Idle => (ButtonLook { shade: ButtonShade::Normal, shadow: true, offset: 0 }, false),
    }
}

/// The debug buttons that add a target fish, top to bottom.
pub fn debug_item_buttons() -> (v: Vec<(&'static str, PrefabList)>)
    ensures
        v@.len() == 3,
        v@[0].0@ == "+ Target 1"@ && v@[0].1 == PrefabList::Target1,
        v@[1].0@ == "+ Target 2"@ && v@[1].1 == PrefabList::Target2,
        v@[2].0@ == "+ Target 3"@ && v@[2].1 == PrefabList::Target3,
{
    vec![
        ("+ Target 1", PrefabList::Target1),
        ("+ Target 2", PrefabList::Target2),
        ("+ Target 3", PrefabList::Target3),
    ]
}

} // verus!
