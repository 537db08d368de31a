use night_fishing::dev_tools::{
    bevy_inspector_egui, command_key_toggle_active, debug_component, debug_item_button_response,
    debug_item_buttons, debug_resource_plugin, next_picking_mode, toggled_panel_visibility,
    ButtonShade, DebugPickingMode, Interaction, Visibility,
};
use night_fishing::items::PrefabList;
use night_fishing::lake;
use night_fishing::lake::spawn_lake_points::lake_points;
use night_fishing::plan::{AppPlan, InspectorPanel, KeyCode, KeyToggle, PlanStep, PluginKind, Schedule, SystemId};
use night_fishing::states::Screen;

#[test]
fn inspector_adds_egui_once() {
    let mut app = AppPlan::new(true);
    bevy_inspector_egui::plugin(&mut app);
    bevy_inspector_egui::plugin(&mut app);
    let world = PlanStep::AddInspector {
        panel: InspectorPanel::World,
        toggle: KeyToggle { default: false, key: KeyCode::Digit1 },
    };
    assert_eq!(app.steps, vec![PlanStep::AddPlugin(PluginKind::Egui), world, world]);
    assert!(app.is_plugin_added(PluginKind::Egui));
}

#[test]
fn resource_and_component_inspectors() {
    let mut app = AppPlan::new(true);
    debug_resource_plugin(&mut app);
    debug_component(&mut app);
    assert_eq!(app.steps.len(), 6);
    assert_eq!(
        app.steps[2],
        PlanStep::AddInspector {
            panel: InspectorPanel::RightHandScreenPositionResource,
            toggle: KeyToggle { default: false, key: KeyCode::Digit3 },
        }
    );
    assert_eq!(
        app.steps[5],
        PlanStep::AddInspector {
            panel: InspectorPanel::ContainerEntities,
            toggle: KeyToggle { default: false, key: KeyCode::Digit4 },
        }
    );
}

#[test]
fn lake_plugin_spawns_points_and_draws_them_in_dev() {
    let spawn = PlanStep::AddSystem {
        schedule: Schedule::OnEnterScreen(Screen::Gameplay),
        system: SystemId::SpawnLakePoints,
    };
    let mut release = AppPlan::new(false);
    lake::plugin(&mut release);
    assert_eq!(release.steps, vec![spawn]);
    let mut dev = AppPlan::new(true);
    lake::plugin(&mut dev);
    assert_eq!(
        dev.steps,
        vec![spawn, PlanStep::AddSystem { schedule: Schedule::Update, system: SystemId::DrawLakePointsGizmos }]
    );
    let pts = lake_points();
    assert_eq!(pts.iter().map(|p| (p.1, p.2)).collect::<Vec<_>>(), vec![(-600, -100), (-100, -100), (400, -100)]);
}

#[test]
fn key_toggle_flips_with_super_and_key() {
    let mut t = command_key_toggle_active(false, KeyCode::Digit2);
    assert!(!t.evaluate(false, true));
    assert!(!t.evaluate(true, false));
    assert!(t.evaluate(true, true));
    assert!(t.evaluate(false, false));
    assert!(!t.evaluate(true, true));
}

#[test]
fn small_debug_toggles() {
    assert_eq!(next_picking_mode(DebugPickingMode::Disabled), DebugPickingMode::Normal);
    assert_eq!(next_picking_mode(DebugPickingMode::Noisy), DebugPickingMode::Disabled);
    assert_eq!(toggled_panel_visibility(Visibility::Hidden), Visibility::Visible);
    assert_eq!(toggled_panel_visibility(Visibility::Inherited), Visibility::Hidden);
    let (look, catch) = debug_item_button_response(Interaction::Pressed);
    assert!(catch && !look.shadow && look.offset == 5 && look.shade == ButtonShade::Pressed);
    let (look, catch) = debug_item_button_response(Interaction::Hovered);
    assert!(!catch && look.shadow && look.offset == 0 && look.shade == ButtonShade::Hovered);
    let buttons = debug_item_buttons();
    assert_eq!(buttons[2], ("+ Target 3", PrefabList::Target3));
}

#[test]
fn key_toggle_flips_once_per_chord_over_many_frames() {
    let mut t = command_key_toggle_active(true, KeyCode::Digit4);
    let frames = [(true, true), (false, true), (true, false), (true, true), (true, true), (false, false)];
    let mut chords = 0;
    for (sup, key) in frames {
        if sup && key {
            chords += 1;
        }
        assert_eq!(t.evaluate(sup, key), chords % 2 == 0);
    }
    assert_eq!(chords, 3);
    assert!(!t.active);
}
