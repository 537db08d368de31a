//! The world inspector window.
use vstd::prelude::*;
use crate::plan::{AppPlan, InspectorPanel, KeyCode, KeyToggle, PlanStep, PluginKind, plan_has_plugin};

verus! {

/// Adds the egui plugin unless it is already there, then the world
/// inspector, toggled with Super+1 and hidden at first.
pub fn plugin(app: &mut AppPlan)
    ensures
        final(app).dev_build == old(app).dev_build,
        final(app).steps@ == (if plan_has_plugin(old(app).steps@, PluginKind::Egui) {
            old(app).steps@
        } else {
            old(app).steps@.push(PlanStep::AddPlugin(PluginKind::Egui))
        }).push(
            PlanStep::AddInspector {
                panel: InspectorPanel::World,
                toggle: KeyToggle { default: false, key: KeyCode::Digit1 },
            },
        ),
{
    if !app.is_plugin_added(PluginKind::Egui) {
        app.add(PlanStep::AddPlugin(PluginKind::Egui));
    }
    app.add(
        PlanStep::AddInspector {
            panel: InspectorPanel::World,
            toggle: KeyToggle { default: false, key: KeyCode::Digit1 },
        },
    );
}

/// Adding the inspector twice adds egui only once.
pub proof fn law_egui_added_once(steps: Seq<PlanStep>)
    ensures
        plan_has_plugin(steps.push(PlanStep::AddPlugin(PluginKind::Egui)), PluginKind::Egui),
        plan_has_plugin(steps, PluginKind::Egui) ==> plan_has_plugin(
            steps.push(
                PlanStep::AddInspector {
                    panel: InspectorPanel::World,
                    toggle: KeyToggle { default: false, key: KeyCode::Digit1 },
                },
            ),
            PluginKind::Egui,
        ),
{
    let s = steps.push(PlanStep::AddPlugin(PluginKind::Egui));
    assert(s[steps.len() as int] == PlanStep::AddPlugin(PluginKind::Egui));
    if plan_has_plugin(steps, PluginKind::Egui) {
        let i = choose|i: int|
            0 <= i < steps.len() && steps[i] == PlanStep::AddPlugin(PluginKind::Egui);
        let t = steps.push(
            PlanStep::AddInspector {
                panel: InspectorPanel::World,
                toggle: KeyToggle { default: false, key: KeyCode::Digit1 },
            },
        );
        assert(t[i] == steps[i]);
    }
}

} // verus!
