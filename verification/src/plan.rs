//! A description of how the game's plugins set up the application: which
//! plugins, inspector panels and systems they add, in order. The engine
//! side replays the plan onto the real application.
use vstd::prelude::*;
use crate::states::Screen;

verus! {

/// Keys that the debug tools react to.
#[derive(Clone, Copy, Debug, PartialEq, Eq, Hash, Structural)]
pub enum KeyCode {
    Digit1,
    Digit2,
    Digit3,
    Digit4,
    Digit5,
    F3,
    SuperLeft,
}

/// A run condition toggled by Super + `key`, starting at `default`.
#[derive(Clone, Copy, Debug, PartialEq, Eq, Structural)]
pub struct KeyToggle {
    pub default: bool,
    pub key: KeyCode,
}

/// Third-party plugins the game adds.
#[derive(Clone, Copy, Debug, PartialEq, Eq, Structural)]
pub enum PluginKind {
    Egui,
}

/// Inspector windows of the development build.
#[derive(Clone, Copy, Debug, PartialEq, Eq, Structural)]
pub enum InspectorPanel {
    /// The whole world.
    World,
    /// The `Screen` state.
    ScreenState,
    /// The `GameState` state.
    GameStateState,
    /// The `RightHandScreenPosition` resource.
    RightHandScreenPositionResource,
    /// The `FishCatchSequence` resource.
    FishCatchSequenceResource,
    /// Entities with a description panel.
    DescriptionPanelEntities,
    /// Entities with a backpack container.
    ContainerEntities,
}

/// When a system runs.
#[derive(Clone, Copy, Debug, PartialEq, Eq, Structural)]
pub enum Schedule {
    Update,
    OnEnterScreen(Screen),
}

/// Systems of the game that plugins register.
#[derive(Clone, Copy, Debug, PartialEq, Eq, Structural)]
pub enum SystemId {
    SpawnLakePoints,
    DrawLakePointsGizmos,
}

/// One setup step.
#[derive(Clone, Copy, Debug, PartialEq, Eq, Structural)]
pub enum PlanStep {
    AddPlugin(PluginKind),
    AddInspector { panel: InspectorPanel, toggle: KeyToggle },
    AddSystem { schedule: Schedule, system: SystemId },
}

/// The setup of an application: its steps in order, and whether this is a
/// development build.
pub struct AppPlan {
    pub steps: Vec<PlanStep>,
    pub dev_build: bool,
}

pub open spec fn plan_has_plugin(steps: Seq<PlanStep>, kind: PluginKind) -> bool {
    exists|i: int| 0 <= i < steps.len() && steps[i] == PlanStep::AddPlugin(kind)
}

impl AppPlan {
    /// An application with nothing set up yet.
    pub fn new(dev_build: bool) -> (p: Self)
        ensures
            p.steps@.len() == 0,
            p.dev_build == dev_build,
    {
        AppPlan { steps: Vec::new(), dev_build }
    }

    /// Appends one step.
    pub fn add(&mut self, step: PlanStep)
        ensures
            final(self).steps@ == old(self).steps@.push(step),
            final(self).dev_build == old(self).dev_build,
    {
        self.steps.push(step);
    }

    /// Whether the plugin was already added.
    pub fn is_plugin_added(&self, kind: PluginKind) -> (r: bool)
        ensures
            r == plan_has_plugin(self.steps@, kind),
    {
        let mut i: usize = 0;
        while i < self.steps.len()
            invariant
                0 <= i <= self.steps@.len(),
                forall|j: int| 0 <= j < i ==> self.steps@[j] != PlanStep::AddPlugin(kind),
            decreases self.steps.len() - i,
        {
            if self.steps[i] == PlanStep::AddPlugin(kind) {
                return true;
            }
            i = i + 1;
        }
        false
    }
}

} // verus!
