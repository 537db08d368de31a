//! The three fixed fishing points on the lake.
use vstd::prelude::*;
use crate::plan::{AppPlan, PlanStep, Schedule, SystemId};
use crate::states::Screen;

verus! {

/// Marker of lake fishing point 1.
#[derive(Clone, Copy, Debug, PartialEq, Eq, Default)]
pub struct LakePoint1;

/// Marker of lake fishing point 2.
#[derive(Clone, Copy, Debug, PartialEq, Eq, Default)]
pub struct LakePoint2;

/// Marker of lake fishing point 3.
#[derive(Clone, Copy, Debug, PartialEq, Eq, Default)]
pub struct LakePoint3;

/// Which fishing point.
#[derive(Clone, Copy, Debug, PartialEq, Eq, Structural)]
pub enum LakePointKind {
    One,
    Two,
    Three,
}

/// World positions of the fishing points, left to right along the shore.
pub const LAKE_POINT_1: (i32, i32) = (-600, -100);
pub const LAKE_POINT_2: (i32, i32) = (-100, -100);
pub const LAKE_POINT_3: (i32, i32) = (400, -100);

/// The fishing points to spawn on entering gameplay, with their positions.
pub fn lake_points() -> (v: Vec<(LakePointKind, i32, i32)>)
    ensures
        v@ == seq![
            (LakePointKind::One, -600i32, -100i32),
            (LakePointKind::Two, -100i32, -100i32),
            (LakePointKind::Three, 400i32, -100i32),
        ],
{
    vec![
        (LakePointKind::One, LAKE_POINT_1.0, LAKE_POINT_1.1),
        (LakePointKind::Two, LAKE_POINT_2.0, LAKE_POINT_2.1),
        (LakePointKind::Three, LAKE_POINT_3.0, LAKE_POINT_3.1),
    ]
}

/// The setup steps of the fishing points: spawn them on entering gameplay
/// and, in development builds, draw them every frame.
pub open spec fn lake_points_steps(dev_build: bool) -> Seq<PlanStep> {
    let spawn = PlanStep::AddSystem {
        schedule: Schedule::OnEnterScreen(Screen::Gameplay),
        system: SystemId::SpawnLakePoints,
    };
    if dev_build {
        seq![spawn, PlanStep::AddSystem { schedule: Schedule::Update, system: SystemId::DrawLakePointsGizmos }]
    } else {
        seq![spawn]
    }
}

/// Registers the fishing-point systems.
pub fn plugin(app: &mut AppPlan)
    ensures
        final(app).dev_build == old(app).dev_build,
        final(app).steps@ == old(app).steps@ + lake_points_steps(old(app).dev_build),
{
    app.add(
        PlanStep::AddSystem {
            schedule: Schedule::OnEnterScreen(Screen::Gameplay),
            system: SystemId::SpawnLakePoints,
        },
    );
    if app.dev_build {
        app.add(
            PlanStep::AddSystem { schedule: Schedule::Update, system: SystemId::DrawLakePointsGizmos },
        );
    }
    proof {
        assert(app.steps@ =~= old(app).steps@ + lake_points_steps(old(app).dev_build));
    }
}

/// The fishing points are distinct and ordered left to right on one line.
pub proof fn law_points_in_a_row()
    ensures
        LAKE_POINT_1.0 < LAKE_POINT_2.0 < LAKE_POINT_3.0,
        LAKE_POINT_1.1 == LAKE_POINT_2.1 == LAKE_POINT_3.1,
{
}

} // verus!
