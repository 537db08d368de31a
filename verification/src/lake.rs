//! The lake and its three fishing points.
use vstd::prelude::*;
use crate::plan::AppPlan;

pub mod spawn_lake_points;

pub use spawn_lake_points::{LakePoint1, LakePoint2, LakePoint3};

verus! {

/// Sets up the lake: its fishing points.
pub fn plugin(app: &mut AppPlan)
    ensures
        final(app).dev_build == old(app).dev_build,
        final(app).steps@ == old(app).steps@ + spawn_lake_points::lake_points_steps(
            old(app).dev_build,
        ),
{
    spawn_lake_points::plugin(app);
}

} // verus!
