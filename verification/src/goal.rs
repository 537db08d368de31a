//! Story progress: catching one of the three target fish restores one of
//! three logs, announced by a toast that shows for two seconds and then
//! fades out.
use vstd::prelude::*;
use vstd::string::StringExecFns;
use crate::items::{prefab_name, same_text, PrefabList};

verus! {

/// How long a toast shows before it fades.
pub const TOAST_DISPLAY_NS: u64 = 2_000_000_000;

/// How long a toast takes to fade out.
pub const TOAST_FADE_NS: u64 = 500_000_000;

/// Which target a catch restores, with its progress bar.
pub open spec fn goal_progress(id: Seq<char>) -> Option<(u8, Seq<char>)> {
    if id == prefab_name(PrefabList::Target1) {
        Some((1u8, "[█░░]"@))
    } else if id == prefab_name(PrefabList::Target2) {
        Some((2u8, "[██░]"@))
    } else if id == prefab_name(PrefabList::Target3) {
        Some((3u8, "[███]"@))
    } else {
        None
    }
}

pub open spec fn digit(n: u8) -> Seq<char> {
    if n == 1 {
        "1"@
    } else if n == 2 {
        "2"@
    } else {
        "3"@
    }
}

/// The toast text for target `n` with progress bar `bar`.
pub open spec fn goal_toast_text(n: u8, bar: Seq<char>) -> Seq<char> {
    "Progress: "@ + bar + " "@ + digit(n) + "/3 Logs Restored"@
}

/// The target number and progress bar for a caught item, if it is a target.
pub fn goal_progress_for(id: &str) -> (r: Option<(u8, &'static str)>)
    ensures
        match goal_progress(id@) {
            None => r is None,
            Some((n, bar)) => r matches Some((m, b)) && m == n && b@ == bar,
        },
{
    if same_text(id, PrefabList::Target1.name()) {
        Some((1, "[█░░]"))
    } else if same_text(id, PrefabList::Target2.name()) {
        Some((2, "[██░]"))
    } else if same_text(id, PrefabList::Target3.name()) {
        Some((3, "[███]"))
    } else {
        None
    }
}

/// The toast announcing progress after catching the item `id`, or `None`
/// when the item is not a target.
pub fn goal_toast_for(id: &str) -> (r: Option<String>)
    ensures
        match goal_progress(id@) {
            None => r is None,
            Some((n, bar)) => r matches Some(t) && t@ == goal_toast_text(n, bar),
        },
{
    match goal_progress_for(id) {
        None => None,
        Some((n, bar)) => {
            let d = if n == 1 {
                "1"
            } else if n == 2 {
                "2"
            } else {
                "3"
            };
            let mut text = String::from_str("Progress: ");
            text.append(bar);
            text.append(" ");
            text.append(d);
            text.append("/3 Logs Restored");
            Some(text)
        },
    }
}

/// Whether a toast of age `age` runs out during a frame of `dt`.
pub open spec fn toast_expires(age: u64, dt: u64) -> bool {
    age < TOAST_DISPLAY_NS + TOAST_FADE_NS && age.saturating_add(dt) >= TOAST_DISPLAY_NS
        + TOAST_FADE_NS
}

/// A progress toast on screen, by its age.
#[derive(Clone, Copy, Debug, PartialEq, Eq, Default)]
pub struct GoalToast {
    pub age: u64,
}

impl GoalToast {
    /// Ages the toast by one frame; true on the frame it has faded out and
    /// must be removed.
    pub fn tick(&mut self, dt: u64) -> (expired: bool)
        ensures
            final(self).age == old(self).age.saturating_add(dt),
            expired == toast_expires(old(self).age, dt),
    {
        let was_alive = self.age < TOAST_DISPLAY_NS + TOAST_FADE_NS;
        self.age = self.age.saturating_add(dt);
        was_alive && self.age >= TOAST_DISPLAY_NS + TOAST_FADE_NS
    }
}

/// Each target restores its own log: the three targets give the numbers
/// 1, 2 and 3, and no other item gives progress.
pub proof fn law_targets_numbered()
    ensures
        goal_progress(prefab_name(PrefabList::Target1)) matches Some((n, _)) && n == 1,
        goal_progress(prefab_name(PrefabList::Target2)) matches Some((n, _)) && n == 2,
        goal_progress(prefab_name(PrefabList::Target3)) matches Some((n, _)) && n == 3,
        goal_progress(prefab_name(PrefabList::Journal)) is None,
        goal_progress(prefab_name(PrefabList::Kai)) is None,
{
    crate::items::law_prefab_names_distinct(PrefabList::Target1, PrefabList::Target2);
    crate::items::law_prefab_names_distinct(PrefabList::Target1, PrefabList::Target3);
    crate::items::law_prefab_names_distinct(PrefabList::Target2, PrefabList::Target3);
    crate::items::law_prefab_names_distinct(PrefabList::Journal, PrefabList::Target1);
    crate::items::law_prefab_names_distinct(PrefabList::Journal, PrefabList::Target2);
    crate::items::law_prefab_names_distinct(PrefabList::Journal, PrefabList::Target3);
    crate::items::law_prefab_names_distinct(PrefabList::Kai, PrefabList::Target1);
    crate::items::law_prefab_names_distinct(PrefabList::Kai, PrefabList::Target2);
    crate::items::law_prefab_names_distinct(PrefabList::Kai, PrefabList::Target3);
}

/// A toast is removed exactly once: after it expires, further frames never
/// report it again.
pub proof fn law_toast_expires_once(age: u64, dt: u64, later: u64)
    requires
        toast_expires(age, dt),
    ensures
        !toast_expires(age.saturating_add(dt), later),
{
}

} // verus!
