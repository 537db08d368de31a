//! The player's health: whole hit points between 0 and 100, shown as three
//! hearts that fill by halves. Reaching zero catches "Kai", which kills the
//! player; losing health flashes a glitch overlay.
use vstd::prelude::*;

verus! {

/// The player's health points.
#[derive(Clone, Copy, Debug, PartialEq, Eq)]
pub struct PlayerHealth {
    pub value: i32,
}

/// Health lost to one monster attack.
pub const ATTACK_DAMAGE: i32 = 10;

/// Health changed by one press of a development health button.
pub const DEV_HEALTH_STEP: i32 = 10;

pub open spec fn clamp_health(v: int) -> int {
    if v < 0 {
        0
    } else if v > 100 {
        100
    } else {
        v
    }
}

impl Default for PlayerHealth {
    /// Full health.
    fn default() -> (h: Self)
        ensures
            h.value == 100,
    {
        PlayerHealth { value: 100 }
    }
}

impl PlayerHealth {
    pub open spec fn wf(&self) -> bool {
        0 <= self.value <= 100
    }

    /// The lowest health.
    pub fn min() -> (r: i32)
        ensures
            r == 0,
    {
        0
    }

    /// The highest health.
    pub fn max() -> (r: i32)
        ensures
            r == 100,
    {
        100
    }

    /// Sets the health, clamped to `[min, max]`.
    pub fn set(&mut self, value: i32)
        ensures
            final(self).value == clamp_health(value as int),
            final(self).wf(),
    {
        if value < 0 {
            self.value = 0;
        } else if value > 100 {
            self.value = 100;
        } else {
            self.value = value;
        }
    }

    /// Loses `amount` points (at least down to zero).
    pub fn damage(&mut self, amount: i32)
        requires
            old(self).wf(),
            0 <= amount,
        ensures
            final(self).value == clamp_health(old(self).value - amount),
            final(self).wf(),
    {
        let v = self.value - amount;
        self.set(v);
    }

    /// Gains `amount` points (at most up to 100).
    pub fn heal(&mut self, amount: i32)
        requires
            old(self).wf(),
            0 <= amount,
        ensures
            final(self).value == clamp_health(old(self).value + amount),
            final(self).wf(),
    {
        let v = if amount > 100 {
            self.value + 100
        } else {
            self.value + amount
        };
        self.set(v);
    }

    /// Restores full health after a restart.
    pub fn restore(&mut self)
        ensures
            final(self).value == 100,
    {
        self.value = 100;
    }
}

/// Number of half hearts shown for a health value.
pub open spec fn half_hearts(value: int) -> u32 {
    if value >= 100 {
        6
    } else if value >= 66 {
        5
    } else if value >= 49 {
        4
    } else if value >= 33 {
        3
    } else if value >= 16 {
        2
    } else if value > 0 {
        1
    } else {
        0
    }
}

/// Half hearts shown for `value`.
pub fn health_to_half_hearts(value: i32) -> (n: u32)
    ensures
        n == half_hearts(value as int),
        n <= 6,
{
    if value >= 100 {
        6
    } else if value >= 66 {
        5
    } else if value >= 49 {
        4
    } else if value >= 33 {
        3
    } else if value >= 16 {
        2
    } else if value > 0 {
        1
    } else {
        0
    }
}

/// How much of one heart is drawn.
#[derive(Clone, Copy, Debug, PartialEq, Eq, Structural)]
pub enum HeartFill {
    Full,
    Half,
    Empty,
}

pub open spec fn heart_fill(half: u32, slot: u32) -> HeartFill {
    if half >= (slot + 1) * 2 {
        HeartFill::Full
    } else if half == slot * 2 + 1 {
        HeartFill::Half
    } else {
        HeartFill::Empty
    }
}

pub open spec fn fill_units(f: HeartFill) -> int {
    match f {
        HeartFill::Full => 2,
        HeartFill::Half => 1,
        HeartFill::Empty => 0,
    }
}

/// How heart `slot` (0, 1 or 2 from the left) is drawn for `half` half hearts.
pub fn heart_fill_for(half: u32, slot: u32) -> (f: HeartFill)
    requires
        slot < 3,
    ensures
        f == heart_fill(half, slot),
{
    if half >= (slot + 1) * 2 {
        HeartFill::Full
    } else if half == slot * 2 + 1 {
        HeartFill::Half
    } else {
        HeartFill::Empty
    }
}

/// A remembered previous health value; each watcher starts at zero.
#[derive(Clone, Copy, Debug, PartialEq, Eq, Default)]
pub struct HealthWatch {
    pub previous: i32,
}

/// Health went from above zero to zero or below.
pub open spec fn falls_to_zero(previous: i32, current: i32) -> bool {
    previous > 0 && current <= 0
}

impl HealthWatch {
    /// Records `current`; true when health went from above zero to zero or
    /// below since the last call: the player dies.
    pub fn died(&mut self, current: i32) -> (r: bool)
        ensures
            final(self).previous == current,
            r == falls_to_zero(old(self).previous, current),
    {
        let previous = self.previous;
        self.previous = current;
        previous > 0 && current <= 0
    }

    /// Records `current`; true when health dropped since the last call.
    pub fn took_damage(&mut self, current: i32) -> (r: bool)
        ensures
            final(self).previous == current,
            r == (current < old(self).previous),
    {
        let previous = self.previous;
        self.previous = current;
        current < previous
    }

    /// True when health differs from the last recorded value, which it then
    /// records; an unchanged value leaves the watcher as it was.
    pub fn changed(&mut self, current: i32) -> (r: bool)
        ensures
            final(self).previous == current,
            r == (current != old(self).previous),
    {
        if current == self.previous {
            return false;
        }
        self.previous = current;
        true
    }
}

/// Health always stays within `[0, 100]` whatever is set, and an attack
/// never raises it.
pub proof fn law_health_bounded(h: PlayerHealth, v: int, amount: int)
    requires
        h.wf(),
        amount >= 0,
    ensures
        0 <= clamp_health(v) <= 100,
        clamp_health(h.value - amount) <= h.value,
{
}

/// The hearts show exactly the half hearts that the health is worth.
pub proof fn law_hearts_show_health(value: int)
    ensures
        fill_units(heart_fill(half_hearts(value), 0)) + fill_units(heart_fill(half_hearts(value), 1))
            + fill_units(heart_fill(half_hearts(value), 2)) == half_hearts(value),
{
}

/// The hearts never show more at lower health.
pub proof fn law_hearts_monotone(a: int, b: int)
    requires
        a <= b,
    ensures
        half_hearts(a) <= half_hearts(b),
{
}

/// Death is reported once per fall to zero: after it is reported, the
/// next reading reports nothing, whatever it is, and another report takes
/// health rising above zero first.
pub proof fn law_death_once(previous: i32, current: i32, later: i32)
    requires
        falls_to_zero(previous, current),
    ensures
        !falls_to_zero(current, later),
{
}

/// Buttons of the development health display.
#[derive(Clone, Copy, Debug, PartialEq, Eq, Structural)]
pub enum DevHealthButton {
    Add,
    Reduce,
}

/// Pressing a development button adds or removes ten points.
pub fn press_health_button(health: &mut PlayerHealth, button: DevHealthButton)
    requires
        old(health).wf(),
    ensures
        final(health).wf(),
        final(health).value == clamp_health(
            match button {
                DevHealthButton::Add => old(health).value + DEV_HEALTH_STEP,
                DevHealthButton::Reduce => old(health).value - DEV_HEALTH_STEP,
            },
        ),
{
    match button {
        DevHealthButton::Add => health.heal(DEV_HEALTH_STEP),
        DevHealthButton::Reduce => health.damage(DEV_HEALTH_STEP),
    }
}

/// How long the glitch overlay shown on damage takes to fade (0.2 s).
pub const MPEG_ARTIFACT_FADE_NS: u64 = 200_000_000;

/// The glitch overlay shown when the player loses health, by its age.
#[derive(Clone, Copy, Debug, PartialEq, Eq, Default)]
pub struct MpegArtifactOverlay {
    pub elapsed: u64,
}

impl MpegArtifactOverlay {
    /// Ages the overlay by one frame. Returns its opacity as a numerator
    /// over `MPEG_ARTIFACT_FADE_NS` (fading linearly to zero), and whether
    /// it has faded out and must be removed.
    pub fn tick(&mut self, dt: u64) -> (r: (u64, bool))
        ensures
            final(self).elapsed == old(self).elapsed.saturating_add(dt),
            r.0 == (if final(self).elapsed >= MPEG_ARTIFACT_FADE_NS {
                0
            } else {
                (MPEG_ARTIFACT_FADE_NS - final(self).elapsed) as u64
            }),
            r.1 == (final(self).elapsed >= MPEG_ARTIFACT_FADE_NS),
    {
        self.elapsed = self.elapsed.saturating_add(dt);
        if self.elapsed >= MPEG_ARTIFACT_FADE_NS {
            (0, true)
        } else {
            (MPEG_ARTIFACT_FADE_NS - self.elapsed, false)
        }
    }
}

} // verus!
