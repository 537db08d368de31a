//! Hover-to-activate: the player's hand must stay over a target for
//! `HOVER_DURATION_NS` of continuous time; a loading ring shows the progress.
//! Used to open the backpack, close it, reveal an item and open the last
//! caught item's description.
use vstd::prelude::*;
use crate::states::GameState;

verus! {

/// Shared hover time for every loading-bar interaction (one second).
pub const HOVER_DURATION_NS: u64 = 1_000_000_000;

/// Continuous-hover timer.
#[derive(Clone, Copy, Debug, PartialEq, Eq, Default)]
pub struct HoverTimer {
    pub elapsed: u64,
    pub active: bool,
}

impl HoverTimer {
    /// An inactive timer has no elapsed time; an active one has not yet
    /// reached the hover duration.
    pub open spec fn wf(&self) -> bool {
        &&& !self.active ==> self.elapsed == 0
        &&& self.active ==> self.elapsed < HOVER_DURATION_NS
    }
}

pub open spec fn idle_timer() -> HoverTimer {
    HoverTimer { elapsed: 0, active: false }
}

/// One frame of hovering: an ongoing hover accumulates `dt`, a new hover
/// starts from zero, and reaching the duration fires and resets; no hover
/// resets.
pub open spec fn hover_step(t: HoverTimer, hovering: bool, dt: u64) -> (HoverTimer, bool) {
    if hovering {
        let start = if t.active {
            t.elapsed
        } else {
            0
        };
        let e = start.saturating_add(dt);
        if e >= HOVER_DURATION_NS {
            (idle_timer(), true)
        } else {
            (HoverTimer { elapsed: e, active: true }, false)
        }
    } else {
        (idle_timer(), false)
    }
}

impl HoverTimer {
    /// A fresh, inactive timer.
    pub fn new() -> (t: Self)
        ensures
            t == idle_timer(),
            t.wf(),
    {
        HoverTimer { elapsed: 0, active: false }
    }

    /// Stops the hover.
    pub fn reset(&mut self)
        ensures
            *final(self) == idle_timer(),
    {
        self.active = false;
        self.elapsed = 0;
    }

    /// Advances the timer by one frame; returns whether the hover completed.
    pub fn step(&mut self, hovering: bool, dt: u64) -> (fired: bool)
        ensures
            (*final(self), fired) == hover_step(*old(self), hovering, dt),
            final(self).wf(),
    {
        if hovering {
            if !self.active {
                self.active = true;
                self.elapsed = 0;
            }
            self.elapsed = self.elapsed.saturating_add(dt);
            if self.elapsed >= HOVER_DURATION_NS {
                self.active = false;
                self.elapsed = 0;
                true
            } else {
                false
            }
        } else {
            self.active = false;
            self.elapsed = 0;
            false
        }
    }

    /// Progress of the loading ring while the hover is active, as a
    /// numerator over `HOVER_DURATION_NS`; `None` hides the ring.
    pub fn ring_progress(&self) -> (r: Option<u64>)
        requires
            self.wf(),
        ensures
            r == (if self.active {
                Some(self.elapsed)
            } else {
                None
            }),
            r matches Some(p) ==> p < HOVER_DURATION_NS,
    {
        if self.active {
            Some(self.elapsed)
        } else {
            None
        }
    }
}

/// The backpack can only be opened while idle, waiting for a bite, or
/// during a monster encounter.
pub open spec fn backpack_open_allowed(state: GameState) -> bool {
    state == GameState::Monster || state == GameState::Idle || state == GameState::Waiting
}

/// One frame of the backpack's hover: the timer after it and whether the
/// backpack opens.
pub open spec fn backpack_open_step(
    t: HoverTimer,
    state: Option<GameState>,
    backpack_present: bool,
    hovering: bool,
    dt: u64,
) -> (HoverTimer, bool) {
    match state {
        None => (t, false),
        Some(s) => if !backpack_open_allowed(s) {
            (idle_timer(), false)
        } else if !backpack_present {
            (t, false)
        } else {
            hover_step(t, hovering, dt)
        },
    }
}

/// One frame of the hand-over-backpack timer. Without a game state or
/// without a backpack nothing changes; in a state that does not allow
/// opening, the timer resets. Returns whether the backpack should open.
pub fn backpack_open_hover_step(
    timer: &mut HoverTimer,
    state: Option<GameState>,
    backpack_present: bool,
    hovering: bool,
    dt: u64,
) -> (open: bool)
    requires
        old(timer).wf(),
    ensures
        final(timer).wf(),
        (*final(timer), open) == backpack_open_step(*old(timer), state, backpack_present, hovering, dt),
        match state {
            None => *final(timer) == *old(timer) && !open,
            Some(s) => if !backpack_open_allowed(s) {
                *final(timer) == idle_timer() && !open
            } else if !backpack_present {
                *final(timer) == *old(timer) && !open
            } else {
                (*final(timer), open) == hover_step(*old(timer), hovering, dt)
            },
        },
{
    match state {
        None => false,
        Some(s) => {
            if !(s == GameState::Monster || s == GameState::Idle || s == GameState::Waiting) {
                timer.reset();
                false
            } else if !backpack_present {
                false
            } else {
                timer.step(hovering, dt)
            }
        },
    }
}

/// One frame of the hand-over-close-button timer; without a close button
/// nothing changes. Returns whether the backpack should close.
pub fn close_button_hover_step(
    timer: &mut HoverTimer,
    button_present: bool,
    hovering: bool,
    dt: u64,
) -> (close: bool)
    requires
        old(timer).wf(),
    ensures
        final(timer).wf(),
        if button_present {
            (*final(timer), close) == hover_step(*old(timer), hovering, dt)
        } else {
            *final(timer) == *old(timer) && !close
        },
{
    if button_present {
        timer.step(hovering, dt)
    } else {
        false
    }
}

/// What the last-caught-item hover asks for this frame.
#[derive(Clone, Copy, Debug, PartialEq, Eq)]
pub enum LastItemHover {
    Nothing,
    /// Switch to `GameState::UIOpened` and open the description panel.
    OpenPanel,
}

/// The last caught item's description cannot be opened during a monster
/// encounter or while a panel is already open.
pub open spec fn last_item_hover_blocked(state: GameState) -> bool {
    state == GameState::Monster || state == GameState::UIOpened
}

/// One frame of the last item's hover: the timer after it and what it asks.
pub open spec fn last_item_step(
    t: HoverTimer,
    state: Option<GameState>,
    display_present: bool,
    hovering: bool,
    description_has_text: bool,
    dt: u64,
) -> (HoverTimer, LastItemHover) {
    match state {
        None => (t, LastItemHover::Nothing),
        Some(s) => if last_item_hover_blocked(s) {
            (idle_timer(), LastItemHover::Nothing)
        } else if !display_present {
            (t, LastItemHover::Nothing)
        } else {
            (
                hover_step(t, hovering, dt).0,
                if hover_step(t, hovering, dt).1 && description_has_text {
                    LastItemHover::OpenPanel
                } else {
                    LastItemHover::Nothing
                },
            )
        },
    }
}

/// One frame of the hand-over-last-item timer. A completed hover opens the
/// panel only when the description has text.
pub fn last_item_hover_step(
    timer: &mut HoverTimer,
    state: Option<GameState>,
    display_present: bool,
    hovering: bool,
    description_has_text: bool,
    dt: u64,
) -> (r: LastItemHover)
    requires
        old(timer).wf(),
    ensures
        final(timer).wf(),
        (*final(timer), r) == last_item_step(
            *old(timer),
            state,
            display_present,
            hovering,
            description_has_text,
            dt,
        ),
        match state {
            None => *final(timer) == *old(timer) && r == LastItemHover::Nothing,
            Some(s) => if last_item_hover_blocked(s) {
                *final(timer) == idle_timer() && r == LastItemHover::Nothing
            } else if !display_present {
                *final(timer) == *old(timer) && r == LastItemHover::Nothing
            } else {
                *final(timer) == hover_step(*old(timer), hovering, dt).0 && r == (if hover_step(
                    *old(timer),
                    hovering,
                    dt,
                ).1 && description_has_text {
                    LastItemHover::OpenPanel
                } else {
                    LastItemHover::Nothing
                })
            },
        },
{
    match state {
        None => LastItemHover::Nothing,
        Some(s) => {
            if s == GameState::Monster || s == GameState::UIOpened {
                timer.reset();
                LastItemHover::Nothing
            } else if !display_present {
                LastItemHover::Nothing
            } else {
                let fired = timer.step(hovering, dt);
                if fired && description_has_text {
                    LastItemHover::OpenPanel
                } else {
                    LastItemHover::Nothing
                }
            }
        },
    }
}

/// Hover state over the items of the open backpack; `hovered_item` is the
/// entity (by its bits) under the hand.
#[derive(Clone, Copy, Debug, PartialEq, Eq, Default)]
pub struct ItemHoverState {
    pub elapsed: u64,
    pub active: bool,
    pub hovered_item: Option<u64>,
}

impl ItemHoverState {
    pub open spec fn wf(&self) -> bool {
        &&& self.active <==> self.hovered_item.is_some()
        &&& !self.active ==> self.elapsed == 0
        &&& self.active ==> self.elapsed < HOVER_DURATION_NS
    }
}

pub open spec fn idle_item_hover() -> ItemHoverState {
    ItemHoverState { elapsed: 0, active: false, hovered_item: None }
}

/// What the item hover asks for this frame.
#[derive(Clone, Copy, Debug, PartialEq, Eq)]
pub enum ItemHoverTick {
    /// The backpack is closed; nothing changed.
    Closed,
    /// No item is under the hand.
    Idle,
    /// A new item came under the hand: move the ring onto it.
    Started { item: u64 },
    /// The same item is still under the hand.
    Holding { item: u64 },
    /// The item was hovered long enough: reveal its description.
    Reveal { item: u64 },
}

pub open spec fn item_hover_step(s: ItemHoverState, hovered: Option<u64>, dt: u64) -> (
    ItemHoverState,
    ItemHoverTick,
) {
    match hovered {
        None => (idle_item_hover(), ItemHoverTick::Idle),
        Some(item) => {
            let changed = s.hovered_item != Some(item);
            let start = if changed {
                0
            } else {
                s.elapsed
            };
            let e = start.saturating_add(dt);
            if e >= HOVER_DURATION_NS {
                (idle_item_hover(), ItemHoverTick::Reveal { item })
            } else if changed {
                (
                    ItemHoverState { elapsed: e, active: true, hovered_item: Some(item) },
                    ItemHoverTick::Started { item },
                )
            } else {
                (
                    ItemHoverState { elapsed: e, active: s.active, hovered_item: Some(item) },
                    ItemHoverTick::Holding { item },
                )
            }
        },
    }
}

impl ItemHoverState {
    /// Nothing hovered.
    pub fn new() -> (s: Self)
        ensures
            s == idle_item_hover(),
            s.wf(),
    {
        ItemHoverState { elapsed: 0, active: false, hovered_item: None }
    }

    /// Advances by one frame. `container_open` tells whether the backpack
    /// is shown; `hovered` is the first item under a visible hand.
    pub fn step(&mut self, container_open: bool, hovered: Option<u64>, dt: u64) -> (r:
        ItemHoverTick)
        requires
            old(self).wf(),
        ensures
            final(self).wf(),
            if container_open {
                (*final(self), r) == item_hover_step(*old(self), hovered, dt)
            } else {
                *final(self) == *old(self) && r == ItemHoverTick::Closed
            },
    {
        if !container_open {
            return ItemHoverTick::Closed;
        }
        match hovered {
            None => {
                self.active = false;
                self.elapsed = 0;
                self.hovered_item = None;
                ItemHoverTick::Idle
            },
            Some(item) => {
                let changed = match self.hovered_item {
                    Some(h) => h != item,
                    None => true,
                };
                if changed {
                    self.hovered_item = Some(item);
                    self.elapsed = 0;
                    self.active = true;
                }
                self.elapsed = self.elapsed.saturating_add(dt);
                if self.elapsed >= HOVER_DURATION_NS {
                    self.active = false;
                    self.elapsed = 0;
                    self.hovered_item = None;
                    ItemHoverTick::Reveal { item }
                } else if changed {
                    ItemHoverTick::Started { item }
                } else {
                    ItemHoverTick::Holding { item }
                }
            },
        }
    }

    /// Ring progress over `HOVER_DURATION_NS` while an item is hovered.
    pub fn ring_progress(&self) -> (r: Option<u64>)
        requires
            self.wf(),
        ensures
            r == (if self.active {
                Some(self.elapsed)
            } else {
                None
            }),
            r matches Some(p) ==> p < HOVER_DURATION_NS,
    {
        if self.active {
            Some(self.elapsed)
        } else {
            None
        }
    }
}

/// A hover only completes while the hand is over the target, a completed
/// hover starts over from nothing, and taking the hand away cancels it.
pub proof fn law_hover_fires_only_while_hovering(t: HoverTimer, hovering: bool, dt: u64)
    requires
        t.wf(),
    ensures
        hover_step(t, hovering, dt).1 ==> hovering,
        hover_step(t, hovering, dt).1 ==> hover_step(t, hovering, dt).0 == idle_timer(),
        !hovering ==> hover_step(t, hovering, dt) == (idle_timer(), false),
        hover_step(t, hovering, dt).0.wf(),
{
}

/// Starting from rest, hovering for two frames fires on the second frame
/// exactly when the two frames together last the hover duration, and not
/// on the first frame when it alone is shorter.
pub proof fn law_hover_accumulates(dt1: u64, dt2: u64)
    requires
        dt1 < HOVER_DURATION_NS,
    ensures
        ({
            let (t1, f1) = hover_step(idle_timer(), true, dt1);
            let (t2, f2) = hover_step(t1, true, dt2);
            &&& !f1
            &&& f2 <==> dt1 + dt2 >= HOVER_DURATION_NS
        }),
{
}

/// Moving the hand to another item restarts the item timer from zero; an
/// item is revealed only after it alone was hovered for the duration.
pub proof fn law_item_hover_restarts_on_new_item(s: ItemHoverState, a: u64, b: u64, dt: u64)
    requires
        s.wf(),
        s.hovered_item == Some(a),
        a != b,
        dt < HOVER_DURATION_NS,
    ensures
        item_hover_step(s, Some(b), dt) == (
            ItemHoverState { elapsed: dt, active: true, hovered_item: Some(b) },
            ItemHoverTick::Started { item: b },
        ),
{
}

/// The backpack opens by hovering only while idle, waiting for a bite or
/// during a monster encounter: in those states, with the backpack on
/// screen, its timer runs as an ordinary hover, so a full hover duration
/// from rest opens it; in every other game state the timer resets and the
/// backpack stays shut.
pub proof fn law_backpack_opens_in_play(
    t: HoverTimer,
    s: GameState,
    hovering: bool,
    dt: u64,
)
    requires
        t.wf(),
    ensures
        (s == GameState::Idle || s == GameState::Waiting || s == GameState::Monster) ==> {
            &&& backpack_open_step(t, Some(s), true, hovering, dt) == hover_step(t, hovering, dt)
            &&& dt >= HOVER_DURATION_NS ==> backpack_open_step(
                idle_timer(),
                Some(s),
                true,
                true,
                dt,
            ) == (idle_timer(), true)
            &&& backpack_open_step(t, Some(s), true, false, dt) == (idle_timer(), false)
        },
        !(s == GameState::Idle || s == GameState::Waiting || s == GameState::Monster) ==> forall|
            present: bool,
        |
            #[trigger] backpack_open_step(t, Some(s), present, hovering, dt) == (
                idle_timer(),
                false,
            ),
{
}

/// The last item's description never opens during a monster encounter or
/// while a panel is open (its timer resets); in any other game state, with
/// the display on screen and a description to show, a full hover duration
/// from rest opens it, and no hover never does.
pub proof fn law_last_item_blocked_in_encounter(
    t: HoverTimer,
    s: GameState,
    present: bool,
    hovering: bool,
    has_text: bool,
    dt: u64,
)
    requires
        t.wf(),
    ensures
        (s == GameState::Monster || s == GameState::UIOpened) ==> last_item_step(
            t,
            Some(s),
            present,
            hovering,
            has_text,
            dt,
        ) == (idle_timer(), LastItemHover::Nothing),
        !(s == GameState::Monster || s == GameState::UIOpened) && dt >= HOVER_DURATION_NS
            ==> last_item_step(idle_timer(), Some(s), true, true, true, dt) == (
            idle_timer(),
            LastItemHover::OpenPanel,
        ),
        last_item_step(t, Some(s), present, false, has_text, dt).1 == LastItemHover::Nothing,
{
}

} // verus!
