//! The backpack: where caught fish are stored (a 4 x 3 grid whose first slot
//! holds the journal), the description of the last caught item, and what
//! happens when the backpack opens, closes, or the game restarts.
use vstd::prelude::*;
use vstd::string::StringExecFns;
use vstd::string::StrSliceExecFns;
use crate::hover::{HoverTimer, idle_timer};
use crate::items::{ItemData, ItemDataBalance, first_with_id, prefab_name, same_text, PrefabList, item_hue, hue_numerator};
use crate::states::{GameState, Pause};

verus! {

/// Marker of the open backpack's container panel.
#[derive(Clone, Copy, Debug, PartialEq, Eq, Default)]
pub struct Container;

/// Marker of the backpack icon.
#[derive(Clone, Copy, Debug, PartialEq, Eq, Default)]
pub struct Backpack;

pub const GRID_COLS: u32 = 4;
pub const GRID_ROWS: u32 = 3;
/// Number of slots in the backpack grid.
pub const GRID_SLOTS: u32 = 12;
pub const SLOT_SIZE: i32 = 160;
pub const SLOT_GAP: i32 = 16;
pub const CONTAINER_W: i32 = 960;
pub const CONTAINER_H: i32 = 640;
pub const CLOSE_BTN_SIZE: i32 = 80;
pub const CLOSE_BTN_MARGIN: i32 = 10;
pub const BACKPACK_WIDTH: i32 = 180;
pub const BACKPACK_HEIGHT: i32 = 190;
pub const PADDING: i32 = 20;
/// Side of the last-item display.
pub const DISPLAY_SIZE: i32 = 128;
/// Gap between the last-item display and the backpack.
pub const DISPLAY_GAP: i32 = 8;
pub const HALF_GAME_WIDTH: i32 = 960;
pub const HALF_GAME_HEIGHT: i32 = 540;

/// Grid cell (row, column) of a slot; slots are numbered row by row.
pub open spec fn slot_cell(slot: u32) -> (u32, u32) {
    (slot / GRID_COLS, slot % GRID_COLS)
}

/// Centre of the top-left slot, relative to the container's centre.
pub open spec fn grid_origin() -> (int, int) {
    let total_w = GRID_COLS * SLOT_SIZE + (GRID_COLS - 1) * SLOT_GAP;
    let total_h = GRID_ROWS * SLOT_SIZE + (GRID_ROWS - 1) * SLOT_GAP;
    (-total_w / 2 + SLOT_SIZE / 2, total_h / 2 - SLOT_SIZE / 2)
}

/// Centre of cell (row, col) relative to the container's centre.
pub open spec fn cell_offset(row: u32, col: u32) -> (int, int) {
    (
        grid_origin().0 + col * (SLOT_SIZE + SLOT_GAP),
        grid_origin().1 - row * (SLOT_SIZE + SLOT_GAP),
    )
}

/// The (row, column) of a slot.
pub fn slot_cell_of(slot: u32) -> (r: (u32, u32))
    ensures
        r == slot_cell(slot),
{
    (slot / GRID_COLS, slot % GRID_COLS)
}

/// Offset of grid cell (row, col) from the container's centre, in pixels.
pub fn cell_offset_of(row: u32, col: u32) -> (r: (i32, i32))
    requires
        row < GRID_ROWS,
        col < GRID_COLS,
    ensures
        r.0 == cell_offset(row, col).0,
        r.1 == cell_offset(row, col).1,
{
    let total_w: i32 = 4 * SLOT_SIZE + 3 * SLOT_GAP;
    let total_h: i32 = 3 * SLOT_SIZE + 2 * SLOT_GAP;
    let origin_x: i32 = -total_w / 2 + SLOT_SIZE / 2;
    let origin_y: i32 = total_h / 2 - SLOT_SIZE / 2;
    let c: i32 = col as i32;
    let r: i32 = row as i32;
    let step: i32 = SLOT_SIZE + SLOT_GAP;
    assert(0 <= c < 4 && 0 <= r < 3 && step == 176);
    assert(c * step <= 3 * 176 && r * step <= 2 * 176) by (nonlinear_arith)
        requires
            0 <= c < 4,
            0 <= r < 3,
            step == 176,
    ;
    (origin_x + c * step, origin_y - r * step)
}

/// Offset of a slot's centre from the container's centre; the container
/// itself sits left of the description panel.
pub fn slot_offset(slot: u32) -> (r: (i32, i32))
    requires
        slot < GRID_SLOTS,
    ensures
        r.0 == cell_offset(slot_cell(slot).0, slot_cell(slot).1).0,
        r.1 == cell_offset(slot_cell(slot).0, slot_cell(slot).1).1,
{
    let (row, col) = slot_cell_of(slot);
    cell_offset_of(row, col)
}

/// Every grid cell, row by row, as drawn when the backpack opens.
pub fn grid_cells() -> (v: Vec<(u32, u32)>)
    ensures
        v@.len() == GRID_SLOTS,
        forall|i: int| 0 <= i < GRID_SLOTS ==> #[trigger] v@[i] == slot_cell(i as u32),
{
    let mut v: Vec<(u32, u32)> = Vec::new();
    let mut row: u32 = 0;
    while row < GRID_ROWS
        invariant
            row <= GRID_ROWS,
            v@.len() == row * GRID_COLS,
            forall|i: int| 0 <= i < v@.len() ==> #[trigger] v@[i] == slot_cell(i as u32),
        decreases GRID_ROWS - row,
    {
        let mut col: u32 = 0;
        while col < GRID_COLS
            invariant
                row < GRID_ROWS,
                col <= GRID_COLS,
                v@.len() == row * GRID_COLS + col,
                forall|i: int| 0 <= i < v@.len() ==> #[trigger] v@[i] == slot_cell(i as u32),
            decreases GRID_COLS - col,
        {
            v.push((row, col));
            proof {
                let i = (row * GRID_COLS + col) as u32;
                assert(i / GRID_COLS == row && i % GRID_COLS == col);
            }
            col = col + 1;
        }
        row = row + 1;
    }
    v
}

/// Centre of the close button relative to the container: its top-right
/// corner, inset by the margin.
pub fn close_button_offset() -> (r: (i32, i32))
    ensures
        r.0 == CONTAINER_W / 2 - CLOSE_BTN_SIZE / 2 - CLOSE_BTN_MARGIN,
        r.1 == CONTAINER_H / 2 - CLOSE_BTN_SIZE / 2 - CLOSE_BTN_MARGIN,
{
    (
        CONTAINER_W / 2 - CLOSE_BTN_SIZE / 2 - CLOSE_BTN_MARGIN,
        CONTAINER_H / 2 - CLOSE_BTN_SIZE / 2 - CLOSE_BTN_MARGIN,
    )
}

/// World position of the backpack icon (and of its loading ring): bottom
/// left, above the last-item display.
pub fn backpack_position() -> (r: (i32, i32))
    ensures
        r.0 == -HALF_GAME_WIDTH + BACKPACK_WIDTH / 2 + PADDING,
        r.1 == -250 + DISPLAY_SIZE / 2 + DISPLAY_GAP + BACKPACK_HEIGHT / 2,
{
    (
        -HALF_GAME_WIDTH + BACKPACK_WIDTH / 2 + PADDING,
        -250 + DISPLAY_SIZE / 2 + DISPLAY_GAP + BACKPACK_HEIGHT / 2,
    )
}

/// World position of the last-item display, in the same column as the
/// backpack at mid height.
pub fn last_item_display_position() -> (r: (i32, i32))
    ensures
        r.0 == -HALF_GAME_WIDTH + BACKPACK_WIDTH / 2 + PADDING,
        r.1 == 0,
{
    (-HALF_GAME_WIDTH + BACKPACK_WIDTH / 2 + PADDING, 0)
}

/// Where the catch animation flies to when no backpack is on screen.
pub fn catch_animation_fallback_target() -> (r: (i32, i32))
    ensures
        r.0 == -HALF_GAME_WIDTH + BACKPACK_WIDTH / 2 + PADDING,
        r.1 == -HALF_GAME_HEIGHT + BACKPACK_HEIGHT / 2 + PADDING,
{
    (-HALF_GAME_WIDTH + BACKPACK_WIDTH / 2 + PADDING, -HALF_GAME_HEIGHT + BACKPACK_HEIGHT / 2 + PADDING)
}

/// Height of the journal in the last-item display: the 310x443 journal
/// texture shown `DISPLAY_SIZE` wide keeps its aspect ratio, rounded to the
/// nearest whole pixel.
pub const JOURNAL_DISPLAY_HEIGHT: i32 = 183;

/// `pat` occurs in `s` starting at position `i`.
pub open spec fn text_at(s: Seq<char>, pat: Seq<char>, i: int) -> bool {
    0 <= i && i + pat.len() <= s.len() && s.subrange(i, i + pat.len()) == pat
}

/// `pat` occurs somewhere in `s`.
pub open spec fn contains_text(s: Seq<char>, pat: Seq<char>) -> bool {
    exists|i: int| text_at(s, pat, i)
}

/// Whether `pat` occurs in `s`.
pub fn text_contains(s: &str, pat: &str) -> (r: bool)
    ensures
        r == contains_text(s@, pat@),
{
    let n = s.unicode_len();
    let m = pat.unicode_len();
    if m > n {
        return false;
    }
    let mut i: usize = 0;
    loop
        invariant
            n == s@.len(),
            m == pat@.len(),
            m <= n,
            i <= n - m,
            forall|k: int| 0 <= k < i ==> !text_at(s@, pat@, k),
        decreases n - m - i,
    {
        let mut j: usize = 0;
        let mut ok = true;
        while j < m
            invariant
                n == s@.len(),
                m == pat@.len(),
                i + m <= n,
                0 <= j <= m,
                ok == (forall|t: int| 0 <= t < j ==> s@[i + t] == pat@[t]),
            decreases m - j,
        {
            if s.get_char(i + j) != pat.get_char(j) {
                ok = false;
            }
            j = j + 1;
        }
        if ok {
            proof {
                assert(s@.subrange(i as int, i + m) =~= pat@);
                assert(text_at(s@, pat@, i as int));
            }
            return true;
        }
        proof {
            if text_at(s@, pat@, i as int) {
                assert forall|t: int| 0 <= t < m implies s@[i + t] == pat@[t] by {
                    assert(s@.subrange(i as int, i + m)[t] == s@[i + t]);
                }
            }
        }
        if i == n - m {
            return false;
        }
        i = i + 1;
    }
}

/// Size of the journal in the last-item display: `DISPLAY_SIZE` wide, with
/// the journal texture's 310:443 aspect ratio.
pub fn journal_display_size() -> (r: (i32, i32))
    ensures
        r.0 == DISPLAY_SIZE,
        r.1 == (DISPLAY_SIZE * 443 + 155) / 310,
        -155 <= r.1 * 310 - DISPLAY_SIZE * 443 <= 155,
{
    assert((DISPLAY_SIZE * 443 + 155) / 310 == JOURNAL_DISPLAY_HEIGHT);
    (DISPLAY_SIZE, JOURNAL_DISPLAY_HEIGHT)
}

/// Size of the last-item display for an image: the journal keeps its
/// aspect ratio, fish are shown square.
pub fn display_size_for_path(image_path: &str) -> (r: (i32, i32))
    ensures
        r == (if contains_text(image_path@, "journal"@) {
            (DISPLAY_SIZE, ((DISPLAY_SIZE * 443 + 155) / 310) as i32)
        } else {
            (DISPLAY_SIZE, DISPLAY_SIZE)
        }),
{
    if text_contains(image_path, "journal") {
        journal_display_size()
    } else {
        (DISPLAY_SIZE, DISPLAY_SIZE)
    }
}

/// Which slot the next caught item goes to. Slot 0 holds the journal, so
/// fish start at slot 1.
#[derive(Clone, Copy, Debug, PartialEq, Eq)]
pub struct BackpackSlotTracker {
    pub next_item_slot: u32,
}

impl Default for BackpackSlotTracker {
    /// The first fish goes to slot 1.
    fn default() -> (t: Self)
        ensures
            t.next_item_slot == 1,
    {
        BackpackSlotTracker { next_item_slot: 1 }
    }
}

/// One claim: the tracker after it and the slot handed out, if any.
pub open spec fn claim_step(t: BackpackSlotTracker) -> (BackpackSlotTracker, Option<u32>) {
    if t.next_item_slot >= GRID_SLOTS {
        (t, None)
    } else {
        (BackpackSlotTracker { next_item_slot: (t.next_item_slot + 1) as u32 }, Some(t.next_item_slot))
    }
}

impl BackpackSlotTracker {
    pub open spec fn wf(&self) -> bool {
        1 <= self.next_item_slot <= GRID_SLOTS
    }

    /// Takes the next free slot for a caught item; `None` when the
    /// backpack is full.
    pub fn claim_slot(&mut self) -> (r: Option<u32>)
        requires
            old(self).wf(),
        ensures
            final(self).wf(),
            (*final(self), r) == claim_step(*old(self)),
            old(self).next_item_slot >= GRID_SLOTS ==> r is None && *final(self) == *old(self),
            old(self).next_item_slot < GRID_SLOTS ==> r == Some(old(self).next_item_slot)
                && final(self).next_item_slot == old(self).next_item_slot + 1,
    {
        let slot = self.next_item_slot;
        if slot >= GRID_SLOTS {
            return None;
        }
        self.next_item_slot = slot + 1;
        Some(slot)
    }

    /// Takes the next free slot for a caught item together with its offset
    /// from the container's centre; `None` when the backpack is full. The
    /// slot comes from `claim_slot`, so it is always inside the grid.
    pub fn claim_slot_position(&mut self) -> (r: Option<(u32, (i32, i32))>)
        requires
            old(self).wf(),
        ensures
            final(self).wf(),
            *final(self) == claim_step(*old(self)).0,
            match claim_step(*old(self)).1 {
                None => r is None,
                Some(slot) => r matches Some((s, (x, y))) && s == slot && slot < GRID_SLOTS && x
                    == cell_offset(slot_cell(slot).0, slot_cell(slot).1).0 && y == cell_offset(
                    slot_cell(slot).0,
                    slot_cell(slot).1,
                ).1,
            },
    {
        match self.claim_slot() {
            None => None,
            Some(slot) => Some((slot, slot_offset(slot))),
        }
    }

    /// Empties the backpack but for the journal.
    pub fn reset(&mut self)
        ensures
            final(self).next_item_slot == 1,
    {
        self.next_item_slot = 1;
    }
}

/// How catching an item affects the description panel: catching the last
/// target or Kai opens the panel on its own, and closing it then ends the
/// game (last target) or kills the player (Kai).
#[derive(Clone, Copy, Debug, PartialEq, Eq)]
pub struct CatchFlags {
    pub auto_open: bool,
    pub goes_to_end: bool,
    pub goes_to_dead: bool,
}

pub open spec fn catch_flags(id: Seq<char>) -> CatchFlags {
    let target3 = id == prefab_name(PrefabList::Target3);
    let kai = id == prefab_name(PrefabList::Kai);
    CatchFlags { auto_open: target3 || kai, goes_to_end: target3, goes_to_dead: kai }
}

/// The panel behaviour for catching the item with identifier `id`.
pub fn catch_flags_for(id: &str) -> (f: CatchFlags)
    ensures
        f == catch_flags(id@),
{
    let target3 = same_text(id, PrefabList::Target3.name());
    let kai = same_text(id, PrefabList::Kai.name());
    CatchFlags { auto_open: target3 || kai, goes_to_end: target3, goes_to_dead: kai }
}

/// The translated texts of an item.
#[derive(Clone, Debug, PartialEq, Eq)]
pub struct ItemTexts {
    pub name: String,
    pub text: String,
    pub log: String,
}

/// What the last-item display and its description panel show. The hue
/// shift is `hue / HUE_DENOMINATOR`.
#[derive(Clone, Debug, PartialEq, Eq, Default)]
pub struct LastCaughtDescription {
    pub name: String,
    pub image_path: String,
    pub text: String,
    pub log: String,
    pub hue: u64,
}

impl LastCaughtDescription {
    /// Shows the journal: its texts, its image, no hue shift.
    pub fn show_journal(&mut self, journal: &ItemData, texts: ItemTexts)
        ensures
            final(self).name == texts.name,
            final(self).text == texts.text,
            final(self).log == texts.log,
            final(self).image_path@ == journal.file_path@,
            final(self).hue == 0,
    {
        self.name = texts.name;
        self.image_path = journal.file_path.clone();
        self.text = texts.text;
        self.log = texts.log;
        self.hue = 0;
    }
}

/// How long after a catch the last-item display updates, so that the catch
/// animation can finish first (0.2 s).
pub const DESCRIPTION_DELAY_NS: u64 = 200_000_000;

/// A description update waiting for the catch animation to finish.
#[derive(Clone, Debug, PartialEq, Eq, Default)]
pub struct DeferredLastItemDescription {
    pub name: String,
    pub image_path: String,
    pub text: String,
    pub log: String,
    pub hue: u64,
    /// Time waited so far, while an update is pending.
    pub waited: Option<u64>,
    pub auto_open: bool,
    pub goes_to_end: bool,
    pub goes_to_dead: bool,
}

/// What the flush asks for when the pending update is applied.
#[derive(Clone, Debug, PartialEq, Eq)]
pub enum FlushOutcome {
    /// Nothing pending, or still waiting.
    Waiting,
    /// The display now shows the new item.
    Updated,
    /// The display shows the new item, and its panel opens: switch to
    /// `GameState::UIOpened` and set where closing the panel leads.
    UpdatedAndOpen { goes_to_end: bool, goes_to_dead: bool },
}

impl DeferredLastItemDescription {
    pub open spec fn wf(&self) -> bool {
        self.waited matches Some(w) ==> w < DESCRIPTION_DELAY_NS
    }

    /// Queues the description of a freshly caught item, hue-shifted for
    /// the entity `entity_bits` when the item is randomly coloured.
    pub fn prepare(&mut self, data: &ItemData, texts: ItemTexts, entity_bits: u64)
        ensures
            final(self).name == texts.name,
            final(self).text == texts.text,
            final(self).log == texts.log,
            final(self).image_path@ == data.file_path@,
            final(self).hue == (if data.random_color {
                hue_numerator(entity_bits)
            } else {
                0
            }),
            final(self).auto_open == catch_flags(data.id@).auto_open,
            final(self).goes_to_end == catch_flags(data.id@).goes_to_end,
            final(self).goes_to_dead == catch_flags(data.id@).goes_to_dead,
            final(self).waited == Some(0u64),
            final(self).wf(),
    {
        self.name = texts.name;
        self.image_path = data.file_path.clone();
        self.text = texts.text;
        self.log = texts.log;
        self.hue = item_hue(data, entity_bits);
        let flags = catch_flags_for(data.id.as_str());
        self.auto_open = flags.auto_open;
        self.goes_to_end = flags.goes_to_end;
        self.goes_to_dead = flags.goes_to_dead;
        self.waited = Some(0);
    }

    /// Waits one frame; once the delay has passed, copies the pending
    /// update into `description`, clears it, and reports whether the panel
    /// should open.
    pub fn flush(&mut self, description: &mut LastCaughtDescription, dt: u64) -> (r: FlushOutcome)
        requires
            old(self).wf(),
        ensures
            final(self).wf(),
            match old(self).waited {
                None => *final(self) == *old(self) && *final(description) == *old(description)
                    && r == FlushOutcome::Waiting,
                Some(w) => if w.saturating_add(dt) < DESCRIPTION_DELAY_NS {
                    final(self).waited == Some(w.saturating_add(dt)) && *final(description)
                        == *old(description) && r == FlushOutcome::Waiting
                } else {
                    &&& final(description).name@ == old(self).name@
                    &&& final(description).image_path@ == old(self).image_path@
                    &&& final(description).text@ == old(self).text@
                    &&& final(description).log@ == old(self).log@
                    &&& final(description).hue == old(self).hue
                    &&& final(self).waited is None
                    &&& !final(self).auto_open && !final(self).goes_to_end
                        && !final(self).goes_to_dead
                    &&& r == (if old(self).auto_open {
                        FlushOutcome::UpdatedAndOpen {
                            goes_to_end: old(self).goes_to_end,
                            goes_to_dead: old(self).goes_to_dead,
                        }
                    } else {
                        FlushOutcome::Updated
                    })
                },
            },
    {
        match self.waited {
            None => FlushOutcome::Waiting,
            Some(w) => {
                let w2 = w.saturating_add(dt);
                if w2 < DESCRIPTION_DELAY_NS {
                    self.waited = Some(w2);
                    return FlushOutcome::Waiting;
                }
                description.name = self.name.clone();
                description.image_path = self.image_path.clone();
                description.text = self.text.clone();
                description.log = self.log.clone();
                description.hue = self.hue;
                let r = if self.auto_open {
                    FlushOutcome::UpdatedAndOpen {
                        goes_to_end: self.goes_to_end,
                        goes_to_dead: self.goes_to_dead,
                    }
                } else {
                    FlushOutcome::Updated
                };
                self.waited = None;
                self.auto_open = false;
                self.goes_to_end = false;
                self.goes_to_dead = false;
                r
            },
        }
    }

    /// Drops any pending update.
    pub fn clear(&mut self)
        ensures
            final(self).waited is None,
            !final(self).auto_open && !final(self).goes_to_end && !final(self).goes_to_dead,
            final(self).hue == 0,
            final(self).name@.len() == 0 && final(self).image_path@.len() == 0,
            final(self).text@.len() == 0 && final(self).log@.len() == 0,
    {
        self.name = String::new();
        self.image_path = String::new();
        self.text = String::new();
        self.log = String::new();
        self.hue = 0;
        self.waited = None;
        self.auto_open = false;
        self.goes_to_end = false;
        self.goes_to_dead = false;
    }
}

/// Whether the backpack is open.
#[derive(Clone, Copy, Debug, PartialEq, Eq, Default)]
pub struct BackpackIsOpen(pub bool);

/// Closing the description panel leads to the ending.
#[derive(Clone, Copy, Debug, PartialEq, Eq, Default)]
pub struct PanelCloseGoesToEnd(pub bool);

/// Closing the description panel leads to the death sequence.
#[derive(Clone, Copy, Debug, PartialEq, Eq, Default)]
pub struct PanelCloseGoesToDead(pub bool);

/// Opens the backpack: the game pauses and switches to `UIOpened`.
pub fn open_backpack(is_open: &mut BackpackIsOpen) -> (r: (Pause, GameState))
    ensures
        final(is_open).0,
        r == (Pause(true), GameState::UIOpened),
{
    is_open.0 = true;
    (Pause(true), GameState::UIOpened)
}

/// Closes the backpack: the game resumes in `Idle` and the close-button
/// hover starts over.
pub fn close_backpack(is_open: &mut BackpackIsOpen, close_hover: &mut HoverTimer) -> (r: (
    Pause,
    GameState,
))
    ensures
        !final(is_open).0,
        *final(close_hover) == idle_timer(),
        r == (Pause(false), GameState::Idle),
{
    is_open.0 = false;
    close_hover.reset();
    (Pause(false), GameState::Idle)
}

/// The game restarts: every caught item leaves the backpack (the journal
/// stays), the backpack closes, closing the panel leads nowhere special,
/// and the display shows the journal again when its data is known.
/// `items` lists the item entities with their prefab identifiers; the
/// result lists the entities to despawn.
pub fn restart_backpack(
    items: &Vec<(u64, String)>,
    tracker: &mut BackpackSlotTracker,
    is_open: &mut BackpackIsOpen,
    to_end: &mut PanelCloseGoesToEnd,
    to_dead: &mut PanelCloseGoesToDead,
) -> (despawn: Vec<u64>)
    ensures
        final(tracker).next_item_slot == 1,
        !final(is_open).0,
        !final(to_end).0,
        !final(to_dead).0,
        despawn@ == items@.filter(|e: (u64, String)| e.1@ != prefab_name(PrefabList::Journal)).map_values(
            |e: (u64, String)| e.0,
        ),
{
    let journal = PrefabList::Journal.name();
    let mut despawn: Vec<u64> = Vec::new();
    let mut i: usize = 0;
    let ghost keep = |e: (u64, String)| e.1@ != prefab_name(PrefabList::Journal);
    let ghost key = |e: (u64, String)| e.0;
    while i < items.len()
        invariant
            0 <= i <= items@.len(),
            journal@ == prefab_name(PrefabList::Journal),
            keep == (|e: (u64, String)| e.1@ != prefab_name(PrefabList::Journal)),
            key == (|e: (u64, String)| e.0),
            despawn@ == items@.subrange(0, i as int).filter(keep).map_values(key),
        decreases items.len() - i,
    {
        assert(items@.subrange(0, i + 1).drop_last() =~= items@.subrange(0, i as int));
        reveal_with_fuel(Seq::<_>::filter, 1);
        if !same_text(items[i].1.as_str(), journal) {
            despawn.push(items[i].0);
        }
        assert(items@.subrange(0, i + 1).filter(keep).map_values(key) =~= if keep(items@[i as int]) {
            items@.subrange(0, i as int).filter(keep).map_values(key).push(items@[i as int].0)
        } else {
            items@.subrange(0, i as int).filter(keep).map_values(key)
        });
        i = i + 1;
    }
    assert(items@.subrange(0, items@.len() as int) =~= items@);
    tracker.reset();
    is_open.0 = false;
    to_end.0 = false;
    to_dead.0 = false;
    despawn
}

/// Slots handed out for caught items are distinct: each claim hands out a
/// slot below every later one, never the journal's slot 0 and never past
/// the grid; a full backpack refuses, and keeps refusing.
pub proof fn law_slots_distinct(t: BackpackSlotTracker)
    requires
        t.wf(),
    ensures
        claim_step(t).0.wf(),
        claim_step(t).0.next_item_slot >= t.next_item_slot,
        claim_step(t).1 matches Some(s) ==> 1 <= s < GRID_SLOTS && s == t.next_item_slot && s
            < claim_step(t).0.next_item_slot,
        claim_step(t).1 is None ==> claim_step(t).0 == t && claim_step(claim_step(t).0).1 is None,
{
}

/// Every slot lies inside the container panel.
pub proof fn law_slots_inside_container(slot: u32)
    requires
        slot < GRID_SLOTS,
    ensures
        ({
            let (row, col) = slot_cell(slot);
            let (x, y) = cell_offset(row, col);
            &&& row < GRID_ROWS && col < GRID_COLS
            &&& -CONTAINER_W / 2 <= x - SLOT_SIZE / 2 && x + SLOT_SIZE / 2 <= CONTAINER_W / 2
            &&& -CONTAINER_H / 2 <= y - SLOT_SIZE / 2 && y + SLOT_SIZE / 2 <= CONTAINER_H / 2
        }),
{
}

/// A request to open the description panel with these contents; the hue
/// shift is `hue / HUE_DENOMINATOR`.
#[derive(Clone, Debug, PartialEq, Eq)]
pub struct DescriptionPanelRequest {
    pub name: String,
    pub image_path: String,
    pub text: String,
    pub log: String,
    pub hue: u64,
}

impl LastCaughtDescription {
    /// Whether the display has an image to show.
    pub fn has_image(&self) -> (r: bool)
        ensures
            r == (self.image_path@.len() > 0),
    {
        !self.image_path.as_str().is_empty()
    }

    /// Whether the description has text, so its panel can be opened.
    pub fn has_text(&self) -> (r: bool)
        ensures
            r == (self.text@.len() > 0),
    {
        !self.text.as_str().is_empty()
    }

    /// The panel showing this description.
    pub fn panel_request(&self) -> (r: DescriptionPanelRequest)
        ensures
            r.name@ == self.name@,
            r.image_path@ == self.image_path@,
            r.text@ == self.text@,
            r.log@ == self.log@,
            r.hue == self.hue,
    {
        DescriptionPanelRequest {
            name: self.name.clone(),
            image_path: self.image_path.clone(),
            text: self.text.clone(),
            log: self.log.clone(),
            hue: self.hue,
        }
    }
}

/// Shows the journal in the last-item display when its balance data is
/// known; returns whether it did. `texts` are the journal's translations.
pub fn show_journal_if_known(
    balance: &ItemDataBalance,
    description: &mut LastCaughtDescription,
    texts: ItemTexts,
) -> (shown: bool)
    ensures
        shown == first_with_id(balance.0@, prefab_name(PrefabList::Journal)) is Some,
        match first_with_id(balance.0@, prefab_name(PrefabList::Journal)) {
            Some(k) => {
                &&& final(description).name == texts.name
                &&& final(description).text == texts.text
                &&& final(description).log == texts.log
                &&& final(description).image_path@ == balance.0@[k].file_path@
                &&& final(description).hue == 0
            },
            None => *final(description) == *old(description),
        },
{
    match balance.get_by_id(PrefabList::Journal.name()) {
        Some(journal) => {
            description.show_journal(journal, texts);
            true
        },
        None => false,
    }
}

/// The description panel revealed by hovering the item `id` (the entity
/// `entity_bits`) in the open backpack, when its balance data is known.
/// `texts` are the item's translations.
pub fn reveal_item(balance: &ItemDataBalance, id: &str, entity_bits: u64, texts: ItemTexts) -> (r:
    Option<DescriptionPanelRequest>)
    ensures
        match first_with_id(balance.0@, id@) {
            None => r is None,
            Some(k) => r matches Some(p) && {
                &&& p.name == texts.name
                &&& p.text == texts.text
                &&& p.log == texts.log
                &&& p.image_path@ == balance.0@[k].file_path@
                &&& p.hue == (if balance.0@[k].random_color {
                    hue_numerator(entity_bits)
                } else {
                    0
                })
            },
        },
{
    match balance.get_by_id(id) {
        None => None,
        Some(data) => Some(
            DescriptionPanelRequest {
                name: texts.name,
                image_path: data.file_path.clone(),
                text: texts.text,
                log: texts.log,
                hue: item_hue(data, entity_bits),
            },
        ),
    }
}

/// How an item entity is drawn: its texture, and either a hue-shifting
/// material (with the hue numerator) or a plain one.
#[derive(Clone, Debug, PartialEq, Eq)]
pub struct ItemVisual {
    pub texture_path: String,
    pub hue: Option<u64>,
}

/// The visual of the item `id` (the entity `entity_bits`), or `None` when
/// no balance data names it.
pub fn item_visual(balance: &ItemDataBalance, id: &str, entity_bits: u64) -> (r: Option<ItemVisual>)
    ensures
        match first_with_id(balance.0@, id@) {
            None => r is None,
            Some(k) => r matches Some(v) && {
                &&& v.texture_path@ == balance.0@[k].file_path@
                &&& v.hue == (if balance.0@[k].random_color {
                    Some(hue_numerator(entity_bits))
                } else {
                    None
                })
            },
        },
{
    match balance.get_by_id(id) {
        None => None,
        Some(data) => {
            let hue = if data.random_color {
                Some(crate::items::hue_shift_from_entity(entity_bits))
            } else {
                None
            };
            Some(ItemVisual { texture_path: data.file_path.clone(), hue })
        },
    }
}

/// Only the last target and Kai open their panel on their own; the last
/// target leads to the ending, Kai to death, never both, and no other
/// catch leads anywhere.
pub proof fn law_catch_flags(id: Seq<char>)
    ensures
        catch_flags(id).auto_open <==> (catch_flags(id).goes_to_end || catch_flags(id).goes_to_dead),
        !(catch_flags(id).goes_to_end && catch_flags(id).goes_to_dead),
        catch_flags(id).goes_to_end <==> id == prefab_name(PrefabList::Target3),
        catch_flags(id).goes_to_dead <==> id == prefab_name(PrefabList::Kai),
{
    crate::items::law_prefab_names_distinct(PrefabList::Target3, PrefabList::Kai);
}

/// A catch-animation fish is removed a little after its flight ends:
/// 200 ms of flight plus 50 ms.
pub const CATCH_ANIM_DESPAWN_NS: u64 = 250_000_000;

} // verus!
