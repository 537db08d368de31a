use night_fishing::backpack::{
    backpack_position, catch_animation_fallback_target, catch_flags_for, close_backpack,
    close_button_offset, display_size_for_path, grid_cells, item_visual, last_item_display_position,
    open_backpack, restart_backpack, reveal_item, show_journal_if_known, slot_cell_of, slot_offset,
    BackpackIsOpen, BackpackSlotTracker, CatchFlags, DeferredLastItemDescription, FlushOutcome,
    ItemTexts, LastCaughtDescription, PanelCloseGoesToDead, PanelCloseGoesToEnd, DESCRIPTION_DELAY_NS,
};
use night_fishing::hover::HoverTimer;
use night_fishing::items::{hue_shift_from_entity, ItemData, ItemDataBalance};
use night_fishing::states::{GameState, Pause};

fn data(id: &str, random: bool, path: &str) -> ItemData {
    ItemData { id: id.to_string(), random_color: random, file_path: path.to_string() }
}

fn texts(n: &str) -> ItemTexts {
    ItemTexts { name: format!("{n} name"), text: format!("{n} text"), log: format!("{n} log") }
}

#[test]
fn slot_layout() {
    assert_eq!(slot_cell_of(0), (0, 0));
    assert_eq!(slot_cell_of(5), (1, 1));
    assert_eq!(slot_cell_of(11), (2, 3));
    assert_eq!(slot_offset(0), (-264, 176));
    assert_eq!(slot_offset(5), (-88, 0));
    assert_eq!(slot_offset(11), (264, -176));
    let cells = grid_cells();
    assert_eq!(cells.len(), 12);
    assert_eq!(cells[4], (1, 0));
    assert_eq!(close_button_offset(), (430, 270));
    assert_eq!(backpack_position(), (-850, -83));
    assert_eq!(last_item_display_position(), (-850, 0));
    assert_eq!(catch_animation_fallback_target(), (-850, -425));
    assert_eq!(display_size_for_path("textures/journal.png"), (128, 183));
    assert_eq!(display_size_for_path("textures/fish/bit_bass.png"), (128, 128));
    assert_eq!(display_size_for_path("journa"), (128, 128));
    assert_eq!(display_size_for_path("journal"), (128, 183));
}

#[test]
fn slots_fill_until_full() {
    let mut t = BackpackSlotTracker::default();
    for expected in 1..12 {
        assert_eq!(t.claim_slot(), Some(expected));
    }
    assert_eq!(t.claim_slot(), None);
    assert_eq!(t.claim_slot(), None);
    t.reset();
    assert_eq!(t.claim_slot(), Some(1));
}

#[test]
fn catch_flags_for_special_fish() {
    assert_eq!(
        catch_flags_for("target3"),
        CatchFlags { auto_open: true, goes_to_end: true, goes_to_dead: false }
    );
    assert_eq!(
        catch_flags_for("kai"),
        CatchFlags { auto_open: true, goes_to_end: false, goes_to_dead: true }
    );
    assert_eq!(
        catch_flags_for("target2"),
        CatchFlags { auto_open: false, goes_to_end: false, goes_to_dead: false }
    );
}

#[test]
fn deferred_description_applies_after_delay() {
    let mut pending = DeferredLastItemDescription::default();
    let mut desc = LastCaughtDescription::default();
    assert_eq!(pending.flush(&mut desc, 1_000), FlushOutcome::Waiting);
    pending.prepare(&data("kai", true, "fish/kai.png"), texts("kai"), 7);
    assert_eq!(pending.flush(&mut desc, DESCRIPTION_DELAY_NS - 1), FlushOutcome::Waiting);
    assert_eq!(desc, LastCaughtDescription::default());
    assert_eq!(
        pending.flush(&mut desc, 1),
        FlushOutcome::UpdatedAndOpen { goes_to_end: false, goes_to_dead: true }
    );
    assert_eq!(desc.name, "kai name");
    assert_eq!(desc.image_path, "fish/kai.png");
    assert_eq!(desc.hue, hue_shift_from_entity(7));
    assert_eq!(pending.waited, None);
    assert!(!pending.auto_open);
    assert_eq!(pending.flush(&mut desc, DESCRIPTION_DELAY_NS), FlushOutcome::Waiting);

    pending.prepare(&data("bit_bass", false, "fish/b.png"), texts("b"), 7);
    assert_eq!(pending.flush(&mut desc, DESCRIPTION_DELAY_NS), FlushOutcome::Updated);
    assert_eq!(desc.hue, 0);
    assert_eq!(desc.panel_request().text, "b text");
    assert!(desc.has_text() && desc.has_image());
    pending.clear();
    assert_eq!(pending, DeferredLastItemDescription::default());
}

#[test]
fn open_and_close_backpack() {
    let mut open = BackpackIsOpen::default();
    assert_eq!(open_backpack(&mut open), (Pause(true), GameState::UIOpened));
    assert!(open.0);
    let mut hover = HoverTimer { elapsed: 5, active: true };
    assert_eq!(close_backpack(&mut open, &mut hover), (Pause(false), GameState::Idle));
    assert!(!open.0);
    assert_eq!(hover, HoverTimer::new());
}

#[test]
fn restart_keeps_only_the_journal() {
    let items = vec![(1u64, "journal".to_string()), (2, "kai".to_string()), (3, "bit_bass".to_string())];
    let mut tracker = BackpackSlotTracker { next_item_slot: 7 };
    let mut open = BackpackIsOpen(true);
    let mut to_end = PanelCloseGoesToEnd(true);
    let mut to_dead = PanelCloseGoesToDead(true);
    let gone = restart_backpack(&items, &mut tracker, &mut open, &mut to_end, &mut to_dead);
    assert_eq!(gone, vec![2, 3]);
    assert_eq!(tracker.next_item_slot, 1);
    assert!(!open.0 && !to_end.0 && !to_dead.0);
}

#[test]
fn journal_and_item_descriptions() {
    let balance = ItemDataBalance(vec![data("journal", false, "textures/journal.png"), data("code_e", true, "fish/c.png")]);
    let mut desc = LastCaughtDescription::default();
    assert!(show_journal_if_known(&balance, &mut desc, texts("j")));
    assert_eq!(desc.image_path, "textures/journal.png");
    let mut untouched = LastCaughtDescription::default();
    assert!(!show_journal_if_known(&ItemDataBalance(vec![]), &mut untouched, texts("j")));
    assert_eq!(untouched, LastCaughtDescription::default());

    let req = reveal_item(&balance, "code_e", 9, texts("c")).unwrap();
    assert_eq!(req.hue, hue_shift_from_entity(9));
    assert_eq!(req.image_path, "fish/c.png");
    assert!(reveal_item(&balance, "kai", 9, texts("k")).is_none());

    let v = item_visual(&balance, "journal", 3).unwrap();
    assert_eq!(v.hue, None);
    assert_eq!(item_visual(&balance, "code_e", 3).unwrap().hue, Some(hue_shift_from_entity(3)));
    assert!(item_visual(&balance, "nothing", 3).is_none());
}

#[test]
fn claimed_slots_come_with_their_positions() {
    let mut t = BackpackSlotTracker::default();
    assert_eq!(t.claim_slot_position(), Some((1, (-88, 176))));
    assert_eq!(t.claim_slot_position(), Some((2, (88, 176))));
    for _ in 3..12 {
        assert!(t.claim_slot_position().is_some());
    }
    assert_eq!(t.claim_slot_position(), None);
    assert_eq!(t.next_item_slot, 12);
}
