use night_fishing::terminal::{
    advance_typing, dead_terminal_message, end_terminal_message, typed_prefix, DeadPhase,
    DeadSequence, DeadTick, EndPhase, EndSequence, EndTick, CHAR_DELAY_NS, FADE_DURATION_NS,
    SHOW_END_DELAY_NS, SHOW_END_FADE_NS,
};

#[test]
fn dead_sequence_fades_then_types() {
    let mut seq = DeadSequence::start(dead_terminal_message());
    assert_eq!(seq.tick(FADE_DURATION_NS / 2), DeadTick::Fade { faded: FADE_DURATION_NS / 2 });
    assert_eq!(seq.tick(FADE_DURATION_NS), DeadTick::Fade { faded: FADE_DURATION_NS });
    assert_eq!(seq.phase, DeadPhase::Typing { char_index: 0, char_timer: 0 });
    assert_eq!(seq.tick(CHAR_DELAY_NS * 3), DeadTick::Type { shown: 3 });
    assert_eq!(typed_prefix(dead_terminal_message(), 3), "[SY");
}

#[test]
fn dead_sequence_restarts_once_after_full_message() {
    let msg = dead_terminal_message();
    let mut seq = DeadSequence::start(msg);
    seq.tick(FADE_DURATION_NS);
    let out = seq.tick(CHAR_DELAY_NS * (msg.len() as u64 + 10));
    assert_eq!(out, DeadTick::Type { shown: msg.len() });
    assert_eq!(typed_prefix(msg, msg.len()), msg);
    assert_eq!(seq.tick(1), DeadTick::Restart);
    assert_eq!(seq.phase, DeadPhase::Done);
    assert_eq!(seq.tick(1_000_000_000), DeadTick::Wait);
    assert_eq!(seq.tick(1), DeadTick::Wait);
}

#[test]
fn typing_keeps_leftover_time() {
    let msg = dead_terminal_message();
    let mut seq = DeadSequence::start(msg);
    seq.tick(FADE_DURATION_NS);
    assert_eq!(seq.tick(CHAR_DELAY_NS + 5), DeadTick::Type { shown: 1 });
    assert_eq!(seq.phase, DeadPhase::Typing { char_index: 1, char_timer: 5 });
    assert_eq!(seq.tick(CHAR_DELAY_NS - 10), DeadTick::Type { shown: 1 });
    assert_eq!(seq.tick(5), DeadTick::Type { shown: 2 });
}

#[test]
fn typing_skips_over_multibyte_characters() {
    let text = "aé█b";
    assert_eq!(advance_typing(text, 0, CHAR_DELAY_NS), (1, 0));
    assert_eq!(advance_typing(text, 1, CHAR_DELAY_NS), (3, 0));
    assert_eq!(advance_typing(text, 3, CHAR_DELAY_NS), (6, 0));
    assert_eq!(advance_typing(text, 0, 3 * CHAR_DELAY_NS + 7), (6, 7));
    assert_eq!(advance_typing(text, 0, 100 * CHAR_DELAY_NS), (7, 96 * CHAR_DELAY_NS));
    assert_eq!(typed_prefix(text, 3), "aé");
}

#[test]
fn end_sequence_shows_credits_after_pause() {
    let msg = end_terminal_message();
    let mut seq = EndSequence::start(msg);
    assert_eq!(seq.tick(FADE_DURATION_NS + 1), EndTick::Fade { faded: FADE_DURATION_NS });
    assert_eq!(
        seq.tick(CHAR_DELAY_NS * msg.len() as u64),
        EndTick::Type { shown: msg.len() }
    );
    assert_eq!(seq.tick(1), EndTick::Wait);
    assert_eq!(seq.phase, EndPhase::ShowEnd { elapsed: 0 });
    assert_eq!(seq.tick(SHOW_END_DELAY_NS), EndTick::Credits { faded: 0 });
    assert_eq!(seq.tick(SHOW_END_FADE_NS / 2), EndTick::Credits { faded: SHOW_END_FADE_NS / 2 });
    assert_eq!(seq.tick(SHOW_END_FADE_NS), EndTick::Credits { faded: SHOW_END_FADE_NS });
    assert_eq!(seq.phase, EndPhase::Done);
    assert_eq!(seq.tick(1), EndTick::Wait);
}

#[test]
fn end_message_is_the_terminal_log() {
    let msg = end_terminal_message();
    assert!(msg.starts_with("[SYSTEM] SUCCESS: OBJECTIVE_CRITERIA_MET\n\n"));
    assert!(msg.ends_with("/usr/bin/prepare_next_iteration"));
    assert_eq!(dead_terminal_message(), "[SYSTEM]: Restarting..............................");
}
