use night_fishing::health::PlayerHealth;
use night_fishing::monster::{
    active_bubble_count, charge_arrow_x, choose_arrow_side, decide_arrow_side, evaluate_escape,
    random_u32_or_zero, shadow_on_wrong_side, shadow_spawn_x_range, tick_peace_delay, tick_roaming,
    ArrowSideHistory, AttackSequence, AttackTick, ChargeEdge, ChargeProgress, EscapeOutcome, HeadSide,
    PlayerEscapeResult, CHARGE_DURATION_NS, MONSTER2_DELAY_NS, MONSTER2_LINGER_NS, PEACE_DELAY_NS,
    ROAMING_DURATION_NS,
};
use night_fishing::states::{GameState, MonsterState};
use night_fishing::timer::OnceTimer;

#[test]
fn even_draw_picks_right() {
    let mut h = ArrowSideHistory::new();
    assert!(choose_arrow_side(&mut h, 4));
    assert!(!choose_arrow_side(&mut h, 7));
    assert_eq!(h, ArrowSideHistory { older: Some(true), newer: Some(false) });
}

#[test]
fn third_pick_on_same_side_is_flipped() {
    let mut h = ArrowSideHistory::new();
    assert!(choose_arrow_side(&mut h, 0));
    assert!(choose_arrow_side(&mut h, 2));
    assert!(h.is_forced_opposite(true));
    assert!(!choose_arrow_side(&mut h, 4));
    assert!(!choose_arrow_side(&mut h, 1));
    assert!(choose_arrow_side(&mut h, 3));
}

#[test]
fn random_sides_never_three_in_a_row() {
    let mut h = ArrowSideHistory::new();
    let mut picks = Vec::new();
    for _ in 0..200 {
        picks.push(decide_arrow_side(&mut h));
    }
    for w in picks.windows(3) {
        assert!(!(w[0] == w[1] && w[1] == w[2]));
    }
    let _ = random_u32_or_zero();
}

#[test]
fn charge_fills_in_two_seconds() {
    let mut c = ChargeProgress::new();
    assert_eq!(c.tick(500_000_000), Some(500_000_000));
    assert!(!c.triggered);
    assert_eq!(c.tick(CHARGE_DURATION_NS), Some(CHARGE_DURATION_NS));
    assert!(c.triggered);
    assert_eq!(c.tick(1), None);
    assert_eq!(c.charged, CHARGE_DURATION_NS);
}

#[test]
fn escape_checked_once_on_rising_edge() {
    let mut edge = ChargeEdge::default();
    let mut result = PlayerEscapeResult::default();
    let right = HeadSide { at_or_right: true, at_or_left: false };
    assert_eq!(evaluate_escape(&mut edge, &mut result, false, right, Some(true)), None);
    assert_eq!(
        evaluate_escape(&mut edge, &mut result, true, right, Some(true)),
        Some(EscapeOutcome::Safe)
    );
    assert!(result.resolved);
    assert_eq!(evaluate_escape(&mut edge, &mut result, true, right, Some(true)), None);
    let mut edge2 = ChargeEdge::default();
    let mut result2 = PlayerEscapeResult::default();
    assert_eq!(
        evaluate_escape(&mut edge2, &mut result2, true, right, None),
        Some(EscapeOutcome::Caught)
    );
    let centre = HeadSide { at_or_right: true, at_or_left: true };
    let mut edge3 = ChargeEdge::default();
    let mut result3 = PlayerEscapeResult::default();
    assert_eq!(
        evaluate_escape(&mut edge3, &mut result3, true, centre, Some(false)),
        Some(EscapeOutcome::Safe)
    );
}

#[test]
fn shadow_and_arrow_placement() {
    let left = HeadSide { at_or_right: false, at_or_left: true };
    assert!(shadow_on_wrong_side(left, true));
    assert!(!shadow_on_wrong_side(left, false));
    assert_eq!(charge_arrow_x(true), 820);
    assert_eq!(charge_arrow_x(false), -820);
    assert_eq!(shadow_spawn_x_range(true), (-560, 0));
    assert_eq!(shadow_spawn_x_range(false), (0, 560));
    assert_eq!(active_bubble_count(3), 3);
    assert_eq!(active_bubble_count(12), 8);
}

#[test]
fn roaming_then_shadow_and_peace_then_idle() {
    let mut roam = OnceTimer::new(ROAMING_DURATION_NS);
    assert_eq!(tick_roaming(&mut roam, 4_000_000_000), None);
    assert_eq!(tick_roaming(&mut roam, 1_000_000_000), Some(MonsterState::Shadow));
    assert_eq!(tick_roaming(&mut roam, 1_000_000_000), None);
    let mut peace = Some(OnceTimer::new(PEACE_DELAY_NS));
    assert_eq!(tick_peace_delay(&mut peace, PEACE_DELAY_NS), Some(GameState::Idle));
    let mut none: Option<OnceTimer> = None;
    assert_eq!(tick_peace_delay(&mut none, PEACE_DELAY_NS), None);
}

#[test]
fn attack_strikes_once_for_ten_then_returns_to_idle() {
    let mut attack = AttackSequence::start();
    let mut health = PlayerHealth::default();
    assert_eq!(attack.tick(&mut health, MONSTER2_DELAY_NS - 1), AttackTick::Nothing);
    assert_eq!(attack.tick(&mut health, 1), AttackTick::SecondStrike);
    assert_eq!(health.value, 90);
    assert_eq!(attack.tick(&mut health, MONSTER2_LINGER_NS - 1), AttackTick::Nothing);
    assert_eq!(attack.tick(&mut health, 1), AttackTick::ReturnToIdle);
    assert_eq!(attack.tick(&mut health, MONSTER2_LINGER_NS), AttackTick::Nothing);
    assert_eq!(health.value, 90);
}
