use night_fishing::health::{
    health_to_half_hearts, heart_fill_for, press_health_button, DevHealthButton, HealthWatch, HeartFill,
    MpegArtifactOverlay, PlayerHealth, MPEG_ARTIFACT_FADE_NS,
};

#[test]
fn health_is_clamped() {
    let mut h = PlayerHealth::default();
    assert_eq!(h.value, 100);
    h.set(150);
    assert_eq!(h.value, 100);
    h.set(-5);
    assert_eq!(h.value, 0);
    h.set(42);
    assert_eq!(h.value, 42);
    h.damage(50);
    assert_eq!(h.value, 0);
    h.restore();
    assert_eq!(h.value, PlayerHealth::max());
    assert_eq!(PlayerHealth::min(), 0);
}

#[test]
fn half_heart_thresholds() {
    let table = [(100, 6), (99, 5), (66, 5), (65, 4), (49, 4), (48, 3), (33, 3), (32, 2), (16, 2), (15, 1), (1, 1), (0, 0), (-3, 0)];
    for (v, n) in table {
        assert_eq!(health_to_half_hearts(v), n, "health {v}");
    }
}

#[test]
fn hearts_fill_by_halves() {
    assert_eq!(heart_fill_for(5, 0), HeartFill::Full);
    assert_eq!(heart_fill_for(5, 1), HeartFill::Full);
    assert_eq!(heart_fill_for(5, 2), HeartFill::Half);
    assert_eq!(heart_fill_for(2, 1), HeartFill::Empty);
    assert_eq!(heart_fill_for(0, 0), HeartFill::Empty);
}

#[test]
fn watchers_detect_death_and_damage() {
    let mut death = HealthWatch::default();
    assert!(!death.died(100));
    assert!(!death.died(10));
    assert!(death.died(0));
    assert!(!death.died(0));
    let mut dmg = HealthWatch::default();
    assert!(!dmg.took_damage(100));
    assert!(dmg.took_damage(90));
    assert!(!dmg.took_damage(90));
    let mut ch = HealthWatch::default();
    assert!(ch.changed(100));
    assert!(!ch.changed(100));
    assert!(ch.changed(90));
}

#[test]
fn dev_buttons_change_by_ten() {
    let mut h = PlayerHealth { value: 95 };
    press_health_button(&mut h, DevHealthButton::Add);
    assert_eq!(h.value, 100);
    press_health_button(&mut h, DevHealthButton::Reduce);
    assert_eq!(h.value, 90);
}

#[test]
fn glitch_overlay_fades() {
    let mut o = MpegArtifactOverlay::default();
    assert_eq!(o.tick(50_000_000), (150_000_000, false));
    assert_eq!(o.tick(150_000_000), (0, true));
    assert_eq!(o.elapsed, MPEG_ARTIFACT_FADE_NS);
}
