use night_fishing::states::{DebugConfig, GameState, MonsterState, Pause, Screen};
use night_fishing::timer::OnceTimer;

#[test]
fn defaults() {
    assert_eq!(GameState::default(), GameState::Tutorial);
    assert_eq!(MonsterState::default(), MonsterState::Bubble);
    assert_eq!(Pause::default(), Pause(false));
    assert_eq!(GameState::all().len(), 12);
    assert_eq!(GameState::all()[11], GameState::End);
    assert_eq!(MonsterState::all(), vec![MonsterState::Bubble, MonsterState::Shadow, MonsterState::Attack]);
}

#[test]
fn debug_config_by_build() {
    let dev = DebugConfig::for_build(true, true);
    assert!(dev.skip_splash_assets_loading && dev.detective_objects_inference);
    assert_eq!(dev.splash_skip(), Some(Screen::Gameplay));
    assert_eq!(dev.game_state_skip(true), Some(GameState::Idle));
    let release = DebugConfig::default();
    assert_eq!(release, DebugConfig::for_build(false, true));
    assert_eq!(release.splash_skip(), None);
    assert_eq!(release.game_state_skip(false), None);
}

#[test]
fn once_timer_fires_once() {
    let mut t = OnceTimer::new(10);
    assert!(!t.tick(4));
    assert!(t.tick(6));
    assert_eq!(t.elapsed, 10);
    assert!(!t.tick(100));
}
