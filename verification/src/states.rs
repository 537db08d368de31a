//! The game's state machines' states, its system sets and the debug
//! configuration that can skip straight to a state.
use vstd::prelude::*;

verus! {

/// Top-level screens that the gameplay states hang off.
#[derive(Clone, Copy, Debug, PartialEq, Eq, Hash, Structural)]
pub enum Screen {
    Splash,
    Gameplay,
}

/// Phases of play while the gameplay screen is shown.
#[derive(Clone, Copy, Debug, PartialEq, Eq, Hash, Structural)]
pub enum GameState {
    Tutorial,
    Idle,
    UIOpened,
    Casting,
    Waiting,
    Biting,
    Reeling,
    Failing,
    Succeeding,
    Monster,
    Dead,
    End,
}

impl Default for GameState {
    /// The game starts in the tutorial.
    fn default() -> (s: Self)
        ensures
            s == GameState::Tutorial,
    {
        GameState::Tutorial
    }
}

/// Every game state, in declaration order.
pub open spec fn all_game_states() -> Seq<GameState> {
    seq![
        GameState::Tutorial,
        GameState::Idle,
        GameState::UIOpened,
        GameState::Casting,
        GameState::Waiting,
        GameState::Biting,
        GameState::Reeling,
        GameState::Failing,
        GameState::Succeeding,
        GameState::Monster,
        GameState::Dead,
        GameState::End,
    ]
}

impl GameState {
    /// Lists every game state in declaration order.
    pub fn all() -> (v: Vec<GameState>)
        ensures
            v@ == all_game_states(),
    {
        vec![
            GameState::Tutorial,
            GameState::Idle,
            GameState::UIOpened,
            GameState::Casting,
            GameState::Waiting,
            GameState::Biting,
            GameState::Reeling,
            GameState::Failing,
            GameState::Succeeding,
            GameState::Monster,
            GameState::Dead,
            GameState::End,
        ]
    }
}

/// Phases of a monster encounter while the game is in `GameState::Monster`.
#[derive(Clone, Copy, Debug, PartialEq, Eq, Hash, Structural)]
pub enum MonsterState {
    Bubble,
    Shadow,
    Attack,
}

impl Default for MonsterState {
    /// An encounter starts with bubbles on the lake.
    fn default() -> (s: Self)
        ensures
            s == MonsterState::Bubble,
    {
        MonsterState::Bubble
    }
}

/// Every monster state, in declaration order.
pub open spec fn all_monster_states() -> Seq<MonsterState> {
    seq![MonsterState::Bubble, MonsterState::Shadow, MonsterState::Attack]
}

impl MonsterState {
    /// Lists every monster state in declaration order.
    pub fn all() -> (v: Vec<MonsterState>)
        ensures
            v@ == all_monster_states(),
    {
        vec![MonsterState::Bubble, MonsterState::Shadow, MonsterState::Attack]
    }
}

/// Whether or not the game is paused.
#[derive(Clone, Copy, Debug, PartialEq, Eq, Hash, Structural)]
pub struct Pause(pub bool);

impl Default for Pause {
    /// The game starts unpaused.
    fn default() -> (s: Self)
        ensures
            s == Pause(false),
    {
        Pause(false)
    }
}

/// System sets that run after physics, in this order.
#[derive(Clone, Copy, Debug, PartialEq, Eq, Hash, PartialOrd, Ord)]
pub enum PostPhysicsAppSystems {
    /// Tick timers.
    TickTimers,
    /// Change UI.
    ChangeUi,
    /// Play sounds.
    PlaySounds,
    /// Play animations.
    PlayAnimations,
    /// Do everything else.
    Update,
}

/// Global debug configuration for the debug features.
#[derive(Clone, Copy, Debug, PartialEq, Eq)]
pub struct DebugConfig {
    pub skip_splash_assets_loading: bool,
    pub skip_to: Option<GameState>,
    pub side_car_windows: bool,
    pub make_window_bigger: bool,
    pub check_inventory_grid: bool,
    pub detective_objects_inference: bool,
    pub debug_shop: bool,
}

/// The configuration of a build: a development build skips the splash
/// screen and jumps to `Idle`, and turns on object-detection inference when
/// the `DETECTIVE_OBJECTS_INFERENCE` variable is set; a release build
/// turns everything off.
pub open spec fn spec_debug_config(dev_build: bool, detective_env_set: bool) -> DebugConfig {
    if dev_build {
        DebugConfig {
            skip_splash_assets_loading: true,
            skip_to: Some(GameState::Idle),
            side_car_windows: false,
            make_window_bigger: false,
            check_inventory_grid: false,
            detective_objects_inference: detective_env_set,
            debug_shop: false,
        }
    } else {
        DebugConfig {
            skip_splash_assets_loading: false,
            skip_to: None,
            side_car_windows: false,
            make_window_bigger: false,
            check_inventory_grid: false,
            detective_objects_inference: false,
            debug_shop: false,
        }
    }
}

impl DebugConfig {
    /// The configuration for a development or a release build.
    pub fn for_build(dev_build: bool, detective_env_set: bool) -> (c: Self)
        ensures
            c == spec_debug_config(dev_build, detective_env_set),
    {
        if dev_build {
            DebugConfig {
                skip_splash_assets_loading: true,
                skip_to: Some(GameState::Idle),
                side_car_windows: false,
                make_window_bigger: false,
                check_inventory_grid: false,
                detective_objects_inference: detective_env_set,
                debug_shop: false,
            }
        } else {
            DebugConfig {
                skip_splash_assets_loading: false,
                skip_to: None,
                side_car_windows: false,
                make_window_bigger: false,
                check_inventory_grid: false,
                detective_objects_inference: false,
                debug_shop: false,
            }
        }
    }

    /// The screen to switch to on entering the splash screen, if any.
    pub fn splash_skip(&self) -> (r: Option<Screen>)
        ensures
            r == (if self.skip_splash_assets_loading {
                Some(Screen::Gameplay)
            } else {
                None
            }),
    {
        if self.skip_splash_assets_loading {
            Some(Screen::Gameplay)
        } else {
            None
        }
    }

    /// The game state to jump to on entering gameplay: only development
    /// builds jump.
    pub fn game_state_skip(&self, dev_build: bool) -> (r: Option<GameState>)
        ensures
            r == (if dev_build {
                self.skip_to
            } else {
                None
            }),
    {
        if dev_build {
            self.skip_to
        } else {
            None
        }
    }
}

impl Default for DebugConfig {
    /// The release-build configuration.
    fn default() -> (c: Self)
        ensures
            c == spec_debug_config(false, false),
    {
        DebugConfig::for_build(false, false)
    }
}

} // verus!
