//! The monster encounter: which side the charge arrow appears on, how the
//! arrow charges, and whether the player escaped when it is full.
use vstd::prelude::*;
use crate::health::{PlayerHealth, clamp_health, ATTACK_DAMAGE};
use crate::states::{GameState, MonsterState};
use crate::timer::{timer_step, OnceTimer};

verus! {

/// The error that the system random source reports (`getrandom::Error`).
#[verifier::external_type_specification]
#[verifier::external_body]
pub struct ExRandomError(getrandom::Error);

/// Calls `getrandom::u32`, which asks the operating system for a random
/// `u32` and returns it, or the error the system reported. The value is
/// random, so nothing is stated of it.
#[verifier::external_body]
fn system_random_u32() -> (r: Result<u32, getrandom::Error>) {
    getrandom::u32()
}

/// A random `u32` from the system, or 0 when the system source fails.
pub fn random_u32_or_zero() -> (r: u32) {
    match system_random_u32() {
        Ok(v) => v,
        Err(_) => 0,
    }
}

/// The last two arrow sides picked (`true` = right), oldest first, used to
/// prevent three consecutive picks of the same side.
#[derive(Clone, Copy, Debug, PartialEq, Eq, Default)]
pub struct ArrowSideHistory {
    pub older: Option<bool>,
    pub newer: Option<bool>,
}

impl ArrowSideHistory {
    /// Nothing picked yet.
    pub fn new() -> (h: Self)
        ensures
            h.older is None && h.newer is None,
    {
        ArrowSideHistory { older: None, newer: None }
    }

    /// Whether picking `side` would make three in a row.
    pub fn is_forced_opposite(&self, side: bool) -> (r: bool)
        ensures
            r == (self.older == Some(side) && self.newer == Some(side)),
    {
        self.older == Some(side) && self.newer == Some(side)
    }

    /// Records a pick, forgetting the oldest one.
    pub fn record(&mut self, side: bool)
        ensures
            final(self).older == old(self).newer,
            final(self).newer == Some(side),
    {
        self.older = self.newer;
        self.newer = Some(side);
    }
}

/// The side picked from a random draw: right on an even draw, flipped when
/// it would be the third pick in a row on that side.
pub open spec fn side_from_draw(h: ArrowSideHistory, raw: u32) -> bool {
    let side = raw % 2 == 0;
    if h.older == Some(side) && h.newer == Some(side) {
        !side
    } else {
        side
    }
}

pub open spec fn recorded(h: ArrowSideHistory, side: bool) -> ArrowSideHistory {
    ArrowSideHistory { older: h.newer, newer: Some(side) }
}

/// Picks the arrow side from the random draw `raw` and records it.
pub fn choose_arrow_side(history: &mut ArrowSideHistory, raw: u32) -> (right: bool)
    ensures
        right == side_from_draw(*old(history), raw),
        *final(history) == recorded(*old(history), right),
{
    let mut use_right_side = raw % 2 == 0;
    if history.is_forced_opposite(use_right_side) {
        use_right_side = !use_right_side;
    }
    history.record(use_right_side);
    use_right_side
}

/// Picks the arrow side for a new encounter from the system's randomness
/// and records it; the pick never makes three in a row on one side.
pub fn decide_arrow_side(history: &mut ArrowSideHistory) -> (right: bool)
    ensures
        !(old(history).older == Some(right) && old(history).newer == Some(right)),
        *final(history) == recorded(*old(history), right),
{
    let raw = random_u32_or_zero();
    choose_arrow_side(history, raw)
}

/// The picks at `i`, `i + 1` and `i + 2` are on the same side.
pub open spec fn three_in_a_row(r: Seq<bool>, i: int) -> bool {
    r[i] == r[i + 1] && r[i + 1] == r[i + 2]
}

/// The sides picked from a run of draws.
pub open spec fn sides_from_draws(h: ArrowSideHistory, raws: Seq<u32>) -> Seq<bool>
    decreases raws.len(),
{
    if raws.len() == 0 {
        seq![]
    } else {
        let side = side_from_draw(h, raws[0]);
        seq![side] + sides_from_draws(recorded(h, side), raws.drop_first())
    }
}

proof fn lemma_no_three_in_a_row(h: ArrowSideHistory, raws: Seq<u32>)
    ensures
        ({
            let r = sides_from_draws(h, raws);
            &&& r.len() == raws.len()
            &&& forall|i: int|
                0 <= i < r.len() - 2 ==> !#[trigger] three_in_a_row(r, i)
            &&& r.len() >= 1 ==> !(h.older == Some(r[0]) && h.newer == Some(r[0]))
            &&& r.len() >= 2 ==> !(h.newer == Some(r[0]) && r[1] == r[0])
        }),
    decreases raws.len(),
{
    if raws.len() > 0 {
        let side = side_from_draw(h, raws[0]);
        let h2 = recorded(h, side);
        lemma_no_three_in_a_row(h2, raws.drop_first());
        let rest = sides_from_draws(h2, raws.drop_first());
        let r = sides_from_draws(h, raws);
        assert(r == seq![side] + rest);
        assert forall|i: int| 0 <= i < r.len() - 2 implies !three_in_a_row(r, i) by {
            if i > 0 {
                assert(r[i] == rest[i - 1] && r[i + 1] == rest[i] && r[i + 2] == rest[i + 1]);
                assert(!three_in_a_row(rest, i - 1));
            } else {
                assert(r[1] == rest[0] && r[2] == rest[1]);
            }
        }
    }
}

/// Whatever the random draws, the arrow never appears on the same side
/// three encounters in a row.
pub proof fn law_never_three_same_sides(raws: Seq<u32>)
    ensures
        ({
            let r = sides_from_draws(ArrowSideHistory { older: None, newer: None }, raws);
            forall|i: int| 0 <= i < r.len() - 2 ==> !#[trigger] three_in_a_row(r, i)
        }),
{
    lemma_no_three_in_a_row(ArrowSideHistory { older: None, newer: None }, raws);
}

/// Half the game width in pixels.
pub const HALF_GAME_WIDTH: i32 = 960;

/// Side length of the charge-arrow quad.
pub const CHARGE_ARROW_SIZE: i32 = 280;

/// Distance kept from the screen edges when placing the monster shadow.
pub const SPAWN_X_MARGIN: i32 = 400;

/// Horizontal centre of the charge arrow: at the right or the left edge.
pub fn charge_arrow_x(right: bool) -> (x: i32)
    ensures
        x == (if right {
            HALF_GAME_WIDTH - CHARGE_ARROW_SIZE / 2
        } else {
            -HALF_GAME_WIDTH + CHARGE_ARROW_SIZE / 2
        }),
{
    if right {
        HALF_GAME_WIDTH - CHARGE_ARROW_SIZE / 2
    } else {
        -HALF_GAME_WIDTH + CHARGE_ARROW_SIZE / 2
    }
}

/// The horizontal range the monster shadow is placed in: the half of the
/// screen opposite the arrow, keeping the margin from the outer edge.
pub fn shadow_spawn_x_range(arrow_right: bool) -> (r: (i32, i32))
    ensures
        arrow_right ==> r.0 == -HALF_GAME_WIDTH + SPAWN_X_MARGIN && r.1 == 0,
        !arrow_right ==> r.0 == 0 && r.1 == HALF_GAME_WIDTH - SPAWN_X_MARGIN,
        r.0 <= r.1,
{
    if arrow_right {
        (-HALF_GAME_WIDTH + SPAWN_X_MARGIN, 0)
    } else {
        (0, HALF_GAME_WIDTH - SPAWN_X_MARGIN)
    }
}

/// How long the arrow takes to charge fully (two seconds).
pub const CHARGE_DURATION_NS: u64 = 2_000_000_000;

/// Accumulated charge while the shadow is on screen; the fill level is
/// `charged / CHARGE_DURATION_NS`.
#[derive(Clone, Copy, Debug, PartialEq, Eq, Default)]
pub struct ChargeProgress {
    pub charged: u64,
    pub triggered: bool,
}

/// One frame of charging: the arrow after `dt` more nanoseconds and the
/// fill numerator to show, or `None` once it was already full.
pub open spec fn charge_step(c: ChargeProgress, dt: u64) -> (ChargeProgress, Option<u64>) {
    if c.triggered {
        (c, None)
    } else {
        let v = if c.charged + dt >= CHARGE_DURATION_NS {
            CHARGE_DURATION_NS
        } else {
            (c.charged + dt) as u64
        };
        (ChargeProgress { charged: v, triggered: v == CHARGE_DURATION_NS }, Some(v))
    }
}

impl ChargeProgress {
    pub open spec fn wf(&self) -> bool {
        &&& self.charged <= CHARGE_DURATION_NS
        &&& self.triggered <==> self.charged == CHARGE_DURATION_NS
    }

    /// An empty arrow.
    pub fn new() -> (c: Self)
        ensures
            c.charged == 0 && !c.triggered,
            c.wf(),
    {
        ChargeProgress { charged: 0, triggered: false }
    }

    /// Charges for one frame; returns the new fill numerator for the
    /// shader, or `None` once the arrow was already full.
    pub fn tick(&mut self, dt: u64) -> (fill: Option<u64>)
        requires
            old(self).wf(),
        ensures
            final(self).wf(),
            (*final(self), fill) == charge_step(*old(self), dt),
            old(self).triggered ==> *final(self) == *old(self) && fill is None,
            !old(self).triggered ==> {
                let c = if old(self).charged + dt >= CHARGE_DURATION_NS {
                    CHARGE_DURATION_NS
                } else {
                    (old(self).charged + dt) as u64
                };
                &&& final(self).charged == c
                &&& fill == Some(c)
            },
    {
        if self.triggered {
            return None;
        }
        let room = CHARGE_DURATION_NS - self.charged;
        if dt >= room {
            self.charged = CHARGE_DURATION_NS;
        } else {
            self.charged = self.charged + dt;
        }
        if self.charged >= CHARGE_DURATION_NS {
            self.triggered = true;
        }
        Some(self.charged)
    }
}

/// Where the player's head is horizontally, as the two comparisons the
/// escape rules make with the screen centre.
#[derive(Clone, Copy, Debug, PartialEq, Eq)]
pub struct HeadSide {
    /// The head's x is at or right of the centre (`x >= 0`).
    pub at_or_right: bool,
    /// The head's x is at or left of the centre (`x <= 0`).
    pub at_or_left: bool,
}

/// The player is safe on the arrow's half of the screen (the centre line
/// counts for both halves); without a recorded side the arrow is taken to
/// be on the left.
pub open spec fn escaped(head: HeadSide, arrow_side: Option<bool>) -> bool {
    let arrow_right = match arrow_side {
        Some(r) => r,
        None => false,
    };
    if arrow_right {
        head.at_or_right
    } else {
        head.at_or_left
    }
}

/// Outcome of the escape check when the arrow becomes full.
#[derive(Clone, Copy, Debug, PartialEq, Eq)]
pub enum EscapeOutcome {
    /// The player hid on the arrow's half: calm down after a short delay.
    Safe,
    /// The player was caught: the monster attacks.
    Caught,
}

/// Whether the escape check already ran during this encounter.
#[derive(Clone, Copy, Debug, PartialEq, Eq, Default)]
pub struct PlayerEscapeResult {
    pub resolved: bool,
}

/// The arrow's full flag as seen on the previous frame.
#[derive(Clone, Copy, Debug, PartialEq, Eq, Default)]
pub struct ChargeEdge {
    pub last_triggered: bool,
}

pub open spec fn escape_step(
    edge: ChargeEdge,
    result: PlayerEscapeResult,
    triggered: bool,
    head: HeadSide,
    arrow_side: Option<bool>,
) -> (ChargeEdge, PlayerEscapeResult, Option<EscapeOutcome>) {
    let just = triggered && !edge.last_triggered;
    let e = ChargeEdge { last_triggered: triggered };
    if !just || result.resolved {
        (e, result, None)
    } else {
        (
            e,
            PlayerEscapeResult { resolved: true },
            Some(
                if escaped(head, arrow_side) {
                    EscapeOutcome::Safe
                } else {
                    EscapeOutcome::Caught
                },
            ),
        )
    }
}

/// Checks the player's position the first frame the arrow is seen full,
/// once per encounter.
pub fn evaluate_escape(
    edge: &mut ChargeEdge,
    result: &mut PlayerEscapeResult,
    triggered: bool,
    head: HeadSide,
    arrow_side: Option<bool>,
) -> (r: Option<EscapeOutcome>)
    ensures
        (*final(edge), *final(result), r) == escape_step(
            *old(edge),
            *old(result),
            triggered,
            head,
            arrow_side,
        ),
{
    let just_triggered = triggered && !edge.last_triggered;
    edge.last_triggered = triggered;
    if !just_triggered || result.resolved {
        return None;
    }
    result.resolved = true;
    let arrow_right = match arrow_side {
        Some(r) => r,
        None => false,
    };
    let safe = if arrow_right {
        head.at_or_right
    } else {
        head.at_or_left
    };
    if safe {
        Some(EscapeOutcome::Safe)
    } else {
        Some(EscapeOutcome::Caught)
    }
}

/// The bottom shadow turns red when the head is not on the arrow's half
/// (here the head counts as right when `x >= 0`).
pub fn shadow_on_wrong_side(head: HeadSide, arrow_right: bool) -> (wrong: bool)
    ensures
        wrong == (head.at_or_right != arrow_right),
{
    head.at_or_right != arrow_right
}

/// Most bubble columns the lake shader draws.
pub const MAX_BUBBLE_SOURCES: usize = 8;

/// Number of bubble columns drawn for `requested` positions.
pub fn active_bubble_count(requested: usize) -> (n: u32)
    ensures
        n == (if requested < MAX_BUBBLE_SOURCES {
            requested
        } else {
            MAX_BUBBLE_SOURCES
        }),
{
    if requested < MAX_BUBBLE_SOURCES {
        requested as u32
    } else {
        MAX_BUBBLE_SOURCES as u32
    }
}

/// The arrow only fills up: its charge never decreases, never exceeds
/// full, and a full arrow stays full and unchanged.
pub proof fn law_charge_monotone(c: ChargeProgress, dt: u64)
    requires
        c.wf(),
    ensures
        c.charged <= charge_step(c, dt).0.charged <= CHARGE_DURATION_NS,
        charge_step(c, dt).0.wf(),
        c.triggered ==> charge_step(c, dt) == (c, None::<u64>),
{
}

/// The escape check answers at most once per encounter: once it has
/// resolved it stays silent whatever happens to the arrow, and an arrow that
/// stays full is reported only on its first full frame.
pub proof fn law_escape_once(
    edge: ChargeEdge,
    result: PlayerEscapeResult,
    t1: bool,
    head: HeadSide,
    arrow_side: Option<bool>,
)
    ensures
        result.resolved ==> escape_step(edge, result, t1, head, arrow_side).2 is None,
        result.resolved ==> escape_step(edge, result, t1, head, arrow_side).1 == result,
        escape_step(edge, result, t1, head, arrow_side).2 is Some ==> escape_step(
            edge,
            result,
            t1,
            head,
            arrow_side,
        ).1.resolved,
        ({
            let (e1, r1, _) = escape_step(edge, result, true, head, arrow_side);
            escape_step(e1, r1, true, head, arrow_side).2 is None
        }),
{
}

/// Marker of the monster shadow that floats on the lake.
#[derive(Clone, Copy, Debug, PartialEq, Eq, Default)]
pub struct MonsterShadow;

/// How long the bubbles show before the shadow rises (five seconds).
pub const ROAMING_DURATION_NS: u64 = 5_000_000_000;

/// How long the monster lingers after an escape before calm returns.
pub const PEACE_DELAY_NS: u64 = 1_000_000_000;

/// Delay between the first and the second attack sprite.
pub const MONSTER2_DELAY_NS: u64 = 400_000_000;

/// How long the second attack sprite lingers before play resumes.
pub const MONSTER2_LINGER_NS: u64 = 2_000_000_000;

/// Duration of the shadow's shrink-out animation.
pub const SHADOW_DESPAWN_NS: u64 = 200_000_000;

/// The bubble phase of an encounter: when its timer finishes, the shadow
/// phase starts.
pub fn tick_roaming(timer: &mut OnceTimer, dt: u64) -> (next: Option<MonsterState>)
    requires
        old(timer).wf(),
    ensures
        final(timer).wf(),
        next is Some ==> next == Some(MonsterState::Shadow),
        (next is Some) == (!old(timer).finished() && old(timer).elapsed.saturating_add(dt)
            >= old(timer).duration),
{
    if timer.tick(dt) {
        Some(MonsterState::Shadow)
    } else {
        None
    }
}

/// After an escape, calm returns once the delay timer finishes.
pub fn tick_peace_delay(timer: &mut Option<OnceTimer>, dt: u64) -> (next: Option<GameState>)
    requires
        *old(timer) matches Some(t) ==> t.wf(),
    ensures
        *final(timer) matches Some(t) ==> t.wf(),
        *old(timer) is None ==> next is None && *final(timer) is None,
        next is Some ==> next == Some(GameState::Idle),
        *old(timer) matches Some(t) ==> (next is Some <==> (!t.finished()
            && t.elapsed.saturating_add(dt) >= t.duration)),
{
    match timer {
        None => None,
        Some(t) => {
            if t.tick(dt) {
                Some(GameState::Idle)
            } else {
                None
            }
        },
    }
}

/// What the attack asks for this frame.
#[derive(Clone, Copy, Debug, PartialEq, Eq)]
pub enum AttackTick {
    Nothing,
    /// The first sprite gives way to the second, which falls; the player
    /// has lost `ATTACK_DAMAGE` health.
    SecondStrike,
    /// The attack is over: back to `GameState::Idle`.
    ReturnToIdle,
}

/// One frame of the attack: the linger timer counts first, then the strike
/// timer; the frame the strike lands hurts the player and starts the linger.
pub open spec fn attack_step(a: AttackSequence, h: PlayerHealth, dt: u64) -> (
    AttackSequence,
    PlayerHealth,
    AttackTick,
) {
    let (linger, back) = match a.linger {
        Some(l) => (Some(timer_step(l, dt).0), timer_step(l, dt).1),
        None => (None, false),
    };
    let (strike, hit) = timer_step(a.strike, dt);
    if hit {
        (
            AttackSequence {
                strike,
                linger: Some(OnceTimer { duration: MONSTER2_LINGER_NS, elapsed: 0 }),
            },
            PlayerHealth { value: clamp_health(h.value - ATTACK_DAMAGE) as i32 },
            AttackTick::SecondStrike,
        )
    } else {
        (
            AttackSequence { strike, linger },
            h,
            if back {
                AttackTick::ReturnToIdle
            } else {
                AttackTick::Nothing
            },
        )
    }
}

/// The monster's attack: after a short delay the second sprite strikes
/// and hurts the player, lingers, and then play resumes.
#[derive(Clone, Copy, Debug, PartialEq, Eq)]
pub struct AttackSequence {
    pub strike: OnceTimer,
    pub linger: Option<OnceTimer>,
}

impl AttackSequence {
    pub open spec fn wf(&self) -> bool {
        &&& self.strike.wf()
        &&& self.linger matches Some(l) ==> l.wf() && self.strike.finished()
    }

    /// The attack as it begins, with the first sprite on screen.
    pub fn start() -> (a: Self)
        ensures
            a.wf(),
            a.strike.duration == MONSTER2_DELAY_NS && a.strike.elapsed == 0,
            a.linger is None,
    {
        AttackSequence { strike: OnceTimer::new(MONSTER2_DELAY_NS), linger: None }
    }

    /// Advances the attack by one frame. A linger timer started this frame
    /// starts counting on the next one.
    pub fn tick(&mut self, health: &mut PlayerHealth, dt: u64) -> (r: AttackTick)
        requires
            old(self).wf(),
            old(health).wf(),
        ensures
            final(self).wf(),
            final(health).wf(),
            (*final(self), *final(health), r) == attack_step(*old(self), *old(health), dt),
            r == AttackTick::SecondStrike ==> final(health).value == clamp_health(
                old(health).value - ATTACK_DAMAGE,
            ) && final(self).linger == Some(
                OnceTimer { duration: MONSTER2_LINGER_NS, elapsed: 0 },
            ),
            r != AttackTick::SecondStrike ==> *final(health) == *old(health),
            r == AttackTick::SecondStrike ==> !old(self).strike.finished(),
            r == AttackTick::ReturnToIdle ==> old(self).linger is Some,
    {
        let mut out = AttackTick::Nothing;
        match &mut self.linger {
            Some(l) => {
                if l.tick(dt) {
                    out = AttackTick::ReturnToIdle;
                }
            },
            None => {},
        }
        if self.strike.tick(dt) {
            health.damage(ATTACK_DAMAGE);
            self.linger = Some(OnceTimer::new(MONSTER2_LINGER_NS));
            out = AttackTick::SecondStrike;
        }
        out
    }
}

/// An attack strikes at most once: once the strike has landed, no later
/// frame hurts the player or strikes again.
pub proof fn law_single_strike(a: AttackSequence, h: PlayerHealth, dt: u64)
    requires
        a.wf(),
        a.strike.finished(),
    ensures
        attack_step(a, h, dt).1 == h,
        attack_step(a, h, dt).2 != AttackTick::SecondStrike,
        attack_step(a, h, dt).0.strike.finished(),
        attack_step(a, h, dt).0.wf(),
{
}

/// The escape check decides by where the head is against the centre on
/// the first frame the arrow is full: with the arrow on the right (`Some(true)`)
/// a head at or right of the centre is safe, with the arrow on the left (or
/// no side recorded) a head at or left of the centre is safe; anywhere else
/// the monster attacks. The check is then resolved.
pub proof fn law_escape_outcome(
    edge: ChargeEdge,
    result: PlayerEscapeResult,
    head: HeadSide,
    arrow_side: Option<bool>,
)
    requires
        !edge.last_triggered,
        !result.resolved,
    ensures
        escape_step(edge, result, true, head, arrow_side).2 == Some(
            if (arrow_side == Some(true) && head.at_or_right) || (arrow_side != Some(true)
                && head.at_or_left) {
                EscapeOutcome::Safe
            } else {
                EscapeOutcome::Caught
            },
        ),
        escape_step(edge, result, true, head, arrow_side).1.resolved,
        escape_step(edge, result, true, head, arrow_side).0.last_triggered,
{
}

/// The drawn side (right on an even draw) is kept unless both of the last
/// two picks were on that side, in which case the other side is taken;
/// either way the pick is recorded as the newest, the previous newest
/// becoming the older.
pub proof fn law_side_follows_draw(h: ArrowSideHistory, raw: u32)
    ensures
        !(h.older == Some(raw % 2 == 0) && h.newer == Some(raw % 2 == 0)) ==> side_from_draw(h, raw)
            == (raw % 2 == 0),
        (h.older == Some(raw % 2 == 0) && h.newer == Some(raw % 2 == 0)) ==> side_from_draw(h, raw)
            == (raw % 2 != 0),
        recorded(h, side_from_draw(h, raw)).older == h.newer,
        recorded(h, side_from_draw(h, raw)).newer == Some(side_from_draw(h, raw)),
{
}

} // verus!
