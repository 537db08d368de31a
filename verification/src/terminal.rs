//! The full-screen terminal sequences shown when the player dies and when the
//! game ends: a fade to black followed by a typewriter reveal of a terminal
//! message, one character every `CHAR_DELAY_NS`.
//!
//! Time is measured in whole nanoseconds, the unit of the frame delta.
use vstd::prelude::*;
use vstd::string::StringSliceAdditionalSpecFns;
use vstd::utf8::*;

verus! {

broadcast use vstd::slice::group_slice_axioms;

/// How long the overlay takes to fade to black.
pub const FADE_DURATION_NS: u64 = 1_500_000_000;

/// Time between two revealed characters.
pub const CHAR_DELAY_NS: u64 = 40_000_000;

/// Delay after typing finishes before the credits start fading in.
pub const SHOW_END_DELAY_NS: u64 = 1_200_000_000;

/// How long the credits take to fade in.
pub const SHOW_END_FADE_NS: u64 = 2_500_000_000;

/// Message typed out when the player dies.
pub fn dead_terminal_message() -> (r: &'static str)
    ensures
        r@ == "[SYSTEM]: Restarting.............................."@,
{
    "[SYSTEM]: Restarting.............................."
}

/// Message typed out when the game is won.
pub fn end_terminal_message() -> (r: &'static str)
    ensures
        r@ == "[SYSTEM] SUCCESS: OBJECTIVE_CRITERIA_MET\n\n[SYSTEM] EXTRACTING: /logs/sim_1042_final_metrics.dat\n\n[SYSTEM] STATUS: DATA_VALIDATED_AND_UPLOADED\n\n[SYSTEM] EXECUTING: /usr/bin/purge_environment\n\n[SYSTEM] INITIALIZING: /usr/bin/prepare_next_iteration"@,
{
    "[SYSTEM] SUCCESS: OBJECTIVE_CRITERIA_MET\n\n[SYSTEM] EXTRACTING: /logs/sim_1042_final_metrics.dat\n\n[SYSTEM] STATUS: DATA_VALIDATED_AND_UPLOADED\n\n[SYSTEM] EXECUTING: /usr/bin/purge_environment\n\n[SYSTEM] INITIALIZING: /usr/bin/prepare_next_iteration"
}

/// The first character boundary at or after byte `i` (or the end of the text).
pub open spec fn next_char_boundary(bytes: Seq<u8>, i: int) -> int
    decreases bytes.len() - i,
{
    if i >= bytes.len() || is_char_boundary(bytes, i) {
        i
    } else {
        next_char_boundary(bytes, i + 1)
    }
}

/// Where the typewriter stands after spending the accumulated `timer`:
/// each full `CHAR_DELAY_NS` reveals one more character, until the whole
/// text is shown. Returns the new byte index and the time left over.
pub open spec fn typed_after(bytes: Seq<u8>, idx: int, timer: nat) -> (int, nat)
    decreases timer,
{
    if timer >= CHAR_DELAY_NS && idx < bytes.len() {
        typed_after(bytes, next_char_boundary(bytes, idx + 1), (timer - CHAR_DELAY_NS) as nat)
    } else {
        (idx, timer)
    }
}

pub proof fn lemma_next_char_boundary(bytes: Seq<u8>, i: int)
    requires
        valid_utf8(bytes),
        0 <= i <= bytes.len(),
    ensures
        i <= next_char_boundary(bytes, i) <= bytes.len(),
        is_char_boundary(bytes, next_char_boundary(bytes, i)),
        forall|j: int| i <= j < next_char_boundary(bytes, i) ==> !is_char_boundary(bytes, j),
    decreases bytes.len() - i,
{
    is_char_boundary_start_end_of_seq(bytes);
    if i >= bytes.len() || is_char_boundary(bytes, i) {
    } else {
        lemma_next_char_boundary(bytes, i + 1);
    }
}

pub proof fn lemma_typed_after(bytes: Seq<u8>, idx: int, timer: nat)
    requires
        valid_utf8(bytes),
        0 <= idx <= bytes.len(),
        is_char_boundary(bytes, idx),
    ensures
        idx <= typed_after(bytes, idx, timer).0 <= bytes.len(),
        is_char_boundary(bytes, typed_after(bytes, idx, timer).0),
        typed_after(bytes, idx, timer).1 <= timer,
        // Typing stops only when the text is complete or the time is used up.
        typed_after(bytes, idx, timer).0 == bytes.len() || typed_after(bytes, idx, timer).1
            < CHAR_DELAY_NS,
        // At least one character is revealed when a full delay has elapsed.
        timer >= CHAR_DELAY_NS && idx < bytes.len() ==> idx < typed_after(bytes, idx, timer).0,
    decreases timer,
{
    if timer >= CHAR_DELAY_NS && idx < bytes.len() {
        lemma_next_char_boundary(bytes, idx + 1);
        lemma_typed_after(bytes, next_char_boundary(bytes, idx + 1), (timer - CHAR_DELAY_NS) as nat);
    }
}

/// Skips forward from `i` to the next character boundary of `text`.
fn skip_to_char_boundary(text: &str, i: usize) -> (r: usize)
    requires
        i <= text.spec_bytes().len(),
    ensures
        r as int == next_char_boundary(text.spec_bytes(), i as int),
{
    let len = text.as_bytes().len();
    let mut j = i;
    proof {
        encode_utf8_valid_utf8(text@);
        lemma_next_char_boundary(text.spec_bytes(), i as int);
    }
    while j < len && !text.is_char_boundary(j)
        invariant
            len == text.spec_bytes().len(),
            i <= j <= len,
            next_char_boundary(text.spec_bytes(), j as int) == next_char_boundary(
                text.spec_bytes(),
                i as int,
            ),
        decreases len - j,
    {
        j = j + 1;
    }
    j
}

/// Reveals as many characters of `text` as the accumulated `timer` pays
/// for, starting at byte `idx`.
pub fn advance_typing(text: &str, idx: usize, timer: u64) -> (r: (usize, u64))
    requires
        idx <= text.spec_bytes().len(),
    ensures
        (r.0 as int, r.1 as nat) == typed_after(text.spec_bytes(), idx as int, timer as nat),
{
    let len = text.as_bytes().len();
    let mut i = idx;
    let mut t = timer;
    while t >= CHAR_DELAY_NS && i < len
        invariant
            len == text.spec_bytes().len(),
            i <= len,
            typed_after(text.spec_bytes(), i as int, t as nat) == typed_after(
                text.spec_bytes(),
                idx as int,
                timer as nat,
            ),
        decreases t,
    {
        t = t - CHAR_DELAY_NS;
        proof {
            encode_utf8_valid_utf8(text@);
            lemma_next_char_boundary(text.spec_bytes(), i + 1);
        }
        i = skip_to_char_boundary(text, i + 1);
    }
    (i, t)
}

/// The part of `text` revealed so far: its first `idx` bytes.
pub fn typed_prefix(text: &str, idx: usize) -> (r: &str)
    requires
        idx <= text.spec_bytes().len(),
        is_char_boundary(text.spec_bytes(), idx as int),
    ensures
        r.spec_bytes() =~= text.spec_bytes().subrange(0, idx as int),
{
    let (head, _tail) = text.split_at(idx);
    head
}

/// Phases of the death sequence.
#[derive(Clone, Copy, PartialEq, Eq, Debug)]
pub enum DeadPhase {
    FadeToBlack { elapsed: u64 },
    Typing { char_index: usize, char_timer: u64 },
    Done,
}

/// What one frame of the death sequence asks the caller to show or do.
#[derive(Clone, Copy, PartialEq, Eq, Debug)]
pub enum DeadTick {
    /// Set the overlay's opacity to `faded / FADE_DURATION_NS`.
    Fade { faded: u64 },
    /// Show the first `shown` bytes of the message.
    Type { shown: usize },
    /// The message is complete: restart the game and return to `Idle`.
    Restart,
    /// Nothing to do; the state change is pending.
    Wait,
}

/// The death sequence: fade to black, type the message, then restart.
pub struct DeadSequence {
    pub phase: DeadPhase,
    pub message: &'static str,
}

/// A typing phase is sound for `text` when its index is a character
/// boundary inside the text.
pub open spec fn typing_index_ok(text: &str, idx: usize) -> bool {
    &&& idx <= text.spec_bytes().len()
    &&& is_char_boundary(text.spec_bytes(), idx as int)
}

pub open spec fn dead_step(phase: DeadPhase, text: &str, dt: u64) -> (DeadPhase, DeadTick) {
    match phase {
        DeadPhase::FadeToBlack { elapsed } => {
            let e = elapsed.saturating_add(dt);
            if e >= FADE_DURATION_NS {
                (
                    DeadPhase::Typing { char_index: 0, char_timer: 0 },
                    DeadTick::Fade { faded: FADE_DURATION_NS },
                )
            } else {
                (DeadPhase::FadeToBlack { elapsed: e }, DeadTick::Fade { faded: e })
            }
        },
        DeadPhase::Typing { char_index, char_timer } => {
            if char_index >= text.spec_bytes().len() {
                (DeadPhase::Done, DeadTick::Restart)
            } else {
                let r = typed_after(
                    text.spec_bytes(),
                    char_index as int,
                    char_timer.saturating_add(dt) as nat,
                );
                (
                    DeadPhase::Typing { char_index: r.0 as usize, char_timer: r.1 as u64 },
                    DeadTick::Type { shown: r.0 as usize },
                )
            }
        },
        DeadPhase::Done => (DeadPhase::Done, DeadTick::Wait),
    }
}

impl DeadSequence {
    pub open spec fn wf(&self) -> bool {
        match self.phase {
            DeadPhase::Typing { char_index, .. } => typing_index_ok(self.message, char_index),
            _ => true,
        }
    }

    /// Starts the sequence with the overlay fully transparent.
    pub fn start(message: &'static str) -> (s: Self)
        ensures
            s.phase == (DeadPhase::FadeToBlack { elapsed: 0 }),
            s.message == message,
            s.wf(),
    {
        DeadSequence { phase: DeadPhase::FadeToBlack { elapsed: 0 }, message }
    }

    /// Advances the sequence by one frame lasting `dt` nanoseconds.
    pub fn tick(&mut self, dt: u64) -> (out: DeadTick)
        requires
            old(self).wf(),
        ensures
            final(self).wf(),
            final(self).message == old(self).message,
            (final(self).phase, out) == dead_step(old(self).phase, old(self).message, dt),
    {
        proof {
            encode_utf8_valid_utf8(self.message@);
            is_char_boundary_start_end_of_seq(self.message.spec_bytes());
        }
        match self.phase {
            DeadPhase::FadeToBlack { elapsed } => {
                let e = elapsed.saturating_add(dt);
                if e >= FADE_DURATION_NS {
                    self.phase = DeadPhase::Typing { char_index: 0, char_timer: 0 };
                    DeadTick::Fade { faded: FADE_DURATION_NS }
                } else {
                    self.phase = DeadPhase::FadeToBlack { elapsed: e };
                    DeadTick::Fade { faded: e }
                }
            },
            DeadPhase::Typing { char_index, char_timer } => {
                if char_index >= self.message.as_bytes().len() {
                    self.phase = DeadPhase::Done;
                    DeadTick::Restart
                } else {
                    let (i, t) = advance_typing(
                        self.message,
                        char_index,
                        char_timer.saturating_add(dt),
                    );
                    proof {
                        lemma_typed_after(
                            self.message.spec_bytes(),
                            char_index as int,
                            char_timer.saturating_add(dt) as nat,
                        );
                    }
                    self.phase = DeadPhase::Typing { char_index: i, char_timer: t };
                    DeadTick::Type { shown: i }
                }
            },
            DeadPhase::Done => DeadTick::Wait,
        }
    }
}

/// Phases of the ending sequence.
#[derive(Clone, Copy, PartialEq, Eq, Debug)]
pub enum EndPhase {
    FadeToBlack { elapsed: u64 },
    Typing { char_index: usize, char_timer: u64 },
    ShowEnd { elapsed: u64 },
    Done,
}

/// What one frame of the ending sequence asks the caller to show.
#[derive(Clone, Copy, PartialEq, Eq, Debug)]
pub enum EndTick {
    /// Set the overlay's opacity to `faded / FADE_DURATION_NS`.
    Fade { faded: u64 },
    /// Show the first `shown` bytes of the message.
    Type { shown: usize },
    /// Set the credits' opacity to `faded / SHOW_END_FADE_NS`.
    Credits { faded: u64 },
    /// Nothing to change this frame.
    Wait,
}

/// The ending sequence: fade to black, type the message, then fade in the
/// credits after a short pause.
pub struct EndSequence {
    pub phase: EndPhase,
    pub message: &'static str,
}

/// Opacity numerator of the credits `elapsed` nanoseconds after typing ended:
/// zero during the pause, then growing linearly, capped at the fade length.
pub open spec fn credits_faded(elapsed: u64) -> u64 {
    if elapsed <= SHOW_END_DELAY_NS {
        0
    } else if elapsed - SHOW_END_DELAY_NS >= SHOW_END_FADE_NS {
        SHOW_END_FADE_NS
    } else {
        (elapsed - SHOW_END_DELAY_NS) as u64
    }
}

pub open spec fn end_step(phase: EndPhase, text: &str, dt: u64) -> (EndPhase, EndTick) {
    match phase {
        EndPhase::FadeToBlack { elapsed } => {
            let e = elapsed.saturating_add(dt);
            if e >= FADE_DURATION_NS {
                (
                    EndPhase::Typing { char_index: 0, char_timer: 0 },
                    EndTick::Fade { faded: FADE_DURATION_NS },
                )
            } else {
                (EndPhase::FadeToBlack { elapsed: e }, EndTick::Fade { faded: e })
            }
        },
        EndPhase::Typing { char_index, char_timer } => {
            if char_index >= text.spec_bytes().len() {
                (EndPhase::ShowEnd { elapsed: 0 }, EndTick::Wait)
            } else {
                let r = typed_after(
                    text.spec_bytes(),
                    char_index as int,
                    char_timer.saturating_add(dt) as nat,
                );
                (
                    EndPhase::Typing { char_index: r.0 as usize, char_timer: r.1 as u64 },
                    EndTick::Type { shown: r.0 as usize },
                )
            }
        },
        EndPhase::ShowEnd { elapsed } => {
            let e = elapsed.saturating_add(dt);
            if e >= SHOW_END_DELAY_NS + SHOW_END_FADE_NS {
                (EndPhase::Done, EndTick::Credits { faded: credits_faded(e) })
            } else {
                (EndPhase::ShowEnd { elapsed: e }, EndTick::Credits { faded: credits_faded(e) })
            }
        },
        EndPhase::Done => (EndPhase::Done, EndTick::Wait),
    }
}

fn credits_fade_of(elapsed: u64) -> (r: u64)
    ensures
        r == credits_faded(elapsed),
{
    if elapsed <= SHOW_END_DELAY_NS {
        0
    } else if elapsed - SHOW_END_DELAY_NS >= SHOW_END_FADE_NS {
        SHOW_END_FADE_NS
    } else {
        elapsed - SHOW_END_DELAY_NS
    }
}

impl EndSequence {
    pub open spec fn wf(&self) -> bool {
        match self.phase {
            EndPhase::Typing { char_index, .. } => typing_index_ok(self.message, char_index),
            _ => true,
        }
    }

    /// Starts the sequence with the overlay fully transparent.
    pub fn start(message: &'static str) -> (s: Self)
        ensures
            s.phase == (EndPhase::FadeToBlack { elapsed: 0 }),
            s.message == message,
            s.wf(),
    {
        EndSequence { phase: EndPhase::FadeToBlack { elapsed: 0 }, message }
    }

    /// Advances the sequence by one frame lasting `dt` nanoseconds.
    pub fn tick(&mut self, dt: u64) -> (out: EndTick)
        requires
            old(self).wf(),
        ensures
            final(self).wf(),
            final(self).message == old(self).message,
            (final(self).phase, out) == end_step(old(self).phase, old(self).message, dt),
    {
        proof {
            encode_utf8_valid_utf8(self.message@);
            is_char_boundary_start_end_of_seq(self.message.spec_bytes());
        }
        match self.phase {
            EndPhase::FadeToBlack { elapsed } => {
                let e = elapsed.saturating_add(dt);
                if e >= FADE_DURATION_NS {
                    self.phase = EndPhase::Typing { char_index: 0, char_timer: 0 };
                    EndTick::Fade { faded: FADE_DURATION_NS }
                } else {
                    self.phase = EndPhase::FadeToBlack { elapsed: e };
                    EndTick::Fade { faded: e }
                }
            },
            EndPhase::Typing { char_index, char_timer } => {
                if char_index >= self.message.as_bytes().len() {
                    self.phase = EndPhase::ShowEnd { elapsed: 0 };
                    EndTick::Wait
                } else {
                    let (i, t) = advance_typing(
                        self.message,
                        char_index,
                        char_timer.saturating_add(dt),
                    );
                    proof {
                        lemma_typed_after(
                            self.message.spec_bytes(),
                            char_index as int,
                            char_timer.saturating_add(dt) as nat,
                        );
                    }
                    self.phase = EndPhase::Typing { char_index: i, char_timer: t };
                    EndTick::Type { shown: i }
                }
            },
            EndPhase::ShowEnd { elapsed } => {
                let e = elapsed.saturating_add(dt);
                let faded = credits_fade_of(e);
                if e >= SHOW_END_DELAY_NS + SHOW_END_FADE_NS {
                    self.phase = EndPhase::Done;
                } else {
                    self.phase = EndPhase::ShowEnd { elapsed: e };
                }
                EndTick::Credits { faded }
            },
            EndPhase::Done => EndTick::Wait,
        }
    }
}

/// The death sequence asks for the restart exactly once: the frame that asks
/// for it ends the sequence, and an ended sequence stays ended and asks for
/// nothing more.
pub proof fn law_dead_restart_once(phase: DeadPhase, text: &str, dt: u64, later: u64)
    ensures
        dead_step(phase, text, dt).1 == DeadTick::Restart ==> dead_step(phase, text, dt).0
            == DeadPhase::Done,
        dead_step(DeadPhase::Done, text, later) == (DeadPhase::Done, DeadTick::Wait),
{
}

/// The typewriter never moves back, stays on a character boundary, and a
/// frame lasting at least one character delay reveals at least one more
/// character while the message is incomplete.
pub proof fn law_typing_progress(text: &str, idx: usize, timer: u64, dt: u64)
    requires
        typing_index_ok(text, idx),
        idx < text.spec_bytes().len() <= usize::MAX,
    ensures
        ({
            let (next, out) = dead_step(
                DeadPhase::Typing { char_index: idx, char_timer: timer },
                text,
                dt,
            );
            match next {
                DeadPhase::Typing { char_index, .. } => {
                    &&& idx <= char_index
                    &&& typing_index_ok(text, char_index)
                    &&& out == DeadTick::Type { shown: char_index }
                    &&& dt >= CHAR_DELAY_NS ==> idx < char_index
                },
                _ => false,
            }
        }),
{
    encode_utf8_valid_utf8(text@);
    lemma_typed_after(text.spec_bytes(), idx as int, timer.saturating_add(dt) as nat);
}

/// With one character delay of time per remaining byte, the typewriter
/// reaches the end of the message.
pub proof fn law_typing_completes(bytes: Seq<u8>, idx: int, timer: nat)
    requires
        valid_utf8(bytes),
        0 <= idx <= bytes.len(),
        timer >= (bytes.len() - idx) * CHAR_DELAY_NS,
    ensures
        typed_after(bytes, idx, timer).0 == bytes.len(),
    decreases timer,
{
    if timer >= CHAR_DELAY_NS && idx < bytes.len() {
        lemma_next_char_boundary(bytes, idx + 1);
        let n = next_char_boundary(bytes, idx + 1);
        assert((bytes.len() - n) * CHAR_DELAY_NS <= (bytes.len() - idx - 1) * CHAR_DELAY_NS)
            by (nonlinear_arith)
            requires
                n >= idx + 1,
        ;
        assert((bytes.len() - idx - 1) * CHAR_DELAY_NS == (bytes.len() - idx) * CHAR_DELAY_NS
            - CHAR_DELAY_NS) by (nonlinear_arith);
        law_typing_completes(bytes, n, (timer - CHAR_DELAY_NS) as nat);
    } else if idx < bytes.len() {
        assert((bytes.len() - idx) * CHAR_DELAY_NS >= CHAR_DELAY_NS) by (nonlinear_arith)
            requires
                bytes.len() - idx >= 1,
        ;
    }
}

/// The overlay's opacity never exceeds one and the credits' opacity grows
/// with time, never exceeding one.
pub proof fn law_fades_bounded(e1: u64, e2: u64)
    requires
        e1 <= e2,
    ensures
        credits_faded(e1) <= credits_faded(e2) <= SHOW_END_FADE_NS,
        forall|p: DeadPhase, t: &str, dt: u64|
            #![trigger dead_step(p, t, dt)]
            dead_step(p, t, dt).1 matches DeadTick::Fade { faded } ==> faded
                <= FADE_DURATION_NS,
{
}

/// The ending types its message exactly as the death sequence types its
/// own: one character per `CHAR_DELAY_NS`. A frame that leaves less than one
/// delay of time reveals nothing new; one that leaves at least one and less
/// than two delays reveals exactly the next character; the index never
/// moves back and always stays on a character boundary, and the leftover
/// time is less than one delay unless the message is complete.
pub proof fn law_end_typing(text: &str, idx: usize, timer: u64, dt: u64)
    requires
        typing_index_ok(text, idx),
        idx < text.spec_bytes().len() <= usize::MAX,
    ensures
        ({
            let (next, out) = end_step(
                EndPhase::Typing { char_index: idx, char_timer: timer },
                text,
                dt,
            );
            let total = timer.saturating_add(dt);
            match next {
                EndPhase::Typing { char_index, char_timer } => {
                    &&& out == EndTick::Type { shown: char_index }
                    &&& idx <= char_index <= text.spec_bytes().len()
                    &&& typing_index_ok(text, char_index)
                    &&& total < CHAR_DELAY_NS ==> char_index == idx && char_timer == total
                    &&& CHAR_DELAY_NS <= total < 2 * CHAR_DELAY_NS ==> char_index
                        == next_char_boundary(text.spec_bytes(), idx + 1) && char_timer == total
                        - CHAR_DELAY_NS
                    &&& total >= CHAR_DELAY_NS ==> idx < char_index
                    &&& char_index < text.spec_bytes().len() ==> char_timer < CHAR_DELAY_NS
                    &&& dead_step(
                        DeadPhase::Typing { char_index: idx, char_timer: timer },
                        text,
                        dt,
                    ) == (
                        DeadPhase::Typing { char_index, char_timer },
                        DeadTick::Type { shown: char_index },
                    )
                },
                _ => false,
            }
        }),
{
    encode_utf8_valid_utf8(text@);
    let bytes = text.spec_bytes();
    let total = timer.saturating_add(dt);
    lemma_typed_after(bytes, idx as int, total as nat);
    if CHAR_DELAY_NS <= total < 2 * CHAR_DELAY_NS {
        lemma_next_char_boundary(bytes, idx + 1);
        let n = next_char_boundary(bytes, idx + 1);
        assert(typed_after(bytes, n, (total - CHAR_DELAY_NS) as nat) == (
            n,
            (total - CHAR_DELAY_NS) as nat,
        ));
    }
}

} // verus!
