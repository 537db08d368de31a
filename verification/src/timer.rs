//! One-shot timers measured in whole nanoseconds: a timer counts frame
//! time up to its duration and reports, on the one frame where it gets
//! there, that it just finished.
use vstd::prelude::*;

verus! {

/// A one-shot timer.
#[derive(Clone, Copy, Debug, PartialEq, Eq)]
pub struct OnceTimer {
    pub duration: u64,
    pub elapsed: u64,
}

/// One frame of a timer: the timer after `dt` more nanoseconds, and
/// whether it finished on this frame.
pub open spec fn timer_step(t: OnceTimer, dt: u64) -> (OnceTimer, bool) {
    if t.elapsed >= t.duration {
        (t, false)
    } else {
        let e = t.elapsed.saturating_add(dt);
        if e >= t.duration {
            (OnceTimer { duration: t.duration, elapsed: t.duration }, true)
        } else {
            (OnceTimer { duration: t.duration, elapsed: e }, false)
        }
    }
}

impl OnceTimer {
    pub open spec fn wf(&self) -> bool {
        self.elapsed <= self.duration
    }

    pub open spec fn finished(&self) -> bool {
        self.elapsed >= self.duration
    }

    /// A timer of `duration` nanoseconds that has not started counting.
    pub fn new(duration: u64) -> (t: Self)
        ensures
            t.duration == duration,
            t.elapsed == 0,
            t.wf(),
    {
        OnceTimer { duration, elapsed: 0 }
    }

    /// Counts one frame of `dt`; true on the frame the timer reaches its
    /// duration, false before and ever after.
    pub fn tick(&mut self, dt: u64) -> (just_finished: bool)
        requires
            old(self).wf(),
        ensures
            final(self).wf(),
            final(self).duration == old(self).duration,
            (*final(self), just_finished) == timer_step(*old(self), dt),
            old(self).finished() ==> *final(self) == *old(self) && !just_finished,
            !old(self).finished() ==> {
                let e = old(self).elapsed.saturating_add(dt);
                &&& final(self).elapsed == (if e >= old(self).duration {
                    old(self).duration
                } else {
                    e
                })
                &&& just_finished == (e >= old(self).duration)
            },
    {
        if self.elapsed >= self.duration {
            return false;
        }
        let e = self.elapsed.saturating_add(dt);
        if e >= self.duration {
            self.elapsed = self.duration;
            true
        } else {
            self.elapsed = e;
            false
        }
    }
}

/// A timer reports finishing exactly once: on the frame it reports, it is
/// finished, and from then on no frame reports again or changes it.
pub proof fn law_timer_fires_once(t: OnceTimer, dt: u64, later: u64)
    requires
        t.wf(),
        timer_step(t, dt).1,
    ensures
        timer_step(t, dt).0.finished(),
        timer_step(timer_step(t, dt).0, later) == (timer_step(t, dt).0, false),
{
}

} // verus!
