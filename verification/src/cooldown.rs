//! Monotonic countdown used to rate-limit repeatable actions (laser fire,
//! invulnerability blink): it decrements by the elapsed delta-time, floors
//! at zero, and is ready exactly when it reads zero.

use vstd::prelude::*;

verus! {

/// Remaining time after one tick: clamped subtraction, floored at zero.
pub open spec fn tick_spec(remaining: int, dt: int) -> int {
    if remaining - dt >= 0 {
        remaining - dt
    } else {
        0
    }
}

/// A countdown in fixed-point seconds; never negative.
#[derive(Clone, Copy, Debug, PartialEq, Eq, Structural)]
pub struct Cooldown {
    pub remaining: i64,
}

impl Cooldown {
    pub open spec fn inv(&self) -> bool {
        self.remaining >= 0
    }

    /// A timer that starts ready.
    pub fn new() -> (c: Cooldown)
        ensures
            c.remaining == 0,
            c.inv(),
    {
        Cooldown { remaining: 0 }
    }

    /// Counts down by `dt`, never below zero.
    pub fn tick(&mut self, dt: i64)
        requires
            old(self).inv(),
            dt >= 0,
        ensures
            final(self).remaining == tick_spec(old(self).remaining as int, dt as int),
            final(self).inv(),
    {
        if self.remaining > dt {
            self.remaining = self.remaining - dt;
        } else {
            self.remaining = 0;
        }
    }

    /// Ready exactly when the countdown reads zero — an exact comparison,
    /// sound because [`Cooldown::tick`] clamps at zero.
    pub fn ready(&self) -> (r: bool)
        ensures
            r == (self.remaining == 0),
    {
        self.remaining == 0
    }

    /// Re-arms the timer for `duration`.
    pub fn reset(&mut self, duration: i64)
        requires
            duration >= 0,
        ensures
            final(self).remaining == duration,
            final(self).inv(),
    {
        self.remaining = duration;
    }
}

/// Cooldown monotonicity: for any nonnegative delta-time, a tick never
/// increases the remaining time and never drives it below zero.
pub proof fn lemma_cooldown_monotonic(remaining: int, dt: int)
    requires
        remaining >= 0,
        dt >= 0,
    ensures
        0 <= tick_spec(remaining, dt) <= remaining,
{
}

} // verus!
