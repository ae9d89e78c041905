//! The tick scheduler: wall-clock time, in whole milliseconds, is accumulated
//! until it reaches the current interval, at which point a simulation tick
//! fires. The interval starts at 300 ms, shrinks by 10 ms for every food
//! eaten, and never goes below 100 ms.

use vstd::prelude::*;

verus! {

/// The interval a fresh game starts with, in milliseconds.
pub const MOVE_TIMER_INITIAL_MS: u32 = 300;

/// How much the interval shrinks per food eaten, in milliseconds.
pub const MOVE_TIMER_DECREASE_PER_FOOD_MS: u32 = 10;

/// The floor the interval is clamped to, in milliseconds.
pub const MOVE_TIMER_MINIMUM_MS: u32 = 100;

/// Accumulates elapsed wall-clock time and fires once the accumulated time
/// reaches the current interval.
#[derive(Clone, Copy, Debug, PartialEq, Eq, Structural)]
pub struct MoveTimer {
    /// Elapsed time accumulated since the last fired tick, in milliseconds.
    pub accumulated_ms: u32,
    /// The current time between ticks, in milliseconds.
    pub interval_ms: u32,
}

/// The interval that belongs to a score: the initial interval lowered by the
/// per-food decrease for every point, clamped to the minimum.
pub open spec fn interval_for_score_spec(score: u32) -> u32 {
    if MOVE_TIMER_INITIAL_MS - score * MOVE_TIMER_DECREASE_PER_FOOD_MS < MOVE_TIMER_MINIMUM_MS {
        MOVE_TIMER_MINIMUM_MS
    } else {
        (MOVE_TIMER_INITIAL_MS - score * MOVE_TIMER_DECREASE_PER_FOOD_MS) as u32
    }
}

/// Returns the tick interval for a score.
pub fn interval_for_score(score: u32) -> (r: u32)
    ensures
        r == interval_for_score_spec(score),
        MOVE_TIMER_MINIMUM_MS <= r <= MOVE_TIMER_INITIAL_MS,
{
    if score >= (MOVE_TIMER_INITIAL_MS - MOVE_TIMER_MINIMUM_MS) / MOVE_TIMER_DECREASE_PER_FOOD_MS {
        MOVE_TIMER_MINIMUM_MS
    } else {
        MOVE_TIMER_INITIAL_MS - score * MOVE_TIMER_DECREASE_PER_FOOD_MS
    }
}

/// The computed interval never drops below the configured minimum, and from
/// the score where the linear formula would cross the floor onward it is
/// clamped to exactly that floor.
pub proof fn lemma_interval_clamped_at_minimum(score: u32)
    ensures
        interval_for_score_spec(score) >= MOVE_TIMER_MINIMUM_MS,
        score * MOVE_TIMER_DECREASE_PER_FOOD_MS >= MOVE_TIMER_INITIAL_MS - MOVE_TIMER_MINIMUM_MS
            ==> interval_for_score_spec(score) == MOVE_TIMER_MINIMUM_MS,
{
}

impl MoveTimer {
    /// The timer's interval never sits below the configured minimum.
    pub open spec fn wf(self) -> bool {
        self.interval_ms >= MOVE_TIMER_MINIMUM_MS
    }

    /// A timer with nothing accumulated and the initial interval.
    pub fn new() -> (t: MoveTimer)
        ensures
            t.wf(),
            t.accumulated_ms == 0,
            t.interval_ms == MOVE_TIMER_INITIAL_MS,
    {
        MoveTimer { accumulated_ms: 0, interval_ms: MOVE_TIMER_INITIAL_MS }
    }

    /// Adds elapsed wall-clock time. When the accumulated time reaches the
    /// interval the accumulator resets to zero and the call reports that a
    /// tick fired; otherwise the time is kept and no tick fires.
    pub fn advance(&mut self, elapsed_ms: u32) -> (fired: bool)
        ensures
            fired == (old(self).accumulated_ms + elapsed_ms >= old(self).interval_ms),
            fired ==> final(self).accumulated_ms == 0,
            !fired ==> final(self).accumulated_ms == old(self).accumulated_ms + elapsed_ms,
            final(self).interval_ms == old(self).interval_ms,
    {
        let total: u64 = self.accumulated_ms as u64 + elapsed_ms as u64;
        if total >= self.interval_ms as u64 {
            self.accumulated_ms = 0;
            true
        } else {
            self.accumulated_ms = total as u32;
            false
        }
    }

    /// Sets the interval, clamped to the configured minimum: callers cannot
    /// drive the timer below the floor.
    pub fn set_interval(&mut self, interval_ms: u32)
        ensures
            final(self).wf(),
            final(self).interval_ms == if interval_ms < MOVE_TIMER_MINIMUM_MS {
                MOVE_TIMER_MINIMUM_MS
            } else {
                interval_ms
            },
            final(self).accumulated_ms == old(self).accumulated_ms,
    {
        if interval_ms < MOVE_TIMER_MINIMUM_MS {
            self.interval_ms = MOVE_TIMER_MINIMUM_MS;
        } else {
            self.interval_ms = interval_ms;
        }
    }
}

} // verus!
