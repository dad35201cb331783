//! The clock that paces the simulation.
use vstd::prelude::*;

verus! {

/// Whether a step is due at `now`, when the last one was taken at `last_tick`
/// and steps are `speed` apart: at least `speed` has passed since.
pub open spec fn elapsed(last_tick: int, now: int, speed: int) -> bool {
    now - last_tick >= speed
}

/// Remembers when the simulation last stepped.
#[derive(Clone, Copy, Debug)]
pub struct GameClock {
    last_tick: u64,
}

impl View for GameClock {
    type V = nat;

    /// The time of the last step.
    closed spec fn view(&self) -> nat {
        self.last_tick as nat
    }
}

impl GameClock {
    /// A clock whose last step was at `now`.
    pub fn starting_at(now: u64) -> (clock: GameClock)
        ensures
            clock@ == now,
    {
        GameClock { last_tick: now }
    }

    /// The time of the last step.
    pub fn last_tick(&self) -> (t: u64)
        ensures
            t == self@,
    {
        self.last_tick
    }

    /// Whether at least `speed` has passed between the last step and `now`.
    /// A `now` before the last step is never due.
    pub fn elapsed_since(&self, now: u64, speed: u64) -> (due: bool)
        ensures
            due == elapsed(self@ as int, now as int, speed as int),
    {
        now >= self.last_tick && now - self.last_tick >= speed
    }

    /// Notes that the simulation stepped at `now`.
    pub fn record_tick(&mut self, now: u64)
        ensures
            final(self)@ == now,
    {
        self.last_tick = now;
    }
}

} // verus!
