//! The per-tick combat-phase loop: watching the two populations and driving
//! the grace timer that ends a cleared wave.

use vstd::prelude::*;

use crate::fixed::ATTR_LIMIT;
use crate::states::GameState;

verus! {

/// Grace period after the last invader dies before the wave is cleared, in
/// fixed-point seconds.
pub const GRACE_PERIOD: i64 = 200;

/// A one-shot timer: elapsed time accumulates up to the duration and stays
/// there; the timer reports completion from then on.
#[derive(Clone, Copy, PartialEq, Eq, Structural, Debug)]
pub struct GameTimer {
    pub elapsed: i64,
    pub duration: i64,
}

impl GameTimer {
    /// Well-formed: the elapsed time is inside the (bounded) duration.
    pub open spec fn wf(self) -> bool {
        &&& 0 <= self.duration <= ATTR_LIMIT
        &&& 0 <= self.elapsed <= self.duration
    }

    /// Fresh one-shot timer.
    pub fn new(duration: i64) -> (t: GameTimer)
        requires
            0 <= duration <= ATTR_LIMIT,
        ensures
            t.wf(),
            t.duration == duration,
            t.elapsed == 0,
    {
        GameTimer { elapsed: 0, duration }
    }

    /// Advance the timer; report whether it has completed (and it stays
    /// completed once it has).
    pub fn tick(&mut self, delta: i64) -> (finished: bool)
        requires
            old(self).wf(),
            0 <= delta <= ATTR_LIMIT,
        ensures
            final(self).wf(),
            final(self).duration == old(self).duration,
            final(self).elapsed == vstd::math::min(
                old(self).duration as int,
                old(self).elapsed + delta,
            ),
            finished == (old(self).elapsed + delta >= old(self).duration),
    {
        let advanced: i64 = self.elapsed + delta;
        if advanced >= self.duration {
            self.elapsed = self.duration;
            true
        } else {
            self.elapsed = advanced;
            false
        }
    }
}

/// Combat-phase setup: the grace timer starts from zero.
pub fn setup_ingame_resources() -> (t: GameTimer)
    ensures
        t.wf(),
        t.duration == GRACE_PERIOD,
        t.elapsed == 0,
{
    GameTimer::new(GRACE_PERIOD)
}

/// One combat-phase tick of the wave machine: with no defenders left the
/// phase falls to defeat; with no invaders left the grace timer advances and,
/// once it completes, the phase moves to wave-clear (which wins if both
/// populations are empty). Otherwise combat continues. The tick is only ever
/// applied in the combat phase, so the wave-clear transition fires exactly
/// once per wave.
pub fn game_loop(
    goodcells_alive: bool,
    badcells_alive: bool,
    timer: &mut GameTimer,
    delta: i64,
) -> (next: GameState)
    requires
        old(timer).wf(),
        0 <= delta <= ATTR_LIMIT,
    ensures
        final(timer).wf(),
        final(timer).duration == old(timer).duration,
        badcells_alive ==> *final(timer) == *old(timer),
        !badcells_alive ==> final(timer).elapsed == vstd::math::min(
            old(timer).duration as int,
            old(timer).elapsed + delta,
        ),
        next == (if !badcells_alive && old(timer).elapsed + delta >= old(timer).duration {
            GameState::GameFinish
        } else if !goodcells_alive {
            GameState::GameOver
        } else {
            GameState::Game
        }),
{
    let mut next = GameState::Game;
    if !goodcells_alive {
        next = GameState::GameOver;
    }
    if !badcells_alive {
        if timer.tick(delta) {
            next = GameState::GameFinish;
        }
    }
    next
}

} // verus!
