use vstd::prelude::*;
use crate::state::Simulation;

verus! {

/// The round has ended: the player is destroyed.
#[derive(Clone, Copy, Debug, PartialEq, Eq, Structural)]
pub struct GameOver;

/// How long the simulation runs on after the end of a round, in milliseconds.
pub const GAME_OVER_DELAY: u64 = 500;

/// A change of the simulation's state that waits for its time.
#[derive(Clone, Copy, Debug, PartialEq, Eq, Structural)]
pub struct ChangeState {
    /// The time at which the round ended.
    pub elapsed: u64,
}

impl ChangeState {
    /// Whether the wait is over at `now`.
    pub open spec fn due(self, now: u64) -> bool {
        self.elapsed + GAME_OVER_DELAY < now
    }

    /// The state that the simulation is put into at `now`: it pauses once
    /// the wait is over; before that nothing is asked for.
    pub fn change_state(&self, now: u64) -> (next: Option<Simulation>)
        ensures
            next == if self.due(now) {
                Some(Simulation::Paused)
            } else {
                None
            },
    {
        if (self.elapsed as u128) + (GAME_OVER_DELAY as u128) < now as u128 {
            Some(Simulation::Paused)
        } else {
            None
        }
    }
}

} // verus!
