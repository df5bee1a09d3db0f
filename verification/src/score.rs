use vstd::prelude::*;

verus! {

/// The player's score: a counter that never goes down and stops at the
/// largest value that it can hold.
#[derive(Clone, Copy, Debug, PartialEq, Eq, Structural)]
pub struct Score {
    pub value: u32,
}

/// The sum of a score and an award, held at the largest value of the counter.
pub open spec fn capped_sum(value: int, points: int) -> int {
    if value + points > u32::MAX {
        u32::MAX as int
    } else {
        value + points
    }
}

impl Score {
    /// A score of zero.
    pub fn new() -> (s: Score)
        ensures
            s.value == 0,
    {
        Score { value: 0 }
    }

    /// Adds an award to the score.
    pub fn award(&mut self, points: u32)
        ensures
            final(self).value == capped_sum(old(self).value as int, points as int),
            final(self).value >= old(self).value,
    {
        self.value = self.value.saturating_add(points);
    }

    /// Sets the score back to zero for a new round.
    pub fn reset(&mut self)
        ensures
            final(self).value == 0,
    {
        self.value = 0;
    }
}

} // verus!
