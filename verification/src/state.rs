use vstd::prelude::*;

verus! {

/// Whether the gameplay systems run.
#[derive(Clone, Copy, Debug, PartialEq, Eq, Hash, Structural)]
pub enum Simulation {
    Running,
    Paused,
}

impl Default for Simulation {
    fn default() -> (s: Simulation)
        ensures
            s == Simulation::Paused,
    {
        Simulation::Paused
    }
}

impl Simulation {
    /// The other state.
    pub open spec fn toggled(self) -> Simulation {
        match self {
            Simulation::Running => Simulation::Paused,
            Simulation::Paused => Simulation::Running,
        }
    }
}

/// The state asked for when the pause key may have been pressed: the other
/// state on a press, none without.
pub fn toggle_simulation_state(pressed: bool, state: Simulation) -> (next: Option<Simulation>)
    ensures
        next == if pressed {
            Some(state.toggled())
        } else {
            None
        },
{
    if pressed {
        Some(
            match state {
                Simulation::Running => Simulation::Paused,
                Simulation::Paused => Simulation::Running,
            },
        )
    } else {
        None
    }
}

} // verus!
