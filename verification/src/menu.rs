use vstd::prelude::*;
use crate::enemy::EnemiesCount;
use crate::enemy;
use crate::projectile;
use crate::score::Score;

verus! {

/// Marks the menu that shows while the simulation is paused.
#[derive(Clone, Copy, Debug, PartialEq, Eq, Structural)]
pub struct PausedMenu;

/// A button of the menu.
#[derive(Clone, Copy, Debug, PartialEq, Eq, Structural)]
pub enum Button {
    Play,
    Exit,
}

/// What a pressed button asks for.
#[derive(Clone, Copy, Debug, PartialEq, Eq, Structural)]
pub enum Pressed {
    /// The simulation runs; with `spawn_player` a new round starts and the
    /// player's craft has to be spawned.
    Run { spawn_player: bool },
    /// The program ends.
    Exit,
}

impl Button {
    /// The hue of the button, in degrees.
    pub fn hue(&self) -> (h: u32)
        ensures
            h == match self {
                Button::Play => 120u32,
                Button::Exit => 0u32,
            },
    {
        match self {
            Button::Play => 120,
            Button::Exit => 0,
        }
    }
}

/// The reaction to a pressed button. Exit ends the program and changes
/// nothing. Play lets the simulation run; without a live player it starts a
/// new round first: every enemy and every shot is removed, and the count of
/// enemies, the wave and the score go back to zero.
pub fn button_change(
    button: Button,
    player_alive: bool,
    enemies: &mut Vec<enemy::Bundle>,
    shots: &mut Vec<projectile::Bundle>,
    count: &mut EnemiesCount,
    score: &mut Score,
) -> (pressed: Pressed)
    ensures
        pressed == match button {
            Button::Exit => Pressed::Exit,
            Button::Play => (Pressed::Run { spawn_player: !player_alive }),
        },
        button == Button::Play && !player_alive ==> {
            &&& final(enemies).len() == 0
            &&& final(shots).len() == 0
            &&& *final(count) == (EnemiesCount { count: 0, wave: 0 })
            &&& final(score).value == 0
        },
        button == Button::Exit || player_alive ==> {
            &&& final(enemies)@ == old(enemies)@
            &&& final(shots)@ == old(shots)@
            &&& *final(count) == *old(count)
            &&& *final(score) == *old(score)
        },
{
    match button {
        Button::Exit => Pressed::Exit,
        Button::Play => {
            if !player_alive {
                enemies.clear();
                shots.clear();
                count.count = 0;
                count.wave = 0;
                score.reset();
            }
            Pressed::Run { spawn_player: !player_alive }
        },
    }
}

} // verus!
