//! The simulation core of a side-scrolling arcade shooter over a wrapped
//! world: a craft fights waves of enemies that try to carry off the
//! characters on the ground.
//!
//! Lengths are whole numbers of ticks, a thousand to the world unit; times are
//! milliseconds; angles are parts of a turn. Nothing here draws, plays sounds
//! or reads a device: every system takes plain values and tables of entities.

pub mod camera;
pub mod enemy;
pub mod explosion;
pub mod game_over;
pub mod high_scores;
pub mod hit;
pub mod map;
pub mod menu;
pub mod person;
pub mod player;
pub mod projectile;
pub mod random;
pub mod score;
pub mod state;
pub mod style;
pub mod utils;
pub mod wave;
