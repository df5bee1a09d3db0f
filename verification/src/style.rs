use vstd::prelude::*;

verus! {

/// Ticks of the fixed-point grid in one world unit.
pub const UNIT: i64 = 1_000;

/// The largest magnitude of a coordinate that the simulation accepts, in ticks.
pub const MAX_COORD: i64 = 1_000_000_000_000;

/// The largest magnitude of the camera's x, in ticks: half a world length
/// short of the largest coordinate, so that whatever is projected next to the
/// camera is within the supported range.
pub const MAX_CAMERA: i64 = 999_997_505_000;

/// The largest magnitude of a velocity component, in ticks per second.
pub const MAX_SPEED: i64 = 1_000_000_000;

/// Parts of a full turn in which angles are counted.
pub const TURN: i64 = 65_536;

pub const BORDER_CONFINEMENT_OFFSET: i64 = 50_000;

pub const MIN_ENEMY_COUNT: u32 = 5;

pub const MAX_ENEMY_COUNT: u32 = 15;

/// The number of ground characters that each wave tops the population up to.
pub const PERSON_TARGET_COUNT: usize = 8;

pub const PLAYER_BOUND_X: i64 = 16_000;

pub const PLAYER_BOUND_Y: i64 = 16_000;

/// How far the nose of the player's craft lies ahead of its centre, in ticks.
pub const PLAYER_FRONT_OFFSET: i64 = 35_000;

pub const LASER_BOUND_X: i64 = 400_000;

pub const LASER_BOUND_Y: i64 = 2_375;

pub const ORB_BOUND_X: i64 = 16_000;

pub const ORB_BOUND_Y: i64 = 16_000;

pub const ENEMY_BOUND_X: i64 = 46_500;

pub const ENEMY_BOUND_Y: i64 = 46_125;

pub const MUTANT_BOUND_X: i64 = 46_500;

pub const MUTANT_BOUND_Y: i64 = 46_125;

pub const PERSON_BOUND_X: i64 = 23_040;

pub const PERSON_BOUND_Y: i64 = 30_720;

/// The altitude of a ground character's centre while it stands on the ground.
pub const GROUND_Y: i64 = 24_720;

} // verus!
