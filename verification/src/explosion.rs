use vstd::prelude::*;
use crate::projectile::is_direction;
use crate::projectile::stretch;
use crate::projectile::stretched;
use crate::projectile::Bundle;
use crate::projectile::Orb;
use crate::projectile::Projectile;
use crate::style::ORB_BOUND_X;
use crate::style::ORB_BOUND_Y;
use crate::style::TURN;
use crate::utils::DespawnTime;
use crate::utils::Entity;
use crate::utils::Vec2;

verus! {

/// An explosion asked for at a position.
#[derive(Clone, Copy, Debug, PartialEq, Eq, Structural)]
pub struct At {
    pub position: Vec2,
}

/// Marks a spark of an explosion: a decorative shot that strikes nothing.
#[derive(Clone, Copy, Debug, PartialEq, Eq, Structural)]
pub struct Explosion;

/// The number of sparks of one explosion.
pub const SPARKS: u32 = 16;

/// The speed of a spark, in ticks per second.
pub const SPARK_SPEED: i64 = 400_000;

/// How long a spark lives, in milliseconds.
pub const SPARK_LIFETIME: u64 = 500;

/// The angle at which spark `i` flies, in parts of a turn: the sparks are
/// spread evenly over a full turn, the first and the last both along the
/// positive x axis.
pub open spec fn spark_angle_spec(i: int) -> int {
    i * TURN / (SPARKS - 1)
}

/// The angle of one spark of an explosion.
pub fn spark_angle(i: u32) -> (angle: u32)
    requires
        i < SPARKS,
    ensures
        angle == spark_angle_spec(i as int),
        angle <= TURN,
{
    let n: u64 = (i as u64) * (TURN as u64);
    (n / ((SPARKS - 1) as u64)) as u32
}

/// The spark that an explosion at `at` throws in `direction` at the time
/// `now`: it starts half an orb's width from the centre, flies at the speed of
/// sparks, strikes nothing, and dies when its lifetime is over.
pub open spec fn spark_of(entity: Entity, at: Vec2, direction: Vec2, now: u64) -> (
    Bundle,
    DespawnTime,
) {
    (
        Bundle {
            entity,
            position: at.plus(stretched(direction, ORB_BOUND_X / 2)),
            projectile: Projectile { velocity: stretched(direction, SPARK_SPEED as int) },
            bound: Vec2 { x: ORB_BOUND_X, y: ORB_BOUND_Y },
            damaging: false,
        },
        DespawnTime { elapsed_ms: (now + SPARK_LIFETIME) as u64 },
    )
}

/// Makes one spark of an explosion.
pub fn spark(entity: Entity, at: At, direction: Vec2, now: u64) -> (r: (Bundle, DespawnTime))
    requires
        at.position.in_reach(),
        is_direction(direction),
        now <= u64::MAX - SPARK_LIFETIME,
    ensures
        r == spark_of(entity, at.position, direction, now),
        r.0.projectile.wf(),
{
    let offset = stretch(direction, ORB_BOUND_X / 2);
    (
        Bundle {
            entity,
            position: Vec2 { x: at.position.x + offset.x, y: at.position.y + offset.y },
            projectile: Projectile { velocity: stretch(direction, SPARK_SPEED) },
            bound: Orb::bound(),
            damaging: false,
        },
        DespawnTime { elapsed_ms: now + SPARK_LIFETIME },
    )
}

} // verus!
