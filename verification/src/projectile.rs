use vstd::prelude::*;
use crate::hit::Striker;
use crate::hit::Viewport;
use crate::hit::box_intersection;
use crate::hit::box_intersection_spec;
use crate::style::LASER_BOUND_X;
use crate::style::PLAYER_FRONT_OFFSET;
use crate::utils::displace;
use crate::utils::displacement;
use crate::utils::Side;
use crate::style::LASER_BOUND_Y;
use crate::style::MAX_SPEED;
use crate::style::ORB_BOUND_X;
use crate::style::ORB_BOUND_Y;
use crate::utils::Entity;
use crate::utils::Vec2;
use crate::utils::div_toward_zero;

verus! {

/// The category of the player's shots.
#[derive(Clone, Copy, Debug, PartialEq, Eq, Structural)]
pub struct Laser;

/// The category of the enemies' shots.
#[derive(Clone, Copy, Debug, PartialEq, Eq, Structural)]
pub struct Orb;

/// The speed of a laser shot, in ticks per second.
pub const LASER_SPEED: i64 = 4_800_000;

/// The speed of an orb, in ticks per second.
pub const ORB_SPEED: i64 = 300_000;

impl Laser {
    /// The full extents of a laser shot's box.
    pub fn bound() -> (b: Vec2)
        ensures
            b == (Vec2 { x: LASER_BOUND_X, y: LASER_BOUND_Y }),
    {
        Vec2 { x: LASER_BOUND_X, y: LASER_BOUND_Y }
    }
}

impl Orb {
    /// The full extents of an orb's box.
    pub fn bound() -> (b: Vec2)
        ensures
            b == (Vec2 { x: ORB_BOUND_X, y: ORB_BOUND_Y }),
    {
        Vec2 { x: ORB_BOUND_X, y: ORB_BOUND_Y }
    }
}

/// Constant-velocity motion: the velocity counts ticks per second.
#[derive(Clone, Copy, Debug, PartialEq, Eq, Structural)]
pub struct Projectile {
    pub velocity: Vec2,
}

/// A shot in flight. Decorative shots, such as the sparks of an explosion, are
/// not damaging and never strike anything.
#[derive(Clone, Copy, Debug, PartialEq, Eq, Structural)]
pub struct Bundle {
    pub entity: Entity,
    pub position: Vec2,
    pub projectile: Projectile,
    pub bound: Vec2,
    pub damaging: bool,
}

/// How far a body with speed `speed` (ticks per second) gets in `dt_ms`
/// milliseconds, rounded toward zero.
pub open spec fn travel_spec(speed: int, dt_ms: int) -> int {
    div_toward_zero(speed * dt_ms, 1000)
}

/// The distance covered along one axis in one frame.
pub fn travel(speed: i64, dt_ms: u32) -> (d: i64)
    requires
        -MAX_SPEED <= speed <= MAX_SPEED,
    ensures
        d == travel_spec(speed as int, dt_ms as int),
        -4_294_967_296_000_000 <= d <= 4_294_967_296_000_000,
{
    let dt: i128 = dt_ms as i128;
    if speed >= 0 {
        let s: i128 = speed as i128;
        assert(0 <= s * dt <= 1_000_000_000 * 0x1_0000_0000) by (nonlinear_arith)
            requires
                0 <= s <= 1_000_000_000,
                0 <= dt < 0x1_0000_0000,
        ;
        let d: i128 = (s * dt) / 1000;
        d as i64
    } else {
        let s: i128 = -(speed as i128);
        assert(0 <= s * dt <= 1_000_000_000 * 0x1_0000_0000) by (nonlinear_arith)
            requires
                0 <= s <= 1_000_000_000,
                0 <= dt < 0x1_0000_0000,
        ;
        assert(-(speed as int * dt as int) == s * dt) by (nonlinear_arith)
            requires
                s == -(speed as int),
        ;
        let d: i128 = (s * dt) / 1000;
        (-d) as i64
    }
}

impl Projectile {
    /// Whether both components of the velocity are within the supported range.
    pub open spec fn wf(self) -> bool {
        &&& -MAX_SPEED <= self.velocity.x <= MAX_SPEED
        &&& -MAX_SPEED <= self.velocity.y <= MAX_SPEED
    }

    /// Tests whether the velocity is within the supported range.
    pub fn is_wf(&self) -> (ok: bool)
        ensures
            ok == self.wf(),
    {
        -MAX_SPEED <= self.velocity.x && self.velocity.x <= MAX_SPEED && -MAX_SPEED
            <= self.velocity.y && self.velocity.y <= MAX_SPEED
    }

    /// Where a shot that stood at `position` stands after `dt_ms`.
    pub open spec fn moved(self, position: Vec2, dt_ms: u32) -> Vec2 {
        Vec2 {
            x: (position.x + travel_spec(self.velocity.x as int, dt_ms as int)) as i64,
            y: (position.y + travel_spec(self.velocity.y as int, dt_ms as int)) as i64,
        }
    }

    /// Moves a shot along its velocity for one frame.
    pub fn movement(&self, position: Vec2, dt_ms: u32) -> (r: Vec2)
        requires
            self.wf(),
            position.in_bounds(),
        ensures
            r == self.moved(position, dt_ms),
            r.x == position.x + travel_spec(self.velocity.x as int, dt_ms as int),
            r.y == position.y + travel_spec(self.velocity.y as int, dt_ms as int),
    {
        let dx: i64 = travel(self.velocity.x, dt_ms);
        let dy: i64 = travel(self.velocity.y, dt_ms);
        Vec2 { x: position.x + dx, y: position.y + dy }
    }
}

/// The length of a direction vector that stands for one: the components of a
/// direction count millionths.
pub const DIRECTION_UNIT: i64 = 1_000_000;

/// How far from its centre an enemy lets an orb go, in ticks.
pub const ORB_MUZZLE: i64 = 50_000;

/// Whether a vector can be a direction: neither component is longer than
/// one.
pub open spec fn is_direction(direction: Vec2) -> bool {
    &&& -DIRECTION_UNIT <= direction.x <= DIRECTION_UNIT
    &&& -DIRECTION_UNIT <= direction.y <= DIRECTION_UNIT
}

/// Tests whether a vector can be a direction.
pub fn direction_ok(direction: Vec2) -> (ok: bool)
    ensures
        ok == is_direction(direction),
{
    -DIRECTION_UNIT <= direction.x && direction.x <= DIRECTION_UNIT && -DIRECTION_UNIT
        <= direction.y && direction.y <= DIRECTION_UNIT
}

/// A direction stretched to `length` ticks, each component rounded toward
/// zero.
pub open spec fn stretched(direction: Vec2, length: int) -> Vec2 {
    Vec2 {
        x: displacement(direction.x as int, DIRECTION_UNIT as int, length) as i64,
        y: displacement(direction.y as int, DIRECTION_UNIT as int, length) as i64,
    }
}

/// Stretches a direction to a length.
pub fn stretch(direction: Vec2, length: i64) -> (r: Vec2)
    requires
        is_direction(direction),
        0 <= length <= MAX_SPEED,
    ensures
        r == stretched(direction, length as int),
        -length <= r.x <= length,
        -length <= r.y <= length,
{
    Vec2 {
        x: displace(direction.x, 1_000_000, length),
        y: displace(direction.y, 1_000_000, length),
    }
}

/// The laser shot of a craft at `craft` that faces `facing`: it starts ahead
/// of the craft's nose by half its own length, flies level at the speed of
/// lasers the way the craft faces, and is damaging.
pub open spec fn laser_of(entity: Entity, craft: Vec2, facing: Side) -> Bundle {
    Bundle {
        entity,
        position: Vec2 {
            x: (craft.x + facing.sign_spec() * (PLAYER_FRONT_OFFSET + LASER_BOUND_X / 2)) as i64,
            y: craft.y,
        },
        projectile: Projectile {
            velocity: Vec2 { x: (facing.sign_spec() * LASER_SPEED) as i64, y: 0 },
        },
        bound: Vec2 { x: LASER_BOUND_X, y: LASER_BOUND_Y },
        damaging: true,
    }
}

/// Makes the laser shot of the player's craft.
pub fn laser_shot(entity: Entity, craft: Vec2, facing: Side) -> (shot: Bundle)
    requires
        craft.in_reach(),
    ensures
        shot == laser_of(entity, craft, facing),
        shot.projectile.wf(),
{
    let sign: i64 = facing.sign();
    Bundle {
        entity,
        position: Vec2 { x: craft.x + sign * (PLAYER_FRONT_OFFSET + LASER_BOUND_X / 2), y: craft.y },
        projectile: Projectile { velocity: Vec2 { x: sign * LASER_SPEED, y: 0 } },
        bound: Laser::bound(),
        damaging: true,
    }
}

/// The orb that an enemy at `enemy` shoots in `direction`: it starts at the
/// muzzle's distance from the enemy, flies at the speed of orbs, and is
/// damaging.
pub open spec fn orb_of(entity: Entity, enemy: Vec2, direction: Vec2) -> Bundle {
    Bundle {
        entity,
        position: enemy.plus(stretched(direction, ORB_MUZZLE as int)),
        projectile: Projectile { velocity: stretched(direction, ORB_SPEED as int) },
        bound: Vec2 { x: ORB_BOUND_X, y: ORB_BOUND_Y },
        damaging: true,
    }
}

/// Makes the orb of an enemy's shot.
pub fn orb_shot(entity: Entity, enemy: Vec2, direction: Vec2) -> (shot: Bundle)
    requires
        enemy.in_reach(),
        is_direction(direction),
    ensures
        shot == orb_of(entity, enemy, direction),
        shot.projectile.wf(),
{
    let muzzle = stretch(direction, ORB_MUZZLE);
    Bundle {
        entity,
        position: Vec2 { x: enemy.x + muzzle.x, y: enemy.y + muzzle.y },
        projectile: Projectile { velocity: stretch(direction, ORB_SPEED) },
        bound: Orb::bound(),
        damaging: true,
    }
}

/// Whether a shot at `position` still shows in the viewport: its box, taken
/// with the extents of a laser shot, shares some area with the window.
pub open spec fn in_window(view: Viewport, position: Vec2) -> bool {
    box_intersection_spec(
        view.center,
        view.size,
        position,
        Vec2 { x: LASER_BOUND_X, y: LASER_BOUND_Y },
    ) is Some
}

/// The shots among the first `n` that still show in the viewport, in order.
pub open spec fn shown(view: Viewport, shots: Seq<Bundle>, n: int) -> Seq<Bundle>
    decreases n,
{
    if n <= 0 || n > shots.len() {
        Seq::empty()
    } else if in_window(view, shots[n - 1].position) {
        shown(view, shots, n - 1).push(shots[n - 1])
    } else {
        shown(view, shots, n - 1)
    }
}

/// Ends the life of every shot that has left the viewport: what stays are the
/// shots that still show, in their order.
pub fn despawn_outside_window(view: Viewport, shots: &mut Vec<Bundle>)
    ensures
        final(shots)@ == shown(view, old(shots)@, old(shots).len() as int),
{
    let mut kept: Vec<Bundle> = Vec::new();
    let mut i: usize = 0;
    while i < shots.len()
        invariant
            0 <= i <= shots.len(),
            *shots == *old(shots),
            kept@ == shown(view, shots@, i as int),
        decreases shots.len() - i,
    {
        let shot = shots[i];
        if box_intersection(view.center, view.size, shot.position, Laser::bound()).is_some() {
            kept.push(shot);
        }
        i += 1;
    }
    *shots = kept;
}

/// The strikers that the first `n` shots make: one for each damaging shot, in
/// order.
pub open spec fn strikers_of(shots: Seq<Bundle>, n: int) -> Seq<Striker>
    decreases n,
{
    if n <= 0 || n > shots.len() {
        Seq::empty()
    } else if shots[n - 1].damaging {
        strikers_of(shots, n - 1).push(
            Striker {
                entity: shots[n - 1].entity,
                position: shots[n - 1].position,
                bound: shots[n - 1].bound,
            },
        )
    } else {
        strikers_of(shots, n - 1)
    }
}

/// Lists the shots that can strike: decorative ones are left out.
pub fn strikers(shots: &Vec<Bundle>) -> (r: Vec<Striker>)
    ensures
        r@ == strikers_of(shots@, shots.len() as int),
{
    let mut out: Vec<Striker> = Vec::new();
    let mut i: usize = 0;
    while i < shots.len()
        invariant
            0 <= i <= shots.len(),
            out@ == strikers_of(shots@, i as int),
        decreases shots.len() - i,
    {
        let shot = shots[i];
        if shot.damaging {
            out.push(Striker { entity: shot.entity, position: shot.position, bound: shot.bound });
        }
        i += 1;
    }
    out
}

} // verus!
