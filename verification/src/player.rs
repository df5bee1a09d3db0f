use vstd::prelude::*;
use crate::explosion::At;
use crate::game_over::GameOver;
use crate::hit::Hittable;
use crate::projectile::Orb;
use crate::projectile::travel;
use crate::projectile::travel_spec;
use crate::style::PLAYER_BOUND_X;
use crate::style::PLAYER_BOUND_Y;
use crate::utils::Range;
use crate::utils::Side;
use crate::utils::Vec2;

verus! {

/// The top horizontal speed of the player's craft, in ticks per second.
pub const HORIZONTAL_SPEED: i64 = 600_000;

/// The vertical speed of the player's craft, in ticks per second.
pub const VERTICAL_SPEED: i64 = 400_000;

/// How fast the craft gains horizontal speed, in ticks per second per second.
pub const ACCELERATION: i64 = 1_600_000;

/// How fast the craft loses horizontal speed at top speed, in ticks per second
/// per second.
pub const DECELERATION: i64 = 100_000;

/// The time between two shots of the player, in milliseconds.
pub const SHOOT_DELAY: u64 = 300;

/// The player's craft.
#[derive(Clone, Copy, Debug, PartialEq, Eq, Structural)]
pub struct Player {
    pub facing: Side,
    pub horizontal_speed: i64,
    pub next_shot_time: u64,
}

/// One frame's snapshot of the controls.
#[derive(Clone, Copy, Debug, PartialEq, Eq, Structural)]
pub struct Controls {
    pub move_up: bool,
    pub move_down: bool,
    pub move_left: bool,
    pub move_right: bool,
    pub shoot: bool,
    pub rescue: bool,
}

impl Controls {
    /// The side that the held keys ask for; left wins over right.
    pub open spec fn facing_spec(self) -> Option<Side> {
        if self.move_left {
            Some(Side::Left)
        } else if self.move_right {
            Some(Side::Right)
        } else {
            None
        }
    }

    /// The vertical direction that the held keys ask for: +1 up, -1 down, 0
    /// for neither or both.
    pub open spec fn vertical_spec(self) -> int {
        (if self.move_up {
            1int
        } else {
            0int
        }) + (if self.move_down {
            -1int
        } else {
            0int
        })
    }

    /// The side that the player asks to face, if any.
    pub fn facing(&self) -> (side: Option<Side>)
        ensures
            side == self.facing_spec(),
    {
        if self.move_left {
            Some(Side::Left)
        } else if self.move_right {
            Some(Side::Right)
        } else {
            None
        }
    }

    /// Whether the engine thrusts: the player asks to move left or right.
    pub fn thrust(&self) -> (on: bool)
        ensures
            on == (self.move_left || self.move_right),
    {
        self.move_left || self.move_right
    }

    /// The vertical direction that the player asks for.
    pub fn vertical(&self) -> (v: i64)
        ensures
            v == self.vertical_spec(),
    {
        let up: i64 = if self.move_up { 1 } else { 0 };
        let down: i64 = if self.move_down { -1 } else { 0 };
        up + down
    }
}

/// The controls with nothing held.
pub fn init_controls() -> (c: Controls)
    ensures
        c == (Controls {
            move_up: false,
            move_down: false,
            move_left: false,
            move_right: false,
            shoot: false,
            rescue: false,
        }),
{
    Controls {
        move_up: false,
        move_down: false,
        move_left: false,
        move_right: false,
        shoot: false,
        rescue: false,
    }
}

impl Player {
    /// The full extents of the craft's box.
    pub fn bound() -> (b: Vec2)
        ensures
            b == (Vec2 { x: PLAYER_BOUND_X, y: PLAYER_BOUND_Y }),
    {
        Vec2 { x: PLAYER_BOUND_X, y: PLAYER_BOUND_Y }
    }

    /// A craft at rest that faces right and may shoot at once.
    pub fn new() -> (p: Player)
        ensures
            p == (Player { facing: Side::Right, horizontal_speed: 0, next_shot_time: 0 }),
            p.wf(),
    {
        Player { facing: Side::Right, horizontal_speed: 0, next_shot_time: 0 }
    }

    /// The horizontal speed is no more than the top speed, either way.
    pub open spec fn wf(self) -> bool {
        -HORIZONTAL_SPEED <= self.horizontal_speed <= HORIZONTAL_SPEED
    }

    /// The side that the craft faces after the controls were read: the side
    /// asked for, or the one it faced.
    pub open spec fn turned(self, controls: Controls) -> Side {
        match controls.facing_spec() {
            Some(side) => side,
            None => self.facing,
        }
    }

    /// The horizontal speed after one frame: toward the top speed of the side
    /// asked for by the acceleration, or toward rest by a deceleration that
    /// grows with the speed.
    pub open spec fn next_speed(self, controls: Controls, dt_ms: int) -> int {
        let start = self.horizontal_speed;
        match controls.facing_spec() {
            Some(side) => (Range { start, end: (side.sign_spec() * HORIZONTAL_SPEED) as i64 }).step_spec(
                ACCELERATION * dt_ms / 1000,
            ),
            None => {
                let speed = if start < 0 {
                    -start
                } else {
                    start as int
                };
                (Range { start, end: 0 }).step_spec(speed * dt_ms / 6000)
            },
        }
    }

    /// Reads the controls for one frame: turns the craft and changes its
    /// horizontal speed.
    pub fn steer(&mut self, controls: &Controls, dt_ms: u32)
        requires
            old(self).wf(),
        ensures
            final(self).wf(),
            final(self).facing == old(self).turned(*controls),
            final(self).horizontal_speed == old(self).next_speed(*controls, dt_ms as int),
            final(self).next_shot_time == old(self).next_shot_time,
    {
        let start: i64 = self.horizontal_speed;
        let dt: i64 = dt_ms as i64;
        match controls.facing() {
            Some(side) => {
                self.facing = side;
                let end: i64 = side.sign() * HORIZONTAL_SPEED;
                let amount: i64 = ACCELERATION * dt / 1000;
                self.horizontal_speed = (Range { start, end }).step(amount);
            },
            None => {
                let speed: i64 = if start < 0 { -start } else { start };
                assert(0 <= speed * dt <= 600_000 * 0x1_0000_0000) by (nonlinear_arith)
                    requires
                        0 <= speed <= 600_000,
                        0 <= dt < 0x1_0000_0000,
                ;
                let amount: i64 = speed * dt / 6000;
                self.horizontal_speed = (Range { start, end: 0 }).step(amount);
            },
        }
    }

    /// Whether the craft shoots in this frame: the shot is asked for and the
    /// delay since the last one has passed.
    pub open spec fn shoots(self, controls: Controls, now: u64) -> bool {
        controls.shoot && self.next_shot_time <= now
    }

    /// Fires if the craft may: returns whether it did, and on a shot sets the
    /// time of the next one.
    pub fn try_shooting(&mut self, controls: &Controls, now: u64) -> (fired: bool)
        requires
            now <= u64::MAX - SHOOT_DELAY,
        ensures
            fired == old(self).shoots(*controls, now),
            final(self).facing == old(self).facing,
            final(self).horizontal_speed == old(self).horizontal_speed,
            final(self).next_shot_time == if fired {
                (now + SHOOT_DELAY) as u64
            } else {
                old(self).next_shot_time
            },
    {
        if controls.shoot && self.next_shot_time <= now {
            self.next_shot_time = now + SHOOT_DELAY;
            true
        } else {
            false
        }
    }
}

/// A new craft where the camera looks: at rest, facing right, with no hit
/// recorded.
pub fn spawn(camera: Vec2) -> (craft: (Vec2, Player, Hittable<Orb>))
    ensures
        craft.0 == camera,
        craft.1 == (Player { facing: Side::Right, horizontal_speed: 0, next_shot_time: 0 }),
        craft.2.hitbox == (Vec2 { x: PLAYER_BOUND_X, y: PLAYER_BOUND_Y }),
        craft.2.hit_entity is None,
{
    (camera, Player::new(), Hittable::new(Player::bound()))
}

/// Where the craft stands after one frame at its horizontal speed, while the
/// controls move it up or down at the vertical speed.
pub open spec fn flown(position: Vec2, speed: int, controls: Controls, dt_ms: u32) -> Vec2 {
    Vec2 {
        x: (position.x + travel_spec(speed, dt_ms as int)) as i64,
        y: (position.y + travel_spec(controls.vertical_spec() * VERTICAL_SPEED, dt_ms as int))
            as i64,
    }
}

/// One frame of the craft's flight: the controls steer it, then it moves at
/// its new horizontal speed and at the vertical speed asked for.
pub fn movement(player: &mut Player, position: Vec2, controls: &Controls, dt_ms: u32) -> (r: Vec2)
    requires
        old(player).wf(),
        position.in_bounds(),
    ensures
        final(player).wf(),
        final(player).facing == old(player).turned(*controls),
        final(player).horizontal_speed == old(player).next_speed(*controls, dt_ms as int),
        final(player).next_shot_time == old(player).next_shot_time,
        r == flown(position, final(player).horizontal_speed as int, *controls, dt_ms),
{
    player.steer(controls, dt_ms);
    let dx: i64 = travel(player.horizontal_speed, dt_ms);
    let dy: i64 = travel(controls.vertical() * VERTICAL_SPEED, dt_ms);
    Vec2 { x: position.x + dx, y: position.y + dy }
}

/// The reaction of the craft to the orbs of this frame: reads and clears the
/// hit; a craft that was hit is destroyed, leaves an explosion where it was
/// and ends the round.
pub fn laser_hit(hittable: &mut Hittable<Orb>, position: Vec2) -> (over: Option<(At, GameOver)>)
    ensures
        final(hittable).hit_entity is None,
        final(hittable).hitbox == old(hittable).hitbox,
        over == if old(hittable).hit_entity is Some {
            Some((At { position }, GameOver))
        } else {
            None
        },
{
    match hittable.take_hit() {
        Some(_) => Some((At { position }, GameOver)),
        None => None,
    }
}

} // verus!
