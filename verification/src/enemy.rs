use vstd::prelude::*;
use crate::explosion::At;
use crate::game_over::GameOver;
use crate::hit::Hittable;
use crate::hit::Striker;
use crate::hit::Viewport;
use crate::hit::min_int;
use crate::map::HALF_SIZE;
use crate::map::MapScroll;
use crate::map::SIZE;
use crate::map::band_top;
use crate::map::clamp_spec;
use crate::map::confine;
use crate::map::lemma_update_near_camera;
use crate::map::playing_band_top;
use crate::map::visible_spec;
use crate::person::CharacterState;
use crate::person;
use crate::player::Player;
use crate::projectile::Laser;
use crate::random::random_draw;
use crate::random::spread_draw;
use crate::random::spread_spec;
use crate::score::Score;
use crate::score::capped_sum;
use crate::style::BORDER_CONFINEMENT_OFFSET;
use crate::style::ENEMY_BOUND_X;
use crate::style::ENEMY_BOUND_Y;
use crate::style::MAX_COORD;
use crate::style::MAX_SPEED;
use crate::style::MUTANT_BOUND_X;
use crate::style::MUTANT_BOUND_Y;
use crate::style::TURN;
use crate::style::UNIT;
use crate::utils::Entity;
use crate::utils::Located;
use crate::utils::Vec2;
use crate::utils::displace;
use crate::utils::displacement;
use crate::utils::isqrt;
use crate::utils::lemma_side_below_sqrt;
use crate::utils::my_fract;
use crate::utils::sqrt_floor;

verus! {

/// The time between two choices of a waypoint, in milliseconds.
pub const RETARGET_PERIOD: u64 = 1_000;

/// The distance below which an enemy picks a character up, in ticks.
pub const CAPTURE_RADIUS: i64 = 10_000;

/// The square of the capture radius.
pub const CAPTURE_RADIUS_SQUARED: u128 = 100_000_000;

/// The largest offset of a random waypoint along either axis, in ticks.
pub const MAX_CHANGE: i64 = 400_000;

/// The square of the largest offset of a random waypoint.
pub const MAX_CHANGE_SQUARED: u128 = 160_000_000_000;

/// The speed of an enemy, in ticks per millisecond.
pub const ENEMY_SPEED: i64 = 100;

/// How long an enemy that came back into view waits before it shoots, in
/// milliseconds.
pub const VISIBILITY_DELAY: u64 = 500;

/// What an enemy knows and plans.
#[derive(Clone, Copy, Debug, PartialEq, Eq, Structural)]
pub struct Enemy {
    /// The waypoint that the enemy flies to.
    pub desired_position: Vec2,
    /// The time before which the enemy does not shoot again.
    pub next_shot: u64,
    /// The time after which the enemy picks a new waypoint.
    pub next_desired_position: u64,
    /// The last time at which the enemy was out of view.
    pub last_outside: u64,
    /// Whether the enemy carries a character.
    pub has_person: bool,
}

/// What tells one variant of enemy from another.
#[derive(Clone, Copy, Debug, PartialEq, Eq, Structural)]
pub struct VariantData {
    /// Whether this is the variant that an enemy turns into once it has
    /// delivered a character.
    pub mutated: bool,
    /// The full extents of the hit box.
    pub bound: Vec2,
    /// The hue of the orbs that the variant shoots, in degrees.
    pub orb_hue: u32,
    /// The time between two shots, in milliseconds.
    pub shot_delay: u64,
    /// The hue of the variant's dot on the minimap, in degrees.
    pub minimap_hue: u32,
}

/// A variant of enemy, described by its data.
pub trait Variant {
    spec fn data_spec() -> VariantData;

    fn data() -> (d: VariantData)
        ensures
            d == Self::data_spec(),
    ;
}

/// The variant that every wave starts with.
#[derive(Clone, Copy, Debug, PartialEq, Eq, Structural)]
pub struct Lander;

/// The variant that a lander turns into once it has delivered a character.
#[derive(Clone, Copy, Debug, PartialEq, Eq, Structural)]
pub struct Mutant;

impl Variant for Lander {
    open spec fn data_spec() -> VariantData {
        VariantData {
            mutated: false,
            bound: Vec2 { x: ENEMY_BOUND_X, y: ENEMY_BOUND_Y },
            orb_hue: 360,
            shot_delay: 1_000,
            minimap_hue: 120,
        }
    }

    fn data() -> (d: VariantData) {
        VariantData {
            mutated: false,
            bound: Vec2 { x: ENEMY_BOUND_X, y: ENEMY_BOUND_Y },
            orb_hue: 360,
            shot_delay: 1_000,
            minimap_hue: 120,
        }
    }
}

impl Variant for Mutant {
    open spec fn data_spec() -> VariantData {
        VariantData {
            mutated: true,
            bound: Vec2 { x: MUTANT_BOUND_X, y: MUTANT_BOUND_Y },
            orb_hue: 120,
            shot_delay: 250,
            minimap_hue: 0,
        }
    }

    fn data() -> (d: VariantData) {
        VariantData {
            mutated: true,
            bound: Vec2 { x: MUTANT_BOUND_X, y: MUTANT_BOUND_Y },
            orb_hue: 120,
            shot_delay: 250,
            minimap_hue: 0,
        }
    }
}

/// The state of the waves: how many enemies are alive and which wave runs.
#[derive(Clone, Copy, Debug, PartialEq, Eq, Structural)]
pub struct EnemiesCount {
    pub count: u32,
    pub wave: u32,
}

/// An enemy with all that belongs to it.
#[derive(Clone, Copy, Debug)]
pub struct Bundle {
    pub entity: Entity,
    pub position: Vec2,
    pub enemy: Enemy,
    pub variant_data: VariantData,
    pub laser_hit: Hittable<Laser>,
    pub player_hit: Hittable<Player>,
}

/// A new enemy of variant `T` at `translation`: it wants to stay where it is,
/// all its timers are at zero and no hit is recorded.
pub fn bundle<T: Variant>(entity: Entity, translation: Vec2, has_person: bool) -> (b: Bundle)
    ensures
        b.entity == entity,
        b.position == translation,
        b.enemy == (Enemy {
            desired_position: translation,
            next_shot: 0,
            next_desired_position: 0,
            last_outside: 0,
            has_person,
        }),
        b.variant_data == T::data_spec(),
        b.laser_hit.hitbox == T::data_spec().bound,
        b.player_hit.hitbox == T::data_spec().bound,
        b.laser_hit.hit_entity is None,
        b.player_hit.hit_entity is None,
{
    let data = T::data();
    Bundle {
        entity,
        position: translation,
        enemy: Enemy {
            desired_position: translation,
            next_shot: 0,
            next_desired_position: 0,
            last_outside: 0,
            has_person,
        },
        variant_data: data,
        laser_hit: Hittable::new(data.bound),
        player_hit: Hittable::new(data.bound),
    }
}

/// Whether `x` shows in a window of the given width around the camera, both
/// edges included.
pub fn visible(x: i64, camera_x: i64, window_width: i64) -> (v: bool)
    ensures
        v == visible_spec(x as int, camera_x as int, window_width as int),
{
    let d: i128 = 2 * (x as i128 - camera_x as i128);
    let w: i128 = window_width as i128;
    -w <= d && d <= w
}

/// Where an enemy has to be to pick a character up: right above it, so that
/// the character hangs at the carrying offset.
pub open spec fn pickup_point(person: person::Bundle) -> Vec2 {
    Vec2 { x: person.position.x, y: (person.position.y - person::ENEMY_OFFSET_Y) as i64 }
}

/// The index, among the first `n` characters, of the one on the ground whose
/// pick-up point is nearest to `position`; of several at the same distance,
/// the first. `None` where none of them is on the ground.
pub open spec fn nearest_grounded_spec(
    position: Vec2,
    persons: Seq<person::Bundle>,
    n: int,
) -> Option<int>
    decreases n,
{
    if n <= 0 || n > persons.len() {
        None
    } else {
        let before = nearest_grounded_spec(position, persons, n - 1);
        let last = persons[n - 1];
        if last.state == CharacterState::Grounded && (before is None || pickup_point(
            last,
        ).distance_squared_spec(position) < pickup_point(
            persons[before->0],
        ).distance_squared_spec(position)) {
            Some(n - 1)
        } else {
            before
        }
    }
}

/// Finds the character on the ground that is nearest to `position`.
pub fn nearest_grounded(position: Vec2, persons: &Vec<person::Bundle>) -> (r: Option<usize>)
    requires
        position.in_bounds(),
        forall|i: int| 0 <= i < persons.len() ==> (#[trigger] persons[i]).position.in_bounds(),
    ensures
        match r {
            Some(i) => nearest_grounded_spec(position, persons@, persons.len() as int) == Some(
                i as int,
            ) && i < persons.len(),
            None => nearest_grounded_spec(position, persons@, persons.len() as int) is None,
        },
{
    let mut best: Option<usize> = None;
    let mut best_distance: u128 = 0;
    let mut i: usize = 0;
    while i < persons.len()
        invariant
            0 <= i <= persons.len(),
            position.in_bounds(),
            forall|j: int| 0 <= j < persons.len() ==> (#[trigger] persons[j]).position.in_bounds(),
            match best {
                Some(b) => nearest_grounded_spec(position, persons@, i as int) == Some(b as int)
                    && b < i && best_distance == pickup_point(persons[b as int]).distance_squared_spec(
                    position,
                ),
                None => nearest_grounded_spec(position, persons@, i as int) is None,
            },
        decreases persons.len() - i,
    {
        let state = persons[i].state;
        let grounded = match state {
            CharacterState::Grounded => true,
            _ => false,
        };
        if grounded {
            let at = persons[i].position;
            let point = Vec2 { x: at.x, y: at.y - person::ENEMY_OFFSET_Y };
            let distance = point.distance_squared(position);
            if best.is_none() || distance < best_distance {
                best = Some(i);
                best_distance = distance;
            }
        }
        i += 1;
    }
    best
}

/// The character that the search names is on the ground, and no character on
/// the ground is nearer; those before it are further away.
pub proof fn lemma_nearest_is_minimal(position: Vec2, persons: Seq<person::Bundle>, n: int)
    requires
        0 <= n <= persons.len(),
    ensures
        match nearest_grounded_spec(position, persons, n) {
            Some(i) => {
                &&& 0 <= i < n
                &&& persons[i].state == CharacterState::Grounded
                &&& forall|j: int|
                    0 <= j < n && persons[j].state == CharacterState::Grounded ==> pickup_point(
                        persons[i],
                    ).distance_squared_spec(position) <= pickup_point(
                        #[trigger] persons[j],
                    ).distance_squared_spec(position)
                &&& forall|j: int|
                    0 <= j < i && persons[j].state == CharacterState::Grounded ==> pickup_point(
                        persons[i],
                    ).distance_squared_spec(position) < pickup_point(
                        #[trigger] persons[j],
                    ).distance_squared_spec(position)
            },
            None => forall|j: int|
                0 <= j < n ==> (#[trigger] persons[j]).state != CharacterState::Grounded,
        },
    decreases n,
{
    if n > 0 {
        lemma_nearest_is_minimal(position, persons, n - 1);
    }
}

/// Whether an altitude lies in the band that enemies keep to: above the
/// border offset and as far below the top of the playing band.
pub open spec fn in_band(y: int, window_height: int) -> bool {
    BORDER_CONFINEMENT_OFFSET <= y <= band_top(window_height) - BORDER_CONFINEMENT_OFFSET
}

/// The waypoint that two draws give around `center`: each draw is spread over
/// `[-factor, factor)` and added along its axis. The waypoint is turned down
/// where its altitude falls outside the band.
pub open spec fn waypoint_spec(
    center: Vec2,
    factor: int,
    draw_x: u32,
    draw_y: u32,
    window_height: int,
) -> Option<Vec2> {
    let y = center.y + spread_spec(draw_y, factor);
    if in_band(y, window_height) {
        Some(Vec2 { x: (center.x + spread_spec(draw_x, factor)) as i64, y: y as i64 })
    } else {
        None
    }
}

/// Makes a waypoint from two draws, or turns the draws down.
pub fn waypoint_from_draws(
    center: Vec2,
    factor: i64,
    draw_x: u32,
    draw_y: u32,
    window_height: i64,
) -> (r: Option<Vec2>)
    requires
        center.in_reach(),
        0 <= factor <= MAX_COORD,
        0 <= window_height,
    ensures
        r == waypoint_spec(center, factor as int, draw_x, draw_y, window_height as int),
        match r {
            Some(point) => {
                &&& in_band(point.y as int, window_height as int)
                &&& -factor <= point.x - center.x <= factor
                &&& -factor <= point.y - center.y <= factor
            },
            None => true,
        },
{
    let dx: i64 = spread_draw(draw_x, factor);
    let dy: i64 = spread_draw(draw_y, factor);
    let y: i64 = center.y + dy;
    let top: i64 = playing_band_top(window_height);
    if BORDER_CONFINEMENT_OFFSET <= y && y <= top - BORDER_CONFINEMENT_OFFSET {
        Some(Vec2 { x: center.x + dx, y })
    } else {
        None
    }
}

/// The number of draws after which the search for a waypoint's altitude ends.
pub const WAYPOINT_DRAWS: u32 = 64;

/// A random waypoint around `center`, no further than `factor` from it along
/// the x axis and inside the band. Its altitude is drawn again and again until
/// it falls inside the band; should every draw allowed fall outside, the
/// altitude is that of `center`, moved into the band.
pub fn random_waypoint(center: Vec2, factor: i64, window_height: i64) -> (r: Vec2)
    requires
        center.in_reach(),
        0 <= factor <= MAX_COORD,
        0 <= window_height,
        2 * BORDER_CONFINEMENT_OFFSET <= band_top(window_height as int),
    ensures
        in_band(r.y as int, window_height as int),
        -factor <= r.x - center.x <= factor,
        -factor <= r.y - center.y <= factor || r.y == clamp_spec(
            center.y as int,
            BORDER_CONFINEMENT_OFFSET as int,
            band_top(window_height as int) - BORDER_CONFINEMENT_OFFSET,
        ),
{
    let draw_x: u32 = random_draw();
    let mut left: u32 = WAYPOINT_DRAWS;
    while left > 0
        invariant
            center.in_reach(),
            0 <= factor <= MAX_COORD,
            0 <= window_height,
        decreases left,
    {
        let draw_y: u32 = random_draw();
        match waypoint_from_draws(center, factor, draw_x, draw_y, window_height) {
            Some(point) => {
                return point;
            },
            None => {},
        }
        left -= 1;
    }
    Vec2 { x: center.x + spread_draw(draw_x, factor), y: confine(center.y, window_height) }
}

/// What an enemy decides when it picks a new waypoint.
#[derive(Clone, Copy, Debug, PartialEq, Eq, Structural)]
pub enum Plan {
    /// Pick up the character with this index, then wander.
    Capture(usize),
    /// Fly to a waypoint around this point, no further from it than this.
    Approach(Vec2, i64),
    /// Fly to a waypoint around the enemy's own position.
    Wander,
}

impl Plan {
    /// The point around which the waypoint is drawn.
    pub open spec fn center(self, position: Vec2) -> Vec2 {
        match self {
            Plan::Approach(point, _) => point,
            _ => position,
        }
    }

    /// The largest offset of the waypoint from its centre.
    pub open spec fn factor(self) -> int {
        match self {
            Plan::Approach(_, factor) => factor as int,
            _ => MAX_CHANGE as int,
        }
    }

    /// The index of the character that is picked up, if any.
    pub open spec fn captured(self) -> Option<usize> {
        match self {
            Plan::Capture(i) => Some(i),
            _ => None,
        }
    }
}

impl Enemy {
    /// The decision of an enemy at `position`. One that carries a character
    /// wanders, and so does one that finds no character on the ground. Else
    /// the nearest such character counts: within the capture radius of its
    /// pick-up point the enemy picks it up; within the largest offset it
    /// flies straight to the pick-up point; further off it flies to a random
    /// waypoint around that point.
    pub open spec fn plan_spec(self, position: Vec2, persons: Seq<person::Bundle>) -> Plan {
        if self.has_person {
            Plan::Wander
        } else {
            match nearest_grounded_spec(position, persons, persons.len() as int) {
                None => Plan::Wander,
                Some(i) => {
                    let point = pickup_point(persons[i]);
                    let d = point.distance_squared_spec(position);
                    if d < CAPTURE_RADIUS_SQUARED {
                        Plan::Capture(i as usize)
                    } else if d < MAX_CHANGE_SQUARED {
                        Plan::Approach(point, 0)
                    } else {
                        Plan::Approach(point, MAX_CHANGE)
                    }
                },
            }
        }
    }

    /// Decides what the enemy does next.
    pub fn plan(&self, position: Vec2, persons: &Vec<person::Bundle>) -> (p: Plan)
        requires
            position.in_bounds(),
            forall|i: int| 0 <= i < persons.len() ==> (#[trigger] persons[i]).position.in_bounds(),
        ensures
            p == self.plan_spec(position, persons@),
            p.center(position).in_reach(),
            -MAX_COORD <= p.center(position).x <= MAX_COORD,
            0 <= p.factor() <= MAX_CHANGE,
            match p {
                Plan::Capture(i) => i < persons.len(),
                _ => true,
            },
    {
        if self.has_person {
            return Plan::Wander;
        }
        match nearest_grounded(position, persons) {
            None => Plan::Wander,
            Some(i) => {
                let at = persons[i].position;
                let point = Vec2 { x: at.x, y: at.y - person::ENEMY_OFFSET_Y };
                let d: u128 = point.distance_squared(position);
                if d < CAPTURE_RADIUS_SQUARED {
                    Plan::Capture(i)
                } else if d < MAX_CHANGE_SQUARED {
                    Plan::Approach(point, 0)
                } else {
                    Plan::Approach(point, MAX_CHANGE)
                }
            },
        }
    }

    /// Picks a new waypoint once the time for it has come; before that,
    /// nothing changes. The decision is that of `plan_spec`. A character
    /// that is picked up hangs below this enemy from now on, and the enemy
    /// carries it. The waypoint is drawn at random around the plan's centre;
    /// an enemy that carries a character heads for the top of the playing
    /// band instead of the waypoint's altitude. Returns the index of the
    /// character picked up, if any.
    pub fn retarget(
        &mut self,
        entity: Entity,
        position: Vec2,
        now: u64,
        persons: &mut Vec<person::Bundle>,
        window_height: i64,
    ) -> (captured: Option<usize>)
        requires
            position.in_bounds(),
            forall|i: int|
                0 <= i < old(persons).len() ==> (#[trigger] old(persons)[i]).position.in_bounds(),
            0 <= window_height <= MAX_COORD,
            2 * BORDER_CONFINEMENT_OFFSET <= band_top(window_height as int),
            now <= u64::MAX - RETARGET_PERIOD,
        ensures
            final(persons).len() == old(persons).len(),
            old(self).desired_position.in_reach() ==> final(self).desired_position.in_reach(),
            final(self).next_shot == old(self).next_shot,
            final(self).last_outside == old(self).last_outside,
            forall|j: int|
                0 <= j < old(persons).len() && captured != Some(j as usize) ==> final(persons)[j]
                    == old(persons)[j],
            old(self).next_desired_position >= now ==> {
                &&& *final(self) == *old(self)
                &&& captured is None
            },
            old(self).next_desired_position < now ==> {
                let plan = old(self).plan_spec(position, old(persons)@);
                &&& captured == plan.captured()
                &&& final(self).has_person == (old(self).has_person || captured is Some)
                &&& final(self).next_desired_position == now + RETARGET_PERIOD
                &&& -plan.factor() <= final(self).desired_position.x - plan.center(position).x
                    <= plan.factor()
                &&& if final(self).has_person {
                    final(self).desired_position.y == band_top(window_height as int)
                } else {
                    &&& in_band(final(self).desired_position.y as int, window_height as int)
                    &&& -plan.factor() <= final(self).desired_position.y - plan.center(position).y
                        <= plan.factor() || final(self).desired_position.y == clamp_spec(
                        plan.center(position).y as int,
                        BORDER_CONFINEMENT_OFFSET as int,
                        band_top(window_height as int) - BORDER_CONFINEMENT_OFFSET,
                    )
                }
            },
            match captured {
                Some(i) => {
                    &&& i < old(persons).len()
                    &&& final(persons)[i as int].state == CharacterState::CapturedBy(
                        entity,
                        person::enemy_offset(),
                    )
                    &&& final(persons)[i as int].entity == old(persons)[i as int].entity
                    &&& final(persons)[i as int].position == old(persons)[i as int].position
                    &&& final(persons)[i as int].sprite_index == old(persons)[i as int].sprite_index
                    &&& final(persons)[i as int].laser_hit == old(persons)[i as int].laser_hit
                    &&& final(persons)[i as int].player_hit == old(persons)[i as int].player_hit
                },
                None => true,
            },
    {
        if self.next_desired_position >= now {
            return None;
        }
        let plan = self.plan(position, persons);
        let mut captured: Option<usize> = None;
        let waypoint = match plan {
            Plan::Capture(i) => {
                persons[i].state = CharacterState::CapturedBy(
                    entity,
                    Vec2 { x: 0, y: person::ENEMY_OFFSET_Y },
                );
                self.has_person = true;
                captured = Some(i);
                random_waypoint(position, MAX_CHANGE, window_height)
            },
            Plan::Approach(point, factor) => random_waypoint(point, factor, window_height),
            Plan::Wander => random_waypoint(position, MAX_CHANGE, window_height),
        };
        self.desired_position = waypoint;
        if self.has_person {
            self.desired_position.y = playing_band_top(window_height);
        }
        self.next_desired_position = now + RETARGET_PERIOD;
        captured
    }
}

/// The horizontal heading from `start_x` to `end_x` on the wrapped world:
/// the difference of their positions within the world, turned round when it
/// is longer than half the world.
pub open spec fn heading_x(start_x: int, end_x: int) -> int {
    let s = start_x % (SIZE as int);
    let e = end_x % (SIZE as int);
    if e - s > HALF_SIZE || s - e > HALF_SIZE {
        s - e
    } else {
        e - s
    }
}

/// Where an enemy at `position` stands after it has flown toward `desired`
/// for `dt_ms` at the speed of enemies, before its x is projected next to the
/// camera. An enemy that is at its waypoint stays.
pub open spec fn stepped(position: Vec2, desired: Vec2, dt_ms: u32) -> Vec2 {
    let dx = heading_x(position.x as int, desired.x as int);
    let dy = desired.y - position.y;
    let length = sqrt_floor(dx * dx + dy * dy);
    let step = ENEMY_SPEED * dt_ms;
    Vec2 {
        x: (position.x + displacement(dx, length, step)) as i64,
        y: (position.y + displacement(dy, length, step)) as i64,
    }
}

/// Flies one frame toward the waypoint.
pub fn step_toward(position: Vec2, desired: Vec2, dt_ms: u32) -> (r: Vec2)
    requires
        position.in_bounds(),
        desired.in_reach(),
    ensures
        r == stepped(position, desired, dt_ms),
        -ENEMY_SPEED * dt_ms <= r.x - position.x <= ENEMY_SPEED * dt_ms,
        -ENEMY_SPEED * dt_ms <= r.y - position.y <= ENEMY_SPEED * dt_ms,
{
    let s: i64 = my_fract(position.x, SIZE);
    let e: i64 = my_fract(desired.x, SIZE);
    let dx: i64 = if e - s > HALF_SIZE || s - e > HALF_SIZE { s - e } else { e - s };
    let dy: i64 = desired.y - position.y;
    let ax: u128 = if dx < 0 { (-dx) as u128 } else { dx as u128 };
    let ay: u128 = if dy < 0 { (-dy) as u128 } else { dy as u128 };
    assert(ax * ax <= 25_000_000_000_000 && ax * ax == dx * dx) by (nonlinear_arith)
        requires
            0 <= ax <= 5_000_000,
            ax == dx || ax == -dx,
    ;
    assert(ay * ay <= 9_000_000_000_000_000_000_000_000 && ay * ay == dy * dy)
        by (nonlinear_arith)
        requires
            0 <= ay <= 3_000_000_000_000,
            ay == dy || ay == -dy,
    ;
    let n: u128 = ax * ax + ay * ay;
    let length: u128 = isqrt(n);
    proof {
        lemma_side_below_sqrt(ax as int, n as int, length as int);
        lemma_side_below_sqrt(ay as int, n as int, length as int);
    }
    let step: i64 = ENEMY_SPEED * (dt_ms as i64);
    let mx: i64 = displace(dx, length, step);
    let my: i64 = displace(dy, length, step);
    Vec2 { x: position.x + mx, y: position.y + my }
}

/// The accuracy of a shot at `angle`, counted in parts of a turn from the
/// positive x axis: four times the angle's distance from the x axis, so none
/// for a level shot and `TURN` for a shot straight up or down.
pub open spec fn accuracy_spec(angle: int) -> int {
    4 * min_int(min_int(angle, TURN - angle), if angle < TURN / 2 {
        TURN / 2 - angle
    } else {
        angle - TURN / 2
    })
}

/// The accuracy of a shot at the given angle.
pub fn accuracy(angle: u16) -> (v: u32)
    ensures
        v == accuracy_spec(angle as int),
        v <= TURN,
{
    let a: i64 = angle as i64;
    let b: i64 = TURN - a;
    let c: i64 = if a < TURN / 2 { TURN / 2 - a } else { a - TURN / 2 };
    let ab: i64 = if a <= b { a } else { b };
    let m: i64 = if ab <= c { ab } else { c };
    (4 * m) as u32
}

/// Whether a draw lets a shot of the given accuracy go: the draw, read as a
/// share of one, is below the fourth root of the accuracy's share of a turn.
/// The upper sixteen bits of the draw count.
pub open spec fn fires_spec(accuracy: int, draw: u32) -> bool {
    let d = draw as int / 0x1_0000;
    d * d * d * d < accuracy * 0x1_0000_0000_0000
}

/// Decides by a draw whether a shot of the given accuracy goes.
pub fn fires(accuracy: u32, draw: u32) -> (go: bool)
    requires
        accuracy <= TURN,
    ensures
        go == fires_spec(accuracy as int, draw),
{
    let d: u128 = (draw / 0x1_0000) as u128;
    assert(d * d <= 0x1_0000_0000 && d * d * d <= 0x1_0000_0000_0000 && d * d * d * d
        <= 0x1_0000_0000_0000_0000) by (nonlinear_arith)
        requires
            0 <= d < 0x1_0000,
    ;
    let left: u128 = d * d * d * d;
    let right: u128 = (accuracy as u128) * 0x1_0000_0000_0000;
    left < right
}

/// The direction in which an enemy aims, as a vector of any length.
#[derive(Clone, Copy, Debug, PartialEq, Eq, Structural)]
pub struct Aim {
    pub x: i128,
    pub y: i128,
}

/// The weight of the line to the player in the aim: the speed at which a shot
/// is taken to close in, less the speed of an orb, in ticks per second.
pub const AIM_SCALE: i128 = 1_200_000;

/// The direction from an enemy to the point where a shot is taken to meet
/// the player: the line to the player, shortened by what the orb's own speed
/// makes up, plus the way that the player covers meanwhile at its horizontal
/// speed. Where the two cancel out, or the player is right on top of the
/// enemy, the aim is level and to the right.
pub open spec fn aim_spec(position: Vec2, player_position: Vec2, player_speed: int) -> Aim {
    let dx = player_position.x - position.x;
    let dy = player_position.y - position.y;
    let length = sqrt_floor(dx * dx + dy * dy);
    let x = AIM_SCALE * dx + player_speed * length;
    let y = AIM_SCALE * dy;
    if x == 0 && y == 0 {
        Aim { x: 1, y: 0 }
    } else {
        Aim { x: x as i128, y: y as i128 }
    }
}

/// Aims at where the player will be.
pub fn aim(position: Vec2, player_position: Vec2, player_speed: i64) -> (a: Aim)
    requires
        position.in_bounds(),
        player_position.in_bounds(),
        -MAX_SPEED <= player_speed <= MAX_SPEED,
    ensures
        a == aim_spec(position, player_position, player_speed as int),
        a.x != 0 || a.y != 0,
{
    let n: u128 = player_position.distance_squared(position);
    let length: i128 = isqrt(n) as i128;
    let dx: i128 = player_position.x as i128 - position.x as i128;
    let dy: i128 = player_position.y as i128 - position.y as i128;
    let speed: i128 = player_speed as i128;
    assert(-0x8000_0000_0000_0000 * 1_000_000_000 <= speed * length <= 0x8000_0000_0000_0000
        * 1_000_000_000) by (nonlinear_arith)
        requires
            -1_000_000_000 <= speed <= 1_000_000_000,
            0 <= length < 0x8000_0000_0000_0000,
    ;
    let x: i128 = AIM_SCALE * dx + speed * length;
    let y: i128 = AIM_SCALE * dy;
    if x == 0 && y == 0 {
        Aim { x: 1, y: 0 }
    } else {
        Aim { x, y }
    }
}

impl Enemy {
    /// The last time out of view, once this frame is counted.
    pub open spec fn seen_outside(self, in_view: bool, now: u64) -> u64 {
        if in_view {
            self.last_outside
        } else {
            now
        }
    }

    /// Whether the enemy may shoot at `now`: its cooldown has run out and it
    /// has been in view for longer than the delay.
    pub open spec fn may_shoot(self, in_view: bool, now: u64) -> bool {
        self.next_shot < now && self.seen_outside(in_view, now) + VISIBILITY_DELAY < now
    }

    /// The shooting step with the draw given. An enemy out of view notes the
    /// time. One that may shoot starts its cooldown anew, and its shot goes
    /// if the draw lets a shot of this angle's accuracy go.
    pub fn shoot_with(
        &mut self,
        in_view: bool,
        now: u64,
        shot_delay: u64,
        angle: u16,
        draw: u32,
    ) -> (fired: bool)
        requires
            now <= u64::MAX - shot_delay,
        ensures
            fired == (old(self).may_shoot(in_view, now) && fires_spec(
                accuracy_spec(angle as int),
                draw,
            )),
            final(self).last_outside == old(self).seen_outside(in_view, now),
            final(self).next_shot == if old(self).may_shoot(in_view, now) {
                (now + shot_delay) as u64
            } else {
                old(self).next_shot
            },
            final(self).desired_position == old(self).desired_position,
            final(self).next_desired_position == old(self).next_desired_position,
            final(self).has_person == old(self).has_person,
    {
        if !in_view {
            self.last_outside = now;
        }
        let ready: bool = self.next_shot < now && (self.last_outside as u128) + (
        VISIBILITY_DELAY as u128) < now as u128;
        if ready {
            self.next_shot = now + shot_delay;
            fires(accuracy(angle), draw)
        } else {
            false
        }
    }

    /// The shooting step of one frame, with a draw of the generator. Whether
    /// a shot goes is up to the draw, with two exceptions: it never goes
    /// while the enemy may not shoot, nor at an angle without accuracy, and
    /// at full accuracy it goes whenever the enemy may shoot.
    pub fn shoot(&mut self, in_view: bool, now: u64, shot_delay: u64, angle: u16) -> (fired: bool)
        requires
            now <= u64::MAX - shot_delay,
        ensures
            fired ==> old(self).may_shoot(in_view, now) && accuracy_spec(angle as int) > 0,
            old(self).may_shoot(in_view, now) && accuracy_spec(angle as int) == TURN ==> fired,
            final(self).last_outside == old(self).seen_outside(in_view, now),
            final(self).next_shot == if old(self).may_shoot(in_view, now) {
                (now + shot_delay) as u64
            } else {
                old(self).next_shot
            },
            final(self).desired_position == old(self).desired_position,
            final(self).next_desired_position == old(self).next_desired_position,
            final(self).has_person == old(self).has_person,
    {
        let draw: u32 = random_draw();
        proof {
            lemma_fires_bounds(draw);
        }
        self.shoot_with(in_view, now, shot_delay, angle, draw)
    }
}

/// No draw lets a shot without accuracy go, and no draw holds a shot of full
/// accuracy back.
pub proof fn lemma_fires_bounds(draw: u32)
    ensures
        forall|accuracy: int| accuracy <= 0 ==> !#[trigger] fires_spec(accuracy, draw),
        fires_spec(TURN as int, draw),
{
    let d = draw as int / 0x1_0000;
    assert(0 <= d * d * d * d < 0x1_0000_0000_0000_0000) by (nonlinear_arith)
        requires
            0 <= d < 0x1_0000,
    ;
    assert forall|accuracy: int| accuracy <= 0 implies !#[trigger] fires_spec(accuracy, draw) by {
        assert(accuracy * 0x1_0000_0000_0000 <= 0) by (nonlinear_arith)
            requires
                accuracy <= 0,
        ;
    }
}

impl Bundle {
    /// The enemy stands within the supported range and its waypoint within
    /// reach.
    pub open spec fn wf(self) -> bool {
        &&& self.position.in_bounds()
        &&& self.enemy.desired_position.in_reach()
    }

    /// Tests whether the enemy is well formed.
    pub fn is_wf(&self) -> (ok: bool)
        ensures
            ok == self.wf(),
    {
        self.position.within_bounds() && self.enemy.desired_position.within_reach()
    }

    /// The index of the character that the enemy picks up in a frame at
    /// `now`: none before its time to pick a waypoint has come, else the one
    /// that its plan names.
    pub open spec fn picks_up(self, persons: Seq<person::Bundle>, now: u64) -> Option<usize> {
        if self.enemy.next_desired_position < now {
            self.enemy.plan_spec(self.position, persons).captured()
        } else {
            None
        }
    }

    /// Whether `after` and `persons_after` are what one frame of flight at
    /// `now` can leave of this enemy and of `persons_before`.
    ///
    /// The enemy keeps its id, its variant, its hits and its shooting timers.
    /// Before its time to pick a waypoint has come it keeps its plan, and no
    /// character changes. Once the time has come, its plan is that of
    /// `plan_spec`: the character that the plan captures, and no other,
    /// hangs below this enemy from now on, and the enemy carries it; the next
    /// choice is due a period later; the waypoint lies no further from the
    /// plan's centre than the plan's factor along the x axis, and either at
    /// the top of the playing band, for an enemy that carries a character, or
    /// inside the band and no further than the factor from the centre's
    /// altitude (or at that altitude moved into the band). Then the enemy
    /// flies toward its waypoint for `dt_ms`, and its x is projected next to
    /// the camera.
    pub open spec fn flown_one(
        self,
        after: Bundle,
        persons_before: Seq<person::Bundle>,
        persons_after: Seq<person::Bundle>,
        now: u64,
        dt_ms: u32,
        window_height: int,
        scroll: MapScroll,
    ) -> bool {
        let captured = self.picks_up(persons_before, now);
        let plan = self.enemy.plan_spec(self.position, persons_before);
        let flown = stepped(self.position, after.enemy.desired_position, dt_ms);
        &&& after.entity == self.entity
        &&& after.variant_data == self.variant_data
        &&& after.laser_hit == self.laser_hit
        &&& after.player_hit == self.player_hit
        &&& after.enemy.next_shot == self.enemy.next_shot
        &&& after.enemy.last_outside == self.enemy.last_outside
        &&& after.position.x == scroll.update_spec(flown.x as int)
        &&& after.position.y == flown.y
        &&& persons_after.len() == persons_before.len()
        &&& forall|i: int|
            0 <= i < persons_before.len() ==> #[trigger] persons_after[i] == if captured == Some(
                i as usize,
            ) {
                persons_before[i].carried_by_enemy(self.entity)
            } else {
                persons_before[i]
            }
        &&& match captured {
            Some(i) => i < persons_before.len(),
            None => true,
        }
        &&& self.enemy.next_desired_position >= now ==> after.enemy == self.enemy
        &&& self.enemy.next_desired_position < now ==> {
            &&& after.enemy.has_person == (self.enemy.has_person || captured is Some)
            &&& after.enemy.next_desired_position == now + RETARGET_PERIOD
            &&& -plan.factor() <= after.enemy.desired_position.x - plan.center(self.position).x
                <= plan.factor()
            &&& if after.enemy.has_person {
                after.enemy.desired_position.y == band_top(window_height)
            } else {
                &&& in_band(after.enemy.desired_position.y as int, window_height)
                &&& -plan.factor() <= after.enemy.desired_position.y - plan.center(
                    self.position,
                ).y <= plan.factor() || after.enemy.desired_position.y == clamp_spec(
                    plan.center(self.position).y as int,
                    BORDER_CONFINEMENT_OFFSET as int,
                    band_top(window_height) - BORDER_CONFINEMENT_OFFSET,
                )
            }
        }
    }

    /// One frame of flight: the enemy picks a new waypoint if it is time to
    /// (see `Enemy::retarget`), flies toward its waypoint and is projected
    /// next to the camera; `flown_one` says what that leaves. Returns the
    /// index of the character picked up, if any.
    pub fn movement(
        &mut self,
        now: u64,
        dt_ms: u32,
        persons: &mut Vec<person::Bundle>,
        window_height: i64,
        scroll: &MapScroll,
    ) -> (captured: Option<usize>)
        requires
            old(self).wf(),
            scroll.wf(),
            forall|i: int|
                0 <= i < old(persons).len() ==> (#[trigger] old(persons)[i]).position.in_bounds(),
            0 <= window_height <= MAX_COORD,
            2 * BORDER_CONFINEMENT_OFFSET <= band_top(window_height as int),
            now <= u64::MAX - RETARGET_PERIOD,
        ensures
            captured == old(self).picks_up(old(persons)@, now),
            old(self).flown_one(
                *final(self),
                old(persons)@,
                final(persons)@,
                now,
                dt_ms,
                window_height as int,
                *scroll,
            ),
            final(self).enemy.desired_position.in_reach(),
            final(self).position.in_reach(),
            -MAX_COORD <= final(self).position.x <= MAX_COORD,
            -HALF_SIZE <= final(self).position.x - scroll.real_camera_x <= HALF_SIZE,
    {
        let captured = self.enemy.retarget(self.entity, self.position, now, persons, window_height);
        let moved = step_toward(self.position, self.enemy.desired_position, dt_ms);
        assert(ENEMY_SPEED * dt_ms <= 100 * 0x1_0000_0000) by (nonlinear_arith)
            requires
                dt_ms < 0x1_0000_0000,
        ;
        self.position = Vec2 { x: scroll.update(moved.x), y: moved.y };
        captured
    }

    /// Whether the enemy delivers a character: it carries one and has come
    /// within one unit of the highest altitude that the band allows.
    pub open spec fn delivers(self, window_height: int) -> bool {
        self.enemy.has_person && self.position.y > band_top(window_height) - (
        BORDER_CONFINEMENT_OFFSET + UNIT)
    }

    /// The variant swap: an enemy that delivers a character gives way to a
    /// mutant at the same position, which carries nothing and starts anew.
    /// `None` for an enemy that does not deliver.
    pub fn mutant_transform(&self, window_height: i64, entity: Entity) -> (r: Option<Bundle>)
        requires
            0 <= window_height,
        ensures
            r is Some == self.delivers(window_height as int),
            match r {
                Some(b) => {
                    &&& b.entity == entity
                    &&& b.position == self.position
                    &&& b.enemy == (Enemy {
                        desired_position: self.position,
                        next_shot: 0,
                        next_desired_position: 0,
                        last_outside: 0,
                        has_person: false,
                    })
                    &&& b.variant_data == Mutant::data_spec()
                    &&& b.laser_hit.hit_entity is None
                    &&& b.player_hit.hit_entity is None
                    &&& b.laser_hit.hitbox == Mutant::data_spec().bound
                    &&& b.player_hit.hitbox == Mutant::data_spec().bound
                },
                None => true,
            },
    {
        let top: i64 = playing_band_top(window_height);
        if self.enemy.has_person && self.position.y as i128 > top as i128 - (
        BORDER_CONFINEMENT_OFFSET as i128 + UNIT as i128) {
            Some(bundle::<Mutant>(entity, self.position, false))
        } else {
            None
        }
    }
}

impl Bundle {
    /// The enemy without the character that it carried.
    pub open spec fn released(self) -> Bundle {
        Bundle { enemy: Enemy { has_person: false, ..self.enemy }, ..self }
    }
}

/// Makes the enemy with the given id let go of the character that it
/// carries; the other enemies are left as they are.
pub fn release_person(enemies: &mut Vec<Bundle>, entity: Entity)
    ensures
        final(enemies).len() == old(enemies).len(),
        forall|j: int|
            0 <= j < old(enemies).len() ==> #[trigger] final(enemies)[j] == if old(
                enemies,
            )[j].entity == entity {
                old(enemies)[j].released()
            } else {
                old(enemies)[j]
            },
{
    let mut j: usize = 0;
    while j < enemies.len()
        invariant
            0 <= j <= enemies.len(),
            enemies.len() == old(enemies).len(),
            forall|k: int| j <= k < enemies.len() ==> enemies[k] == old(enemies)[k],
            forall|k: int|
                0 <= k < j ==> #[trigger] enemies[k] == if old(enemies)[k].entity == entity {
                    old(enemies)[k].released()
                } else {
                    old(enemies)[k]
                },
        decreases enemies.len() - j,
    {
        if enemies[j].entity == entity {
            enemies[j].enemy.has_person = false;
        }
        j += 1;
    }
}

/// The detection of one frame for every enemy: lasers and the player's craft
/// are tested against each (see `Hittable::detect`).
pub fn detect_hits(
    enemies: &mut Vec<Bundle>,
    view: Viewport,
    lasers: &Vec<Striker>,
    crafts: &Vec<Striker>,
)
    ensures
        final(enemies).len() == old(enemies).len(),
        forall|i: int|
            0 <= i < old(enemies).len() ==> {
                let before = old(enemies)[i];
                &&& (#[trigger] final(enemies)[i]).laser_hit.hit_entity
                    == before.laser_hit.detected(view, lasers@, before.position)
                &&& final(enemies)[i].player_hit.hit_entity == before.player_hit.detected(
                    view,
                    crafts@,
                    before.position,
                )
                &&& final(enemies)[i].laser_hit.hitbox == before.laser_hit.hitbox
                &&& final(enemies)[i].player_hit.hitbox == before.player_hit.hitbox
                &&& final(enemies)[i].enemy == before.enemy
                &&& final(enemies)[i].position == before.position
                &&& final(enemies)[i].entity == before.entity
                &&& final(enemies)[i].variant_data == before.variant_data
            },
{
    let mut i: usize = 0;
    while i < enemies.len()
        invariant
            0 <= i <= enemies.len(),
            enemies.len() == old(enemies).len(),
            forall|j: int| i <= j < enemies.len() ==> enemies[j] == old(enemies)[j],
            forall|j: int|
                0 <= j < i ==> {
                    let before = old(enemies)[j];
                    &&& (#[trigger] enemies[j]).laser_hit.hit_entity == before.laser_hit.detected(
                        view,
                        lasers@,
                        before.position,
                    )
                    &&& enemies[j].player_hit.hit_entity == before.player_hit.detected(
                        view,
                        crafts@,
                        before.position,
                    )
                    &&& enemies[j].laser_hit.hitbox == before.laser_hit.hitbox
                    &&& enemies[j].player_hit.hitbox == before.player_hit.hitbox
                    &&& enemies[j].enemy == before.enemy
                    &&& enemies[j].position == before.position
                    &&& enemies[j].entity == before.entity
                    &&& enemies[j].variant_data == before.variant_data
                },
        decreases enemies.len() - i,
    {
        let at = enemies[i].position;
        enemies[i].laser_hit.detect(view, lasers, at);
        enemies[i].player_hit.detect(view, crafts, at);
        i += 1;
    }
}

/// The enemies among the first `n` that no laser has hit, in order.
pub open spec fn laser_survivors(enemies: Seq<Bundle>, n: int) -> Seq<Bundle>
    decreases n,
{
    if n <= 0 || n > enemies.len() {
        Seq::empty()
    } else if enemies[n - 1].laser_hit.hit_entity is None {
        laser_survivors(enemies, n - 1).push(enemies[n - 1])
    } else {
        laser_survivors(enemies, n - 1)
    }
}

/// The explosions of the enemies among the first `n` that a laser has hit,
/// in order: one at the position of each.
pub open spec fn laser_kills(enemies: Seq<Bundle>, n: int) -> Seq<At>
    decreases n,
{
    if n <= 0 || n > enemies.len() {
        Seq::empty()
    } else if enemies[n - 1].laser_hit.hit_entity is Some {
        laser_kills(enemies, n - 1).push(At { position: enemies[n - 1].position })
    } else {
        laser_kills(enemies, n - 1)
    }
}

/// The reaction to the laser hits of this frame: every enemy that was hit is
/// removed, scores one point, leaves an explosion where it was and is taken
/// off the count of live enemies. The others stay, in their order.
pub fn laser_hit(
    enemies: &mut Vec<Bundle>,
    score: &mut Score,
    count: &mut EnemiesCount,
    explosions: &mut Vec<At>,
)
    requires
        old(enemies).len() == old(count).count,
    ensures
        final(enemies)@ == laser_survivors(old(enemies)@, old(enemies).len() as int),
        final(explosions)@ == old(explosions)@ + laser_kills(
            old(enemies)@,
            old(enemies).len() as int,
        ),
        final(score).value == capped_sum(
            old(score).value as int,
            old(enemies).len() - final(enemies).len(),
        ),
        final(count).count == old(count).count - (old(enemies).len() - final(enemies).len()),
        final(count).wave == old(count).wave,
        final(enemies).len() == final(count).count,
        final(enemies).len() <= old(enemies).len(),
{
    let mut kept: Vec<Bundle> = Vec::new();
    let mut i: usize = 0;
    while i < enemies.len()
        invariant
            0 <= i <= enemies.len(),
            *enemies == *old(enemies),
            kept@ == laser_survivors(enemies@, i as int),
            explosions@ == old(explosions)@ + laser_kills(enemies@, i as int),
            kept.len() <= i,
            score.value == capped_sum(old(score).value as int, i - kept.len()),
            count.count == old(count).count - (i - kept.len()),
            count.wave == old(count).wave,
            enemies.len() == old(count).count,
        decreases enemies.len() - i,
    {
        let enemy = enemies[i];
        if enemy.laser_hit.hit_entity.is_some() {
            score.award(1);
            count.count = count.count - 1;
            explosions.push(At { position: enemy.position });
            assert(explosions@ =~= old(explosions)@ + laser_kills(enemies@, i + 1));
        } else {
            kept.push(enemy);
        }
        i += 1;
    }
    *enemies = kept;
}

/// The index, from `from` on, of the first enemy that has run into the
/// given entity.
pub open spec fn first_rammer(enemies: Seq<Bundle>, from: int, player: Entity) -> Option<int>
    decreases enemies.len() - from,
{
    if from < 0 || from >= enemies.len() {
        None
    } else if enemies[from].player_hit.hit_entity == Some(player) {
        Some(from)
    } else {
        first_rammer(enemies, from + 1, player)
    }
}

/// The reaction to an enemy that has run into the player. Without a live
/// player, or with no enemy that touches it, nothing happens. Else the first
/// such enemy is removed and taken off the count, explosions are left where
/// the player was and where the enemy was, and the round is over.
pub fn player_hit(
    enemies: &mut Vec<Bundle>,
    player: Option<Located>,
    count: &mut EnemiesCount,
    explosions: &mut Vec<At>,
) -> (over: Option<GameOver>)
    requires
        old(enemies).len() == old(count).count,
    ensures
        final(count).wave == old(count).wave,
        final(enemies).len() == final(count).count,
        match player {
            Some(p) => match first_rammer(old(enemies)@, 0, p.entity) {
                Some(i) => {
                    &&& over is Some
                    &&& final(enemies)@ == old(enemies)@.remove(i)
                    &&& final(count).count == old(count).count - 1
                    &&& final(explosions)@ == old(explosions)@.push(At { position: p.position }).push(
                        At { position: old(enemies)[i].position },
                    )
                },
                None => {
                    &&& over is None
                    &&& final(enemies)@ == old(enemies)@
                    &&& *final(count) == *old(count)
                    &&& final(explosions)@ == old(explosions)@
                },
            },
            None => {
                &&& over is None
                &&& final(enemies)@ == old(enemies)@
                &&& *final(count) == *old(count)
                &&& final(explosions)@ == old(explosions)@
            },
        },
{
    if player.is_none() {
        return None;
    }
    let p: Located = player.unwrap();
    let mut i: usize = 0;
    while i < enemies.len()
        invariant
            0 <= i <= enemies.len(),
            *enemies == *old(enemies),
            *count == *old(count),
            *explosions == *old(explosions),
            enemies.len() == count.count,
            player == Some(p),
            first_rammer(enemies@, 0, p.entity) == first_rammer(enemies@, i as int, p.entity),
        decreases enemies.len() - i,
    {
        let hit = enemies[i].player_hit.hit_entity;
        let touches = match hit {
            Some(e) => e == p.entity,
            None => false,
        };
        if touches {
            assert(first_rammer(enemies@, i as int, p.entity) == Some(i as int));
            let enemy = enemies.remove(i);
            count.count = count.count - 1;
            explosions.push(At { position: p.position });
            explosions.push(At { position: enemy.position });
            return Some(GameOver);
        }
        i += 1;
    }
    None
}

/// Whether a character is as it was, or was on the ground and has been
/// picked up by one of the enemies.
pub open spec fn kept_or_captured(
    before: person::Bundle,
    after: person::Bundle,
    enemies: Seq<Bundle>,
) -> bool {
    after == before || (before.state == CharacterState::Grounded && exists|j: int|
        0 <= j < enemies.len() && after == before.carried_by_enemy((#[trigger] enemies[j]).entity))
}

/// Whether `after` and `persons_after` are what one frame of flight of every
/// enemy, in order, can leave of `before` and `persons_before`: enemy `j`
/// finds the characters as `tables[j]` has them and leaves them as
/// `tables[j + 1]` has them (see `Bundle::flown_one`).
pub open spec fn flown_all(
    before: Seq<Bundle>,
    after: Seq<Bundle>,
    persons_before: Seq<person::Bundle>,
    persons_after: Seq<person::Bundle>,
    tables: Seq<Seq<person::Bundle>>,
    now: u64,
    dt_ms: u32,
    window_height: int,
    scroll: MapScroll,
) -> bool {
    &&& after.len() == before.len()
    &&& tables.len() == before.len() + 1
    &&& tables[0] == persons_before
    &&& tables[before.len() as int] == persons_after
    &&& forall|j: int|
        0 <= j < before.len() ==> before[j].flown_one(
            #[trigger] after[j],
            tables[j],
            tables[j + 1],
            now,
            dt_ms,
            window_height,
            scroll,
        )
}

/// One frame of flight of every enemy, in order: each does what
/// `Bundle::movement` does, on the characters as the enemies before it have
/// left them. So an enemy picks up the character that its plan names among
/// the characters still on the ground when its turn comes. Every enemy ends
/// next to the camera. Every character keeps its place, and its state
/// changes only where an enemy picks it up from the ground; while no enemy
/// is due to pick a waypoint, no character changes at all.
pub fn movement(
    enemies: &mut Vec<Bundle>,
    now: u64,
    dt_ms: u32,
    persons: &mut Vec<person::Bundle>,
    window_height: i64,
    scroll: &MapScroll,
)
    requires
        scroll.wf(),
        forall|j: int| 0 <= j < old(enemies).len() ==> (#[trigger] old(enemies)[j]).wf(),
        forall|i: int|
            0 <= i < old(persons).len() ==> (#[trigger] old(persons)[i]).position.in_bounds(),
        0 <= window_height <= MAX_COORD,
        2 * BORDER_CONFINEMENT_OFFSET <= band_top(window_height as int),
        now <= u64::MAX - RETARGET_PERIOD,
    ensures
        final(enemies).len() == old(enemies).len(),
        final(persons).len() == old(persons).len(),
        exists|tables: Seq<Seq<person::Bundle>>|
            flown_all(
                old(enemies)@,
                final(enemies)@,
                old(persons)@,
                final(persons)@,
                tables,
                now,
                dt_ms,
                window_height as int,
                *scroll,
            ),
        (forall|j: int|
            0 <= j < old(enemies).len() ==> (#[trigger] old(enemies)[j]).enemy.next_desired_position
                >= now) ==> final(persons)@ == old(persons)@,
        forall|j: int|
            0 <= j < old(enemies).len() ==> {
                &&& (#[trigger] final(enemies)[j]).enemy.desired_position.in_reach()
                &&& final(enemies)[j].position.in_reach()
                &&& -HALF_SIZE <= final(enemies)[j].position.x - scroll.real_camera_x <= HALF_SIZE
            },
        forall|i: int|
            0 <= i < old(persons).len() ==> kept_or_captured(
                old(persons)[i],
                #[trigger] final(persons)[i],
                old(enemies)@,
            ),
{
    let ghost mut tables: Seq<Seq<person::Bundle>> = seq![persons@];
    let mut j: usize = 0;
    while j < enemies.len()
        invariant
            0 <= j <= enemies.len(),
            enemies.len() == old(enemies).len(),
            persons.len() == old(persons).len(),
            scroll.wf(),
            0 <= window_height <= MAX_COORD,
            2 * BORDER_CONFINEMENT_OFFSET <= band_top(window_height as int),
            now <= u64::MAX - RETARGET_PERIOD,
            tables.len() == j + 1,
            tables[0] == old(persons)@,
            tables[j as int] == persons@,
            forall|k: int| j <= k < enemies.len() ==> enemies[k] == old(enemies)[k],
            forall|k: int| 0 <= k < old(enemies).len() ==> (#[trigger] old(enemies)[k]).wf(),
            forall|i: int| 0 <= i < persons.len() ==> (#[trigger] persons[i]).position.in_bounds(),
            forall|k: int|
                0 <= k < j ==> {
                    &&& old(enemies)[k].flown_one(
                        #[trigger] enemies[k],
                        tables[k],
                        tables[k + 1],
                        now,
                        dt_ms,
                        window_height as int,
                        *scroll,
                    )
                    &&& enemies[k].enemy.desired_position.in_reach()
                    &&& enemies[k].position.in_reach()
                    &&& -HALF_SIZE <= enemies[k].position.x - scroll.real_camera_x <= HALF_SIZE
                },
            (forall|k: int|
                0 <= k < j ==> (#[trigger] old(enemies)[k]).enemy.next_desired_position >= now)
                ==> persons@ == old(persons)@,
            forall|i: int|
                0 <= i < old(persons).len() ==> kept_or_captured(
                    old(persons)[i],
                    #[trigger] persons[i],
                    old(enemies)@,
                ),
        decreases enemies.len() - j,
    {
        let ghost before = persons@;
        let ghost earlier = tables;
        let captured = enemies[j].movement(now, dt_ms, persons, window_height, scroll);
        proof {
            tables = tables.push(persons@);
            assert forall|k: int| 0 <= k < j + 1 implies old(enemies)[k].flown_one(
                #[trigger] enemies[k],
                tables[k],
                tables[k + 1],
                now,
                dt_ms,
                window_height as int,
                *scroll,
            ) by {
                if k < j {
                    assert(tables[k] == earlier[k]);
                    assert(tables[k + 1] == earlier[k + 1]);
                }
            }
            if old(enemies)[j as int].enemy.next_desired_position >= now {
                assert(persons@ =~= before);
            }
            assert forall|i: int| 0 <= i < old(persons).len() implies kept_or_captured(
                old(persons)[i],
                #[trigger] persons[i],
                old(enemies)@,
            ) by {
                if captured == Some(i as usize) {
                    assert(kept_or_captured(old(persons)[i], before[i], old(enemies)@));
                    assert(before[i].state == CharacterState::Grounded) by {
                        lemma_nearest_is_minimal(
                            old(enemies)[j as int].position,
                            before,
                            before.len() as int,
                        );
                    }
                    assert(old(enemies)@[j as int].entity == old(enemies)[j as int].entity);
                    assert(persons[i] == before[i].carried_by_enemy(old(enemies)@[j as int].entity));
                } else {
                    assert(persons[i] == before[i]);
                }
            }
        }
        j += 1;
    }
    proof {
        assert(flown_all(
            old(enemies)@,
            enemies@,
            old(persons)@,
            persons@,
            tables,
            now,
            dt_ms,
            window_height as int,
            *scroll,
        ));
    }
}

/// The variant swap of every enemy that delivers a character (see
/// `Bundle::mutant_transform`): each gives way, at its place in the table, to
/// a mutant with the next free id. The other enemies stay as they are.
pub fn mutant_transform(enemies: &mut Vec<Bundle>, window_height: i64, next_entity: &mut Entity)
    requires
        0 <= window_height,
        *old(next_entity) + old(enemies).len() <= u64::MAX,
    ensures
        final(enemies).len() == old(enemies).len(),
        *old(next_entity) <= *final(next_entity) <= *old(next_entity) + old(enemies).len(),
        forall|j: int|
            0 <= j < old(enemies).len() ==> if old(enemies)[j].delivers(window_height as int) {
                &&& *old(next_entity) <= (#[trigger] final(enemies)[j]).entity < *final(next_entity)
                &&& final(enemies)[j].position == old(enemies)[j].position
                &&& final(enemies)[j].enemy == (Enemy {
                    desired_position: old(enemies)[j].position,
                    next_shot: 0,
                    next_desired_position: 0,
                    last_outside: 0,
                    has_person: false,
                })
                &&& final(enemies)[j].variant_data == Mutant::data_spec()
                &&& final(enemies)[j].laser_hit.hit_entity is None
                &&& final(enemies)[j].player_hit.hit_entity is None
            } else {
                final(enemies)[j] == old(enemies)[j]
            },
{
    let mut j: usize = 0;
    while j < enemies.len()
        invariant
            0 <= j <= enemies.len(),
            enemies.len() == old(enemies).len(),
            0 <= window_height,
            *old(next_entity) + old(enemies).len() <= u64::MAX,
            *old(next_entity) <= *next_entity <= *old(next_entity) + j,
            forall|k: int| j <= k < enemies.len() ==> enemies[k] == old(enemies)[k],
            forall|k: int|
                0 <= k < j ==> if old(enemies)[k].delivers(window_height as int) {
                    &&& *old(next_entity) <= (#[trigger] enemies[k]).entity < *next_entity
                    &&& enemies[k].position == old(enemies)[k].position
                    &&& enemies[k].enemy == (Enemy {
                        desired_position: old(enemies)[k].position,
                        next_shot: 0,
                        next_desired_position: 0,
                        last_outside: 0,
                        has_person: false,
                    })
                    &&& enemies[k].variant_data == Mutant::data_spec()
                    &&& enemies[k].laser_hit.hit_entity is None
                    &&& enemies[k].player_hit.hit_entity is None
                } else {
                    enemies[k] == old(enemies)[k]
                },
        decreases enemies.len() - j,
    {
        match enemies[j].mutant_transform(window_height, *next_entity) {
            Some(mutant) => {
                enemies[j] = mutant;
                *next_entity = *next_entity + 1;
            },
            None => {},
        }
        j += 1;
    }
}

/// What the shooting step leaves of an enemy's timers (see
/// `Enemy::shoot`): the enemy itself, with the time noted if it is out of
/// view and its cooldown started anew if it may shoot.
pub open spec fn shot_timers(before: Bundle, camera_x: int, window_width: int, now: u64) -> Bundle {
    let in_view = visible_spec(before.position.x as int, camera_x, window_width);
    Bundle {
        enemy: Enemy {
            last_outside: before.enemy.seen_outside(in_view, now),
            next_shot: if before.enemy.may_shoot(in_view, now) {
                (now + before.variant_data.shot_delay) as u64
            } else {
                before.enemy.next_shot
            },
            ..before.enemy
        },
        ..before
    }
}

/// Whether enemy `j` may shoot in this frame.
pub open spec fn may_shoot_at(
    enemies: Seq<Bundle>,
    j: int,
    camera_x: int,
    window_width: int,
    now: u64,
) -> bool {
    enemies[j].enemy.may_shoot(
        visible_spec(enemies[j].position.x as int, camera_x, window_width),
        now,
    )
}

/// The shooting step of every enemy, in order: enemy `j` aims at `angles[j]`
/// (see `Enemy::shoot`). Without a live player nothing happens. Returns the
/// indices of the enemies whose shot goes, in rising order, so each enemy
/// shoots once at most. Whether a shot goes is up to the generator, but for a
/// shot of full accuracy, which goes whenever its enemy may shoot; the timers
/// of every enemy are set as `Enemy::shoot` says.
pub fn shoot_player(
    enemies: &mut Vec<Bundle>,
    angles: &Vec<u16>,
    player_alive: bool,
    camera_x: i64,
    window_width: i64,
    now: u64,
) -> (shots: Vec<usize>)
    requires
        player_alive ==> angles.len() == old(enemies).len(),
        forall|j: int|
            0 <= j < old(enemies).len() ==> now <= u64::MAX - (#[trigger] old(
                enemies,
            )[j]).variant_data.shot_delay,
    ensures
        final(enemies).len() == old(enemies).len(),
        !player_alive ==> final(enemies)@ == old(enemies)@ && shots.len() == 0,
        forall|a: int, b: int| 0 <= a < b < shots.len() ==> shots[a] < shots[b],
        forall|s: int|
            0 <= s < shots.len() ==> (#[trigger] shots[s]) < old(enemies).len() && may_shoot_at(
                old(enemies)@,
                shots[s] as int,
                camera_x as int,
                window_width as int,
                now,
            ) && accuracy_spec(angles[shots[s] as int] as int) > 0,
        player_alive ==> forall|j: int|
            0 <= j < old(enemies).len() && may_shoot_at(
                old(enemies)@,
                j,
                camera_x as int,
                window_width as int,
                now,
            ) && accuracy_spec(#[trigger] angles[j] as int) == TURN ==> shots@.contains(j as usize),
        player_alive ==> forall|j: int|
            0 <= j < old(enemies).len() ==> #[trigger] final(enemies)[j] == shot_timers(
                old(enemies)[j],
                camera_x as int,
                window_width as int,
                now,
            ),
{
    let mut shots: Vec<usize> = Vec::new();
    if !player_alive {
        return shots;
    }
    let mut j: usize = 0;
    while j < enemies.len()
        invariant
            0 <= j <= enemies.len(),
            enemies.len() == old(enemies).len(),
            angles.len() == enemies.len(),
            forall|k: int|
                0 <= k < old(enemies).len() ==> now <= u64::MAX - (#[trigger] old(
                    enemies,
                )[k]).variant_data.shot_delay,
            forall|k: int| j <= k < enemies.len() ==> enemies[k] == old(enemies)[k],
            forall|a: int, b: int| 0 <= a < b < shots.len() ==> shots[a] < shots[b],
            forall|s: int|
                0 <= s < shots.len() ==> (#[trigger] shots[s]) < j && may_shoot_at(
                    old(enemies)@,
                    shots[s] as int,
                    camera_x as int,
                    window_width as int,
                    now,
                ) && accuracy_spec(angles[shots[s] as int] as int) > 0,
            forall|k: int|
                0 <= k < j && may_shoot_at(
                    old(enemies)@,
                    k,
                    camera_x as int,
                    window_width as int,
                    now,
                ) && accuracy_spec(#[trigger] angles[k] as int) == TURN ==> shots@.contains(
                    k as usize,
                ),
            forall|k: int|
                0 <= k < j ==> #[trigger] enemies[k] == shot_timers(
                    old(enemies)[k],
                    camera_x as int,
                    window_width as int,
                    now,
                ),
        decreases enemies.len() - j,
    {
        let in_view = visible(enemies[j].position.x, camera_x, window_width);
        let delay = enemies[j].variant_data.shot_delay;
        let angle = angles[j];
        let ghost earlier = shots@;
        if enemies[j].enemy.shoot(in_view, now, delay, angle) {
            shots.push(j);
            assert(shots@[shots.len() - 1] == j);
        }
        proof {
            assert forall|k: int|
                0 <= k < j && may_shoot_at(
                    old(enemies)@,
                    k,
                    camera_x as int,
                    window_width as int,
                    now,
                ) && accuracy_spec(#[trigger] angles[k] as int) == TURN implies shots@.contains(
                k as usize,
            ) by {
                let at = choose|s: int| 0 <= s < earlier.len() && earlier[s] == k as usize;
                assert(shots@[at] == k as usize);
            }
        }
        j += 1;
    }
    shots
}

} // verus!
