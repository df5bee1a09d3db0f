use vstd::prelude::*;
use crate::enemy;
use crate::hit::Hittable;
use crate::hit::Striker;
use crate::hit::Viewport;
use crate::player::Player;
use crate::projectile::Laser;
use crate::score::Score;
use crate::style::GROUND_Y;
use crate::style::PERSON_BOUND_X;
use crate::style::PERSON_BOUND_Y;
use crate::utils::Entity;
use crate::utils::Located;
use crate::utils::Vec2;
use crate::utils::find_position;
use crate::utils::position_of;

verus! {

/// How far below an enemy the character that it carries hangs, in ticks.
pub const ENEMY_OFFSET_Y: i64 = -40_000;

/// How far below the player's craft a rescued character hangs, in ticks.
pub const PLAYER_OFFSET_Y: i64 = -20_000;

/// The speed of a falling character, in ticks per millisecond.
pub const FALL_SPEED: i64 = 50;

/// The score for taking a character aboard.
pub const RESCUE_SCORE: u32 = 100;

/// The time that one frame of the idle animation shows, in milliseconds.
pub const FRAME_PERIOD: u32 = 100;

/// The last frame of the idle animation.
pub const LAST_FRAME: usize = 44;

/// The frame shown while a character is carried.
pub const CARRIED_FRAME: usize = 0;

/// The frame shown while a character falls.
pub const FALLING_FRAME: usize = 4;

/// Marks a ground character.
#[derive(Clone, Copy, Debug, PartialEq, Eq, Structural)]
pub struct Person;

/// What a ground character is doing.
#[derive(Clone, Copy, Debug, PartialEq, Eq, Structural)]
pub enum CharacterState {
    /// Carried by the given entity, at the given offset from it.
    CapturedBy(Entity, Vec2),
    Falling,
    Grounded,
}

/// The repeating timer that advances the idle animation.
#[derive(Clone, Copy, Debug, PartialEq, Eq, Structural)]
pub struct AnimationTimer {
    /// The time since the period last ran out, below the period.
    pub elapsed_ms: u32,
    /// Whether the period ran out during the last tick.
    pub just_finished: bool,
}

impl AnimationTimer {
    pub open spec fn wf(self) -> bool {
        self.elapsed_ms < FRAME_PERIOD
    }

    /// Tests whether the timer is well formed.
    pub fn is_wf(&self) -> (ok: bool)
        ensures
            ok == self.wf(),
    {
        self.elapsed_ms < FRAME_PERIOD
    }

    /// A timer at the start of its period.
    pub fn new() -> (t: AnimationTimer)
        ensures
            t.wf(),
            t.elapsed_ms == 0,
            !t.just_finished,
    {
        AnimationTimer { elapsed_ms: 0, just_finished: false }
    }

    /// Lets `dt_ms` milliseconds pass: the timer finishes when the time
    /// gathered reaches the period, and keeps what is left over.
    pub fn tick(&mut self, dt_ms: u32)
        requires
            old(self).wf(),
        ensures
            final(self).wf(),
            final(self).just_finished == (old(self).elapsed_ms + dt_ms >= FRAME_PERIOD),
            final(self).elapsed_ms == (old(self).elapsed_ms + dt_ms) % (FRAME_PERIOD as int),
    {
        let total: u64 = self.elapsed_ms as u64 + dt_ms as u64;
        self.just_finished = total >= FRAME_PERIOD as u64;
        self.elapsed_ms = (total % (FRAME_PERIOD as u64)) as u32;
    }
}

/// The fixed offset at which an enemy carries a character.
pub open spec fn enemy_offset() -> Vec2 {
    Vec2 { x: 0, y: ENEMY_OFFSET_Y }
}

/// The fixed offset at which the player carries a character.
pub open spec fn player_offset() -> Vec2 {
    Vec2 { x: 0, y: PLAYER_OFFSET_Y }
}

/// The altitude of a falling character after `dt_ms`, stopped at the ground.
pub open spec fn fallen_y(y: int, dt_ms: int) -> int {
    if y - FALL_SPEED * dt_ms < GROUND_Y {
        GROUND_Y as int
    } else {
        y - FALL_SPEED * dt_ms
    }
}

/// The idle frame that follows `index`.
pub open spec fn next_frame(index: int) -> int {
    if index + 1 > LAST_FRAME {
        0
    } else {
        index + 1
    }
}

/// What a reaction to a laser hit did to a character.
#[derive(Clone, Copy, Debug, PartialEq, Eq, Structural)]
pub enum LaserReaction {
    /// The character lives on.
    Spared,
    /// The character is destroyed; the entity that carried it, if any, has to
    /// let go of it.
    Destroyed(Option<Entity>),
}

/// A ground character with all that belongs to it.
#[derive(Clone, Copy, Debug)]
pub struct Bundle {
    pub entity: Entity,
    pub position: Vec2,
    pub state: CharacterState,
    pub sprite_index: usize,
    pub person: Person,
    pub laser_hit: Hittable<Laser>,
    pub player_hit: Hittable<Player>,
}

/// A new character at `position` in the given state, with no hit recorded.
pub fn bundle(entity: Entity, position: Vec2, state: CharacterState) -> (b: Bundle)
    ensures
        b.entity == entity,
        b.position == position,
        b.state == state,
        b.sprite_index == 0,
        b.laser_hit.hit_entity is None,
        b.player_hit.hit_entity is None,
        b.laser_hit.hitbox == (Vec2 { x: PERSON_BOUND_X, y: PERSON_BOUND_Y }),
        b.player_hit.hitbox == (Vec2 { x: PERSON_BOUND_X, y: PERSON_BOUND_Y }),
{
    Bundle {
        entity,
        position,
        state,
        sprite_index: 0,
        person: Person,
        laser_hit: Hittable::new(Vec2 { x: PERSON_BOUND_X, y: PERSON_BOUND_Y }),
        player_hit: Hittable::new(Vec2 { x: PERSON_BOUND_X, y: PERSON_BOUND_Y }),
    }
}

impl Bundle {
    /// The offset of a carried character is within the supported range, and
    /// the frame is one of the sheet.
    pub open spec fn wf(self) -> bool {
        &&& self.sprite_index <= LAST_FRAME
        &&& match self.state {
            CharacterState::CapturedBy(_, offset) => offset.in_bounds(),
            _ => true,
        }
    }

    /// Tests whether the character is well formed.
    pub fn is_wf(&self) -> (ok: bool)
        ensures
            ok == self.wf(),
    {
        self.sprite_index <= LAST_FRAME && match self.state {
            CharacterState::CapturedBy(_, offset) => offset.within_bounds(),
            _ => true,
        }
    }

    /// The state once the captor has been looked for: a character whose
    /// captor is gone falls.
    pub open spec fn checked_state(self, captors: Seq<Located>) -> CharacterState {
        match self.state {
            CharacterState::CapturedBy(entity, _) => {
                if position_of(captors, 0, entity) is None {
                    CharacterState::Falling
                } else {
                    self.state
                }
            },
            _ => self.state,
        }
    }

    /// The state after one step.
    pub open spec fn next_state(self, captors: Seq<Located>, dt_ms: u32) -> CharacterState {
        match self.checked_state(captors) {
            CharacterState::Falling => {
                if self.position.y - FALL_SPEED * dt_ms < GROUND_Y {
                    CharacterState::Grounded
                } else {
                    CharacterState::Falling
                }
            },
            other => other,
        }
    }

    /// The position after one step: a carried character hangs at its captor's
    /// position plus its offset, a falling one drops to the ground at most,
    /// and one on the ground stays.
    pub open spec fn next_position(self, captors: Seq<Located>, dt_ms: u32) -> Vec2 {
        match self.checked_state(captors) {
            CharacterState::CapturedBy(entity, offset) => position_of(captors, 0, entity)->0.plus(
                offset,
            ),
            CharacterState::Falling => Vec2 {
                x: self.position.x,
                y: fallen_y(self.position.y as int, dt_ms as int) as i64,
            },
            CharacterState::Grounded => self.position,
        }
    }

    /// The frame after one step.
    pub open spec fn next_sprite(self, captors: Seq<Located>, finished: bool) -> int {
        match self.checked_state(captors) {
            CharacterState::CapturedBy(_, _) => CARRIED_FRAME as int,
            CharacterState::Falling => FALLING_FRAME as int,
            CharacterState::Grounded => if finished {
                next_frame(self.sprite_index as int)
            } else {
                self.sprite_index as int
            },
        }
    }

    /// One step of the character: it falls as soon as its captor is gone,
    /// follows its captor while carried, drops toward the ground while
    /// falling and stands again, exactly at ground altitude, once it gets
    /// there; on the ground its animation advances when the timer finished.
    pub fn update(&mut self, captors: &Vec<Located>, dt_ms: u32, finished: bool)
        requires
            old(self).wf(),
            forall|i: int| 0 <= i < captors.len() ==> (#[trigger] captors[i]).position.in_bounds(),
        ensures
            final(self).wf(),
            final(self).state == old(self).next_state(captors@, dt_ms),
            final(self).position == old(self).next_position(captors@, dt_ms),
            final(self).sprite_index == old(self).next_sprite(captors@, finished),
            final(self).entity == old(self).entity,
            final(self).laser_hit == old(self).laser_hit,
            final(self).player_hit == old(self).player_hit,
    {
        let mut captor: Option<Vec2> = None;
        if let CharacterState::CapturedBy(entity, _) = self.state {
            captor = find_position(captors, entity);
            if captor.is_none() {
                self.state = CharacterState::Falling;
            }
        }
        match self.state {
            CharacterState::CapturedBy(_, offset) => {
                self.sprite_index = CARRIED_FRAME;
                if let Some(position) = captor {
                    self.position = position.add_vec(offset);
                }
            },
            CharacterState::Falling => {
                self.sprite_index = FALLING_FRAME;
                let y: i128 = self.position.y as i128 - (FALL_SPEED as i128) * (dt_ms as i128);
                if y < GROUND_Y as i128 {
                    self.position.y = GROUND_Y;
                    self.state = CharacterState::Grounded;
                } else {
                    self.position.y = y as i64;
                }
            },
            CharacterState::Grounded => {
                if finished {
                    self.sprite_index = if self.sprite_index + 1 > LAST_FRAME {
                        0
                    } else {
                        self.sprite_index + 1
                    };
                }
            },
        }
    }

    /// Whether a laser hit destroys the character: not while the player
    /// carries it.
    pub open spec fn carried_by(self, player: Option<Entity>) -> bool {
        match self.state {
            CharacterState::CapturedBy(entity, _) => player == Some(entity),
            _ => false,
        }
    }

    /// The entity that carries the character, if any.
    pub open spec fn captor(self) -> Option<Entity> {
        match self.state {
            CharacterState::CapturedBy(entity, _) => Some(entity),
            _ => None,
        }
    }

    /// Reads and clears the laser hit of this frame. A character that was hit
    /// is destroyed, unless the player carries it; with it comes the entity
    /// that carried it, which has to let go.
    pub fn laser_hit(&mut self, player: Option<Entity>) -> (reaction: LaserReaction)
        ensures
            reaction == if old(self).laser_hit.hit_entity is Some && !old(self).carried_by(player) {
                LaserReaction::Destroyed(old(self).captor())
            } else {
                LaserReaction::Spared
            },
            final(self).laser_hit.hit_entity is None,
            final(self).laser_hit.hitbox == old(self).laser_hit.hitbox,
            final(self).state == old(self).state,
            final(self).position == old(self).position,
            final(self).entity == old(self).entity,
            final(self).sprite_index == old(self).sprite_index,
            final(self).player_hit == old(self).player_hit,
    {
        let hit = self.laser_hit.take_hit();
        if hit.is_none() {
            return LaserReaction::Spared;
        }
        match self.state {
            CharacterState::CapturedBy(entity, _) => {
                if player == Some(entity) {
                    LaserReaction::Spared
                } else {
                    LaserReaction::Destroyed(Some(entity))
                }
            },
            _ => LaserReaction::Destroyed(None),
        }
    }

    /// Whether the player takes the character aboard in this frame: the
    /// player touches it, the rescue control is held and nobody carries it.
    pub open spec fn rescued(self, rescue: bool) -> bool {
        self.player_hit.hit_entity is Some && rescue && self.captor() is None
    }

    /// Reads and clears the player's touch of this frame. On a rescue the
    /// character hangs below the player from now on and the score grows by
    /// the rescue bonus.
    pub fn player_hit(&mut self, rescue: bool, score: &mut Score) -> (rescued: bool)
        ensures
            rescued == old(self).rescued(rescue),
            final(self).state == if rescued {
                CharacterState::CapturedBy(old(self).player_hit.hit_entity->0, player_offset())
            } else {
                old(self).state
            },
            final(score).value == if rescued {
                crate::score::capped_sum(old(score).value as int, RESCUE_SCORE as int) as u32
            } else {
                old(score).value
            },
            final(self).player_hit.hit_entity is None,
            final(self).player_hit.hitbox == old(self).player_hit.hitbox,
            final(self).position == old(self).position,
            final(self).entity == old(self).entity,
            final(self).sprite_index == old(self).sprite_index,
            final(self).laser_hit == old(self).laser_hit,
            old(self).wf() ==> final(self).wf(),
    {
        let hit = self.player_hit.take_hit();
        match hit {
            Some(player) => {
                let free = match self.state {
                    CharacterState::CapturedBy(_, _) => false,
                    _ => true,
                };
                if rescue && free {
                    score.award(RESCUE_SCORE);
                    self.state = CharacterState::CapturedBy(
                        player,
                        Vec2 { x: 0, y: PLAYER_OFFSET_Y },
                    );
                    true
                } else {
                    false
                }
            },
            None => false,
        }
    }
}

impl Bundle {
    /// Whether a laser destroys the character in this frame.
    pub open spec fn destroyed(self, player: Option<Entity>) -> bool {
        self.laser_hit.hit_entity is Some && !self.carried_by(player)
    }

    /// The character as it is once an enemy has picked it up: it hangs below
    /// that enemy, and nothing else of it has changed.
    pub open spec fn carried_by_enemy(self, captor: Entity) -> Bundle {
        Bundle { state: CharacterState::CapturedBy(captor, enemy_offset()), ..self }
    }

    /// The character with its laser hit cleared.
    pub open spec fn cleared(self) -> Bundle {
        Bundle {
            laser_hit: Hittable { hit_entity: None, ..self.laser_hit },
            ..self
        }
    }
}

/// The characters among the first `n` that no laser destroys, in order, each
/// with its laser hit cleared.
pub open spec fn laser_survivors(persons: Seq<Bundle>, n: int, player: Option<Entity>) -> Seq<
    Bundle,
>
    decreases n,
{
    if n <= 0 || n > persons.len() {
        Seq::empty()
    } else if persons[n - 1].destroyed(player) {
        laser_survivors(persons, n - 1, player)
    } else {
        laser_survivors(persons, n - 1, player).push(persons[n - 1].cleared())
    }
}

/// The captors, in order, of the characters among the first `n` that a laser
/// destroys while they are carried.
pub open spec fn laser_released(persons: Seq<Bundle>, n: int, player: Option<Entity>) -> Seq<
    Entity,
>
    decreases n,
{
    if n <= 0 || n > persons.len() {
        Seq::empty()
    } else if persons[n - 1].destroyed(player) && persons[n - 1].captor() is Some {
        laser_released(persons, n - 1, player).push(persons[n - 1].captor()->0)
    } else {
        laser_released(persons, n - 1, player)
    }
}

/// Removes the characters that a laser destroys in this frame; the others
/// stay in their order with the hit cleared. Returns the captors that have
/// lost their character and have to let go.
pub fn remove_destroyed(persons: &mut Vec<Bundle>, player: Option<Entity>) -> (released: Vec<
    Entity,
>)
    ensures
        final(persons)@ == laser_survivors(old(persons)@, old(persons).len() as int, player),
        released@ == laser_released(old(persons)@, old(persons).len() as int, player),
{
    let mut kept: Vec<Bundle> = Vec::new();
    let mut released: Vec<Entity> = Vec::new();
    let mut i: usize = 0;
    while i < persons.len()
        invariant
            0 <= i <= persons.len(),
            *persons == *old(persons),
            kept@ == laser_survivors(persons@, i as int, player),
            released@ == laser_released(persons@, i as int, player),
        decreases persons.len() - i,
    {
        let mut person = persons[i];
        match person.laser_hit(player) {
            LaserReaction::Spared => {
                assert(person == persons[i as int].cleared());
                kept.push(person);
            },
            LaserReaction::Destroyed(captor) => {
                match captor {
                    Some(entity) => {
                        released.push(entity);
                    },
                    None => {},
                }
            },
        }
        i += 1;
    }
    *persons = kept;
    released
}

/// Whether `entity` is among the first `n` of the captors that have to let
/// go.
pub open spec fn lets_go(released: Seq<Entity>, n: int, entity: Entity) -> bool
    decreases n,
{
    0 < n <= released.len() && (released[n - 1] == entity || lets_go(released, n - 1, entity))
}

/// The reaction of every character to the laser hits of this frame: those
/// that a laser destroys are removed, the others stay in their order with
/// the hit cleared. Every enemy that carried a character now destroyed lets
/// go of it; the other enemies are left as they are.
pub fn laser_hit(
    persons: &mut Vec<Bundle>,
    enemies: &mut Vec<enemy::Bundle>,
    player: Option<Entity>,
)
    ensures
        final(persons)@ == laser_survivors(old(persons)@, old(persons).len() as int, player),
        final(enemies).len() == old(enemies).len(),
        forall|j: int|
            0 <= j < old(enemies).len() ==> #[trigger] final(enemies)[j] == if lets_go(
                laser_released(old(persons)@, old(persons).len() as int, player),
                laser_released(old(persons)@, old(persons).len() as int, player).len() as int,
                old(enemies)[j].entity,
            ) {
                old(enemies)[j].released()
            } else {
                old(enemies)[j]
            },
{
    let released = remove_destroyed(persons, player);
    let mut k: usize = 0;
    while k < released.len()
        invariant
            0 <= k <= released.len(),
            enemies.len() == old(enemies).len(),
            forall|j: int|
                0 <= j < old(enemies).len() ==> #[trigger] enemies[j] == if lets_go(
                    released@,
                    k as int,
                    old(enemies)[j].entity,
                ) {
                    old(enemies)[j].released()
                } else {
                    old(enemies)[j]
                },
        decreases released.len() - k,
    {
        enemy::release_person(enemies, released[k]);
        k += 1;
    }
}

/// The number of characters among the first `n` that the player takes aboard
/// in this frame.
pub open spec fn rescues(persons: Seq<Bundle>, n: int, rescue: bool) -> int
    decreases n,
{
    if n <= 0 || n > persons.len() {
        0
    } else if persons[n - 1].rescued(rescue) {
        rescues(persons, n - 1, rescue) + 1
    } else {
        rescues(persons, n - 1, rescue)
    }
}

/// The reaction of every character to the player's touch of this frame (see
/// `Bundle::player_hit`): each character that the player takes aboard hangs
/// below the player from now on, and the score grows by the rescue bonus for
/// each. Every touch is cleared.
pub fn player_hit(persons: &mut Vec<Bundle>, rescue: bool, score: &mut Score)
    ensures
        final(persons).len() == old(persons).len(),
        final(score).value == crate::score::capped_sum(
            old(score).value as int,
            RESCUE_SCORE * rescues(old(persons)@, old(persons).len() as int, rescue),
        ),
        forall|i: int|
            0 <= i < old(persons).len() ==> {
                let before = old(persons)[i];
                &&& (#[trigger] final(persons)[i]).state == if before.rescued(rescue) {
                    CharacterState::CapturedBy(before.player_hit.hit_entity->0, player_offset())
                } else {
                    before.state
                }
                &&& final(persons)[i].player_hit.hit_entity is None
                &&& final(persons)[i].player_hit.hitbox == before.player_hit.hitbox
                &&& final(persons)[i].position == before.position
                &&& final(persons)[i].entity == before.entity
                &&& final(persons)[i].sprite_index == before.sprite_index
                &&& final(persons)[i].laser_hit == before.laser_hit
            },
{
    let mut i: usize = 0;
    while i < persons.len()
        invariant
            0 <= i <= persons.len(),
            persons.len() == old(persons).len(),
            0 <= rescues(old(persons)@, i as int, rescue) <= i,
            score.value == crate::score::capped_sum(
                old(score).value as int,
                RESCUE_SCORE * rescues(old(persons)@, i as int, rescue),
            ),
            forall|j: int| i <= j < persons.len() ==> persons[j] == old(persons)[j],
            forall|j: int|
                0 <= j < i ==> {
                    let before = old(persons)[j];
                    &&& (#[trigger] persons[j]).state == if before.rescued(rescue) {
                        CharacterState::CapturedBy(before.player_hit.hit_entity->0, player_offset())
                    } else {
                        before.state
                    }
                    &&& persons[j].player_hit.hit_entity is None
                    &&& persons[j].player_hit.hitbox == before.player_hit.hitbox
                    &&& persons[j].position == before.position
                    &&& persons[j].entity == before.entity
                    &&& persons[j].sprite_index == before.sprite_index
                    &&& persons[j].laser_hit == before.laser_hit
                },
        decreases persons.len() - i,
    {
        persons[i].player_hit(rescue, score);
        i += 1;
    }
}

/// The detection of one frame for every character: lasers and the player's
/// craft are tested against each (see `Hittable::detect`).
pub fn detect_hits(
    persons: &mut Vec<Bundle>,
    view: Viewport,
    lasers: &Vec<Striker>,
    crafts: &Vec<Striker>,
)
    ensures
        final(persons).len() == old(persons).len(),
        forall|i: int|
            0 <= i < old(persons).len() ==> {
                let before = old(persons)[i];
                &&& (#[trigger] final(persons)[i]).laser_hit.hit_entity
                    == before.laser_hit.detected(view, lasers@, before.position)
                &&& final(persons)[i].player_hit.hit_entity == before.player_hit.detected(
                    view,
                    crafts@,
                    before.position,
                )
                &&& final(persons)[i].laser_hit.hitbox == before.laser_hit.hitbox
                &&& final(persons)[i].player_hit.hitbox == before.player_hit.hitbox
                &&& final(persons)[i].state == before.state
                &&& final(persons)[i].position == before.position
                &&& final(persons)[i].entity == before.entity
                &&& final(persons)[i].sprite_index == before.sprite_index
            },
{
    let mut i: usize = 0;
    while i < persons.len()
        invariant
            0 <= i <= persons.len(),
            persons.len() == old(persons).len(),
            forall|j: int| i <= j < persons.len() ==> persons[j] == old(persons)[j],
            forall|j: int|
                0 <= j < i ==> {
                    let before = old(persons)[j];
                    &&& (#[trigger] persons[j]).laser_hit.hit_entity == before.laser_hit.detected(
                        view,
                        lasers@,
                        before.position,
                    )
                    &&& persons[j].player_hit.hit_entity == before.player_hit.detected(
                        view,
                        crafts@,
                        before.position,
                    )
                    &&& persons[j].laser_hit.hitbox == before.laser_hit.hitbox
                    &&& persons[j].player_hit.hitbox == before.player_hit.hitbox
                    &&& persons[j].state == before.state
                    &&& persons[j].position == before.position
                    &&& persons[j].entity == before.entity
                    &&& persons[j].sprite_index == before.sprite_index
                },
        decreases persons.len() - i,
    {
        let at = persons[i].position;
        persons[i].laser_hit.detect(view, lasers, at);
        persons[i].player_hit.detect(view, crafts, at);
        i += 1;
    }
}

/// One step of every character: the timer ticks once, and each character
/// takes its step with what the timer says.
pub fn update(
    persons: &mut Vec<Bundle>,
    captors: &Vec<Located>,
    dt_ms: u32,
    timer: &mut AnimationTimer,
)
    requires
        old(timer).wf(),
        forall|i: int| 0 <= i < old(persons).len() ==> (#[trigger] old(persons)[i]).wf(),
        forall|i: int| 0 <= i < captors.len() ==> (#[trigger] captors[i]).position.in_bounds(),
    ensures
        final(timer).wf(),
        final(timer).just_finished == (old(timer).elapsed_ms + dt_ms >= FRAME_PERIOD),
        final(timer).elapsed_ms == (old(timer).elapsed_ms + dt_ms) % (FRAME_PERIOD as int),
        final(persons).len() == old(persons).len(),
        forall|i: int|
            0 <= i < old(persons).len() ==> {
                &&& (#[trigger] final(persons)[i]).wf()
                &&& final(persons)[i].entity == old(persons)[i].entity
                &&& final(persons)[i].state == old(persons)[i].next_state(captors@, dt_ms)
                &&& final(persons)[i].position == old(persons)[i].next_position(captors@, dt_ms)
                &&& final(persons)[i].sprite_index == old(persons)[i].next_sprite(
                    captors@,
                    final(timer).just_finished,
                )
                &&& final(persons)[i].laser_hit == old(persons)[i].laser_hit
                &&& final(persons)[i].player_hit == old(persons)[i].player_hit
            },
{
    timer.tick(dt_ms);
    let finished = timer.just_finished;
    let mut i: usize = 0;
    while i < persons.len()
        invariant
            0 <= i <= persons.len(),
            persons.len() == old(persons).len(),
            forall|j: int| 0 <= j < captors.len() ==> (#[trigger] captors[j]).position.in_bounds(),
            forall|j: int| i <= j < persons.len() ==> persons[j] == old(persons)[j],
            forall|j: int| 0 <= j < old(persons).len() ==> (#[trigger] old(persons)[j]).wf(),
            forall|j: int|
                0 <= j < i ==> {
                    &&& (#[trigger] persons[j]).wf()
                    &&& persons[j].entity == old(persons)[j].entity
                    &&& persons[j].state == old(persons)[j].next_state(captors@, dt_ms)
                    &&& persons[j].position == old(persons)[j].next_position(captors@, dt_ms)
                    &&& persons[j].sprite_index == old(persons)[j].next_sprite(captors@, finished)
                    &&& persons[j].laser_hit == old(persons)[j].laser_hit
                    &&& persons[j].player_hit == old(persons)[j].player_hit
                },
        decreases persons.len() - i,
    {
        persons[i].update(captors, dt_ms, finished);
        i += 1;
    }
}

} // verus!
