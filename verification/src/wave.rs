use vstd::prelude::*;
use crate::enemy::Bundle;
use crate::enemy::EnemiesCount;
use crate::enemy::Enemy;
use crate::enemy::Lander;
use crate::enemy::Variant;
use crate::enemy::bundle;
use crate::map::HALF_SIZE;
use crate::map::MapScroll;
use crate::map::SIZE;
use crate::person::CharacterState;
use crate::person;
use crate::random::random_draw;
use crate::random::scale_draw;
use crate::random::scale_spec;
use crate::score::Score;
use crate::score::capped_sum;
use crate::style::GROUND_Y;
use crate::style::MAX_COORD;
use crate::style::MAX_ENEMY_COUNT;
use crate::style::MIN_ENEMY_COUNT;
use crate::style::PERSON_TARGET_COUNT;
use crate::utils::Entity;
use crate::utils::Vec2;

verus! {

/// The score for each wave survived, times the wave's number.
pub const WAVE_SCORE: u32 = 10;

/// The score for each character that is alive when a wave begins.
pub const SURVIVOR_SCORE: u32 = 50;

/// The lowest altitude at which an enemy is spawned, in ticks.
pub const SPAWN_FLOOR: i64 = 100_000;

/// The height of the band of altitudes at which enemies are spawned, in ticks.
pub const SPAWN_SPAN: i64 = 400_000;

/// The number of draws after which the search for a spawn point ends.
pub const SPAWN_DRAWS: u32 = 64;

/// The largest id that `spawn_enemies` accepts as the next free one: a wave
/// needs fewer ids than lie above it.
pub const MAX_NEXT_ENTITY: u64 = 0xffff_ffff_ffff_ff00;

/// Whether `x` lies in the window, half as wide again as the one shown, in
/// which no enemy is spawned: both edges count as inside.
pub open spec fn in_spawn_window(x: int, camera_x: int, window_width: int) -> bool {
    -3 * window_width <= 4 * (x - camera_x) <= 3 * window_width
}

/// Tests a point against the window in which no enemy is spawned.
pub fn shows_in_spawn_window(x: i64, camera_x: i64, window_width: i64) -> (inside: bool)
    ensures
        inside == in_spawn_window(x as int, camera_x as int, window_width as int),
{
    let d: i128 = 4 * (x as i128 - camera_x as i128);
    let w: i128 = 3 * (window_width as i128);
    -w <= d && d <= w
}

/// The spawn point that a draw gives: the draw is scaled onto the world and
/// projected next to the camera, and turned down where it lies in the window
/// in which no enemy is spawned.
pub open spec fn spawn_x_spec(scroll: MapScroll, draw: u32, window_width: int) -> Option<int> {
    let x = scroll.update_spec(scale_spec(draw, SIZE as int));
    if in_spawn_window(x, scroll.real_camera_x as int, window_width) {
        None
    } else {
        Some(x)
    }
}

/// Makes a spawn point from a draw, or turns the draw down.
pub fn spawn_x_from_draw(scroll: &MapScroll, draw: u32, window_width: i64) -> (r: Option<i64>)
    requires
        scroll.wf(),
    ensures
        match r {
            Some(x) => spawn_x_spec(*scroll, draw, window_width as int) == Some(x as int),
            None => spawn_x_spec(*scroll, draw, window_width as int) is None,
        },
        match r {
            Some(x) => {
                &&& !in_spawn_window(x as int, scroll.real_camera_x as int, window_width as int)
                &&& -HALF_SIZE <= x - scroll.real_camera_x <= HALF_SIZE
            },
            None => true,
        },
{
    let x: i64 = scroll.update(scale_draw(draw, SIZE));
    if shows_in_spawn_window(x, scroll.real_camera_x, window_width) {
        None
    } else {
        Some(x)
    }
}

/// A random spawn point out of view: no further than half a world from the
/// camera and outside the window in which no enemy is spawned. Points are
/// drawn until one lies outside; should every draw allowed lie inside, the
/// point opposite the camera on the wrapped world is taken.
pub fn random_spawn_x(scroll: &MapScroll, window_width: i64) -> (x: i64)
    requires
        scroll.wf(),
        0 <= window_width,
        3 * window_width < 2 * SIZE,
    ensures
        !in_spawn_window(x as int, scroll.real_camera_x as int, window_width as int),
        -HALF_SIZE <= x - scroll.real_camera_x <= HALF_SIZE,
{
    let mut left: u32 = SPAWN_DRAWS;
    while left > 0
        invariant
            scroll.wf(),
        decreases left,
    {
        match spawn_x_from_draw(scroll, random_draw(), window_width) {
            Some(x) => {
                return x;
            },
            None => {},
        }
        left -= 1;
    }
    scroll.real_camera_x + HALF_SIZE
}

/// The number of the wave that follows wave `wave`: the first wave has the
/// number of the smallest wave, each later one the next number.
pub open spec fn next_wave(wave: u32) -> u32 {
    if wave == 0 {
        MIN_ENEMY_COUNT
    } else if wave == u32::MAX {
        wave
    } else {
        (wave + 1) as u32
    }
}

/// The number of enemies of wave `wave`.
pub open spec fn wave_size(wave: u32) -> u32 {
    if wave <= MAX_ENEMY_COUNT {
        wave
    } else {
        MAX_ENEMY_COUNT
    }
}

/// Whether a wave begins: no enemy is alive and the player is.
pub open spec fn wave_begins(count: EnemiesCount, player_alive: bool) -> bool {
    count.count == 0 && player_alive
}

/// The score once a wave has begun: the bonus for the wave survived and the
/// bonus for the characters alive are added, one after the other.
pub open spec fn wave_score(score: int, wave: int, survivors: int) -> int {
    capped_sum(capped_sum(score, wave * WAVE_SCORE), survivors * SURVIVOR_SCORE)
}

/// The number of characters once the population is topped up.
pub open spec fn topped_up(persons: int) -> int {
    if persons < PERSON_TARGET_COUNT {
        PERSON_TARGET_COUNT as int
    } else {
        persons
    }
}

/// A character as the scheduler spawns it: on the ground, somewhere on the
/// world, with no hit recorded.
pub open spec fn fresh_person(b: person::Bundle, entity: Entity) -> bool {
    &&& b.entity == entity
    &&& b.state == CharacterState::Grounded
    &&& b.position.y == GROUND_Y
    &&& 0 <= b.position.x < SIZE
    &&& b.sprite_index == 0
    &&& b.laser_hit.hit_entity is None
    &&& b.player_hit.hit_entity is None
    &&& b.wf()
}

/// An enemy as the scheduler spawns it: a lander that carries nothing, whose
/// x lies next to the camera and outside the window in which no enemy is
/// spawned, with no hit recorded.
pub open spec fn fresh_lander(b: Bundle, entity: Entity, scroll: MapScroll, window_width: int) -> bool {
    &&& b.entity == entity
    &&& b.enemy == (Enemy {
        desired_position: b.position,
        next_shot: 0,
        next_desired_position: 0,
        last_outside: 0,
        has_person: false,
    })
    &&& b.variant_data == Lander::data_spec()
    &&& !in_spawn_window(b.position.x as int, scroll.real_camera_x as int, window_width)
    &&& -HALF_SIZE <= b.position.x - scroll.real_camera_x <= HALF_SIZE
    &&& SPAWN_FLOOR <= b.position.y < SPAWN_FLOOR + SPAWN_SPAN
    &&& b.laser_hit.hit_entity is None
    &&& b.player_hit.hit_entity is None
    &&& b.wf()
}

/// Adds a bonus of `each` points for each of `times` to the score.
fn award_each(score: &mut Score, times: usize, each: u32)
    ensures
        final(score).value == capped_sum(old(score).value as int, times * each),
{
    let t: u128 = times as u128;
    let e: u128 = each as u128;
    assert(t * e <= 0x1_0000_0000_0000_0000 * 0x1_0000_0000) by (nonlinear_arith)
        requires
            t <= 0x1_0000_0000_0000_0000,
            e <= 0x1_0000_0000,
    ;
    let product: u128 = t * e;
    let points: u32 = if product > u32::MAX as u128 { u32::MAX } else { product as u32 };
    score.award(points);
}

/// One tick of the wave scheduler. While an enemy is alive, or without a live
/// player, nothing changes. Else a wave begins: the score grows by the bonus
/// for the wave survived and by the bonus for every character alive, the
/// wave's number moves on, the characters are topped up with new ones on the
/// ground, and the wave's enemies are spawned out of view and counted. New
/// entities get the ids from `next_entity` on, characters first.
pub fn spawn_enemies(
    enemies: &mut Vec<Bundle>,
    persons: &mut Vec<person::Bundle>,
    count: &mut EnemiesCount,
    score: &mut Score,
    scroll: &MapScroll,
    window_width: i64,
    player_alive: bool,
    next_entity: &mut Entity,
)
    requires
        scroll.wf(),
        0 <= window_width,
        3 * window_width < 2 * SIZE,
        old(enemies).len() == old(count).count,
        *old(next_entity) <= MAX_NEXT_ENTITY,
    ensures
        final(enemies).len() == final(count).count,
        final(score).value >= old(score).value,
        !wave_begins(*old(count), player_alive) ==> {
            &&& final(enemies)@ == old(enemies)@
            &&& final(persons)@ == old(persons)@
            &&& *final(count) == *old(count)
            &&& *final(score) == *old(score)
            &&& *final(next_entity) == *old(next_entity)
        },
        wave_begins(*old(count), player_alive) ==> {
            let born = topped_up(old(persons).len() as int) - old(persons).len();
            &&& final(count).wave == next_wave(old(count).wave)
            &&& final(count).count == wave_size(final(count).wave)
            &&& final(score).value == wave_score(
                old(score).value as int,
                old(count).wave as int,
                old(persons).len() as int,
            )
            &&& final(persons).len() == topped_up(old(persons).len() as int)
            &&& forall|i: int| 0 <= i < old(persons).len() ==> final(persons)[i] == old(persons)[i]
            &&& forall|i: int|
                old(persons).len() <= i < final(persons).len() ==> fresh_person(
                    #[trigger] final(persons)[i],
                    (*old(next_entity) + (i - old(persons).len())) as u64,
                )
            &&& forall|i: int|
                0 <= i < final(enemies).len() ==> fresh_lander(
                    #[trigger] final(enemies)[i],
                    (*old(next_entity) + born + i) as u64,
                    *scroll,
                    window_width as int,
                )
            &&& *final(next_entity) == *old(next_entity) + born + final(enemies).len()
        },
{
    if count.count > 0 || !player_alive {
        return ;
    }
    award_each(score, count.wave as usize, WAVE_SCORE);
    if count.wave == 0 {
        count.wave = MIN_ENEMY_COUNT;
    } else if count.wave < u32::MAX {
        count.wave = count.wave + 1;
    }
    let alive: usize = persons.len();
    award_each(score, alive, SURVIVOR_SCORE);
    while persons.len() < PERSON_TARGET_COUNT
        invariant
            alive == old(persons).len(),
            alive <= persons.len() <= topped_up(alive as int),
            *next_entity == *old(next_entity) + (persons.len() - alive),
            *old(next_entity) <= MAX_NEXT_ENTITY,
            forall|i: int| 0 <= i < alive ==> persons[i] == old(persons)[i],
            forall|i: int|
                alive <= i < persons.len() ==> fresh_person(
                    #[trigger] persons[i],
                    (*old(next_entity) + (i - alive)) as u64,
                ),
        decreases PERSON_TARGET_COUNT - persons.len(),
    {
        let x: i64 = scale_draw(random_draw(), SIZE);
        let born = person::bundle(*next_entity, Vec2 { x, y: GROUND_Y }, CharacterState::Grounded);
        persons.push(born);
        *next_entity = *next_entity + 1;
    }
    let size: u32 = if count.wave <= MAX_ENEMY_COUNT { count.wave } else { MAX_ENEMY_COUNT };
    let ghost first = *next_entity;
    while count.count < size
        invariant
            scroll.wf(),
            0 <= window_width,
            3 * window_width < 2 * SIZE,
            size <= MAX_ENEMY_COUNT,
            count.count <= size,
            count.wave == next_wave(old(count).wave),
            enemies.len() == count.count,
            first <= MAX_NEXT_ENTITY + PERSON_TARGET_COUNT,
            *next_entity == first + enemies.len(),
            forall|i: int|
                0 <= i < enemies.len() ==> fresh_lander(
                    #[trigger] enemies[i],
                    (first + i) as u64,
                    *scroll,
                    window_width as int,
                ),
        decreases size - count.count,
    {
        let x: i64 = random_spawn_x(scroll, window_width);
        let y: i64 = SPAWN_FLOOR + scale_draw(random_draw(), SPAWN_SPAN);
        let born = bundle::<Lander>(*next_entity, Vec2 { x, y }, false);
        enemies.push(born);
        *next_entity = *next_entity + 1;
        count.count = count.count + 1;
    }
}

} // verus!
