use defender::enemy::accuracy;
use defender::enemy::aim;
use defender::enemy::bundle;
use defender::enemy::fires;
use defender::enemy::laser_hit;
use defender::enemy::movement;
use defender::enemy::mutant_transform;
use defender::enemy::nearest_grounded;
use defender::enemy::player_hit;
use defender::enemy::random_waypoint;
use defender::enemy::release_person;
use defender::enemy::shoot_player;
use defender::enemy::step_toward;
use defender::enemy::visible;
use defender::enemy::waypoint_from_draws;
use defender::enemy::Aim;
use defender::enemy::Bundle;
use defender::enemy::EnemiesCount;
use defender::enemy::Enemy;
use defender::enemy::Lander;
use defender::enemy::Mutant;
use defender::enemy::Plan;
use defender::enemy::Variant;
use defender::explosion::At;
use defender::game_over::GameOver;
use defender::map::MapScroll;
use defender::map::SIZE;
use defender::person;
use defender::person::CharacterState;
use defender::score::Score;
use defender::style::GROUND_Y;
use defender::utils::Located;
use defender::utils::Vec2;

const WINDOW_HEIGHT: i64 = 720_000;
const BAND_TOP: i64 = 630_000;

fn v(x: i64, y: i64) -> Vec2 {
    Vec2 { x, y }
}

fn lander(entity: u64, x: i64, y: i64) -> Bundle {
    bundle::<Lander>(entity, v(x, y), false)
}

fn grounded(entity: u64, x: i64) -> person::Bundle {
    person::bundle(entity, v(x, GROUND_Y), CharacterState::Grounded)
}

#[test]
fn variants_differ() {
    let l = Lander::data();
    let m = Mutant::data();
    assert!(!l.mutated);
    assert!(m.mutated);
    assert_eq!(l.shot_delay, 1_000);
    assert_eq!(m.shot_delay, 250);
    assert_eq!(l.orb_hue, 360);
    assert_eq!(m.orb_hue, 120);
}

#[test]
fn bundle_starts_at_rest() {
    let e = bundle::<Mutant>(4, v(10, 20), true);
    assert_eq!(e.entity, 4);
    assert_eq!(e.position, v(10, 20));
    assert_eq!(
        e.enemy,
        Enemy {
            desired_position: v(10, 20),
            next_shot: 0,
            next_desired_position: 0,
            last_outside: 0,
            has_person: true,
        }
    );
    assert_eq!(e.variant_data, Mutant::data());
    assert_eq!(e.laser_hit.hit_entity, None);
    assert_eq!(e.player_hit.hitbox, Mutant::data().bound);
}

#[test]
fn visible_includes_the_edges() {
    assert!(visible(640_000, 0, 1_280_000));
    assert!(visible(-640_000, 0, 1_280_000));
    assert!(!visible(640_001, 0, 1_280_000));
    assert!(!visible(-640_001, 0, 1_280_000));
    assert!(visible(5, 5, 0));
    assert!(!visible(i64::MAX, i64::MIN, i64::MAX));
}

#[test]
fn nearest_grounded_takes_the_first_of_the_nearest() {
    let mut persons = vec![grounded(1, 50_000), grounded(2, -20_000), grounded(3, 20_000)];
    let at = v(0, GROUND_Y + 40_000);
    assert_eq!(nearest_grounded(at, &persons), Some(1));
    persons[1].state = CharacterState::Falling;
    assert_eq!(nearest_grounded(at, &persons), Some(2));
    persons[0].state = CharacterState::CapturedBy(9, v(0, -40_000));
    persons[2].state = CharacterState::Falling;
    assert_eq!(nearest_grounded(at, &persons), None);
    assert_eq!(nearest_grounded(at, &Vec::new()), None);
}

#[test]
fn plan_follows_the_distance() {
    let enemy = lander(1, 0, 0).enemy;
    let persons = vec![grounded(1, 0)];
    let point = v(0, GROUND_Y + 40_000);
    assert_eq!(enemy.plan(point, &persons), Plan::Capture(0));
    assert_eq!(enemy.plan(v(9_999, GROUND_Y + 40_000), &persons), Plan::Capture(0));
    assert_eq!(enemy.plan(v(10_000, GROUND_Y + 40_000), &persons), Plan::Approach(point, 0));
    assert_eq!(enemy.plan(v(399_999, GROUND_Y + 40_000), &persons), Plan::Approach(point, 0));
    assert_eq!(
        enemy.plan(v(400_000, GROUND_Y + 40_000), &persons),
        Plan::Approach(point, 400_000)
    );
    assert_eq!(enemy.plan(point, &Vec::new()), Plan::Wander);
    let mut carrying = enemy;
    carrying.has_person = true;
    assert_eq!(carrying.plan(point, &persons), Plan::Wander);
}

#[test]
fn waypoint_from_draws_turns_altitudes_outside_the_band_down() {
    let c = v(1_000, 300_000);
    assert_eq!(
        waypoint_from_draws(c, 400_000, 0x8000_0000, 0x8000_0000, WINDOW_HEIGHT),
        Some(c)
    );
    assert_eq!(
        waypoint_from_draws(c, 400_000, 0, 0x4000_0000, WINDOW_HEIGHT),
        Some(v(-399_000, 100_000))
    );
    // 300 - 400 units is below the border offset.
    assert_eq!(waypoint_from_draws(c, 400_000, 0, 0, WINDOW_HEIGHT), None);
    // 300 + 399.999 units is above the band.
    assert_eq!(waypoint_from_draws(c, 400_000, 0, u32::MAX, WINDOW_HEIGHT), None);
    // The edges of the band are inside it.
    assert_eq!(
        waypoint_from_draws(v(0, 50_000), 0, 7, 7, WINDOW_HEIGHT),
        Some(v(0, 50_000))
    );
    assert_eq!(
        waypoint_from_draws(v(0, BAND_TOP - 50_000), 0, 7, 7, WINDOW_HEIGHT),
        Some(v(0, BAND_TOP - 50_000))
    );
    assert_eq!(waypoint_from_draws(v(0, 49_999), 0, 7, 7, WINDOW_HEIGHT), None);
    assert_eq!(waypoint_from_draws(v(0, BAND_TOP - 49_999), 0, 7, 7, WINDOW_HEIGHT), None);
}

#[test]
fn random_waypoint_stays_in_the_band() {
    for _ in 0..200 {
        let w = random_waypoint(v(5_000, 300_000), 400_000, WINDOW_HEIGHT);
        assert!(50_000 <= w.y && w.y <= BAND_TOP - 50_000);
        assert!((w.x - 5_000).abs() <= 400_000);
        assert!((w.y - 300_000).abs() <= 400_000);
    }
    // No draw can bring this centre into the band: its altitude is moved in.
    let low = random_waypoint(v(0, -1_000_000), 400_000, WINDOW_HEIGHT);
    assert_eq!(low.y, 50_000);
    let high = random_waypoint(v(0, 5_000_000), 0, WINDOW_HEIGHT);
    assert_eq!(high, v(0, BAND_TOP - 50_000));
}

#[test]
fn retarget_waits_for_its_time() {
    let mut enemy = lander(1, 0, 300_000).enemy;
    enemy.next_desired_position = 5_000;
    let before = enemy;
    let mut persons = vec![grounded(1, 0)];
    assert_eq!(enemy.retarget(1, v(0, GROUND_Y + 40_000), 5_000, &mut persons, WINDOW_HEIGHT), None);
    assert_eq!(enemy, before);
    assert_eq!(persons[0].state, CharacterState::Grounded);
}

#[test]
fn retarget_captures_a_person_within_reach() {
    let mut enemy = lander(7, 0, GROUND_Y + 40_000).enemy;
    let mut persons = vec![grounded(1, 300_000), grounded(2, 5_000)];
    let captured = enemy.retarget(7, v(0, GROUND_Y + 40_000), 1, &mut persons, WINDOW_HEIGHT);
    assert_eq!(captured, Some(1));
    assert_eq!(persons[1].state, CharacterState::CapturedBy(7, v(0, -40_000)));
    assert_eq!(persons[0].state, CharacterState::Grounded);
    assert!(enemy.has_person);
    assert_eq!(enemy.next_desired_position, 1_001);
    assert_eq!(enemy.desired_position.y, BAND_TOP);
    assert!(enemy.desired_position.x.abs() <= 400_000);
}

#[test]
fn retarget_flies_straight_to_a_near_person() {
    let mut enemy = lander(7, 0, 300_000).enemy;
    let mut persons = vec![grounded(1, 100_000)];
    let captured = enemy.retarget(7, v(0, 300_000), 10, &mut persons, WINDOW_HEIGHT);
    assert_eq!(captured, None);
    assert_eq!(enemy.desired_position, v(100_000, GROUND_Y + 40_000));
    assert!(!enemy.has_person);
    assert_eq!(enemy.next_desired_position, 1_010);
}

#[test]
fn retarget_wanders_around_a_far_person() {
    for _ in 0..50 {
        let mut enemy = lander(7, 0, 300_000).enemy;
        let mut persons = vec![grounded(1, 2_000_000)];
        enemy.retarget(7, v(0, 300_000), 10, &mut persons, WINDOW_HEIGHT);
        assert!((enemy.desired_position.x - 2_000_000).abs() <= 400_000);
        assert!(50_000 <= enemy.desired_position.y);
        assert!(enemy.desired_position.y <= BAND_TOP - 50_000);
    }
}

#[test]
fn step_toward_moves_at_the_speed_of_enemies() {
    assert_eq!(step_toward(v(0, 0), v(3_000, 4_000), 10), v(600, 800));
    assert_eq!(step_toward(v(10_000, 10_000), v(7_000, 6_000), 10), v(9_400, 9_200));
    assert_eq!(step_toward(v(5, 5), v(5, 5), 16), v(5, 5));
    // The step does not stop at the waypoint.
    assert_eq!(step_toward(v(0, 0), v(0, 100), 10), v(0, 1_000));
}

#[test]
fn step_toward_weighs_the_heading_across_the_seam_by_the_long_way() {
    // Across the seam the heading's sign is that of the short way; its
    // length is the difference of the positions within the world.
    assert_eq!(step_toward(v(0, 0), v(-3_000, -4_000), 10), v(-999, 0));
}

#[test]
fn step_toward_takes_the_short_way_round() {
    assert_eq!(step_toward(v(100, 0), v(SIZE - 100, 0), 10), v(-900, 0));
    assert_eq!(step_toward(v(SIZE - 100, 0), v(100, 0), 10), v(SIZE + 900, 0));
    assert_eq!(step_toward(v(SIZE + 100, 0), v(200, 0), 10), v(SIZE + 1_100, 0));
}

#[test]
fn movement_projects_next_to_the_camera() {
    let scroll = MapScroll::new(0);
    let mut e = lander(1, 100, 300_000);
    e.enemy.desired_position = v(SIZE - 100, 300_000);
    e.enemy.next_desired_position = 1_000;
    let mut persons: Vec<person::Bundle> = Vec::new();
    let captured = e.movement(500, 10, &mut persons, WINDOW_HEIGHT, &scroll);
    assert_eq!(captured, None);
    assert_eq!(e.position, v(-900, 300_000));
    assert_eq!(e.enemy.desired_position, v(SIZE - 100, 300_000));
}

#[test]
fn movement_of_the_table_captures_once() {
    let scroll = MapScroll::new(0);
    let mut enemies = vec![lander(10, 0, GROUND_Y + 40_000), lander(11, 1_000, GROUND_Y + 40_000)];
    let mut persons = vec![grounded(1, 0)];
    movement(&mut enemies, 1, 16, &mut persons, WINDOW_HEIGHT, &scroll);
    assert_eq!(persons[0].state, CharacterState::CapturedBy(10, v(0, -40_000)));
    assert!(enemies[0].enemy.has_person);
    assert!(!enemies[1].enemy.has_person);
    assert_eq!(enemies[0].enemy.desired_position.y, BAND_TOP);
    for e in &enemies {
        assert_eq!(e.enemy.next_desired_position, 1_001);
    }
}

#[test]
fn accuracy_peaks_for_vertical_shots() {
    assert_eq!(accuracy(0), 0);
    assert_eq!(accuracy(8_192), 32_768);
    assert_eq!(accuracy(16_384), 65_536);
    assert_eq!(accuracy(24_576), 32_768);
    assert_eq!(accuracy(32_768), 0);
    assert_eq!(accuracy(49_152), 65_536);
    assert_eq!(accuracy(65_535), 4);
}

#[test]
fn fires_compares_with_the_fourth_root() {
    assert!(!fires(0, 0));
    assert!(fires(1, 0));
    assert!(fires(65_536, u32::MAX));
    assert!(fires(32_768, 55_108 << 16));
    assert!(fires(32_768, (55_108 << 16) | 0xffff));
    assert!(!fires(32_768, 55_109 << 16));
}

#[test]
fn aim_leads_the_player() {
    assert_eq!(
        aim(v(0, 0), v(3_000, 4_000), 0),
        Aim { x: 3_600_000_000, y: 4_800_000_000 }
    );
    assert_eq!(
        aim(v(0, 0), v(3_000, 4_000), 600_000),
        Aim { x: 6_600_000_000, y: 4_800_000_000 }
    );
    assert_eq!(
        aim(v(1_000, 1_000), v(1_000, 0), -600_000),
        Aim { x: -600_000_000, y: -1_200_000_000 }
    );
}

#[test]
fn aim_is_level_when_the_player_is_on_top() {
    assert_eq!(aim(v(7, 7), v(7, 7), 0), Aim { x: 1, y: 0 });
    assert_eq!(aim(v(7, 7), v(7, 7), 600_000), Aim { x: 1, y: 0 });
    // The lead cancels the line to the player.
    assert_eq!(aim(v(1_000, 0), v(0, 0), 1_200_000), Aim { x: 1, y: 0 });
}

#[test]
fn shoot_with_keeps_to_cooldown_and_visibility() {
    let mut e = lander(1, 0, 0).enemy;
    // Out of view: the time is noted and nothing is shot.
    assert!(!e.shoot_with(false, 1_000, 1_000, 16_384, 0));
    assert_eq!(e.last_outside, 1_000);
    assert_eq!(e.next_shot, 0);
    // Back in view, but not for long enough.
    assert!(!e.shoot_with(true, 1_500, 1_000, 16_384, 0));
    assert_eq!(e.next_shot, 0);
    // Long enough: the shot goes and the cooldown starts.
    assert!(e.shoot_with(true, 1_501, 1_000, 16_384, u32::MAX));
    assert_eq!(e.next_shot, 2_501);
    assert_eq!(e.last_outside, 1_000);
    // The cooldown has not run out.
    assert!(!e.shoot_with(true, 2_501, 1_000, 16_384, 0));
    assert_eq!(e.next_shot, 2_501);
    // A level shot never goes, but the cooldown starts anew.
    assert!(!e.shoot_with(true, 2_502, 250, 0, 0));
    assert_eq!(e.next_shot, 2_752);
}

#[test]
fn shoot_never_fires_a_level_shot() {
    for now in 1_000..1_100u64 {
        let mut e = lander(1, 0, 0).enemy;
        assert!(!e.shoot(true, now, 1_000, 0));
        assert_eq!(e.next_shot, now + 1_000);
    }
}

#[test]
fn shoot_fires_a_vertical_shot_when_it_may() {
    let mut e = lander(1, 0, 0).enemy;
    assert!(e.shoot(true, 1_000, 1_000, 16_384));
    assert!(!e.shoot(true, 1_500, 1_000, 16_384));
    assert!(!e.shoot(false, 3_000, 1_000, 16_384));
    assert_eq!(e.last_outside, 3_000);
}

#[test]
fn shoot_player_steps_every_enemy() {
    let mut enemies = vec![lander(1, 0, 0), lander(2, 900_000, 0), lander(3, 100, 0)];
    let angles = vec![16_384u16, 16_384, 0];
    let shots = shoot_player(&mut enemies, &angles, true, 0, 1_280_000, 2_000);
    assert_eq!(shots, vec![0]);
    assert_eq!(enemies[0].enemy.next_shot, 3_000);
    assert_eq!(enemies[1].enemy.next_shot, 0);
    assert_eq!(enemies[1].enemy.last_outside, 2_000);
    assert_eq!(enemies[2].enemy.next_shot, 3_000);
}

#[test]
fn shoot_player_names_every_enemy_once_at_most() {
    let mut enemies: Vec<Bundle> = (0..20).map(|i| lander(i, 1_000 * i as i64, 0)).collect();
    let angles = vec![49_152u16; 20];
    let shots = shoot_player(&mut enemies, &angles, true, 0, 1_280_000, 2_000);
    assert_eq!(shots, (0..20).collect::<Vec<usize>>());
    let again = shoot_player(&mut enemies, &angles, true, 0, 1_280_000, 2_001);
    assert!(again.is_empty());
}

#[test]
fn shoot_player_does_nothing_without_a_player() {
    let mut enemies = vec![lander(1, 0, 0), lander(2, 900_000, 0)];
    let shots = shoot_player(&mut enemies, &Vec::new(), false, 0, 1_280_000, 2_000);
    assert!(shots.is_empty());
    for e in &enemies {
        assert_eq!(e.enemy.next_shot, 0);
        assert_eq!(e.enemy.last_outside, 0);
    }
}

#[test]
fn movement_leaves_the_persons_while_no_enemy_is_due() {
    let scroll = MapScroll::new(0);
    let mut enemies = vec![lander(10, 0, GROUND_Y + 40_000), lander(11, 500, GROUND_Y + 40_000)];
    for e in enemies.iter_mut() {
        e.enemy.next_desired_position = 9_000;
    }
    let mut persons = vec![grounded(1, 0), grounded(2, 500)];
    movement(&mut enemies, 9_000, 16, &mut persons, WINDOW_HEIGHT, &scroll);
    for p in &persons {
        assert_eq!(p.state, CharacterState::Grounded);
    }
    for e in &enemies {
        assert!(!e.enemy.has_person);
        assert_eq!(e.enemy.next_desired_position, 9_000);
    }
}

#[test]
fn movement_hunts_the_nearest_person_on_the_ground() {
    let scroll = MapScroll::new(0);
    let mut enemies = vec![lander(10, 0, 300_000)];
    let mut persons = vec![
        grounded(1, 300_000),
        person::bundle(2, v(10_000, 300_000), CharacterState::Falling),
        grounded(3, -100_000),
        person::bundle(4, v(0, 260_000), CharacterState::CapturedBy(99, v(0, -40_000))),
    ];
    movement(&mut enemies, 1, 16, &mut persons, WINDOW_HEIGHT, &scroll);
    assert_eq!(enemies[0].enemy.desired_position, v(-100_000, GROUND_Y + 40_000));
    assert!(!enemies[0].enemy.has_person);
    assert_eq!(persons[0].state, CharacterState::Grounded);
    assert_eq!(persons[1].state, CharacterState::Falling);
    assert_eq!(persons[2].state, CharacterState::Grounded);
    assert_eq!(persons[3].state, CharacterState::CapturedBy(99, v(0, -40_000)));
}

#[test]
fn movement_lets_the_second_enemy_find_the_person_taken() {
    let scroll = MapScroll::new(0);
    let mut enemies = vec![lander(10, 0, GROUND_Y + 40_000), lander(11, 0, GROUND_Y + 40_000)];
    let mut persons = vec![grounded(1, 0), grounded(2, 200_000)];
    movement(&mut enemies, 1, 16, &mut persons, WINDOW_HEIGHT, &scroll);
    assert_eq!(persons[0].state, CharacterState::CapturedBy(10, v(0, -40_000)));
    assert_eq!(persons[1].state, CharacterState::Grounded);
    // The second enemy heads for the character that is left.
    assert_eq!(enemies[1].enemy.desired_position, v(200_000, GROUND_Y + 40_000));
}

#[test]
fn a_carrying_enemy_takes_no_second_person() {
    let scroll = MapScroll::new(0);
    let mut enemies = vec![lander(10, 0, GROUND_Y + 40_000)];
    enemies[0].enemy.has_person = true;
    let mut persons = vec![grounded(1, 0)];
    movement(&mut enemies, 1, 16, &mut persons, WINDOW_HEIGHT, &scroll);
    assert_eq!(persons[0].state, CharacterState::Grounded);
    assert_eq!(enemies[0].enemy.desired_position.y, BAND_TOP);
    assert!(enemies[0].enemy.desired_position.x.abs() <= 400_000);
}

#[test]
fn shoot_at_full_accuracy_never_misses() {
    for now in 1_000..1_200u64 {
        let mut e = lander(1, 0, 0).enemy;
        assert!(e.shoot(true, now, 1_000, 16_384));
        let mut f = lander(1, 0, 0).enemy;
        assert!(f.shoot(true, now, 250, 49_152));
    }
}

#[test]
fn enemy_well_formedness_test_agrees_with_the_invariant() {
    let mut e = lander(1, 0, 0);
    assert!(e.is_wf());
    e.enemy.desired_position = v(2_000_000_000_000, 0);
    assert!(e.is_wf());
    e.enemy.desired_position = v(2_000_000_000_001, 0);
    assert!(!e.is_wf());
    e.enemy.desired_position = v(0, 0);
    e.position = v(0, 1_000_000_000_001);
    assert!(!e.is_wf());
}

#[test]
fn mutant_transform_swaps_the_variant_at_the_top() {
    let mut e = lander(1, 500, BAND_TOP - 50_000);
    assert!(e.mutant_transform(WINDOW_HEIGHT, 9).is_none());
    e.enemy.has_person = true;
    e.enemy.next_shot = 77;
    let m = e.mutant_transform(WINDOW_HEIGHT, 9).unwrap();
    assert_eq!(m.entity, 9);
    assert_eq!(m.position, v(500, BAND_TOP - 50_000));
    assert_eq!(m.variant_data, Mutant::data());
    assert!(!m.enemy.has_person);
    assert_eq!(m.enemy.next_shot, 0);
    assert_eq!(m.enemy.desired_position, m.position);
    e.position.y = BAND_TOP - 51_000;
    assert!(e.mutant_transform(WINDOW_HEIGHT, 9).is_none());
    e.position.y = BAND_TOP - 50_999;
    assert!(e.mutant_transform(WINDOW_HEIGHT, 9).is_some());
}

#[test]
fn mutant_transform_of_the_table_keeps_the_places() {
    let mut enemies = vec![lander(1, 0, 100_000), lander(2, 0, BAND_TOP), lander(3, 0, BAND_TOP)];
    enemies[1].enemy.has_person = true;
    let mut next = 50u64;
    mutant_transform(&mut enemies, WINDOW_HEIGHT, &mut next);
    assert_eq!(next, 51);
    assert_eq!(enemies.len(), 3);
    assert_eq!(enemies[0].entity, 1);
    assert_eq!(enemies[1].entity, 50);
    assert!(enemies[1].variant_data.mutated);
    assert_eq!(enemies[2].entity, 3);
    assert!(!enemies[2].variant_data.mutated);
}

#[test]
fn laser_hit_removes_scores_and_explodes() {
    let mut enemies = vec![lander(1, 10, 10), lander(2, 20, 20), lander(3, 30, 30)];
    enemies[0].laser_hit.hit_entity = Some(100);
    enemies[2].laser_hit.hit_entity = Some(101);
    let mut score = Score { value: 7 };
    let mut count = EnemiesCount { count: 3, wave: 5 };
    let mut explosions = vec![At { position: v(0, 0) }];
    laser_hit(&mut enemies, &mut score, &mut count, &mut explosions);
    assert_eq!(enemies.len(), 1);
    assert_eq!(enemies[0].entity, 2);
    assert_eq!(score.value, 9);
    assert_eq!(count, EnemiesCount { count: 1, wave: 5 });
    assert_eq!(
        explosions,
        vec![At { position: v(0, 0) }, At { position: v(10, 10) }, At { position: v(30, 30) }]
    );
}

#[test]
fn player_hit_ends_the_round() {
    let mut enemies = vec![lander(1, 10, 10), lander(2, 20, 20), lander(3, 30, 30)];
    enemies[1].player_hit.hit_entity = Some(100);
    enemies[2].player_hit.hit_entity = Some(100);
    let mut count = EnemiesCount { count: 3, wave: 5 };
    let mut explosions = Vec::new();
    let player = Some(Located { entity: 100, position: v(21, 21) });
    assert_eq!(player_hit(&mut enemies, player, &mut count, &mut explosions), Some(GameOver));
    assert_eq!(enemies.len(), 2);
    assert_eq!(enemies[0].entity, 1);
    assert_eq!(enemies[1].entity, 3);
    assert_eq!(count.count, 2);
    assert_eq!(explosions, vec![At { position: v(21, 21) }, At { position: v(20, 20) }]);
}

#[test]
fn player_hit_ignores_a_player_that_is_gone() {
    let mut enemies = vec![lander(1, 10, 10)];
    enemies[0].player_hit.hit_entity = Some(100);
    let mut count = EnemiesCount { count: 1, wave: 5 };
    let mut explosions = Vec::new();
    assert_eq!(player_hit(&mut enemies, None, &mut count, &mut explosions), None);
    let other = Some(Located { entity: 101, position: v(0, 0) });
    assert_eq!(player_hit(&mut enemies, other, &mut count, &mut explosions), None);
    assert_eq!(enemies.len(), 1);
    assert_eq!(count.count, 1);
    assert!(explosions.is_empty());
}

#[test]
fn release_person_frees_the_captor_only() {
    let mut enemies = vec![lander(1, 0, 0), lander(2, 0, 0)];
    enemies[0].enemy.has_person = true;
    enemies[1].enemy.has_person = true;
    release_person(&mut enemies, 2);
    assert!(enemies[0].enemy.has_person);
    assert!(!enemies[1].enemy.has_person);
    release_person(&mut enemies, 9);
    assert!(enemies[0].enemy.has_person);
}

#[test]
fn detect_hits_tests_lasers_and_the_craft_against_enemies() {
    let view = defender::hit::Viewport { center: v(0, 300_000), size: v(1_280_000, 720_000) };
    let lasers = vec![defender::hit::Striker {
        entity: 50,
        position: v(100_000, 300_000),
        bound: v(400_000, 2_375),
    }];
    let crafts = vec![defender::hit::Striker {
        entity: 100,
        position: v(-300_000, 320_000),
        bound: v(16_000, 16_000),
    }];
    let mut enemies = vec![lander(1, 0, 300_000), lander(2, -300_000, 300_000), lander(3, 100_000, 400_000)];
    defender::enemy::detect_hits(&mut enemies, view, &lasers, &crafts);
    assert_eq!(enemies[0].laser_hit.hit_entity, Some(50));
    assert_eq!(enemies[0].player_hit.hit_entity, None);
    assert_eq!(enemies[1].laser_hit.hit_entity, None);
    assert_eq!(enemies[1].player_hit.hit_entity, Some(100));
    assert_eq!(enemies[2].laser_hit.hit_entity, None);
}
