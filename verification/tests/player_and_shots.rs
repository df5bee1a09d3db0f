use defender::camera::camera_look_ahead;
use defender::camera::follow_player;
use defender::enemy::bundle;
use defender::enemy::EnemiesCount;
use defender::enemy::Lander;
use defender::explosion::spark_angle;
use defender::explosion::At;
use defender::game_over::ChangeState;
use defender::game_over::GameOver;
use defender::hit::Hittable;
use defender::hit::Striker;
use defender::hit::Viewport;
use defender::map::confine;
use defender::map::playing_band_top;
use defender::map::scroll;
use defender::map::MapScroll;
use defender::map::Ready;
use defender::map::SIZE;
use defender::menu::button_change;
use defender::menu::Button;
use defender::menu::Pressed;
use defender::player::init_controls;
use defender::player::laser_hit;
use defender::player::movement;
use defender::player::Controls;
use defender::player::Player;
use defender::projectile::despawn_outside_window;
use defender::projectile::strikers;
use defender::projectile::travel;
use defender::projectile::Bundle;
use defender::projectile::Laser;
use defender::projectile::Orb;
use defender::projectile::Projectile;
use defender::score::Score;
use defender::state::toggle_simulation_state;
use defender::state::Simulation;
use defender::utils::Side;
use defender::utils::Vec2;

fn v(x: i64, y: i64) -> Vec2 {
    Vec2 { x, y }
}

fn shot(entity: u64, x: i64, y: i64, damaging: bool) -> Bundle {
    Bundle {
        entity,
        position: v(x, y),
        projectile: Projectile { velocity: v(4_800_000, 0) },
        bound: Laser::bound(),
        damaging,
    }
}

#[test]
fn controls_facing_prefers_left() {
    let mut c = init_controls();
    assert_eq!(c.facing(), None);
    assert!(!c.thrust());
    assert_eq!(c.vertical(), 0);
    c.move_right = true;
    assert_eq!(c.facing(), Some(Side::Right));
    assert!(c.thrust());
    c.move_left = true;
    assert_eq!(c.facing(), Some(Side::Left));
    c.move_up = true;
    assert_eq!(c.vertical(), 1);
    c.move_down = true;
    assert_eq!(c.vertical(), 0);
    c.move_up = false;
    assert_eq!(c.vertical(), -1);
}

#[test]
fn steer_accelerates_toward_the_side_asked_for() {
    let mut p = Player::new();
    let right = Controls { move_right: true, ..init_controls() };
    p.steer(&right, 100);
    assert_eq!(p.horizontal_speed, 160_000);
    assert_eq!(p.facing, Side::Right);
    p.steer(&right, 1_000);
    assert_eq!(p.horizontal_speed, 600_000);
    let left = Controls { move_left: true, ..init_controls() };
    p.steer(&left, 100);
    assert_eq!(p.horizontal_speed, 440_000);
    assert_eq!(p.facing, Side::Left);
}

#[test]
fn steer_slows_down_without_thrust() {
    let mut p = Player { facing: Side::Left, horizontal_speed: -600_000, next_shot_time: 0 };
    p.steer(&init_controls(), 60);
    assert_eq!(p.horizontal_speed, -594_000);
    assert_eq!(p.facing, Side::Left);
    let mut slow = Player { facing: Side::Right, horizontal_speed: 5, next_shot_time: 0 };
    slow.steer(&init_controls(), 16);
    assert_eq!(slow.horizontal_speed, 5);
}

#[test]
fn movement_flies_the_craft() {
    let mut p = Player::new();
    let c = Controls { move_right: true, move_up: true, ..init_controls() };
    let at = movement(&mut p, v(1_000, 2_000), &c, 100);
    assert_eq!(p.horizontal_speed, 160_000);
    assert_eq!(at, v(17_000, 42_000));
    let down = Controls { move_down: true, ..init_controls() };
    let at = movement(&mut p, at, &down, 10);
    assert_eq!(p.horizontal_speed, 159_734);
    assert_eq!(at, v(17_000 + 1_597, 42_000 - 4_000));
}

#[test]
fn try_shooting_waits_for_the_delay() {
    let mut p = Player::new();
    let c = Controls { shoot: true, ..init_controls() };
    assert!(p.try_shooting(&c, 0));
    assert_eq!(p.next_shot_time, 300);
    assert!(!p.try_shooting(&c, 299));
    assert!(p.try_shooting(&c, 300));
    assert_eq!(p.next_shot_time, 600);
    assert!(!p.try_shooting(&init_controls(), 10_000));
    assert_eq!(p.next_shot_time, 600);
}

#[test]
fn orb_hit_destroys_the_craft() {
    let mut h: Hittable<Orb> = Hittable::new(Player::bound());
    assert_eq!(laser_hit(&mut h, v(1, 2)), None);
    h.hit_entity = Some(8);
    assert_eq!(laser_hit(&mut h, v(1, 2)), Some((At { position: v(1, 2) }, GameOver)));
    assert_eq!(h.hit_entity, None);
    assert_eq!(h.hitbox, v(16_000, 16_000));
}

#[test]
fn travel_rounds_toward_zero() {
    assert_eq!(travel(4_800_000, 16), 76_800);
    assert_eq!(travel(-4_800_000, 16), -76_800);
    assert_eq!(travel(999, 1), 0);
    assert_eq!(travel(-999, 1), 0);
    assert_eq!(travel(1_999, 1), 1);
    assert_eq!(travel(-1_999, 1), -1);
    assert_eq!(travel(1_000_000_000, u32::MAX), 4_294_967_295_000_000);
}

#[test]
fn projectile_moves_along_its_velocity() {
    let p = Projectile { velocity: v(300_000, -150_000) };
    assert_eq!(p.movement(v(10, 20), 16), v(4_810, -2_380));
    assert_eq!(p.movement(v(10, 20), 0), v(10, 20));
}

#[test]
fn shots_outside_the_window_are_removed() {
    let view = Viewport { center: v(0, 300_000), size: v(1_280_000, 720_000) };
    let mut shots = vec![
        shot(1, 0, 300_000, true),
        shot(2, 840_000, 300_000, true),
        shot(3, 839_999, 300_000, false),
        shot(4, 0, 661_188, true),
        shot(5, -2_000_000, 300_000, true),
    ];
    despawn_outside_window(view, &mut shots);
    assert_eq!(shots.iter().map(|s| s.entity).collect::<Vec<_>>(), vec![1, 3]);
}

#[test]
fn decorative_shots_do_not_strike() {
    let shots = vec![shot(1, 0, 0, true), shot(2, 5, 5, false), shot(3, 9, 9, true)];
    assert_eq!(
        strikers(&shots),
        vec![
            Striker { entity: 1, position: v(0, 0), bound: Laser::bound() },
            Striker { entity: 3, position: v(9, 9), bound: Laser::bound() },
        ]
    );
    assert_eq!(Orb::bound(), v(16_000, 16_000));
    assert_eq!(Laser::bound(), v(400_000, 2_375));
}

#[test]
fn confine_keeps_to_the_band() {
    assert_eq!(playing_band_top(720_000), 630_000);
    assert_eq!(confine(0, 720_000), 50_000);
    assert_eq!(confine(50_000, 720_000), 50_000);
    assert_eq!(confine(300_000, 720_000), 300_000);
    assert_eq!(confine(580_000, 720_000), 580_000);
    assert_eq!(confine(580_001, 720_000), 580_000);
    assert_eq!(confine(i64::MAX, 720_000), 580_000);
    assert_eq!(confine(i64::MIN, 720_000), 50_000);
}

#[test]
fn scroll_projects_every_position() {
    let mut positions = vec![v(0, 1), v(SIZE - 10, 2), v(3 * SIZE + 5, 3), v(-SIZE / 2 - 1, 4)];
    let context = scroll(0, &mut positions);
    assert_eq!(context, MapScroll::new(0));
    assert_eq!(positions, vec![v(0, 1), v(-10, 2), v(5, 3), v(SIZE / 2 - 1, 4)]);
}

#[test]
fn map_scroll_follows_the_camera() {
    let s = MapScroll::new(-1);
    assert_eq!(s, MapScroll { map_index: -1, camera_x: SIZE - 1, real_camera_x: -1 });
    assert_eq!(s.update(0), 0);
    assert_eq!(s.update(SIZE - 1), -1);
    let far = MapScroll::new(10 * SIZE + 100);
    assert_eq!(far.map_index, 10);
    assert_eq!(far.update(50), 10 * SIZE + 50);
    assert_eq!(far.update(SIZE - 50), 10 * SIZE - 50);
}

#[test]
fn seam_lies_half_a_world_from_the_camera() {
    let s = MapScroll::new(0);
    assert_eq!(s.update(SIZE / 2), SIZE / 2);
    assert_eq!(s.update(SIZE / 2 + 1), -SIZE / 2 + 1);
    assert_eq!(s.update(-SIZE / 2), SIZE / 2);
}

#[test]
fn minimap_shows_the_camera_in_the_middle() {
    let m = Ready::new(0);
    assert_eq!(m.offset, SIZE / 2);
    assert_eq!(m.minimap_x(0), SIZE / 2);
    assert_eq!(m.minimap_x(-SIZE / 2), 0);
    assert_eq!(m.minimap_x(SIZE / 2 - 1), SIZE - 1);
    let n = Ready::new(1_000_000);
    assert_eq!(n.offset, SIZE / 2 - 1_000_000);
    assert_eq!(n.minimap_x(1_000_000), SIZE / 2);
    assert_eq!(n.minimap_x(1_000_000 + SIZE), SIZE / 2);
}

#[test]
fn camera_looks_ahead_of_the_craft() {
    assert_eq!(camera_look_ahead(600_000, 1_280_000), 395_520);
    assert_eq!(camera_look_ahead(-600_000, 1_280_000), -395_520);
    assert_eq!(camera_look_ahead(300_000, 1_280_000), 197_760);
    assert_eq!(camera_look_ahead(0, 1_280_000), 0);
    let p = Player { facing: Side::Right, horizontal_speed: 600_000, next_shot_time: 0 };
    assert_eq!(follow_player(0, 0, &p, 1_280_000, 16), 12_000);
    assert_eq!(follow_player(390_000, 0, &p, 1_280_000, 16), 395_520);
    assert_eq!(follow_player(500_000, 0, &p, 1_280_000, 16), 488_000);
}

#[test]
fn simulation_toggles_on_a_press() {
    assert_eq!(Simulation::default(), Simulation::Paused);
    assert_eq!(toggle_simulation_state(false, Simulation::Paused), None);
    assert_eq!(toggle_simulation_state(true, Simulation::Paused), Some(Simulation::Running));
    assert_eq!(toggle_simulation_state(true, Simulation::Running), Some(Simulation::Paused));
}

#[test]
fn game_over_pauses_after_its_delay() {
    let c = ChangeState { elapsed: 1_000 };
    assert_eq!(c.change_state(1_500), None);
    assert_eq!(c.change_state(1_501), Some(Simulation::Paused));
    let late = ChangeState { elapsed: u64::MAX };
    assert_eq!(late.change_state(u64::MAX), None);
}

#[test]
fn play_starts_a_new_round_when_the_player_is_gone() {
    let mut enemies = vec![bundle::<Lander>(1, v(0, 0), false)];
    let mut shots = vec![shot(2, 0, 0, true)];
    let mut count = EnemiesCount { count: 1, wave: 7 };
    let mut score = Score { value: 900 };
    let pressed =
        button_change(Button::Play, false, &mut enemies, &mut shots, &mut count, &mut score);
    assert_eq!(pressed, Pressed::Run { spawn_player: true });
    assert!(enemies.is_empty());
    assert!(shots.is_empty());
    assert_eq!(count, EnemiesCount { count: 0, wave: 0 });
    assert_eq!(score.value, 0);
}

#[test]
fn play_resumes_a_round_that_runs() {
    let mut enemies = vec![bundle::<Lander>(1, v(0, 0), false)];
    let mut shots = vec![shot(2, 0, 0, true)];
    let mut count = EnemiesCount { count: 1, wave: 7 };
    let mut score = Score { value: 900 };
    let pressed =
        button_change(Button::Play, true, &mut enemies, &mut shots, &mut count, &mut score);
    assert_eq!(pressed, Pressed::Run { spawn_player: false });
    let exit = button_change(Button::Exit, false, &mut enemies, &mut shots, &mut count, &mut score);
    assert_eq!(exit, Pressed::Exit);
    assert_eq!(enemies.len(), 1);
    assert_eq!(shots.len(), 1);
    assert_eq!(count, EnemiesCount { count: 1, wave: 7 });
    assert_eq!(score.value, 900);
    assert_eq!(Button::Play.hue(), 120);
    assert_eq!(Button::Exit.hue(), 0);
}

#[test]
fn sparks_cover_a_full_turn() {
    assert_eq!(spark_angle(0), 0);
    assert_eq!(spark_angle(1), 4_369);
    assert_eq!(spark_angle(15), 65_536);
}

#[test]
fn craft_spawns_where_the_camera_looks() {
    let (at, p, h) = defender::player::spawn(v(10, 360_000));
    assert_eq!(at, v(10, 360_000));
    assert_eq!(p, Player::new());
    assert_eq!(p.facing, Side::Right);
    assert_eq!(h.hit_entity, None);
    assert_eq!(defender::camera::window_height_center(720_000), 360_000);
}

#[test]
fn laser_shot_starts_ahead_of_the_nose() {
    let right = defender::projectile::laser_shot(5, v(1_000, 2_000), Side::Right);
    assert_eq!(right.entity, 5);
    assert_eq!(right.position, v(1_000 + 35_000 + 200_000, 2_000));
    assert_eq!(right.projectile.velocity, v(4_800_000, 0));
    assert_eq!(right.bound, Laser::bound());
    assert!(right.damaging);
    let left = defender::projectile::laser_shot(6, v(1_000, 2_000), Side::Left);
    assert_eq!(left.position, v(1_000 - 235_000, 2_000));
    assert_eq!(left.projectile.velocity, v(-4_800_000, 0));
    assert!(left.projectile.is_wf());
}

#[test]
fn orb_shot_starts_at_the_muzzle() {
    let up = defender::projectile::orb_shot(7, v(100, 200), v(0, 1_000_000));
    assert_eq!(up.position, v(100, 50_200));
    assert_eq!(up.projectile.velocity, v(0, 300_000));
    assert_eq!(up.bound, Orb::bound());
    assert!(up.damaging);
    let slanted = defender::projectile::orb_shot(8, v(0, 0), v(-600_000, 800_000));
    assert_eq!(slanted.position, v(-30_000, 40_000));
    assert_eq!(slanted.projectile.velocity, v(-180_000, 240_000));
    let fine = defender::projectile::orb_shot(9, v(0, 0), v(333_333, -1));
    assert_eq!(fine.position, v(16_666, 0));
    assert_eq!(fine.projectile.velocity, v(99_999, 0));
}

#[test]
fn stretch_keeps_to_the_length() {
    assert_eq!(defender::projectile::stretch(v(1_000_000, -1_000_000), 8_000), v(8_000, -8_000));
    assert_eq!(defender::projectile::stretch(v(500_000, -250_000), 7), v(3, -1));
    assert_eq!(defender::projectile::stretch(v(0, 0), 1_000_000_000), v(0, 0));
    assert!(defender::projectile::direction_ok(v(1_000_000, -1_000_000)));
    assert!(!defender::projectile::direction_ok(v(1_000_001, 0)));
    assert!(!defender::projectile::direction_ok(v(0, -1_000_001)));
    assert!(Projectile { velocity: v(1_000_000_000, -1_000_000_000) }.is_wf());
    assert!(!Projectile { velocity: v(1_000_000_001, 0) }.is_wf());
}

#[test]
fn spark_is_decorative_and_short_lived() {
    let (shot, until) =
        defender::explosion::spark(3, At { position: v(10, 20) }, v(1_000_000, 0), 1_000);
    assert_eq!(shot.entity, 3);
    assert_eq!(shot.position, v(8_010, 20));
    assert_eq!(shot.projectile.velocity, v(400_000, 0));
    assert_eq!(shot.bound, Orb::bound());
    assert!(!shot.damaging);
    assert_eq!(until.elapsed_ms, 1_500);
    assert!(strikers(&vec![shot]).is_empty());
}
