use defender::random::scale_draw;
use defender::random::spread_draw;
use defender::utils::displace;
use defender::utils::find_position;
use defender::utils::floor_div_rem;
use defender::utils::follow;
use defender::utils::isqrt;
use defender::utils::my_fract;
use defender::utils::variant;
use defender::utils::DespawnTime;
use defender::utils::Follow;
use defender::utils::Located;
use defender::utils::Range;
use defender::utils::Side;
use defender::utils::Vec2;
use defender::utils::ISQRT_MAX;

#[test]
fn fract_is_always_positive() {
    assert_eq!(my_fract(7, 5), 2);
    assert_eq!(my_fract(-7, 5), 3);
    assert_eq!(my_fract(-5, 5), 0);
    assert_eq!(my_fract(0, 5), 0);
    assert_eq!(my_fract(i64::MIN, 1_000), 192);
    assert_eq!(my_fract(i64::MAX, 1_000), 807);
}

#[test]
fn floor_division_rounds_down() {
    assert_eq!(floor_div_rem(7, 5), (1, 2));
    assert_eq!(floor_div_rem(-7, 5), (-2, 3));
    assert_eq!(floor_div_rem(-10, 5), (-2, 0));
    assert_eq!(floor_div_rem(-1, 5), (-1, 4));
}

#[test]
fn isqrt_is_the_whole_root() {
    assert_eq!(isqrt(0), 0);
    assert_eq!(isqrt(1), 1);
    assert_eq!(isqrt(24), 4);
    assert_eq!(isqrt(25), 5);
    assert_eq!(isqrt(26), 5);
    assert_eq!(isqrt(1_000_000_000_000_000_000_012_345), 1_000_000_000_000);
    assert_eq!(isqrt(ISQRT_MAX), 0x7fff_ffff_ffff_ffff);
}

#[test]
fn displace_rounds_toward_zero() {
    assert_eq!(displace(3, 5, 1_000), 600);
    assert_eq!(displace(-3, 5, 1_000), -600);
    assert_eq!(displace(1, 3, 10), 3);
    assert_eq!(displace(-1, 3, 10), -3);
    assert_eq!(displace(0, 0, 10), 0);
}

#[test]
fn range_step_stops_at_the_end() {
    assert_eq!((Range { start: 0, end: 10 }).step(3), 3);
    assert_eq!((Range { start: 0, end: 10 }).step(10), 10);
    assert_eq!((Range { start: 0, end: 10 }).step(11), 10);
    assert_eq!((Range { start: 0, end: -10 }).step(3), -3);
    assert_eq!((Range { start: 0, end: -10 }).step(30), -10);
    assert_eq!((Range { start: 4, end: 4 }).step(0), 4);
    assert_eq!((Range { start: i64::MIN, end: i64::MAX }).step(5), i64::MIN + 5);
}

#[test]
fn side_sign() {
    assert_eq!(Side::Left.sign(), -1);
    assert_eq!(Side::Right.sign(), 1);
}

#[test]
fn scale_draw_covers_the_span() {
    assert_eq!(scale_draw(0, 4_990_000), 0);
    assert_eq!(scale_draw(0x8000_0000, 4_990_000), 2_495_000);
    assert_eq!(scale_draw(u32::MAX, 4_990_000), 4_989_999);
}

#[test]
fn spread_draw_is_centred() {
    assert_eq!(spread_draw(0, 400_000), -400_000);
    assert_eq!(spread_draw(0x4000_0000, 400_000), -200_000);
    assert_eq!(spread_draw(0x8000_0000, 400_000), 0);
    assert_eq!(spread_draw(u32::MAX, 400_000), 399_999);
    assert_eq!(spread_draw(12_345, 0), 0);
}

#[test]
fn find_position_takes_the_first_entry() {
    let live = vec![
        Located { entity: 1, position: Vec2 { x: 1, y: 1 } },
        Located { entity: 2, position: Vec2 { x: 2, y: 2 } },
        Located { entity: 2, position: Vec2 { x: 3, y: 3 } },
    ];
    assert_eq!(find_position(&live, 2), Some(Vec2 { x: 2, y: 2 }));
    assert_eq!(find_position(&live, 3), None);
}

#[test]
fn follower_keeps_its_offset() {
    let live = vec![Located { entity: 4, position: Vec2 { x: 100, y: 50 } }];
    let link = Follow { entity: 4, offset: Vec2 { x: -20, y: 5 } };
    assert_eq!(follow(&link, Vec2 { x: 0, y: 0 }, &live), Vec2 { x: 80, y: 55 });
    let lost = Follow { entity: 9, offset: Vec2 { x: -20, y: 5 } };
    assert_eq!(follow(&lost, Vec2 { x: 7, y: 8 }, &live), Vec2 { x: 7, y: 8 });
}

#[test]
fn despawn_time_is_inclusive() {
    let t = DespawnTime { elapsed_ms: 500 };
    assert!(!t.try_despawning(499));
    assert!(t.try_despawning(500));
    assert!(t.try_despawning(501));
}

#[test]
fn variant_joins_prefix_index_suffix() {
    let name = variant(("sprites/smoke/whitePuff", ".png"), String::from("07"));
    assert_eq!(name, "sprites/smoke/whitePuff07.png");
}

#[test]
fn distance_squared_is_exact() {
    let a = Vec2 { x: 3, y: 4 };
    let b = Vec2 { x: 0, y: 0 };
    assert_eq!(a.distance_squared(b), 25);
    assert_eq!(a.add_vec(Vec2 { x: -5, y: 6 }), Vec2 { x: -2, y: 10 });
}
