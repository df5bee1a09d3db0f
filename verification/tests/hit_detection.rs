use defender::hit::box_intersection;
use defender::hit::detect_hits;
use defender::hit::hit;
use defender::hit::Hittable;
use defender::hit::Rect;
use defender::hit::Striker;
use defender::hit::Viewport;
use defender::projectile::Laser;
use defender::utils::Vec2;

fn v(x: i64, y: i64) -> Vec2 {
    Vec2 { x, y }
}

#[test]
fn boxes_apart_on_x_do_not_intersect() {
    assert_eq!(box_intersection(v(0, 0), v(10, 10), v(20, 0), v(10, 10)), None);
}

#[test]
fn boxes_apart_on_y_do_not_intersect() {
    assert_eq!(box_intersection(v(0, 0), v(10, 10), v(0, 11), v(10, 10)), None);
}

#[test]
fn touching_boxes_do_not_intersect() {
    assert_eq!(box_intersection(v(0, 0), v(10, 10), v(10, 0), v(10, 10)), None);
    assert_eq!(box_intersection(v(0, 0), v(10, 10), v(0, -10), v(10, 10)), None);
}

#[test]
fn containing_box_yields_the_inner_box() {
    let inner = Rect::from_center(v(3, -2), v(4, 6));
    assert_eq!(box_intersection(v(0, 0), v(100, 100), v(3, -2), v(4, 6)), Some(inner));
    assert_eq!(box_intersection(v(3, -2), v(4, 6), v(0, 0), v(100, 100)), Some(inner));
}

#[test]
fn overlap_is_exact_in_half_ticks() {
    // [-5, 5] and [2, 9] share [2, 5]; the edges are counted in half ticks.
    let r = box_intersection(v(0, 0), v(10, 10), v(5, 0), v(7, 3)).unwrap();
    assert_eq!(r, Rect { min_x: 3, max_x: 10, min_y: -3, max_y: 3 });
}

#[test]
fn from_center_doubles_the_edges() {
    assert_eq!(
        Rect::from_center(v(1, 2), v(3, 5)),
        Rect { min_x: -1, max_x: 5, min_y: -1, max_y: 9 }
    );
}

#[test]
fn from_center_takes_the_largest_coordinates() {
    let r = Rect::from_center(v(i64::MAX, i64::MIN), v(i64::MAX, i64::MAX));
    assert_eq!(r.max_x, 3 * (i64::MAX as i128));
    assert_eq!(r.min_y, 2 * (i64::MIN as i128) - i64::MAX as i128);
}

#[test]
fn hit_clips_the_striker_to_the_viewport() {
    // The striker reaches from 90 to 110, the viewport ends at 100 and the
    // target starts at 102: only the part off screen touches the target.
    let none = hit(v(0, 0), v(200, 200), v(100, 0), v(20, 20), v(107, 0), v(10, 10));
    assert_eq!(none, None);
    let unclipped = box_intersection(v(100, 0), v(20, 20), v(107, 0), v(10, 10));
    assert!(unclipped.is_some());
    let some = hit(v(0, 0), v(200, 200), v(100, 0), v(20, 20), v(97, 0), v(10, 10));
    assert_eq!(some, Some(Rect { min_x: 184, max_x: 200, min_y: -10, max_y: 10 }));
}

fn view() -> Viewport {
    Viewport { center: v(0, 0), size: v(1_000, 1_000) }
}

#[test]
fn first_of_three_strikers_is_recorded() {
    let strikers = vec![
        Striker { entity: 11, position: v(1, 0), bound: v(10, 10) },
        Striker { entity: 12, position: v(0, 1), bound: v(10, 10) },
        Striker { entity: 13, position: v(0, 0), bound: v(10, 10) },
    ];
    let mut target: Hittable<Laser> = Hittable::new(v(10, 10));
    assert_eq!(target.hit_entity, None);
    target.detect(view(), &strikers, v(0, 0));
    assert_eq!(target.hit_entity, Some(11));
    assert_eq!(target.hitbox, v(10, 10));
    assert_eq!(target.take_hit(), Some(11));
    assert_eq!(target.hit_entity, None);
    assert_eq!(target.take_hit(), None);
}

#[test]
fn recorded_hit_is_not_overwritten() {
    let first = vec![Striker { entity: 5, position: v(0, 0), bound: v(10, 10) }];
    let second = vec![Striker { entity: 6, position: v(0, 0), bound: v(10, 10) }];
    let mut target: Hittable<Laser> = Hittable::new(v(10, 10));
    target.detect(view(), &first, v(0, 0));
    target.detect(view(), &second, v(0, 0));
    assert_eq!(target.hit_entity, Some(5));
}

#[test]
fn strikers_that_miss_are_passed_over() {
    let strikers = vec![
        Striker { entity: 1, position: v(500, 0), bound: v(10, 10) },
        Striker { entity: 2, position: v(3, 3), bound: v(10, 10) },
    ];
    let mut target: Hittable<Laser> = Hittable::new(v(10, 10));
    target.detect(view(), &strikers, v(0, 0));
    assert_eq!(target.hit_entity, Some(2));
    let mut far: Hittable<Laser> = Hittable::new(v(10, 10));
    far.detect(view(), &strikers, v(-400, -400));
    assert_eq!(far.hit_entity, None);
}

#[test]
fn detect_hits_fills_the_table() {
    let strikers = vec![
        Striker { entity: 1, position: v(100, 0), bound: v(10, 10) },
        Striker { entity: 2, position: v(-100, 0), bound: v(10, 10) },
    ];
    let positions = vec![v(-100, 2), v(0, 0), v(100, -2)];
    let mut table: Vec<Hittable<Laser>> =
        vec![Hittable::new(v(10, 10)), Hittable::new(v(10, 10)), Hittable::new(v(10, 10))];
    table[2].hit_entity = Some(99);
    detect_hits(view(), &strikers, &positions, &mut table);
    assert_eq!(table[0].hit_entity, Some(2));
    assert_eq!(table[1].hit_entity, None);
    assert_eq!(table[2].hit_entity, Some(99));
}
