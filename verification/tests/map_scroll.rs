use defender::map::MapScroll;
use defender::map::HALF_SIZE;
use defender::map::SIZE;

#[test]
fn update_keeps_points_near_camera() {
    let scroll = MapScroll::new(0);
    assert_eq!(scroll.update(SIZE / 100 * 49), SIZE / 100 * 49);
    assert_eq!(scroll.update(SIZE / 100 * 51), -(SIZE / 100 * 49));
}

#[test]
fn update_is_idempotent() {
    for camera in [-7_000_000i64, -1, 0, 1, 2_495_000, 4_989_999, 123_456_789] {
        let scroll = MapScroll::new(camera);
        for x in [-10_000_000i64, -4_990_000, -1, 0, 1, 2_495_000, 2_495_001, 4_990_000, 77_777_777] {
            let once = scroll.update(x);
            assert_eq!(scroll.update(once), once);
            assert!((once - camera).abs() <= HALF_SIZE);
            assert_eq!((once - x).rem_euclid(SIZE), 0);
        }
    }
}
