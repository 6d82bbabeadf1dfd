use dcs_hemmecs::data::dcs::{Position, Vec3};
use dcs_hemmecs::projection::is_behind;

const ONE: i64 = 1_000_000;

fn v(x: i64, y: i64, z: i64) -> Vec3 {
    Vec3 { x, y, z }
}

fn camera(forward: Vec3, place: Vec3) -> Position {
    Position { x: forward, y: v(0, ONE, 0), z: v(0, 0, ONE), p: place }
}

#[test]
fn behind_the_camera() {
    let cam = camera(v(ONE, 0, 0), v(10 * ONE, 0, 0));
    assert!(is_behind(&v(9 * ONE, 50 * ONE, -3 * ONE), &cam));
    assert!(is_behind(&v(10 * ONE - 1, 0, 0), &cam));
    assert!(!is_behind(&v(10 * ONE, 7 * ONE, 7 * ONE), &cam));
    assert!(!is_behind(&v(11 * ONE, 0, 0), &cam));
}

#[test]
fn behind_a_turned_camera() {
    let cam = camera(v(-600_000, 0, 800_000), v(0, 5 * ONE, 0));
    assert!(!is_behind(&v(-3 * ONE, 0, 4 * ONE), &cam));
    assert!(is_behind(&v(3 * ONE, 0, -4 * ONE), &cam));
    // on the plane through the camera
    assert!(!is_behind(&v(4 * ONE, 99 * ONE, 3 * ONE), &cam));
    assert!(is_behind(&v(4 * ONE + 1, 99 * ONE, 3 * ONE), &cam));
}

#[test]
fn behind_at_the_ends_of_the_range() {
    let cam = camera(v(i64::MAX, i64::MAX, i64::MAX), v(i64::MIN, i64::MIN, i64::MIN));
    assert!(!is_behind(&v(i64::MAX, i64::MAX, i64::MAX), &cam));
    let cam = camera(v(i64::MIN, i64::MIN, i64::MIN), v(i64::MIN, i64::MIN, i64::MIN));
    assert!(is_behind(&v(i64::MAX, i64::MAX, i64::MAX), &cam));
    assert!(!is_behind(&v(i64::MIN, i64::MIN, i64::MIN), &cam));
    let cam = camera(v(i64::MIN, i64::MAX, 3), v(i64::MIN, i64::MIN, 0));
    assert!(is_behind(&v(i64::MAX, i64::MAX, -1), &cam));
    assert!(!is_behind(&v(i64::MAX, i64::MAX, i64::MAX), &cam));
}

#[test]
fn point_behind_the_camera_is_not_shown() {
    let cam = camera(v(ONE, 0, 0), v(0, 0, 0));
    let behind = v(-ONE, 0, 0);
    for transformed in [None, Some(v(5, 5, 5)), Some(v(0, 0, 2 * ONE))] {
        assert_eq!(behind.project((1920, 1080), &cam, transformed), None);
    }
}

#[test]
fn point_with_depth_below_zero_is_not_shown() {
    let cam = camera(v(ONE, 0, 0), v(0, 0, 0));
    let ahead = v(ONE / 2, 0, 0);
    assert_eq!(ahead.project((1920, 1080), &cam, Some(v(3, 4, -1))), None);
    assert_eq!(ahead.project((1920, 1080), &cam, None), None);
}

#[test]
fn rows_count_downwards() {
    let cam = camera(v(ONE, 0, 0), v(0, 0, 0));
    let ahead = v(100 * ONE, 0, 0);
    assert_eq!(
        ahead.project((1920, 1080), &cam, Some(v(960 * ONE, 540 * ONE, 990_000))),
        Some((960 * ONE, 540 * ONE))
    );
    assert_eq!(
        ahead.project((1920, 1080), &cam, Some(v(100 * ONE, 80 * ONE, 0))),
        Some((100 * ONE, 1000 * ONE))
    );
    assert_eq!(
        ahead.project((1920, 1080), &cam, Some(v(-5, 1081 * ONE, 0))),
        Some((-5, -ONE))
    );
    assert_eq!(ahead.project((0, 0), &cam, Some(v(1, 2, 3))), Some((1, -2)));
}

#[test]
fn rows_beyond_the_range_stop_at_its_ends() {
    let cam = camera(v(ONE, 0, 0), v(0, 0, 0));
    let ahead = v(100 * ONE, 0, 0);
    assert_eq!(
        ahead.project((1920, 1080), &cam, Some(v(0, i64::MIN, 0))),
        Some((0, i64::MAX))
    );
    assert_eq!(
        ahead.project((1920, i32::MIN), &cam, Some(v(0, i64::MAX, 0))),
        Some((0, i64::MIN))
    );
    assert_eq!(
        ahead.project((1920, 0), &cam, Some(v(0, i64::MAX, 0))),
        Some((0, -i64::MAX))
    );
}
