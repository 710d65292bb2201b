use pooltouhou::collide::{CollideType, ShapeError};
use pooltouhou::transform::Vec3;

fn v(x: i64, y: i64, z: i64) -> Vec3 {
    Vec3 { x, y, z }
}

#[test]
fn point_test_inclusive_boundary() {
    let c = CollideType::Circle(9_000_000);
    assert!(c.is_collide_with_point(&v(0, 0, 0), &v(3000, 0, 0)));
    assert!(!c.is_collide_with_point(&v(0, 0, 0), &v(3001, 0, 0)));
}

#[test]
fn point_test_symmetric_in_distance() {
    let c = CollideType::Circle(2_000_000);
    let a = v(500, 700, 3);
    let b = v(-300, 1100, -9);
    assert_eq!(
        c.is_collide_with_point(&a, &b),
        c.is_collide_with_point(&b, &a)
    );
    let far_a = v(0, 0, 0);
    let far_b = v(5000, 5000, 0);
    assert_eq!(
        c.is_collide_with_point(&far_a, &far_b),
        c.is_collide_with_point(&far_b, &far_a)
    );
}

#[test]
fn point_test_ignores_z() {
    let c = CollideType::Circle(1_000_000);
    let hit_flat = c.is_collide_with_point(&v(0, 0, 0), &v(900, 0, 0));
    let hit_deep = c.is_collide_with_point(&v(0, 0, 123_456), &v(900, 0, -999_999));
    assert!(hit_flat);
    assert_eq!(hit_flat, hit_deep);
}

#[test]
fn zero_circle_delegates_to_point_test() {
    let zero = CollideType::Circle(0);
    let target = CollideType::Circle(25_000_000);
    let me = v(3000, 4000, 0);
    let other = v(0, 0, 0);
    assert_eq!(
        zero.is_collide_with(&me, &target, &other),
        target.is_collide_with_point(&me, &other)
    );
    let far = v(90_000, 0, 0);
    assert!(!zero.is_collide_with(&far, &target, &other));
}

#[test]
fn positive_circles_report_overlap_unconditionally() {
    let a = CollideType::Circle(1);
    let b = CollideType::Circle(1);
    assert!(a.is_collide_with(&v(0, 0, 0), &b, &v(1_000_000, 1_000_000, 0)));
}

#[test]
fn shape_round_trip_from_tag() {
    let c = CollideType::try_from(10, &vec![3000]).unwrap();
    assert_eq!(c, CollideType::Circle(9_000_000));
    assert!(c.is_collide_with_point(&v(0, 0, 0), &v(0, 3000, 0)));
}

#[test]
fn unknown_tag_is_rejected() {
    let r = CollideType::try_from(9, &vec![3000]);
    assert_eq!(r, Err(ShapeError::InvalidShapeTag(9)));
}

#[test]
fn circle_takes_one_argument() {
    assert_eq!(CollideType::get_arg_count(10), 1);
}
