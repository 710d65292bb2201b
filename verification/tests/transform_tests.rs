use pooltouhou::transform::{Transform, Vec3};
use pooltouhou::trig::{cos_mdeg, norm_mdeg, sin_mdeg};
use pooltouhou::system::is_out_of_game;

fn at(x: i64, y: i64) -> Transform {
    let mut t = Transform::identity();
    t.set_translation_xyz(x, y, 0);
    t
}

#[test]
fn sine_is_exact_at_multiples_of_thirty_degrees() {
    assert_eq!(sin_mdeg(0), 0);
    assert_eq!(sin_mdeg(30_000), 500);
    assert_eq!(sin_mdeg(90_000), 1000);
    assert_eq!(sin_mdeg(150_000), 500);
    assert_eq!(sin_mdeg(180_000), 0);
    assert_eq!(sin_mdeg(270_000), -1000);
    assert_eq!(sin_mdeg(45_000), 705);
    assert_eq!(cos_mdeg(0), 1000);
    assert_eq!(cos_mdeg(90_000), 0);
    assert_eq!(cos_mdeg(180_000), -1000);
}

#[test]
fn angles_fold_into_one_turn() {
    assert_eq!(norm_mdeg(360_000), 0);
    assert_eq!(norm_mdeg(-90_000), 270_000);
    assert_eq!(norm_mdeg(725_000), 5_000);
}

#[test]
fn move_up_follows_the_heading() {
    let mut t = at(100_000, 100_000);
    t.move_up(30_000);
    assert_eq!(t.pos.x, 100_000);
    assert_eq!(t.pos.y, 130_000);

    let mut r = at(100_000, 100_000);
    r.set_rotation_z_mdeg(90_000);
    r.move_up(10_000);
    assert_eq!(r.pos.x, 90_000);
    assert_eq!(r.pos.y, 100_000);

    let mut d = at(100_000, 100_000);
    d.set_rotation_z_mdeg(180_000);
    d.move_up(10_000);
    assert_eq!(d.pos.x, 100_000);
    assert_eq!(d.pos.y, 90_000);
}

#[test]
fn despawn_margin_is_wider_than_the_playfield() {
    assert!(!is_out_of_game(&at(0, 0)));
    assert!(!is_out_of_game(&at(-100_000, 500_000)));
    assert!(is_out_of_game(&at(-100_001, 500_000)));
    assert!(!is_out_of_game(&at(1_700_000, 500_000)));
    assert!(is_out_of_game(&at(1_700_001, 500_000)));
    assert!(!is_out_of_game(&at(500_000, 1_000_000)));
    assert!(is_out_of_game(&at(500_000, 1_000_001)));
    assert!(is_out_of_game(&at(500_000, -100_001)));
}

#[test]
fn prepend_translation_shifts_z() {
    let mut t = at(5, 6);
    t.prepend_translation_z(-1000);
    assert_eq!(t.pos.z, -1000);
}
