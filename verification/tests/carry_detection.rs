use platformer_core::carry::CarryDetector;
use platformer_core::config::Config;
use platformer_core::geometry::Vec2;
use platformer_core::player::Player;
use platformer_core::world::{BodyState, ColliderRef, RigidBodyRef};

fn detector() -> CarryDetector {
    CarryDetector::from_config(&Config::reference())
}

fn player() -> Player {
    Player::new(RigidBodyRef::new(0, 0), ColliderRef::new(0, 0))
}

fn at(x: i64, y: i64, vx: i64, vy: i64) -> BodyState {
    BodyState::new(Vec2::new(x, y), Vec2::new(vx, vy))
}

#[test]
fn detector_takes_extents_from_config() {
    let d = detector();
    assert_eq!(d.player_half_extent, Vec2 { x: 15_000, y: 15_000 });
    assert_eq!(d.platform_half_extent, Vec2 { x: 50_000, y: 10_000 });
}

#[test]
fn overlap_uses_both_half_extents() {
    let d = detector();
    let player_at = Vec2::new(0, 0);
    // 15 + 50 apart in x, 15 + 10 apart in y: the boxes touch.
    assert!(d.overlaps(player_at, Vec2::new(65_000, 0)));
    assert!(!d.overlaps(player_at, Vec2::new(65_001, 0)));
    assert!(d.overlaps(player_at, Vec2::new(0, 25_000)));
    assert!(!d.overlaps(player_at, Vec2::new(0, 25_001)));
    assert!(d.overlaps(player_at, Vec2::new(-65_000, -25_000)));
}

#[test]
fn no_overlap_clears_carry() {
    let d = detector();
    let mut p = player();
    p.is_carried = true;
    p.carry_velocity = Vec2 { x: 500_000, y: 1 };
    let platforms = vec![at(300_000, 0, 500_000, 0), at(0, 300_000, -500_000, 0)];
    d.detect(&mut p, Vec2::new(0, 0), &platforms);
    assert!(!p.is_carried);
    assert_eq!(p.carry_velocity, Vec2 { x: 0, y: 0 });
    assert_eq!(d.find_carrier(Vec2::new(0, 0), &platforms), None);
}

#[test]
fn no_platforms_clears_carry() {
    let d = detector();
    let mut p = player();
    p.is_carried = true;
    p.carry_velocity = Vec2 { x: 7, y: 7 };
    let platforms: Vec<BodyState> = Vec::new();
    d.detect(&mut p, Vec2::new(0, 0), &platforms);
    assert!(!p.is_carried);
    assert_eq!(p.carry_velocity, Vec2 { x: 0, y: 0 });
}

#[test]
fn single_overlap_sets_carry() {
    let d = detector();
    let mut p = player();
    let platforms =
        vec![at(300_000, 0, 111, 0), at(10_000, 20_000, -500_000, 3), at(0, 300_000, 222, 0)];
    d.detect(&mut p, Vec2::new(0, 0), &platforms);
    assert!(p.is_carried);
    assert_eq!(p.carry_velocity, Vec2 { x: -500_000, y: 3 });
    assert_eq!(d.find_carrier(Vec2::new(0, 0), &platforms), Some(1));
}

#[test]
fn first_of_two_overlapping_platforms_wins() {
    let d = detector();
    let mut p = player();
    let platforms = vec![at(10_000, 0, 500_000, 0), at(-10_000, 0, -500_000, 0)];
    d.detect(&mut p, Vec2::new(0, 0), &platforms);
    assert!(p.is_carried);
    assert_eq!(p.carry_velocity, Vec2 { x: 500_000, y: 0 });
    assert_eq!(d.find_carrier(Vec2::new(0, 0), &platforms), Some(0));

    // The same two platforms in the other order: the other one wins.
    let swapped = vec![platforms[1], platforms[0]];
    d.detect(&mut p, Vec2::new(0, 0), &swapped);
    assert_eq!(p.carry_velocity, Vec2 { x: -500_000, y: 0 });
}

#[test]
fn later_overlap_after_a_miss_is_found() {
    let d = detector();
    let platforms =
        vec![at(900_000, 0, 1, 0), at(900_000, 900_000, 2, 0), at(0, 0, 3, 0), at(0, 0, 4, 0)];
    assert_eq!(d.find_carrier(Vec2::new(0, 0), &platforms), Some(2));
}

#[test]
fn detection_twice_gives_the_same_state() {
    let d = detector();
    let platforms = vec![at(300_000, 0, 111, 0), at(10_000, 20_000, -500_000, 3)];
    let mut once = player();
    d.detect(&mut once, Vec2::new(0, 0), &platforms);
    let mut twice = once;
    d.detect(&mut twice, Vec2::new(0, 0), &platforms);
    assert_eq!(once, twice);

    let none: Vec<BodyState> = vec![at(300_000, 0, 111, 0)];
    let mut once = player();
    d.detect(&mut once, Vec2::new(0, 0), &none);
    let mut twice = once;
    d.detect(&mut twice, Vec2::new(0, 0), &none);
    assert_eq!(once, twice);
}

#[test]
fn detection_keeps_handles() {
    let d = detector();
    let mut p = Player::new(RigidBodyRef::new(9, 4), ColliderRef::new(8, 2));
    d.detect(&mut p, Vec2::new(0, 0), &vec![at(0, 0, 5, 5)]);
    assert_eq!(p.body, RigidBodyRef { index: 9, generation: 4 });
    assert_eq!(p.collider, ColliderRef { index: 8, generation: 2 });
}
