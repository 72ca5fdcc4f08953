use platformer_core::geometry::Vec2;
use platformer_core::platform::{Direction, MovingPlatform};
use platformer_core::world::{ColliderRef, RigidBodyRef};

fn platform(travel_min: i64, travel_max: i64) -> MovingPlatform {
    MovingPlatform::new(RigidBodyRef::new(1, 0), ColliderRef::new(1, 0), travel_min, travel_max)
}

#[test]
fn new_platform_heads_forward() {
    let p = platform(100, 400);
    assert_eq!(p.direction, Direction::Forward);
    assert_eq!(p.travel_min, 100);
    assert_eq!(p.travel_max, 400);
    assert_eq!(p.body, RigidBodyRef { index: 1, generation: 0 });
    assert_eq!(p.collider, ColliderRef { index: 1, generation: 0 });
}

#[test]
fn direction_sign_and_flip() {
    assert_eq!(Direction::Forward.signum(), 1);
    assert_eq!(Direction::Backward.signum(), -1);
    assert_eq!(Direction::Forward.flip(), Direction::Backward);
    assert_eq!(Direction::Backward.flip(), Direction::Forward);
}

#[test]
fn inside_bounds_keeps_direction() {
    let mut p = platform(100, 400);
    assert_eq!(p.tick(250, 500), Vec2 { x: 500, y: 0 });
    assert_eq!(p.direction, Direction::Forward);
    p.direction = Direction::Backward;
    assert_eq!(p.tick(250, 500), Vec2 { x: -500, y: 0 });
    assert_eq!(p.direction, Direction::Backward);
}

#[test]
fn exactly_on_a_bound_is_inside() {
    let mut p = platform(100, 400);
    assert_eq!(p.tick(400, 500), Vec2 { x: 500, y: 0 });
    assert_eq!(p.direction, Direction::Forward);
    assert_eq!(p.tick(100, 500), Vec2 { x: 500, y: 0 });
    assert_eq!(p.direction, Direction::Forward);
}

#[test]
fn beyond_upper_bound_turns_back() {
    let mut p = platform(100, 400);
    assert_eq!(p.tick(401, 500), Vec2 { x: -500, y: 0 });
    assert_eq!(p.direction, Direction::Backward);
}

#[test]
fn below_lower_bound_turns_forward() {
    let mut p = platform(100, 400);
    p.direction = Direction::Backward;
    assert_eq!(p.tick(99, 500), Vec2 { x: 500, y: 0 });
    assert_eq!(p.direction, Direction::Forward);
}

#[test]
fn bound_check_ignores_heading() {
    // Below the lower bound while already heading forward: turned all the same.
    let mut p = platform(100, 400);
    assert_eq!(p.tick(50, 500), Vec2 { x: -500, y: 0 });
    assert_eq!(p.direction, Direction::Backward);
}

#[test]
fn still_out_of_bounds_turns_twice() {
    // An overshoot that one tick of travel does not undo: the second check
    // turns the platform outward again.
    let mut p = platform(100, 400);
    assert_eq!(p.tick(430, 500), Vec2 { x: -500, y: 0 });
    assert_eq!(p.tick(420, 500), Vec2 { x: 500, y: 0 });
    assert_eq!(p.direction, Direction::Forward);
}

#[test]
fn tick_keeps_bounds_and_handles() {
    let mut p = platform(100, 400);
    let before = p;
    p.tick(1_000, 500);
    assert_eq!(p.body, before.body);
    assert_eq!(p.collider, before.collider);
    assert_eq!(p.travel_min, before.travel_min);
    assert_eq!(p.travel_max, before.travel_max);
}

#[test]
fn drive_velocity_follows_direction() {
    let mut p = platform(100, 400);
    assert_eq!(p.drive_velocity(500), Vec2 { x: 500, y: 0 });
    p.direction = Direction::Backward;
    assert_eq!(p.drive_velocity(500), Vec2 { x: -500, y: 0 });
    assert_eq!(p.drive_velocity(i64::MAX), Vec2 { x: -i64::MAX, y: 0 });
    assert_eq!(p.drive_velocity(0), Vec2 { x: 0, y: 0 });
}

#[test]
fn reversal_on_the_tick_that_first_exceeds_the_bound() {
    // travel 100..400, speed 500, fifty ticks to the second: ten units a tick.
    let mut p = platform(100, 400);
    let speed: i64 = 500;
    let mut x: i64 = 100;
    let mut ticks_forward = 0;
    loop {
        let v = p.tick(x, speed);
        if p.direction == Direction::Backward {
            assert!(x > 400);
            assert_eq!(x, 410);
            assert_eq!(v, Vec2 { x: -500, y: 0 });
            break;
        }
        assert!(x <= 400);
        assert_eq!(v, Vec2 { x: 500, y: 0 });
        x += v.x / 50;
        ticks_forward += 1;
        assert!(ticks_forward < 1_000);
    }
    assert_eq!(ticks_forward, 31);
    // Back inside the bounds the platform keeps heading backward.
    x += -500 / 50;
    assert_eq!(p.tick(x, speed), Vec2 { x: -500, y: 0 });
    assert_eq!(p.direction, Direction::Backward);
}

#[test]
fn inverted_bounds_turn_once_a_tick() {
    // With the lower bound above the upper one, a position between the two
    // is below the one and above the other: it still turns the platform
    // once, on every tick.
    let mut p = platform(400, 100);
    assert_eq!(p.tick(250, 500), Vec2 { x: -500, y: 0 });
    assert_eq!(p.direction, Direction::Backward);
    assert_eq!(p.tick(250, 500), Vec2 { x: 500, y: 0 });
    assert_eq!(p.direction, Direction::Forward);
}
