use platformer_core::geometry::Vec2;
use platformer_core::player::{FrameInput, Player};
use platformer_core::world::{ColliderRef, RigidBodyRef};

fn player() -> Player {
    Player::new(RigidBodyRef::new(0, 0), ColliderRef::new(0, 0))
}

#[test]
fn new_player_is_not_carried() {
    let p = player();
    assert!(!p.is_carried);
    assert_eq!(p.carry_velocity, Vec2 { x: 0, y: 0 });
    assert_eq!(p.body, RigidBodyRef { index: 0, generation: 0 });
    assert_eq!(p.collider, ColliderRef { index: 0, generation: 0 });
}

#[test]
fn input_from_keys() {
    assert_eq!(
        FrameInput::sample(false, false, false, 100),
        FrameInput { horizontal_intent: 0, jump_requested: false }
    );
    assert_eq!(
        FrameInput::sample(true, false, false, 100),
        FrameInput { horizontal_intent: -100, jump_requested: false }
    );
    assert_eq!(
        FrameInput::sample(false, true, true, 100),
        FrameInput { horizontal_intent: 100, jump_requested: true }
    );
    assert_eq!(
        FrameInput::sample(true, true, true, 100),
        FrameInput { horizontal_intent: 0, jump_requested: true }
    );
}

#[test]
fn input_at_extreme_speed() {
    assert_eq!(FrameInput::sample(true, false, false, i64::MAX).horizontal_intent, -i64::MAX);
    assert_eq!(FrameInput::sample(false, true, false, i64::MAX).horizontal_intent, i64::MAX);
}

#[test]
fn uncarried_velocity_is_intent_and_vertical() {
    let p = player();
    assert_eq!(p.compose_velocity(100, -37), Vec2 { x: 100, y: -37 });
    assert_eq!(p.compose_velocity(0, 9), Vec2 { x: 0, y: 9 });
}

#[test]
fn carried_velocity_adds_carry_componentwise() {
    let mut p = player();
    p.is_carried = true;
    p.carry_velocity = Vec2 { x: 500, y: -3 };
    assert_eq!(p.compose_velocity(100, 20), Vec2 { x: 600, y: 17 });
    assert_eq!(p.compose_velocity(-100, 0), Vec2 { x: 400, y: -3 });
}

#[test]
fn carry_velocity_is_ignored_when_not_carried() {
    let mut p = player();
    p.carry_velocity = Vec2 { x: 500, y: 500 };
    assert_eq!(p.compose_velocity(1, 2), Vec2 { x: 1, y: 2 });
}

#[test]
fn checked_compose_agrees_where_it_fits() {
    let mut p = player();
    assert_eq!(p.checked_compose(100, -37), Some(Vec2 { x: 100, y: -37 }));
    p.is_carried = true;
    p.carry_velocity = Vec2 { x: 500, y: -3 };
    assert_eq!(p.checked_compose(100, 20), Some(Vec2 { x: 600, y: 17 }));
}

#[test]
fn checked_compose_reports_overflow() {
    let mut p = player();
    p.is_carried = true;
    p.carry_velocity = Vec2 { x: 1, y: 0 };
    assert_eq!(p.checked_compose(i64::MAX, 0), None);
    assert_eq!(p.checked_compose(i64::MAX - 1, 0), Some(Vec2 { x: i64::MAX, y: 0 }));
    p.carry_velocity = Vec2 { x: 0, y: -1 };
    assert_eq!(p.checked_compose(0, i64::MIN), None);
    // Not carried: nothing is added, so nothing overflows.
    p.is_carried = false;
    assert_eq!(p.checked_compose(i64::MAX, i64::MIN), Some(Vec2 { x: i64::MAX, y: i64::MIN }));
}
