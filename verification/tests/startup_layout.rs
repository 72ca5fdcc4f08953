use platformer_core::config::{
    GRAVITY_X, GRAVITY_Y, JUMP_IMPULSE, MOVE_SPEED, PLATFORM_HEIGHT, PLATFORM_SPEED,
    PLATFORM_WIDTH, PLAYER_SIZE, UNITS_PER_WORLD_UNIT,
};
use platformer_core::geometry::{Aabb, Vec2};
use platformer_core::layout::{
    ground_box, platform_half_extent, platform_starts, player_half_extent, player_start,
    PlatformSpawn, Viewport, PLATFORM_COUNT,
};

#[test]
fn constants_in_fixed_point() {
    assert_eq!(UNITS_PER_WORLD_UNIT, 1_000);
    assert_eq!(PLAYER_SIZE, 30 * UNITS_PER_WORLD_UNIT);
    assert_eq!(JUMP_IMPULSE, 100_000 * UNITS_PER_WORLD_UNIT);
    assert_eq!(MOVE_SPEED, 100 * UNITS_PER_WORLD_UNIT);
    assert_eq!(PLATFORM_WIDTH, 100 * UNITS_PER_WORLD_UNIT);
    assert_eq!(PLATFORM_HEIGHT, 20 * UNITS_PER_WORLD_UNIT);
    assert_eq!(PLATFORM_SPEED, 500 * UNITS_PER_WORLD_UNIT);
    assert_eq!(GRAVITY_X, 0);
    assert_eq!(GRAVITY_Y, 200_810);
}

#[test]
fn viewport_validity() {
    assert!(Viewport::new(800_000, 600_000).is_valid());
    assert!(Viewport::new(0, 0).is_valid());
    assert!(!Viewport::new(-1, 600_000).is_valid());
    assert!(!Viewport::new(800_000, -1).is_valid());
}

#[test]
fn ground_rests_on_the_bottom_edge() {
    let ground = ground_box(Viewport::new(800_000, 600_000));
    assert_eq!(
        ground,
        Aabb { center: Vec2 { x: 400_000, y: 590_000 }, half_extent: Vec2 { x: 400_000, y: 10_000 } }
    );
}

#[test]
fn player_starts_in_the_middle() {
    assert_eq!(player_start(Viewport::new(800_000, 600_000)), Vec2 { x: 400_000, y: 300_000 });
    assert_eq!(player_start(Viewport::new(801, 601)), Vec2 { x: 400, y: 300 });
}

#[test]
fn half_extents() {
    assert_eq!(player_half_extent(), Vec2 { x: 15_000, y: 15_000 });
    assert_eq!(platform_half_extent(), Vec2 { x: 50_000, y: 10_000 });
}

#[test]
fn three_platforms_lowest_first() {
    let starts = platform_starts(Viewport::new(800_000, 600_000));
    assert_eq!(starts.len(), PLATFORM_COUNT);
    assert_eq!(
        starts,
        vec![
            PlatformSpawn {
                position: Vec2 { x: 100_000, y: 500_000 },
                travel_min: 100_000,
                travel_max: 400_000,
            },
            PlatformSpawn {
                position: Vec2 { x: 100_000, y: 350_000 },
                travel_min: 100_000,
                travel_max: 400_000,
            },
            PlatformSpawn {
                position: Vec2 { x: 100_000, y: 200_000 },
                travel_min: 100_000,
                travel_max: 400_000,
            },
        ]
    );
}

#[test]
fn platforms_in_a_tiny_viewport() {
    let starts = platform_starts(Viewport::new(0, 0));
    assert_eq!(starts[0].position, Vec2 { x: 100_000, y: -100_000 });
    assert_eq!(starts[2].position, Vec2 { x: 100_000, y: -400_000 });
}
