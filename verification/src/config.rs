//! The constants of the game, in fixed-point units.

use vstd::prelude::*;
use crate::geometry::Vec2;

verus! {

/// How many fixed-point units make one world unit.
pub const UNITS_PER_WORLD_UNIT: i64 = 1_000;

/// Edge length of the player's square box.
pub const PLAYER_SIZE: i64 = 30_000;

/// Magnitude of the impulse of one jump.
pub const JUMP_IMPULSE: i64 = 100_000_000;

/// Horizontal speed that a held direction key asks for.
pub const MOVE_SPEED: i64 = 100_000;

/// Width of a platform's box.
pub const PLATFORM_WIDTH: i64 = 100_000;

/// Height of a platform's box.
pub const PLATFORM_HEIGHT: i64 = 20_000;

/// Speed at which a platform travels between its bounds.
pub const PLATFORM_SPEED: i64 = 500_000;

/// Horizontal part of the gravity that the world is set up with.
pub const GRAVITY_X: i64 = 0;

/// Vertical part of the gravity that the world is set up with. The y axis
/// points down.
pub const GRAVITY_Y: i64 = 200_810;

/// The constants that the frame logic reads.
#[derive(Clone, Copy, Debug, PartialEq, Eq, Structural)]
pub struct Config {
    pub player_half_extent: Vec2,
    pub platform_half_extent: Vec2,
    pub move_speed: i64,
    pub jump_impulse: i64,
    pub platform_speed: i64,
}

impl Config {
    /// Extents are not negative, and each speed and the impulse can be
    /// negated in 64 bits.
    pub open spec fn wf(self) -> bool {
        &&& self.player_half_extent.x >= 0
        &&& self.player_half_extent.y >= 0
        &&& self.platform_half_extent.x >= 0
        &&& self.platform_half_extent.y >= 0
        &&& self.move_speed > i64::MIN
        &&& self.jump_impulse > i64::MIN
        &&& self.platform_speed > i64::MIN
    }

    /// The game's own constants.
    pub open spec fn standard() -> Config {
        Config {
            player_half_extent: Vec2 { x: 15_000, y: 15_000 },
            platform_half_extent: Vec2 { x: 50_000, y: 10_000 },
            move_speed: 100_000,
            jump_impulse: 100_000_000,
            platform_speed: 500_000,
        }
    }

    pub fn reference() -> (c: Config)
        ensures
            c == Config::standard(),
            c.wf(),
    {
        Config {
            player_half_extent: Vec2 { x: PLAYER_SIZE / 2, y: PLAYER_SIZE / 2 },
            platform_half_extent: Vec2 { x: PLATFORM_WIDTH / 2, y: PLATFORM_HEIGHT / 2 },
            move_speed: MOVE_SPEED,
            jump_impulse: JUMP_IMPULSE,
            platform_speed: PLATFORM_SPEED,
        }
    }

    pub fn is_valid(&self) -> (ok: bool)
        ensures
            ok == self.wf(),
    {
        self.player_half_extent.x >= 0 && self.player_half_extent.y >= 0
            && self.platform_half_extent.x >= 0 && self.platform_half_extent.y >= 0
            && self.move_speed > i64::MIN && self.jump_impulse > i64::MIN && self.platform_speed
            > i64::MIN
    }
}

} // verus!
