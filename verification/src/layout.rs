//! Where the actors are put at startup. Counts and positions are fixed once
//! the size of the viewport is known; nothing is spawned or removed later.

use vstd::prelude::*;
use crate::config::{PLATFORM_HEIGHT, PLATFORM_WIDTH, PLAYER_SIZE};
use crate::geometry::{Aabb, Vec2};

verus! {

/// How many platforms there are.
pub const PLATFORM_COUNT: usize = 3;

/// The x at which every platform starts, and its lower travel bound.
pub const TRAVEL_MIN: i64 = 100_000;

/// How far the upper travel bound lies beyond the lower one.
pub const TRAVEL_SPAN: i64 = 300_000;

/// How far above the viewport's bottom edge the lowest platform lies.
pub const LOWEST_PLATFORM_RISE: i64 = 100_000;

/// The vertical distance from one platform to the next above it.
pub const PLATFORM_SPACING: i64 = 150_000;

/// Half the height of the ground slab along the bottom edge.
pub const GROUND_HALF_HEIGHT: i64 = 10_000;

/// The size of the drawing surface. The y axis points down: `height` is the
/// y of the bottom edge.
#[derive(Clone, Copy, Debug, PartialEq, Eq, Structural)]
pub struct Viewport {
    pub width: i64,
    pub height: i64,
}

impl Viewport {
    pub open spec fn wf(self) -> bool {
        self.width >= 0 && self.height >= 0
    }

    pub fn new(width: i64, height: i64) -> (v: Viewport)
        ensures
            v == (Viewport { width, height }),
    {
        Viewport { width, height }
    }

    pub fn is_valid(&self) -> (ok: bool)
        ensures
            ok == self.wf(),
    {
        self.width >= 0 && self.height >= 0
    }
}

/// Where one platform starts and between which bounds it travels.
#[derive(Clone, Copy, Debug, PartialEq, Eq, Structural)]
pub struct PlatformSpawn {
    pub position: Vec2,
    pub travel_min: i64,
    pub travel_max: i64,
}

/// The static ground: a slab as wide as the viewport, resting on its bottom
/// edge.
pub open spec fn ground_of(viewport: Viewport) -> Aabb {
    Aabb {
        center: Vec2 {
            x: (viewport.width / 2) as i64,
            y: (viewport.height - GROUND_HALF_HEIGHT) as i64,
        },
        half_extent: Vec2 { x: (viewport.width / 2) as i64, y: GROUND_HALF_HEIGHT },
    }
}

/// The player starts in the middle of the viewport.
pub open spec fn player_start_of(viewport: Viewport) -> Vec2 {
    Vec2 { x: (viewport.width / 2) as i64, y: (viewport.height / 2) as i64 }
}

/// Platform `i` starts on the lower travel bound, `i` spacings above the
/// lowest platform.
pub open spec fn platform_start_of(viewport: Viewport, i: int) -> PlatformSpawn {
    PlatformSpawn {
        position: Vec2 {
            x: TRAVEL_MIN,
            y: (viewport.height - LOWEST_PLATFORM_RISE - i * PLATFORM_SPACING) as i64,
        },
        travel_min: TRAVEL_MIN,
        travel_max: (TRAVEL_MIN + TRAVEL_SPAN) as i64,
    }
}

pub fn ground_box(viewport: Viewport) -> (ground: Aabb)
    requires
        viewport.wf(),
    ensures
        ground == ground_of(viewport),
        ground.wf(),
{
    Aabb {
        center: Vec2 { x: viewport.width / 2, y: viewport.height - GROUND_HALF_HEIGHT },
        half_extent: Vec2 { x: viewport.width / 2, y: GROUND_HALF_HEIGHT },
    }
}

pub fn player_start(viewport: Viewport) -> (start: Vec2)
    requires
        viewport.wf(),
    ensures
        start == player_start_of(viewport),
{
    Vec2 { x: viewport.width / 2, y: viewport.height / 2 }
}

/// The half extents of the player's collision box.
pub fn player_half_extent() -> (half: Vec2)
    ensures
        half == (Vec2 { x: 15_000, y: 15_000 }),
{
    Vec2 { x: PLAYER_SIZE / 2, y: PLAYER_SIZE / 2 }
}

/// The half extents of a platform's collision box.
pub fn platform_half_extent() -> (half: Vec2)
    ensures
        half == (Vec2 { x: 50_000, y: 10_000 }),
{
    Vec2 { x: PLATFORM_WIDTH / 2, y: PLATFORM_HEIGHT / 2 }
}

/// The platforms' starting places, lowest first.
pub fn platform_starts(viewport: Viewport) -> (starts: Vec<PlatformSpawn>)
    requires
        viewport.wf(),
    ensures
        starts.len() == PLATFORM_COUNT,
        forall|i: int| 0 <= i < PLATFORM_COUNT ==> #[trigger] starts[i] == platform_start_of(viewport, i),
{
    let mut starts: Vec<PlatformSpawn> = Vec::new();
    let mut i: usize = 0;
    let mut y: i64 = viewport.height - LOWEST_PLATFORM_RISE;
    while i < PLATFORM_COUNT
        invariant
            viewport.wf(),
            i <= PLATFORM_COUNT,
            starts.len() == i,
            y == viewport.height - LOWEST_PLATFORM_RISE - i * PLATFORM_SPACING,
            forall|k: int| 0 <= k < i ==> #[trigger] starts[k] == platform_start_of(viewport, k),
        decreases PLATFORM_COUNT - i,
    {
        starts.push(
            PlatformSpawn {
                position: Vec2 { x: TRAVEL_MIN, y },
                travel_min: TRAVEL_MIN,
                travel_max: TRAVEL_MIN + TRAVEL_SPAN,
            },
        );
        y = y - PLATFORM_SPACING;
        i += 1;
    }
    starts
}

} // verus!
