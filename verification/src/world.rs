//! The boundary with the rigid-body world: the handles that name its bodies,
//! the readings taken from it, and the commands to be performed on it.
//!
//! The world itself lives with the caller. Within a frame the caller performs
//! the commands it is given, in the order given, and hands back the readings
//! that `Command::ReadWorld` asks for.

use vstd::prelude::*;
use crate::geometry::Vec2;

verus! {

/// Names one rigid body of the world. The library never looks inside a
/// handle; it only hands it back in commands.
#[derive(Clone, Copy, Debug, PartialEq, Eq, Hash, Structural)]
pub struct RigidBodyRef {
    pub index: u32,
    pub generation: u32,
}

/// Names one collision shape of the world.
#[derive(Clone, Copy, Debug, PartialEq, Eq, Hash, Structural)]
pub struct ColliderRef {
    pub index: u32,
    pub generation: u32,
}

/// Where a body is and how fast it moves, as read from the world.
#[derive(Clone, Copy, Debug, PartialEq, Eq, Structural)]
pub struct BodyState {
    pub position: Vec2,
    pub velocity: Vec2,
}

/// The readings of one frame: the player's body and every platform's body,
/// the platforms in the order in which the orchestrator holds them.
#[derive(Debug, PartialEq, Eq)]
pub struct WorldSnapshot {
    pub player: BodyState,
    pub platforms: Vec<BodyState>,
}

/// One operation for the caller to perform.
#[derive(Clone, Copy, Debug, PartialEq, Eq, Structural)]
pub enum Command {
    /// Apply an instantaneous impulse to a body.
    ApplyImpulse { body: RigidBodyRef, impulse: Vec2 },
    /// Run the frame's script to completion.
    RunScript,
    /// Read position and velocity of the player and of every platform.
    ReadWorld,
    /// Overwrite a body's linear velocity.
    SetLinearVelocity { body: RigidBodyRef, velocity: Vec2 },
    /// Advance the world by one fixed tick.
    Step,
}

impl RigidBodyRef {
    pub fn new(index: u32, generation: u32) -> (r: RigidBodyRef)
        ensures
            r == (RigidBodyRef { index, generation }),
    {
        RigidBodyRef { index, generation }
    }
}

impl ColliderRef {
    pub fn new(index: u32, generation: u32) -> (r: ColliderRef)
        ensures
            r == (ColliderRef { index, generation }),
    {
        ColliderRef { index, generation }
    }
}

impl BodyState {
    pub fn new(position: Vec2, velocity: Vec2) -> (s: BodyState)
        ensures
            s == (BodyState { position, velocity }),
    {
        BodyState { position, velocity }
    }
}

} // verus!
