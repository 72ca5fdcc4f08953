//! Fixed-point core of a 2D platformer frame loop: box overlap, the moving
//! platforms' travel-bound controller, carry detection, velocity composition
//! and the per-frame command sequence that drives a rigid-body world.
//!
//! Every scalar is an `i64` counting thousandths of a world unit. The physics
//! world, the window and the script engine stay outside: the library is handed
//! readings of the world and answers with the commands to perform on it.

pub mod geometry;
pub mod world;
pub mod config;
pub mod platform;
pub mod player;
pub mod carry;
pub mod frame;
pub mod guarantees;
pub mod layout;
pub mod script;
