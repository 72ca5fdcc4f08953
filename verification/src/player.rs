//! The player, the input of one frame, and how the velocity that is set on
//! the player's body is put together.

use vstd::prelude::*;
use crate::geometry::Vec2;
use crate::world::{ColliderRef, RigidBodyRef};

verus! {

/// What the input devices said at the start of a frame.
#[derive(Clone, Copy, Debug, PartialEq, Eq, Structural)]
pub struct FrameInput {
    /// The horizontal speed asked for: the move speed, its negation, or zero.
    pub horizontal_intent: i64,
    /// Whether the jump key went down in this frame.
    pub jump_requested: bool,
}

impl FrameInput {
    /// The speed that the two direction keys ask for. Both keys held cancel.
    pub open spec fn intent_of(left_held: bool, right_held: bool, move_speed: int) -> int {
        (if right_held {
            move_speed
        } else {
            0
        }) - (if left_held {
            move_speed
        } else {
            0
        })
    }

    /// The intent is one of the three values that the keys can give.
    pub open spec fn wf(self, move_speed: int) -> bool {
        self.horizontal_intent == move_speed || self.horizontal_intent == 0
            || self.horizontal_intent == -move_speed
    }

    /// Turns the state of the keys into the frame's input.
    pub fn sample(left_held: bool, right_held: bool, jump_pressed: bool, move_speed: i64) -> (input:
        FrameInput)
        requires
            move_speed > i64::MIN,
        ensures
            input.horizontal_intent == FrameInput::intent_of(
                left_held,
                right_held,
                move_speed as int,
            ),
            input.jump_requested == jump_pressed,
            input.wf(move_speed as int),
    {
        let horizontal_intent: i64 = if left_held == right_held {
            0
        } else if right_held {
            move_speed
        } else {
            -move_speed
        };
        FrameInput { horizontal_intent, jump_requested: jump_pressed }
    }
}

/// The player: its handles and the carry state of the current frame.
#[derive(Clone, Copy, Debug, PartialEq, Eq, Structural)]
pub struct Player {
    pub body: RigidBodyRef,
    pub collider: ColliderRef,
    /// Whether the player stands on a platform in this frame.
    pub is_carried: bool,
    /// The velocity of that platform; zero when there is none.
    pub carry_velocity: Vec2,
}

impl Player {
    /// A player that is not carried has no carry velocity.
    pub open spec fn wf(self) -> bool {
        !self.is_carried ==> self.carry_velocity == Vec2::origin()
    }

    /// The player with its carry state replaced: carried at the carrier's
    /// velocity, or not carried at all.
    pub open spec fn carried_by(self, carrier: Option<Vec2>) -> Player {
        match carrier {
            Some(velocity) => Player { is_carried: true, carry_velocity: velocity, ..self },
            None => Player { is_carried: false, carry_velocity: Vec2::origin(), ..self },
        }
    }

    /// The velocity to set on the player's body: the horizontal intent and
    /// the vertical velocity that the body has, plus the carry velocity if
    /// the player is carried.
    pub open spec fn composed(self, horizontal_intent: int, vertical: int) -> (int, int) {
        if self.is_carried {
            (horizontal_intent + self.carry_velocity.x, vertical + self.carry_velocity.y)
        } else {
            (horizontal_intent, vertical)
        }
    }

    /// Whether both components of the composed velocity fit in 64 bits.
    pub open spec fn composition_fits(self, horizontal_intent: int, vertical: int) -> bool {
        let v = self.composed(horizontal_intent, vertical);
        i64::MIN <= v.0 <= i64::MAX && i64::MIN <= v.1 <= i64::MAX
    }

    /// A player that is not carried.
    pub fn new(body: RigidBodyRef, collider: ColliderRef) -> (p: Player)
        ensures
            p == (Player { body, collider, is_carried: false, carry_velocity: Vec2::origin() }),
            p.wf(),
    {
        Player { body, collider, is_carried: false, carry_velocity: Vec2 { x: 0, y: 0 } }
    }

    /// The composed velocity, or `None` when a component does not fit in 64
    /// bits.
    pub fn checked_compose(&self, horizontal_intent: i64, vertical: i64) -> (v: Option<Vec2>)
        ensures
            v is Some <==> self.composition_fits(horizontal_intent as int, vertical as int),
            v matches Some(w) ==> (w.x as int, w.y as int) == self.composed(
                horizontal_intent as int,
                vertical as int,
            ),
    {
        if self.is_carried {
            match (
                horizontal_intent.checked_add(self.carry_velocity.x),
                vertical.checked_add(self.carry_velocity.y),
            ) {
                (Some(x), Some(y)) => Some(Vec2 { x, y }),
                _ => None,
            }
        } else {
            Some(Vec2 { x: horizontal_intent, y: vertical })
        }
    }

    /// The composed velocity. `vertical` is the vertical velocity read from
    /// the body after any impulse of the frame was applied; the horizontal
    /// intent never touches it.
    pub fn compose_velocity(&self, horizontal_intent: i64, vertical: i64) -> (v: Vec2)
        requires
            self.composition_fits(horizontal_intent as int, vertical as int),
        ensures
            (v.x as int, v.y as int) == self.composed(horizontal_intent as int, vertical as int),
    {
        if self.is_carried {
            Vec2 {
                x: horizontal_intent + self.carry_velocity.x,
                y: vertical + self.carry_velocity.y,
            }
        } else {
            Vec2 { x: horizontal_intent, y: vertical }
        }
    }
}

/// Without a carrier the input alone decides the horizontal velocity and the
/// vertical velocity passes through unchanged.
pub proof fn lemma_uncarried_composition(p: Player, horizontal_intent: int, vertical: int)
    requires
        !p.is_carried,
    ensures
        p.composed(horizontal_intent, vertical) == (horizontal_intent, vertical),
{
}

/// Carried, the player's velocity is the uncarried one plus the carry
/// velocity, component by component.
pub proof fn lemma_carried_composition(p: Player, horizontal_intent: int, vertical: int)
    requires
        p.is_carried,
    ensures
        p.composed(horizontal_intent, vertical).0 == horizontal_intent + p.carry_velocity.x,
        p.composed(horizontal_intent, vertical).1 == vertical + p.carry_velocity.y,
{
}

} // verus!
