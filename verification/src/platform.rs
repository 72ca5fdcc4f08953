//! A moving platform and the controller that turns it round at its travel
//! bounds.

use vstd::prelude::*;
use crate::geometry::Vec2;
use crate::world::{ColliderRef, RigidBodyRef};

verus! {

/// The two states of a platform's controller.
#[derive(Clone, Copy, Debug, PartialEq, Eq, Structural)]
pub enum Direction {
    /// Towards larger x.
    Forward,
    /// Towards smaller x.
    Backward,
}

impl Direction {
    /// `+1` forward, `-1` backward.
    pub open spec fn sign(self) -> int {
        match self {
            Direction::Forward => 1,
            Direction::Backward => -1,
        }
    }

    pub open spec fn flipped(self) -> Direction {
        match self {
            Direction::Forward => Direction::Backward,
            Direction::Backward => Direction::Forward,
        }
    }

    pub fn signum(self) -> (s: i64)
        ensures
            s == self.sign(),
    {
        match self {
            Direction::Forward => 1,
            Direction::Backward => -1,
        }
    }

    pub fn flip(self) -> (d: Direction)
        ensures
            d == self.flipped(),
    {
        match self {
            Direction::Forward => Direction::Backward,
            Direction::Backward => Direction::Forward,
        }
    }
}

/// A kinematic platform: its handles, its travel bounds and the direction in
/// which it is being driven.
#[derive(Clone, Copy, Debug, PartialEq, Eq, Structural)]
pub struct MovingPlatform {
    pub body: RigidBodyRef,
    pub collider: ColliderRef,
    pub travel_min: i64,
    pub travel_max: i64,
    pub direction: Direction,
}

impl MovingPlatform {
    /// Whether `x` lies outside the travel bounds. A platform exactly on a
    /// bound is inside.
    pub open spec fn out_of_bounds(self, x: int) -> bool {
        x < self.travel_min || x > self.travel_max
    }

    /// The direction after the bound check at position `x`: turned round if
    /// `x` is out of bounds, whichever way the platform is heading.
    pub open spec fn direction_at(self, x: int) -> Direction {
        if self.out_of_bounds(x) {
            self.direction.flipped()
        } else {
            self.direction
        }
    }

    /// The platform after one tick of its controller at position `x`.
    pub open spec fn ticked(self, x: int) -> MovingPlatform {
        MovingPlatform { direction: self.direction_at(x), ..self }
    }

    /// The platform after one tick at each of the positions `xs`, in order.
    pub open spec fn ticked_through(self, xs: Seq<int>) -> MovingPlatform
        decreases xs.len(),
    {
        if xs.len() == 0 {
            self
        } else {
            self.ticked_through(xs.drop_last()).ticked(xs.last())
        }
    }

    /// The velocity at which the platform is driven at speed `speed`.
    pub open spec fn drive(self, speed: int) -> (int, int) {
        (speed * self.direction.sign(), 0)
    }

    /// A platform that starts out heading forward.
    pub fn new(body: RigidBodyRef, collider: ColliderRef, travel_min: i64, travel_max: i64) -> (p:
        MovingPlatform)
        ensures
            p == (MovingPlatform {
                body,
                collider,
                travel_min,
                travel_max,
                direction: Direction::Forward,
            }),
    {
        MovingPlatform { body, collider, travel_min, travel_max, direction: Direction::Forward }
    }

    /// The velocity to set on the platform's body.
    pub fn drive_velocity(&self, speed: i64) -> (v: Vec2)
        requires
            speed > i64::MIN,
        ensures
            (v.x as int, v.y as int) == self.drive(speed as int),
    {
        match self.direction {
            Direction::Forward => Vec2 { x: speed, y: 0 },
            Direction::Backward => Vec2 { x: -speed, y: 0 },
        }
    }

    /// One tick of the controller: with the platform read at `x`, turn it
    /// round if it is out of bounds, then give the velocity to set. The
    /// velocity is given on every tick, turned or not.
    pub fn tick(&mut self, x: i64, speed: i64) -> (v: Vec2)
        requires
            speed > i64::MIN,
        ensures
            *final(self) == old(self).ticked(x as int),
            (v.x as int, v.y as int) == final(self).drive(speed as int),
    {
        if x < self.travel_min || x > self.travel_max {
            self.direction = self.direction.flip();
        }
        self.drive_velocity(speed)
    }
}

/// Inside its bounds a platform keeps its direction.
pub proof fn lemma_in_bounds_keeps_direction(p: MovingPlatform, x: int)
    requires
        p.travel_min <= x <= p.travel_max,
    ensures
        p.ticked(x) == p,
{
}

/// The bound check looks at the position only. A platform that is still out
/// of bounds on the next tick is turned round a second time, and is back on
/// the course that took it out.
pub proof fn lemma_out_of_bounds_twice_restores(p: MovingPlatform, x1: int, x2: int)
    requires
        p.out_of_bounds(x1),
        p.out_of_bounds(x2),
    ensures
        p.ticked(x1).direction == p.direction.flipped(),
        p.ticked(x1).ticked(x2) == p,
{
}

/// Read within its bounds tick after tick, a platform stays as it is.
pub proof fn lemma_within_bounds_keeps_course(p: MovingPlatform, xs: Seq<int>)
    requires
        forall|k: int| 0 <= k < xs.len() ==> !p.out_of_bounds(#[trigger] xs[k]),
    ensures
        p.ticked_through(xs) == p,
    decreases xs.len(),
{
    if xs.len() > 0 {
        let earlier = xs.drop_last();
        assert forall|k: int| 0 <= k < earlier.len() implies !p.out_of_bounds(
            #[trigger] earlier[k],
        ) by {
            assert(earlier[k] == xs[k]);
        }
        lemma_within_bounds_keeps_course(p, earlier);
    }
}

/// A platform that heads forward, is read within its bounds for `n` ticks
/// and then beyond its upper bound, is turned back on that very tick and not
/// before. From that tick on it is driven backward.
pub proof fn lemma_turns_on_first_excess(p: MovingPlatform, xs: Seq<int>, n: int, speed: int)
    requires
        p.direction == Direction::Forward,
        0 <= n < xs.len(),
        forall|k: int| 0 <= k < n ==> !p.out_of_bounds(#[trigger] xs[k]),
        xs[n] > p.travel_max,
    ensures
        forall|k: int| 0 <= k <= n ==> (#[trigger] p.ticked_through(xs.take(k))).direction
            == Direction::Forward,
        p.ticked_through(xs.take(n + 1)).direction == Direction::Backward,
        p.ticked_through(xs.take(n + 1)).drive(speed) == (-speed, 0int),
{
    assert forall|k: int| 0 <= k <= n implies (#[trigger] p.ticked_through(xs.take(k)))
        == p by {
        lemma_within_bounds_keeps_course(p, xs.take(k));
    }
    let upto = xs.take(n + 1);
    assert(upto.drop_last() =~= xs.take(n));
    assert(upto.last() == xs[n]);
    assert(p.ticked_through(xs.take(n)) == p);
    assert(p.ticked_through(upto) == p.ticked_through(upto.drop_last()).ticked(upto.last()));
}

/// A tick changes nothing but the direction.
pub proof fn lemma_tick_keeps_bounds(p: MovingPlatform, x: int)
    ensures
        p.ticked(x).body == p.body,
        p.ticked(x).collider == p.collider,
        p.ticked(x).travel_min == p.travel_min,
        p.ticked(x).travel_max == p.travel_max,
{
}

/// Driven speed is the configured speed, whatever the direction.
pub proof fn lemma_drive_magnitude(p: MovingPlatform, speed: int)
    ensures
        p.drive(speed).0 == speed || p.drive(speed).0 == -speed,
        p.drive(speed).1 == 0,
        p.direction == Direction::Forward ==> p.drive(speed).0 == speed,
        p.direction == Direction::Backward ==> p.drive(speed).0 == -speed,
{
}

} // verus!
