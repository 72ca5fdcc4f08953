//! What holds of every frame, proved from the orchestrator's model.

use vstd::prelude::*;
use crate::carry::{lemma_first_overlap_least, CarryDetector};
use crate::frame::{FrameState, Phase};
use crate::geometry::Vec2;
use crate::player::FrameInput;
use crate::world::{Command, WorldSnapshot};

verus! {

/// Whether the player, where the readings show it, overlaps platform `i`.
pub open spec fn overlaps_platform(s: FrameState, snapshot: WorldSnapshot, i: int) -> bool {
    CarryDetector::of(s.config).stands_on(
        snapshot.player.position,
        snapshot.platforms@[i].position,
    )
}

/// In a frame in which the player's box overlaps no platform's box, the
/// player ends up not carried, with zero carry velocity, and the velocity set
/// on it is the input's intent and the vertical velocity that was read.
pub proof fn lemma_no_overlap_frame(s: FrameState, snapshot: WorldSnapshot)
    requires
        forall|i: int|
            0 <= i < snapshot.platforms@.len() ==> !#[trigger] overlaps_platform(s, snapshot, i),
    ensures
        !s.settled(snapshot).player.is_carried,
        s.settled(snapshot).player.carry_velocity == Vec2::origin(),
        s.player_velocity(snapshot) == (s.intent(), snapshot.player.velocity.y as int),
{
    let d = CarryDetector::of(s.config);
    lemma_first_overlap_least(d, snapshot.player.position, snapshot.platforms@);
    match d.first_overlap(snapshot.player.position, snapshot.platforms@) {
        Some(i) => {
            assert(overlaps_platform(s, snapshot, i));
        },
        None => {},
    }
}

/// In a frame in which exactly one platform overlaps the player, the
/// velocity set on the player is the intent plus that platform's horizontal
/// velocity, and the vertical velocity that was read plus that platform's
/// vertical velocity.
pub proof fn lemma_single_overlap_frame(s: FrameState, snapshot: WorldSnapshot, i: int)
    requires
        0 <= i < snapshot.platforms@.len(),
        forall|j: int|
            0 <= j < snapshot.platforms@.len() ==> (#[trigger] overlaps_platform(s, snapshot, j)
                <==> j == i),
    ensures
        s.settled(snapshot).player.is_carried,
        s.settled(snapshot).player.carry_velocity == snapshot.platforms@[i].velocity,
        s.player_velocity(snapshot).0 == s.intent() + snapshot.platforms@[i].velocity.x,
        s.player_velocity(snapshot).1 == snapshot.player.velocity.y + snapshot.platforms@[i].velocity.y,
        s.accepts_readings(snapshot) ==> s.closing_commands(snapshot)[0] == (
        Command::SetLinearVelocity {
            body: s.player.body,
            velocity: Vec2 {
                x: (s.intent() + snapshot.platforms@[i].velocity.x) as i64,
                y: (snapshot.player.velocity.y + snapshot.platforms@[i].velocity.y) as i64,
            },
        }),
{
    let d = CarryDetector::of(s.config);
    lemma_first_overlap_least(d, snapshot.player.position, snapshot.platforms@);
    assert(overlaps_platform(s, snapshot, i));
    match d.first_overlap(snapshot.player.position, snapshot.platforms@) {
        Some(k) => {
            assert(overlaps_platform(s, snapshot, k));
        },
        None => {},
    }
}

/// When several platforms overlap the player at once, the first of them in
/// the order of the platforms carries: with `i` the first overlapping index,
/// the carry velocity is that of platform `i`, whatever overlaps after it.
pub proof fn lemma_first_overlap_frame(s: FrameState, snapshot: WorldSnapshot, i: int)
    requires
        0 <= i < snapshot.platforms@.len(),
        overlaps_platform(s, snapshot, i),
        forall|j: int| 0 <= j < i ==> !#[trigger] overlaps_platform(s, snapshot, j),
    ensures
        s.settled(snapshot).player.is_carried,
        s.settled(snapshot).player.carry_velocity == snapshot.platforms@[i].velocity,
        s.player_velocity(snapshot).0 == s.intent() + snapshot.platforms@[i].velocity.x,
        s.player_velocity(snapshot).1 == snapshot.player.velocity.y + snapshot.platforms@[i].velocity.y,
{
    let d = CarryDetector::of(s.config);
    lemma_first_overlap_least(d, snapshot.player.position, snapshot.platforms@);
    match d.first_overlap(snapshot.player.position, snapshot.platforms@) {
        Some(k) => {
            if k < i {
                assert(overlaps_platform(s, snapshot, k));
            }
        },
        None => {},
    }
}

/// Detection run again on the same readings, right after a frame settled on
/// them, finds the carry state that the frame left.
pub proof fn lemma_redetection_changes_nothing(s: FrameState, snapshot: WorldSnapshot)
    ensures
        s.settled(snapshot).detected_player(snapshot) == s.settled(snapshot).player,
        s.settled(snapshot).player.wf(),
{
}

/// A frame's commands come in one fixed order. With a jump, the impulse is
/// first, before the script and before the world is read, so the vertical
/// velocity in the readings, which goes into the velocity set on the player,
/// is the one after the impulse. Then come the player's velocity, one
/// velocity for each platform in order, and the step of the world last.
pub proof fn lemma_frame_order(s: FrameState, input: FrameInput, snapshot: WorldSnapshot)
    ensures
        ({
            let frame = s.frame_commands(input, snapshot);
            let lead: int = if input.jump_requested {
                1
            } else {
                0
            };
            let n = s.platforms.len() as int;
            &&& frame.len() == lead + n + 4
            &&& input.jump_requested ==> frame[0] == s.jump_command()
            &&& frame[lead] == Command::RunScript
            &&& frame[lead + 1] == Command::ReadWorld
            &&& frame[lead + 2] == s.begun(input).player_command(snapshot)
            &&& forall|k: int|
                0 <= k < n ==> #[trigger] frame[lead + 3 + k] == s.begun(input).platform_command(
                    snapshot,
                    k,
                )
            &&& frame[lead + n + 3] == Command::Step
        }),
        s.begun(input).intent() == input.horizontal_intent,
        s.begun(input).player_velocity(snapshot).1 == snapshot.player.velocity.y + (if s.begun(
            input,
        ).detected_player(snapshot).is_carried {
            s.begun(input).detected_player(snapshot).carry_velocity.y as int
        } else {
            0
        }),
{
}

/// The world is stepped once in a frame, by the last command.
pub proof fn lemma_one_step_last(s: FrameState, snapshot: WorldSnapshot)
    ensures
        s.closing_commands(snapshot).len() == s.platforms.len() + 2,
        s.closing_commands(snapshot).last() == Command::Step,
        forall|k: int|
            0 <= k < s.platforms.len() + 1 ==> #[trigger] s.closing_commands(snapshot)[k]
                is SetLinearVelocity,
{
}

/// No body has its velocity set twice in a frame: the velocity commands of a
/// frame name pairwise different bodies.
pub proof fn lemma_one_velocity_per_body(s: FrameState, snapshot: WorldSnapshot, a: int, b: int)
    requires
        s.wf(),
        0 <= a < b < s.platforms.len() + 1,
    ensures
        s.closing_commands(snapshot)[a]->SetLinearVelocity_body != s.closing_commands(
            snapshot,
        )[b]->SetLinearVelocity_body,
{
    let cmds = s.closing_commands(snapshot);
    assert(cmds[b] == s.platform_command(snapshot, b - 1));
    assert(s.platforms[b - 1].body != s.player.body);
    if a > 0 {
        assert(cmds[a] == s.platform_command(snapshot, a - 1));
        assert(s.platforms[a - 1].body != s.platforms[b - 1].body);
    }
}

/// A frame changes neither the configuration nor any handle or travel bound:
/// of the player only the carry state changes, of a platform only the
/// direction, and that only if the platform was read out of its bounds.
pub proof fn lemma_frame_keeps_actors(s: FrameState, snapshot: WorldSnapshot, i: int)
    requires
        0 <= i < s.platforms.len(),
    ensures
        s.settled(snapshot).config == s.config,
        s.settled(snapshot).phase == Phase::Idle,
        s.settled(snapshot).player.body == s.player.body,
        s.settled(snapshot).player.collider == s.player.collider,
        s.settled(snapshot).platforms.len() == s.platforms.len(),
        s.settled(snapshot).platforms[i].body == s.platforms[i].body,
        s.settled(snapshot).platforms[i].collider == s.platforms[i].collider,
        s.settled(snapshot).platforms[i].travel_min == s.platforms[i].travel_min,
        s.settled(snapshot).platforms[i].travel_max == s.platforms[i].travel_max,
        s.settled(snapshot).platforms[i].direction == s.platforms[i].direction_at(
            snapshot.platforms@[i].position.x as int,
        ),
        s.wf() ==> s.settled(snapshot).wf(),
{
}

/// The state after a run of whole frames, each given by its input and the
/// readings it settled on.
pub open spec fn after_frames(s: FrameState, frames: Seq<(FrameInput, WorldSnapshot)>) -> FrameState
    decreases frames.len(),
{
    if frames.len() == 0 {
        s
    } else {
        after_frames(s, frames.drop_last()).begun(frames.last().0).settled(frames.last().1)
    }
}

/// However many frames have run, the actors are the ones that the run began
/// with: the configuration, the number of platforms, every handle and every
/// travel bound are unchanged, a player that is not carried has no carry
/// velocity, and no two actors share a handle.
pub proof fn lemma_run_keeps_actors(
    s: FrameState,
    frames: Seq<(FrameInput, WorldSnapshot)>,
    i: int,
)
    requires
        s.wf(),
        0 <= i < s.platforms.len(),
    ensures
        after_frames(s, frames).wf(),
        after_frames(s, frames).config == s.config,
        after_frames(s, frames).player.body == s.player.body,
        after_frames(s, frames).player.collider == s.player.collider,
        after_frames(s, frames).platforms.len() == s.platforms.len(),
        after_frames(s, frames).platforms[i].body == s.platforms[i].body,
        after_frames(s, frames).platforms[i].collider == s.platforms[i].collider,
        after_frames(s, frames).platforms[i].travel_min == s.platforms[i].travel_min,
        after_frames(s, frames).platforms[i].travel_max == s.platforms[i].travel_max,
        frames.len() > 0 ==> after_frames(s, frames).phase == Phase::Idle,
    decreases frames.len(),
{
    if frames.len() > 0 {
        let earlier = after_frames(s, frames.drop_last());
        lemma_run_keeps_actors(s, frames.drop_last(), i);
        lemma_frame_keeps_actors(earlier.begun(frames.last().0), frames.last().1, i);
        lemma_settle_keeps_handles_distinct(earlier.begun(frames.last().0), frames.last().1);
    }
}

/// Settling a frame keeps the actors' handles apart.
pub proof fn lemma_settle_keeps_handles_distinct(s: FrameState, snapshot: WorldSnapshot)
    requires
        s.wf(),
    ensures
        s.settled(snapshot).wf(),
{
}

/// The velocity set on platform `i` is the configured speed along the
/// direction that the platform has after its bound check, with no vertical
/// part.
pub proof fn lemma_platform_command(s: FrameState, snapshot: WorldSnapshot, i: int)
    requires
        s.config.wf(),
        0 <= i < s.platforms.len(),
    ensures
        ({
            let heading = s.platforms[i].direction_at(snapshot.platforms@[i].position.x as int);
            let driven = s.config.platform_speed * heading.sign();
            &&& i64::MIN <= driven <= i64::MAX
            &&& s.closing_commands(snapshot)[i + 1] == (Command::SetLinearVelocity {
                body: s.platforms[i].body,
                velocity: Vec2 { x: driven as i64, y: 0 },
            })
        }),
{
}

} // verus!
