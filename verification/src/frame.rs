//! The frame orchestrator: the fixed order of a frame's operations.
//!
//! A frame runs in two calls. `begin_frame` takes the input and answers with
//! the jump impulse, if one was asked for, the script run and the reading of
//! the world, in that order. `settle` takes the readings and answers with the
//! player's velocity, every platform's velocity and the world's step, in that
//! order. In between, a script that fails ends the run through
//! `script_failed`.

use vstd::prelude::*;
use crate::carry::CarryDetector;
use crate::config::Config;
use crate::geometry::Vec2;
use crate::platform::MovingPlatform;
use crate::player::{FrameInput, Player};
use crate::world::{Command, WorldSnapshot};

verus! {

/// Where the orchestrator stands within the run.
#[derive(Clone, Copy, Debug, PartialEq, Eq, Structural)]
pub enum Phase {
    /// Between frames. The next frame's input is awaited.
    Idle,
    /// The frame's input was taken and its opening commands were given out.
    /// The readings of the world are awaited.
    Sampled { horizontal_intent: i64 },
    /// A script failed. Nothing more is accepted.
    Halted,
}

/// What the orchestrator holds, as a mathematical value.
pub struct FrameState {
    pub config: Config,
    pub player: Player,
    pub platforms: Seq<MovingPlatform>,
    pub phase: Phase,
}

/// No body and no collider is named by two actors.
pub open spec fn handles_distinct(player: Player, platforms: Seq<MovingPlatform>) -> bool {
    &&& forall|i: int|
        0 <= i < platforms.len() ==> (#[trigger] platforms[i]).body != player.body
            && platforms[i].collider != player.collider
    &&& forall|i: int, j: int|
        0 <= i < j < platforms.len() ==> (#[trigger] platforms[i]).body != (
        #[trigger] platforms[j]).body && platforms[i].collider != platforms[j].collider
}

impl FrameState {
    pub open spec fn wf(self) -> bool {
        &&& self.config.wf()
        &&& self.player.wf()
        &&& handles_distinct(self.player, self.platforms)
    }

    /// The horizontal intent of the frame in progress; zero between frames.
    pub open spec fn intent(self) -> int {
        match self.phase {
            Phase::Sampled { horizontal_intent } => horizontal_intent as int,
            _ => 0,
        }
    }

    /// The impulse of a jump: straight up, against the downward y axis.
    pub open spec fn jump_command(self) -> Command {
        Command::ApplyImpulse {
            body: self.player.body,
            impulse: Vec2 { x: 0, y: (-self.config.jump_impulse) as i64 },
        }
    }

    /// The commands that open a frame: the jump impulse if a jump was asked
    /// for, then the script, then the reading of the world.
    pub open spec fn opening_commands(self, input: FrameInput) -> Seq<Command> {
        if input.jump_requested {
            seq![self.jump_command(), Command::RunScript, Command::ReadWorld]
        } else {
            seq![Command::RunScript, Command::ReadWorld]
        }
    }

    /// The state once a frame has begun.
    pub open spec fn begun(self, input: FrameInput) -> FrameState {
        FrameState { phase: Phase::Sampled { horizontal_intent: input.horizontal_intent }, ..self }
    }

    /// The state once a script has failed.
    pub open spec fn halted(self) -> FrameState {
        FrameState { phase: Phase::Halted, ..self }
    }

    /// The player after carry detection on the readings.
    pub open spec fn detected_player(self, snapshot: WorldSnapshot) -> Player {
        CarryDetector::of(self.config).detected(
            self.player,
            snapshot.player.position,
            snapshot.platforms@,
        )
    }

    /// The velocity to set on the player's body: composed from the frame's
    /// intent, the vertical velocity in the readings and the carry state
    /// detected on the readings.
    pub open spec fn player_velocity(self, snapshot: WorldSnapshot) -> (int, int) {
        self.detected_player(snapshot).composed(
            self.intent(),
            snapshot.player.velocity.y as int,
        )
    }

    /// Whether `settle` can take the readings: a frame is in progress, there
    /// is one reading for each platform, and the player's velocity fits in
    /// 64 bits.
    pub open spec fn accepts_readings(self, snapshot: WorldSnapshot) -> bool {
        &&& self.phase is Sampled
        &&& snapshot.platforms@.len() == self.platforms.len()
        &&& self.detected_player(snapshot).composition_fits(
            self.intent(),
            snapshot.player.velocity.y as int,
        )
    }

    /// Platform `i` after its controller's tick on the readings.
    pub open spec fn ticked_platform(self, snapshot: WorldSnapshot, i: int) -> MovingPlatform {
        self.platforms[i].ticked(snapshot.platforms@[i].position.x as int)
    }

    /// The state once a frame has settled: carry state recomputed, every
    /// platform ticked, and the orchestrator between frames again.
    pub open spec fn settled(self, snapshot: WorldSnapshot) -> FrameState {
        FrameState {
            config: self.config,
            player: self.detected_player(snapshot),
            platforms: Seq::new(
                self.platforms.len(),
                |i: int| self.ticked_platform(snapshot, i),
            ),
            phase: Phase::Idle,
        }
    }

    /// The command that sets the player's velocity.
    pub open spec fn player_command(self, snapshot: WorldSnapshot) -> Command {
        Command::SetLinearVelocity {
            body: self.player.body,
            velocity: Vec2 {
                x: self.player_velocity(snapshot).0 as i64,
                y: self.player_velocity(snapshot).1 as i64,
            },
        }
    }

    /// The command that sets the velocity of platform `i`, after its tick.
    pub open spec fn platform_command(self, snapshot: WorldSnapshot, i: int) -> Command {
        Command::SetLinearVelocity {
            body: self.platforms[i].body,
            velocity: Vec2 {
                x: self.ticked_platform(snapshot, i).drive(self.config.platform_speed as int).0 as i64,
                y: 0,
            },
        }
    }

    /// The commands that close a frame: the player's velocity, then each
    /// platform's velocity in order, then the step of the world.
    pub open spec fn closing_commands(self, snapshot: WorldSnapshot) -> Seq<Command> {
        seq![self.player_command(snapshot)] + Seq::new(
            self.platforms.len(),
            |i: int| self.platform_command(snapshot, i),
        ) + seq![Command::Step]
    }

    /// All commands of one frame, in the order in which they are performed.
    pub open spec fn frame_commands(self, input: FrameInput, snapshot: WorldSnapshot) -> Seq<
        Command,
    > {
        self.opening_commands(input) + self.begun(input).closing_commands(snapshot)
    }
}

/// Holds the actors and sequences the frame. The world is owned by the
/// caller; the orchestrator holds handles only.
#[derive(Debug)]
pub struct FrameOrchestrator {
    config: Config,
    player: Player,
    platforms: Vec<MovingPlatform>,
    phase: Phase,
}

impl View for FrameOrchestrator {
    type V = FrameState;

    closed spec fn view(&self) -> FrameState {
        FrameState {
            config: self.config,
            player: self.player,
            platforms: self.platforms@,
            phase: self.phase,
        }
    }
}

/// Compares every platform's handles with the player's and with those of
/// every platform before it.
fn handles_are_distinct(player: &Player, platforms: &Vec<MovingPlatform>) -> (ok: bool)
    ensures
        ok == handles_distinct(*player, platforms@),
{
    let n = platforms.len();
    let mut j: usize = 0;
    while j < n
        invariant
            n == platforms.len(),
            j <= n,
            forall|k: int|
                0 <= k < j ==> (#[trigger] platforms[k]).body != player.body
                    && platforms[k].collider != player.collider,
            forall|a: int, b: int|
                0 <= a < b < j ==> (#[trigger] platforms[a]).body != (#[trigger] platforms[b]).body
                    && platforms[a].collider != platforms[b].collider,
        decreases n - j,
    {
        let later = platforms[j];
        if later.body == player.body || later.collider == player.collider {
            return false;
        }
        let mut i: usize = 0;
        while i < j
            invariant
                n == platforms.len(),
                j < n,
                i <= j,
                later == platforms[j as int],
                forall|a: int|
                    0 <= a < i ==> (#[trigger] platforms[a]).body != later.body
                        && platforms[a].collider != later.collider,
            decreases j - i,
        {
            let earlier = platforms[i];
            if earlier.body == later.body || earlier.collider == later.collider {
                return false;
            }
            i += 1;
        }
        j += 1;
    }
    true
}

impl FrameOrchestrator {
    /// An orchestrator between frames, or `None` when the configuration is
    /// not valid, the player carries a velocity without being carried, or two
    /// actors share a handle.
    pub fn new(config: Config, player: Player, platforms: Vec<MovingPlatform>) -> (made: Option<
        FrameOrchestrator,
    >)
        ensures
            made is Some <==> (FrameState {
                config,
                player,
                platforms: platforms@,
                phase: Phase::Idle,
            }).wf(),
            made matches Some(o) ==> o@ == (FrameState {
                config,
                player,
                platforms: platforms@,
                phase: Phase::Idle,
            }),
    {
        let player_ok = player.is_carried || (player.carry_velocity.x == 0
            && player.carry_velocity.y == 0);
        if config.is_valid() && player_ok && handles_are_distinct(&player, &platforms) {
            Some(FrameOrchestrator { config, player, platforms, phase: Phase::Idle })
        } else {
            None
        }
    }

    pub fn config(&self) -> (c: Config)
        ensures
            c == self@.config,
    {
        self.config
    }

    pub fn player(&self) -> (p: Player)
        ensures
            p == self@.player,
    {
        self.player
    }

    pub fn platforms(&self) -> (p: &Vec<MovingPlatform>)
        ensures
            p@ == self@.platforms,
    {
        &self.platforms
    }

    pub fn phase(&self) -> (p: Phase)
        ensures
            p == self@.phase,
    {
        self.phase
    }

    pub fn is_idle(&self) -> (b: bool)
        ensures
            b == (self@.phase is Idle),
    {
        match self.phase {
            Phase::Idle => true,
            _ => false,
        }
    }

    pub fn is_halted(&self) -> (b: bool)
        ensures
            b == (self@.phase is Halted),
    {
        match self.phase {
            Phase::Halted => true,
            _ => false,
        }
    }

    /// Whether `settle` can take these readings.
    pub fn accepts_readings(&self, snapshot: &WorldSnapshot) -> (ok: bool)
        ensures
            ok == self@.accepts_readings(*snapshot),
    {
        match self.phase {
            Phase::Sampled { horizontal_intent } => {
                if snapshot.platforms.len() != self.platforms.len() {
                    return false;
                }
                let mut probe = self.player;
                CarryDetector::from_config(&self.config).detect(
                    &mut probe,
                    snapshot.player.position,
                    &snapshot.platforms,
                );
                probe.checked_compose(horizontal_intent, snapshot.player.velocity.y).is_some()
            },
            _ => false,
        }
    }

    /// Opens a frame with its input. Gives the commands to perform before
    /// the readings are taken: the jump impulse first, if a jump was asked
    /// for, so that the readings show its effect.
    pub fn begin_frame(&mut self, input: FrameInput) -> (commands: Vec<Command>)
        requires
            old(self)@.wf(),
            old(self)@.phase is Idle,
        ensures
            final(self)@ == old(self)@.begun(input),
            final(self)@.wf(),
            commands@ == old(self)@.opening_commands(input),
    {
        let mut commands: Vec<Command> = Vec::new();
        if input.jump_requested {
            commands.push(
                Command::ApplyImpulse {
                    body: self.player.body,
                    impulse: Vec2 { x: 0, y: -self.config.jump_impulse },
                },
            );
        }
        commands.push(Command::RunScript);
        commands.push(Command::ReadWorld);
        self.phase = Phase::Sampled { horizontal_intent: input.horizontal_intent };
        assert(commands@ =~= old(self)@.opening_commands(input));
        commands
    }

    /// Records that the frame's script failed. The run is over: the
    /// orchestrator accepts nothing after it.
    pub fn script_failed(&mut self)
        requires
            old(self)@.phase is Sampled,
        ensures
            final(self)@ == old(self)@.halted(),
    {
        self.phase = Phase::Halted;
    }

    /// Closes the frame on the readings of the world: recomputes the carry
    /// state, composes the player's velocity, ticks every platform's
    /// controller, and gives the commands to perform, the step of the world
    /// last.
    pub fn settle(&mut self, snapshot: &WorldSnapshot) -> (commands: Vec<Command>)
        requires
            old(self)@.wf(),
            old(self)@.accepts_readings(*snapshot),
        ensures
            final(self)@ == old(self)@.settled(*snapshot),
            final(self)@.wf(),
            commands@ == old(self)@.closing_commands(*snapshot),
    {
        let ghost before = self@;
        let horizontal_intent: i64 = match self.phase {
            Phase::Sampled { horizontal_intent } => horizontal_intent,
            _ => 0,
        };
        let detector = CarryDetector::from_config(&self.config);
        let mut player = self.player;
        detector.detect(&mut player, snapshot.player.position, &snapshot.platforms);
        let velocity = player.compose_velocity(horizontal_intent, snapshot.player.velocity.y);
        self.player = player;

        let mut commands: Vec<Command> = Vec::new();
        commands.push(Command::SetLinearVelocity { body: self.player.body, velocity });

        let n = self.platforms.len();
        let speed = self.config.platform_speed;
        let mut i: usize = 0;
        while i < n
            invariant
                before.wf(),
                i <= n,
                n == before.platforms.len(),
                n == self.platforms.len(),
                n == snapshot.platforms.len(),
                speed == before.config.platform_speed,
                self.config == before.config,
                self.player == before.detected_player(*snapshot),
                self.phase == before.phase,
                forall|k: int|
                    0 <= k < i ==> #[trigger] self.platforms[k] == before.ticked_platform(
                        *snapshot,
                        k,
                    ),
                forall|k: int| i <= k < n ==> #[trigger] self.platforms[k] == before.platforms[k],
                commands.len() == i + 1,
                commands[0] == before.player_command(*snapshot),
                forall|k: int|
                    0 <= k < i ==> #[trigger] commands[k + 1] == before.platform_command(
                        *snapshot,
                        k,
                    ),
            decreases n - i,
        {
            let mut platform = self.platforms[i];
            let drive = platform.tick(snapshot.platforms[i].position.x, speed);
            self.platforms.set(i, platform);
            commands.push(Command::SetLinearVelocity { body: platform.body, velocity: drive });
            i += 1;
        }
        commands.push(Command::Step);
        self.phase = Phase::Idle;
        assert(self@.platforms =~= before.settled(*snapshot).platforms);
        assert(commands@ =~= before.closing_commands(*snapshot)) by {
            let expected = before.closing_commands(*snapshot);
            assert(expected.len() == n + 2);
            assert forall|k: int| 0 <= k < n + 2 implies commands@[k] == expected[k] by {
                if 0 < k <= n {
                    assert(commands@[(k - 1) + 1] == before.platform_command(*snapshot, k - 1));
                }
            }
        }
        commands
    }
}

} // verus!
