//! The game: one player, the pipes, the spawn timer, and the frame that
//! moves them all.
//!
//! [`GameState`] says what a frame does as a function of the state, the
//! frame time, the input, the reading of the spawn timer's clock and the
//! offset drawn for a new pipe. [`Game::step`] is that function carried out;
//! [`Game::frame`] reads the last two from the clock and the random
//! generator.

use vstd::prelude::*;
use crate::pipe::{valid_spawn_offset, Pipe, Rect};
use crate::player::Player;
use crate::spawner::random_spawn_offset;
use crate::timer::{Timer, TimerState};
use crate::units::{clamp, Vec2, MICROS_PER_SECOND};

verus! {

/// Seconds between two pipes.
pub const SPAWN_INTERVAL: u64 = 1;

/// What was pressed since the last frame.
#[derive(Clone, Copy, Debug, PartialEq, Eq, Structural)]
pub struct Input {
    /// The up arrow.
    pub up: bool,
    /// The space bar.
    pub space: bool,
    /// The primary pointer button.
    pub pointer: bool,
}

impl Input {
    /// Any of the three makes the player jump, and several at once make it
    /// jump once.
    pub open spec fn jumps(self) -> bool {
        self.up || self.space || self.pointer
    }

    /// Nothing pressed.
    pub fn none() -> (input: Input)
        ensures
            input == (Input { up: false, space: false, pointer: false }),
            !input.jumps(),
    {
        Input { up: false, space: false, pointer: false }
    }

    /// Whether this input makes the player jump.
    pub fn is_jump(&self) -> (jump: bool)
        ensures
            jump == self.jumps(),
    {
        self.up || self.space || self.pointer
    }
}

/// The game as a mathematical value.
pub struct GameState {
    pub player: Player,
    /// Whether the round has started: the player has jumped since it was
    /// last reset.
    pub started: bool,
    /// The pipes, oldest first.
    pub pipes: Seq<Pipe>,
    pub timer: TimerState,
}

/// What is drawn for a frame, as a mathematical value.
pub struct SceneView {
    pub player: Option<Rect>,
    pub prompt: bool,
    pub obstacles: Seq<Rect>,
}

impl GameState {
    /// A new game: a new player, no pipes, the round not started and the
    /// spawn timer running.
    pub open spec fn initial() -> GameState {
        GameState {
            player: Player::initial(),
            started: false,
            pipes: Seq::empty(),
            timer: TimerState {
                interval: SPAWN_INTERVAL,
                oneshot: false,
                stopped: false,
                start: 0,
            },
        }
    }

    /// Every pipe moves to the left.
    pub open spec fn wf(self) -> bool {
        forall|i: int| 0 <= i < self.pipes.len() ==> (#[trigger] self.pipes[i]).wf()
    }

    /// The first part of a frame, when the spawn timer's clock reads `at`.
    /// A living player plays its frame, and a jump starts the round; with the
    /// round the interval of the spawn timer starts, so that the time spent
    /// waiting for the first jump does not count towards the first pipe. In
    /// place of a dead player the game is reset: a new player, the round not
    /// started, no pipes.
    pub open spec fn after_player(self, dt: int, jump: bool, at: u128) -> GameState {
        if self.player.is_alive {
            GameState {
                player: self.player.stepped(self.started, dt, jump),
                started: self.started || jump,
                timer: if jump && !self.started {
                    self.timer.restarted(at)
                } else {
                    self.timer
                },
                ..self
            }
        } else {
            GameState { player: Player::initial(), started: false, pipes: Seq::empty(), ..self }
        }
    }

    /// The second part of a frame: every pipe scrolls for `dt` microseconds.
    pub open spec fn after_pipes(self, dt: int) -> GameState {
        GameState { pipes: self.pipes.map_values(|p: Pipe| p.moved(dt)), ..self }
    }

    /// The game with one more pipe, entering `offset` above the spawn height.
    pub open spec fn with_pipe(self, offset: int) -> GameState {
        GameState { pipes: self.pipes.push(Pipe::spawned(offset)), ..self }
    }

    /// The last part of a frame. Once the round has started the spawn timer
    /// is polled, its clock reading `at`, and where it fires a pipe enters
    /// at `offset`.
    pub open spec fn after_timer(self, at: u128, offset: int) -> GameState {
        if self.started && self.timer.fires(at) {
            GameState { timer: self.timer.after(at), ..self.with_pipe(offset) }
        } else {
            self
        }
    }

    /// One whole frame, played when the spawn timer's clock reads `at`.
    pub open spec fn stepped(self, dt: int, jump: bool, at: u128, offset: int) -> GameState {
        self.after_player(dt, jump, at).after_pipes(dt).after_timer(at, offset)
    }

    /// What is drawn at the start of a frame. For a living player: the
    /// player, the prompt while the round has not started, and for each
    /// pipe, oldest first, the rectangle below its gap and then the one
    /// above. For a dead one nothing: the frame clears the pipes before it
    /// would draw them.
    pub open spec fn scene(self) -> SceneView {
        if self.player.is_alive {
            SceneView {
                player: Some(Rect { position: self.player.position, size: self.player.size }),
                prompt: !self.started,
                obstacles: Seq::new(
                    2 * self.pipes.len(),
                    |i: int|
                        if i % 2 == 0 {
                            self.pipes[i / 2].lower()
                        } else {
                            self.pipes[i / 2].upper()
                        },
                ),
            }
        } else {
            SceneView { player: None, prompt: false, obstacles: Seq::empty() }
        }
    }
}

/// A frame that starts with a dead player ends with the player as new, no
/// pipes and the round not started, whatever the time, the input and the
/// outside values.
pub proof fn lemma_dead_player_resets(
    game: GameState,
    dt: int,
    jump: bool,
    at: u128,
    offset: int,
)
    requires
        !game.player.is_alive,
    ensures
        game.stepped(dt, jump, at, offset).player == Player::initial(),
        game.stepped(dt, jump, at, offset).pipes =~= Seq::<Pipe>::empty(),
        !game.stepped(dt, jump, at, offset).started,
        game.stepped(dt, jump, at, offset).timer == game.timer,
{
    let reset = game.after_player(dt, jump, at);
    assert(reset.after_pipes(dt).pipes =~= Seq::<Pipe>::empty());
}

/// In a frame of a living player with the round on, a jump leaves the
/// vertical velocity at the jump speed upwards, and without a jump gravity
/// adds `gravity_force * 110 * dt` to it: as long as that velocity can be
/// held in an `i64`. The horizontal velocity stays and the round stays on.
pub proof fn lemma_velocity_after_frame(
    game: GameState,
    dt: int,
    jump: bool,
    at: u128,
    offset: int,
)
    requires
        game.player.is_alive,
        game.started,
        0 <= dt,
        jump ==> -game.player.jump_force <= i64::MAX,
        !jump ==> i64::MIN <= game.player.velocity.y + game.player.gravity_force * 110 * dt
            <= i64::MAX,
    ensures
        jump ==> game.stepped(dt, jump, at, offset).player.velocity.y
            == -game.player.jump_force,
        !jump ==> game.stepped(dt, jump, at, offset).player.velocity.y
            == game.player.velocity.y + game.player.gravity_force * 110 * dt,
        game.stepped(dt, jump, at, offset).player.velocity.x == game.player.velocity.x,
        game.stepped(dt, jump, at, offset).started,
{
}

/// Until the round has started gravity does not act: in a frame without a
/// jump a living player keeps its velocity, and one at rest keeps its place.
pub proof fn lemma_no_gravity_before_start(game: GameState, dt: int, at: u128, offset: int)
    requires
        game.player.is_alive,
        !game.started,
    ensures
        game.stepped(dt, false, at, offset).player.velocity == game.player.velocity,
        !game.stepped(dt, false, at, offset).started,
        game.player.velocity == (Vec2 { x: 0, y: 0 }) ==> game.stepped(
            dt,
            false,
            at,
            offset,
        ).player.position == game.player.position,
{
}

/// A jump of a living player starts the round.
pub proof fn lemma_jump_starts_round(game: GameState, dt: int, at: u128, offset: int)
    requires
        game.player.is_alive,
    ensures
        game.stepped(dt, true, at, offset).started,
        game.stepped(dt, true, at, offset).player.velocity.y == clamp(
            -game.player.jump_force,
        ),
{
}

/// The time spent waiting for the first jump does not count towards the
/// first pipe. In the frame in which a jump starts the round, the interval
/// of the spawn timer starts at the reading of that frame, whatever the
/// clock has counted before; no pipe enters in that frame; and a later frame
/// lets a pipe in only when a whole interval has passed since.
pub proof fn lemma_waiting_does_not_count(
    game: GameState,
    dt: int,
    at: u128,
    offset: int,
    later: u128,
)
    requires
        game.player.is_alive,
        !game.started,
        game.timer.interval > 0,
    ensures
        game.stepped(dt, true, at, offset).started,
        game.stepped(dt, true, at, offset).timer == game.timer.restarted(at),
        game.stepped(dt, true, at, offset).pipes == game.pipes.map_values(
            |p: Pipe| p.moved(dt),
        ),
        game.stepped(dt, true, at, offset).pipes.len() == game.pipes.len(),
        game.stepped(dt, true, at, offset).timer.fires(later) ==> later - at
            >= game.timer.interval * MICROS_PER_SECOND,
{
}

/// At the end of every frame a player that touches or has passed the top or
/// the bottom of the screen is dead, so the next frame resets the game.
pub proof fn lemma_out_of_bounds_is_dead(
    game: GameState,
    dt: int,
    jump: bool,
    at: u128,
    offset: int,
)
    ensures
        game.stepped(dt, jump, at, offset).player.out_of_bounds() ==> !game.stepped(
            dt,
            jump,
            at,
            offset,
        ).player.is_alive,
{
}

/// A frame adds at most one pipe, behind the others, and only while the
/// round is on and the spawn timer fires; the pipe it adds enters at the
/// offset given.
pub proof fn lemma_frame_spawns(game: GameState, dt: int, jump: bool, at: u128, offset: int)
    ensures
        ({
            let moved = game.after_player(dt, jump, at).after_pipes(dt);
            let end = game.stepped(dt, jump, at, offset);
            if moved.started && moved.timer.fires(at) {
                end.pipes == moved.pipes.push(Pipe::spawned(offset))
            } else {
                end.pipes == moved.pipes
            }
        }),
{
}

/// Pipes keep moving to the left: while the player lives a frame removes no
/// pipe, changes no pipe's velocity or size, and moves none to the right or
/// up or down.
pub proof fn lemma_frame_keeps_pipes_moving_left(
    game: GameState,
    dt: int,
    jump: bool,
    at: u128,
    offset: int,
)
    requires
        game.wf(),
        0 <= dt,
    ensures
        game.stepped(dt, jump, at, offset).wf(),
        game.player.is_alive ==> game.stepped(dt, jump, at, offset).pipes.len()
            >= game.pipes.len(),
        game.player.is_alive ==> forall|i: int|
            #![trigger game.pipes[i]]
            0 <= i < game.pipes.len() ==> {
                let after = game.stepped(dt, jump, at, offset).pipes[i];
                after.velocity == game.pipes[i].velocity && after.size == game.pipes[i].size
                    && after.position.x <= game.pipes[i].position.x && after.position.y
                    == game.pipes[i].position.y
            },
{
    let end = game.stepped(dt, jump, at, offset);
    let played = game.after_player(dt, jump, at);
    assert forall|i: int| 0 <= i < end.pipes.len() implies (#[trigger] end.pipes[i]).wf() by {
        if i < played.pipes.len() {
            assert(played.pipes[i].wf());
        }
    }
    if game.player.is_alive {
        assert forall|i: int|
            #![trigger game.pipes[i]]
            0 <= i < game.pipes.len() implies ({
            let after = end.pipes[i];
            after.velocity == game.pipes[i].velocity && after.size == game.pipes[i].size
                && after.position.x <= game.pipes[i].position.x && after.position.y
                == game.pipes[i].position.y
        }) by {
            let pipe = game.pipes[i];
            assert(pipe.wf());
            assert(pipe.velocity.x * dt <= 0) by (nonlinear_arith)
                requires
                    pipe.velocity.x < 0,
                    dt >= 0,
            ;
        }
    }
}

/// The game.
pub struct Game {
    pub player: Player,
    pub game_started: bool,
    pub pipes: Vec<Pipe>,
    pub timer: Timer,
}

impl View for Game {
    type V = GameState;

    open spec fn view(&self) -> GameState {
        GameState {
            player: self.player,
            started: self.game_started,
            pipes: self.pipes@,
            timer: self.timer@,
        }
    }
}

/// What is drawn for a frame.
pub struct Scene {
    /// The player's square, if it is drawn.
    pub player: Option<Rect>,
    /// Whether the invitation to start is shown.
    pub prompt: bool,
    /// The rectangles of the pipes, in drawing order.
    pub obstacles: Vec<Rect>,
}

impl View for Scene {
    type V = SceneView;

    open spec fn view(&self) -> SceneView {
        SceneView { player: self.player, prompt: self.prompt, obstacles: self.obstacles@ }
    }
}

impl Game {
    /// A new game, its spawn timer starting now.
    pub fn new() -> (game: Game)
        ensures
            game@ == GameState::initial(),
            game@.wf(),
    {
        Game {
            player: Player::new(),
            game_started: false,
            pipes: Vec::new(),
            timer: Timer::new(SPAWN_INTERVAL, false),
        }
    }

    /// The first part of a frame, when the spawn timer's clock reads `at`:
    /// the player's frame, or the reset of the game in place of a dead
    /// player. Where a jump starts the round, the spawn timer's interval
    /// starts with it, at `at`: the time spent waiting for the first jump
    /// does not count towards the first pipe.
    pub fn update_player(&mut self, dt: u32, jump: bool, at: u128)
        ensures
            final(self)@ == old(self)@.after_player(dt as int, jump, at),
            old(self)@.wf() ==> final(self)@.wf(),
            final(self).timer.origin() == old(self).timer.origin(),
    {
        if self.player.is_alive {
            let started = self.game_started;
            self.player.step(started, dt, jump);
            if jump {
                if !self.game_started {
                    self.timer.restart(at);
                    self.game_started = true;
                }
            }
        } else {
            self.game_started = false;
            self.player = Player::new();
            self.pipes.clear();
        }
    }

    /// The second part of a frame: every pipe scrolls for `dt` microseconds.
    pub fn advance_pipes(&mut self, dt: u32)
        ensures
            final(self)@ == old(self)@.after_pipes(dt as int),
            old(self)@.wf() ==> final(self)@.wf(),
            final(self).timer.origin() == old(self).timer.origin(),
    {
        let ghost before = self@;
        let ghost origin = self.timer.origin();
        let n = self.pipes.len();
        let mut i: usize = 0;
        while i < n
            invariant
                i <= n,
                self.pipes@.len() == n,
                before.pipes.len() == n,
                forall|j: int| 0 <= j < i ==> self.pipes@[j] == (#[trigger] before.pipes[j]).moved(dt as int),
                forall|j: int| i <= j < n ==> self.pipes@[j] == #[trigger] before.pipes[j],
                self.player == before.player,
                self.game_started == before.started,
                self.timer@ == before.timer,
                self.timer.origin() == origin,
            decreases n - i,
        {
            let mut pipe = self.pipes[i];
            pipe.integrate(dt);
            self.pipes.set(i, pipe);
            i += 1;
        }
        assert(self.pipes@ =~= before.pipes.map_values(|p: Pipe| p.moved(dt as int)));
    }

    /// Lets a pipe enter `offset` above the spawn height, behind the others.
    pub fn spawn_pipe(&mut self, offset: i64)
        requires
            valid_spawn_offset(offset as int),
        ensures
            final(self)@ == old(self)@.with_pipe(offset as int),
            old(self)@.wf() ==> final(self)@.wf(),
            final(self).timer.origin() == old(self).timer.origin(),
    {
        let ghost before = self@;
        self.pipes.push(Pipe::spawn(offset));
        proof {
            if before.wf() {
                assert forall|i: int| 0 <= i < self@.pipes.len() implies (#[trigger] self@.pipes[i]).wf() by {
                    if i < before.pipes.len() {
                        assert(before.pipes[i].wf());
                    }
                }
            }
        }
    }

    /// One frame of `dt` microseconds, with the two outside values given:
    /// `at`, the reading of the spawn timer's clock, and `offset`, where a
    /// pipe enters if the timer fires now.
    pub fn step(&mut self, dt: u32, input: Input, at: u128, offset: i64)
        requires
            valid_spawn_offset(offset as int),
        ensures
            final(self)@ == old(self)@.stepped(dt as int, input.jumps(), at, offset as int),
            old(self)@.wf() ==> final(self)@.wf(),
            !old(self).player.is_alive ==> final(self).player == Player::initial()
                && final(self).pipes@.len() == 0 && !final(self).game_started,
            final(self).player.out_of_bounds() ==> !final(self).player.is_alive,
            old(self).player.is_alive && !old(self).game_started && input.jumps() && old(
                self,
            ).timer@.interval > 0 ==> final(self).pipes@.len() == old(self).pipes@.len()
                && final(self).timer@ == old(self).timer@.restarted(at),
            final(self).timer.origin() == old(self).timer.origin(),
    {
        self.update_player(dt, input.is_jump(), at);
        self.advance_pipes(dt);
        if self.game_started {
            let fixed = || -> (drawn: i64)
                ensures
                    drawn == offset,
                { offset };
            match self.timer.tick(at, fixed) {
                Some(drawn) => {
                    self.spawn_pipe(drawn);
                },
                None => {},
            }
        }
    }

    /// One frame of `dt` microseconds. The spawn timer's clock is read once,
    /// and where the timer fires the offset of the new pipe is drawn at
    /// random. The frame is [`Game::step`] for the reading that the clock
    /// showed and the offset that was, or would have been, drawn.
    pub fn frame(&mut self, dt: u32, input: Input)
        ensures
            exists|at: u128, offset: int|
                valid_spawn_offset(offset) && final(self)@ == #[trigger] old(self)@.stepped(
                    dt as int,
                    input.jumps(),
                    at,
                    offset,
                ),
            old(self)@.wf() ==> final(self)@.wf(),
            !old(self).player.is_alive ==> final(self).player == Player::initial()
                && final(self).pipes@.len() == 0 && !final(self).game_started,
            final(self).player.out_of_bounds() ==> !final(self).player.is_alive,
            old(self).player.is_alive && !old(self).game_started && input.jumps() && old(
                self,
            ).timer@.interval > 0 ==> final(self).pipes@.len() == old(self).pipes@.len(),
            final(self).timer.origin() == old(self).timer.origin(),
    {
        let ghost before = self@;
        let at = self.timer.reading();
        self.update_player(dt, input.is_jump(), at);
        self.advance_pipes(dt);
        if self.game_started {
            let draw = || -> (drawn: i64)
                ensures
                    valid_spawn_offset(drawn as int),
                { random_spawn_offset() };
            match self.timer.tick(at, draw) {
                Some(drawn) => {
                    self.spawn_pipe(drawn);
                    assert(self@ == before.stepped(dt as int, input.jumps(), at, drawn as int));
                },
                None => {
                    assert(self@ == before.stepped(dt as int, input.jumps(), at, 0));
                },
            }
        } else {
            assert(self@ == before.stepped(dt as int, input.jumps(), at, 0));
        }
    }

    /// What to draw at the start of a frame.
    pub fn scene(&self) -> (scene: Scene)
        ensures
            scene@ == self@.scene(),
    {
        let mut obstacles: Vec<Rect> = Vec::new();
        if !self.player.is_alive {
            return Scene { player: None, prompt: false, obstacles };
        }
        let n = self.pipes.len();
        let mut i: usize = 0;
        while i < n
            invariant
                i <= n,
                n == self.pipes@.len(),
                obstacles@.len() == 2 * i,
                forall|j: int|
                    0 <= j < 2 * i ==> #[trigger] obstacles@[j] == if j % 2 == 0 {
                        self.pipes@[j / 2].lower()
                    } else {
                        self.pipes@[j / 2].upper()
                    },
            decreases n - i,
        {
            obstacles.push(self.pipes[i].lower_rect());
            obstacles.push(self.pipes[i].upper_rect());
            i += 1;
        }
        assert(obstacles@ =~= self@.scene().obstacles);
        Scene {
            player: Some(Rect { position: self.player.position, size: self.player.size }),
            prompt: !self.game_started,
            obstacles,
        }
    }
}

} // verus!
