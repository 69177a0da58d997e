//! The simulation: two paddles, one ball and the play/pause flag, advanced by
//! ticks and commands.
//!
//! [`Snapshot`] is the plain state and carries the rules as spec functions.
//! [`SimulationState`] owns one well-formed snapshot and is the only way to
//! change it, so every state that a host can reach is well formed.

use vstd::prelude::*;
use crate::ball::Ball;
use crate::command::Command;
use crate::config::{Config, Side};
use crate::paddle::Paddle;
use crate::serve::{ServeDraw, SERVE_SPEED_MIN};

verus! {

/// What happened to the ball during one tick.
#[derive(Clone, Copy, Debug, PartialEq, Eq, Structural)]
pub struct TickReport {
    /// The ball reached over the top or bottom wall and was turned back.
    pub wall_bounce: bool,
    /// The ball met a paddle and was turned back.
    pub paddle_hit: bool,
    /// The ball left the field: it was served again and the game paused.
    pub scored: bool,
}

/// The state of a simulation at one moment.
#[derive(Clone, Copy, Debug, PartialEq, Eq, Structural)]
pub struct Snapshot {
    pub config: Config,
    pub playing: bool,
    pub left: Paddle,
    pub right: Paddle,
    pub ball: Ball,
}

impl TickReport {
    /// The report of a tick in which nothing happened.
    pub open spec fn quiet() -> TickReport {
        TickReport { wall_bounce: false, paddle_hit: false, scored: false }
    }
}

impl Snapshot {
    /// The configuration is valid, each paddle guards its own side and lies
    /// inside the field, and the ball is in play.
    pub open spec fn well_formed(&self) -> bool {
        &&& self.config.valid()
        &&& self.left.side == Side::Left
        &&& self.right.side == Side::Right
        &&& self.left.within_bounds(&self.config)
        &&& self.right.within_bounds(&self.config)
        &&& self.ball.in_play(&self.config)
    }

    /// The state that every simulation on `config` starts in: paused, both
    /// paddles centred vertically, the ball at the centre of the field with
    /// the base speed on both axes.
    pub open spec fn initial(config: Config) -> Snapshot {
        Snapshot {
            config,
            playing: false,
            left: Paddle { side: Side::Left, center_y: config.center_y() as i64 },
            right: Paddle { side: Side::Right, center_y: config.center_y() as i64 },
            ball: Ball {
                x: config.center_x() as i64,
                y: config.center_y() as i64,
                vx: config.ball_base_speed,
                vy: config.ball_base_speed,
            },
        }
    }

    /// The paddle on `side`.
    pub open spec fn paddle(&self, side: Side) -> Paddle {
        match side {
            Side::Left => self.left,
            Side::Right => self.right,
        }
    }

    /// The state after the paddle on `side` has moved by `delta`.
    pub open spec fn with_paddle_moved(self, side: Side, delta: int) -> Snapshot {
        match side {
            Side::Left => Snapshot { left: self.left.moved_by(delta, &self.config), ..self },
            Side::Right => Snapshot { right: self.right.moved_by(delta, &self.config), ..self },
        }
    }

    /// The state after play was toggled.
    pub open spec fn toggled(self) -> Snapshot {
        Snapshot { playing: !self.playing, ..self }
    }

    /// The state after a serve with the values of `draw`: the ball is served
    /// and the game plays.
    pub open spec fn served(self, draw: ServeDraw) -> Snapshot {
        Snapshot { playing: true, ball: Ball::served(&self.config, draw), ..self }
    }

    /// The state after `command`, where `draw` holds the values that a serve
    /// would use. Paddles move in either state; `Quit` changes nothing.
    pub open spec fn after_command(self, command: Command, draw: ServeDraw) -> Snapshot {
        match command {
            Command::MoveUp(side) => self.with_paddle_moved(side, -self.config.paddle_move_speed),
            Command::MoveDown(side) => self.with_paddle_moved(
                side,
                self.config.paddle_move_speed as int,
            ),
            Command::Serve => self.served(draw),
            Command::TogglePlay => self.toggled(),
            Command::Quit => self,
        }
    }

    /// The ball after one step and the wall rule.
    pub open spec fn ball_after_walls(&self) -> Ball {
        self.ball.advanced().reflected(&self.config)
    }

    /// After its step, the ball meets at least one of the paddles.
    pub open spec fn meets_paddle(&self) -> bool {
        self.ball_after_walls().overlaps(&self.left, &self.config)
            || self.ball_after_walls().overlaps(&self.right, &self.config)
    }

    /// The ball at the end of its flight through one tick: moved by its
    /// velocity, turned back vertically if it reaches over a wall, then turned
    /// back horizontally, once, if it meets a paddle.
    pub open spec fn ball_after_flight(&self) -> Ball {
        if self.meets_paddle() {
            self.ball_after_walls().turned_horizontally()
        } else {
            self.ball_after_walls()
        }
    }

    /// What a tick reports in this state.
    pub open spec fn tick_report(&self) -> TickReport {
        if self.playing {
            TickReport {
                wall_bounce: self.ball.advanced().breaches_wall(&self.config),
                paddle_hit: self.meets_paddle(),
                scored: self.ball_after_flight().out_of_bounds(&self.config),
            }
        } else {
            TickReport::quiet()
        }
    }

    /// The state after one tick, where `draw` holds the values of the serve
    /// that follows if the ball leaves the field. A paused game does not
    /// change. A running one moves the ball through its flight; if the ball
    /// has then left the field, it is served again and the game pauses.
    pub open spec fn after_tick(self, draw: ServeDraw) -> Snapshot {
        if !self.playing {
            self
        } else if self.ball_after_flight().out_of_bounds(&self.config) {
            Snapshot { playing: false, ball: Ball::served(&self.config, draw), ..self }
        } else {
            Snapshot { ball: self.ball_after_flight(), ..self }
        }
    }

    /// The initial state on a valid configuration is well formed.
    pub proof fn lemma_initial_well_formed(config: Config)
        requires
            config.valid(),
        ensures
            Snapshot::initial(config).well_formed(),
    {
    }

    /// A tick keeps a well-formed state well formed, whatever a serve draws:
    /// the paddles and the configuration do not change, and the ball is again
    /// in play.
    pub proof fn lemma_tick_keeps_well_formed(self, draw: ServeDraw)
        requires
            self.well_formed(),
            draw.valid(),
        ensures
            self.after_tick(draw).well_formed(),
            self.after_tick(draw).config == self.config,
            self.after_tick(draw).left == self.left,
            self.after_tick(draw).right == self.right,
    {
        Ball::lemma_in_play_can_advance(self.ball, &self.config);
        Ball::lemma_served_ball_in_play(&self.config, draw);
    }

    /// A command keeps a well-formed state well formed, whatever a serve
    /// draws.
    pub proof fn lemma_command_keeps_well_formed(self, command: Command, draw: ServeDraw)
        requires
            self.well_formed(),
            draw.valid(),
        ensures
            self.after_command(command, draw).well_formed(),
            self.after_command(command, draw).config == self.config,
    {
        Ball::lemma_served_ball_in_play(&self.config, draw);
    }

    /// Tells whether the state is well formed.
    pub fn is_well_formed(&self) -> (ok: bool)
        ensures
            ok == self.well_formed(),
    {
        let config = &self.config;
        config.is_valid() && self.left.side == Side::Left && self.right.side == Side::Right
            && self.left.is_within_bounds(config) && self.right.is_within_bounds(config)
            && self.ball.is_in_play(config)
    }
}

/// A running simulation. Its state is read through [`SimulationState::snapshot`]
/// and the getters, and changes only by ticks and commands.
pub struct SimulationState {
    config: Config,
    playing: bool,
    left: Paddle,
    right: Paddle,
    ball: Ball,
}

impl View for SimulationState {
    type V = Snapshot;

    closed spec fn view(&self) -> Snapshot {
        Snapshot {
            config: self.config,
            playing: self.playing,
            left: self.left,
            right: self.right,
            ball: self.ball,
        }
    }
}

impl SimulationState {
    #[verifier::type_invariant]
    spec fn well_formed(&self) -> bool {
        self@.well_formed()
    }

    /// Starts a simulation on `config`, in the initial state. A configuration
    /// that is not valid is refused.
    pub fn new(config: Config) -> (state: Option<SimulationState>)
        ensures
            state.is_some() == config.valid(),
            state.is_some() ==> state.unwrap()@ == Snapshot::initial(config),
    {
        if !config.is_valid() {
            return None;
        }
        let center_x: i64 = config.screen_width / 2;
        let center_y: i64 = config.screen_height / 2;
        Some(
            SimulationState {
                config,
                playing: false,
                left: Paddle::new(center_y, Side::Left),
                right: Paddle::new(center_y, Side::Right),
                ball: Ball::new(center_x, center_y, &config),
            },
        )
    }

    /// Takes up a simulation in the state of `snapshot`. A snapshot that is
    /// not well formed is refused.
    pub fn restore(snapshot: Snapshot) -> (state: Option<SimulationState>)
        ensures
            state.is_some() == snapshot.well_formed(),
            state.is_some() ==> state.unwrap()@ == snapshot,
    {
        if !snapshot.is_well_formed() {
            return None;
        }
        Some(
            SimulationState {
                config: snapshot.config,
                playing: snapshot.playing,
                left: snapshot.left,
                right: snapshot.right,
                ball: snapshot.ball,
            },
        )
    }

    /// The current state, which is always well formed: in particular both
    /// paddles lie inside the field.
    pub fn snapshot(&self) -> (snapshot: Snapshot)
        ensures
            snapshot == self@,
            snapshot.well_formed(),
    {
        proof {
            use_type_invariant(self);
        }
        Snapshot {
            config: self.config,
            playing: self.playing,
            left: self.left,
            right: self.right,
            ball: self.ball,
        }
    }

    /// The configuration that the simulation was started on.
    pub fn config(&self) -> (config: Config)
        ensures
            config == self@.config,
            config.valid(),
    {
        proof {
            use_type_invariant(self);
        }
        self.config
    }

    /// Whether the game is playing, as opposed to paused.
    pub fn is_playing(&self) -> (playing: bool)
        ensures
            playing == self@.playing,
    {
        self.playing
    }

    /// The paddle on `side`.
    pub fn paddle(&self, side: Side) -> (paddle: Paddle)
        ensures
            paddle == self@.paddle(side),
            paddle.side == side,
            paddle.within_bounds(&self@.config),
    {
        proof {
            use_type_invariant(self);
        }
        match side {
            Side::Left => self.left,
            Side::Right => self.right,
        }
    }

    /// The ball.
    pub fn ball(&self) -> (ball: Ball)
        ensures
            ball == self@.ball,
            ball.in_play(&self@.config),
    {
        proof {
            use_type_invariant(self);
        }
        self.ball
    }

    /// Moves the paddle on `side` by `delta` (negative is up), stopping at the
    /// wall. Works whether the game is playing or paused.
    pub fn move_paddle(&mut self, side: Side, delta: i64)
        ensures
            final(self)@ == old(self)@.with_paddle_moved(side, delta as int),
            final(self)@.paddle(side).within_bounds(&final(self)@.config),
    {
        proof {
            use_type_invariant(&*self);
        }
        match side {
            Side::Left => {
                let mut paddle = self.left;
                paddle.move_by(delta, &self.config);
                self.left = paddle;
            },
            Side::Right => {
                let mut paddle = self.right;
                paddle.move_by(delta, &self.config);
                self.right = paddle;
            },
        }
    }

    /// Pauses a running game and resumes a paused one.
    pub fn toggle_play(&mut self)
        ensures
            final(self)@ == old(self)@.toggled(),
    {
        proof {
            use_type_invariant(&*self);
        }
        self.playing = !self.playing;
    }

    /// Serves the ball with the values of `draw` and starts playing.
    pub fn serve_with(&mut self, draw: ServeDraw)
        requires
            draw.valid(),
        ensures
            final(self)@ == old(self)@.served(draw),
    {
        proof {
            use_type_invariant(&*self);
        }
        let mut ball = self.ball;
        ball.serve_with(&self.config, draw);
        self.ball = ball;
        self.playing = true;
    }

    /// Serves the ball with a freshly drawn velocity and starts playing.
    pub fn serve(&mut self)
        ensures
            exists|draw: ServeDraw| draw.valid() && final(self)@ == old(self)@.served(draw),
            final(self)@.playing,
            final(self)@.ball.x == old(self)@.config.center_x(),
            final(self)@.ball.y == old(self)@.config.center_y(),
    {
        let draw = ServeDraw::random();
        self.serve_with(draw);
    }

    /// The ball's flight through one tick, and what it meets on the way.
    fn flight(&self) -> (result: (Ball, TickReport))
        requires
            self@.playing,
        ensures
            result.0 == self@.ball_after_flight(),
            result.1 == self@.tick_report(),
            !result.1.scored ==> result.0.in_play(&self@.config),
    {
        proof {
            use_type_invariant(self);
            Ball::lemma_in_play_can_advance(self.ball, &self.config);
        }
        let mut ball = self.ball;
        ball.advance();
        let wall_bounce = ball.reflect_vertical_if_needed(&self.config);
        let paddle_hit = ball.collides_with(&self.left, &self.config) || ball.collides_with(
            &self.right,
            &self.config,
        );
        if paddle_hit {
            ball.vx = -ball.vx;
        }
        let scored = ball.is_out_of_bounds(&self.config);
        (ball, TickReport { wall_bounce, paddle_hit, scored })
    }

    /// Advances the simulation by one tick, using `draw` for the serve that
    /// follows if the ball leaves the field.
    pub fn tick_with(&mut self, draw: ServeDraw) -> (report: TickReport)
        requires
            draw.valid(),
        ensures
            report == old(self)@.tick_report(),
            final(self)@ == old(self)@.after_tick(draw),
    {
        proof {
            use_type_invariant(&*self);
        }
        if !self.playing {
            return TickReport { wall_bounce: false, paddle_hit: false, scored: false };
        }
        let (ball, report) = self.flight();
        if report.scored {
            self.serve_with(draw);
            proof {
                use_type_invariant(&*self);
            }
            self.playing = false;
        } else {
            self.ball = ball;
        }
        report
    }

    /// Advances the simulation by one tick. A paused game does not change. In
    /// a running one the ball moves, bounces off the walls and the paddles,
    /// and, if it has left the field, is served again with a freshly drawn
    /// velocity while the game pauses.
    pub fn tick(&mut self) -> (report: TickReport)
        ensures
            report == old(self)@.tick_report(),
            exists|draw: ServeDraw| draw.valid() && final(self)@ == old(self)@.after_tick(draw),
    {
        let ghost spare = ServeDraw { speed: SERVE_SPEED_MIN, leftward: false, drift: 0 };
        proof {
            use_type_invariant(&*self);
        }
        if !self.playing {
            assert(spare.valid() && self@ == old(self)@.after_tick(spare));
            return TickReport { wall_bounce: false, paddle_hit: false, scored: false };
        }
        let (ball, report) = self.flight();
        if report.scored {
            self.serve();
            let ghost served = self@;
            proof {
                use_type_invariant(&*self);
            }
            self.playing = false;
            proof {
                let draw = choose|draw: ServeDraw|
                    draw.valid() && served == old(self)@.served(draw);
                assert(draw.valid() && self@ == old(self)@.after_tick(draw));
            }
        } else {
            self.ball = ball;
            assert(spare.valid() && self@ == old(self)@.after_tick(spare));
        }
        report
    }

    /// Carries out a command that draws nothing: any but a serve.
    fn apply_steady(&mut self, command: Command) -> (quit: bool)
        requires
            command != Command::Serve,
        ensures
            quit == (command == Command::Quit),
            forall|draw: ServeDraw|
                final(self)@ == #[trigger] old(self)@.after_command(command, draw),
    {
        proof {
            use_type_invariant(&*self);
        }
        match command {
            Command::MoveUp(side) => {
                let step: i64 = self.config.paddle_move_speed;
                self.move_paddle(side, -step);
                false
            },
            Command::MoveDown(side) => {
                let step: i64 = self.config.paddle_move_speed;
                self.move_paddle(side, step);
                false
            },
            Command::TogglePlay => {
                self.toggle_play();
                false
            },
            _ => true,
        }
    }

    /// Carries out `command`, using `draw` if it is a serve. Returns whether
    /// the host is asked to quit.
    pub fn apply_with(&mut self, command: Command, draw: ServeDraw) -> (quit: bool)
        requires
            draw.valid(),
        ensures
            quit == (command == Command::Quit),
            final(self)@ == old(self)@.after_command(command, draw),
    {
        match command {
            Command::Serve => {
                self.serve_with(draw);
                false
            },
            _ => self.apply_steady(command),
        }
    }

    /// Carries out `command`; a serve draws a fresh velocity. Returns whether
    /// the host is asked to quit.
    pub fn apply(&mut self, command: Command) -> (quit: bool)
        ensures
            quit == (command == Command::Quit),
            exists|draw: ServeDraw|
                draw.valid() && final(self)@ == old(self)@.after_command(command, draw),
    {
        match command {
            Command::Serve => {
                self.serve();
                proof {
                    let draw = choose|draw: ServeDraw|
                        draw.valid() && self@ == old(self)@.served(draw);
                    assert(draw.valid() && self@ == old(self)@.after_command(command, draw));
                }
                false
            },
            _ => {
                let quit = self.apply_steady(command);
                proof {
                    let spare = ServeDraw { speed: SERVE_SPEED_MIN, leftward: false, drift: 0 };
                    assert(spare.valid() && self@ == old(self)@.after_command(command, spare));
                }
                quit
            },
        }
    }
}

} // verus!
