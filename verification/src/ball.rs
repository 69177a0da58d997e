//! The ball: a circle that moves by its velocity once per tick, bounces off
//! the top and bottom walls, and ends the round when it leaves the field on
//! the left or on the right.
//!
//! Contact with a paddle is tested on the ball's bounding square, not on the
//! circle itself.

use vstd::prelude::*;
use crate::config::{Config, MAX_SPEED};
use crate::paddle::Paddle;
use crate::serve::{ServeDraw, SERVE_DRIFT_MAX, SERVE_SPEED_MAX, SERVE_SPEED_MIN};

verus! {

/// A ball, given by the position of its centre and its velocity per tick.
#[derive(Clone, Copy, Debug, PartialEq, Eq, Structural)]
pub struct Ball {
    pub x: i64,
    pub y: i64,
    pub vx: i64,
    pub vy: i64,
}

impl Ball {
    /// Vertical coordinate of the topmost point.
    pub open spec fn top(&self, config: &Config) -> int {
        self.y - config.ball_radius
    }

    /// Vertical coordinate of the lowest point.
    pub open spec fn bottom(&self, config: &Config) -> int {
        self.y + config.ball_radius
    }

    /// Horizontal coordinate of the leftmost point.
    pub open spec fn left(&self, config: &Config) -> int {
        self.x - config.ball_radius
    }

    /// Horizontal coordinate of the rightmost point.
    pub open spec fn right(&self, config: &Config) -> int {
        self.x + config.ball_radius
    }

    /// The position one tick later is representable.
    pub open spec fn can_advance(&self) -> bool {
        &&& i64::MIN <= self.x + self.vx <= i64::MAX
        &&& i64::MIN <= self.y + self.vy <= i64::MAX
    }

    /// The ball one tick later, on its straight path; it says where the ball
    /// is for every ball that `can_advance`.
    pub open spec fn advanced(self) -> Ball {
        Ball { x: (self.x + self.vx) as i64, y: (self.y + self.vy) as i64, vx: self.vx, vy: self.vy }
    }

    /// The ball reaches over the top wall or over the bottom wall.
    pub open spec fn breaches_wall(&self, config: &Config) -> bool {
        self.top(config) < 0 || self.bottom(config) > config.screen_height
    }

    /// The ball with its vertical velocity reversed; the velocity must not be
    /// `i64::MIN`, which has no opposite.
    pub open spec fn turned_vertically(self) -> Ball {
        Ball { x: self.x, y: self.y, vx: self.vx, vy: (-self.vy) as i64 }
    }

    /// The ball with its horizontal velocity reversed; the velocity must not
    /// be `i64::MIN`, which has no opposite.
    pub open spec fn turned_horizontally(self) -> Ball {
        Ball { x: self.x, y: self.y, vx: (-self.vx) as i64, vy: self.vy }
    }

    /// The ball after the wall rule: its vertical velocity is reversed, once,
    /// if it reaches over either wall, and nothing changes otherwise.
    pub open spec fn reflected(self, config: &Config) -> Ball {
        if self.breaches_wall(config) {
            self.turned_vertically()
        } else {
            self
        }
    }

    /// The ball has left the field: all of it lies left of the left side or
    /// right of the right side.
    pub open spec fn out_of_bounds(&self, config: &Config) -> bool {
        self.right(config) < 0 || self.left(config) > config.screen_width
    }

    /// The ball's bounding square and the paddle's rectangle overlap, edges
    /// that merely touch not counted.
    pub open spec fn overlaps(&self, paddle: &Paddle, config: &Config) -> bool {
        &&& self.top(config) < paddle.bottom(config)
        &&& self.bottom(config) > paddle.top(config)
        &&& self.left(config) < paddle.right(config)
        &&& self.right(config) > paddle.left(config)
    }

    /// The ball that a serve with the values of `draw` puts on the field: at
    /// the centre, with the drawn velocity.
    pub open spec fn served(config: &Config, draw: ServeDraw) -> Ball {
        Ball {
            x: config.center_x() as i64,
            y: config.center_y() as i64,
            vx: draw.vx() as i64,
            vy: draw.vy() as i64,
        }
    }

    /// The ball is vertically inside the field, or comes back inside with its
    /// next step.
    pub open spec fn settled(&self, config: &Config) -> bool {
        &&& self.top(config) >= 0 || (self.vy > 0 && self.top(config) + self.vy >= 0)
        &&& self.bottom(config) <= config.screen_height || (self.vy < 0 && self.bottom(config)
            + self.vy <= config.screen_height)
    }

    /// What holds of the ball between the ticks of a running simulation: it
    /// has not left the field, it is settled, and neither speed exceeds
    /// `MAX_SPEED`.
    pub open spec fn in_play(&self, config: &Config) -> bool {
        &&& !self.out_of_bounds(config)
        &&& self.settled(config)
        &&& -MAX_SPEED <= self.vx <= MAX_SPEED
        &&& -MAX_SPEED <= self.vy <= MAX_SPEED
    }

    /// A ball at `(x, y)` that moves at the configured base speed on both
    /// axes, to the right and down.
    pub fn new(x: i64, y: i64, config: &Config) -> (ball: Ball)
        ensures
            ball == (Ball { x, y, vx: config.ball_base_speed, vy: config.ball_base_speed }),
    {
        Ball { x, y, vx: config.ball_base_speed, vy: config.ball_base_speed }
    }

    /// Moves the ball by its velocity.
    pub fn advance(&mut self)
        requires
            old(self).can_advance(),
        ensures
            *final(self) == old(self).advanced(),
            final(self).x == old(self).x + old(self).vx,
            final(self).y == old(self).y + old(self).vy,
    {
        self.x = self.x + self.vx;
        self.y = self.y + self.vy;
    }

    /// Applies the wall rule: reverses the vertical velocity if the ball
    /// reaches over the top or the bottom wall. Returns whether it did.
    pub fn reflect_vertical_if_needed(&mut self, config: &Config) -> (bounced: bool)
        requires
            config.valid(),
            old(self).vy > i64::MIN,
        ensures
            bounced == old(self).breaches_wall(config),
            *final(self) == old(self).reflected(config),
            final(self).vy == if bounced { -old(self).vy } else { old(self).vy as int },
    {
        let y: i128 = self.y as i128;
        let radius: i128 = config.ball_radius as i128;
        if y - radius < 0 || y + radius > config.screen_height as i128 {
            self.vy = -self.vy;
            true
        } else {
            false
        }
    }

    /// Tells whether the ball has left the field on the left or on the right.
    pub fn is_out_of_bounds(&self, config: &Config) -> (out: bool)
        requires
            config.valid(),
        ensures
            out == self.out_of_bounds(config),
    {
        let x: i128 = self.x as i128;
        let radius: i128 = config.ball_radius as i128;
        x + radius < 0 || x - radius > config.screen_width as i128
    }

    /// Tells whether the ball is in play.
    pub fn is_in_play(&self, config: &Config) -> (ok: bool)
        requires
            config.valid(),
        ensures
            ok == self.in_play(config),
    {
        let radius: i128 = config.ball_radius as i128;
        let floor: i128 = config.screen_height as i128 - radius;
        let y: i128 = self.y as i128;
        let next_y: i128 = y + self.vy as i128;
        let settled_top = y >= radius || (self.vy > 0 && next_y >= radius);
        let settled_bottom = y <= floor || (self.vy < 0 && next_y <= floor);
        !self.is_out_of_bounds(config) && settled_top && settled_bottom && -MAX_SPEED <= self.vx
            && self.vx <= MAX_SPEED && -MAX_SPEED <= self.vy && self.vy <= MAX_SPEED
    }

    /// Tells whether the ball's bounding square overlaps the paddle's
    /// rectangle.
    pub fn collides_with(&self, paddle: &Paddle, config: &Config) -> (hit: bool)
        requires
            config.valid(),
        ensures
            hit == self.overlaps(paddle, config),
    {
        let paddle_x: i128 = paddle.side.x(config) as i128;
        let paddle_y: i128 = paddle.center_y as i128;
        let half_width: i128 = (config.paddle_width / 2) as i128;
        let half_height: i128 = (config.paddle_height / 2) as i128;

        let paddle_top: i128 = paddle_y - half_height;
        let paddle_bottom: i128 = paddle_y + half_height;
        let paddle_left: i128 = paddle_x - half_width;
        let paddle_right: i128 = paddle_x + half_width;

        let radius: i128 = config.ball_radius as i128;
        let ball_top: i128 = self.y as i128 - radius;
        let ball_bottom: i128 = self.y as i128 + radius;
        let ball_left: i128 = self.x as i128 - radius;
        let ball_right: i128 = self.x as i128 + radius;

        ball_top < paddle_bottom && ball_bottom > paddle_top && ball_left < paddle_right
            && ball_right > paddle_left
    }

    /// Puts the ball back at the centre of the field with the velocity of
    /// `draw`.
    pub fn serve_with(&mut self, config: &Config, draw: ServeDraw)
        requires
            config.valid(),
            draw.valid(),
        ensures
            *final(self) == Ball::served(config, draw),
            final(self).x == config.center_x(),
            final(self).y == config.center_y(),
            final(self).vx == draw.vx(),
            final(self).vy == draw.vy(),
    {
        self.x = config.screen_width / 2;
        self.y = config.screen_height / 2;
        self.vx = if draw.leftward { -draw.speed } else { draw.speed };
        self.vy = draw.drift;
    }

    /// Puts the ball back at the centre of the field with a freshly drawn
    /// velocity: horizontally between 3 and 4 pixels per tick, to the left or
    /// to the right, vertically less than 3 pixels per tick either way.
    pub fn serve(&mut self, config: &Config)
        requires
            config.valid(),
        ensures
            final(self).x == config.center_x(),
            final(self).y == config.center_y(),
            SERVE_SPEED_MIN <= final(self).vx < SERVE_SPEED_MAX
                || SERVE_SPEED_MIN <= -final(self).vx < SERVE_SPEED_MAX,
            -SERVE_DRIFT_MAX <= final(self).vy < SERVE_DRIFT_MAX,
            exists|draw: ServeDraw| draw.valid() && *final(self) == Ball::served(config, draw),
    {
        let draw = ServeDraw::random();
        self.serve_with(config, draw);
    }

    /// A ball in play can take its next step without leaving the range of
    /// its coordinates.
    pub proof fn lemma_in_play_can_advance(ball: Ball, config: &Config)
        requires
            config.valid(),
            ball.in_play(config),
        ensures
            ball.can_advance(),
            ball.advanced().x == ball.x + ball.vx,
            ball.advanced().y == ball.y + ball.vy,
    {
    }

    /// A served ball is in play.
    pub proof fn lemma_served_ball_in_play(config: &Config, draw: ServeDraw)
        requires
            config.valid(),
            draw.valid(),
        ensures
            Ball::served(config, draw).in_play(config),
    {
    }

    /// A ball whose step takes it over the top or the bottom wall leaves the
    /// wall rule where the step put it, with its vertical velocity reversed
    /// and its horizontal velocity unchanged.
    pub proof fn lemma_wall_turns_ball_back(self, config: &Config)
        requires
            config.valid(),
            self.can_advance(),
            self.vy > i64::MIN,
            self.advanced().breaches_wall(config),
        ensures
            self.advanced().reflected(config).vy == -self.vy,
            self.advanced().reflected(config).vx == self.vx,
            self.advanced().reflected(config).x == self.x + self.vx,
            self.advanced().reflected(config).y == self.y + self.vy,
    {
    }

    /// A ball that overlaps the top wall by one unit and moves up by two
    /// units per tick moves down by two units per tick after one step and the
    /// wall rule; the same holds, the other way round, at the bottom wall.
    /// The horizontal velocity stays as it was.
    pub proof fn lemma_wall_bounce_reverses_two_unit_step(self, config: &Config)
        requires
            config.valid(),
            self.can_advance(),
        ensures
            self.y == config.ball_radius - 1 && self.vy == -2 ==> {
                &&& self.advanced().reflected(config).vy == 2
                &&& self.advanced().reflected(config).vx == self.vx
            },
            self.y == config.screen_height - config.ball_radius + 1 && self.vy == 2 ==> {
                &&& self.advanced().reflected(config).vy == -2
                &&& self.advanced().reflected(config).vx == self.vx
            },
    {
    }

    /// The ball has left the field exactly when its centre is more than a
    /// radius outside it, on either side alike: one unit further than a
    /// radius to the left or to the right it is out, at the horizontal centre
    /// of the field it is not.
    pub proof fn lemma_out_of_bounds_on_both_sides(self, config: &Config)
        requires
            config.valid(),
        ensures
            self.out_of_bounds(config) <==> (self.x < -config.ball_radius || self.x
                > config.screen_width + config.ball_radius),
            self.x == -config.ball_radius - 1 ==> self.out_of_bounds(config),
            self.x == config.screen_width + config.ball_radius + 1 ==> self.out_of_bounds(config),
            self.x == config.center_x() ==> !self.out_of_bounds(config),
    {
    }

    /// A ball centred exactly on a paddle's centre overlaps the paddle.
    pub proof fn lemma_centered_ball_overlaps(self, paddle: &Paddle, config: &Config)
        requires
            config.valid(),
            self.x == paddle.center_x(config),
            self.y == paddle.center_y,
        ensures
            self.overlaps(paddle, config),
    {
    }

    /// A ball whose centre is at least half a paddle's width and a radius
    /// away from the paddle's centre, horizontally, does not overlap the
    /// paddle, whatever their heights.
    pub proof fn lemma_distant_ball_misses(self, paddle: &Paddle, config: &Config)
        requires
            config.valid(),
            self.x - paddle.center_x(config) >= config.half_width() + config.ball_radius
                || paddle.center_x(config) - self.x >= config.half_width() + config.ball_radius,
        ensures
            !self.overlaps(paddle, config),
    {
    }

    /// A served ball lies at the centre of the field; its horizontal speed is
    /// at least `SERVE_SPEED_MIN` and below `SERVE_SPEED_MAX`, in either
    /// direction, and its vertical velocity lies in
    /// `-SERVE_DRIFT_MAX .. SERVE_DRIFT_MAX`.
    pub proof fn lemma_served_ball_bounds(config: &Config, draw: ServeDraw)
        requires
            config.valid(),
            draw.valid(),
        ensures
            Ball::served(config, draw).x == config.center_x(),
            Ball::served(config, draw).y == config.center_y(),
            draw.leftward ==> -SERVE_SPEED_MAX < Ball::served(config, draw).vx <= -SERVE_SPEED_MIN,
            !draw.leftward ==> SERVE_SPEED_MIN <= Ball::served(config, draw).vx < SERVE_SPEED_MAX,
            -SERVE_DRIFT_MAX <= Ball::served(config, draw).vy < SERVE_DRIFT_MAX,
    {
    }
}

} // verus!
