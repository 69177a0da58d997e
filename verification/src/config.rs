//! Field geometry and the sizes and speeds of the entities.

use vstd::prelude::*;

verus! {

/// Fixed-point units in one pixel.
pub const UNITS_PER_PIXEL: i64 = 1000;

/// Largest length that a configuration may hold, in units.
pub const MAX_EXTENT: i64 = 1_000_000_000_000;

/// Largest speed that a ball in play may have on either axis, in units per tick.
pub const MAX_SPEED: i64 = 1_000_000_000_000;

/// Distance between a paddle's centre and the side of the field it guards.
pub const PADDLE_MARGIN: i64 = 50_000;

/// The side of the field that a paddle guards.
#[derive(Clone, Copy, Debug, PartialEq, Eq, Structural)]
pub enum Side {
    Left,
    Right,
}

/// Immutable configuration of one simulation, in units.
#[derive(Clone, Copy, Debug, PartialEq, Eq, Structural)]
pub struct Config {
    pub screen_width: i64,
    pub screen_height: i64,
    pub paddle_width: i64,
    pub paddle_height: i64,
    pub paddle_move_speed: i64,
    pub ball_radius: i64,
    pub ball_base_speed: i64,
}

impl Config {
    /// A configuration that a simulation can be built on: every size is
    /// positive and at most `MAX_EXTENT`, no speed is negative, and both a
    /// paddle and the ball fit between the top and the bottom wall.
    pub open spec fn valid(&self) -> bool {
        &&& 0 < self.screen_width <= MAX_EXTENT
        &&& 0 < self.screen_height <= MAX_EXTENT
        &&& 0 < self.paddle_width <= MAX_EXTENT
        &&& 0 < self.paddle_height
        &&& 2 * (self.paddle_height / 2) <= self.screen_height
        &&& 0 <= self.paddle_move_speed <= MAX_EXTENT
        &&& 0 < self.ball_radius
        &&& 2 * self.ball_radius <= self.screen_height
        &&& 0 <= self.ball_base_speed <= MAX_SPEED
    }

    /// Half of the paddle's width, rounded down to whole units.
    pub open spec fn half_width(&self) -> int {
        self.paddle_width as int / 2
    }

    /// Half of the paddle's height, rounded down to whole units.
    pub open spec fn half_height(&self) -> int {
        self.paddle_height as int / 2
    }

    /// Horizontal centre of the field.
    pub open spec fn center_x(&self) -> int {
        self.screen_width as int / 2
    }

    /// Vertical centre of the field.
    pub open spec fn center_y(&self) -> int {
        self.screen_height as int / 2
    }

    /// Smallest `center_y` at which a paddle's top edge is inside the field.
    pub open spec fn paddle_min_y(&self) -> int {
        self.half_height()
    }

    /// Largest `center_y` at which a paddle's bottom edge is inside the field.
    pub open spec fn paddle_max_y(&self) -> int {
        self.screen_height - self.half_height()
    }

    /// Horizontal coordinate of the centre of the paddle on `side`.
    pub open spec fn paddle_x(&self, side: Side) -> int {
        match side {
            Side::Left => PADDLE_MARGIN as int,
            Side::Right => self.screen_width - PADDLE_MARGIN,
        }
    }

    /// The 1280 by 720 pixel field with a 15 by 100 pixel paddle that moves
    /// 10 pixels per command, and a ball of radius 10 pixels that starts at
    /// 5 pixels per tick on each axis.
    pub fn standard() -> (config: Config)
        ensures
            config == (Config {
                screen_width: 1_280_000,
                screen_height: 720_000,
                paddle_width: 15_000,
                paddle_height: 100_000,
                paddle_move_speed: 10_000,
                ball_radius: 10_000,
                ball_base_speed: 5_000,
            }),
            config.valid(),
    {
        Config {
            screen_width: 1_280_000,
            screen_height: 720_000,
            paddle_width: 15_000,
            paddle_height: 100_000,
            paddle_move_speed: 10_000,
            ball_radius: 10_000,
            ball_base_speed: 5_000,
        }
    }

    /// Tells whether the configuration is valid.
    pub fn is_valid(&self) -> (ok: bool)
        ensures
            ok == self.valid(),
    {
        0 < self.screen_width && self.screen_width <= MAX_EXTENT
            && 0 < self.screen_height && self.screen_height <= MAX_EXTENT
            && 0 < self.paddle_width && self.paddle_width <= MAX_EXTENT
            && 0 < self.paddle_height
            && self.paddle_height / 2 <= self.screen_height - self.paddle_height / 2
            && 0 <= self.paddle_move_speed && self.paddle_move_speed <= MAX_EXTENT
            && 0 < self.ball_radius
            && self.ball_radius <= self.screen_height - self.ball_radius
            && 0 <= self.ball_base_speed && self.ball_base_speed <= MAX_SPEED
    }
}

impl Side {
    /// Horizontal coordinate of the centre of the paddle on this side.
    pub fn x(&self, config: &Config) -> (x: i64)
        requires
            config.valid(),
        ensures
            x == config.paddle_x(*self),
    {
        match self {
            Side::Left => PADDLE_MARGIN,
            Side::Right => config.screen_width - PADDLE_MARGIN,
        }
    }
}

} // verus!
