//! A paddle: a rectangle that slides along one side of the field and never
//! leaves it.

use vstd::prelude::*;
use crate::config::{Config, Side};

verus! {

/// `value` moved to the nearest point of `low ..= high`.
pub open spec fn clamp(value: int, low: int, high: int) -> int {
    if value < low {
        low
    } else if value > high {
        high
    } else {
        value
    }
}

/// A paddle, given by the side it guards and the height of its centre.
#[derive(Clone, Copy, Debug, PartialEq, Eq, Structural)]
pub struct Paddle {
    pub side: Side,
    pub center_y: i64,
}

impl Paddle {
    /// Horizontal coordinate of the centre.
    pub open spec fn center_x(&self, config: &Config) -> int {
        config.paddle_x(self.side)
    }

    /// Vertical coordinate of the top edge.
    pub open spec fn top(&self, config: &Config) -> int {
        self.center_y - config.half_height()
    }

    /// Vertical coordinate of the bottom edge.
    pub open spec fn bottom(&self, config: &Config) -> int {
        self.center_y + config.half_height()
    }

    /// Horizontal coordinate of the left edge.
    pub open spec fn left(&self, config: &Config) -> int {
        self.center_x(config) - config.half_width()
    }

    /// Horizontal coordinate of the right edge.
    pub open spec fn right(&self, config: &Config) -> int {
        self.center_x(config) + config.half_width()
    }

    /// Both the top and the bottom edge lie between the walls.
    pub open spec fn within_bounds(&self, config: &Config) -> bool {
        0 <= self.top(config) && self.bottom(config) <= config.screen_height
    }

    /// The paddle after a move by `delta`: the centre shifted, then brought
    /// back to the nearest height at which both edges are inside the field.
    pub open spec fn moved_by(self, delta: int, config: &Config) -> Paddle {
        Paddle {
            side: self.side,
            center_y: clamp(self.center_y + delta, config.paddle_min_y(), config.paddle_max_y()) as i64,
        }
    }

    /// The paddle after the moves of `deltas`, first to last.
    pub open spec fn moved_by_all(self, deltas: Seq<i64>, config: &Config) -> Paddle
        decreases deltas.len(),
    {
        if deltas.len() == 0 {
            self
        } else {
            self.moved_by_all(deltas.drop_last(), config).moved_by(deltas.last() as int, config)
        }
    }

    /// A paddle on `side` with its centre at `center_y`.
    pub fn new(center_y: i64, side: Side) -> (paddle: Paddle)
        ensures
            paddle == (Paddle { side, center_y }),
    {
        Paddle { side, center_y }
    }

    /// Tells whether both the top and the bottom edge lie between the walls.
    pub fn is_within_bounds(&self, config: &Config) -> (ok: bool)
        requires
            config.valid(),
        ensures
            ok == self.within_bounds(config),
    {
        let lowest: i64 = config.paddle_height / 2;
        let highest: i64 = config.screen_height - lowest;
        lowest <= self.center_y && self.center_y <= highest
    }

    /// Moves the centre by `delta` (negative is up), stopping at the wall.
    ///
    /// Any `delta` is accepted, and so is any earlier position: the result
    /// always lies inside the field.
    pub fn move_by(&mut self, delta: i64, config: &Config)
        requires
            config.valid(),
        ensures
            *final(self) == old(self).moved_by(delta as int, config),
            final(self).within_bounds(config),
    {
        let lowest: i64 = config.paddle_height / 2;
        let highest: i64 = config.screen_height - lowest;
        let target: i128 = self.center_y as i128 + delta as i128;
        if target < lowest as i128 {
            self.center_y = lowest;
        } else if target > highest as i128 {
            self.center_y = highest;
        } else {
            self.center_y = target as i64;
        }
    }

    /// Moving never takes a paddle out of the field: after a move by any
    /// `delta`, from any position, the top edge is not above the top wall and
    /// the bottom edge is not below the bottom wall.
    pub proof fn lemma_move_stays_within_bounds(self, delta: int, config: &Config)
        requires
            config.valid(),
        ensures
            self.moved_by(delta, config).within_bounds(config),
            self.moved_by(delta, config).side == self.side,
    {
    }

    /// After each move of a sequence of moves the paddle is inside the field:
    /// this holds of every non-empty prefix of `deltas`.
    pub proof fn lemma_moves_stay_within_bounds(self, deltas: Seq<i64>, count: int, config: &Config)
        requires
            config.valid(),
            0 < count <= deltas.len(),
        ensures
            self.moved_by_all(deltas.take(count), config).within_bounds(config),
    {
        let prefix = deltas.take(count);
        let earlier = self.moved_by_all(prefix.drop_last(), config);
        earlier.lemma_move_stays_within_bounds(prefix.last() as int, config);
    }
}

} // verus!
