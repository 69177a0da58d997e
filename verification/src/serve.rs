//! The random draw behind a serve.
//!
//! A serve needs three random values: a horizontal speed, the direction the
//! ball leaves in, and a vertical speed. They are drawn here, from the
//! thread-local generator of the `rand` crate, and handed on as a
//! [`ServeDraw`]; what a serve does with them is decided elsewhere and does
//! not depend on where they came from.

use vstd::prelude::*;
use rand::Rng;
use rand::rngs::ThreadRng;

verus! {

/// Smallest horizontal speed of a served ball: 3 pixels per tick.
pub const SERVE_SPEED_MIN: i64 = 3_000;

/// Bound that the horizontal speed of a served ball stays below: 4 pixels
/// per tick.
pub const SERVE_SPEED_MAX: i64 = 4_000;

/// Bound on the vertical speed of a served ball: it lies in
/// `-SERVE_DRIFT_MAX .. SERVE_DRIFT_MAX`, 3 pixels per tick either way.
pub const SERVE_DRIFT_MAX: i64 = 3_000;

/// The generator type of `rand`, carried from `rand::thread_rng` to the two
/// draws below; nothing is known of what it holds.
#[verifier::external_type_specification]
#[verifier::external_body]
pub struct ExThreadRng(ThreadRng);

/// `rand::thread_rng` hands out the calling thread's generator, which the
/// operating system seeds on first use. Nothing is claimed of it.
pub assume_specification[ rand::thread_rng ]() -> (rng: ThreadRng);

/// Calls `Rng::gen_range` on the half-open range `low..high`. The call panics
/// on an empty range, which `requires` leaves out; of the result only its
/// range is claimed, not its distribution.
#[verifier::external_body]
fn uniform_in(rng: &mut ThreadRng, low: i64, high: i64) -> (value: i64)
    requires
        low < high,
    ensures
        low <= value < high,
{
    rng.gen_range(low..high)
}

/// Calls `Rng::gen_ratio` with the ratio 1 to 2: `true` with probability one
/// half. Nothing is claimed of the result.
#[verifier::external_body]
fn coin_flip(rng: &mut ThreadRng) -> (heads: bool) {
    rng.gen_ratio(1, 2)
}

/// The three random values of one serve.
#[derive(Clone, Copy, Debug, PartialEq, Eq, Structural)]
pub struct ServeDraw {
    /// Horizontal speed, without its direction.
    pub speed: i64,
    /// Whether the ball leaves towards the left paddle.
    pub leftward: bool,
    /// Vertical speed; negative is up.
    pub drift: i64,
}

impl ServeDraw {
    /// The values lie in the ranges that a serve draws from.
    pub open spec fn valid(&self) -> bool {
        &&& SERVE_SPEED_MIN <= self.speed < SERVE_SPEED_MAX
        &&& -SERVE_DRIFT_MAX <= self.drift < SERVE_DRIFT_MAX
    }

    /// Horizontal velocity of the served ball.
    pub open spec fn vx(&self) -> int {
        if self.leftward {
            -self.speed
        } else {
            self.speed as int
        }
    }

    /// Vertical velocity of the served ball.
    pub open spec fn vy(&self) -> int {
        self.drift as int
    }

    /// Tells whether the values lie in the ranges that a serve draws from.
    pub fn is_valid(&self) -> (ok: bool)
        ensures
            ok == self.valid(),
    {
        SERVE_SPEED_MIN <= self.speed && self.speed < SERVE_SPEED_MAX
            && -SERVE_DRIFT_MAX <= self.drift && self.drift < SERVE_DRIFT_MAX
    }

    /// Draws the values of one serve: the speed uniformly from
    /// `SERVE_SPEED_MIN .. SERVE_SPEED_MAX`, the direction by a fair coin, the
    /// drift uniformly from `-SERVE_DRIFT_MAX .. SERVE_DRIFT_MAX`.
    pub fn random() -> (draw: ServeDraw)
        ensures
            draw.valid(),
    {
        let mut rng = rand::thread_rng();
        let speed: i64 = uniform_in(&mut rng, SERVE_SPEED_MIN, SERVE_SPEED_MAX);
        let leftward = coin_flip(&mut rng);
        let drift: i64 = uniform_in(&mut rng, -SERVE_DRIFT_MAX, SERVE_DRIFT_MAX);
        ServeDraw { speed, leftward, drift }
    }
}

} // verus!
