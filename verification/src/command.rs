//! The commands that a host can issue, and the keys that stand for them.

use vstd::prelude::*;
use crate::config::Side;

verus! {

/// A key of the host's keyboard, as far as the game tells keys apart.
#[derive(Clone, Copy, Debug, PartialEq, Eq, Structural)]
pub enum Key {
    W,
    S,
    Up,
    Down,
    Space,
    P,
    Escape,
    /// Any key that the game has no use for.
    Other,
}

/// A discrete command to the simulation.
#[derive(Clone, Copy, Debug, PartialEq, Eq, Structural)]
pub enum Command {
    /// Move the paddle on the given side up by one step.
    MoveUp(Side),
    /// Move the paddle on the given side down by one step.
    MoveDown(Side),
    /// Serve the ball and start playing.
    Serve,
    /// Pause a running game, resume a paused one.
    TogglePlay,
    /// Ask the host to end the program; the simulation itself is untouched.
    Quit,
}

impl Command {
    /// The command that a key press stands for, if any: `W` and `S` move the
    /// left paddle, the arrow keys the right one, the space bar serves, `P`
    /// toggles play and pause, and escape quits.
    pub open spec fn for_key(key: Key) -> Option<Command> {
        match key {
            Key::W => Some(Command::MoveUp(Side::Left)),
            Key::S => Some(Command::MoveDown(Side::Left)),
            Key::Up => Some(Command::MoveUp(Side::Right)),
            Key::Down => Some(Command::MoveDown(Side::Right)),
            Key::Space => Some(Command::Serve),
            Key::P => Some(Command::TogglePlay),
            Key::Escape => Some(Command::Quit),
            Key::Other => None,
        }
    }

    /// Translates a key press into the command it stands for.
    pub fn from_key(key: Key) -> (command: Option<Command>)
        ensures
            command == Command::for_key(key),
    {
        match key {
            Key::W => Some(Command::MoveUp(Side::Left)),
            Key::S => Some(Command::MoveDown(Side::Left)),
            Key::Up => Some(Command::MoveUp(Side::Right)),
            Key::Down => Some(Command::MoveDown(Side::Right)),
            Key::Space => Some(Command::Serve),
            Key::P => Some(Command::TogglePlay),
            Key::Escape => Some(Command::Quit),
            Key::Other => None,
        }
    }
}

} // verus!
