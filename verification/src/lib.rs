//! Simulation core of a two-paddle ball game.
//!
//! The crate holds the rules of the game and nothing else: how a paddle moves
//! and is held inside the field, how the ball moves, bounces off the top and
//! bottom walls and off the paddles, when it has left the field, how it is
//! served again, and the play/pause state machine that ties these together.
//! A host supplies the frame clock, the key presses and the renderer.
//!
//! All lengths, positions and speeds are whole numbers of fixed-point units,
//! [`config::UNITS_PER_PIXEL`] of them to one pixel.

pub mod ball;
pub mod command;
pub mod config;
pub mod paddle;
pub mod serve;
pub mod simulation;
