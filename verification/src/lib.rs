//! A verified core for a terminal snake game.
//!
//! The `game` module owns the simulation: the walled board, the snake,
//! food placement, scoring, and the tick state machine. The `render`
//! module turns a game state into the exact byte frame that a terminal
//! shows. Everything here is pure computation; reading keys and writing
//! frames to a device is left to the surrounding program.

pub mod game;
pub mod laws;
pub mod render;
