//! Decision logic of the two-player pebbles counting game: a user and an
//! automated opponent alternately remove pebbles from a shared pile, and the
//! player who takes the last pebble wins.
//!
//! The engine is purely computational: every random draw it consumes is an
//! explicit `u32` argument, supplied by the host that embeds the engine, so
//! that each transition is a function of the current state, the action and
//! the draws alone.

pub mod engine;
pub mod laws;
pub mod policy;
pub mod state;

pub use engine::GameEngine;
pub use state::{DifficultyLevel, GameAction, GameEvent, GameState, Player, ValidationError};
