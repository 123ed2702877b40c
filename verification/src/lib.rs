//! The turn-taking core of a chess match between two sides, each a person at
//! the board or an engine that is run as a separate program once per move.
//!
//! The crate reads move notation, keeps the record of the game through the
//! `chess` crate, prepares engine invocations and hands out promises for their
//! replies, and decides on every tick what happens next. Spawning the engine
//! process and drawing the board are left to the program around it.

pub mod model;
pub mod text;
pub mod notation;
pub mod rules;
pub mod engine_player;
pub mod chess_app;
