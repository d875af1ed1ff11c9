//! Rules engine for a two-seat game of ships and shots on a 10x10 grid.
//!
//! Every operation of the engine is a verified function whose contract is
//! stated over the spec functions of the module that owns the data.
pub mod error;
pub mod point;
pub mod playmap;
pub mod ship;
pub mod player;
pub mod game_rules;
pub mod game_stage;
pub mod game;
