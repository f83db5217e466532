//! Verified core of a sudoku leaderboard backend: scored solution records,
//! a pooled database-connection request guard, and leaderboard query
//! configuration with TOML-loaded default and maximum presets.

pub mod board;
pub mod difficulty;
pub mod leaderboard;
pub mod ordering;
pub mod setup;
pub mod solution;
pub mod util;
