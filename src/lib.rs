//! Match-state logic for a two-player arena game: sprint stamina, goal
//! detection, the scoring ledger, the match clock, outcome resolution and
//! the resets that start a new round.
//!
//! Durations are counted in nanoseconds and positions in millimetres, so that
//! every value the logic reads or writes is an integer.

pub mod coordinator;
pub mod game_state;
pub mod goals;
pub mod movement;
pub mod points;
pub mod sprint;
pub mod texture;
