//! Verified game logic for a two-fighter punch animation: the asset tables,
//! the punch-sequence shuffling and the per-round decisions of a match.

pub mod config;
pub mod game;
pub mod helpers;
mod random;
