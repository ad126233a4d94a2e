//! A snake game on a fixed 50 x 50 board: the state model, its transition
//! rules and the mapping from keys to commands, with their proofs.

pub mod cell;
pub mod free_cells;
pub mod random;
pub mod rules;
pub mod laws;
pub mod game;
pub mod input;
