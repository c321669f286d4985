//! A two-player chess rules engine: the board, whose turn it is, and the
//! legality of a requested piece movement.

pub mod board;
pub mod laws;
pub mod rules;
