//! Core of a two-player 3x3 grid game: board state, win and tie
//! detection, textual move parsing, and the turn decisions of the
//! game loop. All console I/O lives outside this crate; the library
//! exposes pure operations on plain values.

pub mod board;
pub mod game;
pub mod parse;
