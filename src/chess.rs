//! Chess pieces, squares, move notation and the board's starting layout.
pub mod board;
pub mod game;
pub mod notation;
pub mod piece;
pub mod square;
