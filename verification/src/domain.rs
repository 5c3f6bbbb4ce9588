//! The board engine: cells, players, directions, and the board itself.

pub mod board;
pub mod directions;
pub mod opening;
pub mod player;
