//! The start of a game.

use crate::domain::board::{init_grid, Board, ColorPiece, PlayerId};
use vstd::prelude::*;

verus! {

/// Builds the board of a fresh game.
pub struct StartGameUseCase {}

impl StartGameUseCase {
    /// A fresh board: the central diamond occupied, the black-playing
    /// first player to move.
    pub fn execute(&self) -> (b: Board)
        ensures
            b@.wf(),
            b@.grid == init_grid(),
            b@.current == PlayerId::Player1,
            b@.player1_color == ColorPiece::Black,
            b@.player2_color == ColorPiece::White,
    {
        Board::new()
    }
}

} // verus!
