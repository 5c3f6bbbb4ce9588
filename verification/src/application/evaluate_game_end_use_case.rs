//! The end-of-game query.

use crate::domain::board::{
    available_moves, count_color, count_occupied, grid_full, Board, Score,
};
use vstd::prelude::*;

verus! {

/// Asks the board whether the game is over.
pub struct EvaluateGameEndUseCase {}

impl EvaluateGameEndUseCase {
    /// The final score once no empty cell remains or neither player has
    /// a legal destination, `None` while the game goes on.
    pub fn execute(&self, board: &Board) -> (r: Option<Score>)
        requires
            board@.wf(),
        ensures
            r is Some <==> (grid_full(board@.grid) || (available_moves(
                board@.grid,
                board@.player1_color,
            ).len() == 0 && available_moves(board@.grid, board@.player2_color).len() == 0)),
            r matches Some(s) ==> ({
                &&& s.player1 == count_color(board@.grid, board@.player1_color)
                &&& s.player2 == count_color(board@.grid, board@.player2_color)
                &&& s.player1 + s.player2 == count_occupied(board@.grid)
            }),
    {
        board.end_of_game()
    }
}

} // verus!
