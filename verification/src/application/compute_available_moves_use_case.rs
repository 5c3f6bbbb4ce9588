//! The query for the legal destinations of the side to move.

use crate::domain::board::{available_moves, Board};
use vstd::prelude::*;

verus! {

/// Enumerates the legal destinations of the side to move.
pub struct ComputeAvailableMovesUseCase {}

impl ComputeAvailableMovesUseCase {
    /// Every legal destination of the side to move, in scanning order;
    /// empty when that side has no legal move.
    pub fn execute(&self, board: &Board) -> (r: Vec<(usize, usize)>)
        requires
            board@.wf(),
        ensures
            r@ == available_moves(board@.grid, board@.current_color()),
    {
        let player = board.current_player();
        board.available_positions(player)
    }
}

} // verus!
