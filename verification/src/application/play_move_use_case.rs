//! The fire-and-forget human move: apply a placement, keeping only the
//! board's new state.

use crate::domain::board::{board_after_move, Board};
use vstd::prelude::*;

verus! {

/// Applies a chosen destination to the board, discarding the flip list.
pub struct PlayMoveUseCase {}

impl PlayMoveUseCase {
    /// Attempt the move at `(x, y)` for the side to move; an illegal
    /// destination leaves the board unchanged.
    pub fn execute(&self, board: &mut Board, x: usize, y: usize)
        requires
            old(board)@.wf(),
        ensures
            final(board)@.wf(),
            final(board)@ == board_after_move(old(board)@, x as int, y as int),
    {
        let _ = board.place(x, y);
    }
}

} // verus!
