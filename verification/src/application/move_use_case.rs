//! The operation that applies a chosen move to the board.

use crate::domain::board::{flips_view, place_post, Board};
use vstd::prelude::*;

verus! {

/// An applier of moves: feeding it a destination must amount to one
/// placement attempt on the board.
pub trait MoveUseCase {
    /// Attempt the move at `(x, y)` for the side to move.
    fn execute(&self, board: &mut Board, x: usize, y: usize) -> (r: Option<Vec<(usize, usize)>>)
        requires
            old(board)@.wf(),
        ensures
            final(board)@.wf(),
            place_post(old(board)@, final(board)@, x as int, y as int, flips_view(r)),
    ;
}

/// The canonical applier: it forwards to `Board::place`.
pub struct MoveUseCaseImpl {}

impl MoveUseCase for MoveUseCaseImpl {
    fn execute(&self, board: &mut Board, x: usize, y: usize) -> (r: Option<Vec<(usize, usize)>>) {
        board.place(x, y)
    }
}

} // verus!
