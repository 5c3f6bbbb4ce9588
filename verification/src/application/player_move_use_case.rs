//! The human move: a chosen destination forwarded to the move applier,
//! with no duplicated legality pre-check.

use crate::application::move_use_case::MoveUseCase;
use crate::domain::board::{flips_view, place_post, Board};
use vstd::prelude::*;

verus! {

/// The human player's side of the move-selection layer.
pub struct PlayerMoveUseCase<M: MoveUseCase> {
    move_use_case: M,
}

impl<M: MoveUseCase> PlayerMoveUseCase<M> {
    /// A human-move forwarder over the given applier.
    pub fn new(move_use_case: M) -> Self {
        Self { move_use_case }
    }

    /// Attempt the move at `(x, y)` for the side to move: one placement
    /// attempt on the board, nothing more.
    pub fn execute(&self, board: &mut Board, x: usize, y: usize) -> (r: Option<
        Vec<(usize, usize)>,
    >)
        requires
            old(board)@.wf(),
        ensures
            final(board)@.wf(),
            place_post(old(board)@, final(board)@, x as int, y as int, flips_view(r)),
    {
        self.move_use_case.execute(board, x, y)
    }
}

} // verus!
