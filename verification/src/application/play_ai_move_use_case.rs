//! A self-contained computer move, applied directly to the board.

use crate::application::random::random_below;
use crate::domain::board::{
    available_moves, board_after_move, lemma_avail_upto_placeable, Board,
};
use vstd::prelude::*;

verus! {

/// Plays one computer move straight on the board.
pub struct PlayAIMoveUseCase {}

impl PlayAIMoveUseCase {
    /// Choose uniformly at random among the legal destinations of the
    /// side to move and apply the choice; with no legal destination the
    /// board is left untouched.
    pub fn execute(&self, board: &mut Board)
        requires
            old(board)@.wf(),
        ensures
            final(board)@.wf(),
            ({
                let avail = available_moves(old(board)@.grid, old(board)@.current_color());
                &&& avail.len() == 0 ==> *final(board) == *old(board)
                &&& avail.len() > 0 ==> exists|j: int|
                    #![trigger avail[j]]
                    0 <= j < avail.len() && final(board)@ == board_after_move(
                        old(board)@,
                        avail[j].0 as int,
                        avail[j].1 as int,
                    )
            }),
    {
        let ghost avail = available_moves(old(board)@.grid, old(board)@.current_color());
        let available_list = board.available_positions(board.current_player());
        if available_list.len() == 0 {
            return ;
        }
        let num = random_below(available_list.len());
        let chosen = available_list[num];
        proof {
            lemma_avail_upto_placeable(old(board)@.grid, old(board)@.current_color(), 64);
            assert(avail[num as int] == chosen);
        }
        let _ = board.place(chosen.0, chosen.1);
    }
}

} // verus!
