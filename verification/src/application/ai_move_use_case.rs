//! The computer opponent: a uniformly random draw among the legal
//! destinations, applied through a caller-supplied move applier.

use crate::application::move_use_case::MoveUseCase;
use crate::application::random::random_below;
use crate::domain::board::{
    available_moves, lemma_avail_upto_placeable, place_post, Board,
};
use vstd::prelude::*;

verus! {

/// A move chosen by the computer: where it placed and what it flipped.
pub struct SelectedMove {
    position: (usize, usize),
    pieces_to_flip: Vec<(usize, usize)>,
}

/// The mathematical content of a selected move.
pub struct SelectedMoveView {
    pub position: (usize, usize),
    pub pieces_to_flip: Seq<(usize, usize)>,
}

impl View for SelectedMove {
    type V = SelectedMoveView;

    closed spec fn view(&self) -> SelectedMoveView {
        SelectedMoveView { position: self.position, pieces_to_flip: self.pieces_to_flip@ }
    }
}

impl SelectedMove {
    /// A selected move with the given destination and flip list.
    pub fn new(position: (usize, usize), pieces_to_flip: Vec<(usize, usize)>) -> (m: SelectedMove)
        ensures
            m@.position == position,
            m@.pieces_to_flip == pieces_to_flip@,
    {
        Self { position, pieces_to_flip }
    }

    /// Where the piece was placed.
    pub fn position(&self) -> (p: (usize, usize))
        ensures
            p == self@.position,
    {
        self.position
    }

    /// The coordinates flipped by the move, in direction-major order.
    pub fn pieces_to_flip(self) -> (v: Vec<(usize, usize)>)
        ensures
            v@ == self@.pieces_to_flip,
    {
        self.pieces_to_flip
    }
}

/// The computer player, built over an applier of moves.
pub struct AIMoveUseCase<M: MoveUseCase> {
    move_use_case: M,
}

impl<M: MoveUseCase> AIMoveUseCase<M> {
    /// A computer player that applies its choices through
    /// `move_use_case`.
    pub fn new(move_use_case: M) -> Self {
        Self { move_use_case }
    }

    /// Play one computer move: choose uniformly at random among the
    /// legal destinations of the side to move and apply the choice.
    /// `None`, with the board untouched, when that side has no legal
    /// destination; otherwise the placement is owed to succeed, since
    /// every enumerated destination is a legal one.
    pub fn execute(&self, board: &mut Board) -> (r: Option<SelectedMove>)
        requires
            old(board)@.wf(),
        ensures
            final(board)@.wf(),
            ({
                let avail = available_moves(old(board)@.grid, old(board)@.current_color());
                &&& avail.len() == 0 ==> r is None && *final(board) == *old(board)
                &&& avail.len() > 0 ==> r is Some
                &&& r matches Some(m) ==> ({
                    &&& avail.contains(m@.position)
                    &&& place_post(
                        old(board)@,
                        final(board)@,
                        m@.position.0 as int,
                        m@.position.1 as int,
                        Some(m@.pieces_to_flip),
                    )
                })
            }),
    {
        let ghost avail = available_moves(old(board)@.grid, old(board)@.current_color());
        let available_list = board.available_positions(board.current_player());
        if available_list.len() == 0 {
            return None;
        }
        let num = random_below(available_list.len());
        let position_choose = available_list[num];
        proof {
            lemma_avail_upto_placeable(old(board)@.grid, old(board)@.current_color(), 64);
            assert(avail.contains(position_choose)) by {
                assert(avail[num as int] == position_choose);
            }
        }
        let move_result = self.move_use_case.execute(board, position_choose.0, position_choose.1);
        match move_result {
            Some(moves) => Some(SelectedMove { position: position_choose, pieces_to_flip: moves }),
            None => None,
        }
    }
}

} // verus!
