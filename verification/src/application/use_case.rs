//! The bundle of use cases a driving loop needs for one game.

use crate::application::ai_move_use_case::AIMoveUseCase;
use crate::application::compute_available_moves_use_case::ComputeAvailableMovesUseCase;
use crate::application::evaluate_game_end_use_case::EvaluateGameEndUseCase;
use crate::application::move_use_case::MoveUseCaseImpl;
use crate::application::player_move_use_case::PlayerMoveUseCase;
use crate::application::start_game_use_case::StartGameUseCase;
use vstd::prelude::*;

verus! {

/// Every use case of the move-selection layer, wired to the canonical
/// move applier.
pub struct UseCase {
    pub initialize_game_use_case: StartGameUseCase,
    pub compute_available_moves_use_case: ComputeAvailableMovesUseCase,
    pub play_move_use_case: PlayerMoveUseCase<MoveUseCaseImpl>,
    pub play_ai_move_use_case: AIMoveUseCase<MoveUseCaseImpl>,
    pub evaluate_game_end_use_case: EvaluateGameEndUseCase,
}

impl UseCase {
    /// The standard wiring: every use case over `Board::place`.
    pub fn new() -> Self {
        Self {
            initialize_game_use_case: StartGameUseCase {  },
            compute_available_moves_use_case: ComputeAvailableMovesUseCase {  },
            play_move_use_case: PlayerMoveUseCase::new(MoveUseCaseImpl {  }),
            play_ai_move_use_case: AIMoveUseCase::new(MoveUseCaseImpl {  }),
            evaluate_game_end_use_case: EvaluateGameEndUseCase {  },
        }
    }
}

} // verus!
