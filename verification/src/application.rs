//! The move-selection layer: thin use cases over the board engine, and
//! the uniformly random computer opponent.

pub mod ai_move_use_case;
pub mod compute_available_moves_use_case;
pub mod evaluate_game_end_use_case;
pub mod move_use_case;
pub mod play_ai_move_use_case;
pub mod play_move_use_case;
pub mod player_move_use_case;
mod random;
pub mod start_game_use_case;
pub mod use_case;
