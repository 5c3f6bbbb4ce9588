use reversi::application::ai_move_use_case::AIMoveUseCase;
use reversi::application::compute_available_moves_use_case::ComputeAvailableMovesUseCase;
use reversi::application::evaluate_game_end_use_case::EvaluateGameEndUseCase;
use reversi::application::move_use_case::MoveUseCase;
use reversi::application::start_game_use_case::StartGameUseCase;
use reversi::domain::board::{Board, BoardIter, Case, ColorPiece};
use reversi::domain::player::Player;
use std::cell::RefCell;
use std::rc::Rc;

struct RecordingMoveUseCase {
    called_with: Rc<RefCell<Option<(usize, usize)>>>,
}

impl MoveUseCase for RecordingMoveUseCase {
    fn execute(&self, _board: &mut Board, x: usize, y: usize) -> Option<Vec<(usize, usize)>> {
        *self.called_with.borrow_mut() = Some((x, y));
        Some(vec![])
    }
}

#[test]
fn should_play_random_move() {
    // Given
    let mut array = [Case::Empty; 64];
    array[1] = Case::Piece(ColorPiece::Black);
    array[2] = Case::Piece(ColorPiece::White);
    let mut board = Board::create_board_for_test(array);
    let called_with = Rc::new(RefCell::new(None));
    let mock = RecordingMoveUseCase { called_with: Rc::clone(&called_with) };
    let ai_move_use_case = AIMoveUseCase::new(mock);

    // When
    let _ = ai_move_use_case.execute(&mut board);

    // Then
    assert_eq!(*called_with.borrow(), Some((0, 3)));
}

#[test]
fn ai_move_use_case_should_play_random_move() {
    // Given
    let mut array = [Case::Empty; 64];
    array[1] = Case::Piece(ColorPiece::Black);
    array[2] = Case::Piece(ColorPiece::White);
    let mut board = Board::create_board_for_test(array);
    let called_with = Rc::new(RefCell::new(None));
    let mock = RecordingMoveUseCase { called_with: Rc::clone(&called_with) };
    let ai_move_use_case = AIMoveUseCase::new(mock);

    // When
    let _ = ai_move_use_case.execute(&mut board);

    // Then
    assert_eq!(*called_with.borrow(), Some((0, 3)));
}

#[test]
fn compute_available_moves_use_case_should_compute_available_moves_for_initial_board() {
    // Given
    let use_case = ComputeAvailableMovesUseCase {};
    let board = Board::new();

    // When
    let result = use_case.execute(&board);

    // Then
    assert_eq!(result, vec![(3, 2), (2, 3), (5, 4), (4, 5)]);
}

#[test]
fn evaluate_game_end_use_case_should_game_is_ending_when_board_is_full_of_white_pieces() {
    // Given
    let use_case = EvaluateGameEndUseCase {};
    let board = Board::with_players(
        [Case::Piece(ColorPiece::White); 64],
        Player::new(ColorPiece::White),
        Player::new(ColorPiece::Black),
    );

    // When
    let result = use_case.execute(&board);

    // Then
    assert!(matches!(result, Some(_)));
    let score = result.unwrap();
    assert_eq!(score.player1(), 64);
    assert_eq!(score.player2(), 0);
}

#[test]
fn evaluate_game_end_use_case_should_game_is_ending_when_board_is_full_of_black_pieces() {
    // Given
    let use_case = EvaluateGameEndUseCase {};
    let board = Board::with_players(
        [Case::Piece(ColorPiece::Black); 64],
        Player::new(ColorPiece::White),
        Player::new(ColorPiece::Black),
    );

    // When
    let result = use_case.execute(&board);

    // Then
    assert!(matches!(result, Some(_)));
    let score = result.unwrap();
    assert_eq!(score.player1(), 0);
    assert_eq!(score.player2(), 64);
}

#[test]
fn evaluate_game_end_use_case_should_game_is_ending_when_no_move_is_available() {
    // Given
    let use_case = EvaluateGameEndUseCase {};
    let mut array = [Case::Empty; 64];
    array[3 * 8 + 3] = Case::Piece(ColorPiece::White);
    array[3 * 8 + 4] = Case::Piece(ColorPiece::White);
    let board = Board::with_players(
        array,
        Player::new(ColorPiece::White),
        Player::new(ColorPiece::Black),
    );

    // When
    let result = use_case.execute(&board);

    // Then
    assert!(matches!(result, Some(_)));
    let score = result.unwrap();
    assert_eq!(score.player1(), 2);
    assert_eq!(score.player2(), 0);
}

#[test]
fn should_initialize_game_with_correct_initial_state_and_player() {
    // Given
    let use_case = StartGameUseCase {};

    // When
    let board = use_case.execute();

    // Then
    assert!(board.player1(), "Initial player should be player1");
    assert_eq!(board.cell(3, 3), Some(&Case::Piece(ColorPiece::White)));
    assert_eq!(board.cell(3, 4), Some(&Case::Piece(ColorPiece::Black)));
    assert_eq!(board.cell(4, 3), Some(&Case::Piece(ColorPiece::Black)));
    assert_eq!(board.cell(4, 4), Some(&Case::Piece(ColorPiece::White)));
    let mut it = BoardIter::new();
    while let Some((x, y)) = it.next() {
        if !matches!((x, y), (3 | 4, 3 | 4)) {
            assert_eq!(
                board.cell(x, y),
                Some(&Case::Empty),
                "Cell ({}, {}) should be empty",
                x,
                y
            );
        }
    }
}
