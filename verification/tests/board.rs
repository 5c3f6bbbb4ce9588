use reversi::domain::board::{Board, BoardIter, Case, ColorPiece};

#[test]
fn should_initialize_board_with_correct_initial_state_and_player() {
    // Given / When
    let board = Board::default();

    // Then
    assert!(board.player1(), "Initial player should be player1");
    assert_eq!(board.cell(3, 3), Some(&Case::Piece(ColorPiece::White)));
    assert_eq!(board.cell(3, 4), Some(&Case::Piece(ColorPiece::Black)));
    assert_eq!(board.cell(4, 3), Some(&Case::Piece(ColorPiece::Black)));
    assert_eq!(board.cell(4, 4), Some(&Case::Piece(ColorPiece::White)));
    let mut it = BoardIter::default();
    while let Some((x, y)) = it.next() {
        if !matches!((x, y), (3 | 4, 3 | 4)) {
            assert_eq!(
                board.cell(x, y),
                Some(&Case::Empty),
                "Cell ({}, {}) should be empty",
                x,
                y
            );
        }
    }
}

#[test]
fn board_should_game_is_ending_when_board_is_full_of_white_pieces() {
    // Given
    let board = Board::create_board_for_test([Case::Piece(ColorPiece::White); 64]);

    // When
    let result = board.end_of_game();

    // Then
    assert!(result.is_some());
    let score = result.expect("Score must be Some");
    assert_eq!(score.player1(), 0);
    assert_eq!(score.player2(), 64);
}

#[test]
fn board_should_game_is_ending_when_board_is_full_of_black_pieces() {
    // Given
    let board = Board::create_board_for_test([Case::Piece(ColorPiece::Black); 64]);

    // When
    let result = board.end_of_game();

    // Then
    assert!(result.is_some());
    let score = result.expect("Score must be Some");
    assert_eq!(score.player1(), 64);
    assert_eq!(score.player2(), 0);
}

#[test]
fn board_should_game_is_ending_when_no_move_is_available() {
    // Given
    let mut array = [Case::Empty; 64];
    array[3 * 8 + 3] = Case::Piece(ColorPiece::Black);
    array[3 * 8 + 4] = Case::Piece(ColorPiece::Black);
    let board = Board::create_board_for_test(array);

    // When
    let result = board.end_of_game();

    // Then
    assert!(result.is_some());
    let score = result.expect("Score must be Some");
    assert_eq!(score.player1(), 2);
    assert_eq!(score.player2(), 0);
}

#[test]
fn should_game_is_not_ending_when_game_is_started() {
    // Given
    let board = Board::default();

    // When
    let result = board.end_of_game();

    // Then
    assert!(result.is_none());
}

#[test]
fn should_flip_white_piece_to_black() {
    // Given
    let mut case = Case::Piece(ColorPiece::White);

    // When
    case.flip();

    // Then
    assert_eq!(case, Case::Piece(ColorPiece::Black))
}

#[test]
fn should_flip_black_piece_to_white() {
    // Given
    let mut case = Case::Piece(ColorPiece::Black);

    // When
    case.flip();

    // Then
    assert_eq!(case, Case::Piece(ColorPiece::White))
}

#[test]
fn should_switch_player() {
    // Given
    let mut board = Board::default();

    // When
    board.switch_player();

    // Then
    assert!(board.player2());
}

#[test]
fn board_should_compute_available_moves_for_initial_board() {
    // Given
    let board = Board::default();

    // When
    let result = board.available_positions(board.current_player());

    // Then
    assert_eq!(result, vec![(3, 2), (2, 3), (5, 4), (4, 5)]);
}

#[test]
fn should_not_flip_when_cell_is_already_occupied() {
    // Given
    let mut board = Board::default();
    let x = 3;
    let y = 3;

    // When
    let result = board.flip(x, y);

    // Then
    assert!(result.is_none());
}

#[test]
fn should_not_flip_when_cell_is_empty_but_not_flippable() {
    // Given
    let mut board = Board::default();
    let x = 0;
    let y = 0;

    // When
    let result = board.flip(x, y);

    // Then
    assert!(result.is_none());
}

#[test]
fn should_flip_when_cell_is_empty_and_flippable() {
    // Given
    let mut board = Board::default();
    let x = 3;
    let y = 2;

    // When
    let result = board.flip(x, y);

    // Then
    assert!(result.is_some());
    let flipped_pieces = result.expect("Should have flipped pieces");
    assert_eq!(flipped_pieces, vec![(3, 3)]);
    assert_eq!(board.cell(3, 3), Some(&Case::Piece(ColorPiece::Black)));
}

#[test]
fn should_not_place_when_cell_is_already_occupied() {
    // Given
    let mut board = Board::default();
    let x = 3;
    let y = 3;

    // When
    let result = board.place(x, y);

    // Then
    assert!(result.is_none());
}

#[test]
fn should_not_place_when_cell_is_empty_but_not_flippable() {
    // Given
    let mut board = Board::default();
    let x = 0;
    let y = 0;

    // When
    let result = board.place(x, y);

    // Then
    assert!(result.is_none());
}

#[test]
fn should_place_when_cell_is_empty_and_flippable() {
    // Given
    let mut board = Board::default();
    let x = 3;
    let y = 2;

    // When
    let result = board.place(x, y);

    // Then
    assert!(result.is_some());
    let flipped_pieces = result.expect("Should have flipped pieces");
    assert_eq!(flipped_pieces, vec![(3, 3)]);
    assert_eq!(board.cell(3, 3), Some(&Case::Piece(ColorPiece::Black)));
    assert_eq!(board.cell(3, 2), Some(&Case::Piece(ColorPiece::Black)));
    assert!(board.player2());
}

#[test]
fn should_return_none_when_place_is_out_of_bounds() {
    // Given
    let mut board = Board::default();
    let x = 8;
    let y = 0;

    // When
    let result = board.place(x, y);

    // Then
    assert!(result.is_none());
}
