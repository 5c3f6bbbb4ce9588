use reversi::domain::board::{Board, Case, ColorPiece};
use reversi::domain::directions::Directions;
use reversi::domain::player::Player;

#[test]
fn should_test_if_game_is_over() {
    // Given
    let board = Board::new();

    // When
    let result = board.end_of_game();

    // Then
    assert!(result.is_none());
}

#[test]
fn should_test_position() {
    // Given
    let board = Board::new();

    // Then
    assert_eq!(board.cell(3, 3), Some(&Case::Piece(ColorPiece::White)));
    assert_eq!(board.cell(3, 4), Some(&Case::Piece(ColorPiece::Black)));
    assert_eq!(board.cell(4, 3), Some(&Case::Piece(ColorPiece::Black)));
    assert_eq!(board.cell(4, 4), Some(&Case::Piece(ColorPiece::White)));
}

#[test]
fn should_check_all_directions() {
    let expected = [
        (-1, -1),
        (-1, 0),
        (-1, 1),
        (0, -1),
        (0, 1),
        (1, -1),
        (1, 0),
        (1, 1),
    ];
    let mut dirs: Vec<(isize, isize)> = Vec::new();
    let mut it = Directions::new();
    while let Some(d) = it.next() {
        dirs.push(d);
    }
    assert_eq!(dirs, expected);
}

#[test]
fn should_return_colors_for_white_player() {
    // Given
    let player = Player::new(ColorPiece::White);

    // When / then
    assert_eq!(player.color(), ColorPiece::White);
    assert_eq!(player.opponent_color(), ColorPiece::Black);
}

#[test]
fn should_return_colors_for_black_player() {
    // Given
    let player = Player::new(ColorPiece::Black);

    // When / then
    assert_eq!(player.color(), ColorPiece::Black);
    assert_eq!(player.opponent_color(), ColorPiece::White);
}
