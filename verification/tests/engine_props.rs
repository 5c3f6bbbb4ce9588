use reversi::application::ai_move_use_case::AIMoveUseCase;
use reversi::application::move_use_case::MoveUseCaseImpl;
use reversi::application::play_ai_move_use_case::PlayAIMoveUseCase;
use reversi::application::use_case::UseCase;
use reversi::domain::board::{Board, Case, ColorPiece};

/// A board whose black-playing first player has exactly the three legal
/// destinations (2, 0), (0, 2) and (2, 2).
fn three_move_board() -> Board {
    let mut array = [Case::Empty; 64];
    array[0] = Case::Piece(ColorPiece::Black); // (0, 0)
    array[8] = Case::Piece(ColorPiece::White); // (1, 0)
    array[1] = Case::Piece(ColorPiece::White); // (0, 1)
    array[9] = Case::Piece(ColorPiece::White); // (1, 1)
    Board::create_board_for_test(array)
}

#[test]
fn computer_choice_is_uniform_over_three_destinations() {
    fastrand::seed(20240917);
    let expected = vec![(2, 0), (0, 2), (2, 2)];
    {
        let board = three_move_board();
        assert_eq!(board.available_positions(board.current_player()), expected);
    }
    let trials = 3000;
    let mut counts = [0usize; 3];
    for _ in 0..trials {
        let mut board = three_move_board();
        let ai = AIMoveUseCase::new(MoveUseCaseImpl {});
        let selected = ai.execute(&mut board).expect("a legal move must be played");
        let position = selected.position();
        let index = expected
            .iter()
            .position(|p| *p == position)
            .expect("the chosen destination must be a legal one");
        counts[index] += 1;
    }
    // Each destination should be drawn with empirical frequency near 1/3.
    for &count in counts.iter() {
        assert!(
            count > trials / 3 - 200 && count < trials / 3 + 200,
            "skewed draw: {:?}",
            counts
        );
    }
}

#[test]
fn computer_plays_the_only_legal_destination() {
    let mut array = [Case::Empty; 64];
    array[1] = Case::Piece(ColorPiece::Black); // (0, 1)
    array[2] = Case::Piece(ColorPiece::White); // (0, 2)
    let mut board = Board::create_board_for_test(array);
    let ai = AIMoveUseCase::new(MoveUseCaseImpl {});
    let selected = ai.execute(&mut board).expect("a legal move must be played");
    assert_eq!(selected.position(), (0, 3));
    assert_eq!(selected.pieces_to_flip(), vec![(0, 2)]);
    assert_eq!(board.cell(0, 2), Some(&Case::Piece(ColorPiece::Black)));
    assert_eq!(board.cell(0, 3), Some(&Case::Piece(ColorPiece::Black)));
}

#[test]
fn computer_does_nothing_without_a_legal_destination() {
    let mut board = Board::create_board_for_test([Case::Piece(ColorPiece::White); 64]);
    let ai = AIMoveUseCase::new(MoveUseCaseImpl {});
    assert!(ai.execute(&mut board).is_none());

    let mut board2 = Board::create_board_for_test([Case::Piece(ColorPiece::White); 64]);
    let play_ai = PlayAIMoveUseCase {};
    play_ai.execute(&mut board2);
    assert!(board2.player1());
}

#[test]
fn turn_reverts_when_opponent_is_left_without_a_move() {
    // Black owns (0, 0), one white piece sits beside it; after black
    // captures it, white has no piece left and so no legal destination:
    // the turn must come straight back to the first player.
    let mut array = [Case::Empty; 64];
    array[0] = Case::Piece(ColorPiece::Black); // (0, 0)
    array[1] = Case::Piece(ColorPiece::White); // (0, 1)
    let mut board = Board::create_board_for_test(array);
    let flips = board.place(0, 2).expect("the capture is legal");
    assert_eq!(flips, vec![(0, 1)]);
    assert!(board.player1());
}

#[test]
fn turn_passes_to_opponent_who_can_answer() {
    let mut board = Board::new();
    assert!(board.player1());
    board.place(3, 2).expect("the opening move is legal");
    assert!(board.player2());
}

#[test]
fn successful_move_grows_the_occupied_count_by_one() {
    let mut board = Board::new();
    let occupied_before = count_occupied(&board);
    let flips = board.place(3, 2).expect("the opening move is legal");
    assert_eq!(flips, vec![(3, 3)]);
    assert_eq!(count_occupied(&board), occupied_before + 1);
}

#[test]
fn rejected_move_leaves_the_grid_unchanged() {
    let mut board = Board::new();
    let before = snapshot(&board);
    assert!(board.place(3, 3).is_none()); // occupied
    assert!(board.place(0, 0).is_none()); // captures nothing
    assert!(board.place(8, 8).is_none()); // out of range
    assert_eq!(snapshot(&board), before);
    assert!(board.player1());
}

#[test]
fn score_components_sum_to_the_occupied_count() {
    // One piece of each color in opposite corners: neither side can
    // flank anything, so the game is over with one point apiece.
    let mut array = [Case::Empty; 64];
    array[0] = Case::Piece(ColorPiece::Black);
    array[63] = Case::Piece(ColorPiece::White);
    let board = Board::create_board_for_test(array);
    let score = board.end_of_game().expect("neither side can move");
    assert_eq!(score.player1() + score.player2(), 2);
    assert_eq!(score.player1(), 1);
    assert_eq!(score.player2(), 1);
}

#[test]
fn cell_renders_as_one_character() {
    assert_eq!(Case::Empty.to_char(), ' ');
    assert_eq!(Case::Piece(ColorPiece::White).to_char(), 'W');
    assert_eq!(Case::Piece(ColorPiece::Black).to_char(), 'B');
}

#[test]
fn use_case_bundle_drives_a_whole_opening_exchange() {
    let use_case = UseCase::new();
    let mut board = use_case.initialize_game_use_case.execute();
    let moves = use_case.compute_available_moves_use_case.execute(&board);
    assert_eq!(moves, vec![(3, 2), (2, 3), (5, 4), (4, 5)]);
    let flips = use_case
        .play_move_use_case
        .execute(&mut board, 3, 2)
        .expect("the opening move is legal");
    assert_eq!(flips, vec![(3, 3)]);
    assert!(use_case.evaluate_game_end_use_case.execute(&board).is_none());
    let answer = use_case.play_ai_move_use_case.execute(&mut board);
    assert!(answer.is_some());
}

fn count_occupied(board: &Board) -> usize {
    let mut n = 0;
    for x in 0..8 {
        for y in 0..8 {
            if matches!(board.cell(x, y), Some(Case::Piece(_))) {
                n += 1;
            }
        }
    }
    n
}

fn snapshot(board: &Board) -> Vec<Case> {
    let mut cells = Vec::new();
    for x in 0..8 {
        for y in 0..8 {
            cells.push(*board.cell(x, y).unwrap());
        }
    }
    cells
}
