use tictactoe::board::{cell_to_string, Board, GameResult, Move, MoveError, Player};

fn mv(row: usize, col: usize) -> Move {
    Move { row, col, none: false }
}

#[test]
fn new_board_is_empty() {
    let b = Board::new();
    assert_eq!(b.turn, Player::X);
    assert_eq!(b.result, None);
    for row in 0..3 {
        for col in 0..3 {
            assert_eq!(b.rows[row][col], None);
        }
    }
}

#[test]
fn apply_marks_cell_and_flips_turn() {
    let mut b = Board::new();
    assert_eq!(b.turn(mv(0, 0)), Ok(()));
    assert_eq!(b.rows[0][0], Some(Player::X));
    assert_eq!(b.turn, Player::O);
    assert_eq!(b.result, None);
    assert_eq!(b.turn(mv(1, 1)), Ok(()));
    assert_eq!(b.rows[1][1], Some(Player::O));
    assert_eq!(b.turn, Player::X);
}

#[test]
fn apply_rejects_out_of_bounds_without_mutating() {
    let mut b = Board::new();
    b.turn(mv(0, 0)).unwrap();
    let before = b;
    assert_eq!(b.turn(mv(3, 0)), Err(MoveError::OutOfBounds));
    assert_eq!(b.turn(mv(0, 7)), Err(MoveError::OutOfBounds));
    assert_eq!(b.rows, before.rows);
    assert_eq!(b.turn, before.turn);
    assert_eq!(b.result, before.result);
}

#[test]
fn apply_rejects_occupied_cell_without_mutating() {
    let mut b = Board::new();
    b.turn(mv(1, 2)).unwrap();
    let before = b;
    assert_eq!(b.turn(mv(1, 2)), Err(MoveError::CellOccupied));
    assert_eq!(b.rows, before.rows);
    assert_eq!(b.turn, before.turn);
    assert_eq!(b.result, before.result);
}

#[test]
fn apply_is_a_noop_once_result_is_set() {
    let mut b = Board::new();
    // X takes row 0 while O plays row 1.
    b.turn(mv(0, 0)).unwrap();
    b.turn(mv(1, 0)).unwrap();
    b.turn(mv(0, 1)).unwrap();
    b.turn(mv(1, 1)).unwrap();
    b.turn(mv(0, 2)).unwrap();
    assert_eq!(b.result, Some(GameResult::P(Player::X)));
    let before = b;
    // Valid-looking, occupied, and out-of-range moves are all silent no-ops.
    assert_eq!(b.turn(mv(2, 2)), Ok(()));
    assert_eq!(b.turn(mv(0, 0)), Ok(()));
    assert_eq!(b.turn(mv(9, 9)), Ok(()));
    assert_eq!(b.rows, before.rows);
    assert_eq!(b.turn, before.turn);
    assert_eq!(b.result, before.result);
}

#[test]
fn detect_reports_row_column_and_diagonal_wins() {
    let x = Some(Player::X);
    let o = Some(Player::O);
    let row_win = Board { turn: Player::O, rows: [[x, x, x], [o, o, None], [None, None, None]], result: None };
    assert_eq!(row_win.check_winner(), Some(GameResult::P(Player::X)));

    let col_win = Board { turn: Player::X, rows: [[o, x, None], [o, x, None], [o, None, x]], result: None };
    assert_eq!(col_win.check_winner(), Some(GameResult::P(Player::O)));

    let diag_win = Board { turn: Player::O, rows: [[x, o, None], [o, x, None], [None, None, x]], result: None };
    assert_eq!(diag_win.check_winner(), Some(GameResult::P(Player::X)));

    let anti_diag_win = Board { turn: Player::X, rows: [[x, x, o], [None, o, None], [o, None, x]], result: None };
    assert_eq!(anti_diag_win.check_winner(), Some(GameResult::P(Player::O)));
}

#[test]
fn detect_reports_tie_only_when_full_without_a_line() {
    let x = Some(Player::X);
    let o = Some(Player::O);
    let full_tie = Board { turn: Player::X, rows: [[x, o, x], [x, o, o], [o, x, x]], result: None };
    assert_eq!(full_tie.check_winner(), Some(GameResult::Tie));
}

#[test]
fn detect_reports_nothing_while_game_is_ongoing() {
    let x = Some(Player::X);
    let o = Some(Player::O);
    let ongoing = Board { turn: Player::X, rows: [[x, o, x], [x, o, o], [o, x, None]], result: None };
    assert_eq!(ongoing.check_winner(), None);
    assert_eq!(Board::new().check_winner(), None);
}

#[test]
fn empty_line_never_counts_as_a_win() {
    // A row of three equal-but-empty cells must not match as a line.
    let b = Board { turn: Player::X, rows: [[None, None, None], [None, None, None], [None, None, None]], result: None };
    assert_eq!(b.check_winner(), None);
}

#[test]
fn score_is_ten_for_winner_minus_ten_for_loser_zero_for_tie() {
    assert_eq!(GameResult::P(Player::X).score(Player::X), 10);
    assert_eq!(GameResult::P(Player::X).score(Player::O), -10);
    assert_eq!(GameResult::P(Player::O).score(Player::O), 10);
    assert_eq!(GameResult::P(Player::O).score(Player::X), -10);
    assert_eq!(GameResult::Tie.score(Player::X), 0);
    assert_eq!(GameResult::Tie.score(Player::O), 0);
}

#[test]
fn cell_to_string_shows_the_mark() {
    assert_eq!(cell_to_string(Some(Player::X)), "X");
    assert_eq!(cell_to_string(Some(Player::O)), "O");
    assert_eq!(cell_to_string(None), " ");
}
