use tictactoe::board::{Board, GameResult, Move, Player};
use tictactoe::minimax::find_best_move;

fn mv(row: usize, col: usize) -> Move {
    Move { row, col, none: false }
}

/// Both sides play the engine's move until the board is terminal.
fn play_out(mut b: Board) -> Board {
    for _ in 0..9 {
        if b.result.is_some() {
            break;
        }
        let m = find_best_move(b);
        b.turn(m).unwrap();
    }
    assert!(b.result.is_some(), "game did not terminate within nine moves");
    b
}

#[test]
fn best_move_targets_an_empty_in_range_cell() {
    let x = Some(Player::X);
    let o = Some(Player::O);
    let b = Board { turn: Player::X, rows: [[x, o, None], [None, x, None], [o, None, None]], result: None };
    // The tie-break is random, so sample it repeatedly.
    for _ in 0..40 {
        let m = find_best_move(b);
        assert!(m.row < 3 && m.col < 3);
        assert!(b.rows[m.row][m.col].is_none());
        assert!(!m.none);
    }
}

#[test]
fn immediate_win_is_taken() {
    let x = Some(Player::X);
    let b = Board { turn: Player::X, rows: [[x, x, None], [None, None, None], [None, None, None]], result: None };
    let m = find_best_move(b);
    assert_eq!((m.row, m.col), (0, 2));
    let mut b = b;
    b.turn(m).unwrap();
    assert_eq!(b.result, Some(GameResult::P(Player::X)));
}

#[test]
fn opponent_threat_is_blocked() {
    let x = Some(Player::X);
    let o = Some(Player::O);
    // O threatens (0, 2); X has no immediate win, so X must block there.
    let b = Board { turn: Player::X, rows: [[o, o, None], [None, x, None], [None, None, x]], result: None };
    let m = find_best_move(b);
    assert_eq!((m.row, m.col), (0, 2));
}

#[test]
fn own_win_takes_priority_over_blocking() {
    let x = Some(Player::X);
    let o = Some(Player::O);
    // O threatens (0, 2), but X can win at (2, 2) right away.
    let b = Board { turn: Player::X, rows: [[o, o, None], [None, None, None], [x, x, None]], result: None };
    let m = find_best_move(b);
    assert_eq!((m.row, m.col), (2, 2));
}

#[test]
fn center_opening_draws_with_a_corner_reply() {
    for _ in 0..10 {
        let mut b = Board::new();
        b.turn(mv(1, 1)).unwrap();
        let m = find_best_move(b);
        let corner = (m.row == 0 || m.row == 2) && (m.col == 0 || m.col == 2);
        assert!(corner, "reply to a center opening was ({}, {}), not a corner", m.row, m.col);
        b.turn(m).unwrap();
        let finished = play_out(b);
        assert_eq!(finished.result, Some(GameResult::Tie));
    }
}

#[test]
fn engine_never_loses_from_the_empty_board() {
    // With both sides playing the engine's move, the first mover never loses.
    for _ in 0..25 {
        let finished = play_out(Board::new());
        let ok = finished.result == Some(GameResult::Tie)
            || finished.result == Some(GameResult::P(Player::X));
        assert!(ok, "the first mover lost: {:?}", finished.result);
    }
}

#[test]
fn best_move_follows_the_grid_symmetries() {
    let x = Some(Player::X);
    // Quarter-turns and a mirror of the same winning threat: the chosen move
    // is the transform of the untransformed board's winning cell.
    let base = Board { turn: Player::X, rows: [[x, x, None], [None, None, None], [None, None, None]], result: None };
    let m = find_best_move(base);
    assert_eq!((m.row, m.col), (0, 2));

    let quarter = Board { turn: Player::X, rows: [[None, None, None], [x, None, None], [x, None, None]], result: None };
    let m = find_best_move(quarter);
    assert_eq!((m.row, m.col), (0, 0));

    let half = Board { turn: Player::X, rows: [[None, None, None], [None, None, None], [None, x, x]], result: None };
    let m = find_best_move(half);
    assert_eq!((m.row, m.col), (2, 0));

    let three_quarter = Board { turn: Player::X, rows: [[None, None, x], [None, None, x], [None, None, None]], result: None };
    let m = find_best_move(three_quarter);
    assert_eq!((m.row, m.col), (2, 2));

    let mirrored = Board { turn: Player::X, rows: [[None, x, x], [None, None, None], [None, None, None]], result: None };
    let m = find_best_move(mirrored);
    assert_eq!((m.row, m.col), (0, 0));
}

#[test]
fn best_move_on_a_finished_board_still_targets_an_empty_cell() {
    let x = Some(Player::X);
    let o = Some(Player::O);
    // X has already won; every candidate ties, and the choice is random.
    let b = Board {
        turn: Player::O,
        rows: [[x, x, x], [o, o, None], [None, None, None]],
        result: Some(GameResult::P(Player::X)),
    };
    for _ in 0..20 {
        let m = find_best_move(b);
        assert!(m.row < 3 && m.col < 3);
        assert!(b.rows[m.row][m.col].is_none());
    }
}

#[test]
fn ties_are_broken_among_equal_moves() {
    // From the empty board every reply to a center opening that is a corner
    // ties; over many draws more than one corner should appear.
    let mut seen = [false; 4];
    for _ in 0..64 {
        let mut b = Board::new();
        b.turn(mv(1, 1)).unwrap();
        let m = find_best_move(b);
        let idx = match (m.row, m.col) {
            (0, 0) => 0,
            (0, 2) => 1,
            (2, 0) => 2,
            (2, 2) => 3,
            other => panic!("reply to a center opening was {:?}, not a corner", other),
        };
        seen[idx] = true;
    }
    let count = seen.iter().filter(|&&s| s).count();
    assert!(count > 1, "the random tie-break always chose the same corner");
}
