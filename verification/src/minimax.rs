//! The search engine: minimax with alpha-beta pruning over board copies, and
//! a uniformly random choice among the moves that tie for the best score.

use crate::board::{
    lemma_count_empty_range, lemma_ongoing_has_empty, lemma_place_cells, Board, Move, Player,
};
use rand::seq::SliceRandom;
use vstd::prelude::*;

verus! {

/// The value the search assigns to a board: the terminal score when the grid
/// is decided, and otherwise a scan of the cells in row-major order by
/// `search_max_from` or `search_min_from`.  This is the exact mathematical
/// statement of the engine's recursion, depth adjustment and alpha-beta
/// cutoffs included.
pub open spec fn search_value(
    b: Board,
    maximizing: bool,
    player: Player,
    depth: int,
    alpha: int,
    beta: int,
) -> int
    decreases b.count_empty(), 4int, 0int,
{
    match b.detect_terminal() {
        Some(g) => g.spec_score(player),
        None => if maximizing {
            search_max_from(b, player, depth, 0, 0, i32::MIN as int, alpha, beta)
        } else {
            search_min_from(b, player, depth, 0, 0, i32::MAX as int, alpha, beta)
        },
    }
}

/// The maximizing scan from cell `(r, c)` on: each empty cell's subtree value
/// is reduced by `depth` before comparison, `alpha` rises with the running
/// best, and the scan stops once `beta <= alpha`.
pub open spec fn search_max_from(
    b: Board,
    player: Player,
    depth: int,
    r: int,
    c: int,
    best: int,
    alpha: int,
    beta: int,
) -> int
    decreases b.count_empty(), 3int - r, 4int - c,
    via search_max_from_decreases
{
    if r < 0 || c < 0 || r >= 3 {
        best
    } else if c >= 3 {
        search_max_from(b, player, depth, r + 1, 0, best, alpha, beta)
    } else if b.cell(r, c) is None {
        let s = search_value(b.spec_place(r, c), false, player, depth + 1, alpha, beta);
        let best2 = if s - depth > best {
            s - depth
        } else {
            best
        };
        let alpha2 = if best2 > alpha {
            best2
        } else {
            alpha
        };
        if beta <= alpha2 {
            best2
        } else {
            search_max_from(b, player, depth, r, c + 1, best2, alpha2, beta)
        }
    } else {
        search_max_from(b, player, depth, r, c + 1, best, alpha, beta)
    }
}

#[via_fn]
proof fn search_max_from_decreases(
    b: Board,
    player: Player,
    depth: int,
    r: int,
    c: int,
    best: int,
    alpha: int,
    beta: int,
) {
    if 0 <= r < 3 && 0 <= c < 3 && b.cell(r, c) is None {
        lemma_place_cells(b, r, c);
    }
}

/// The minimizing scan from cell `(r, c)` on: each empty cell's subtree value
/// is increased by `depth` before comparison, `beta` falls with the running
/// best, and the scan stops once `beta <= alpha`.
pub open spec fn search_min_from(
    b: Board,
    player: Player,
    depth: int,
    r: int,
    c: int,
    best: int,
    alpha: int,
    beta: int,
) -> int
    decreases b.count_empty(), 3int - r, 4int - c,
    via search_min_from_decreases
{
    if r < 0 || c < 0 || r >= 3 {
        best
    } else if c >= 3 {
        search_min_from(b, player, depth, r + 1, 0, best, alpha, beta)
    } else if b.cell(r, c) is None {
        let s = search_value(b.spec_place(r, c), true, player, depth + 1, alpha, beta);
        let best2 = if s + depth < best {
            s + depth
        } else {
            best
        };
        let beta2 = if best2 < beta {
            best2
        } else {
            beta
        };
        if beta2 <= alpha {
            best2
        } else {
            search_min_from(b, player, depth, r, c + 1, best2, alpha, beta2)
        }
    } else {
        search_min_from(b, player, depth, r, c + 1, best, alpha, beta)
    }
}

#[via_fn]
proof fn search_min_from_decreases(
    b: Board,
    player: Player,
    depth: int,
    r: int,
    c: int,
    best: int,
    alpha: int,
    beta: int,
) {
    if 0 <= r < 3 && 0 <= c < 3 && b.cell(r, c) is None {
        lemma_place_cells(b, r, c);
    }
}

/// The score the engine gives to marking the empty cell `(r, c)` of `b`: the
/// search value, for the mover, of the board after that move, over the full
/// window.
pub open spec fn root_score(b: Board, r: int, c: int) -> int {
    search_value(b.spec_place(r, c), false, b.turn, 0, i32::MIN as int, i32::MAX as int)
}

/// Relies on rand::seq::SliceRandom::choose (with rand::thread_rng as the
/// source): returns None exactly on an empty slice, and otherwise some element
/// of the slice, chosen uniformly at random.
#[verifier::external_body]
fn choose_move(moves: &Vec<Move>) -> (r: Option<Move>)
    ensures
        r is Some <==> moves@.len() > 0,
        r is Some ==> moves@.contains(r.unwrap()),
{
    moves.choose(&mut rand::thread_rng()).copied()
}

/// Find the best current move for the current player.
///
/// Every empty cell is simulated on a copy of the board and scored by
/// `minimax`; the moves tying for the highest score are collected and one of
/// them is chosen at random.  The returned move always targets an empty,
/// in-range cell, never carries the "no move" sentinel, and on an undecided
/// board its `root_score` is maximal among all empty cells; only the random
/// choice among tied maximizers is left open.
#[verifier::loop_isolation(false)]
pub fn find_best_move(board: Board) -> (m: Move)
    requires
        board.wf(),
        board.count_empty() > 0,
    ensures
        m.in_bounds(),
        board.cell(m.row as int, m.col as int) is None,
        !m.none,
        board.result is None ==> forall|r: int, c: int|
            0 <= r < 3 && 0 <= c < 3 && board.cell(r, c) is None ==> root_score(board, r, c)
                <= root_score(board, m.row as int, m.col as int),
{
    proof {
        lemma_count_empty_range(board);
    }
    let mut best_score: i32 = i32::MIN;
    let mut best_moves: Vec<Move> = Vec::new();
    let mut i: usize = 0;
    while i < 3
        invariant
            i <= 3,
            best_moves@.len() == 0 ==> best_score == i32::MIN,
            best_moves@.len() == 0 ==> forall|r: int, c: int|
                0 <= r < i && 0 <= c < 3 ==> board.cell(r, c) is Some,
            forall|k: int|
                0 <= k < best_moves@.len() ==> (#[trigger] best_moves@[k]).in_bounds()
                    && board.cell(best_moves@[k].row as int, best_moves@[k].col as int) is None
                    && !best_moves@[k].none,
            board.result is None ==> forall|k: int|
                0 <= k < best_moves@.len() ==> root_score(
                    board,
                    (#[trigger] best_moves@[k]).row as int,
                    best_moves@[k].col as int,
                ) == best_score as int,
            board.result is None ==> forall|r: int, c: int|
                0 <= r < i && 0 <= c < 3 && board.cell(r, c) is None ==> root_score(board, r, c)
                    <= best_score as int,
        decreases 3 - i,
    {
        let mut j: usize = 0;
        while j < 3
            invariant
                j <= 3,
                best_moves@.len() == 0 ==> best_score == i32::MIN,
                best_moves@.len() == 0 ==> forall|r: int, c: int|
                    0 <= r < i && 0 <= c < 3 ==> board.cell(r, c) is Some,
                best_moves@.len() == 0 ==> forall|c: int|
                    0 <= c < j ==> board.cell(i as int, c) is Some,
                forall|k: int|
                    0 <= k < best_moves@.len() ==> (#[trigger] best_moves@[k]).in_bounds()
                        && board.cell(best_moves@[k].row as int, best_moves@[k].col as int) is None
                        && !best_moves@[k].none,
                board.result is None ==> forall|k: int|
                    0 <= k < best_moves@.len() ==> root_score(
                        board,
                        (#[trigger] best_moves@[k]).row as int,
                        best_moves@[k].col as int,
                    ) == best_score as int,
                board.result is None ==> forall|r: int, c: int|
                    0 <= r < i && 0 <= c < 3 && board.cell(r, c) is None ==> root_score(board, r, c)
                        <= best_score as int,
                board.result is None ==> forall|c: int|
                    0 <= c < j && board.cell(i as int, c) is None ==> root_score(board, i as int, c)
                        <= best_score as int,
            decreases 3 - j,
        {
            if board.rows[i][j].is_none() {
                let mut tmp_board = board;
                tmp_board.turn(Move { row: i, col: j, none: false }).unwrap();
                let score: i32 = minimax(tmp_board, false, board.turn, 0, i32::MIN, i32::MAX);

                if score > best_score {
                    best_moves = vec![Move { row: i, col: j, none: false }];
                    best_score = score;
                } else if score == best_score {
                    best_moves.push(Move { row: i, col: j, none: false });
                }
            }
            j += 1;
        }
        i += 1;
    }

    proof {
        if best_moves@.len() == 0 {
            assert(board.full());
            assert(false);
        }
    }
    let best_move = choose_move(&best_moves);
    match best_move {
        Some(mv) => mv,
        None => vstd::pervasive::unreached(),
    }
}

/// Minimax algorithm to find the best move for the current player.
///
/// Terminal boards score +10/-10/0 from `player`'s perspective.  A child's
/// returned score is adjusted by the current depth before comparison (reduced
/// when maximizing, increased when minimizing) so that faster wins and slower
/// losses are preferred; alpha-beta cutoffs stop a branch once it cannot
/// influence the final decision.  The result is exactly `search_value` of the
/// same arguments, stays within 10 plus 10 per empty cell, and on a terminal
/// board is exactly the outcome's score.
fn minimax(board: Board, maximizing: bool, player: Player, depth: i32, alpha: i32, beta: i32) -> (s:
    i32)
    requires
        board.wf(),
        0 <= depth,
        depth + board.count_empty() <= 9,
    ensures
        -10 - 10 * board.count_empty() <= s as int <= 10 + 10 * board.count_empty(),
        board.detect_terminal() matches Some(g) ==> s as int == g.spec_score(player),
        s as int == search_value(board, maximizing, player, depth as int, alpha as int, beta as int),
    decreases board.count_empty(),
{
    let ghost target: int = search_value(
        board,
        maximizing,
        player,
        depth as int,
        alpha as int,
        beta as int,
    );
    let result = board.check_winner();
    if result.is_some() {
        return result.unwrap().score(player);
    }
    proof {
        lemma_ongoing_has_empty(board);
    }

    let mut alpha = alpha;
    let mut beta = beta;
    if maximizing {
        proof {
            assert(target == search_max_from(
                board,
                player,
                depth as int,
                0,
                0,
                i32::MIN as int,
                alpha as int,
                beta as int,
            ));
        }
        let mut best_score: i32 = i32::MIN;
        let mut i: usize = 0;
        while i < 3
            invariant_except_break
                search_max_from(
                    board,
                    player,
                    depth as int,
                    i as int,
                    0,
                    best_score as int,
                    alpha as int,
                    beta as int,
                ) == target,
            invariant
                board.wf(),
                board.result is None,
                0 <= depth,
                depth + board.count_empty() <= 9,
                board.count_empty() > 0,
                i <= 3,
                best_score == i32::MIN ==> forall|r: int, c: int|
                    0 <= r < i && 0 <= c < 3 ==> board.cell(r, c) is Some,
                best_score != i32::MIN ==> -10 - 10 * board.count_empty() <= best_score as int
                    <= 10 + 10 * board.count_empty(),
            ensures
                best_score != i32::MIN,
                -10 - 10 * board.count_empty() <= best_score as int <= 10 + 10
                    * board.count_empty(),
                best_score as int == target,
            decreases 3 - i,
        {
            let mut j: usize = 0;
            let mut pruned = false;
            while j < 3
                invariant_except_break
                    !pruned,
                    search_max_from(
                        board,
                        player,
                        depth as int,
                        i as int,
                        j as int,
                        best_score as int,
                        alpha as int,
                        beta as int,
                    ) == target,
                invariant
                    board.wf(),
                    board.result is None,
                    0 <= depth,
                    depth + board.count_empty() <= 9,
                    board.count_empty() > 0,
                    i < 3,
                    j <= 3,
                    best_score == i32::MIN ==> forall|r: int, c: int|
                        0 <= r < i && 0 <= c < 3 ==> board.cell(r, c) is Some,
                    best_score == i32::MIN ==> forall|c: int|
                        0 <= c < j ==> board.cell(i as int, c) is Some,
                    best_score != i32::MIN ==> -10 - 10 * board.count_empty() <= best_score as int
                        <= 10 + 10 * board.count_empty(),
                    pruned ==> best_score != i32::MIN,
                ensures
                    best_score == i32::MIN ==> forall|r: int, c: int|
                        0 <= r < i && 0 <= c < 3 ==> board.cell(r, c) is Some,
                    !pruned && best_score == i32::MIN ==> forall|c: int|
                        0 <= c < 3 ==> board.cell(i as int, c) is Some,
                    best_score != i32::MIN ==> -10 - 10 * board.count_empty() <= best_score as int
                        <= 10 + 10 * board.count_empty(),
                    pruned ==> best_score != i32::MIN,
                    pruned ==> best_score as int == target,
                    !pruned ==> search_max_from(
                        board,
                        player,
                        depth as int,
                        i as int,
                        3,
                        best_score as int,
                        alpha as int,
                        beta as int,
                    ) == target,
                decreases 3 - j,
            {
                if board.rows[i][j].is_none() {
                    let mut tmp_board = board;
                    tmp_board.turn(Move { row: i, col: j, none: false }).unwrap();
                    let score: i32 = minimax(tmp_board, false, player, depth + 1, alpha, beta);
                    let adjusted: i32 = score - depth;
                    if adjusted > best_score {
                        best_score = adjusted;
                    }
                    if best_score > alpha {
                        alpha = best_score;
                    }
                    if beta <= alpha {
                        pruned = true;
                        break;
                    }
                }
                j += 1;
            }
            if pruned {
                break;
            }
            i += 1;
        }
        best_score
    } else {
        proof {
            assert(target == search_min_from(
                board,
                player,
                depth as int,
                0,
                0,
                i32::MAX as int,
                alpha as int,
                beta as int,
            ));
        }
        let mut best_score: i32 = i32::MAX;
        let mut i: usize = 0;
        while i < 3
            invariant_except_break
                search_min_from(
                    board,
                    player,
                    depth as int,
                    i as int,
                    0,
                    best_score as int,
                    alpha as int,
                    beta as int,
                ) == target,
            invariant
                board.wf(),
                board.result is None,
                0 <= depth,
                depth + board.count_empty() <= 9,
                board.count_empty() > 0,
                i <= 3,
                best_score == i32::MAX ==> forall|r: int, c: int|
                    0 <= r < i && 0 <= c < 3 ==> board.cell(r, c) is Some,
                best_score != i32::MAX ==> -10 - 10 * board.count_empty() <= best_score as int
                    <= 10 + 10 * board.count_empty(),
            ensures
                best_score != i32::MAX,
                -10 - 10 * board.count_empty() <= best_score as int <= 10 + 10
                    * board.count_empty(),
                best_score as int == target,
            decreases 3 - i,
        {
            let mut j: usize = 0;
            let mut pruned = false;
            while j < 3
                invariant_except_break
                    !pruned,
                    search_min_from(
                        board,
                        player,
                        depth as int,
                        i as int,
                        j as int,
                        best_score as int,
                        alpha as int,
                        beta as int,
                    ) == target,
                invariant
                    board.wf(),
                    board.result is None,
                    0 <= depth,
                    depth + board.count_empty() <= 9,
                    board.count_empty() > 0,
                    i < 3,
                    j <= 3,
                    best_score == i32::MAX ==> forall|r: int, c: int|
                        0 <= r < i && 0 <= c < 3 ==> board.cell(r, c) is Some,
                    best_score == i32::MAX ==> forall|c: int|
                        0 <= c < j ==> board.cell(i as int, c) is Some,
                    best_score != i32::MAX ==> -10 - 10 * board.count_empty() <= best_score as int
                        <= 10 + 10 * board.count_empty(),
                    pruned ==> best_score != i32::MAX,
                ensures
                    best_score == i32::MAX ==> forall|r: int, c: int|
                        0 <= r < i && 0 <= c < 3 ==> board.cell(r, c) is Some,
                    !pruned && best_score == i32::MAX ==> forall|c: int|
                        0 <= c < 3 ==> board.cell(i as int, c) is Some,
                    best_score != i32::MAX ==> -10 - 10 * board.count_empty() <= best_score as int
                        <= 10 + 10 * board.count_empty(),
                    pruned ==> best_score != i32::MAX,
                    pruned ==> best_score as int == target,
                    !pruned ==> search_min_from(
                        board,
                        player,
                        depth as int,
                        i as int,
                        3,
                        best_score as int,
                        alpha as int,
                        beta as int,
                    ) == target,
                decreases 3 - j,
            {
                if board.rows[i][j].is_none() {
                    let mut tmp_board = board;
                    tmp_board.turn(Move { row: i, col: j, none: false }).unwrap();
                    let score: i32 = minimax(tmp_board, true, player, depth + 1, alpha, beta);
                    let adjusted: i32 = score + depth;
                    if adjusted < best_score {
                        best_score = adjusted;
                    }
                    if best_score < beta {
                        beta = best_score;
                    }
                    if beta <= alpha {
                        pruned = true;
                        break;
                    }
                }
                j += 1;
            }
            if pruned {
                break;
            }
            i += 1;
        }
        best_score
    }
}

} // verus!
