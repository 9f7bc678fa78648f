//! The game-state model: a 3x3 board, move application, and terminal-state
//! detection.

use vstd::prelude::*;

verus! {

/// The players playing the game.
#[derive(Copy, Clone, PartialEq, Eq, Structural, Debug)]
pub enum Player {
    /// The player X, who moves first on a fresh board.
    X,
    /// The player O.
    O,
}

impl Player {
    /// The opponent of this player.
    pub open spec fn other(self) -> Player {
        match self {
            Player::X => Player::O,
            Player::O => Player::X,
        }
    }
}

/// The result of the game.
#[derive(Copy, Clone, PartialEq, Eq, Structural, Debug)]
pub enum GameResult {
    /// If a player won, then which player.
    P(Player),
    /// A tie: every cell is occupied and no player has a line.
    Tie,
}

/// Why a proposed move was rejected.
#[derive(Copy, Clone, PartialEq, Eq, Structural, Debug)]
pub enum MoveError {
    /// The move's coordinates lie outside the 3x3 grid.
    OutOfBounds,
    /// The targeted cell already holds a piece.
    CellOccupied,
}

/// A move made by a player.
#[derive(Copy, Clone, PartialEq, Eq, Structural, Debug)]
pub struct Move {
    /// The row the player puts their piece on.
    pub row: usize,
    /// The col the player puts their piece on.
    pub col: usize,
    /// Sentinel marker distinguishing a real move from "no move"; never true
    /// for a move produced by the search engine, and never placed on a board.
    pub none: bool,
}

impl Move {
    /// Whether the move's coordinates lie inside the grid.
    pub open spec fn in_bounds(self) -> bool {
        self.row < 3 && self.col < 3
    }
}

/// The board the game is played on.
#[derive(Copy, Clone, Debug)]
pub struct Board {
    /// The player who is currently moving.
    pub turn: Player,
    /// State of the game.
    pub rows: [[Option<Player>; 3]; 3],
    /// Result, if any.
    pub result: Option<GameResult>,
}

/// Three equal occupied cells; a line of three empty cells never matches.
pub open spec fn three_equal(a: Option<Player>, b: Option<Player>, c: Option<Player>) -> bool {
    a == b && b == c && a is Some
}

/// Three cells all marked by `p`.
pub open spec fn line_of(
    a: Option<Player>,
    b: Option<Player>,
    c: Option<Player>,
    p: Player,
) -> bool {
    a == Some(p) && b == Some(p) && c == Some(p)
}

impl Board {
    /// The mark in the cell at `(r, c)`.
    pub open spec fn cell(self, r: int, c: int) -> Option<Player> {
        self.rows[r][c]
    }

    /// Every cell of the grid is occupied.
    pub open spec fn full(self) -> bool {
        self.cell(0, 0) is Some && self.cell(0, 1) is Some && self.cell(0, 2) is Some
            && self.cell(1, 0) is Some && self.cell(1, 1) is Some && self.cell(1, 2) is Some
            && self.cell(2, 0) is Some && self.cell(2, 1) is Some && self.cell(2, 2) is Some
    }

    /// How many cells of the grid are empty.
    pub open spec fn count_empty(self) -> int {
        (if self.cell(0, 0) is None { 1int } else { 0int })
            + (if self.cell(0, 1) is None { 1int } else { 0int })
            + (if self.cell(0, 2) is None { 1int } else { 0int })
            + (if self.cell(1, 0) is None { 1int } else { 0int })
            + (if self.cell(1, 1) is None { 1int } else { 0int })
            + (if self.cell(1, 2) is None { 1int } else { 0int })
            + (if self.cell(2, 0) is None { 1int } else { 0int })
            + (if self.cell(2, 1) is None { 1int } else { 0int })
            + (if self.cell(2, 2) is None { 1int } else { 0int })
    }

    /// The mark owning a completed line, if any.  Lines are checked in a fixed
    /// order (rows, columns, diagonal, anti-diagonal), a later match taking
    /// precedence; under normal play at most one line can be complete, so the
    /// order is only observable on boards unreachable by alternating moves.
    pub open spec fn line_winner(self) -> Option<Player> {
        if three_equal(self.cell(0, 2), self.cell(1, 1), self.cell(2, 0)) {
            self.cell(1, 1)
        } else if three_equal(self.cell(0, 0), self.cell(1, 1), self.cell(2, 2)) {
            self.cell(1, 1)
        } else if three_equal(self.cell(0, 2), self.cell(1, 2), self.cell(2, 2)) {
            self.cell(0, 2)
        } else if three_equal(self.cell(0, 1), self.cell(1, 1), self.cell(2, 1)) {
            self.cell(0, 1)
        } else if three_equal(self.cell(0, 0), self.cell(1, 0), self.cell(2, 0)) {
            self.cell(0, 0)
        } else if three_equal(self.cell(2, 0), self.cell(2, 1), self.cell(2, 2)) {
            self.cell(2, 0)
        } else if three_equal(self.cell(1, 0), self.cell(1, 1), self.cell(1, 2)) {
            self.cell(1, 0)
        } else if three_equal(self.cell(0, 0), self.cell(0, 1), self.cell(0, 2)) {
            self.cell(0, 0)
        } else {
            None
        }
    }

    /// The terminal outcome of the grid: a win for the owner of a completed
    /// line, a tie once every cell is occupied, and nothing while the game is
    /// still ongoing.  A pure function of the grid alone.
    pub open spec fn detect_terminal(self) -> Option<GameResult> {
        match self.line_winner() {
            Some(p) => Some(GameResult::P(p)),
            None => if self.full() {
                Some(GameResult::Tie)
            } else {
                None
            },
        }
    }

    /// Player `p` owns a completed line.
    pub open spec fn wins(self, p: Player) -> bool {
        line_of(self.cell(0, 0), self.cell(0, 1), self.cell(0, 2), p)
            || line_of(self.cell(1, 0), self.cell(1, 1), self.cell(1, 2), p)
            || line_of(self.cell(2, 0), self.cell(2, 1), self.cell(2, 2), p)
            || line_of(self.cell(0, 0), self.cell(1, 0), self.cell(2, 0), p)
            || line_of(self.cell(0, 1), self.cell(1, 1), self.cell(2, 1), p)
            || line_of(self.cell(0, 2), self.cell(1, 2), self.cell(2, 2), p)
            || line_of(self.cell(0, 0), self.cell(1, 1), self.cell(2, 2), p)
            || line_of(self.cell(0, 2), self.cell(1, 1), self.cell(2, 0), p)
    }

    /// The board after the current mover marks cell `(r, c)`: the mark is
    /// placed, the turn flips, and the stored result is what the new grid
    /// shows.  This is the state transition that `turn` performs on success.
    pub open spec fn spec_place(self, r: int, c: int) -> Board {
        let rows2 = vstd::array::spec_array_update(
            self.rows,
            r,
            vstd::array::spec_array_update(self.rows[r], c, Some(self.turn)),
        );
        let moved = Board { turn: self.turn.other(), rows: rows2, result: None };
        Board { turn: moved.turn, rows: moved.rows, result: moved.detect_terminal() }
    }

    /// This board's grid is a quarter-turn of `b`'s grid.
    pub open spec fn is_rotation_of(self, b: Board) -> bool {
        forall|r: int, c: int| 0 <= r < 3 && 0 <= c < 3 ==> self.cell(r, c) == b.cell(c, 2 - r)
    }

    /// This board's grid is `b`'s grid with the columns reversed.
    pub open spec fn is_mirror_of(self, b: Board) -> bool {
        forall|r: int, c: int| 0 <= r < 3 && 0 <= c < 3 ==> self.cell(r, c) == b.cell(r, 2 - c)
    }

    /// Well-formedness: the stored result agrees with what the grid shows.
    /// `new` establishes it and `turn` preserves it.
    pub open spec fn wf(self) -> bool {
        self.result == self.detect_terminal()
    }

    /// Create a new board.
    pub fn new() -> (b: Board)
        ensures
            b.turn == Player::X,
            b.result is None,
            forall|r: int, c: int| 0 <= r < 3 && 0 <= c < 3 ==> b.cell(r, c) is None,
            b.wf(),
    {
        let b = Board { turn: Player::X, rows: [[None; 3]; 3], result: None };
        proof {
            assert(forall|r: int, c: int| 0 <= r < 3 && 0 <= c < 3 ==> b.cell(r, c) is None);
        }
        b
    }

    /// Put a piece on the board.
    ///
    /// On a finished board the call is a silent no-op.  Otherwise the move is
    /// rejected, without touching the state, when its coordinates are out of
    /// range or its target cell is occupied; on success the cell is marked
    /// with the mover's identity, the turn flips, and the terminal outcome of
    /// the new grid is stored.
    pub fn turn(&mut self, m: Move) -> (r: Result<(), MoveError>)
        ensures
            old(self).result is Some ==> r == Ok::<(), MoveError>(()) && *final(self) == *old(
                self,
            ),
            old(self).result is None && !m.in_bounds() ==> r == Err::<(), MoveError>(
                MoveError::OutOfBounds,
            ) && *final(self) == *old(self),
            old(self).result is None && m.in_bounds() && old(self).cell(
                m.row as int,
                m.col as int,
            ) is Some ==> r == Err::<(), MoveError>(MoveError::CellOccupied) && *final(self)
                == *old(self),
            old(self).result is None && m.in_bounds() && old(self).cell(
                m.row as int,
                m.col as int,
            ) is None ==> {
                &&& r == Ok::<(), MoveError>(())
                &&& final(self).turn == old(self).turn.other()
                &&& final(self).cell(m.row as int, m.col as int) == Some(old(self).turn)
                &&& forall|i: int, j: int|
                    0 <= i < 3 && 0 <= j < 3 && !(i == m.row as int && j == m.col as int)
                        ==> final(self).cell(i, j) == old(self).cell(i, j)
                &&& final(self).result == final(self).detect_terminal()
                &&& final(self).count_empty() == old(self).count_empty() - 1
                &&& *final(self) == old(self).spec_place(m.row as int, m.col as int)
            },
            old(self).wf() ==> final(self).wf(),
    {
        if self.result.is_some() {
            return Ok(());
        }
        if m.col > 2 || m.row > 2 {
            return Err(MoveError::OutOfBounds);
        }
        if self.rows[m.row][m.col].is_some() {
            return Err(MoveError::CellOccupied);
        }
        self.rows[m.row][m.col] = Some(self.turn);
        self.turn = match self.turn {
            Player::X => Player::O,
            Player::O => Player::X,
        };
        self.result = self.check_winner();
        proof {
            let bp = old(self).spec_place(m.row as int, m.col as int);
            assert forall|r: int| 0 <= r < 3 implies self.rows@[r] == bp.rows@[r] by {
                assert(self.rows@[r]@ =~= bp.rows@[r]@);
            }
            assert(self.rows@ =~= bp.rows@);
            assert(self.rows == bp.rows);
        }
        Ok(())
    }

    /// Check if there is a winner.
    pub fn check_winner(&self) -> (r: Option<GameResult>)
        ensures
            r == self.detect_terminal(),
    {
        let mut winner: Option<GameResult> = None;

        if equals_three(self.rows[0][0], self.rows[0][1], self.rows[0][2]) {
            winner = Some(GameResult::P(self.rows[0][0].unwrap()));
        }
        if equals_three(self.rows[1][0], self.rows[1][1], self.rows[1][2]) {
            winner = Some(GameResult::P(self.rows[1][0].unwrap()));
        }
        if equals_three(self.rows[2][0], self.rows[2][1], self.rows[2][2]) {
            winner = Some(GameResult::P(self.rows[2][0].unwrap()));
        }

        if equals_three(self.rows[0][0], self.rows[1][0], self.rows[2][0]) {
            winner = Some(GameResult::P(self.rows[0][0].unwrap()));
        }
        if equals_three(self.rows[0][1], self.rows[1][1], self.rows[2][1]) {
            winner = Some(GameResult::P(self.rows[0][1].unwrap()));
        }
        if equals_three(self.rows[0][2], self.rows[1][2], self.rows[2][2]) {
            winner = Some(GameResult::P(self.rows[0][2].unwrap()));
        }

        if equals_three(self.rows[0][0], self.rows[1][1], self.rows[2][2]) {
            winner = Some(GameResult::P(self.rows[1][1].unwrap()));
        }
        if equals_three(self.rows[0][2], self.rows[1][1], self.rows[2][0]) {
            winner = Some(GameResult::P(self.rows[1][1].unwrap()));
        }

        let full = self.rows[0][0].is_some() && self.rows[0][1].is_some()
            && self.rows[0][2].is_some() && self.rows[1][0].is_some() && self.rows[1][1].is_some()
            && self.rows[1][2].is_some() && self.rows[2][0].is_some() && self.rows[2][1].is_some()
            && self.rows[2][2].is_some();

        if winner.is_none() && full {
            Some(GameResult::Tie)
        } else {
            winner
        }
    }
}

/// Check if three values equals each other (and are occupied).
fn equals_three(a: Option<Player>, b: Option<Player>, c: Option<Player>) -> (r: bool)
    ensures
        r == three_equal(a, b, c),
{
    match (a, b, c) {
        (Some(x), Some(y), Some(z)) => x == y && y == z,
        _ => false,
    }
}

/// Convert a cell to the text shown for it.
pub fn cell_to_string(cell: Option<Player>) -> (s: String)
    ensures
        s@ == (match cell {
            Some(Player::X) => "X"@,
            Some(Player::O) => "O"@,
            None => " "@,
        }),
{
    match cell {
        Some(Player::X) => String::from_str("X"),
        Some(Player::O) => String::from_str("O"),
        None => String::from_str(" "),
    }
}

impl GameResult {
    /// The score of this outcome from player `p`'s perspective: +10 when `p`
    /// won, -10 when the other player won, 0 for a tie.
    pub open spec fn spec_score(self, p: Player) -> int {
        match self {
            GameResult::P(player) => if p == player {
                10
            } else {
                -10
            },
            GameResult::Tie => 0,
        }
    }

    /// Returns the current "score" based on who is winning.
    pub fn score(&self, p: Player) -> (s: i32)
        ensures
            s as int == self.spec_score(p),
    {
        match self {
            GameResult::P(player) => if p == *player {
                10
            } else {
                -10
            },
            GameResult::Tie => 0,
        }
    }
}

/// The terminal-detection law: the grid shows nothing exactly while no line is
/// complete and some cell is empty; a reported win belongs to a player owning
/// a line; a full grid without a line is a tie; and when exactly one player
/// owns a line, that player is the reported winner.
pub proof fn lemma_detect_terminal(b: Board, p: Player)
    ensures
        (b.detect_terminal() is None) <==> (!b.wins(Player::X) && !b.wins(Player::O) && !b.full()),
        b.detect_terminal() == Some(GameResult::P(p)) ==> b.wins(p),
        (!b.wins(Player::X) && !b.wins(Player::O) && b.full()) ==> b.detect_terminal() == Some(
            GameResult::Tie,
        ),
        b.wins(p) && !b.wins(p.other()) ==> b.detect_terminal() == Some(GameResult::P(p)),
{
}

/// A board whose grid shows no terminal outcome still has an empty cell.
pub proof fn lemma_ongoing_has_empty(b: Board)
    requires
        b.detect_terminal() is None,
    ensures
        b.count_empty() > 0,
{
}

/// The number of empty cells is always between 0 and 9, and is 0 exactly on a
/// full grid.
pub proof fn lemma_count_empty_range(b: Board)
    ensures
        0 <= b.count_empty() <= 9,
        b.full() <==> b.count_empty() == 0,
{
}

/// Placing a mark, cell by cell: the target cell takes the mover's identity,
/// every other cell is untouched, the turn flips, the stored result matches
/// the new grid, and marking an empty cell lowers the empty count by one.
pub proof fn lemma_place_cells(b: Board, r: int, c: int)
    requires
        0 <= r < 3,
        0 <= c < 3,
    ensures
        b.spec_place(r, c).turn == b.turn.other(),
        b.spec_place(r, c).cell(r, c) == Some(b.turn),
        forall|i: int, j: int|
            0 <= i < 3 && 0 <= j < 3 && !(i == r && j == c) ==> b.spec_place(r, c).cell(i, j)
                == b.cell(i, j),
        b.cell(r, c) is None ==> b.spec_place(r, c).count_empty() == b.count_empty() - 1,
        b.spec_place(r, c).result == b.spec_place(r, c).detect_terminal(),
{
}

/// The symmetry law for terminal classification: a quarter-turn or a mirror
/// of the grid maps lines to lines, so which player owns a completed line,
/// whether the grid is full, and how many cells are empty are all unchanged.
/// The grid's whole symmetry group is generated by these two transforms.
pub proof fn lemma_symmetry(a: Board, b: Board, p: Player)
    requires
        a.is_rotation_of(b) || a.is_mirror_of(b),
    ensures
        a.wins(p) == b.wins(p),
        a.full() == b.full(),
        a.count_empty() == b.count_empty(),
{
}

} // verus!
