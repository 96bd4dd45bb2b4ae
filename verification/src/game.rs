//! The game state and its public operations: creating and resetting a
//! game, applying a move, and the read-only projections of the board
//! that a hosting layer displays.

use vstd::prelude::*;
use crate::board::{
    Cell, board_full, first_win, first_win_from, lemma_winner_not_empty, line_cells,
    spec_game_over, spec_winner, tri, win_at,
};

verus! {

/// Full game state: the 9-cell board in row-major order, and whose turn
/// it is.
#[derive(Clone, Copy, Debug)]
pub struct GameState {
    pub board: [Cell; 9],
    pub current_player: Cell,
}

/// Outcome of applying or proposing a move: the chosen index, whether
/// the game has ended, and the winner and its line for highlighting.
#[derive(Clone, Debug)]
pub struct MoveResult {
    pub position: Option<usize>,
    pub game_over: bool,
    pub winner: Option<String>,
    pub winning_line: Option<Vec<usize>>,
}

/// Why a move was rejected: the index is off the board, or the target
/// cell already holds a mark.
#[derive(Clone, Copy, Debug, PartialEq, Eq, Structural)]
pub enum ErrorKind {
    OutOfRange,
    CellOccupied,
}

/// A freshly created or reset state: all cells empty, `X` to move.
pub open spec fn is_initial(s: GameState) -> bool {
    &&& s.current_player == Cell::X
    &&& forall|i: int| 0 <= i < 9 ==> s.board@[i] == Cell::Empty
}

/// The mark that a move request written as text stands for: exactly
/// `"X"` plays `X`; anything else plays `O`.
pub open spec fn mark_of(p: Seq<char>) -> Cell {
    if p == "X"@ {
        Cell::X
    } else {
        Cell::O
    }
}

/// The display text of one cell.
pub open spec fn cell_text(c: Cell) -> Seq<char> {
    match c {
        Cell::Empty => ""@,
        Cell::X => "X"@,
        Cell::O => "O"@,
    }
}

/// The winner rendered as text, as `get_winner` reports it.
pub open spec fn winner_text_ok(b: Seq<Cell>, r: Option<String>) -> bool {
    &&& (r is Some) == (spec_winner(b) is Some)
    &&& spec_winner(b) == Some(Cell::X) ==> (r matches Some(w) && w@ == "X"@)
    &&& spec_winner(b) == Some(Cell::O) ==> (r matches Some(w) && w@ == "O"@)
}

/// The reported winning line is exactly the first winning triple of the
/// fixed scan, when one exists.
pub open spec fn winning_line_ok(b: Seq<Cell>, r: Option<Vec<usize>>) -> bool {
    &&& (r is Some) == (first_win(b) < 8)
    &&& (r matches Some(v) ==> {
        &&& v@.len() == 3
        &&& v@[0] as int == tri(first_win(b)).0
        &&& v@[1] as int == tri(first_win(b)).1
        &&& v@[2] as int == tri(first_win(b)).2
    })
}

impl GameState {
    /// A fresh game: empty board, `X` to move.
    pub fn new() -> (r: GameState)
        ensures
            is_initial(r),
    {
        GameState {
            board: [
                Cell::Empty,
                Cell::Empty,
                Cell::Empty,
                Cell::Empty,
                Cell::Empty,
                Cell::Empty,
                Cell::Empty,
                Cell::Empty,
                Cell::Empty,
            ],
            current_player: Cell::X,
        }
    }

    /// Clears the board back to the state `new` produces.
    pub fn reset(&mut self)
        ensures
            is_initial(*final(self)),
    {
        self.board = [
            Cell::Empty,
            Cell::Empty,
            Cell::Empty,
            Cell::Empty,
            Cell::Empty,
            Cell::Empty,
            Cell::Empty,
            Cell::Empty,
            Cell::Empty,
        ];
        self.current_player = Cell::X;
    }

    /// Whether `position` is on the board and its cell is still empty;
    /// an off-board index answers `false` rather than failing.
    pub fn is_empty(&self, position: usize) -> (r: bool)
        ensures
            r == (position < 9 && self.board@[position as int] == Cell::Empty),
    {
        position < 9 && self.board[position] == Cell::Empty
    }

    /// The mark of the first winning line in the fixed scan order, or
    /// `None` when no line is complete.
    pub fn check_winner(&self) -> (r: Option<Cell>)
        ensures
            r == spec_winner(self.board@),
    {
        let mut k: usize = 0;
        while k < 8
            invariant
                0 <= k <= 8,
                first_win(self.board@) == first_win_from(self.board@, k as int),
            decreases 8 - k,
        {
            let (a, b, c) = line_cells(k);
            let va = self.board[a];
            if va != Cell::Empty && va == self.board[b] && self.board[b] == self.board[c] {
                assert(win_at(self.board@, k as int));
                return Some(va);
            }
            assert(!win_at(self.board@, k as int));
            k += 1;
        }
        None
    }

    /// The first winning triple of the fixed scan, for highlighting; the
    /// same scan order as `check_winner`, so the line always belongs to
    /// the reported winner.
    pub fn get_winning_line(&self) -> (r: Option<Vec<usize>>)
        ensures
            winning_line_ok(self.board@, r),
    {
        let mut k: usize = 0;
        while k < 8
            invariant
                0 <= k <= 8,
                first_win(self.board@) == first_win_from(self.board@, k as int),
            decreases 8 - k,
        {
            let (a, b, c) = line_cells(k);
            let va = self.board[a];
            if va != Cell::Empty && va == self.board[b] && self.board[b] == self.board[c] {
                assert(win_at(self.board@, k as int));
                let mut v: Vec<usize> = Vec::new();
                v.push(a);
                v.push(b);
                v.push(c);
                return Some(v);
            }
            assert(!win_at(self.board@, k as int));
            k += 1;
        }
        None
    }

    /// No empty cell is left.
    pub fn is_board_full(&self) -> (r: bool)
        ensures
            r == board_full(self.board@),
    {
        let mut i: usize = 0;
        while i < 9
            invariant
                0 <= i <= 9,
                forall|j: int| 0 <= j < i ==> self.board@[j] != Cell::Empty,
            decreases 9 - i,
        {
            if self.board[i] == Cell::Empty {
                return false;
            }
            i += 1;
        }
        true
    }

    /// The game has ended: a line is complete or the board is full.
    pub fn is_game_over(&self) -> (r: bool)
        ensures
            r == spec_game_over(self.board@),
    {
        self.check_winner().is_some() || self.is_board_full()
    }

    /// The winner as display text, when there is one.
    pub fn get_winner(&self) -> (r: Option<String>)
        ensures
            winner_text_ok(self.board@, r),
    {
        match self.check_winner() {
            None => None,
            Some(Cell::X) => Some("X".to_string()),
            Some(Cell::O) => Some("O".to_string()),
            Some(Cell::Empty) => {
                proof {
                    lemma_winner_not_empty(self.board@);
                }
                None
            },
        }
    }

    /// Applies one move. An off-board index is rejected with
    /// `OutOfRange` and an occupied cell with `CellOccupied`, in both
    /// cases without touching the board; otherwise exactly the chosen
    /// cell is set and the outcome reports the terminal state of the
    /// board that results.
    pub fn make_move(&mut self, position: usize, player: String) -> (r: Result<
        MoveResult,
        ErrorKind,
    >)
        ensures
            position >= 9 ==> (r matches Err(e) && e == ErrorKind::OutOfRange) && *final(self)
                == *old(self),
            position < 9 && old(self).board@[position as int] != Cell::Empty ==> (r matches Err(e)
                && e == ErrorKind::CellOccupied) && *final(self) == *old(self),
            position < 9 && old(self).board@[position as int] == Cell::Empty ==> {
                &&& final(self).board@ == old(self).board@.update(
                    position as int,
                    mark_of(player@),
                )
                &&& final(self).current_player == old(self).current_player
                &&& (r matches Ok(m) && {
                    &&& m.position == Some(position)
                    &&& m.game_over == spec_game_over(final(self).board@)
                    &&& winner_text_ok(final(self).board@, m.winner)
                    &&& winning_line_ok(final(self).board@, m.winning_line)
                })
            },
    {
        if position >= 9 {
            return Err(ErrorKind::OutOfRange);
        }
        if self.board[position] != Cell::Empty {
            return Err(ErrorKind::CellOccupied);
        }

        let x_text: String = "X".to_string();
        let cell = if player == x_text {
            Cell::X
        } else {
            Cell::O
        };
        self.board[position] = cell;

        let result = MoveResult {
            position: Some(position),
            game_over: self.is_game_over(),
            winner: self.get_winner(),
            winning_line: self.get_winning_line(),
        };
        Ok(result)
    }

    /// The nine cells rendered as display text, row-major.
    pub fn get_board(&self) -> (r: Vec<String>)
        ensures
            r@.len() == 9,
            forall|i: int| 0 <= i < 9 ==> #[trigger] r@[i]@ == cell_text(self.board@[i]),
    {
        let mut v: Vec<String> = Vec::new();
        let mut i: usize = 0;
        while i < 9
            invariant
                0 <= i <= 9,
                v@.len() == i,
                forall|j: int| 0 <= j < i ==> #[trigger] v@[j]@ == cell_text(self.board@[j]),
            decreases 9 - i,
        {
            let s = match self.board[i] {
                Cell::Empty => "".to_string(),
                Cell::X => "X".to_string(),
                Cell::O => "O".to_string(),
            };
            v.push(s);
            i += 1;
        }
        v
    }
}

/// Any two initial states agree on every cell and on the player to
/// move: resetting a board, whatever it held, yields exactly the state
/// a fresh game starts in.
pub proof fn lemma_initial_states_agree(a: GameState, b: GameState)
    requires
        is_initial(a),
        is_initial(b),
    ensures
        a.board@ =~= b.board@,
        a.current_player == b.current_player,
{
}

} // verus!
