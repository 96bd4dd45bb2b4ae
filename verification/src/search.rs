//! The search engine: depth-limited minimax with alpha-beta pruning
//! over the board model, and the line-count heuristic used when the
//! depth budget runs out before the position is terminal.
//!
//! The executable search is proved equal to a spec-level transcript of
//! the same algorithm (`spec_minimax`), so the chosen cell and score
//! are a pure function of the board, the mark to move, the depth and
//! the bounds: the search is deterministic.

use vstd::prelude::*;
use crate::board::{Cell, board_full, line_cells, spec_winner, tri};
use crate::game::{GameState, MoveResult};

verus! {

/// The depth budget that a difficulty name buys: "easy" searches 2
/// plies, "medium" 4, and anything else the full 9.
pub open spec fn depth_for(difficulty: Seq<char>) -> int {
    if difficulty == "easy"@ {
        2
    } else if difficulty == "medium"@ {
        4
    } else {
        9
    }
}

/// The cell the computer chooses on a board at a given difficulty: the
/// move component of the root search, with the computer as maximizer
/// and the bounds wide open.
pub open spec fn spec_ai_position(b: Seq<Cell>, difficulty: Seq<char>) -> Option<int> {
    spec_minimax(b, Cell::O, depth_for(difficulty), i32::MIN as int, i32::MAX as int, true).0
}

/// 1 when the cell holds mark `m`, else 0.
pub open spec fn mark_count(c: Cell, m: Cell) -> int {
    if c == m {
        1
    } else {
        0
    }
}

/// How many of the three given cells hold mark `m`.
pub open spec fn line_count(b: Seq<Cell>, a: int, bb: int, c: int, m: Cell) -> int {
    mark_count(b[a], m) + mark_count(b[bb], m) + mark_count(b[c], m)
}

/// The heuristic value of one line: 0 when both marks appear or none
/// does, `+k*k` for `k` computer marks alone, `-k*k` for `k` human
/// marks alone.
pub open spec fn line_score(b: Seq<Cell>, a: int, bb: int, c: int) -> int {
    let o = line_count(b, a, bb, c, Cell::O);
    let x = line_count(b, a, bb, c, Cell::X);
    if x > 0 && o > 0 {
        0
    } else if o > 0 {
        o * o
    } else if x > 0 {
        -(x * x)
    } else {
        0
    }
}

/// The sum of the line scores of the first `k` winning lines.
pub open spec fn score_prefix(b: Seq<Cell>, k: int) -> int
    decreases k,
{
    if k <= 0 {
        0
    } else {
        score_prefix(b, k - 1) + line_score(b, tri(k - 1).0, tri(k - 1).1, tri(k - 1).2)
    }
}

/// The board heuristic: the sum over all eight winning lines.
pub open spec fn heuristic(b: Seq<Cell>) -> int {
    score_prefix(b, 8)
}

/// The mark the other side plays.
pub open spec fn spec_other(player: Cell) -> Cell {
    if player == Cell::X {
        Cell::O
    } else {
        Cell::X
    }
}

/// The value of the minimax search from a position: terminal positions
/// score `10 - depth` for a computer win and `-10 + depth` for a human
/// win, a full board draws at 0, an exhausted depth budget falls back
/// to the heuristic, and otherwise the empty cells are tried in
/// ascending order under alpha-beta bounds (`spec_search_scan`).
pub open spec fn spec_minimax(
    b: Seq<Cell>,
    player: Cell,
    depth: int,
    alpha: int,
    beta: int,
    is_maximizing: bool,
) -> (Option<int>, int)
    decreases depth, 10int,
{
    match spec_winner(b) {
        Some(w) => (
            None::<int>,
            if w == Cell::O {
                10 - depth
            } else {
                -10 + depth
            },
        ),
        None => if board_full(b) {
            (None::<int>, 0)
        } else if depth <= 0 {
            (None::<int>, heuristic(b))
        } else {
            spec_search_scan(
                b,
                player,
                depth,
                alpha,
                beta,
                is_maximizing,
                0,
                None::<int>,
                if is_maximizing {
                    i32::MIN as int
                } else {
                    i32::MAX as int
                },
            )
        },
    }
}

/// The candidate scan of one search node, starting at cell `i` with the
/// best move and score seen so far: each empty cell is tried in
/// ascending order, a strictly better score takes over (so ties keep
/// the first index encountered), the alpha or beta bound is tightened,
/// and the scan stops early as soon as `beta <= alpha`.
pub open spec fn spec_search_scan(
    b: Seq<Cell>,
    player: Cell,
    depth: int,
    alpha: int,
    beta: int,
    is_maximizing: bool,
    i: int,
    best_move: Option<int>,
    best_score: int,
) -> (Option<int>, int)
    decreases depth, 9 - i,
{
    if depth < 1 || i < 0 || i >= 9 {
        (best_move, best_score)
    } else if b[i] != Cell::Empty {
        spec_search_scan(b, player, depth, alpha, beta, is_maximizing, i + 1, best_move, best_score)
    } else {
        let child = spec_minimax(
            b.update(i, player),
            spec_other(player),
            depth - 1,
            alpha,
            beta,
            !is_maximizing,
        );
        let score = child.1;
        if is_maximizing {
            let new_best = if score > best_score {
                (Some(i), score)
            } else {
                (best_move, best_score)
            };
            let new_alpha = if new_best.1 > alpha {
                new_best.1
            } else {
                alpha
            };
            if beta <= new_alpha {
                new_best
            } else {
                spec_search_scan(
                    b,
                    player,
                    depth,
                    new_alpha,
                    beta,
                    is_maximizing,
                    i + 1,
                    new_best.0,
                    new_best.1,
                )
            }
        } else {
            let new_best = if score < best_score {
                (Some(i), score)
            } else {
                (best_move, best_score)
            };
            let new_beta = if new_best.1 < beta {
                new_best.1
            } else {
                beta
            };
            if new_beta <= alpha {
                new_best
            } else {
                spec_search_scan(
                    b,
                    player,
                    depth,
                    alpha,
                    new_beta,
                    is_maximizing,
                    i + 1,
                    new_best.0,
                    new_best.1,
                )
            }
        }
    }
}

/// A chosen cell index widened to the mathematical integers.
pub open spec fn opt_int(o: Option<usize>) -> Option<int> {
    match o {
        Some(i) => Some(i as int),
        None => None::<int>,
    }
}

impl GameState {
    /// The heuristic value of one line, by its three cell indices.
    pub fn evaluate_line(&self, a: usize, b: usize, c: usize) -> (r: i32)
        requires
            a < 9,
            b < 9,
            c < 9,
        ensures
            r as int == line_score(self.board@, a as int, b as int, c as int),
            -9 <= r <= 9,
    {
        let mut o_count: i32 = 0;
        let mut x_count: i32 = 0;

        match self.board[a] {
            Cell::O => o_count += 1,
            Cell::X => x_count += 1,
            Cell::Empty => (),
        }
        match self.board[b] {
            Cell::O => o_count += 1,
            Cell::X => x_count += 1,
            Cell::Empty => (),
        }
        match self.board[c] {
            Cell::O => o_count += 1,
            Cell::X => x_count += 1,
            Cell::Empty => (),
        }

        assert(o_count as int == line_count(self.board@, a as int, b as int, c as int, Cell::O));
        assert(x_count as int == line_count(self.board@, a as int, b as int, c as int, Cell::X));
        assert(0 <= o_count * o_count <= 9 && o_count * o_count == (o_count as int) * (
        o_count as int)) by (nonlinear_arith)
            requires
                0 <= o_count <= 3,
        ;
        assert(0 <= x_count * x_count <= 9 && x_count * x_count == (x_count as int) * (
        x_count as int)) by (nonlinear_arith)
            requires
                0 <= x_count <= 3,
        ;

        if x_count > 0 && o_count > 0 {
            0
        } else if o_count > 0 {
            o_count * o_count
        } else if x_count > 0 {
            -(x_count * x_count)
        } else {
            0
        }
    }

    /// The heuristic value of the whole position: the sum over the
    /// eight winning lines.
    pub fn evaluate_board(&self) -> (r: i32)
        ensures
            r as int == heuristic(self.board@),
            -72 <= r <= 72,
    {
        let mut score: i32 = 0;
        let mut k: usize = 0;
        while k < 8
            invariant
                0 <= k <= 8,
                score as int == score_prefix(self.board@, k as int),
                -9 * (k as int) <= score as int <= 9 * (k as int),
            decreases 8 - k,
        {
            let (a, b, c) = line_cells(k);
            let line_value = self.evaluate_line(a, b, c);
            score += line_value;
            k += 1;
        }
        score
    }

    /// Minimax search with alpha-beta pruning. The result is exactly
    /// the spec-level transcript `spec_minimax` of the same position
    /// and bounds, and a chosen index is always an empty cell on the
    /// board.
    pub fn minimax(&self, player: Cell, depth: i32, alpha: i32, beta: i32, is_maximizing: bool) -> (r: (
        Option<usize>,
        i32,
    ))
        requires
            0 <= depth,
        ensures
            (opt_int(r.0), r.1 as int) == spec_minimax(
                self.board@,
                player,
                depth as int,
                alpha as int,
                beta as int,
                is_maximizing,
            ),
            r.0 matches Some(i) ==> i < 9 && self.board@[i as int] == Cell::Empty,
        decreases depth,
    {
        if let Some(winner) = self.check_winner() {
            let score: i32 = if winner == Cell::O {
                10
            } else {
                -10
            };
            let adjusted_score: i32 = if score > 0 {
                score - depth
            } else {
                score + depth
            };
            return (None, adjusted_score);
        }

        if self.is_board_full() {
            return (None, 0);
        }

        if depth == 0 {
            return (None, self.evaluate_board());
        }

        let mut a: i32 = alpha;
        let mut bt: i32 = beta;
        let mut best_move: Option<usize> = None;
        let mut best_score: i32 = if is_maximizing {
            i32::MIN
        } else {
            i32::MAX
        };

        let ghost target = spec_search_scan(
            self.board@,
            player,
            depth as int,
            alpha as int,
            beta as int,
            is_maximizing,
            0,
            None::<int>,
            best_score as int,
        );

        let mut i: usize = 0;
        while i < 9
            invariant_except_break
                0 <= i <= 9,
                1 <= depth,
                spec_search_scan(
                    self.board@,
                    player,
                    depth as int,
                    a as int,
                    bt as int,
                    is_maximizing,
                    i as int,
                    opt_int(best_move),
                    best_score as int,
                ) == target,
                best_move matches Some(j) ==> j < 9 && self.board@[j as int] == Cell::Empty,
            ensures
                (opt_int(best_move), best_score as int) == target,
                best_move matches Some(j) ==> j < 9 && self.board@[j as int] == Cell::Empty,
            decreases 9 - i,
        {
            if self.board[i] == Cell::Empty {
                let mut new_state = self.clone();
                new_state.board[i] = player;
                assert(new_state.board@ == self.board@.update(i as int, player));

                let next_player = if player == Cell::X {
                    Cell::O
                } else {
                    Cell::X
                };
                let (_, score) = new_state.minimax(next_player, depth - 1, a, bt, !is_maximizing);

                if is_maximizing {
                    if score > best_score {
                        best_score = score;
                        best_move = Some(i);
                    }
                    if best_score > a {
                        a = best_score;
                    }
                } else {
                    if score < best_score {
                        best_score = score;
                        best_move = Some(i);
                    }
                    if best_score < bt {
                        bt = best_score;
                    }
                }

                if bt <= a {
                    break ;
                }
            }
            i += 1;
        }

        (best_move, best_score)
    }

    /// The computer's move for the given difficulty: the root search
    /// with the computer as maximizer. Only the chosen index is
    /// reported; the terminal fields stay unset and the caller
    /// re-derives them after applying the move.
    pub fn get_ai_move(&self, difficulty: String) -> (r: MoveResult)
        ensures
            opt_int(r.position) == spec_ai_position(self.board@, difficulty@),
            r.position matches Some(i) ==> i < 9 && self.board@[i as int] == Cell::Empty,
            r.game_over == false,
            r.winner is None,
            r.winning_line is None,
    {
        let easy_text: String = "easy".to_string();
        let medium_text: String = "medium".to_string();
        let max_depth: i32 = if difficulty == easy_text {
            2
        } else if difficulty == medium_text {
            4
        } else {
            9
        };

        let (best_move, _score) = self.minimax(Cell::O, max_depth, i32::MIN, i32::MAX, true);

        MoveResult {
            position: best_move,
            game_over: false,
            winner: None,
            winning_line: None,
        }
    }
}

/// The search has no hidden inputs: on equal boards at an equal
/// difficulty the computer chooses the same cell, every time.
pub proof fn lemma_ai_move_deterministic(
    b1: Seq<Cell>,
    b2: Seq<Cell>,
    d1: Seq<char>,
    d2: Seq<char>,
)
    requires
        b1 == b2,
        d1 == d2,
    ensures
        spec_ai_position(b1, d1) == spec_ai_position(b2, d2),
{
}

} // verus!
