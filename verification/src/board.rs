//! The board model: cells, the eight winning lines, and the spec-level
//! notions of winner and fullness that the rest of the engine is stated
//! against.

use vstd::prelude::*;

verus! {

/// One cell of the 3x3 grid: empty, or marked by the human player (`X`)
/// or the computer (`O`).
#[derive(Clone, Copy, Debug, PartialEq, Eq, Structural)]
pub enum Cell {
    Empty,
    X,
    O,
}

/// The k-th winning line as a triple of cell indices, in the fixed scan
/// order: the three rows, then the three columns, then the two diagonals.
pub open spec fn tri(k: int) -> (int, int, int) {
    if k == 0 {
        (0, 1, 2)
    } else if k == 1 {
        (3, 4, 5)
    } else if k == 2 {
        (6, 7, 8)
    } else if k == 3 {
        (0, 3, 6)
    } else if k == 4 {
        (1, 4, 7)
    } else if k == 5 {
        (2, 5, 8)
    } else if k == 6 {
        (0, 4, 8)
    } else {
        (2, 4, 6)
    }
}

/// The k-th winning line holds three equal, non-empty cells.
pub open spec fn win_at(b: Seq<Cell>, k: int) -> bool {
    &&& b[tri(k).0] != Cell::Empty
    &&& b[tri(k).0] == b[tri(k).1]
    &&& b[tri(k).1] == b[tri(k).2]
}

/// The first index in k..8 of a winning line, or 8 if none of the
/// remaining lines wins.
pub open spec fn first_win_from(b: Seq<Cell>, k: int) -> int
    decreases 8 - k,
{
    if k < 0 || k >= 8 {
        8
    } else if win_at(b, k) {
        k
    } else {
        first_win_from(b, k + 1)
    }
}

/// The first winning line of the whole scan, or 8 if there is none.
pub open spec fn first_win(b: Seq<Cell>) -> int {
    first_win_from(b, 0)
}

/// The mark of the first winning line found by the fixed scan, if any.
pub open spec fn spec_winner(b: Seq<Cell>) -> Option<Cell> {
    if first_win(b) < 8 {
        Some(b[tri(first_win(b)).0])
    } else {
        None
    }
}

/// No cell of the board is empty.
pub open spec fn board_full(b: Seq<Cell>) -> bool {
    forall|i: int| 0 <= i < 9 ==> b[i] != Cell::Empty
}

/// The game has ended: someone has completed a line, or no cell is left.
pub open spec fn spec_game_over(b: Seq<Cell>) -> bool {
    spec_winner(b) is Some || board_full(b)
}

/// Mark `m` owns some winning line: three `m` cells on one of the eight
/// fixed triples.
pub open spec fn has_win(b: Seq<Cell>, m: Cell) -> bool {
    m != Cell::Empty && exists|k: int| 0 <= k < 8 && #[trigger] win_at(b, k) && b[tri(k).0] == m
}

/// `first_win_from` lands on a winning line when one exists at or after
/// `k`, and skips exactly the non-winning lines before it.
pub proof fn lemma_first_win_from(b: Seq<Cell>, k: int)
    requires
        0 <= k <= 8,
    ensures
        k <= first_win_from(b, k) <= 8,
        first_win_from(b, k) < 8 ==> win_at(b, first_win_from(b, k)),
        forall|j: int| k <= j < first_win_from(b, k) ==> !win_at(b, j),
    decreases 8 - k,
{
    if k < 8 && !win_at(b, k) {
        lemma_first_win_from(b, k + 1);
    }
}

/// Characterization of the winner scan: it reports a mark exactly when
/// some fixed triple is all that mark and non-empty, and when only one
/// of the two marks owns a line the scan reports that mark.
pub proof fn lemma_winner_characterization(b: Seq<Cell>)
    ensures
        (spec_winner(b) is Some) <==> (has_win(b, Cell::X) || has_win(b, Cell::O)),
        spec_winner(b) matches Some(m) ==> has_win(b, m),
        has_win(b, Cell::X) && !has_win(b, Cell::O) ==> spec_winner(b) == Some(Cell::X),
        has_win(b, Cell::O) && !has_win(b, Cell::X) ==> spec_winner(b) == Some(Cell::O),
{
    lemma_first_win_from(b, 0);
    let fw = first_win(b);
    if fw < 8 {
        let m = b[tri(fw).0];
        assert(win_at(b, fw));
        assert(m != Cell::Empty);
        assert(has_win(b, m));
        assert(m == Cell::X || m == Cell::O);
    } else {
        assert(forall|j: int| 0 <= j < 8 ==> !win_at(b, j));
        if has_win(b, Cell::X) {
            let k = choose|k: int| 0 <= k < 8 && #[trigger] win_at(b, k) && b[tri(k).0] == Cell::X;
            assert(false);
        }
        if has_win(b, Cell::O) {
            let k = choose|k: int| 0 <= k < 8 && #[trigger] win_at(b, k) && b[tri(k).0] == Cell::O;
            assert(false);
        }
    }
}

/// The reported winning line always belongs to the reported winner:
/// both come from the same scan, so when there is a winner the three
/// cells of the first winning triple all hold the winner's mark.
pub proof fn lemma_winning_line_matches_winner(b: Seq<Cell>)
    requires
        first_win(b) < 8,
    ensures
        spec_winner(b) matches Some(m) && {
            let t = tri(first_win(b));
            b[t.0] == m && b[t.1] == m && b[t.2] == m && m != Cell::Empty
        },
{
    lemma_first_win_from(b, 0);
}

/// A reported winner is never the empty mark.
pub proof fn lemma_winner_not_empty(b: Seq<Cell>)
    ensures
        spec_winner(b) != Some(Cell::Empty),
{
    lemma_first_win_from(b, 0);
}

/// The cell indices of the k-th winning line, as executable values.
pub fn line_cells(k: usize) -> (r: (usize, usize, usize))
    requires
        k < 8,
    ensures
        (r.0 as int, r.1 as int, r.2 as int) == tri(k as int),
        r.0 < 9 && r.1 < 9 && r.2 < 9,
{
    if k == 0 {
        (0, 1, 2)
    } else if k == 1 {
        (3, 4, 5)
    } else if k == 2 {
        (6, 7, 8)
    } else if k == 3 {
        (0, 3, 6)
    } else if k == 4 {
        (1, 4, 7)
    } else if k == 5 {
        (2, 5, 8)
    } else if k == 6 {
        (0, 4, 8)
    } else {
        (2, 4, 6)
    }
}

} // verus!
