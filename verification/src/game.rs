//! Turn-loop decisions: choosing marks, evaluating the board after a
//! move, and the automated opponent's move selection.

use crate::board::CellType;
use crate::board::Grid;
use vstd::prelude::*;

verus! {

/// The state of a game derived from the grid: won by a mark, tied, or
/// still in progress.
#[derive(Clone, Copy, PartialEq, Eq, Structural, Debug)]
pub enum GameOutcome {
    Winner(CellType),
    Tie,
    InProgress,
}

/// The outcome the grid is classified as: a winner when some line is
/// fully occupied, else a tie when the grid is full, else in progress.
/// The winner check comes first, so a full grid with a winning line is
/// a win, never a tie.
pub open spec fn spec_outcome(g: Grid) -> GameOutcome {
    if g.spec_winner() is Some {
        GameOutcome::Winner(g.spec_winner()->0)
    } else if g.spec_full() {
        GameOutcome::Tie
    } else {
        GameOutcome::InProgress
    }
}

/// Classifies the grid: winner first, then tie, else in progress.
pub fn evaluate(g: &Grid) -> (r: GameOutcome)
    ensures
        r == spec_outcome(*g),
{
    match g.get_winner() {
        Some(w) => GameOutcome::Winner(w),
        None => {
            if g.is_tie() {
                GameOutcome::Tie
            } else {
                GameOutcome::InProgress
            }
        },
    }
}

/// A grid with a winning line is always classified as a win, never as
/// a tie, even when every cell is occupied.
pub proof fn lemma_win_precedes_tie(g: Grid)
    requires
        g.has_winning_line(),
    ensures
        spec_outcome(g) is Winner,
{
    g.lemma_winner_iff_line();
}

/// The mark a line of text selects: a single letter, "X" or "O",
/// case-insensitively; anything else selects nothing.
pub open spec fn spec_mark_choice(s: Seq<char>) -> Option<CellType> {
    if s.len() == 1 && (s[0] == 'X' || s[0] == 'x') {
        Some(CellType::X)
    } else if s.len() == 1 && (s[0] == 'O' || s[0] == 'o') {
        Some(CellType::O)
    } else {
        None
    }
}

/// Reads the human's mark selection: "X"/"x" or "O"/"o", a single
/// letter. Any other line yields None, and the caller prompts again.
pub fn parse_mark_choice(s: &str) -> (r: Option<CellType>)
    ensures
        r == spec_mark_choice(s@),
{
    if s.unicode_len() != 1 {
        return None;
    }
    let c = s.get_char(0);
    if c == 'X' || c == 'x' {
        Some(CellType::X)
    } else if c == 'O' || c == 'o' {
        Some(CellType::O)
    } else {
        None
    }
}

/// The mark of the other player.
pub open spec fn spec_opposite(m: CellType) -> CellType {
    match m {
        CellType::X => CellType::O,
        CellType::O => CellType::X,
        CellType::Empty => CellType::Empty,
    }
}

/// The mark assigned to the automated opponent once the human has
/// chosen one of the two marks.
pub fn opposite_mark(m: CellType) -> (r: CellType)
    requires
        m != CellType::Empty,
    ensures
        r == spec_opposite(m),
        r != CellType::Empty,
        r != m,
{
    match m {
        CellType::X => CellType::O,
        CellType::O => CellType::X,
        CellType::Empty => CellType::Empty,
    }
}

/// Relies on rand::random: draws a value from the thread-local random
/// number generator. Nothing is promised of the result.
#[verifier::external_body]
fn random_u32() -> (r: u32) {
    rand::random::<u32>()
}

/// The automated opponent's move: picks one of the currently empty
/// cells uniformly at random, places `mark` there, and returns the
/// chosen coordinates. Whatever the random draw was, the chosen cell
/// was empty before the move.
pub fn bot_move(g: &mut Grid, mark: CellType) -> (pos: (usize, usize))
    requires
        mark != CellType::Empty,
        exists|r: int, c: int| 0 <= r < 3 && 0 <= c < 3 && old(g).spec_cell(r, c) == CellType::Empty,
    ensures
        pos.0 < 3,
        pos.1 < 3,
        old(g).spec_cell(pos.0 as int, pos.1 as int) == CellType::Empty,
        *final(g) == old(g).spec_insert(pos.0 as int, pos.1 as int, mark),
{
    let mut empties: Vec<(usize, usize)> = Vec::new();
    let mut i: usize = 0;
    while i < 9
        invariant
            i <= 9,
            *g == *old(g),
            forall|k: int|
                0 <= k < empties@.len() ==> (#[trigger] empties@[k]).0 < 3 && empties@[k].1 < 3
                    && g.spec_cell(empties@[k].0 as int, empties@[k].1 as int) == CellType::Empty,
            forall|r: int, c: int|
                0 <= r < 3 && 0 <= c < 3 && r * 3 + c < i && g.spec_cell(r, c) == CellType::Empty
                    ==> empties@.contains((r as usize, c as usize)),
        decreases 9 - i,
    {
        let row = i / 3;
        let column = i % 3;
        let ghost pre = empties@;
        if g.is_cell_empty(row, column) {
            empties.push((row, column));
        }
        proof {
            assert forall|r: int, c: int|
                0 <= r < 3 && 0 <= c < 3 && r * 3 + c < i + 1 && g.spec_cell(r, c)
                    == CellType::Empty implies empties@.contains(
                (r as usize, c as usize),
            ) by {
                if r * 3 + c < i {
                    let k = choose|k: int|
                        0 <= k < pre.len() && pre[k] == (r as usize, c as usize);
                    assert(empties@[k] == (r as usize, c as usize));
                } else {
                    vstd::arithmetic::div_mod::lemma_fundamental_div_mod_converse(
                        i as int,
                        3,
                        r,
                        c,
                    );
                    assert(r == row && c == column);
                    assert(empties@[empties@.len() - 1] == (row, column));
                }
            }
        }
        i += 1;
    }
    proof {
        let (r0, c0) = choose|r0: int, c0: int|
            0 <= r0 < 3 && 0 <= c0 < 3 && g.spec_cell(r0, c0) == CellType::Empty;
        assert(r0 * 3 + c0 < 9);
        assert(empties@.contains((r0 as usize, c0 as usize)));
    }
    let k = (random_u32() as usize) % empties.len();
    let (row, column) = empties[k];
    g.insert(row, column, mark);
    (row, column)
}

/// When exactly one cell of the grid is empty, any empty cell the
/// opponent can have chosen is that cell: under the single-remaining-
/// slot edge case the move selection always picks the one open cell.
pub proof fn lemma_single_empty_cell(
    g: Grid,
    row: int,
    column: int,
    chosen_row: int,
    chosen_column: int,
)
    requires
        0 <= row < 3,
        0 <= column < 3,
        0 <= chosen_row < 3,
        0 <= chosen_column < 3,
        g.spec_cell(row, column) == CellType::Empty,
        forall|r: int, c: int|
            0 <= r < 3 && 0 <= c < 3 && !(r == row && c == column) ==> g.spec_cell(r, c)
                != CellType::Empty,
        g.spec_cell(chosen_row, chosen_column) == CellType::Empty,
    ensures
        chosen_row == row && chosen_column == column,
{
}

} // verus!
