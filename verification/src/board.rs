//! The 3x3 grid: cell contents, insertion, occupancy queries, and
//! win / tie detection.

use vstd::prelude::*;

verus! {

/// The contents of one square of the grid: one of the two players'
/// marks, or still empty.
#[derive(Clone, Copy, PartialEq, Eq, Structural, Debug)]
pub enum CellType {
    X,
    O,
    Empty,
}

/// The character that stands for a cell when the grid is drawn.
pub open spec fn spec_character(c: CellType) -> char {
    match c {
        CellType::X => 'X',
        CellType::O => 'O',
        CellType::Empty => ' ',
    }
}

impl CellType {
    /// The character that stands for this cell when the grid is drawn:
    /// the mark's letter, or a blank for an empty cell.
    pub fn get_character(&self) -> (c: char)
        ensures
            c == spec_character(*self),
    {
        match self {
            CellType::X => 'X',
            CellType::O => 'O',
            CellType::Empty => ' ',
        }
    }
}

/// The 3-row by 3-column grid of cells, indices 0..2 on each axis.
pub struct Grid {
    pub cells: [[CellType; 3]; 3],
}

/// The horizontal rule line of the drawn grid.
pub open spec fn spec_border() -> Seq<char> {
    seq![' ', '-', '-', '-', '-', '-', '-', '-', '-', '-', '-', '-', '-', '-', '\n']
}

/// One row of the drawn grid: the row's three cells between bars,
/// followed by a rule line.
pub open spec fn spec_row_text(g: Grid, row: int) -> Seq<char> {
    seq![
        ' ',
        '|',
        ' ',
        spec_character(g.spec_cell(row, 0)),
        ' ',
        '|',
        ' ',
        spec_character(g.spec_cell(row, 1)),
        ' ',
        '|',
        ' ',
        spec_character(g.spec_cell(row, 2)),
        ' ',
        '|',
        '\n',
    ] + spec_border()
}

/// The full drawn grid: a rule line, then the three rows.
pub open spec fn spec_render(g: Grid) -> Seq<char> {
    spec_border() + spec_row_text(g, 0) + spec_row_text(g, 1) + spec_row_text(g, 2)
}

fn push_border(v: &mut Vec<char>)
    ensures
        final(v)@ == old(v)@ + spec_border(),
{
    v.push(' ');
    v.push('-');
    v.push('-');
    v.push('-');
    v.push('-');
    v.push('-');
    v.push('-');
    v.push('-');
    v.push('-');
    v.push('-');
    v.push('-');
    v.push('-');
    v.push('-');
    v.push('-');
    v.push('\n');
    proof {
        assert(v@ =~= old(v)@ + spec_border());
    }
}

fn push_row_text(v: &mut Vec<char>, g: &Grid, row: usize)
    requires
        row < 3,
    ensures
        final(v)@ == old(v)@ + spec_row_text(*g, row as int),
{
    v.push(' ');
    v.push('|');
    v.push(' ');
    v.push(g.cells[row][0].get_character());
    v.push(' ');
    v.push('|');
    v.push(' ');
    v.push(g.cells[row][1].get_character());
    v.push(' ');
    v.push('|');
    v.push(' ');
    v.push(g.cells[row][2].get_character());
    v.push(' ');
    v.push('|');
    v.push('\n');
    push_border(v);
    proof {
        assert(v@ =~= old(v)@ + spec_row_text(*g, row as int));
    }
}

impl Grid {
    /// The cell at (row, column).
    pub open spec fn spec_cell(self, row: int, column: int) -> CellType {
        self.cells[row][column]
    }

    /// Every cell of the grid is empty.
    pub open spec fn spec_all_empty(self) -> bool {
        forall|r: int, c: int|
            0 <= r < 3 && 0 <= c < 3 ==> self.spec_cell(r, c) == CellType::Empty
    }

    /// Every cell of the grid is occupied by a mark.
    pub open spec fn spec_full(self) -> bool {
        forall|r: int, c: int|
            0 <= r < 3 && 0 <= c < 3 ==> self.spec_cell(r, c) != CellType::Empty
    }

    /// Row `row` holds three equal, non-empty marks.
    pub open spec fn row_wins(self, row: int) -> bool {
        &&& self.spec_cell(row, 0) == self.spec_cell(row, 1)
        &&& self.spec_cell(row, 1) == self.spec_cell(row, 2)
        &&& self.spec_cell(row, 0) != CellType::Empty
    }

    /// Column `column` holds three equal, non-empty marks.
    pub open spec fn column_wins(self, column: int) -> bool {
        &&& self.spec_cell(0, column) == self.spec_cell(1, column)
        &&& self.spec_cell(1, column) == self.spec_cell(2, column)
        &&& self.spec_cell(0, column) != CellType::Empty
    }

    /// The main diagonal holds three equal, non-empty marks.
    pub open spec fn diagonal_wins(self) -> bool {
        &&& self.spec_cell(0, 0) == self.spec_cell(1, 1)
        &&& self.spec_cell(1, 1) == self.spec_cell(2, 2)
        &&& self.spec_cell(0, 0) != CellType::Empty
    }

    /// The anti-diagonal holds three equal, non-empty marks.
    pub open spec fn anti_diagonal_wins(self) -> bool {
        &&& self.spec_cell(0, 2) == self.spec_cell(1, 1)
        &&& self.spec_cell(1, 1) == self.spec_cell(2, 0)
        &&& self.spec_cell(0, 2) != CellType::Empty
    }

    /// Some row, column, or diagonal is fully occupied by a single
    /// non-empty mark.
    pub open spec fn has_winning_line(self) -> bool {
        ||| exists|r: int| 0 <= r < 3 && self.row_wins(r)
        ||| exists|c: int| 0 <= c < 3 && self.column_wins(c)
        ||| self.diagonal_wins()
        ||| self.anti_diagonal_wins()
    }

    /// The winner reported for this grid: the mark of the first winning
    /// line in scan order (rows top to bottom, then columns left to
    /// right, then the two diagonals), or None when no line wins.
    pub open spec fn spec_winner(self) -> Option<CellType> {
        if self.row_wins(0) {
            Some(self.spec_cell(0, 0))
        } else if self.row_wins(1) {
            Some(self.spec_cell(1, 0))
        } else if self.row_wins(2) {
            Some(self.spec_cell(2, 0))
        } else if self.column_wins(0) {
            Some(self.spec_cell(0, 0))
        } else if self.column_wins(1) {
            Some(self.spec_cell(0, 1))
        } else if self.column_wins(2) {
            Some(self.spec_cell(0, 2))
        } else if self.diagonal_wins() {
            Some(self.spec_cell(0, 0))
        } else if self.anti_diagonal_wins() {
            Some(self.spec_cell(0, 2))
        } else {
            None
        }
    }

    /// The grid with the cell at (row, column) replaced by `mark` and
    /// every other cell unchanged.
    pub open spec fn spec_insert(self, row: int, column: int, mark: CellType) -> Grid {
        Grid {
            cells: vstd::array::spec_array_update(
                self.cells,
                row,
                vstd::array::spec_array_update(self.cells[row], column, mark),
            ),
        }
    }

    /// A grid with all nine cells empty.
    pub fn new() -> (g: Grid)
        ensures
            g.spec_all_empty(),
    {
        Grid {
            cells: [
                [CellType::Empty, CellType::Empty, CellType::Empty],
                [CellType::Empty, CellType::Empty, CellType::Empty],
                [CellType::Empty, CellType::Empty, CellType::Empty],
            ],
        }
    }

    /// Sets the cell at (row, column) to `cell_type`. The caller must
    /// have checked that the target cell is still empty.
    pub fn insert(&mut self, row: usize, column: usize, cell_type: CellType)
        requires
            row < 3,
            column < 3,
            old(self).spec_cell(row as int, column as int) == CellType::Empty,
        ensures
            *final(self) == old(self).spec_insert(row as int, column as int, cell_type),
            final(self).spec_cell(row as int, column as int) == cell_type,
            forall|r: int, c: int|
                0 <= r < 3 && 0 <= c < 3 && !(r == row && c == column)
                    ==> final(self).spec_cell(r, c) == old(self).spec_cell(r, c),
    {
        proof {
            broadcast use vstd::array::group_array_axioms;

        }
        self.cells[row][column] = cell_type;
        proof {
            assert(self.cells =~= old(self).spec_insert(
                row as int,
                column as int,
                cell_type,
            ).cells);
        }
    }

    /// True iff the cell at (row, column) is still empty.
    pub fn is_cell_empty(&self, row: usize, column: usize) -> (r: bool)
        requires
            row < 3,
            column < 3,
        ensures
            r == (self.spec_cell(row as int, column as int) == CellType::Empty),
    {
        match self.cells[row][column] {
            CellType::Empty => true,
            _ => false,
        }
    }

    /// Scans all rows, then all columns, then the two diagonals, and
    /// returns the mark of the first fully occupied line, or None.
    pub fn get_winner(&self) -> (r: Option<CellType>)
        ensures
            r == self.spec_winner(),
            r is Some <==> self.has_winning_line(),
    {
        proof {
            self.lemma_winner_iff_line();
        }
        for row in 0..3usize
            invariant
                forall|rr: int| 0 <= rr < row ==> !self.row_wins(rr),
        {
            if self.cells[row][0] == self.cells[row][1] && self.cells[row][1] == self.cells[row][2]
                && self.cells[row][0] != CellType::Empty {
                return Some(self.cells[row][0]);
            }
        }
        for column in 0..3usize
            invariant
                forall|rr: int| 0 <= rr < 3 ==> !self.row_wins(rr),
                forall|cc: int| 0 <= cc < column ==> !self.column_wins(cc),
        {
            if self.cells[0][column] == self.cells[1][column] && self.cells[1][column]
                == self.cells[2][column] && self.cells[0][column] != CellType::Empty {
                return Some(self.cells[0][column]);
            }
        }
        if self.cells[0][0] == self.cells[1][1] && self.cells[1][1] == self.cells[2][2]
            && self.cells[0][0] != CellType::Empty {
            return Some(self.cells[0][0]);
        }
        if self.cells[0][2] == self.cells[1][1] && self.cells[1][1] == self.cells[2][0]
            && self.cells[0][2] != CellType::Empty {
            return Some(self.cells[0][2]);
        }
        None
    }

    /// True iff every cell is occupied. A full grid that also holds a
    /// winning line is a win, not a tie, so callers check the winner
    /// first.
    pub fn is_tie(&self) -> (r: bool)
        ensures
            r == self.spec_full(),
    {
        for row in 0..3usize
            invariant
                forall|rr: int, cc: int|
                    0 <= rr < row && 0 <= cc < 3 ==> self.spec_cell(rr, cc) != CellType::Empty,
        {
            for column in 0..3usize
                invariant
                    row < 3,
                    forall|rr: int, cc: int|
                        0 <= rr < row && 0 <= cc < 3 ==> self.spec_cell(rr, cc) != CellType::Empty,
                    forall|cc: int|
                        0 <= cc < column ==> self.spec_cell(row as int, cc) != CellType::Empty,
            {
                match self.cells[row][column] {
                    CellType::Empty => {
                        assert(self.spec_cell(row as int, column as int) == CellType::Empty);
                        return false;
                    },
                    _ => {},
                }
            }
        }
        true
    }

    /// Draws the grid as text: a rule line, then each row with its
    /// cells between bars and a rule line after it, each cell as its
    /// mark character or a blank.
    pub fn render(&self) -> (v: Vec<char>)
        ensures
            v@ == spec_render(*self),
    {
        let mut v: Vec<char> = Vec::new();
        push_border(&mut v);
        push_row_text(&mut v, self, 0);
        push_row_text(&mut v, self, 1);
        push_row_text(&mut v, self, 2);
        proof {
            assert(v@ =~= spec_render(*self));
        }
        v
    }

    /// A winner is reported exactly when some line is fully occupied by
    /// one non-empty mark.
    pub proof fn lemma_winner_iff_line(self)
        ensures
            self.spec_winner() is Some <==> self.has_winning_line(),
    {
    }

    /// Placing a mark occupies the target cell: in the grid that an
    /// insertion of a non-empty mark produces, the inserted cell is no
    /// longer empty.
    pub proof fn lemma_insert_occupies(self, row: int, column: int, mark: CellType)
        requires
            0 <= row < 3,
            0 <= column < 3,
            mark != CellType::Empty,
        ensures
            self.spec_insert(row, column, mark).spec_cell(row, column) != CellType::Empty,
    {
        broadcast use vstd::array::group_array_axioms;

    }

    /// A grid with every cell empty has no winner and is not full.
    pub proof fn lemma_fresh_grid(self)
        requires
            self.spec_all_empty(),
        ensures
            self.spec_winner() is None,
            !self.spec_full(),
    {
        assert(self.spec_cell(0, 0) == CellType::Empty);
        assert(self.spec_cell(0, 1) == CellType::Empty);
        assert(self.spec_cell(0, 2) == CellType::Empty);
        assert(self.spec_cell(1, 0) == CellType::Empty);
        assert(self.spec_cell(1, 1) == CellType::Empty);
        assert(self.spec_cell(1, 2) == CellType::Empty);
        assert(self.spec_cell(2, 0) == CellType::Empty);
        assert(self.spec_cell(2, 2) == CellType::Empty);
    }
}

} // verus!
