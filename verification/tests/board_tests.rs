use tictactoe::board::CellType;
use tictactoe::board::Grid;

fn fill(grid: &mut Grid, cells: [[CellType; 3]; 3]) {
    for row in 0..3 {
        for column in 0..3 {
            if !matches!(cells[row][column], CellType::Empty) {
                grid.insert(row, column, cells[row][column]);
            }
        }
    }
}

#[test]
fn fresh_grid_has_no_winner_and_no_tie() {
    let grid = Grid::new();
    assert_eq!(grid.get_winner(), None);
    assert!(!grid.is_tie());
    for row in 0..3 {
        for column in 0..3 {
            assert!(grid.is_cell_empty(row, column));
        }
    }
}

#[test]
fn insert_occupies_the_cell() {
    let mut grid = Grid::new();
    grid.insert(1, 2, CellType::X);
    assert!(!grid.is_cell_empty(1, 2));
    assert!(grid.is_cell_empty(1, 1));
    assert!(grid.is_cell_empty(2, 2));
}

#[test]
fn row_win_is_detected() {
    let mut grid = Grid::new();
    fill(
        &mut grid,
        [
            [CellType::Empty, CellType::Empty, CellType::Empty],
            [CellType::O, CellType::O, CellType::O],
            [CellType::X, CellType::X, CellType::Empty],
        ],
    );
    assert_eq!(grid.get_winner(), Some(CellType::O));
}

#[test]
fn column_win_is_detected() {
    let mut grid = Grid::new();
    fill(
        &mut grid,
        [
            [CellType::O, CellType::X, CellType::Empty],
            [CellType::O, CellType::X, CellType::Empty],
            [CellType::Empty, CellType::X, CellType::O],
        ],
    );
    assert_eq!(grid.get_winner(), Some(CellType::X));
}

#[test]
fn diagonal_win_is_detected() {
    let mut grid = Grid::new();
    fill(
        &mut grid,
        [
            [CellType::X, CellType::O, CellType::Empty],
            [CellType::O, CellType::X, CellType::Empty],
            [CellType::Empty, CellType::Empty, CellType::X],
        ],
    );
    assert_eq!(grid.get_winner(), Some(CellType::X));
}

#[test]
fn anti_diagonal_win_reports_the_winning_mark() {
    // The winning mark sits on the anti-diagonal; the top-left cell
    // holds the other mark and must not be reported.
    let mut grid = Grid::new();
    fill(
        &mut grid,
        [
            [CellType::X, CellType::Empty, CellType::O],
            [CellType::X, CellType::O, CellType::Empty],
            [CellType::O, CellType::Empty, CellType::Empty],
        ],
    );
    assert_eq!(grid.get_winner(), Some(CellType::O));
}

#[test]
fn no_winner_on_a_mixed_open_grid() {
    let mut grid = Grid::new();
    fill(
        &mut grid,
        [
            [CellType::X, CellType::O, CellType::Empty],
            [CellType::O, CellType::X, CellType::Empty],
            [CellType::Empty, CellType::Empty, CellType::O],
        ],
    );
    assert_eq!(grid.get_winner(), None);
    assert!(!grid.is_tie());
}

#[test]
fn full_grid_without_three_in_a_row_is_a_tie() {
    let mut grid = Grid::new();
    fill(
        &mut grid,
        [
            [CellType::X, CellType::X, CellType::O],
            [CellType::O, CellType::O, CellType::X],
            [CellType::X, CellType::X, CellType::O],
        ],
    );
    assert_eq!(grid.get_winner(), None);
    assert!(grid.is_tie());
}

#[test]
fn full_grid_with_a_winning_line_still_reports_the_winner() {
    let mut grid = Grid::new();
    fill(
        &mut grid,
        [
            [CellType::X, CellType::X, CellType::X],
            [CellType::O, CellType::O, CellType::X],
            [CellType::X, CellType::O, CellType::O],
        ],
    );
    assert!(grid.is_tie());
    assert_eq!(grid.get_winner(), Some(CellType::X));
}

#[test]
fn mark_characters() {
    assert_eq!(CellType::X.get_character(), 'X');
    assert_eq!(CellType::O.get_character(), 'O');
    assert_eq!(CellType::Empty.get_character(), ' ');
}

#[test]
fn render_draws_the_fixed_grid() {
    let mut grid = Grid::new();
    grid.insert(0, 0, CellType::X);
    grid.insert(1, 1, CellType::O);
    let text: String = grid.render().into_iter().collect();
    let expected = " -------------\n | X |   |   |\n -------------\n |   | O |   |\n -------------\n |   |   |   |\n -------------\n";
    assert_eq!(text, expected);
}
