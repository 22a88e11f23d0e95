//! Finding four marks of one player in a line.

use vstd::prelude::*;
use crate::cell::{Cell, Player};
use crate::board::{Board, Grid, COLUMNS, ROWS, in_bounds, grid_wf, grid_with, empty_grid,
    marks_in_column,
    marks_in_grid, mark_count, lemma_column_marks_monotone, lemma_grid_marks_monotone,
    lemma_empty_grid_has_no_marks};

verus! {

/// The directions in which a line of four runs from its first cell.
#[derive(Clone, Copy, Debug, PartialEq, Eq, Structural)]
pub enum Direction {
    /// Towards the higher columns, in one row.
    Horizontal,
    /// Towards the bottom, in one column.
    Vertical,
    /// One column higher and one row lower with each cell.
    DiagonalDownRight,
    /// One column lower and one row lower with each cell.
    DiagonalDownLeft,
}

impl Direction {
    /// How far the column moves from one cell of the line to the next.
    pub open spec fn col_step(self) -> int {
        match self {
            Direction::Horizontal => 1,
            Direction::Vertical => 0,
            Direction::DiagonalDownRight => 1,
            Direction::DiagonalDownLeft => -1,
        }
    }

    /// How far the row moves from one cell of the line to the next.
    pub open spec fn row_step(self) -> int {
        match self {
            Direction::Horizontal => 0,
            Direction::Vertical => 1,
            Direction::DiagonalDownRight => 1,
            Direction::DiagonalDownLeft => 1,
        }
    }
}

/// The line of four that starts at `(col, row)` and runs in `dir` lies on
/// the board.
pub open spec fn line_fits(col: int, row: int, dir: Direction) -> bool {
    in_bounds(col, row) && in_bounds(col + 3 * dir.col_step(), row + 3 * dir.row_step())
}

/// The cell `k` steps along the line.
pub open spec fn line_cell(g: Grid, col: int, row: int, dir: Direction, k: int) -> Cell {
    g[col + k * dir.col_step()][row + k * dir.row_step()]
}

/// The player who holds all four cells of the line, if the line lies on the
/// board and one player does.
pub open spec fn line_owner(g: Grid, col: int, row: int, dir: Direction) -> Option<Player> {
    if line_fits(col, row, dir) && line_cell(g, col, row, dir, 1) == g[col][row] && line_cell(
        g,
        col,
        row,
        dir,
        2,
    ) == g[col][row] && line_cell(g, col, row, dir, 3) == g[col][row] {
        g[col][row].owner()
    } else {
        None
    }
}

/// The owner of the first owned line that starts at `(col, row)`, the
/// directions taken in the order horizontal, vertical, down-right,
/// down-left.
pub open spec fn cell_winner(g: Grid, col: int, row: int) -> Option<Player> {
    if line_owner(g, col, row, Direction::Horizontal) is Some {
        line_owner(g, col, row, Direction::Horizontal)
    } else if line_owner(g, col, row, Direction::Vertical) is Some {
        line_owner(g, col, row, Direction::Vertical)
    } else if line_owner(g, col, row, Direction::DiagonalDownRight) is Some {
        line_owner(g, col, row, Direction::DiagonalDownRight)
    } else {
        line_owner(g, col, row, Direction::DiagonalDownLeft)
    }
}

/// The first winner among the cells of a column from `from_row` down.
pub open spec fn column_winner(g: Grid, col: int, from_row: int) -> Option<Player>
    decreases ROWS - from_row,
{
    if from_row < 0 || from_row >= ROWS {
        None
    } else if cell_winner(g, col, from_row) is Some {
        cell_winner(g, col, from_row)
    } else {
        column_winner(g, col, from_row + 1)
    }
}

/// The first winner among the columns from `from_col` on.
pub open spec fn winner_from(g: Grid, from_col: int) -> Option<Player>
    decreases COLUMNS - from_col,
{
    if from_col < 0 || from_col >= COLUMNS {
        None
    } else if column_winner(g, from_col, 0) is Some {
        column_winner(g, from_col, 0)
    } else {
        winner_from(g, from_col + 1)
    }
}

/// The winner on a grid: the owner of the first line of four found when the
/// cells are visited column by column, each column from the top down, and
/// at each cell the four directions in their fixed order.
pub open spec fn winner_of(g: Grid) -> Option<Player> {
    winner_from(g, 0)
}

/// Some line of four on the grid is held by `p`.
pub open spec fn has_line(g: Grid, p: Player) -> bool {
    exists|col: int, row: int, dir: Direction| #[trigger] line_owner(g, col, row, dir) == Some(p)
}

/// The owner of the line of four that starts at `(col, row)` and runs in
/// `dir`.
pub fn line_owner_at(board: &Board, col: usize, row: usize, dir: Direction) -> (res: Option<Player>)
    requires
        col < COLUMNS,
        row < ROWS,
    ensures
        res == line_owner(board@, col as int, row as int, dir),
{
    let fits = match dir {
        Direction::Horizontal => col + 3 < COLUMNS,
        Direction::Vertical => row + 3 < ROWS,
        Direction::DiagonalDownRight => col + 3 < COLUMNS && row + 3 < ROWS,
        Direction::DiagonalDownLeft => col >= 3 && row + 3 < ROWS,
    };
    if !fits {
        return None;
    }
    let first = board.cell_at(col, row);
    let (second, third, fourth) = match dir {
        Direction::Horizontal => (
            board.cell_at(col + 1, row),
            board.cell_at(col + 2, row),
            board.cell_at(col + 3, row),
        ),
        Direction::Vertical => (
            board.cell_at(col, row + 1),
            board.cell_at(col, row + 2),
            board.cell_at(col, row + 3),
        ),
        Direction::DiagonalDownRight => (
            board.cell_at(col + 1, row + 1),
            board.cell_at(col + 2, row + 2),
            board.cell_at(col + 3, row + 3),
        ),
        Direction::DiagonalDownLeft => (
            board.cell_at(col - 1, row + 1),
            board.cell_at(col - 2, row + 2),
            board.cell_at(col - 3, row + 3),
        ),
    };
    if second == first && third == first && fourth == first {
        first.owner()
    } else {
        None
    }
}

/// The owner of the first owned line that starts at `(col, row)`.
pub fn cell_winner_at(board: &Board, col: usize, row: usize) -> (res: Option<Player>)
    requires
        col < COLUMNS,
        row < ROWS,
    ensures
        res == cell_winner(board@, col as int, row as int),
{
    let horizontal = line_owner_at(board, col, row, Direction::Horizontal);
    if horizontal.is_some() {
        return horizontal;
    }
    let vertical = line_owner_at(board, col, row, Direction::Vertical);
    if vertical.is_some() {
        return vertical;
    }
    let down_right = line_owner_at(board, col, row, Direction::DiagonalDownRight);
    if down_right.is_some() {
        return down_right;
    }
    line_owner_at(board, col, row, Direction::DiagonalDownLeft)
}

/// The player who has four in a row on the board, if any: the owner of the
/// first such line in the fixed order of the scan.
pub fn winner(board: &Board) -> (res: Option<Player>)
    ensures
        res == winner_of(board@),
        res is None <==> forall|p: Player| !has_line(board@, p),
        res matches Some(p) ==> has_line(board@, p),
{
    let mut col: usize = 0;
    while col < COLUMNS
        invariant
            col <= COLUMNS,
            winner_of(board@) == winner_from(board@, col as int),
        decreases COLUMNS - col,
    {
        let mut row: usize = 0;
        while row < ROWS
            invariant
                col < COLUMNS,
                row <= ROWS,
                winner_of(board@) == winner_from(board@, col as int),
                column_winner(board@, col as int, 0) == column_winner(board@, col as int, row as int),
            decreases ROWS - row,
        {
            let found = cell_winner_at(board, col, row);
            if found.is_some() {
                proof {
                    lemma_winner_has_line(board@);
                }
                return found;
            }
            row += 1;
        }
        col += 1;
    }
    proof {
        lemma_winner_has_line(board@);
    }
    None
}

/// What the scan of one column from `from_row` down finds: nothing exactly
/// when no line starts there, and otherwise the owner of a line.
proof fn lemma_column_winner(g: Grid, col: int, from_row: int)
    requires
        0 <= from_row <= ROWS,
    ensures
        column_winner(g, col, from_row) is None <==> forall|r: int, d: Direction|
            from_row <= r < ROWS ==> #[trigger] line_owner(g, col, r, d) is None,
        column_winner(g, col, from_row) matches Some(p) ==> has_line(g, p),
    decreases ROWS - from_row,
{
    if from_row < ROWS {
        lemma_column_winner(g, col, from_row + 1);
        if cell_winner(g, col, from_row) is Some {
            let p = cell_winner(g, col, from_row)->0;
            let d = if line_owner(g, col, from_row, Direction::Horizontal) is Some {
                Direction::Horizontal
            } else if line_owner(g, col, from_row, Direction::Vertical) is Some {
                Direction::Vertical
            } else if line_owner(g, col, from_row, Direction::DiagonalDownRight) is Some {
                Direction::DiagonalDownRight
            } else {
                Direction::DiagonalDownLeft
            };
            assert(line_owner(g, col, from_row, d) == Some(p));
        } else {
            assert forall|r: int, d: Direction| from_row <= r < ROWS && column_winner(
                g,
                col,
                from_row,
            ) is None implies #[trigger] line_owner(g, col, r, d) is None by {
                if r == from_row {
                    assert(cell_winner(g, col, r) is None);
                }
            }
        }
    }
}

/// What the scan of the columns from `from_col` on finds.
proof fn lemma_winner_from(g: Grid, from_col: int)
    requires
        0 <= from_col <= COLUMNS,
    ensures
        winner_from(g, from_col) is None <==> forall|c: int, r: int, d: Direction|
            from_col <= c < COLUMNS && 0 <= r < ROWS ==> #[trigger] line_owner(g, c, r, d) is None,
        winner_from(g, from_col) matches Some(p) ==> has_line(g, p),
    decreases COLUMNS - from_col,
{
    if from_col < COLUMNS {
        lemma_winner_from(g, from_col + 1);
        lemma_column_winner(g, from_col, 0);
    }
}

/// The scan misses no line and invents none: there is no winner exactly when
/// no player holds a line of four, and a winner holds one.
pub proof fn lemma_winner_has_line(g: Grid)
    ensures
        winner_of(g) is None <==> forall|p: Player| !has_line(g, p),
        winner_of(g) matches Some(p) ==> has_line(g, p),
{
    lemma_winner_from(g, 0);
    if winner_of(g) is None {
        assert forall|p: Player| !has_line(g, p) by {
            if has_line(g, p) {
                let (c, r, d) = choose|c: int, r: int, d: Direction| #[trigger]
                    line_owner(g, c, r, d) == Some(p);
                assert(line_fits(c, r, d));
                assert(line_owner(g, c, r, d) is None);
            }
        }
    } else {
        let p = winner_of(g)->0;
        assert(has_line(g, p));
    }
}

/// When only one player holds a line of four, that player is the winner.
pub proof fn lemma_sole_line_holder_wins(g: Grid, p: Player)
    requires
        has_line(g, p),
        !has_line(g, p.other()),
    ensures
        winner_of(g) == Some(p),
{
    lemma_winner_has_line(g);
}

/// A column with a mark in one of its rows counts at least one mark.
proof fn lemma_marked_column(g: Grid, col: int, row: int)
    requires
        0 <= row < ROWS,
        g[col][row] != Cell::Empty,
    ensures
        marks_in_column(g, col, ROWS as int) >= 1,
{
    assert(marks_in_column(g, col, row + 1) >= 1);
    lemma_column_marks_monotone(g, col, row + 1, ROWS as int);
}

/// Four neighbouring columns with a mark each hold four marks together.
proof fn lemma_four_marked_columns(g: Grid, col: int)
    requires
        0 <= col,
        col + 3 < COLUMNS,
        forall|k: int| 0 <= k < 4 ==> marks_in_column(g, #[trigger] (col + k), ROWS as int) >= 1,
    ensures
        mark_count(g) >= 4,
{
    assert(marks_in_column(g, col + 0, ROWS as int) >= 1);
    assert(marks_in_column(g, col + 1, ROWS as int) >= 1);
    assert(marks_in_column(g, col + 2, ROWS as int) >= 1);
    assert(marks_in_column(g, col + 3, ROWS as int) >= 1);
    assert(marks_in_grid(g, col + 1) >= 1);
    assert(marks_in_grid(g, col + 2) >= 2);
    assert(marks_in_grid(g, col + 3) >= 3);
    assert(marks_in_grid(g, col + 4) >= 4);
    lemma_grid_marks_monotone(g, col + 4, COLUMNS as int);
}

/// A line of four that a player holds is four marks on the grid.
pub proof fn lemma_line_is_four_marks(g: Grid, col: int, row: int, dir: Direction, p: Player)
    requires
        line_owner(g, col, row, dir) == Some(p),
    ensures
        mark_count(g) >= 4,
{
    assert(g[col][row] != Cell::Empty);
    match dir {
        Direction::Vertical => {
            assert(g[col][row + 1] != Cell::Empty);
            assert(g[col][row + 2] != Cell::Empty);
            assert(g[col][row + 3] != Cell::Empty);
            assert(marks_in_column(g, col, row + 1) >= 1);
            assert(marks_in_column(g, col, row + 2) >= 2);
            assert(marks_in_column(g, col, row + 3) >= 3);
            assert(marks_in_column(g, col, row + 4) >= 4);
            lemma_column_marks_monotone(g, col, row + 4, ROWS as int);
            assert(marks_in_grid(g, col + 1) >= 4);
            lemma_grid_marks_monotone(g, col + 1, COLUMNS as int);
        },
        Direction::Horizontal => {
            lemma_marked_column(g, col, row);
            lemma_marked_column(g, col + 1, row);
            lemma_marked_column(g, col + 2, row);
            lemma_marked_column(g, col + 3, row);
            lemma_four_marked_columns(g, col);
        },
        Direction::DiagonalDownRight => {
            lemma_marked_column(g, col, row);
            lemma_marked_column(g, col + 1, row + 1);
            lemma_marked_column(g, col + 2, row + 2);
            lemma_marked_column(g, col + 3, row + 3);
            lemma_four_marked_columns(g, col);
        },
        Direction::DiagonalDownLeft => {
            lemma_marked_column(g, col, row);
            lemma_marked_column(g, col - 1, row + 1);
            lemma_marked_column(g, col - 2, row + 2);
            lemma_marked_column(g, col - 3, row + 3);
            lemma_four_marked_columns(g, col - 3);
        },
    }
}

/// Nobody has won on a grid with fewer than four marks.
pub proof fn lemma_few_marks_no_winner(g: Grid)
    requires
        mark_count(g) < 4,
    ensures
        winner_of(g) is None,
{
    lemma_winner_has_line(g);
    if winner_of(g) is Some {
        let p = winner_of(g)->0;
        let (c, r, d) = choose|c: int, r: int, d: Direction| #[trigger]
            line_owner(g, c, r, d) == Some(p);
        lemma_line_is_four_marks(g, c, r, d, p);
    }
}

/// Nobody has won on the empty grid.
pub proof fn lemma_empty_grid_no_winner()
    ensures
        winner_of(empty_grid()) is None,
{
    lemma_empty_grid_has_no_marks();
    lemma_few_marks_no_winner(empty_grid());
}

/// A mark of one player written into a cell gives the other player no line
/// of four: a line that the other player holds afterwards was held before.
pub proof fn lemma_mark_gives_rival_no_line(g: Grid, col: int, row: int, p: Player, q: Player)
    requires
        grid_wf(g),
        in_bounds(col, row),
        q != p,
        has_line(grid_with(g, col, row, p.mark()), q),
    ensures
        has_line(g, q),
{
    let h = grid_with(g, col, row, p.mark());
    let (c, r, d) = choose|c: int, r: int, d: Direction| #[trigger]
        line_owner(h, c, r, d) == Some(q);
    assert(line_fits(c, r, d));
    assert(h[col][row] == p.mark());
    assert(h[c][r] == q.mark());
    assert(g[c][r] == h[c][r]);
    assert(line_cell(g, c, r, d, 1) == line_cell(h, c, r, d, 1));
    assert(line_cell(g, c, r, d, 2) == line_cell(h, c, r, d, 2));
    assert(line_cell(g, c, r, d, 3) == line_cell(h, c, r, d, 3));
    assert(line_owner(g, c, r, d) == Some(q));
}

} // verus!
