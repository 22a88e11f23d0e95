//! The grid of cells, and dropping marks into its columns.

use vstd::prelude::*;
use crate::cell::Cell;

verus! {

/// Number of columns of the board.
pub const COLUMNS: usize = 7;

/// Number of rows of the board.
pub const ROWS: usize = 6;

/// The mathematical board: a sequence of columns, each a sequence of cells
/// from the top row down.
pub type Grid = Seq<Seq<Cell>>;

/// The grid has the board's dimensions.
pub open spec fn grid_wf(g: Grid) -> bool {
    &&& g.len() == COLUMNS
    &&& forall|c: int| 0 <= c < COLUMNS ==> (#[trigger] g[c]).len() == ROWS
}

/// `(col, row)` is a position of the board.
pub open spec fn in_bounds(col: int, row: int) -> bool {
    0 <= col < COLUMNS && 0 <= row < ROWS
}

/// The grid without any mark.
pub open spec fn empty_grid() -> Grid {
    Seq::new(COLUMNS as nat, |c: int| Seq::new(ROWS as nat, |r: int| Cell::Empty))
}

/// The grid with the cell at `(col, row)` replaced.
pub open spec fn grid_with(g: Grid, col: int, row: int, cell: Cell) -> Grid {
    g.update(col, g[col].update(row, cell))
}

/// No cell of the column is empty.
pub open spec fn column_full(g: Grid, col: int) -> bool {
    forall|r: int| 0 <= r < ROWS ==> #[trigger] g[col][r] != Cell::Empty
}

/// No cell of the grid is empty.
pub open spec fn grid_full(g: Grid) -> bool {
    forall|c: int, r: int| in_bounds(c, r) ==> #[trigger] g[c][r] != Cell::Empty
}

/// `row` is the lowest empty row of the column: it is empty and every row
/// beneath it is taken.
pub open spec fn is_landing_row(g: Grid, col: int, row: int) -> bool {
    &&& 0 <= row < ROWS
    &&& g[col][row] == Cell::Empty
    &&& forall|r: int| row < r < ROWS ==> #[trigger] g[col][r] != Cell::Empty
}

/// The lowest empty row of a column that is not full.
pub open spec fn landing_row_of(g: Grid, col: int) -> int {
    choose|row: int| is_landing_row(g, col, row)
}

/// The grid after a drop of `mark` into `col`: the mark lies in the lowest
/// empty row of the column, and a full column leaves the grid as it was.
pub open spec fn drop_on(g: Grid, col: int, mark: Cell) -> Grid {
    if column_full(g, col) {
        g
    } else {
        grid_with(g, col, landing_row_of(g, col), mark)
    }
}

/// The grid after the drops `moves`, each a column and a mark, made in turn
/// on the empty grid.
pub open spec fn after_drops(moves: Seq<(int, Cell)>) -> Grid
    decreases moves.len(),
{
    if moves.len() == 0 {
        empty_grid()
    } else {
        drop_on(after_drops(moves.drop_last()), moves.last().0, moves.last().1)
    }
}

/// How many of the drops `moves` found room in their column.
pub open spec fn accepted_drops(moves: Seq<(int, Cell)>) -> nat
    decreases moves.len(),
{
    if moves.len() == 0 {
        0
    } else {
        accepted_drops(moves.drop_last()) + if column_full(
            after_drops(moves.drop_last()),
            moves.last().0,
        ) {
            0nat
        } else {
            1nat
        }
    }
}

/// Number of marks in the rows `0..upto` of a column.
pub open spec fn marks_in_column(g: Grid, col: int, upto: int) -> nat
    decreases upto,
{
    if upto <= 0 {
        0
    } else {
        marks_in_column(g, col, upto - 1) + if g[col][upto - 1] != Cell::Empty {
            1nat
        } else {
            0nat
        }
    }
}

/// Number of marks in the columns `0..upto` of the grid.
pub open spec fn marks_in_grid(g: Grid, upto: int) -> nat
    decreases upto,
{
    if upto <= 0 {
        0
    } else {
        marks_in_grid(g, upto - 1) + marks_in_column(g, upto - 1, ROWS as int)
    }
}

/// Number of marks on the whole grid.
pub open spec fn mark_count(g: Grid) -> nat {
    marks_in_grid(g, COLUMNS as int)
}

/// No empty cell lies beneath a mark: the shape that a grid has when it was
/// filled by drops alone.
pub open spec fn stacked(g: Grid) -> bool {
    forall|c: int, r: int, s: int|
        0 <= c < COLUMNS && 0 <= r < s < ROWS && #[trigger] g[c][r] != Cell::Empty ==> #[trigger] g[c][s]
            != Cell::Empty
}

/// The error of a drop into a column that has no empty cell left.
#[derive(Clone, Copy, Debug, PartialEq, Eq, Structural)]
pub struct ColumnFullError;

/// The board of the game.
#[derive(Clone, Copy, Debug, PartialEq, Eq)]
pub struct Board {
    pub cells: [[Cell; 6]; 7],
}

impl View for Board {
    type V = Grid;

    open spec fn view(&self) -> Grid {
        Seq::new(COLUMNS as nat, |c: int| self.cells@[c]@)
    }
}

impl Board {
    /// A board without any mark.
    pub fn new() -> (res: Board)
        ensures
            res@ == empty_grid(),
    {
        let res = Board { cells: [[Cell::Empty; 6]; 7] };
        assert(res@ =~~= empty_grid());
        res
    }

    /// The dimensions never change: every board views as a well-formed grid.
    pub proof fn lemma_view_wf(&self)
        ensures
            grid_wf(self@),
    {
    }

    /// The cell at `(column, row)`.
    pub fn cell_at(&self, column: usize, row: usize) -> (res: Cell)
        requires
            column < COLUMNS,
            row < ROWS,
        ensures
            res == self@[column as int][row as int],
    {
        self.cells[column][row]
    }

    /// Writes `cell` at `(column, row)` and leaves every other cell as it was.
    pub fn set_cell(&mut self, column: usize, row: usize, cell: Cell)
        requires
            column < COLUMNS,
            row < ROWS,
        ensures
            final(self)@ == grid_with(old(self)@, column as int, row as int, cell),
    {
        let mut rows = self.cells[column];
        rows[row] = cell;
        self.cells[column] = rows;
        assert(self@ =~~= grid_with(old(self)@, column as int, row as int, cell));
    }

    /// Whether no empty cell remains anywhere.
    pub fn is_full(&self) -> (res: bool)
        ensures
            res == grid_full(self@),
    {
        let mut col: usize = 0;
        while col < COLUMNS
            invariant
                col <= COLUMNS,
                forall|c: int, r: int|
                    0 <= c < col && 0 <= r < ROWS ==> #[trigger] self@[c][r] != Cell::Empty,
            decreases COLUMNS - col,
        {
            let mut row: usize = 0;
            while row < ROWS
                invariant
                    col < COLUMNS,
                    row <= ROWS,
                    forall|c: int, r: int|
                        0 <= c < col && 0 <= r < ROWS ==> #[trigger] self@[c][r] != Cell::Empty,
                    forall|r: int| 0 <= r < row ==> #[trigger] self@[col as int][r] != Cell::Empty,
                decreases ROWS - row,
            {
                if self.cells[col][row].is_empty() {
                    assert(in_bounds(col as int, row as int));
                    return false;
                }
                row += 1;
            }
            col += 1;
        }
        true
    }

    /// Whether the column has no empty cell left.
    pub fn is_column_full(&self, column: usize) -> (res: bool)
        requires
            column < COLUMNS,
        ensures
            res == column_full(self@, column as int),
    {
        let mut row: usize = 0;
        while row < ROWS
            invariant
                column < COLUMNS,
                row <= ROWS,
                forall|r: int| 0 <= r < row ==> #[trigger] self@[column as int][r] != Cell::Empty,
            decreases ROWS - row,
        {
            if self.cells[column][row].is_empty() {
                return false;
            }
            row += 1;
        }
        true
    }

    /// The lowest empty row of the column, if it has an empty cell.
    pub fn landing_row(&self, column: usize) -> (res: Option<usize>)
        requires
            column < COLUMNS,
        ensures
            res is None <==> column_full(self@, column as int),
            res matches Some(row) ==> is_landing_row(self@, column as int, row as int),
    {
        let mut row: usize = ROWS;
        while row > 0
            invariant
                column < COLUMNS,
                row <= ROWS,
                forall|r: int| row <= r < ROWS ==> #[trigger] self@[column as int][r] != Cell::Empty,
            decreases row,
        {
            row -= 1;
            if self.cells[column][row].is_empty() {
                return Some(row);
            }
        }
        None
    }

    /// Drops `mark` into `column`: it comes to rest in the lowest empty row,
    /// which is returned. A column without an empty cell refuses the drop and
    /// the board stays as it was.
    pub fn drop(&mut self, column: usize, mark: Cell) -> (res: Result<usize, ColumnFullError>)
        requires
            column < COLUMNS,
        ensures
            res is Err <==> column_full(old(self)@, column as int),
            res is Err ==> final(self)@ == old(self)@,
            final(self)@ == drop_on(old(self)@, column as int, mark),
            res matches Ok(row) ==> {
                &&& is_landing_row(old(self)@, column as int, row as int)
                &&& final(self)@ == grid_with(old(self)@, column as int, row as int, mark)
            },
            res matches Ok(row) ==> stacked(old(self)@) ==> row == ROWS - 1 - marks_in_column(
                old(self)@,
                column as int,
                ROWS as int,
            ),
            stacked(old(self)@) && mark != Cell::Empty ==> stacked(final(self)@),
            res is Ok && mark != Cell::Empty ==> mark_count(final(self)@) == mark_count(old(self)@)
                + 1,
    {
        match self.landing_row(column) {
            Some(row) => {
                self.set_cell(column, row, mark);
                proof {
                    old(self).lemma_view_wf();
                    assert(is_landing_row(
                        old(self)@,
                        column as int,
                        landing_row_of(old(self)@, column as int),
                    ));
                    if mark != Cell::Empty {
                        lemma_mark_adds_one(old(self)@, column as int, row as int, mark);
                    }
                    if stacked(old(self)@) {
                        lemma_landing_row_of_stacked(old(self)@, column as int, row as int);
                        if mark != Cell::Empty {
                            lemma_drop_keeps_stacked(old(self)@, column as int, row as int, mark);
                        }
                    }
                }
                Ok(row)
            },
            None => Err(ColumnFullError),
        }
    }
}

/// The marks of a stacked column among its first `upto` rows are those
/// beneath the landing row.
proof fn lemma_marks_below_landing(g: Grid, col: int, row: int, upto: int)
    requires
        grid_wf(g),
        stacked(g),
        0 <= col < COLUMNS,
        is_landing_row(g, col, row),
        0 <= upto <= ROWS,
    ensures
        marks_in_column(g, col, upto) == if upto <= row + 1 {
            0
        } else {
            upto - row - 1
        },
    decreases upto,
{
    if upto > 0 {
        lemma_marks_below_landing(g, col, row, upto - 1);
        if upto - 1 < row {
            assert(g[col][upto - 1] == Cell::Empty) by {
                assert(g[col][row] == Cell::Empty);
            }
        }
    }
}

/// Gravity: in a grid filled by drops, a column that holds `k` marks takes
/// its next mark in row `ROWS - 1 - k`.
pub proof fn lemma_landing_row_of_stacked(g: Grid, col: int, row: int)
    requires
        grid_wf(g),
        stacked(g),
        0 <= col < COLUMNS,
        is_landing_row(g, col, row),
    ensures
        row == ROWS - 1 - marks_in_column(g, col, ROWS as int),
{
    lemma_marks_below_landing(g, col, row, ROWS as int);
}

/// A mark dropped on a stacked grid leaves it stacked.
pub proof fn lemma_drop_keeps_stacked(g: Grid, col: int, row: int, mark: Cell)
    requires
        grid_wf(g),
        stacked(g),
        0 <= col < COLUMNS,
        is_landing_row(g, col, row),
        mark != Cell::Empty,
    ensures
        stacked(grid_with(g, col, row, mark)),
{
    let h = grid_with(g, col, row, mark);
    assert forall|c: int, r: int, s: int|
        0 <= c < COLUMNS && 0 <= r < s < ROWS && #[trigger] h[c][r] != Cell::Empty implies #[trigger] h[c][s]
        != Cell::Empty by {
        if c == col {
            if r != row {
                assert(g[c][r] != Cell::Empty);
            }
            if s != row {
                assert(g[c][s] != Cell::Empty);
            }
        } else {
            assert(g[c][r] != Cell::Empty);
            assert(g[c][s] != Cell::Empty);
        }
    }
}

/// The landing row of a column is unique, and there is one exactly when the
/// column is not full.
pub proof fn lemma_landing_row_unique(g: Grid, col: int, a: int, b: int)
    requires
        is_landing_row(g, col, a),
        is_landing_row(g, col, b),
    ensures
        a == b,
        !column_full(g, col),
{
}

/// Counting the marks of a column over more rows never gives less.
pub proof fn lemma_column_marks_monotone(g: Grid, col: int, a: int, b: int)
    requires
        a <= b,
    ensures
        marks_in_column(g, col, a) <= marks_in_column(g, col, b),
    decreases b - a,
{
    if a < b {
        lemma_column_marks_monotone(g, col, a, b - 1);
    }
}

/// Counting the marks of the grid over more columns never gives less.
pub proof fn lemma_grid_marks_monotone(g: Grid, a: int, b: int)
    requires
        a <= b,
    ensures
        marks_in_grid(g, a) <= marks_in_grid(g, b),
    decreases b - a,
{
    if a < b {
        lemma_grid_marks_monotone(g, a, b - 1);
    }
}

/// The first `upto` rows of a column hold at most `upto` marks, and that
/// many exactly when none of them is empty.
pub proof fn lemma_column_marks_bound(g: Grid, col: int, upto: int)
    requires
        0 <= upto,
    ensures
        marks_in_column(g, col, upto) <= upto,
        marks_in_column(g, col, upto) == upto <==> forall|r: int|
            0 <= r < upto ==> #[trigger] g[col][r] != Cell::Empty,
    decreases upto,
{
    if upto > 0 {
        lemma_column_marks_bound(g, col, upto - 1);
        if marks_in_column(g, col, upto) != upto {
            if g[col][upto - 1] != Cell::Empty {
                let r = choose|r: int| 0 <= r < upto - 1 && #[trigger] g[col][r] == Cell::Empty;
                assert(g[col][r] == Cell::Empty);
            }
        }
    }
}

/// The first `upto` columns hold at most `ROWS` marks each, and that many
/// exactly when all of them are full.
pub proof fn lemma_grid_marks_bound(g: Grid, upto: int)
    requires
        0 <= upto,
    ensures
        marks_in_grid(g, upto) <= ROWS * upto,
        marks_in_grid(g, upto) == ROWS * upto <==> forall|c: int|
            0 <= c < upto ==> #[trigger] column_full(g, c),
    decreases upto,
{
    if upto > 0 {
        lemma_grid_marks_bound(g, upto - 1);
        lemma_column_marks_bound(g, upto - 1, ROWS as int);
        if marks_in_grid(g, upto) != ROWS * upto {
            if column_full(g, upto - 1) {
                let c = choose|c: int| 0 <= c < upto - 1 && !#[trigger] column_full(g, c);
                assert(!column_full(g, c));
            }
        }
    }
}

/// The grid is full exactly when it holds a mark for each of its cells.
pub proof fn lemma_full_iff_all_marked(g: Grid)
    ensures
        grid_full(g) <==> mark_count(g) == COLUMNS * ROWS,
        mark_count(g) <= COLUMNS * ROWS,
{
    lemma_grid_marks_bound(g, COLUMNS as int);
    if grid_full(g) {
        assert forall|c: int| 0 <= c < COLUMNS implies #[trigger] column_full(g, c) by {
            assert forall|r: int| 0 <= r < ROWS implies #[trigger] g[c][r] != Cell::Empty by {
                assert(in_bounds(c, r));
            }
        }
    }
    if mark_count(g) == COLUMNS * ROWS {
        assert forall|c: int, r: int| in_bounds(c, r) implies #[trigger] g[c][r]
            != Cell::Empty by {
            assert(column_full(g, c));
        }
    }
}

/// The empty grid holds no mark.
pub proof fn lemma_empty_grid_has_no_marks()
    ensures
        mark_count(empty_grid()) == 0,
        stacked(empty_grid()),
        grid_wf(empty_grid()),
{
    let g = empty_grid();
    assert forall|c: int| 0 <= c < COLUMNS implies marks_in_column(g, c, ROWS as int) == 0 by {
        lemma_empty_column_marks(g, c, ROWS as int);
    }
    lemma_empty_columns_marks(g, COLUMNS as int);
}

/// Rows that are all empty hold no mark.
proof fn lemma_empty_column_marks(g: Grid, col: int, upto: int)
    requires
        forall|r: int| 0 <= r < upto ==> #[trigger] g[col][r] == Cell::Empty,
    ensures
        marks_in_column(g, col, upto) == 0,
    decreases upto,
{
    if upto > 0 {
        lemma_empty_column_marks(g, col, upto - 1);
    }
}

/// Columns without a mark add up to no mark.
proof fn lemma_empty_columns_marks(g: Grid, upto: int)
    requires
        forall|c: int| 0 <= c < upto ==> marks_in_column(g, c, ROWS as int) == 0,
    ensures
        marks_in_grid(g, upto) == 0,
    decreases upto,
{
    if upto > 0 {
        lemma_empty_columns_marks(g, upto - 1);
    }
}

/// A mark written into an empty cell changes the count of its column's
/// first `upto` rows by one where they reach the cell, and no other count.
proof fn lemma_marked_column_count(g: Grid, col: int, row: int, mark: Cell, c: int, upto: int)
    requires
        grid_wf(g),
        in_bounds(col, row),
        0 <= c < COLUMNS,
        upto <= ROWS,
        g[col][row] == Cell::Empty,
        mark != Cell::Empty,
    ensures
        marks_in_column(grid_with(g, col, row, mark), c, upto) == marks_in_column(g, c, upto) + if c
            == col && row < upto {
            1nat
        } else {
            0nat
        },
    decreases upto,
{
    if upto > 0 {
        lemma_marked_column_count(g, col, row, mark, c, upto - 1);
    }
}

/// The same over the first `upto` columns of the grid.
proof fn lemma_marked_grid_count(g: Grid, col: int, row: int, mark: Cell, upto: int)
    requires
        grid_wf(g),
        in_bounds(col, row),
        upto <= COLUMNS,
        g[col][row] == Cell::Empty,
        mark != Cell::Empty,
    ensures
        marks_in_grid(grid_with(g, col, row, mark), upto) == marks_in_grid(g, upto) + if col
            < upto {
            1nat
        } else {
            0nat
        },
    decreases upto,
{
    if upto > 0 {
        lemma_marked_grid_count(g, col, row, mark, upto - 1);
        lemma_marked_column_count(g, col, row, mark, upto - 1, ROWS as int);
    }
}

/// A mark written into an empty cell adds one to the number of marks, so
/// after `n` drops that succeeded an empty board holds `n` marks.
pub proof fn lemma_mark_adds_one(g: Grid, col: int, row: int, mark: Cell)
    requires
        grid_wf(g),
        in_bounds(col, row),
        g[col][row] == Cell::Empty,
        mark != Cell::Empty,
    ensures
        mark_count(grid_with(g, col, row, mark)) == mark_count(g) + 1,
        grid_wf(grid_with(g, col, row, mark)),
{
    lemma_marked_grid_count(g, col, row, mark, COLUMNS as int);
}

/// A column whose rows from `below` down are taken, and which has an empty
/// cell above them, has a landing row.
proof fn lemma_landing_row_above(g: Grid, col: int, below: int)
    requires
        0 <= below <= ROWS,
        forall|r: int| below <= r < ROWS ==> #[trigger] g[col][r] != Cell::Empty,
        exists|r: int| 0 <= r < below && #[trigger] g[col][r] == Cell::Empty,
    ensures
        exists|row: int| is_landing_row(g, col, row),
    decreases below,
{
    if g[col][below - 1] == Cell::Empty {
        assert(is_landing_row(g, col, below - 1));
    } else {
        let e = choose|r: int| 0 <= r < below && #[trigger] g[col][r] == Cell::Empty;
        assert(0 <= e < below - 1 && g[col][e] == Cell::Empty);
        lemma_landing_row_above(g, col, below - 1);
    }
}

/// A column that is not full has a landing row.
pub proof fn lemma_open_column_has_landing_row(g: Grid, col: int)
    requires
        !column_full(g, col),
    ensures
        exists|row: int| is_landing_row(g, col, row),
{
    lemma_landing_row_above(g, col, ROWS as int);
}

/// A drop fills the board exactly when it is the drop of the last mark that
/// the board has room for.
pub proof fn lemma_drop_fills_at_last_cell(g: Grid, col: int, row: int, mark: Cell)
    requires
        grid_wf(g),
        0 <= col < COLUMNS,
        is_landing_row(g, col, row),
        mark != Cell::Empty,
    ensures
        grid_full(grid_with(g, col, row, mark)) <==> mark_count(g) + 1 == COLUMNS * ROWS,
        !grid_full(g),
{
    lemma_mark_adds_one(g, col, row, mark);
    lemma_full_iff_all_marked(grid_with(g, col, row, mark));
    assert(in_bounds(col, row));
}

/// Whatever marks are dropped into whatever columns of an empty board, one
/// after the other: the board stays stacked, it holds one mark for each drop
/// that found room, and it is full exactly when 42 of them did.
pub proof fn lemma_drops_from_empty(moves: Seq<(int, Cell)>)
    requires
        forall|i: int|
            0 <= i < moves.len() ==> 0 <= (#[trigger] moves[i]).0 < COLUMNS && moves[i].1
                != Cell::Empty,
    ensures
        grid_wf(after_drops(moves)),
        stacked(after_drops(moves)),
        mark_count(after_drops(moves)) == accepted_drops(moves),
        grid_full(after_drops(moves)) <==> accepted_drops(moves) == COLUMNS * ROWS,
        accepted_drops(moves) <= COLUMNS * ROWS,
    decreases moves.len(),
{
    lemma_empty_grid_has_no_marks();
    if moves.len() > 0 {
        let before = moves.drop_last();
        assert forall|i: int| 0 <= i < before.len() implies 0 <= (#[trigger] before[i]).0 < COLUMNS
            && before[i].1 != Cell::Empty by {
            assert(before[i] == moves[i]);
        }
        lemma_drops_from_empty(before);
        let g = after_drops(before);
        let (col, mark) = moves.last();
        if !column_full(g, col) {
            lemma_open_column_has_landing_row(g, col);
            let row = landing_row_of(g, col);
            lemma_drop_keeps_stacked(g, col, row, mark);
            lemma_mark_adds_one(g, col, row, mark);
        }
    }
    lemma_full_iff_all_marked(after_drops(moves));
}

} // verus!
