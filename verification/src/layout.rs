//! Where the board lies in the window, in whole pixels.

use vstd::prelude::*;
use crate::board::{COLUMNS, ROWS};

verus! {

/// Distance of the board from the left edge of the window.
pub const X_OFFSET: usize = 330;

/// Distance of the board from the top edge of the window.
pub const Y_OFFSET: usize = 95;

/// Distance from one tile's corner to the next one's.
pub const TILE_SIZE: usize = 90;

/// Length of a tile's side: tiles leave a gap between them.
pub const TILE_SIDE: usize = 80;

/// Width of the board.
pub const BOARD_WIDTH: usize = 620;

/// Height of the board.
pub const BOARD_HEIGHT: usize = 530;

/// The point lies on the board, its edges included.
pub open spec fn on_board(x: int, y: int) -> bool {
    X_OFFSET <= x <= X_OFFSET + BOARD_WIDTH && Y_OFFSET <= y <= Y_OFFSET + BOARD_HEIGHT
}

/// The column under the point `(x, y)`, if the point lies on the board: the
/// columns are bands as wide as the distance between two tiles, so each band
/// holds its tile and the gap to the next one.
pub open spec fn column_at_spec(x: int, y: int) -> Option<int> {
    if on_board(x, y) {
        Some((x - X_OFFSET) / (TILE_SIZE as int))
    } else {
        None
    }
}

/// The column under the point `(x, y)`, if the point lies on the board.
pub fn column_at(x: usize, y: usize) -> (res: Option<usize>)
    ensures
        res is Some <==> on_board(x as int, y as int),
        res matches Some(c) ==> {
            &&& c < COLUMNS
            &&& column_at_spec(x as int, y as int) == Some(c as int)
            &&& X_OFFSET + c * TILE_SIZE <= x < X_OFFSET + (c + 1) * TILE_SIZE
        },
        res is None ==> column_at_spec(x as int, y as int) is None,
{
    if x < X_OFFSET || x > X_OFFSET + BOARD_WIDTH || y < Y_OFFSET || y > Y_OFFSET + BOARD_HEIGHT {
        None
    } else {
        Some((x - X_OFFSET) / TILE_SIZE)
    }
}

/// The upper left corner of the tile at `(col, row)`.
pub fn tile_origin(col: usize, row: usize) -> (res: (usize, usize))
    requires
        col < COLUMNS,
        row < ROWS,
    ensures
        res.0 == col * TILE_SIZE + X_OFFSET,
        res.1 == row * TILE_SIZE + Y_OFFSET,
{
    (col * TILE_SIZE + X_OFFSET, row * TILE_SIZE + Y_OFFSET)
}

/// The column under any point of a tile is the tile's own column.
pub proof fn lemma_tile_in_column(col: int, row: int, x: int, y: int)
    requires
        0 <= col < COLUMNS,
        0 <= row < ROWS,
        col * TILE_SIZE + X_OFFSET <= x < col * TILE_SIZE + X_OFFSET + TILE_SIDE,
        row * TILE_SIZE + Y_OFFSET <= y < row * TILE_SIZE + Y_OFFSET + TILE_SIDE,
    ensures
        on_board(x, y),
        column_at_spec(x, y) == Some(col),
{
}

/// Every point of the board lies in the band of exactly one column, the one
/// that is found for it.
pub proof fn lemma_column_band(x: int, y: int, col: int)
    requires
        on_board(x, y),
    ensures
        column_at_spec(x, y) == Some(col) <==> 0 <= col < COLUMNS && X_OFFSET + col * TILE_SIZE
            <= x < X_OFFSET + (col + 1) * TILE_SIZE,
{
}

/// The board reaches from the first tile's corner to the far sides of the
/// last tile, so every tile lies on it.
pub proof fn lemma_board_extent(col: int, row: int)
    requires
        0 <= col < COLUMNS,
        0 <= row < ROWS,
    ensures
        BOARD_WIDTH == (COLUMNS - 1) * TILE_SIZE + TILE_SIDE,
        BOARD_HEIGHT == (ROWS - 1) * TILE_SIZE + TILE_SIDE,
        on_board(col * TILE_SIZE + X_OFFSET + TILE_SIDE, row * TILE_SIZE + Y_OFFSET + TILE_SIDE),
{
}

} // verus!
