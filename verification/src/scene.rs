//! What a picture of the game shows: how each column is outlined, which
//! line of text stands beneath the board, and in which colours.

use vstd::prelude::*;
use vstd::string::StrSliceExecFns;
use crate::cell::{Player, Rgb};
use crate::board::{COLUMNS, ROWS, in_bounds};
use crate::game::{GamePhase, GameState, GameView};
use crate::layout::{tile_origin, TILE_SIZE, X_OFFSET, Y_OFFSET};

verus! {

/// How the tiles of a column are outlined.
#[derive(Clone, Copy, Debug, PartialEq, Eq, Structural)]
pub enum Outline {
    /// No game is being played.
    Dimmed,
    /// The pointer is on the column.
    Highlighted,
    /// A column of a game, without the pointer.
    Plain,
}

/// The line of text beneath the board.
#[derive(Clone, Copy, Debug, PartialEq, Eq, Structural)]
pub enum Banner {
    /// The player named is to move.
    ToMove(Player),
    /// The player named has won.
    Won(Player),
    /// A click starts a game.
    ClickToStart,
}

/// The outline of column `col` in the state `s`.
pub open spec fn outline_of(s: GameView, col: int) -> Outline {
    if s.phase != GamePhase::Active {
        Outline::Dimmed
    } else if s.hovered == Some(col) {
        Outline::Highlighted
    } else {
        Outline::Plain
    }
}

/// The banner in the state `s`.
pub open spec fn banner_of(s: GameView) -> Banner {
    match s.phase {
        GamePhase::Active => Banner::ToMove(s.turn),
        GamePhase::Finished(Some(w)) => Banner::Won(w),
        _ => Banner::ClickToStart,
    }
}

/// The outline of column `col`.
pub fn outline(state: &GameState, col: usize) -> (res: Outline)
    requires
        col < COLUMNS,
    ensures
        res == outline_of(state@, col as int),
{
    match state.phase() {
        GamePhase::Active => match state.hovered() {
            Some(c) => if c == col {
                Outline::Highlighted
            } else {
                Outline::Plain
            },
            None => Outline::Plain,
        },
        _ => Outline::Dimmed,
    }
}

/// The banner to show.
pub fn banner(state: &GameState) -> (res: Banner)
    ensures
        res == banner_of(state@),
{
    match state.phase() {
        GamePhase::Active => Banner::ToMove(state.turn()),
        GamePhase::Finished(Some(w)) => Banner::Won(w),
        _ => Banner::ClickToStart,
    }
}

/// One tile of the picture: where its upper left corner lies, how it is
/// outlined, and whose disc lies on it.
#[derive(Clone, Copy, Debug, PartialEq, Eq)]
pub struct Tile {
    pub x: usize,
    pub y: usize,
    pub outline: Outline,
    pub disc: Option<Player>,
}

/// The tile that shows the cell at `(col, row)` in the state `s`.
pub open spec fn tile_of(s: GameView, col: int, row: int) -> Tile {
    Tile {
        x: (col * TILE_SIZE + X_OFFSET) as usize,
        y: (row * TILE_SIZE + Y_OFFSET) as usize,
        outline: outline_of(s, col),
        disc: s.board[col][row].owner(),
    }
}

/// The tiles of the whole board, column by column and each column from the
/// top down.
pub fn tiles(state: &GameState) -> (res: Vec<Tile>)
    ensures
        res@.len() == COLUMNS * ROWS,
        forall|col: int, row: int|
            in_bounds(col, row) ==> res@[col * ROWS + row] == #[trigger] tile_of(state@, col, row),
{
    let mut res: Vec<Tile> = Vec::new();
    let mut col: usize = 0;
    while col < COLUMNS
        invariant
            col <= COLUMNS,
            res@.len() == col * ROWS,
            forall|c: int, r: int|
                0 <= c < col && 0 <= r < ROWS ==> res@[c * ROWS + r] == #[trigger] tile_of(
                    state@,
                    c,
                    r,
                ),
        decreases COLUMNS - col,
    {
        let shade = outline(state, col);
        let mut row: usize = 0;
        while row < ROWS
            invariant
                col < COLUMNS,
                row <= ROWS,
                shade == outline_of(state@, col as int),
                res@.len() == col * ROWS + row,
                forall|c: int, r: int|
                    (0 <= c < col && 0 <= r < ROWS) || (c == col && 0 <= r < row) ==> res@[c * ROWS
                        + r] == #[trigger] tile_of(state@, c, r),
            decreases ROWS - row,
        {
            let (x, y) = tile_origin(col, row);
            let disc = state.board().cell_at(col, row).owner();
            res.push(Tile { x, y, outline: shade, disc });
            row += 1;
        }
        col += 1;
    }
    res
}

impl Outline {
    /// The colour of the outline.
    pub fn color(self) -> (res: Rgb)
        ensures
            res == match self {
                Outline::Dimmed => (Rgb { r: 0x3e, g: 0x44, b: 0x51 }),
                Outline::Highlighted => (Rgb { r: 0xff, g: 0xff, b: 0xff }),
                Outline::Plain => (Rgb { r: 0xab, g: 0xb2, b: 0xbf }),
            },
    {
        match self {
            Outline::Dimmed => Rgb { r: 0x3e, g: 0x44, b: 0x51 },
            Outline::Highlighted => Rgb { r: 0xff, g: 0xff, b: 0xff },
            Outline::Plain => Rgb { r: 0xab, g: 0xb2, b: 0xbf },
        }
    }
}

impl Banner {
    /// The colour of the banner: that of the player to move, and one of its
    /// own otherwise.
    pub fn color(self) -> (res: Rgb)
        ensures
            res == match self {
                Banner::ToMove(p) => p.color(),
                _ => (Rgb { r: 0xe5, g: 0xc0, b: 0x7b }),
            },
    {
        match self {
            Banner::ToMove(p) => p.color(),
            _ => Rgb { r: 0xe5, g: 0xc0, b: 0x7b },
        }
    }
}

/// The value of a hexadecimal digit, in either case.
pub open spec fn hex_digit_value(c: char) -> Option<int> {
    if '0' <= c <= '9' {
        Some(c as int - '0' as int)
    } else if 'a' <= c <= 'f' {
        Some(c as int - 'a' as int + 10)
    } else if 'A' <= c <= 'F' {
        Some(c as int - 'A' as int + 10)
    } else {
        None
    }
}

/// The text is six hexadecimal digits.
pub open spec fn is_hex_color(s: Seq<char>) -> bool {
    s.len() == 6 && forall|i: int| 0 <= i < 6 ==> (#[trigger] hex_digit_value(s[i])) is Some
}

/// The number that the two digits at `at` and `at + 1` write.
pub open spec fn hex_channel(s: Seq<char>, at: int) -> int {
    16 * hex_digit_value(s[at])->0 + hex_digit_value(s[at + 1])->0
}

/// The value of a hexadecimal digit, in either case.
pub fn hex_digit(c: char) -> (res: Option<u8>)
    ensures
        res is Some <==> hex_digit_value(c) is Some,
        res matches Some(v) ==> hex_digit_value(c) == Some(v as int) && v < 16,
{
    if '0' <= c && c <= '9' {
        Some(c as u8 - '0' as u8)
    } else if 'a' <= c && c <= 'f' {
        Some(c as u8 - 'a' as u8 + 10)
    } else if 'A' <= c && c <= 'F' {
        Some(c as u8 - 'A' as u8 + 10)
    } else {
        None
    }
}

/// Reads a colour written as six hexadecimal digits, two each for red, green
/// and blue. Any other text is no colour.
pub fn try_hex(s: &str) -> (res: Option<Rgb>)
    ensures
        res is Some <==> is_hex_color(s@),
        res matches Some(c) ==> c.r == hex_channel(s@, 0) && c.g == hex_channel(s@, 2) && c.b
            == hex_channel(s@, 4),
{
    if s.unicode_len() != 6 {
        return None;
    }
    let mut digits: [u8; 6] = [0u8; 6];
    let mut i: usize = 0;
    while i < 6
        invariant
            i <= 6,
            s@.len() == 6,
            forall|k: int| 0 <= k < i ==> hex_digit_value(s@[k]) == Some(#[trigger] digits@[k] as int),
            forall|k: int| 0 <= k < i ==> #[trigger] digits@[k] < 16,
        decreases 6 - i,
    {
        match hex_digit(s.get_char(i)) {
            Some(v) => {
                digits[i] = v;
            },
            None => {
                return None;
            },
        }
        i += 1;
    }
    assert(forall|k: int| 0 <= k < 6 ==> hex_digit_value(s@[k]) == Some(digits@[k] as int));
    Some(
        Rgb {
            r: 16 * digits[0] + digits[1],
            g: 16 * digits[2] + digits[3],
            b: 16 * digits[4] + digits[5],
        },
    )
}

/// The colour that six hexadecimal digits write, two each for red, green and
/// blue.
pub fn hex(s: &str) -> (res: Rgb)
    requires
        is_hex_color(s@),
    ensures
        res.r == hex_channel(s@, 0),
        res.g == hex_channel(s@, 2),
        res.b == hex_channel(s@, 4),
{
    try_hex(s).unwrap()
}

} // verus!
