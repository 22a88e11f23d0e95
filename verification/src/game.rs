//! The course of a game: whose turn it is, how a click changes the state,
//! and when the game is over.

use vstd::prelude::*;
use crate::cell::{Cell, Player};
use crate::board::{Board, Grid, COLUMNS, ROWS, grid_wf, empty_grid, drop_on, column_full,
    grid_full, is_landing_row, landing_row_of, mark_count, stacked, lemma_drop_keeps_stacked,
    lemma_empty_grid_has_no_marks, lemma_full_iff_all_marked, lemma_mark_adds_one,
    lemma_open_column_has_landing_row};
use crate::layout::{column_at, column_at_spec, lemma_tile_in_column, TILE_SIDE, TILE_SIZE, X_OFFSET,
    Y_OFFSET};
use crate::win::{winner, winner_of, has_line, lemma_winner_has_line, lemma_empty_grid_no_winner,
    lemma_mark_gives_rival_no_line};

verus! {

/// Where the game stands.
#[derive(Clone, Copy, Debug, PartialEq, Eq)]
pub enum GamePhase {
    /// Nothing was clicked yet.
    Idle,
    /// A game is being played.
    Active,
    /// The game is over, won by the player named or drawn.
    Finished(Option<Player>),
}

/// A button of the pointer.
#[derive(Clone, Copy, Debug, PartialEq, Eq)]
pub enum Button {
    Primary,
    Secondary,
    Middle,
    Other(u16),
}

/// The mathematical state of a game.
pub struct GameView {
    pub board: Grid,
    pub turn: Player,
    pub phase: GamePhase,
    pub round: nat,
    pub hovered: Option<int>,
}

/// What every state of a game satisfies.
pub open spec fn valid(s: GameView) -> bool {
    &&& grid_wf(s.board)
    &&& stacked(s.board)
    &&& s.round == mark_count(s.board) + 1
    &&& (s.turn == Player::PlayerOne <==> s.round % 2 == 1)
    &&& (s.hovered matches Some(c) ==> 0 <= c < COLUMNS)
    &&& !has_line(s.board, s.turn)
    &&& match s.phase {
        GamePhase::Idle => s.board == empty_grid(),
        GamePhase::Active => winner_of(s.board) is None && !grid_full(s.board),
        GamePhase::Finished(Some(p)) => winner_of(s.board) == Some(p),
        GamePhase::Finished(None) => winner_of(s.board) is None && grid_full(s.board),
    }
}

/// The state before the first click.
pub open spec fn idle_game() -> GameView {
    GameView {
        board: empty_grid(),
        turn: Player::PlayerOne,
        phase: GamePhase::Idle,
        round: 1,
        hovered: None,
    }
}

/// The state at the start of a game, with the pointer where it was.
pub open spec fn fresh_game(hovered: Option<int>) -> GameView {
    GameView {
        board: empty_grid(),
        turn: Player::PlayerOne,
        phase: GamePhase::Active,
        round: 1,
        hovered,
    }
}

/// The phase that a game has once a mark was dropped: won if a line of four
/// is on the grid, drawn if not and the grid is full, and going on otherwise.
pub open spec fn phase_after_drop(g: Grid) -> GamePhase {
    match winner_of(g) {
        Some(w) => GamePhase::Finished(Some(w)),
        None => if grid_full(g) {
            GamePhase::Finished(None)
        } else {
            GamePhase::Active
        },
    }
}

/// The state after the player to move has dropped a mark into `col`.
pub open spec fn after_drop(s: GameView, col: int) -> GameView {
    let board = drop_on(s.board, col, s.turn.mark());
    GameView {
        board,
        turn: s.turn.other(),
        phase: phase_after_drop(board),
        round: s.round + 1,
        hovered: s.hovered,
    }
}

/// The state after a click. Only the primary button does anything. Outside
/// a game it starts one. In a game it drops a mark into the hovered column,
/// unless no column is hovered or that column is full.
pub open spec fn click(s: GameView, button: Button) -> GameView {
    if button != Button::Primary {
        s
    } else {
        match s.phase {
            GamePhase::Active => match s.hovered {
                Some(col) => if column_full(s.board, col) {
                    s
                } else {
                    after_drop(s, col)
                },
                None => s,
            },
            _ => fresh_game(s.hovered),
        }
    }
}

/// The state after the pointer has moved to `(x, y)`.
pub open spec fn pointer_move(s: GameView, x: int, y: int) -> GameView {
    GameView { hovered: column_at_spec(x, y), ..s }
}

/// The state of a game, held by whoever runs it.
#[derive(Clone, Copy, Debug)]
pub struct GameState {
    board: Board,
    turn: Player,
    phase: GamePhase,
    round: u32,
    hovered: Option<usize>,
}

impl View for GameState {
    type V = GameView;

    closed spec fn view(&self) -> GameView {
        GameView {
            board: self.board@,
            turn: self.turn,
            phase: self.phase,
            round: self.round as nat,
            hovered: match self.hovered {
                Some(c) => Some(c as int),
                None => None,
            },
        }
    }
}

impl GameState {
    #[verifier::type_invariant]
    closed spec fn inv(&self) -> bool {
        valid(self@)
    }

    /// The state before the first click: an empty board, nothing hovered.
    pub fn new() -> (res: GameState)
        ensures
            res@ == idle_game(),
            valid(res@),
    {
        proof {
            lemma_empty_grid_has_no_marks();
        }
        GameState {
            board: Board::new(),
            turn: Player::PlayerOne,
            phase: GamePhase::Idle,
            round: 1,
            hovered: None,
        }
    }

    /// The board as it stands.
    pub fn board(&self) -> (res: &Board)
        ensures
            res@ == self@.board,
            valid(self@),
    {
        proof {
            use_type_invariant(self);
        }
        &self.board
    }

    /// The player to move.
    pub fn turn(&self) -> (res: Player)
        ensures
            res == self@.turn,
            valid(self@),
    {
        proof {
            use_type_invariant(self);
        }
        self.turn
    }

    /// Where the game stands.
    pub fn phase(&self) -> (res: GamePhase)
        ensures
            res == self@.phase,
            valid(self@),
    {
        proof {
            use_type_invariant(self);
        }
        self.phase
    }

    /// The number of the move that comes next, counted from one.
    pub fn round(&self) -> (res: u32)
        ensures
            res == self@.round,
            valid(self@),
    {
        proof {
            use_type_invariant(self);
        }
        self.round
    }

    /// The column under the pointer, if the pointer is on the board.
    pub fn hovered(&self) -> (res: Option<usize>)
        ensures
            res is Some <==> self@.hovered is Some,
            res matches Some(c) ==> c < COLUMNS && self@.hovered == Some(c as int),
    {
        proof {
            use_type_invariant(self);
        }
        self.hovered
    }

    /// The player who has four in a row on the board, if any.
    pub fn winner(&self) -> (res: Option<Player>)
        ensures
            res == winner_of(self@.board),
            res matches Some(p) ==> self@.phase == GamePhase::Finished(Some(p)),
            res is None ==> self@.phase != GamePhase::Finished(Some(Player::PlayerOne))
                && self@.phase != GamePhase::Finished(Some(Player::PlayerTwo)),
    {
        proof {
            use_type_invariant(self);
        }
        winner(&self.board)
    }

    /// Empties the board and starts a game with the first player to move.
    /// The hovered column stays.
    pub fn clear(&mut self)
        ensures
            final(self)@ == fresh_game(old(self)@.hovered),
            valid(final(self)@),
    {
        proof {
            use_type_invariant(&*self);
            lemma_empty_grid_has_no_marks();
            lemma_empty_grid_no_winner();
            assert(empty_grid()[0][0] == Cell::Empty);
        }
        *self = GameState {
            board: Board::new(),
            turn: Player::PlayerOne,
            phase: GamePhase::Active,
            round: 1,
            hovered: self.hovered,
        };
    }

    /// Takes a move of the pointer to `(x, y)`: the hovered column follows
    /// it, and nothing else changes.
    pub fn on_pointer_move(&mut self, x: usize, y: usize)
        ensures
            final(self)@ == pointer_move(old(self)@, x as int, y as int),
            valid(final(self)@),
    {
        proof {
            use_type_invariant(&*self);
        }
        self.hovered = column_at(x, y);
    }

    /// Takes a click of `button`.
    pub fn on_click(&mut self, button: Button)
        ensures
            final(self)@ == click(old(self)@, button),
            valid(final(self)@),
    {
        proof {
            use_type_invariant(&*self);
            lemma_click_keeps_valid(self@, button);
        }
        match button {
            Button::Primary => {},
            _ => {
                return ;
            },
        }
        match self.phase {
            GamePhase::Active => {
                if let Some(col) = self.hovered {
                    let mut board = self.board;
                    match board.drop(col, self.turn.mark()) {
                        Ok(row) => {
                            proof {
                                lemma_full_iff_all_marked(self@.board);
                                let chosen = landing_row_of(self@.board, col as int);
                                assert(is_landing_row(self@.board, col as int, chosen));
                                assert(chosen == row);
                            }
                            let phase = match winner(&board) {
                                Some(w) => GamePhase::Finished(Some(w)),
                                None => if board.is_full() {
                                    GamePhase::Finished(None)
                                } else {
                                    GamePhase::Active
                                },
                            };
                            *self = GameState {
                                board,
                                turn: self.turn.other(),
                                phase,
                                round: self.round + 1,
                                hovered: self.hovered,
                            };
                        },
                        Err(_) => {},
                    }
                }
            },
            _ => {
                self.clear();
            },
        }
    }
}

/// A click leads from a state of a game to a state of a game: the board
/// stays stacked, the round is one more than the number of marks, the first
/// player moves in the odd rounds, and the phase says what the board shows.
pub proof fn lemma_click_keeps_valid(s: GameView, button: Button)
    requires
        valid(s),
    ensures
        valid(click(s, button)),
{
    lemma_empty_grid_has_no_marks();
    lemma_empty_grid_no_winner();
    assert(empty_grid()[0][0] == Cell::Empty);
    if button == Button::Primary && s.phase == GamePhase::Active {
        if let Some(col) = s.hovered {
            if !column_full(s.board, col) {
                lemma_open_column_has_landing_row(s.board, col);
                let row = landing_row_of(s.board, col);
                let mark = s.turn.mark();
                lemma_drop_keeps_stacked(s.board, col, row, mark);
                lemma_mark_adds_one(s.board, col, row, mark);
                lemma_winner_has_line(s.board);
                if has_line(drop_on(s.board, col, mark), s.turn.other()) {
                    lemma_mark_gives_rival_no_line(s.board, col, row, s.turn, s.turn.other());
                }
                lemma_winner_has_line(drop_on(s.board, col, mark));
            }
        }
    }
}

/// A move of the pointer leads from a state of a game to a state of a game.
pub proof fn lemma_pointer_move_keeps_valid(s: GameView, x: int, y: int)
    requires
        valid(s),
    ensures
        valid(pointer_move(s, x, y)),
{
}

/// With the pointer on the tile of a cell, the hovered column is the column
/// of that cell.
pub proof fn lemma_pointer_on_tile_hovers_column(s: GameView, col: int, row: int, x: int, y: int)
    requires
        0 <= col < COLUMNS,
        0 <= row < ROWS,
        col * TILE_SIZE + X_OFFSET <= x < col * TILE_SIZE + X_OFFSET + TILE_SIDE,
        row * TILE_SIZE + Y_OFFSET <= y < row * TILE_SIZE + Y_OFFSET + TILE_SIDE,
    ensures
        pointer_move(s, x, y).hovered == Some(col),
{
    lemma_tile_in_column(col, row, x, y);
}

/// A click of another button than the primary one changes nothing.
pub proof fn lemma_other_buttons_ignored(s: GameView, button: Button)
    requires
        button != Button::Primary,
    ensures
        click(s, button) == s,
{
}

/// In a game, a click without a hovered column or on a full column changes
/// nothing.
pub proof fn lemma_click_ignored(s: GameView)
    requires
        s.phase == GamePhase::Active,
        s.hovered matches Some(col) ==> column_full(s.board, col),
    ensures
        click(s, Button::Primary) == s,
{
}

/// Before the first game and after a game is over, whoever won it, a click
/// starts a game: the board is empty, the round is 1, and the first player
/// is to move.
pub proof fn lemma_click_restarts(s: GameView)
    requires
        s.phase != GamePhase::Active,
    ensures
        click(s, Button::Primary).phase == GamePhase::Active,
        click(s, Button::Primary).board == empty_grid(),
        click(s, Button::Primary).round == 1,
        click(s, Button::Primary).turn == Player::PlayerOne,
        click(s, Button::Primary).hovered == s.hovered,
{
}

/// A drop that fills the last cell and leaves no line of four on the board
/// ends the game in a draw; one that leaves a line ends it with a winner who
/// holds such a line.
pub proof fn lemma_outcome_after_drop(s: GameView, col: int)
    requires
        s.phase == GamePhase::Active,
        s.hovered == Some(col),
        !column_full(s.board, col),
    ensures
        ({
            let t = click(s, Button::Primary);
            &&& t == after_drop(s, col)
            &&& (grid_full(t.board) && (forall|p: Player| !has_line(t.board, p)) ==> t.phase
                == GamePhase::Finished(None))
            &&& (forall|p: Player| t.phase == GamePhase::Finished(Some(p)) ==> has_line(t.board, p))
            &&& (t.phase == GamePhase::Active <==> !grid_full(t.board) && forall|p: Player|
                !has_line(t.board, p))
        }),
{
    lemma_winner_has_line(after_drop(s, col).board);
}

/// Only the player who has just moved can have won: in every state of a
/// game the player to move holds no line of four, so the two players never
/// hold lines at once, and a game that is won was won by the other player.
pub proof fn lemma_winner_has_just_moved(s: GameView)
    requires
        valid(s),
    ensures
        !has_line(s.board, s.turn),
        forall|p: Player| s.phase == GamePhase::Finished(Some(p)) ==> p == s.turn.other(),
        forall|p: Player| has_line(s.board, p) ==> s.phase == GamePhase::Finished(Some(p)),
{
    lemma_winner_has_line(s.board);
}

} // verus!
