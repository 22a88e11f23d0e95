use connect_four::board::{Board, COLUMNS, ROWS};
use connect_four::cell::{Cell, Player};
use connect_four::game::{Button, GamePhase, GameState};
use connect_four::layout::tile_origin;

fn hover(state: &mut GameState, col: usize) {
    let (x, y) = tile_origin(col, 0);
    state.on_pointer_move(x + 10, y + 10);
    assert_eq!(state.hovered(), Some(col));
}

fn play(state: &mut GameState, col: usize) {
    hover(state, col);
    state.on_click(Button::Primary);
}

const DRAWN_GAME: [usize; 42] = [
    0, 2, 2, 0, 0, 2, 2, 0, 0, 2, 2, 0, 1, 3, 3, 1, 1, 3, 3, 1, 1, 3, 3, 1, 4, 6, 6, 4, 4, 6, 6,
    4, 4, 6, 6, 4, 5, 5, 5, 5, 5, 5,
];

#[test]
fn new_game_is_idle() {
    let state = GameState::new();
    assert_eq!(state.phase(), GamePhase::Idle);
    assert_eq!(state.round(), 1);
    assert_eq!(state.turn(), Player::PlayerOne);
    assert_eq!(state.hovered(), None);
    assert_eq!(*state.board(), Board::new());
}

#[test]
fn first_click_starts_a_game() {
    let mut state = GameState::new();
    state.on_click(Button::Primary);
    assert_eq!(state.phase(), GamePhase::Active);
    assert_eq!(state.round(), 1);
    assert_eq!(state.turn(), Player::PlayerOne);
    assert_eq!(*state.board(), Board::new());
}

#[test]
fn first_click_drops_nothing_even_on_a_column() {
    let mut state = GameState::new();
    hover(&mut state, 3);
    state.on_click(Button::Primary);
    assert_eq!(state.phase(), GamePhase::Active);
    assert_eq!(*state.board(), Board::new());
    assert_eq!(state.hovered(), Some(3));
}

#[test]
fn other_buttons_are_ignored() {
    let mut state = GameState::new();
    for button in [Button::Secondary, Button::Middle, Button::Other(7)] {
        state.on_click(button);
        assert_eq!(state.phase(), GamePhase::Idle);
    }
    state.on_click(Button::Primary);
    hover(&mut state, 2);
    for button in [Button::Secondary, Button::Middle, Button::Other(7)] {
        state.on_click(button);
        assert_eq!(state.round(), 1);
        assert_eq!(*state.board(), Board::new());
    }
}

#[test]
fn click_drops_mark_and_passes_the_turn() {
    let mut state = GameState::new();
    state.on_click(Button::Primary);
    play(&mut state, 4);
    assert_eq!(state.board().cell_at(4, 5), Cell::PlayerOneMark);
    assert_eq!(state.round(), 2);
    assert_eq!(state.turn(), Player::PlayerTwo);
    assert_eq!(state.phase(), GamePhase::Active);
    play(&mut state, 4);
    assert_eq!(state.board().cell_at(4, 4), Cell::PlayerTwoMark);
    assert_eq!(state.round(), 3);
    assert_eq!(state.turn(), Player::PlayerOne);
}

#[test]
fn click_without_hovered_column_is_ignored() {
    let mut state = GameState::new();
    state.on_click(Button::Primary);
    state.on_pointer_move(0, 0);
    assert_eq!(state.hovered(), None);
    state.on_click(Button::Primary);
    assert_eq!(state.round(), 1);
    assert_eq!(state.turn(), Player::PlayerOne);
    assert_eq!(*state.board(), Board::new());
    assert_eq!(state.phase(), GamePhase::Active);
}

#[test]
fn click_on_full_column_is_ignored() {
    let mut state = GameState::new();
    state.on_click(Button::Primary);
    for _ in 0..ROWS {
        play(&mut state, 0);
    }
    assert_eq!(state.round(), 7);
    assert_eq!(state.phase(), GamePhase::Active);
    let before = *state.board();
    play(&mut state, 0);
    assert_eq!(state.round(), 7);
    assert_eq!(state.turn(), Player::PlayerOne);
    assert_eq!(*state.board(), before);
    assert_eq!(state.phase(), GamePhase::Active);
}

#[test]
fn four_in_a_column_wins_the_game() {
    let mut state = GameState::new();
    state.on_click(Button::Primary);
    for col in [0, 1, 0, 1, 0, 1] {
        play(&mut state, col);
        assert_eq!(state.phase(), GamePhase::Active);
    }
    play(&mut state, 0);
    assert_eq!(state.phase(), GamePhase::Finished(Some(Player::PlayerOne)));
    assert_eq!(state.round(), 8);
    assert_eq!(state.turn(), Player::PlayerTwo);
}

#[test]
fn second_player_can_win() {
    let mut state = GameState::new();
    state.on_click(Button::Primary);
    for col in [6, 0, 6, 1, 5, 2, 5] {
        play(&mut state, col);
        assert_eq!(state.phase(), GamePhase::Active);
    }
    play(&mut state, 3);
    assert_eq!(state.phase(), GamePhase::Finished(Some(Player::PlayerTwo)));
}

#[test]
fn click_after_a_win_starts_afresh() {
    let mut state = GameState::new();
    state.on_click(Button::Primary);
    for col in [0, 1, 0, 1, 0, 1, 0] {
        play(&mut state, col);
    }
    assert_eq!(state.phase(), GamePhase::Finished(Some(Player::PlayerOne)));
    state.on_click(Button::Primary);
    assert_eq!(state.phase(), GamePhase::Active);
    assert_eq!(state.round(), 1);
    assert_eq!(state.turn(), Player::PlayerOne);
    assert_eq!(*state.board(), Board::new());
}

#[test]
fn full_board_without_a_line_is_a_draw() {
    let mut state = GameState::new();
    state.on_click(Button::Primary);
    for (n, col) in DRAWN_GAME.iter().enumerate() {
        assert_eq!(state.phase(), GamePhase::Active);
        assert_eq!(state.round(), n as u32 + 1);
        play(&mut state, *col);
    }
    assert!(state.board().is_full());
    assert_eq!(state.phase(), GamePhase::Finished(None));
    assert_eq!(state.round(), 43);
}

#[test]
fn click_after_a_draw_starts_afresh() {
    let mut state = GameState::new();
    state.on_click(Button::Primary);
    for col in DRAWN_GAME {
        play(&mut state, col);
    }
    assert_eq!(state.phase(), GamePhase::Finished(None));
    state.on_pointer_move(0, 0);
    state.on_click(Button::Primary);
    assert_eq!(state.phase(), GamePhase::Active);
    assert_eq!(state.round(), 1);
    assert_eq!(state.turn(), Player::PlayerOne);
    assert_eq!(*state.board(), Board::new());
}

#[test]
fn hover_while_finished_changes_only_the_hovered_column() {
    let mut state = GameState::new();
    state.on_click(Button::Primary);
    for col in [0, 1, 0, 1, 0, 1, 0] {
        play(&mut state, col);
    }
    let before = *state.board();
    hover(&mut state, 5);
    assert_eq!(state.phase(), GamePhase::Finished(Some(Player::PlayerOne)));
    assert_eq!(*state.board(), before);
    assert_eq!(state.round(), 8);
}

#[test]
fn clear_empties_the_board_and_keeps_the_pointer() {
    let mut state = GameState::new();
    state.on_click(Button::Primary);
    play(&mut state, 2);
    play(&mut state, 3);
    state.clear();
    assert_eq!(*state.board(), Board::new());
    assert_eq!(state.phase(), GamePhase::Active);
    assert_eq!(state.round(), 1);
    assert_eq!(state.turn(), Player::PlayerOne);
    assert_eq!(state.hovered(), Some(3));
}

#[test]
fn every_column_can_be_played() {
    let mut state = GameState::new();
    state.on_click(Button::Primary);
    for col in 0..COLUMNS {
        play(&mut state, col);
        assert_ne!(state.board().cell_at(col, ROWS - 1), Cell::Empty);
    }
    assert_eq!(state.round(), 8);
}

#[test]
fn winner_of_the_state_is_that_of_its_board() {
    let mut state = GameState::new();
    assert_eq!(state.winner(), None);
    state.on_click(Button::Primary);
    for col in [3, 3, 4, 4, 5, 5] {
        play(&mut state, col);
        assert_eq!(state.winner(), None);
    }
    play(&mut state, 6);
    assert_eq!(state.winner(), Some(Player::PlayerOne));
    assert_eq!(state.phase(), GamePhase::Finished(Some(Player::PlayerOne)));
}

#[test]
fn won_game_ignores_further_drops() {
    let mut state = GameState::new();
    state.on_click(Button::Primary);
    for col in [0, 1, 0, 1, 0, 1, 0] {
        play(&mut state, col);
    }
    play(&mut state, 5);
    assert_eq!(state.phase(), GamePhase::Active);
    assert_eq!(state.board().cell_at(5, 5), Cell::Empty);
    assert_eq!(state.round(), 1);
}
