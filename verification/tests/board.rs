use connect_four::board::{Board, ColumnFullError, COLUMNS, ROWS};
use connect_four::cell::{Cell, Player};

#[test]
fn new_board_is_empty() {
    let board = Board::new();
    for col in 0..COLUMNS {
        for row in 0..ROWS {
            assert_eq!(board.cell_at(col, row), Cell::Empty);
        }
    }
    assert!(!board.is_full());
}

#[test]
fn dimensions_are_seven_by_six() {
    assert_eq!(COLUMNS, 7);
    assert_eq!(ROWS, 6);
}

#[test]
fn first_drop_lands_on_bottom_row() {
    let mut board = Board::new();
    assert_eq!(board.drop(3, Cell::PlayerOneMark), Ok(5));
    assert_eq!(board.cell_at(3, 5), Cell::PlayerOneMark);
    assert_eq!(board.cell_at(3, 4), Cell::Empty);
}

#[test]
fn drop_lands_above_existing_marks() {
    for col in 0..COLUMNS {
        let mut board = Board::new();
        for k in 0..ROWS {
            let mark = if k % 2 == 0 { Cell::PlayerOneMark } else { Cell::PlayerTwoMark };
            assert_eq!(board.landing_row(col), Some(ROWS - 1 - k));
            assert_eq!(board.drop(col, mark), Ok(ROWS - 1 - k));
            assert_eq!(board.cell_at(col, ROWS - 1 - k), mark);
        }
        assert_eq!(board.landing_row(col), None);
    }
}

#[test]
fn drop_changes_one_cell_only() {
    let mut board = Board::new();
    board.drop(2, Cell::PlayerTwoMark).unwrap();
    let before = board;
    assert_eq!(board.drop(2, Cell::PlayerOneMark), Ok(4));
    for col in 0..COLUMNS {
        for row in 0..ROWS {
            if (col, row) == (2, 4) {
                assert_eq!(board.cell_at(col, row), Cell::PlayerOneMark);
            } else {
                assert_eq!(board.cell_at(col, row), before.cell_at(col, row));
            }
        }
    }
}

#[test]
fn drop_into_full_column_fails_and_changes_nothing() {
    let mut board = Board::new();
    for _ in 0..ROWS {
        assert!(board.drop(6, Cell::PlayerOneMark).is_ok());
    }
    assert!(board.is_column_full(6));
    assert!(!board.is_column_full(5));
    let before = board;
    assert_eq!(board.drop(6, Cell::PlayerTwoMark), Err(ColumnFullError));
    assert_eq!(board, before);
}

#[test]
fn drop_lands_under_a_floating_mark() {
    let mut board = Board::new();
    board.set_cell(1, 2, Cell::PlayerTwoMark);
    assert_eq!(board.drop(1, Cell::PlayerOneMark), Ok(5));
    assert_eq!(board.cell_at(1, 2), Cell::PlayerTwoMark);
}

#[test]
fn board_is_full_exactly_after_forty_two_marks() {
    let mut board = Board::new();
    let mut placed = 0;
    for col in 0..COLUMNS {
        for _ in 0..ROWS {
            assert!(!board.is_full());
            assert!(board.drop(col, Cell::PlayerOneMark).is_ok());
            placed += 1;
        }
    }
    assert_eq!(placed, 42);
    assert!(board.is_full());
    for col in 0..COLUMNS {
        assert_eq!(board.drop(col, Cell::PlayerTwoMark), Err(ColumnFullError));
    }
}

#[test]
fn one_empty_cell_keeps_the_board_from_being_full() {
    let mut board = Board::new();
    for col in 0..COLUMNS {
        for row in 0..ROWS {
            board.set_cell(col, row, Cell::PlayerTwoMark);
        }
    }
    assert!(board.is_full());
    board.set_cell(6, 0, Cell::Empty);
    assert!(!board.is_full());
    assert_eq!(board.drop(6, Cell::PlayerOneMark), Ok(0));
    assert!(board.is_full());
}

#[test]
fn set_cell_writes_the_cell() {
    let mut board = Board::new();
    board.set_cell(4, 1, Cell::PlayerOneMark);
    assert_eq!(board.cell_at(4, 1), Cell::PlayerOneMark);
    assert_eq!(board.cell_at(1, 4), Cell::Empty);
    board.set_cell(4, 1, Cell::Empty);
    assert_eq!(board, Board::new());
}

#[test]
fn marks_and_owners_agree() {
    assert_eq!(Player::PlayerOne.mark(), Cell::PlayerOneMark);
    assert_eq!(Player::PlayerTwo.mark(), Cell::PlayerTwoMark);
    assert_eq!(Cell::PlayerOneMark.owner(), Some(Player::PlayerOne));
    assert_eq!(Cell::PlayerTwoMark.owner(), Some(Player::PlayerTwo));
    assert_eq!(Cell::Empty.owner(), None);
    assert!(Cell::Empty.is_empty());
    assert!(!Cell::PlayerOneMark.is_empty());
}

#[test]
fn players_alternate_and_have_names() {
    assert_eq!(Player::PlayerOne.other(), Player::PlayerTwo);
    assert_eq!(Player::PlayerTwo.other(), Player::PlayerOne);
    assert_eq!(Player::PlayerOne.name(), "Player 1");
    assert_eq!(Player::PlayerTwo.name(), "Player 2");
}
