use tictactoe::board::{Board, Outcome};
use tictactoe::token::Token;

fn board_of(marks: &[(i32, &'static str)]) -> Board<'static> {
    let mut board = Board::new();
    for &(space, label) in marks {
        board.put(space, Token::new(label));
    }
    board
}

#[test]
fn empty_board_is_in_progress() {
    let board = Board::new();
    assert_eq!(board.outcome(), None);
    assert!(!board.full());
}

#[test]
fn top_row_wins() {
    let x = Token::new("X");
    let mut board = Board::new();
    board.put(1, x).put(2, x).put(3, x);
    assert_eq!(board.outcome(), Some(Outcome::Winner(Token::new("X"))));
}

#[test]
fn every_line_wins() {
    let lines = [
        [1, 2, 3],
        [4, 5, 6],
        [7, 8, 9],
        [1, 4, 7],
        [2, 5, 8],
        [3, 6, 9],
        [1, 5, 9],
        [3, 5, 7],
    ];
    for line in lines {
        let o = Token::new("O");
        let mut board = Board::new();
        for s in line {
            board.put(s, o);
        }
        assert_eq!(board.outcome(), Some(Outcome::Winner(o)), "line {:?}", line);
    }
}

#[test]
fn full_board_without_line_is_draw() {
    let board = board_of(&[
        (1, "X"),
        (2, "O"),
        (3, "X"),
        (4, "X"),
        (5, "O"),
        (6, "O"),
        (7, "O"),
        (8, "X"),
        (9, "X"),
    ]);
    assert!(board.full());
    assert_eq!(board.outcome(), Some(Outcome::Draw));
}

#[test]
fn full_board_with_line_is_a_win() {
    let board = board_of(&[
        (1, "X"),
        (2, "X"),
        (3, "X"),
        (4, "O"),
        (5, "O"),
        (6, "X"),
        (7, "O"),
        (8, "X"),
        (9, "O"),
    ]);
    assert!(board.full());
    assert_eq!(board.outcome(), Some(Outcome::Winner(Token::new("X"))));
}

#[test]
fn open_board_without_line_goes_on() {
    let board = board_of(&[(1, "X"), (2, "O"), (3, "X"), (5, "O"), (4, "X")]);
    assert_eq!(board.outcome(), None);
}

#[test]
fn mixed_line_does_not_win() {
    let board = board_of(&[(1, "X"), (2, "X"), (3, "O")]);
    assert_eq!(board.outcome(), None);
}

#[test]
fn two_in_a_line_do_not_win() {
    let board = board_of(&[(1, "X"), (2, "X")]);
    assert_eq!(board.outcome(), None);
}

#[test]
fn first_line_in_order_decides() {
    let board = board_of(&[(1, "X"), (2, "X"), (3, "X"), (7, "O"), (8, "O"), (9, "O")]);
    assert_eq!(board.outcome(), Some(Outcome::Winner(Token::new("X"))));
}

#[test]
fn outcome_is_repeatable() {
    let board = board_of(&[(3, "O"), (5, "O"), (7, "O"), (1, "X")]);
    let first = board.outcome();
    let second = board.outcome();
    assert_eq!(first, second);
    assert_eq!(first, Some(Outcome::Winner(Token::new("O"))));
}

#[test]
fn full_needs_all_nine_spaces() {
    let all: Vec<(i32, &'static str)> = (1..=9).map(|s| (s, "X")).collect();
    assert!(board_of(&all).full());
    for missing in 1..=9 {
        let some: Vec<(i32, &'static str)> =
            (1..=9).filter(|&s| s != missing).map(|s| (s, "X")).collect();
        assert!(!board_of(&some).full(), "space {} empty", missing);
    }
}

#[test]
fn spaces_outside_the_grid_do_not_count() {
    let board = board_of(&[(0, "X"), (10, "X"), (-1, "X"), (11, "X"), (12, "X"), (13, "X"), (14, "X"), (15, "X"), (16, "X")]);
    assert!(!board.full());
    assert_eq!(board.get(10), Some(Token::new("X")));
}

#[test]
fn get_reports_what_was_put() {
    let mut board = Board::new();
    assert_eq!(board.get(4), None);
    board.put(4, Token::new("O"));
    assert_eq!(board.get(4), Some(Token::new("O")));
    assert_eq!(board.get(5), None);
}

#[test]
fn put_replaces_an_occupied_space() {
    let mut board = Board::new();
    board.put(5, Token::new("X")).put(5, Token::new("O"));
    assert_eq!(board.get(5), Some(Token::new("O")));
}

#[test]
fn tokens_compare_by_label() {
    let owned = String::from("XY");
    assert_eq!(Token::new("XY"), Token::new(&owned));
    assert_ne!(Token::new("X"), Token::new("XY"));
    assert_ne!(Token::new("XZ"), Token::new("XY"));
    assert_ne!(Token::new(""), Token::new("X"));
    assert_eq!(Token::new(""), Token::new(""));
}

#[test]
fn longer_labels_win_too() {
    let board = board_of(&[(2, "cross"), (5, "cross"), (8, "cross"), (1, "crosses")]);
    assert_eq!(board.outcome(), Some(Outcome::Winner(Token::new("cross"))));
}

#[test]
fn alternating_fill_without_line_is_draw() {
    let board = board_of(&[
        (1, "X"),
        (2, "O"),
        (3, "X"),
        (5, "O"),
        (4, "X"),
        (7, "O"),
        (6, "X"),
        (9, "O"),
        (8, "X"),
    ]);
    assert_eq!(board.outcome(), Some(Outcome::Draw));
}
