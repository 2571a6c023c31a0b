use shuttlings_cch24::days::day_12::{Board, GameState, Item, PlaceError, Team};

const EMPTY_TEXT: &str = "⬜⬛⬛⬛⬛⬜\n⬜⬛⬛⬛⬛⬜\n⬜⬛⬛⬛⬛⬜\n⬜⬛⬛⬛⬛⬜\n⬜⬜⬜⬜⬜⬜\n";

fn place_all(board: &mut Board, moves: &[(Team, usize)]) {
    for &(team, column) in moves {
        assert!(board.place(team, column).is_ok());
    }
}

#[test]
fn new_board_renders_empty() {
    assert_eq!(Board::new().render(), EMPTY_TEXT);
}

#[test]
fn vertical_win_in_first_column() {
    let mut board = Board::new();
    for _ in 0..3 {
        let snapshot = board.place_numbered(Team::Cookie, 1).unwrap();
        assert!(!snapshot.render().contains("wins"));
    }
    let snapshot = board.place_numbered(Team::Cookie, 1).unwrap();
    let text = snapshot.render();
    assert_eq!(
        text,
        "⬜🍪⬛⬛⬛⬜\n⬜🍪⬛⬛⬛⬜\n⬜🍪⬛⬛⬛⬜\n⬜🍪⬛⬛⬛⬜\n⬜⬜⬜⬜⬜⬜\n🍪 wins!\n"
    );
    assert!(text.ends_with("🍪 wins!\n"));
}

#[test]
fn full_board_without_line_is_a_draw() {
    let mut board = Board::new();
    // rows from the top: C M C M / C M C M / M C M C / M C M C
    let columns = [
        [Team::Milk, Team::Milk, Team::Cookie, Team::Cookie],
        [Team::Cookie, Team::Cookie, Team::Milk, Team::Milk],
        [Team::Milk, Team::Milk, Team::Cookie, Team::Cookie],
        [Team::Cookie, Team::Cookie, Team::Milk, Team::Milk],
    ];
    for (column, teams) in columns.iter().enumerate() {
        for &team in teams {
            assert!(board.place(team, column).is_ok());
        }
    }
    let text = board.render();
    assert_eq!(
        text,
        "⬜🍪🥛🍪🥛⬜\n⬜🍪🥛🍪🥛⬜\n⬜🥛🍪🥛🍪⬜\n⬜🥛🍪🥛🍪⬜\n⬜⬜⬜⬜⬜⬜\nNo winner.\n"
    );
    assert!(text.ends_with("No winner.\n"));
}

#[test]
fn main_diagonal_wins() {
    let mut board = Board::new();
    place_all(
        &mut board,
        &[
            (Team::Milk, 0),
            (Team::Milk, 0),
            (Team::Milk, 0),
            (Team::Cookie, 0),
            (Team::Milk, 1),
            (Team::Milk, 1),
            (Team::Cookie, 1),
            (Team::Milk, 2),
            (Team::Cookie, 2),
        ],
    );
    assert!(!board.render().contains("wins"));
    assert!(board.place(Team::Cookie, 3).is_ok());
    assert!(board.render().ends_with("🍪 wins!\n"));
}

#[test]
fn anti_diagonal_wins_for_milk() {
    let mut board = Board::new();
    place_all(
        &mut board,
        &[
            (Team::Cookie, 3),
            (Team::Cookie, 3),
            (Team::Cookie, 3),
            (Team::Milk, 3),
            (Team::Cookie, 2),
            (Team::Cookie, 2),
            (Team::Milk, 2),
            (Team::Cookie, 1),
            (Team::Milk, 1),
            (Team::Milk, 0),
        ],
    );
    assert!(board.render().ends_with("🥛 wins!\n"));
}

#[test]
fn row_win_at_the_bottom() {
    let mut board = Board::new();
    place_all(&mut board, &[(Team::Milk, 0), (Team::Milk, 1), (Team::Milk, 2)]);
    assert!(!board.render().contains("wins"));
    place_all(&mut board, &[(Team::Milk, 3)]);
    assert_eq!(
        board.render(),
        "⬜⬛⬛⬛⬛⬜\n⬜⬛⬛⬛⬛⬜\n⬜⬛⬛⬛⬛⬜\n⬜🥛🥛🥛🥛⬜\n⬜⬜⬜⬜⬜⬜\n🥛 wins!\n"
    );
}

#[test]
fn full_column_is_refused_and_board_kept() {
    let mut board = Board::new();
    place_all(
        &mut board,
        &[(Team::Cookie, 2), (Team::Milk, 2), (Team::Cookie, 2), (Team::Milk, 2)],
    );
    let before = board.render();
    match board.place(Team::Cookie, 2) {
        Err(PlaceError::ColumnFull(b)) => assert_eq!(b.render(), before),
        other => panic!("unexpected {:?}", other),
    }
    assert_eq!(board.render(), before);
}

#[test]
fn out_of_range_column_is_refused() {
    let mut board = Board::new();
    assert!(matches!(board.place(Team::Milk, 4), Err(PlaceError::ColumnNotFound)));
    assert!(matches!(board.place(Team::Milk, usize::MAX), Err(PlaceError::ColumnNotFound)));
    assert!(matches!(board.place_numbered(Team::Milk, 0), Err(PlaceError::ColumnNotFound)));
    assert!(matches!(board.place_numbered(Team::Milk, 5), Err(PlaceError::ColumnNotFound)));
    assert_eq!(board.render(), EMPTY_TEXT);
    // also after the game has ended
    place_all(&mut board, &[(Team::Milk, 0), (Team::Milk, 0), (Team::Milk, 0), (Team::Milk, 0)]);
    let before = board.render();
    assert!(matches!(board.place(Team::Cookie, 7), Err(PlaceError::ColumnNotFound)));
    assert_eq!(board.render(), before);
}

#[test]
fn game_over_refuses_every_placement_until_reset() {
    let mut board = Board::new();
    place_all(&mut board, &[(Team::Milk, 1), (Team::Milk, 1), (Team::Milk, 1), (Team::Milk, 1)]);
    let before = board.render();
    for column in 0..4 {
        match board.place(Team::Cookie, column) {
            Err(PlaceError::GameOver(b)) => assert_eq!(b.render(), before),
            other => panic!("unexpected {:?}", other),
        }
    }
    assert_eq!(board.render(), before);
    let fresh = board.reset();
    assert_eq!(fresh.render(), EMPTY_TEXT);
    assert!(board.place(Team::Cookie, 0).is_ok());
}

#[test]
fn reset_then_inspect_is_empty() {
    let mut board = Board::new();
    place_all(&mut board, &[(Team::Cookie, 0), (Team::Milk, 3)]);
    board.reset();
    let snapshot = board.inspect();
    assert_eq!(snapshot.render(), EMPTY_TEXT);
}

#[test]
fn inspect_is_a_copy() {
    let mut board = Board::new();
    let snapshot = board.inspect();
    place_all(&mut board, &[(Team::Cookie, 0)]);
    assert_eq!(snapshot.render(), EMPTY_TEXT);
    assert_ne!(board.render(), EMPTY_TEXT);
}

#[test]
fn tokens_fall_to_the_lowest_empty_cell() {
    let mut board = Board::new();
    place_all(&mut board, &[(Team::Cookie, 3), (Team::Milk, 3)]);
    assert_eq!(
        board.render(),
        "⬜⬛⬛⬛⬛⬜\n⬜⬛⬛⬛⬛⬜\n⬜⬛⬛⬛🥛⬜\n⬜⬛⬛⬛🍪⬜\n⬜⬜⬜⬜⬜⬜\n"
    );
}

#[test]
fn error_messages_and_codes() {
    assert_eq!(PlaceError::ColumnNotFound.message(), "the requested column does not exist");
    assert_eq!(PlaceError::ColumnNotFound.status_code(), 400);
    assert_eq!(PlaceError::InternalError.message(), "internal error");
    assert_eq!(PlaceError::InternalError.status_code(), 500);
    assert_eq!(PlaceError::ColumnFull(Board::new()).message(), EMPTY_TEXT);
    assert_eq!(PlaceError::ColumnFull(Board::new()).status_code(), 503);
    assert_eq!(PlaceError::GameOver(Board::new()).status_code(), 503);
}

#[test]
fn state_and_item_conversions() {
    assert!(!GameState::NotEnded.is_game_over());
    assert!(GameState::CookieWon.is_game_over());
    assert!(GameState::MilkWon.is_game_over());
    assert!(GameState::NoWinner.is_game_over());
    assert_eq!(GameState::from(Item::Empty), GameState::NotEnded);
    assert_eq!(GameState::from(Item::Milk), GameState::MilkWon);
    assert_eq!(Item::from(Team::Cookie), Item::Cookie);
    assert_eq!(Item::default(), Item::Empty);
    assert_eq!(GameState::NoWinner.status_line(), "No winner.\n");
    assert_eq!(GameState::NotEnded.status_line(), "");
}
