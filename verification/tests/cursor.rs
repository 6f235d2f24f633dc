use editor_core::cursor::{Cursor, MoveCursor};
use editor_core::ViewMode;

#[test]
fn default_cursor_is_the_origin() {
    assert_eq!(Cursor::default(), Cursor { row: 0, col: 0, ghost_col: 0 });
}

#[test]
fn set_row_leaves_the_columns() {
    let mut c = Cursor { row: 3, col: 1, ghost_col: 9 };
    c.set_row(usize::MAX);
    assert_eq!(c, Cursor { row: usize::MAX, col: 1, ghost_col: 9 });
}

#[test]
fn set_column_sets_both_columns() {
    let mut c = Cursor { row: 3, col: 1, ghost_col: 9 };
    c.set_column(4);
    assert_eq!(c, Cursor { row: 3, col: 4, ghost_col: 4 });
}

#[test]
fn cursor_shows_row_and_column() {
    assert_eq!(Cursor::default().to_string(), "0:0");
    assert_eq!(Cursor { row: 12, col: 345, ghost_col: 6 }.to_string(), "12:345");
    assert_eq!(Cursor { row: 10, col: 9, ghost_col: 0 }.to_string(), "10:9");
    assert_eq!(Cursor { row: 1000, col: 1090, ghost_col: 0 }.to_string(), "1000:1090");
}

#[test]
fn cursor_shows_the_greatest_numbers() {
    let shown = Cursor { row: usize::MAX, col: usize::MAX - 1, ghost_col: 0 }.to_string();
    assert_eq!(shown, format!("{}:{}", usize::MAX, usize::MAX - 1));
}

#[test]
fn cursor_text_is_that_of_std_for_many_numbers() {
    let mut n: usize = 0;
    while n < 5_000_000 {
        let c = Cursor { row: n, col: n / 7, ghost_col: 0 };
        assert_eq!(c.to_string(), format!("{}:{}", n, n / 7));
        n = n * 3 + 1;
    }
}

#[test]
fn view_mode_names() {
    assert_eq!(ViewMode::Normal.to_string(), "NORMAL");
    assert_eq!(ViewMode::Insert.to_string(), "INSERT");
    assert_eq!(ViewMode::Select.to_string(), "SELECT");
}

#[test]
fn move_cursor_variants_compare() {
    assert_eq!(MoveCursor::Left(2), MoveCursor::Left(2));
    assert_ne!(MoveCursor::Left(2), MoveCursor::Right(2));
    assert_ne!(MoveCursor::Home, MoveCursor::End);
}
