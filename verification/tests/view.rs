use editor_core::cursor::{Cursor, MoveCursor};
use editor_core::view::{BufferError, TextView, View};

fn text_of(view: &TextView) -> String {
    view.buffer().to_string()
}

fn at(row: usize, col: usize) -> Cursor {
    Cursor { row, col, ghost_col: col }
}

fn place(view: &TextView) -> (usize, usize) {
    (view.cursor().row, view.cursor().col)
}

/// A view of `text` with the cursor moved `offset` characters into it.
fn view_at(text: &str, offset: usize) -> TextView {
    let mut view = TextView::from_str(text);
    view.move_cursor(MoveCursor::Right(offset));
    view
}

// Construction.

#[test]
fn from_str_starts_at_the_top() {
    let view = TextView::from_str("ab\ncd");
    assert_eq!(text_of(&view), "ab\ncd");
    assert_eq!(*view.cursor(), Cursor { row: 0, col: 0, ghost_col: 0 });
    assert_eq!(view.selection(), None);
    assert_eq!(view.len_chars(), 5);
    assert_eq!(view.len_lines(), 2);
}

#[test]
fn new_takes_a_rope() {
    let view = TextView::new(ropey::Rope::from_str("x\ny\nz"));
    assert_eq!(text_of(&view), "x\ny\nz");
    assert_eq!(*view.cursor(), Cursor::default());
    assert_eq!(view.len_lines(), 3);
    assert_eq!(view.len_chars(), 5);
}

#[test]
fn empty_buffer_has_one_empty_line() {
    let mut view = TextView::from_str("");
    assert_eq!(view.len_lines(), 1);
    assert_eq!(view.len_chars(), 0);
    assert_eq!(view.line_end_index(0), 0);
    view.move_cursor(MoveCursor::Right(3));
    view.move_cursor(MoveCursor::Down(3));
    view.move_cursor(MoveCursor::Left(3));
    view.move_cursor(MoveCursor::Up(3));
    view.move_cursor(MoveCursor::End);
    assert_eq!(*view.cursor(), at(0, 0));
    assert_eq!(view.remove(true), Ok(()));
    assert_eq!(view.remove(false), Ok(()));
    assert_eq!(text_of(&view), "");
}

// Lines.

#[test]
fn line_end_index_leaves_the_line_feed_out() {
    let view = TextView::from_str("ab\ncde\n");
    assert_eq!(view.len_lines(), 3);
    assert_eq!(view.line_end_index(0), 2);
    assert_eq!(view.line_end_index(1), 3);
    assert_eq!(view.line_end_index(2), 0);
}

#[test]
fn line_end_index_of_last_line_without_line_feed() {
    let view = TextView::from_str("ab\ncde");
    assert_eq!(view.line_end_index(1), 3);
}

#[test]
fn only_line_feeds_break_lines() {
    let view = TextView::from_str("a\rb\u{2028}c\u{0b}d\u{0c}e\u{85}f\u{2029}g");
    assert_eq!(view.len_lines(), 1);
    assert_eq!(view.line_end_index(0), 13);
}

#[test]
fn carriage_return_before_line_feed_counts_as_a_character() {
    let view = TextView::from_str("ab\r\ncd");
    assert_eq!(view.len_lines(), 2);
    assert_eq!(view.line_end_index(0), 3);
    assert_eq!(view.line_end_index(1), 2);
}

// Movement.

#[test]
fn home_and_end() {
    let mut view = view_at("hello\nworld!", 8);
    assert_eq!(*view.cursor(), at(1, 2));
    view.move_cursor(MoveCursor::End);
    assert_eq!(*view.cursor(), at(1, 6));
    view.move_cursor(MoveCursor::Home);
    assert_eq!(*view.cursor(), at(1, 0));
}

#[test]
fn left_from_end_of_hello_reaches_start() {
    let mut view = TextView::from_str("hello");
    view.move_cursor(MoveCursor::End);
    assert_eq!(*view.cursor(), at(0, 5));
    view.move_cursor(MoveCursor::Left(5));
    assert_eq!(*view.cursor(), at(0, 0));
}

#[test]
fn left_at_line_start_wraps_to_previous_line_end() {
    let mut view = TextView::from_str("ab\ncd");
    view.move_cursor(MoveCursor::Down(1));
    assert_eq!(place(&view), (1, 0));
    view.move_cursor(MoveCursor::Left(1));
    assert_eq!(*view.cursor(), at(0, 2));
}

#[test]
fn right_at_line_end_wraps_to_next_line_start() {
    let mut view = TextView::from_str("ab\ncd");
    view.move_cursor(MoveCursor::End);
    view.move_cursor(MoveCursor::Right(1));
    assert_eq!(*view.cursor(), at(1, 0));
    view.move_cursor(MoveCursor::Right(1));
    assert_eq!(*view.cursor(), at(1, 1));
}

#[test]
fn left_and_right_walk_through_the_text() {
    let mut view = TextView::from_str("ab\n\ncd\n");
    let places = [(0, 0), (0, 1), (0, 2), (1, 0), (2, 0), (2, 1), (2, 2), (3, 0)];
    for (offset, expected) in places.iter().enumerate() {
        assert_eq!(place(&view), *expected, "offset {offset}");
        view.move_cursor(MoveCursor::Right(1));
    }
    assert_eq!(place(&view), (3, 0));
    for expected in places.iter().rev() {
        assert_eq!(place(&view), *expected);
        view.move_cursor(MoveCursor::Left(1));
    }
    assert_eq!(place(&view), (0, 0));
}

#[test]
fn a_move_by_many_is_as_many_single_steps() {
    let text = "one\ntwo\n\nthree";
    for n in 0..16 {
        let by_n = view_at(text, n);
        let mut stepwise = TextView::from_str(text);
        for _ in 0..n {
            stepwise.move_cursor(MoveCursor::Right(1));
        }
        assert_eq!(*by_n.cursor(), *stepwise.cursor(), "right {n}");

        let mut back = view_at(text, 14);
        back.move_cursor(MoveCursor::Left(n));
        let mut back_stepwise = view_at(text, 14);
        for _ in 0..n {
            back_stepwise.move_cursor(MoveCursor::Left(1));
        }
        assert_eq!(*back.cursor(), *back_stepwise.cursor(), "left {n}");
    }
}

#[test]
fn left_at_buffer_start_stays() {
    let mut view = TextView::from_str("ab\ncd");
    view.move_cursor(MoveCursor::Left(1));
    assert_eq!(*view.cursor(), at(0, 0));
    view.move_cursor(MoveCursor::Left(usize::MAX));
    assert_eq!(*view.cursor(), at(0, 0));
}

#[test]
fn right_at_buffer_end_stays() {
    let mut view = TextView::from_str("ab\ncd");
    view.move_cursor(MoveCursor::Right(usize::MAX));
    assert_eq!(*view.cursor(), at(1, 2));
    view.move_cursor(MoveCursor::Right(1));
    assert_eq!(*view.cursor(), at(1, 2));
}

#[test]
fn down_past_the_last_line_clamps() {
    let mut view = TextView::from_str("ab\ncd\nef");
    view.move_cursor(MoveCursor::Down(7));
    assert_eq!(place(&view), (2, 0));
    view.move_cursor(MoveCursor::Down(usize::MAX));
    assert_eq!(place(&view), (2, 0));
    view.move_cursor(MoveCursor::Down(1));
    assert_eq!(place(&view), (2, 0));
}

#[test]
fn up_saturates_at_the_first_line() {
    let mut view = TextView::from_str("ab\ncd\nef");
    view.move_cursor(MoveCursor::Down(2));
    view.move_cursor(MoveCursor::Up(1));
    assert_eq!(place(&view), (1, 0));
    view.move_cursor(MoveCursor::Up(5));
    assert_eq!(place(&view), (0, 0));
    view.move_cursor(MoveCursor::Up(usize::MAX));
    assert_eq!(place(&view), (0, 0));
}

#[test]
fn ghost_column_returns_on_a_long_enough_line() {
    let mut view = TextView::from_str("a long line\nab\na long line");
    view.move_cursor(MoveCursor::Right(7));
    assert_eq!(*view.cursor(), at(0, 7));
    view.move_cursor(MoveCursor::Down(1));
    assert_eq!(*view.cursor(), Cursor { row: 1, col: 2, ghost_col: 7 });
    view.move_cursor(MoveCursor::Down(1));
    assert_eq!(*view.cursor(), Cursor { row: 2, col: 7, ghost_col: 7 });
    view.move_cursor(MoveCursor::Up(1));
    assert_eq!(*view.cursor(), Cursor { row: 1, col: 2, ghost_col: 7 });
    view.move_cursor(MoveCursor::Up(1));
    assert_eq!(*view.cursor(), Cursor { row: 0, col: 7, ghost_col: 7 });
}

#[test]
fn horizontal_move_starts_from_the_shown_column() {
    let mut view = TextView::from_str("a long line\nab\na long line");
    view.move_cursor(MoveCursor::Right(7));
    view.move_cursor(MoveCursor::Down(1));
    assert_eq!(*view.cursor(), Cursor { row: 1, col: 2, ghost_col: 7 });
    view.move_cursor(MoveCursor::Left(1));
    assert_eq!(*view.cursor(), at(1, 1));
    view.move_cursor(MoveCursor::Down(1));
    assert_eq!(*view.cursor(), at(2, 1));
}

#[test]
fn horizontal_move_by_zero_settles_the_ghost_column() {
    let mut view = TextView::from_str("a long line\nab");
    view.move_cursor(MoveCursor::Right(7));
    view.move_cursor(MoveCursor::Down(1));
    view.move_cursor(MoveCursor::Right(0));
    assert_eq!(*view.cursor(), at(1, 2));
}

#[test]
fn after_left_and_right_moves_the_columns_agree() {
    let text = "ab\n\nlonger line\nx";
    let moves = [
        MoveCursor::Right(3),
        MoveCursor::Left(1),
        MoveCursor::Right(9),
        MoveCursor::Right(40),
        MoveCursor::Left(2),
        MoveCursor::Left(17),
        MoveCursor::Right(1),
    ];
    let mut view = TextView::from_str(text);
    view.move_cursor(MoveCursor::Down(2));
    view.move_cursor(MoveCursor::End);
    view.move_cursor(MoveCursor::Up(1));
    for mov in moves {
        view.move_cursor(mov);
        let cursor = *view.cursor();
        assert_eq!(cursor.col, cursor.ghost_col);
        assert!(cursor.row < view.len_lines());
        assert!(cursor.col <= view.line_end_index(cursor.row));
    }
    assert_eq!(*view.cursor(), at(0, 1));
}

// Insertion.

#[test]
fn insert_line_feed_starts_a_fresh_line() {
    let mut view = view_at("ab\ncd", 2);
    assert_eq!(*view.cursor(), at(0, 2));
    assert_eq!(view.insert_char('\n'), Ok(()));
    assert_eq!(text_of(&view), "ab\n\ncd");
    assert_eq!(*view.cursor(), at(1, 0));
}

#[test]
fn insert_char_steps_right() {
    let mut view = view_at("ab\ncd", 4);
    assert_eq!(view.insert_char('x'), Ok(()));
    assert_eq!(text_of(&view), "ab\ncxd");
    assert_eq!(*view.cursor(), at(1, 2));
}

#[test]
fn insert_char_at_the_end_of_the_buffer() {
    let mut view = view_at("ab", 2);
    assert_eq!(view.insert_char('c'), Ok(()));
    assert_eq!(view.insert_char('\n'), Ok(()));
    assert_eq!(view.insert_char('d'), Ok(()));
    assert_eq!(text_of(&view), "abc\nd");
    assert_eq!(*view.cursor(), at(1, 1));
}

#[test]
fn insert_puts_the_cursor_behind_the_text() {
    let mut view = view_at("ab\ncd", 1);
    assert_eq!(view.insert("XYZ"), Ok(()));
    assert_eq!(text_of(&view), "aXYZb\ncd");
    assert_eq!(*view.cursor(), at(0, 4));
}

#[test]
fn insert_with_line_feeds_lands_on_the_last_inserted_line() {
    let mut view = view_at("ab\ncd", 1);
    assert_eq!(view.insert("1\n22\n333"), Ok(()));
    assert_eq!(text_of(&view), "a1\n22\n333b\ncd");
    assert_eq!(*view.cursor(), at(2, 3));
}

#[test]
fn insert_ending_in_a_line_feed_lands_on_the_next_line() {
    let mut view = view_at("ab", 2);
    assert_eq!(view.insert("x\n"), Ok(()));
    assert_eq!(text_of(&view), "abx\n");
    assert_eq!(*view.cursor(), at(1, 0));
}

#[test]
fn insert_counts_characters_not_bytes() {
    let mut view = TextView::from_str("ab");
    assert_eq!(view.insert("é→𝄞"), Ok(()));
    assert_eq!(text_of(&view), "é→𝄞ab");
    assert_eq!(*view.cursor(), at(0, 3));
}

#[test]
fn insert_of_nothing_settles_the_ghost_column() {
    let mut view = TextView::from_str("a long line\nab");
    view.move_cursor(MoveCursor::Right(7));
    view.move_cursor(MoveCursor::Down(1));
    assert_eq!(view.insert(""), Ok(()));
    assert_eq!(text_of(&view), "a long line\nab");
    assert_eq!(*view.cursor(), at(1, 2));
}

#[test]
fn insert_keeps_the_selection_anchor() {
    let mut view = TextView::from_str("ab");
    view.set_selection(Some(at(0, 1)));
    assert_eq!(view.insert("x"), Ok(()));
    assert_eq!(view.selection(), Some(at(0, 1)));
}

// Removal.

#[test]
fn backspace_at_buffer_start_changes_nothing() {
    let mut view = TextView::from_str("ab\ncd");
    assert_eq!(view.remove(true), Ok(()));
    assert_eq!(text_of(&view), "ab\ncd");
    assert_eq!(*view.cursor(), Cursor { row: 0, col: 0, ghost_col: 0 });
}

#[test]
fn backspace_at_buffer_start_keeps_the_anchor() {
    let mut view = TextView::from_str("ab\ncd");
    view.set_selection(Some(at(1, 1)));
    assert_eq!(view.remove(true), Ok(()));
    assert_eq!(text_of(&view), "ab\ncd");
    assert_eq!(view.selection(), Some(at(1, 1)));
}

#[test]
fn backspace_removes_the_character_before_the_cursor() {
    let mut view = view_at("ab\ncd", 4);
    assert_eq!(view.remove(true), Ok(()));
    assert_eq!(text_of(&view), "ab\nd");
    assert_eq!(*view.cursor(), at(1, 0));
}

#[test]
fn backspace_at_line_start_joins_the_lines() {
    let mut view = view_at("ab\ncd", 3);
    assert_eq!(*view.cursor(), at(1, 0));
    assert_eq!(view.remove(true), Ok(()));
    assert_eq!(text_of(&view), "abcd");
    assert_eq!(*view.cursor(), at(0, 2));
}

#[test]
fn delete_removes_the_character_at_the_cursor() {
    let mut view = view_at("ab\ncd", 1);
    assert_eq!(view.remove(false), Ok(()));
    assert_eq!(text_of(&view), "a\ncd");
    assert_eq!(*view.cursor(), at(0, 1));
}

#[test]
fn delete_leaves_the_cursor_where_it_is() {
    let mut view = TextView::from_str("abcd\na long line");
    view.move_cursor(MoveCursor::Down(1));
    view.move_cursor(MoveCursor::Right(7));
    assert_eq!(view.remove(false), Ok(()));
    assert_eq!(text_of(&view), "abcd\na long ine");
    assert_eq!(*view.cursor(), at(1, 7));
    view.move_cursor(MoveCursor::Up(1));
    assert_eq!(*view.cursor(), Cursor { row: 0, col: 4, ghost_col: 7 });
}

#[test]
fn delete_behind_the_last_character_changes_nothing() {
    let mut view = view_at("ab\ncd", 5);
    assert_eq!(*view.cursor(), at(1, 2));
    assert_eq!(view.remove(false), Ok(()));
    assert_eq!(text_of(&view), "ab\ncd");
    assert_eq!(*view.cursor(), at(1, 2));
}

#[test]
fn delete_on_the_empty_last_line_changes_nothing() {
    let mut view = view_at("ab\n", 3);
    assert_eq!(*view.cursor(), at(1, 0));
    assert_eq!(view.remove(false), Ok(()));
    assert_eq!(text_of(&view), "ab\n");
    assert_eq!(*view.cursor(), at(1, 0));
}

#[test]
fn delete_at_a_line_end_keeps_the_line_feed() {
    let mut view = view_at("ab\ncd", 2);
    assert_eq!(*view.cursor(), at(0, 2));
    assert_eq!(view.remove(false), Ok(()));
    assert_eq!(text_of(&view), "ab\ncd");
    assert_eq!(*view.cursor(), at(0, 2));
}

#[test]
fn delete_on_an_empty_line_keeps_the_line_feed() {
    let mut view = view_at("ab\n\ncd", 3);
    assert_eq!(*view.cursor(), at(1, 0));
    assert_eq!(view.remove(false), Ok(()));
    assert_eq!(text_of(&view), "ab\n\ncd");
    assert_eq!(*view.cursor(), at(1, 0));
}

#[test]
fn delete_at_a_line_end_keeps_cursor_and_ghost_column() {
    let mut view = TextView::from_str("a long line\nab\ncd");
    view.move_cursor(MoveCursor::Right(7));
    view.move_cursor(MoveCursor::Down(1));
    assert_eq!(*view.cursor(), Cursor { row: 1, col: 2, ghost_col: 7 });
    assert_eq!(view.remove(false), Ok(()));
    assert_eq!(text_of(&view), "a long line\nab\ncd");
    assert_eq!(*view.cursor(), Cursor { row: 1, col: 2, ghost_col: 7 });
}

#[test]
fn delete_before_a_line_end_takes_the_last_character_of_the_line() {
    let mut view = view_at("ab\ncd", 1);
    assert_eq!(view.remove(false), Ok(()));
    assert_eq!(text_of(&view), "a\ncd");
    assert_eq!(*view.cursor(), at(0, 1));
    assert_eq!(view.remove(false), Ok(()));
    assert_eq!(text_of(&view), "a\ncd");
    assert_eq!(*view.cursor(), at(0, 1));
}

#[test]
fn insert_then_backspace_gives_the_buffer_back() {
    for text in ["x", "hello", "a\nb", "\n", "\n\n", "é→𝄞\nz", ""] {
        for offset in 0..=6 {
            let mut view = view_at("ab\ncd\n", offset);
            let before = *view.cursor();
            assert_eq!(view.insert(text), Ok(()));
            for _ in 0..text.chars().count() {
                assert_eq!(view.remove(true), Ok(()));
            }
            assert_eq!(text_of(&view), "ab\ncd\n", "{text:?} at {offset}");
            assert_eq!(*view.cursor(), before, "{text:?} at {offset}");
        }
    }
}

#[test]
fn insert_char_then_backspace_gives_the_buffer_back() {
    for c in ['x', '\n', 'é'] {
        let mut view = view_at("ab\ncd", 2);
        assert_eq!(view.insert_char(c), Ok(()));
        assert_eq!(view.remove(true), Ok(()));
        assert_eq!(text_of(&view), "ab\ncd");
        assert_eq!(*view.cursor(), at(0, 2));
    }
}

// Selection.

#[test]
fn set_selection_sets_and_clears() {
    let mut view = TextView::from_str("abc");
    view.set_selection(Some(at(7, 7)));
    assert_eq!(view.selection(), Some(at(7, 7)));
    assert_eq!(text_of(&view), "abc");
    assert_eq!(*view.cursor(), Cursor::default());
    view.set_selection(None);
    assert_eq!(view.selection(), None);
}

#[test]
fn backspace_with_anchor_deletes_the_span() {
    let mut view = view_at("abcde", 1);
    view.set_selection(Some(at(0, 4)));
    assert_eq!(*view.cursor(), at(0, 1));
    assert_eq!(view.remove(true), Ok(()));
    assert_eq!(text_of(&view), "e");
    assert_eq!(*view.cursor(), at(0, 0));
    assert_eq!(view.selection(), None);
}

#[test]
fn backspace_with_anchor_over_lines() {
    let mut view = view_at("ab\ncd\nef", 2);
    view.set_selection(Some(at(2, 1)));
    assert_eq!(view.remove(true), Ok(()));
    assert_eq!(text_of(&view), "af");
    assert_eq!(*view.cursor(), at(0, 1));
    assert_eq!(view.selection(), None);
}

#[test]
fn backspace_with_anchor_at_the_buffer_end() {
    let mut view = view_at("abc", 1);
    view.set_selection(Some(at(0, 3)));
    assert_eq!(view.remove(true), Ok(()));
    assert_eq!(text_of(&view), "");
    assert_eq!(view.selection(), None);
}

#[test]
fn backspace_with_anchor_on_the_line_behind_the_last() {
    let mut view = view_at("ab\ncd", 4);
    view.set_selection(Some(at(2, 0)));
    assert_eq!(view.remove(true), Ok(()));
    assert_eq!(text_of(&view), "ab\n");
    assert_eq!(*view.cursor(), at(1, 0));
}

#[test]
fn backspace_with_anchor_where_the_cursor_lands_removes_nothing() {
    let mut view = view_at("abc", 2);
    view.set_selection(Some(at(0, 1)));
    assert_eq!(view.remove(true), Ok(()));
    assert_eq!(text_of(&view), "abc");
    assert_eq!(*view.cursor(), at(0, 1));
    assert_eq!(view.selection(), None);
}

#[test]
fn backspace_with_anchor_behind_the_buffer_fails() {
    let mut view = view_at("abc", 2);
    view.set_selection(Some(at(0, 9)));
    assert_eq!(view.remove(true), Err(BufferError::OutOfBounds));
    assert_eq!(text_of(&view), "abc");
    assert_eq!(*view.cursor(), at(0, 1));
    assert_eq!(view.selection(), Some(at(0, 9)));
}

#[test]
fn backspace_with_anchor_before_the_cursor_fails() {
    let mut view = view_at("abcde", 4);
    view.set_selection(Some(at(0, 1)));
    assert_eq!(view.remove(true), Err(BufferError::OutOfBounds));
    assert_eq!(text_of(&view), "abcde");
    assert_eq!(*view.cursor(), at(0, 3));
}

#[test]
fn backspace_with_anchor_at_the_buffer_start_fails() {
    let mut view = view_at("abc", 1);
    view.set_selection(Some(at(0, 0)));
    assert_eq!(view.remove(true), Err(BufferError::OutOfBounds));
    assert_eq!(text_of(&view), "abc");
    assert_eq!(*view.cursor(), at(0, 0));
}

#[test]
fn backspace_with_anchor_on_a_line_far_behind_fails() {
    let mut view = view_at("ab\ncd", 1);
    view.set_selection(Some(at(3, 0)));
    assert_eq!(view.remove(true), Err(BufferError::OutOfBounds));
    assert_eq!(text_of(&view), "ab\ncd");
    view.set_selection(Some(at(usize::MAX, usize::MAX)));
    view.move_cursor(MoveCursor::Right(3));
    assert_eq!(view.remove(true), Err(BufferError::OutOfBounds));
    assert_eq!(text_of(&view), "ab\ncd");
}

#[test]
fn backspace_with_anchor_column_that_overflows_fails() {
    let mut view = view_at("ab\ncd", 4);
    view.set_selection(Some(at(1, usize::MAX)));
    assert_eq!(view.remove(true), Err(BufferError::OutOfBounds));
    assert_eq!(text_of(&view), "ab\ncd");
    assert_eq!(*view.cursor(), at(1, 0));
}

#[test]
fn delete_forward_leaves_the_anchor() {
    let mut view = view_at("abc", 1);
    view.set_selection(Some(at(0, 2)));
    assert_eq!(view.remove(false), Ok(()));
    assert_eq!(text_of(&view), "ac");
    assert_eq!(view.selection(), Some(at(0, 2)));
}

#[test]
fn insert_then_backspace_with_the_anchor_behind_the_inserted_text() {
    let mut view = view_at("ab\ncd", 4);
    view.set_selection(Some(at(2, 1)));
    assert_eq!(view.insert("x\nyz\nw"), Ok(()));
    assert_eq!(*view.cursor(), at(3, 1));
    assert_eq!(view.selection(), Some(at(2, 1)));
    view.set_selection(Some(*view.cursor()));
    for _ in 0..6 {
        assert_eq!(view.remove(true), Ok(()));
    }
    assert_eq!(text_of(&view), "ab\ncd");
    assert_eq!(*view.cursor(), at(1, 1));
    assert_eq!(view.selection(), None);
}

#[test]
fn insert_then_backspace_with_another_anchor_takes_a_span() {
    let mut view = view_at("ab\ncd", 1);
    view.set_selection(Some(at(1, 1)));
    assert_eq!(view.insert("x"), Ok(()));
    assert_eq!(view.remove(true), Ok(()));
    assert_eq!(text_of(&view), "ad");
    assert_eq!(*view.cursor(), at(0, 1));
}

// The buffer against a plain reading of the text.

/// All texts of `len` characters over the given alphabet.
fn texts(alphabet: &[char], len: usize) -> Vec<String> {
    let mut all = vec![String::new()];
    for _ in 0..len {
        let mut longer = Vec::new();
        for text in &all {
            for c in alphabet {
                let mut next = text.clone();
                next.push(*c);
                longer.push(next);
            }
        }
        all = longer;
    }
    all
}

#[test]
fn lines_are_those_between_line_feeds() {
    for len in 0..=6 {
        for text in texts(&['a', '\n', '\r', 'é'], len) {
            let view = TextView::from_str(&text);
            let lines: Vec<&str> = text.split('\n').collect();
            assert_eq!(view.len_lines(), lines.len(), "{text:?}");
            assert_eq!(view.len_chars(), text.chars().count(), "{text:?}");
            for (row, line) in lines.iter().enumerate() {
                assert_eq!(view.line_end_index(row), line.chars().count(), "{text:?} row {row}");
            }
        }
    }
}

#[test]
fn every_offset_has_its_own_position() {
    for len in 0..=6 {
        for text in texts(&['a', '\n'], len) {
            let mut expected = vec![(0, 0)];
            for c in text.chars() {
                let (row, col) = *expected.last().unwrap();
                expected.push(if c == '\n' { (row + 1, 0) } else { (row, col + 1) });
            }
            for (offset, position) in expected.iter().enumerate() {
                let view = view_at(&text, offset);
                assert_eq!(place(&view), *position, "{text:?} offset {offset}");
                let mut back = view_at(&text, len);
                back.move_cursor(MoveCursor::Left(len - offset));
                assert_eq!(place(&back), *position, "{text:?} offset {offset}");
            }
        }
    }
}

#[test]
fn edits_at_every_offset_agree_with_a_string() {
    for text in texts(&['a', '\n'], 5) {
        for offset in 0..=5 {
            let mut view = view_at(&text, offset);
            assert_eq!(view.insert("b\nc"), Ok(()));
            let mut expected = text.clone();
            expected.insert_str(offset, "b\nc");
            assert_eq!(text_of(&view), expected);

            let mut view = view_at(&text, offset);
            assert_eq!(view.remove(true), Ok(()));
            let mut expected = text.clone();
            if offset > 0 {
                expected.remove(offset - 1);
            }
            assert_eq!(text_of(&view), expected);
            let mut moved = view_at(&expected, offset.saturating_sub(1));
            moved.move_cursor(MoveCursor::Right(0));
            assert_eq!(*view.cursor(), *moved.cursor());

            let mut view = view_at(&text, offset);
            let before = *view.cursor();
            assert_eq!(view.remove(false), Ok(()));
            let mut expected = text.clone();
            if text[offset..].starts_with('a') {
                expected.remove(offset);
            }
            assert_eq!(text_of(&view), expected, "{text:?} at {offset}");
            assert_eq!(*view.cursor(), before);
        }
    }
}

#[test]
fn insert_of_a_long_text() {
    let line = "0123456789abcdef\n";
    let long = line.repeat(4000);
    let mut view = view_at("ab\ncd", 4);
    assert_eq!(view.insert(&long), Ok(()));
    assert_eq!(view.len_chars(), 5 + 17 * 4000);
    assert_eq!(view.len_lines(), 2 + 4000);
    assert_eq!(*view.cursor(), at(4001, 0));
    view.move_cursor(MoveCursor::Left(17 * 4000));
    assert_eq!(*view.cursor(), at(1, 1));
    view.set_selection(Some(at(4001, 0)));
    view.move_cursor(MoveCursor::Right(1));
    assert_eq!(view.remove(true), Ok(()));
    assert_eq!(text_of(&view), "ab\ncd");
    assert_eq!(*view.cursor(), at(1, 1));
}
