//! The text buffer engine: a buffer, the cursor into it and an optional
//! selection anchor, with the operations that keep them consistent.

use vstd::prelude::*;
use vstd::view::View as _;
use crate::cursor::{Cursor, MoveCursor};
use crate::lines::{
    cut, is_position, lemma_line_shape, lemma_line_start, line_count, line_end, line_start,
};
use crate::rope::{
    rope_chars, rope_from_str, rope_len_chars, rope_len_lines, rope_line, rope_line_to_char,
    rope_try_insert, rope_try_insert_char, rope_try_remove, slice_char, slice_len_chars,
};
use crate::state::{
    lemma_cursor_of_offset, lemma_inserted, lemma_inserted_line_feed, lemma_removed,
    lemma_valid_in_bounds, TextState,
};

verus! {

/// An edit was asked for at an offset that does not lie in the buffer.
///
/// The operations keep the cursor inside the buffer. So this comes from a
/// selection anchor that does not fit the text, and else only from a cursor
/// and a buffer that have come apart.
#[derive(Clone, Copy, Debug, PartialEq, Eq, Structural)]
pub enum BufferError {
    /// The offset, or the range, lies outside the buffer.
    OutOfBounds,
}

/// The editing operations of a text view.
pub trait View {
    /// The state of the view.
    spec fn state(&self) -> TextState;

    /// Inserts `text` at the cursor and puts the cursor behind it.
    ///
    /// It fails where the cursor addresses no offset of the buffer, and then
    /// changes nothing. A valid view has no such cursor.
    fn insert(&mut self, text: &str) -> (r: Result<(), BufferError>)
        ensures
            r is Err <==> old(self).state().out_of_bounds(),
            r is Err ==> r == Err::<(), BufferError>(BufferError::OutOfBounds),
            r is Err ==> final(self).state() == old(self).state(),
            r is Ok ==> final(self).state() == old(self).state().inserted(text@),
            r is Ok ==> final(self).state().valid(),
            old(self).state().valid() ==> r is Ok,
    ;

    /// Inserts `c` at the cursor and puts the cursor behind it: for a line
    /// feed, at the start of the next line.
    ///
    /// It fails where the cursor addresses no offset of the buffer, and then
    /// changes nothing. A valid view has no such cursor.
    fn insert_char(&mut self, c: char) -> (r: Result<(), BufferError>)
        ensures
            r is Err <==> old(self).state().out_of_bounds(),
            r is Err ==> r == Err::<(), BufferError>(BufferError::OutOfBounds),
            r is Err ==> final(self).state() == old(self).state(),
            r is Ok ==> final(self).state() == old(self).state().inserted(seq![c]),
            r is Ok ==> final(self).state().valid(),
            old(self).state().valid() ==> r is Ok,
            old(self).state().valid() && c == '\n' ==> final(self).state().cursor == (Cursor {
                row: (old(self).state().cursor.row + 1) as usize,
                col: 0,
                ghost_col: 0,
            }),
    ;

    /// Removes backwards from the cursor (`prev`), as a backspace does, or
    /// the character at the cursor.
    ///
    /// Forwards it never fails: at or behind the end of a line there is
    /// nothing to remove, and the line feed stays. Backwards it fails where
    /// no character of the buffer stands before the cursor, which changes
    /// nothing and cannot be so in a valid view, and where a selection
    /// anchor's span does not lie in the buffer; the cursor has then still
    /// stepped left. The text is the same after every failure.
    fn remove(&mut self, prev: bool) -> (r: Result<(), BufferError>)
        ensures
            r == (if old(self).state().remove_fails(prev) {
                Err::<(), BufferError>(BufferError::OutOfBounds)
            } else {
                Ok::<(), BufferError>(())
            }),
            final(self).state() == old(self).state().removed(prev),
            r is Err ==> final(self).state().text == old(self).state().text,
            old(self).state().valid() ==> final(self).state().valid(),
    ;

    /// The cursor, to read.
    fn cursor(&self) -> (c: &Cursor)
        ensures
            *c == self.state().cursor,
    ;
}

/// A text buffer with its cursor and an optional selection anchor.
pub struct TextView {
    buffer: ropey::Rope,
    cursor: Cursor,
    selection: Option<Cursor>,
}

impl vstd::view::View for TextView {
    type V = TextState;

    closed spec fn view(&self) -> TextState {
        TextState { text: rope_chars(self.buffer), cursor: self.cursor, selection: self.selection }
    }
}

impl TextView {
    /// The cursor addresses a position of the buffer.
    pub open spec fn inv(&self) -> bool {
        self@.valid()
    }

    /// A view of `buffer` with the cursor at its start and no selection.
    pub fn new(buffer: ropey::Rope) -> (view: Self)
        ensures
            view.inv(),
            view@ == (TextState {
                text: rope_chars(buffer),
                cursor: Cursor { row: 0, col: 0, ghost_col: 0 },
                selection: None,
            }),
    {
        // The rope gives its length as a `usize`, which bounds the text.
        let _len = rope_len_chars(&buffer);
        Self { buffer, cursor: Cursor::default(), selection: None }
    }

    /// A view of `text` with the cursor at its start and no selection.
    pub fn from_str(text: &str) -> (view: Self)
        ensures
            view.inv(),
            view@ == (TextState {
                text: text@,
                cursor: Cursor { row: 0, col: 0, ghost_col: 0 },
                selection: None,
            }),
    {
        Self::new(rope_from_str(text))
    }

    /// The buffer, to read.
    pub fn buffer(&self) -> (buffer: &ropey::Rope)
        ensures
            rope_chars(*buffer) == self@.text,
    {
        &self.buffer
    }

    /// The selection anchor, if one is set.
    pub fn selection(&self) -> (anchor: Option<Cursor>)
        ensures
            anchor == self@.selection,
    {
        self.selection
    }

    /// Sets or clears the selection anchor. Any anchor is taken; whether it
    /// fits the text shows when a delete uses it.
    pub fn set_selection(&mut self, anchor: Option<Cursor>)
        ensures
            final(self)@ == (TextState { selection: anchor, ..old(self)@ }),
    {
        self.selection = anchor;
    }

    /// The number of characters of the buffer.
    pub fn len_chars(&self) -> (n: usize)
        ensures
            n == self@.text.len(),
    {
        rope_len_chars(&self.buffer)
    }

    /// The number of lines of the buffer.
    pub fn len_lines(&self) -> (n: usize)
        ensures
            n == line_count(self@.text),
    {
        rope_len_lines(&self.buffer)
    }

    /// The number of characters on line `row` without the line feed that
    /// ends it: the greatest column the cursor can have there.
    pub fn line_end_index(&self, row: usize) -> (idx: usize)
        requires
            row < line_count(self@.text),
        ensures
            idx == line_end(self@.text, row as nat),
    {
        let line = rope_line(&self.buffer, row);
        let mut idx = slice_len_chars(&line);
        if idx != 0 && slice_char(&line, idx - 1) == '\n' {
            idx -= 1;
        }
        idx
    }

    /// Moves the cursor as `mov` says. After a move that is not a vertical
    /// one the remembered column is the column.
    pub fn move_cursor(&mut self, mov: MoveCursor)
        requires
            old(self).inv(),
        ensures
            final(self).inv(),
            final(self)@ == old(self)@.moved(mov),
            !(mov is Up || mov is Down) ==> final(self)@.cursor.ghost_col
                == final(self)@.cursor.col,
    {
        let ghost text = self@.text;
        let ghost start = self@.offset();
        proof {
            lemma_cursor_of_offset(text, self.cursor);
        }
        match mov {
            MoveCursor::Up(delta) => {
                let row = self.cursor.row.saturating_sub(delta);
                let end = self.line_end_index(row);
                self.cursor.row = row;
                self.cursor.col = if self.cursor.ghost_col <= end {
                    self.cursor.ghost_col
                } else {
                    end
                };
            },
            MoveCursor::Down(delta) => {
                let last = rope_len_lines(&self.buffer) - 1;
                let row = if delta >= last - self.cursor.row {
                    last
                } else {
                    self.cursor.row + delta
                };
                let end = self.line_end_index(row);
                self.cursor.row = row;
                self.cursor.col = if self.cursor.ghost_col <= end {
                    self.cursor.ghost_col
                } else {
                    end
                };
            },
            MoveCursor::Left(delta) => {
                let mut row = self.cursor.row;
                let mut col = self.cursor.col;
                let mut i: usize = 0;
                while i < delta
                    invariant
                        i <= delta,
                        self@.text == text,
                        is_position(text, row as int, col as int),
                        line_start(text, row as nat) + col == (if i >= start {
                            0
                        } else {
                            start - i
                        }),
                    ensures
                        is_position(text, row as int, col as int),
                        line_start(text, row as nat) + col == (if delta >= start {
                            0
                        } else {
                            start - delta
                        }),
                    decreases delta - i,
                {
                    proof {
                        lemma_line_start(text, row as nat);
                    }
                    if col == 0 {
                        if row > 0 {
                            proof {
                                lemma_line_shape(text, (row - 1) as nat);
                            }
                            row -= 1;
                            col = self.line_end_index(row);
                        } else {
                            break ;
                        }
                    } else {
                        col -= 1;
                    }
                    i += 1;
                }
                proof {
                    lemma_cursor_of_offset(text, Cursor { row: row, col: col, ghost_col: col });
                }
                self.cursor = Cursor { row: row, col: col, ghost_col: col };
            },
            MoveCursor::Right(delta) => {
                let lines = rope_len_lines(&self.buffer);
                let mut row = self.cursor.row;
                let mut col = self.cursor.col;
                let mut i: usize = 0;
                while i < delta
                    invariant
                        i <= delta,
                        self@.text == text,
                        lines == line_count(text),
                        is_position(text, row as int, col as int),
                        line_start(text, row as nat) + col == (if start + i >= text.len() {
                            text.len() as int
                        } else {
                            start + i
                        }),
                    ensures
                        is_position(text, row as int, col as int),
                        line_start(text, row as nat) + col == (if start + delta >= text.len() {
                            text.len() as int
                        } else {
                            start + delta
                        }),
                    decreases delta - i,
                {
                    proof {
                        lemma_line_shape(text, row as nat);
                    }
                    if col == self.line_end_index(row) {
                        if row < lines - 1 {
                            row += 1;
                            col = 0;
                        } else {
                            break ;
                        }
                    } else {
                        col += 1;
                    }
                    i += 1;
                }
                proof {
                    lemma_cursor_of_offset(text, Cursor { row: row, col: col, ghost_col: col });
                }
                self.cursor = Cursor { row: row, col: col, ghost_col: col };
            },
            MoveCursor::Home => {
                self.cursor.set_column(0);
            },
            MoveCursor::End => {
                let end = self.line_end_index(self.cursor.row);
                self.cursor.set_column(end);
            },
        }
    }
}

/// The outcome of an edit of the rope, with the rope's error replaced by
/// the buffer's own.
fn buffer_result(r: Result<(), ropey::Error>) -> (out: Result<(), BufferError>)
    ensures
        out == (if r is Ok {
            Ok::<(), BufferError>(())
        } else {
            Err::<(), BufferError>(BufferError::OutOfBounds)
        }),
{
    match r {
        Ok(()) => Ok(()),
        Err(_) => Err(BufferError::OutOfBounds),
    }
}

impl TextView {
    /// Removes the characters from offset `first` up to the one before the
    /// anchor, and with them the anchor. Where that span does not lie in the
    /// buffer, nothing changes.
    fn remove_to_anchor(&mut self, first: usize, anchor: Cursor) -> (r: Result<(), BufferError>)
        requires
            first <= rope_chars(old(self).buffer).len() <= usize::MAX,
        ensures
            final(self).cursor == old(self).cursor,
            r is Ok <==> old(self)@.spans_from(first as int, anchor),
            r is Ok ==> r == Ok::<(), BufferError>(()),
            r is Ok ==> final(self).selection is None,
            r is Ok ==> rope_chars(final(self).buffer) == cut(
                rope_chars(old(self).buffer),
                first as int,
                old(self)@.anchor_offset(anchor),
            ),
            r is Err ==> r == Err::<(), BufferError>(BufferError::OutOfBounds),
            r is Err ==> final(self).selection == old(self).selection,
            r is Err ==> rope_chars(final(self).buffer) == rope_chars(old(self).buffer),
    {
        if anchor.row > rope_len_lines(&self.buffer) {
            return Err(BufferError::OutOfBounds);
        }
        let anchor_start = rope_line_to_char(&self.buffer, anchor.row);
        match anchor_start.checked_add(anchor.col) {
            None => Err(BufferError::OutOfBounds),
            Some(end) => {
                if end == 0 {
                    return Err(BufferError::OutOfBounds);
                }
                let result = buffer_result(rope_try_remove(&mut self.buffer, first, end - 1));
                if result.is_ok() {
                    self.selection = None;
                }
                result
            },
        }
    }
}

impl TextView {
    /// Whether the cursor addresses a position of the buffer.
    fn cursor_fits(&self) -> (fits: bool)
        ensures
            fits == is_position(self@.text, self.cursor.row as int, self.cursor.col as int),
    {
        self.cursor.row < rope_len_lines(&self.buffer) && self.cursor.col <= self.line_end_index(
            self.cursor.row,
        )
    }

    /// Puts the cursor at `offset`, walking there from the start of the
    /// buffer.
    fn place_at(&mut self, offset: usize)
        requires
            offset <= rope_chars(old(self).buffer).len() <= usize::MAX,
        ensures
            final(self).inv(),
            final(self)@ == old(self)@.at_offset(offset as int),
    {
        proof {
            lemma_line_start(self@.text, 0);
        }
        self.cursor = Cursor::default();
        self.move_cursor(MoveCursor::Right(offset));
    }

    /// The offset that the cursor addresses, if it is one of the buffer.
    fn cursor_offset(&self) -> (offset: Option<usize>)
        ensures
            rope_chars(self.buffer).len() <= usize::MAX,
            offset is None <==> self@.out_of_bounds(),
            offset matches Some(o) ==> o == self@.offset(),
    {
        let len = rope_len_chars(&self.buffer);
        if self.cursor.row > rope_len_lines(&self.buffer) {
            return None;
        }
        let line_start = rope_line_to_char(&self.buffer, self.cursor.row);
        match line_start.checked_add(self.cursor.col) {
            Some(offset) => if offset <= len {
                Some(offset)
            } else {
                None
            },
            None => None,
        }
    }
}

impl View for TextView {
    open spec fn state(&self) -> TextState {
        self@
    }

    fn insert(&mut self, text: &str) -> (r: Result<(), BufferError>) {
        proof {
            if self@.valid() {
                lemma_valid_in_bounds(self@);
            }
        }
        let offset = match self.cursor_offset() {
            Some(offset) => offset,
            None => return Err(BufferError::OutOfBounds),
        };
        let fits = self.cursor_fits();
        let result = rope_try_insert(&mut self.buffer, offset, text);
        proof {
            lemma_inserted(old(self)@, text@);
        }
        let count = text.unicode_len();
        if fits {
            self.move_cursor(MoveCursor::Right(count));
        } else {
            self.place_at(offset + count);
        }
        buffer_result(result)
    }

    fn insert_char(&mut self, c: char) -> (r: Result<(), BufferError>) {
        proof {
            if self@.valid() {
                lemma_valid_in_bounds(self@);
            }
        }
        let offset = match self.cursor_offset() {
            Some(offset) => offset,
            None => return Err(BufferError::OutOfBounds),
        };
        let fits = self.cursor_fits();
        let result = rope_try_insert_char(&mut self.buffer, offset, c);
        proof {
            lemma_inserted(old(self)@, seq![c]);
        }
        if !fits {
            self.place_at(offset + 1);
        } else if c == '\n' {
            proof {
                lemma_inserted_line_feed(old(self)@);
            }
            self.cursor.set_column(0);
            self.cursor.row += 1;
        } else {
            self.move_cursor(MoveCursor::Right(1));
        }
        buffer_result(result)
    }

    fn remove(&mut self, prev: bool) -> (r: Result<(), BufferError>) {
        if prev {
            if self.cursor.row == 0 && self.cursor.col == 0 {
                return Ok(());
            }
            let offset = match self.cursor_offset() {
                Some(offset) => offset,
                None => return Err(BufferError::OutOfBounds),
            };
            if offset == 0 {
                return Err(BufferError::OutOfBounds);
            }
            proof {
                lemma_removed(self@, prev);
            }
            let idx = offset - 1;
            if self.cursor_fits() {
                self.move_cursor(MoveCursor::Left(1));
            } else {
                self.place_at(idx);
            }
            match self.selection {
                Some(anchor) => self.remove_to_anchor(idx, anchor),
                None => buffer_result(rope_try_remove(&mut self.buffer, idx, idx)),
            }
        } else {
            let len = rope_len_chars(&self.buffer);
            proof {
                lemma_removed(self@, prev);
            }
            if self.cursor.row >= rope_len_lines(&self.buffer) {
                return Ok(());
            }
            if self.cursor.col >= self.line_end_index(self.cursor.row) {
                return Ok(());
            }
            let line_start = rope_line_to_char(&self.buffer, self.cursor.row);
            let idx = line_start + self.cursor.col;
            buffer_result(rope_try_remove(&mut self.buffer, idx, idx))
        }
    }

    fn cursor(&self) -> (c: &Cursor) {
        &self.cursor
    }
}

} // verus!
