//! What a text view is, mathematically: its characters, its cursor and its
//! selection anchor; and what each operation makes of it.

use vstd::prelude::*;
use crate::cursor::{Cursor, MoveCursor};
use crate::lines::{
    col_of, cut, is_position, lemma_line_shape, lemma_line_start, lemma_line_start_of_prefix,
    lemma_line_start_unique, lemma_newlines_take_grows, lemma_newlines_take_next,
    lemma_offset_is_position, lemma_position_of_offset, line_count, line_end, line_start,
    newlines, row_of, spliced,
};

verus! {

/// The cursor that stands at offset `o` of `s`, with no column remembered
/// but its own.
pub open spec fn cursor_at(s: Seq<char>, o: int) -> Cursor {
    Cursor {
        row: row_of(s, o) as usize,
        col: col_of(s, o) as usize,
        ghost_col: col_of(s, o) as usize,
    }
}

/// The offset that `c` addresses in `s`: the start of its line and its
/// column.
pub open spec fn offset_of(s: Seq<char>, c: Cursor) -> int {
    line_start(s, c.row as nat) + c.col
}

/// The state of a text view.
pub struct TextState {
    /// The characters of the buffer.
    pub text: Seq<char>,
    /// The cursor.
    pub cursor: Cursor,
    /// The anchor of the selection, if one is set.
    pub selection: Option<Cursor>,
}

impl TextState {
    /// The cursor addresses a position of the text, and the text's length is
    /// a machine number.
    pub open spec fn valid(self) -> bool {
        &&& self.text.len() <= usize::MAX
        &&& is_position(self.text, self.cursor.row as int, self.cursor.col as int)
    }

    /// The offset of the cursor in the text.
    pub open spec fn offset(self) -> int {
        offset_of(self.text, self.cursor)
    }

    /// The state after a vertical move onto `row`: the column is the
    /// remembered one, or the line's end where the line is shorter; what is
    /// remembered stays.
    pub open spec fn on_row(self, row: int) -> TextState {
        let end = line_end(self.text, row as nat);
        let col = if self.cursor.ghost_col <= end {
            self.cursor.ghost_col
        } else {
            end as usize
        };
        TextState {
            cursor: Cursor { row: row as usize, col: col, ghost_col: self.cursor.ghost_col },
            ..self
        }
    }

    /// The state with the cursor at offset `o`.
    pub open spec fn at_offset(self, o: int) -> TextState {
        TextState { cursor: cursor_at(self.text, o), ..self }
    }

    /// The state with the cursor at column `col` of its line, which is then
    /// also the remembered column.
    pub open spec fn at_column(self, col: int) -> TextState {
        TextState {
            cursor: Cursor { row: self.cursor.row, col: col as usize, ghost_col: col as usize },
            ..self
        }
    }

    /// The state after the movement `mov`.
    ///
    /// Up and down change the line, stop at the first and the last line, and
    /// keep the remembered column. Left and right walk through the text
    /// character by character, over line ends, and stop at the start and at
    /// the end of the text.
    pub open spec fn moved(self, mov: MoveCursor) -> TextState {
        match mov {
            MoveCursor::Up(n) => self.on_row(
                if n >= self.cursor.row {
                    0
                } else {
                    self.cursor.row - n
                },
            ),
            MoveCursor::Down(n) => self.on_row(
                if self.cursor.row + n >= line_count(self.text) {
                    line_count(self.text) - 1
                } else {
                    self.cursor.row + n
                },
            ),
            MoveCursor::Left(n) => self.at_offset(
                if n >= self.offset() {
                    0
                } else {
                    self.offset() - n
                },
            ),
            MoveCursor::Right(n) => self.at_offset(
                if self.offset() + n >= self.text.len() {
                    self.text.len() as int
                } else {
                    self.offset() + n
                },
            ),
            MoveCursor::Home => self.at_column(0),
            MoveCursor::End => self.at_column(line_end(self.text, self.cursor.row as nat)),
        }
    }

    /// The state after `t` is inserted at the cursor: the cursor stands
    /// behind what was inserted.
    pub open spec fn inserted(self, t: Seq<char>) -> TextState {
        let text = spliced(self.text, self.offset(), t);
        TextState {
            text: text,
            cursor: cursor_at(text, self.offset() + t.len()),
            selection: self.selection,
        }
    }

    /// The cursor addresses no offset of the text: its row lies behind the
    /// line after the last one, or its offset behind the end of the text.
    /// This cannot be so in a valid state.
    pub open spec fn out_of_bounds(self) -> bool {
        self.cursor.row > line_count(self.text) || self.offset() > self.text.len()
    }

    /// No character of the text stands right before the cursor, because the
    /// cursor addresses no offset of the text or addresses its start.
    pub open spec fn lacks_previous(self) -> bool {
        self.out_of_bounds() || self.offset() < 1
    }

    /// The cursor stands at the start of the text.
    pub open spec fn at_start(self) -> bool {
        self.cursor.row == 0 && self.cursor.col == 0
    }

    /// The cursor stands at or behind the end of its line: no character of
    /// the line stands at its column, only the line feed or nothing.
    pub open spec fn past_line(self) -> bool {
        self.cursor.col >= line_end(self.text, self.cursor.row as nat)
    }

    /// The offset that the anchor `a` addresses.
    pub open spec fn anchor_offset(self, a: Cursor) -> int {
        offset_of(self.text, a)
    }

    /// A delete backwards from the cursor can take the span that ends right
    /// before the anchor `a`: the span from the offset before the cursor lies
    /// in the text.
    pub open spec fn spans_to(self, a: Cursor) -> bool {
        self.spans_from(self.offset() - 1, a)
    }

    /// The span from offset `first` up to the offset before the anchor `a`
    /// lies in the text: the anchor's line is one the buffer can address, an
    /// offset lies before the anchor, and `first` is not behind the anchor.
    /// The span may be empty.
    pub open spec fn spans_from(self, first: int, a: Cursor) -> bool {
        &&& a.row <= line_count(self.text)
        &&& 1 <= self.anchor_offset(a)
        &&& first <= self.anchor_offset(a) <= self.text.len()
    }

    /// Nothing is there to remove, which is no error: a delete backwards at
    /// the start of the text, a delete forwards at or behind the end of the
    /// line.
    pub open spec fn remove_is_noop(self, prev: bool) -> bool {
        if prev {
            self.at_start()
        } else {
            self.past_line()
        }
    }

    /// The removal fails: a delete backwards, away from the start of the
    /// text, with no character of the text before the cursor, or with an
    /// anchor whose span does not lie in the text.
    pub open spec fn remove_fails(self, prev: bool) -> bool {
        &&& prev
        &&& !self.at_start()
        &&& (self.lacks_previous() || match self.selection {
            Some(a) => !self.spans_to(a),
            None => false,
        })
    }

    /// The state after a removal.
    ///
    /// Backwards (`prev`): the cursor steps left by one. Without an anchor
    /// the character it then stands on leaves the text. With an anchor all
    /// characters from there up to the one before the anchor leave, and the
    /// anchor is used up; where that span does not lie in the text nothing
    /// leaves and the anchor stays. Where no character of the text stands
    /// before the cursor, nothing changes.
    ///
    /// Forwards: the character at the cursor leaves, and the cursor stays.
    /// At the end of a line nothing leaves: the line feed stays.
    pub open spec fn removed(self, prev: bool) -> TextState {
        if self.remove_is_noop(prev) {
            self
        } else if !prev {
            TextState { text: cut(self.text, self.offset(), self.offset() + 1), ..self }
        } else if self.lacks_previous() {
            self
        } else {
            let first = self.offset() - 1;
            let cursor = cursor_at(self.text, first);
            match self.selection {
                None => TextState {
                    text: cut(self.text, first, first + 1),
                    cursor: cursor,
                    selection: None,
                },
                Some(a) => if self.spans_to(a) {
                    TextState {
                        text: cut(self.text, first, self.anchor_offset(a)),
                        cursor: cursor,
                        selection: None,
                    }
                } else {
                    TextState { cursor: cursor, ..self }
                },
            }
        }
    }

    /// The state after `n` deletes backwards.
    pub open spec fn backspaced(self, n: nat) -> TextState
        decreases n,
    {
        if n == 0 {
            self
        } else {
            self.removed(true).backspaced((n - 1) as nat)
        }
    }
}

/// A text has no more line feeds than characters.
pub proof fn lemma_newlines_bound(s: Seq<char>)
    ensures
        newlines(s) <= s.len(),
{
    lemma_newlines_take_grows(s, 0, s.len() as int);
    assert(s.take(s.len() as int) =~= s);
    assert(s.take(0).len() == 0);
}

/// The cursor at an offset of the text addresses that offset, and is a
/// position of the text.
pub proof fn lemma_cursor_at(s: Seq<char>, o: int)
    requires
        0 <= o <= s.len() <= usize::MAX,
    ensures
        is_position(s, cursor_at(s, o).row as int, cursor_at(s, o).col as int),
        offset_of(s, cursor_at(s, o)) == o,
        cursor_at(s, o).row == row_of(s, o),
        cursor_at(s, o).col == col_of(s, o),
        cursor_at(s, o).ghost_col == cursor_at(s, o).col,
{
    lemma_offset_is_position(s, o);
    lemma_newlines_take_grows(s, 0, o);
    assert(s.take(0).len() == 0);
    lemma_line_start(s, row_of(s, o));
}

/// A cursor that is a position of the text is the cursor at its own offset,
/// but for what it remembers.
pub proof fn lemma_cursor_of_offset(s: Seq<char>, c: Cursor)
    requires
        is_position(s, c.row as int, c.col as int),
    ensures
        0 <= offset_of(s, c) <= s.len(),
        cursor_at(s, offset_of(s, c)) == (Cursor { ghost_col: c.col, ..c }),
{
    lemma_position_of_offset(s, c.row as int, c.col as int);
}

/// A position of `s` is a position of every text that agrees with `s` up to
/// the position's offset, and addresses the same offset there.
pub proof fn lemma_position_kept(s: Seq<char>, t: Seq<char>, c: Cursor)
    requires
        is_position(s, c.row as int, c.col as int),
        offset_of(s, c) <= t.len(),
        s.take(offset_of(s, c)) == t.take(offset_of(s, c)),
    ensures
        is_position(t, c.row as int, c.col as int),
        offset_of(t, c) == offset_of(s, c),
{
    let o = offset_of(s, c);
    lemma_position_of_offset(s, c.row as int, c.col as int);
    lemma_line_start_of_prefix(s, t, o, c.row as nat);
    lemma_offset_is_position(t, o);
}

/// The cursor at an offset is the same in every text that agrees up to that
/// offset.
pub proof fn lemma_cursor_at_kept(s: Seq<char>, t: Seq<char>, o: int)
    requires
        0 <= o <= s.len(),
        o <= t.len(),
        s.take(o) == t.take(o),
    ensures
        cursor_at(t, o) == cursor_at(s, o),
{
    lemma_offset_is_position(s, o);
    lemma_line_start_of_prefix(s, t, o, row_of(s, o));
}

/// The cursor of a valid state addresses an offset of the text, and one
/// with a character before it unless it is the start of the text.
pub proof fn lemma_valid_in_bounds(m: TextState)
    requires
        m.valid(),
    ensures
        !m.out_of_bounds(),
        0 <= m.offset() <= m.text.len(),
        !m.at_start() ==> !m.lacks_previous(),
{
    lemma_cursor_of_offset(m.text, m.cursor);
    lemma_line_start(m.text, m.cursor.row as nat);
}

/// An insertion at a cursor that addresses an offset of the text leaves a
/// valid state, lengthens the text by what was inserted and puts the cursor
/// behind it. The cursor of a valid state is still a position of the new
/// text, at the offset it had.
pub proof fn lemma_inserted(m: TextState, t: Seq<char>)
    requires
        !m.out_of_bounds(),
        m.text.len() + t.len() <= usize::MAX,
    ensures
        m.inserted(t).valid(),
        m.inserted(t).text.len() == m.text.len() + t.len(),
        m.inserted(t).offset() == m.offset() + t.len(),
        0 <= m.offset() <= m.text.len(),
        m.valid() ==> (TextState { text: m.inserted(t).text, ..m }).valid() && (TextState {
            text: m.inserted(t).text,
            ..m
        }).offset() == m.offset(),
{
    let o = m.offset();
    let text = spliced(m.text, o, t);
    lemma_line_start(m.text, m.cursor.row as nat);
    lemma_cursor_at(text, o + t.len());
    if m.valid() {
        assert(m.text.take(o) =~= text.take(o));
        lemma_position_kept(m.text, text, m.cursor);
    }
}

/// Behind an inserted line feed the cursor stands at the start of the next
/// line.
pub proof fn lemma_inserted_line_feed(m: TextState)
    requires
        m.valid(),
        m.text.len() + 1 <= usize::MAX,
    ensures
        m.cursor.row + 1 <= usize::MAX,
        m.inserted(seq!['\n']).cursor == (Cursor {
            row: (m.cursor.row + 1) as usize,
            col: 0,
            ghost_col: 0,
        }),
{
    let o = m.offset();
    let text = spliced(m.text, o, seq!['\n']);
    lemma_cursor_of_offset(m.text, m.cursor);
    lemma_position_of_offset(m.text, m.cursor.row as int, m.cursor.col as int);
    assert(m.text.take(o) =~= text.take(o));
    assert(text[o] == '\n');
    lemma_newlines_take_next(text, o);
    lemma_line_start_unique(text, (m.cursor.row + 1) as nat, o + 1);
    lemma_newlines_take_grows(text, 0, o + 1);
    assert(text.take(0).len() == 0);
}

/// A removal leaves a valid state valid, and so does every delete backwards
/// that finds a character before the cursor. A delete forwards takes a
/// character only at a position of the text before its line's end; a row
/// that is no line's has its end at column 0.
pub proof fn lemma_removed(m: TextState, prev: bool)
    requires
        m.text.len() <= usize::MAX,
    ensures
        m.valid() ==> m.removed(prev).valid(),
        prev && !m.at_start() && !m.lacks_previous() ==> m.removed(prev).valid(),
        !prev && !m.past_line() ==> m.valid() && m.offset() < m.text.len(),
        m.cursor.row >= line_count(m.text) ==> line_end(m.text, m.cursor.row as nat) == 0,
{
    let o = m.offset();
    let k = m.cursor.row as nat;
    lemma_line_start(m.text, k);
    lemma_line_start(m.text, k + 1);
    if k < line_count(m.text) {
        lemma_line_shape(m.text, k);
    }
    if m.valid() {
        lemma_valid_in_bounds(m);
    }
    if prev {
        if !m.at_start() && !m.lacks_previous() {
            let first = o - 1;
            let cursor = cursor_at(m.text, first);
            lemma_cursor_at(m.text, first);
            let text = m.removed(prev).text;
            if text != m.text {
                assert(m.text.take(first) =~= text.take(first));
                lemma_position_kept(m.text, text, cursor);
            }
        }
    } else if !m.past_line() {
        let text = cut(m.text, o, o + 1);
        assert(m.text.take(o) =~= text.take(o));
        lemma_position_kept(m.text, text, m.cursor);
    }
}

} // verus!
