//! Cursor positions and the movement directives that act on them.

use vstd::prelude::*;
use crate::text::{decimal, push_decimal};

verus! {

/// A motion of the cursor, interpreted against a text buffer.
#[derive(Clone, Copy, Debug, PartialEq, Eq, Structural)]
pub enum MoveCursor {
    Up(usize),
    Down(usize),
    Left(usize),
    Right(usize),
    /// The start of the line.
    Home,
    /// The end of the line.
    End,
}

/// A position in line/column space, with the column that vertical moves
/// try to return to.
#[derive(Clone, Copy, Debug, PartialEq, Eq, Structural)]
pub struct Cursor {
    /// Line index.
    pub row: usize,
    /// Character index within the line.
    pub col: usize,
    /// The column that a vertical move aims for.
    pub ghost_col: usize,
}

impl Default for Cursor {
    fn default() -> (c: Self)
        ensures
            c == (Cursor { row: 0, col: 0, ghost_col: 0 }),
    {
        Cursor { row: 0, col: 0, ghost_col: 0 }
    }
}

impl Cursor {
    /// Sets the row; the column fields are left as they are.
    pub fn set_row(&mut self, row: usize)
        ensures
            *final(self) == (Cursor { row: row, ..*old(self) }),
    {
        self.row = row;
    }

    /// Sets the column and the remembered column to `col`.
    pub fn set_column(&mut self, col: usize)
        ensures
            *final(self) == (Cursor { row: old(self).row, col: col, ghost_col: col }),
    {
        self.col = col;
        self.ghost_col = col;
    }

    /// The position as the status line shows it: the row, a colon, the
    /// column, both in decimal.
    pub fn to_string(&self) -> (shown: String)
        ensures
            shown@ == decimal(self.row as nat) + seq![':'] + decimal(self.col as nat),
    {
        let mut shown = String::new();
        push_decimal(&mut shown, self.row);
        shown.push(':');
        push_decimal(&mut shown, self.col);
        assert(shown@ =~= decimal(self.row as nat) + seq![':'] + decimal(self.col as nat));
        shown
    }
}

} // verus!
