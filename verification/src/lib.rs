//! Editing core of a modal text editor: a text buffer with a line/column
//! cursor, movement and editing operations, and the mode state machine.
//!
//! - [`lines`] says what the lines of a text are, and [`state`] what a text
//!   view is and what each operation makes of it; [`laws`] proves what holds
//!   of every view.
//! - [`view`] is the text view itself, over a rope ([`rope`]); [`cursor`] and
//!   [`action`] are the cursor and the pending command line.
//! - [`mode`] is the mode machine, [`keys`] the key map that feeds it, and
//!   [`viewport`] the scrolling of the screen after the cursor.

use vstd::prelude::*;

pub mod action;
pub mod cursor;
pub mod keys;
pub mod laws;
pub mod lines;
pub mod mode;
pub mod rope;
pub mod state;
pub mod text;
pub mod view;
pub mod viewport;

verus! {

/// The edit mode of the active buffer.
#[derive(Clone, Copy, Debug, PartialEq, Eq, Structural)]
pub enum ViewMode {
    Normal,
    Insert,
    Select,
}

impl ViewMode {
    /// The name of the mode, in capitals.
    pub open spec fn name(self) -> Seq<char> {
        match self {
            ViewMode::Normal => "NORMAL"@,
            ViewMode::Insert => "INSERT"@,
            ViewMode::Select => "SELECT"@,
        }
    }

    /// The mode as the status line shows it.
    pub fn to_string(&self) -> (shown: String)
        ensures
            shown@ == self.name(),
    {
        match self {
            ViewMode::Normal => "NORMAL".to_owned(),
            ViewMode::Insert => "INSERT".to_owned(),
            ViewMode::Select => "SELECT".to_owned(),
        }
    }
}

} // verus!
