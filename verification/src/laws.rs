//! Laws of the text view: what holds of every valid state, whatever the text
//! and wherever the cursor.

use vstd::prelude::*;
use crate::cursor::{Cursor, MoveCursor};
use crate::lines::{
    cut, lemma_line_shape, lemma_line_start, line_count, line_end, spliced,
};
use crate::state::{
    lemma_cursor_at, lemma_cursor_at_kept, lemma_cursor_of_offset, lemma_inserted,
    lemma_newlines_bound, lemma_position_kept, lemma_valid_in_bounds, TextState,
};

verus! {

/// The state after the movements `moves`, one after the other.
pub open spec fn after_moves(m: TextState, moves: Seq<MoveCursor>) -> TextState
    decreases moves.len(),
{
    if moves.len() == 0 {
        m
    } else {
        after_moves(m, moves.drop_last()).moved(moves.last())
    }
}

/// A movement leaves a valid state, and changes neither the text nor the
/// selection.
///
/// A vertical one keeps the remembered column and puts the cursor there, or
/// at the line's end where the line is shorter. Any other one leaves the
/// remembered column equal to the column.
pub proof fn law_moved(m: TextState, mov: MoveCursor)
    requires
        m.valid(),
    ensures
        m.moved(mov).valid(),
        m.moved(mov).text == m.text,
        m.moved(mov).selection == m.selection,
        mov is Up || mov is Down ==> {
            let after = m.moved(mov).cursor;
            &&& after.ghost_col == m.cursor.ghost_col
            &&& after.col == if m.cursor.ghost_col <= line_end(m.text, after.row as nat) {
                m.cursor.ghost_col as int
            } else {
                line_end(m.text, after.row as nat)
            }
        },
        !(mov is Up || mov is Down) ==> m.moved(mov).cursor.ghost_col == m.moved(mov).cursor.col,
{
    lemma_cursor_of_offset(m.text, m.cursor);
    match mov {
        MoveCursor::Up(n) => {
            let row: int = if n >= m.cursor.row {
                0
            } else {
                m.cursor.row - n
            };
            lemma_line_shape(m.text, row as nat);
        },
        MoveCursor::Down(n) => {
            let row = if m.cursor.row + n >= line_count(m.text) {
                line_count(m.text) - 1
            } else {
                m.cursor.row + n
            };
            lemma_line_shape(m.text, row as nat);
            lemma_newlines_bound(m.text);
        },
        MoveCursor::Left(n) => {
            lemma_cursor_at(m.text, if n >= m.offset() { 0 } else { m.offset() - n });
        },
        MoveCursor::Right(n) => {
            lemma_cursor_at(
                m.text,
                if m.offset() + n >= m.text.len() {
                    m.text.len() as int
                } else {
                    m.offset() + n
                },
            );
        },
        MoveCursor::Home => {},
        MoveCursor::End => {
            lemma_line_shape(m.text, m.cursor.row as nat);
        },
    }
}

/// After moves to the left and to the right the cursor is a position of the
/// text: its column is not behind its line's end. After one such move or more
/// the remembered column is the column; after none it is so where it was so
/// before.
pub proof fn law_horizontal_moves(m: TextState, moves: Seq<MoveCursor>)
    requires
        m.valid(),
        forall|i: int| 0 <= i < moves.len() ==> moves[i] is Left || moves[i] is Right,
    ensures
        after_moves(m, moves).valid(),
        after_moves(m, moves).text == m.text,
        0 <= after_moves(m, moves).cursor.col <= line_end(
            m.text,
            after_moves(m, moves).cursor.row as nat,
        ),
        moves.len() > 0 || m.cursor.col == m.cursor.ghost_col ==> after_moves(m, moves).cursor.col
            == after_moves(m, moves).cursor.ghost_col,
    decreases moves.len(),
{
    if moves.len() > 0 {
        let front = moves.drop_last();
        law_horizontal_moves(m, front);
        law_moved(after_moves(m, front), moves.last());
    }
}

/// One step to the left: a column back; from the start of a line onto the
/// end of the line before; from the start of the text nowhere.
pub proof fn law_left_step(m: TextState)
    requires
        m.valid(),
    ensures
        m.moved(MoveCursor::Left(1)).cursor == if m.cursor.col > 0 {
            Cursor {
                row: m.cursor.row,
                col: (m.cursor.col - 1) as usize,
                ghost_col: (m.cursor.col - 1) as usize,
            }
        } else if m.cursor.row > 0 {
            Cursor {
                row: (m.cursor.row - 1) as usize,
                col: line_end(m.text, (m.cursor.row - 1) as nat) as usize,
                ghost_col: line_end(m.text, (m.cursor.row - 1) as nat) as usize,
            }
        } else {
            Cursor { row: 0, col: 0, ghost_col: 0 }
        },
{
    lemma_cursor_of_offset(m.text, m.cursor);
    lemma_line_start(m.text, m.cursor.row as nat);
    if m.cursor.col > 0 {
        let c = Cursor { col: (m.cursor.col - 1) as usize, ..m.cursor };
        lemma_cursor_of_offset(m.text, c);
    } else if m.cursor.row > 0 {
        let above = (m.cursor.row - 1) as nat;
        lemma_line_shape(m.text, above);
        let c = Cursor {
            row: above as usize,
            col: line_end(m.text, above) as usize,
            ghost_col: 0,
        };
        lemma_cursor_of_offset(m.text, c);
    }
}

/// One step to the right: a column on; from the end of a line onto the start
/// of the next line; from the end of the last line nowhere.
pub proof fn law_right_step(m: TextState)
    requires
        m.valid(),
    ensures
        m.moved(MoveCursor::Right(1)).cursor == if m.cursor.col < line_end(
            m.text,
            m.cursor.row as nat,
        ) {
            Cursor {
                row: m.cursor.row,
                col: (m.cursor.col + 1) as usize,
                ghost_col: (m.cursor.col + 1) as usize,
            }
        } else if m.cursor.row + 1 < line_count(m.text) {
            Cursor { row: (m.cursor.row + 1) as usize, col: 0, ghost_col: 0 }
        } else {
            Cursor { ghost_col: m.cursor.col, ..m.cursor }
        },
{
    let k = m.cursor.row as nat;
    lemma_cursor_of_offset(m.text, m.cursor);
    lemma_line_shape(m.text, k);
    lemma_newlines_bound(m.text);
    if m.cursor.col < line_end(m.text, k) {
        let c = Cursor { col: (m.cursor.col + 1) as usize, ..m.cursor };
        lemma_cursor_of_offset(m.text, c);
    } else if m.cursor.row + 1 < line_count(m.text) {
        lemma_line_shape(m.text, k + 1);
        let c = Cursor { row: (k + 1) as usize, col: 0, ghost_col: 0 };
        lemma_cursor_of_offset(m.text, c);
    }
}

/// A move by `n + 1` characters is a move by `n` and one step more.
pub proof fn law_moves_step_by_step(m: TextState, n: usize)
    requires
        m.valid(),
        n < usize::MAX,
    ensures
        m.moved(MoveCursor::Left((n + 1) as usize)) == m.moved(MoveCursor::Left(n)).moved(
            MoveCursor::Left(1),
        ),
        m.moved(MoveCursor::Right((n + 1) as usize)) == m.moved(MoveCursor::Right(n)).moved(
            MoveCursor::Right(1),
        ),
{
    lemma_cursor_of_offset(m.text, m.cursor);
    lemma_cursor_at(m.text, if n >= m.offset() { 0 } else { m.offset() - n });
    lemma_cursor_at(
        m.text,
        if m.offset() + n >= m.text.len() {
            m.text.len() as int
        } else {
            m.offset() + n
        },
    );
}

/// Moves that have nowhere to go leave the cursor where it is: left at the
/// start of the text, right at its end, down on the last line.
pub proof fn law_moves_stop(m: TextState, n: usize)
    requires
        m.valid(),
    ensures
        m.at_start() ==> m.moved(MoveCursor::Left(n)).cursor == (Cursor {
            row: 0,
            col: 0,
            ghost_col: 0,
        }),
        m.offset() == m.text.len() ==> m.moved(MoveCursor::Right(n)).cursor == (Cursor {
            ghost_col: m.cursor.col,
            ..m.cursor
        }),
        m.cursor.row + 1 == line_count(m.text) ==> m.moved(MoveCursor::Down(n)).cursor.row
            == m.cursor.row,
        m.cursor.row + 1 == line_count(m.text) && m.cursor.ghost_col == m.cursor.col ==> m.moved(
            MoveCursor::Down(n),
        ).cursor == m.cursor,
{
    lemma_cursor_of_offset(m.text, m.cursor);
    lemma_line_start(m.text, 0);
}

/// The remembered column outlasts a short line: a vertical move onto a line
/// that is too short puts the cursor at that line's end, and the next one
/// onto a line that is long enough puts it back at the remembered column.
pub proof fn law_ghost_column_memory(m: TextState, first: MoveCursor, second: MoveCursor)
    requires
        m.valid(),
        first is Up || first is Down,
        second is Up || second is Down,
    ensures
        ({
            let short = m.moved(first);
            let long = short.moved(second);
            &&& short.cursor.ghost_col == m.cursor.ghost_col
            &&& long.cursor.ghost_col == m.cursor.ghost_col
            &&& m.cursor.ghost_col > line_end(m.text, short.cursor.row as nat) ==> short.cursor.col
                == line_end(m.text, short.cursor.row as nat)
            &&& m.cursor.ghost_col <= line_end(m.text, long.cursor.row as nat) ==> long.cursor.col
                == m.cursor.ghost_col
        }),
{
    law_moved(m, first);
    law_moved(m.moved(first), second);
}

/// Inserting a text and then deleting backwards once for each of its
/// characters gives back the text and the cursor's place.
///
/// With a selection anchor set this holds only where the anchor stands at the
/// end of what was inserted, so that the first delete takes the one character
/// before it: any other anchor makes that delete take another span, or fail.
pub proof fn law_insert_then_backspace(m: TextState, t: Seq<char>)
    requires
        m.valid(),
        m.text.len() + t.len() <= usize::MAX,
        t.len() > 0 ==> (m.selection matches Some(a) ==> a.row <= line_count(m.inserted(t).text)
            && m.inserted(t).anchor_offset(a) == m.offset() + t.len()),
    ensures
        m.inserted(t).backspaced(t.len()) == (TextState {
            text: m.text,
            cursor: Cursor { ghost_col: m.cursor.col, ..m.cursor },
            selection: if t.len() > 0 {
                None
            } else {
                m.selection
            },
        }),
    decreases t.len(),
{
    let o = m.offset();
    lemma_valid_in_bounds(m);
    lemma_inserted(m, t);
    let after = m.inserted(t);
    if t.len() == 0 {
        assert(after.text =~= m.text);
        lemma_cursor_of_offset(m.text, m.cursor);
    } else {
        let plain = TextState { selection: None, ..m };
        let rest = t.drop_last();
        let first = o + t.len() - 1;
        lemma_line_start(after.text, 0);
        lemma_valid_in_bounds(after);
        lemma_valid_in_bounds(plain);
        lemma_inserted(plain, rest);
        assert(cut(after.text, first, first + 1) =~= spliced(m.text, o, rest));
        assert(after.text.take(first) =~= spliced(m.text, o, rest).take(first));
        lemma_cursor_at_kept(after.text, spliced(m.text, o, rest), first);
        assert(after.removed(true) == plain.inserted(rest));
        law_insert_then_backspace(plain, rest);
    }
}

/// Removals that have nothing to take change nothing and are no error: a
/// delete backwards at the start of the text, and a delete forwards at or
/// behind the end of a line, whichever line it is. A delete forwards never
/// fails.
pub proof fn law_remove_noop(m: TextState)
    ensures
        m.at_start() ==> m.removed(true) == m && !m.remove_fails(true),
        m.past_line() ==> m.removed(false) == m,
        !m.remove_fails(false),
{
}

/// Every other removal in a valid state takes something. A delete backwards
/// away from the start of the text moves the cursor one offset back. A
/// delete forwards has something to take wherever the cursor stands before
/// its line's end: it takes the character there, which is no line feed, and
/// leaves the cursor.
pub proof fn law_remove_takes(m: TextState)
    requires
        m.valid(),
    ensures
        !m.at_start() ==> m.removed(true).offset() == m.offset() - 1,
        m.past_line() <==> m.cursor.col == line_end(m.text, m.cursor.row as nat),
        !m.past_line() ==> {
            &&& 0 <= m.offset() < m.text.len()
            &&& m.text[m.offset()] != '\n'
            &&& m.removed(false).text.len() == m.text.len() - 1
            &&& m.removed(false).cursor == m.cursor
        },
{
    lemma_valid_in_bounds(m);
    lemma_line_shape(m.text, m.cursor.row as nat);
    lemma_line_start(m.text, m.cursor.row as nat);
    if !m.at_start() {
        let first = m.offset() - 1;
        let after = m.removed(true);
        lemma_cursor_at(m.text, first);
        if after.text != m.text {
            assert(m.text.take(first) =~= after.text.take(first));
            lemma_position_kept(m.text, after.text, after.cursor);
        }
    }
}

/// An insertion fails only at a cursor that addresses no offset of the text,
/// which no valid state has; every other one leaves a valid state.
pub proof fn law_insert_in_bounds(m: TextState, t: Seq<char>)
    requires
        m.text.len() + t.len() <= usize::MAX,
    ensures
        m.valid() ==> !m.out_of_bounds(),
        !m.out_of_bounds() ==> m.inserted(t).valid() && m.inserted(t).text.len() == m.text.len()
            + t.len(),
{
    if m.valid() {
        lemma_valid_in_bounds(m);
    }
    if !m.out_of_bounds() {
        lemma_inserted(m, t);
    }
}

} // verus!
