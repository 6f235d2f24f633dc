//! The key map: which directive a key asks for in which mode.

use vstd::prelude::*;
use crate::cursor::MoveCursor;
use crate::mode::{Directive, ModeState};
use crate::ViewMode;

verus! {

/// A key of the keyboard, as far as the editor tells keys apart.
#[derive(Clone, Copy, Debug, PartialEq, Eq, Structural)]
pub enum Key {
    Char(char),
    Enter,
    Tab,
    Backspace,
    Delete,
    Esc,
    Up,
    Down,
    Left,
    Right,
    Home,
    End,
}

/// One event of the terminal.
pub enum Input {
    /// A key was pressed.
    Key(Key),
    /// A text was pasted.
    Paste(String),
}

/// What an input asks for.
pub enum Request {
    /// To leave the editor.
    Quit,
    /// To carry out a directive.
    Apply(Directive),
}

/// The movement that a key asks for in every mode: the arrows, Home and End.
pub open spec fn motion_key(key: Key) -> Option<MoveCursor> {
    match key {
        Key::Up => Some(MoveCursor::Up(1)),
        Key::Down => Some(MoveCursor::Down(1)),
        Key::Left => Some(MoveCursor::Left(1)),
        Key::Right => Some(MoveCursor::Right(1)),
        Key::Home => Some(MoveCursor::Home),
        Key::End => Some(MoveCursor::End),
        _ => None,
    }
}

/// The movement that a letter asks for where letters are not typed.
pub open spec fn motion_letter(c: char) -> Option<MoveCursor> {
    if c == 'k' {
        Some(MoveCursor::Up(1))
    } else if c == 'j' {
        Some(MoveCursor::Down(1))
    } else if c == 'h' {
        Some(MoveCursor::Left(1))
    } else if c == 'l' {
        Some(MoveCursor::Right(1))
    } else {
        None
    }
}

/// What a key asks for while an action is pending: characters go to the
/// action, Backspace takes its last one, Enter commits and Esc cancels it.
pub open spec fn pending_key(key: Key) -> Option<Directive> {
    match key {
        Key::Char(c) => Some(Directive::PushChar(c)),
        Key::Backspace => Some(Directive::RemoveChar),
        Key::Enter => Some(Directive::Commit),
        Key::Esc => Some(Directive::Cancel),
        _ => None,
    }
}

/// What a key asks for in Normal mode.
pub open spec fn normal_key(key: Key) -> Option<Request> {
    match key {
        Key::Esc => Some(Request::Quit),
        Key::Char(c) => if c == 'd' {
            Some(Request::Apply(Directive::Delete))
        } else if c == 'c' {
            Some(Request::Apply(Directive::ReplaceChar))
        } else if c == 'o' {
            Some(Request::Apply(Directive::OpenLine))
        } else if c == 'i' {
            Some(Request::Apply(Directive::EnterInsert))
        } else if c == 'v' {
            Some(Request::Apply(Directive::EnterSelect))
        } else if c == ':' {
            Some(Request::Apply(Directive::EnterCommand))
        } else {
            match motion_letter(c) {
                Some(mov) => Some(Request::Apply(Directive::Move(mov))),
                None => None,
            }
        },
        _ => match motion_key(key) {
            Some(mov) => Some(Request::Apply(Directive::Move(mov))),
            None => None,
        },
    }
}

/// What a key asks for in Insert mode.
pub open spec fn insert_key(key: Key) -> Option<Request> {
    match key {
        Key::Char(c) => Some(Request::Apply(Directive::InsertChar(c))),
        Key::Enter => Some(Request::Apply(Directive::InsertChar('\n'))),
        Key::Tab => Some(Request::Apply(Directive::Indent)),
        Key::Backspace => Some(Request::Apply(Directive::Backspace)),
        Key::Delete => Some(Request::Apply(Directive::Delete)),
        Key::Esc => Some(Request::Apply(Directive::CancelMode)),
        _ => match motion_key(key) {
            Some(mov) => Some(Request::Apply(Directive::Move(mov))),
            None => None,
        },
    }
}

/// What a key asks for in Select mode.
pub open spec fn select_key(key: Key) -> Option<Request> {
    match key {
        Key::Esc => Some(Request::Apply(Directive::CancelMode)),
        Key::Char(c) => if c == ':' {
            Some(Request::Apply(Directive::EnterCommand))
        } else {
            match motion_letter(c) {
                Some(mov) => Some(Request::Apply(Directive::Move(mov))),
                None => None,
            }
        },
        _ => match motion_key(key) {
            Some(mov) => Some(Request::Apply(Directive::Move(mov))),
            None => None,
        },
    }
}

/// What an input asks for in `mode`, with or without an action pending;
/// `None` where it asks for nothing.
pub open spec fn key_map(mode: ViewMode, pending: bool, input: Input) -> Option<Request> {
    match input {
        Input::Paste(text) => if pending {
            None
        } else {
            Some(Request::Apply(Directive::Paste(text)))
        },
        Input::Key(key) => if pending {
            match pending_key(key) {
                Some(d) => Some(Request::Apply(d)),
                None => None,
            }
        } else {
            match mode {
                ViewMode::Normal => normal_key(key),
                ViewMode::Insert => insert_key(key),
                ViewMode::Select => select_key(key),
            }
        },
    }
}

/// The movement that `key` asks for in every mode.
fn decode_motion_key(key: Key) -> (mov: Option<MoveCursor>)
    ensures
        mov == motion_key(key),
{
    match key {
        Key::Up => Some(MoveCursor::Up(1)),
        Key::Down => Some(MoveCursor::Down(1)),
        Key::Left => Some(MoveCursor::Left(1)),
        Key::Right => Some(MoveCursor::Right(1)),
        Key::Home => Some(MoveCursor::Home),
        Key::End => Some(MoveCursor::End),
        _ => None,
    }
}

/// The movement that the letter `c` asks for.
fn decode_motion_letter(c: char) -> (mov: Option<MoveCursor>)
    ensures
        mov == motion_letter(c),
{
    match c {
        'k' => Some(MoveCursor::Up(1)),
        'j' => Some(MoveCursor::Down(1)),
        'h' => Some(MoveCursor::Left(1)),
        'l' => Some(MoveCursor::Right(1)),
        _ => None,
    }
}

/// The request to move, if there is a movement.
fn request_move(mov: Option<MoveCursor>) -> (r: Option<Request>)
    ensures
        r == match mov {
            Some(m) => Some(Request::Apply(Directive::Move(m))),
            None => None::<Request>,
        },
{
    match mov {
        Some(m) => Some(Request::Apply(Directive::Move(m))),
        None => None,
    }
}

/// Decodes one input: what it asks for in `mode`, with or without an action
/// pending.
pub fn decode(mode: ViewMode, pending: bool, input: Input) -> (r: Option<Request>)
    ensures
        r == key_map(mode, pending, input),
{
    let key = match input {
        Input::Paste(text) => {
            return if pending {
                None
            } else {
                Some(Request::Apply(Directive::Paste(text)))
            };
        },
        Input::Key(key) => key,
    };
    if pending {
        return match key {
            Key::Char(c) => Some(Request::Apply(Directive::PushChar(c))),
            Key::Backspace => Some(Request::Apply(Directive::RemoveChar)),
            Key::Enter => Some(Request::Apply(Directive::Commit)),
            Key::Esc => Some(Request::Apply(Directive::Cancel)),
            _ => None,
        };
    }
    match mode {
        ViewMode::Normal => match key {
            Key::Esc => Some(Request::Quit),
            Key::Char('d') => Some(Request::Apply(Directive::Delete)),
            Key::Char('c') => Some(Request::Apply(Directive::ReplaceChar)),
            Key::Char('o') => Some(Request::Apply(Directive::OpenLine)),
            Key::Char('i') => Some(Request::Apply(Directive::EnterInsert)),
            Key::Char('v') => Some(Request::Apply(Directive::EnterSelect)),
            Key::Char(':') => Some(Request::Apply(Directive::EnterCommand)),
            Key::Char(c) => request_move(decode_motion_letter(c)),
            _ => request_move(decode_motion_key(key)),
        },
        ViewMode::Insert => match key {
            Key::Char(c) => Some(Request::Apply(Directive::InsertChar(c))),
            Key::Enter => Some(Request::Apply(Directive::InsertChar('\n'))),
            Key::Tab => Some(Request::Apply(Directive::Indent)),
            Key::Backspace => Some(Request::Apply(Directive::Backspace)),
            Key::Delete => Some(Request::Apply(Directive::Delete)),
            Key::Esc => Some(Request::Apply(Directive::CancelMode)),
            _ => request_move(decode_motion_key(key)),
        },
        ViewMode::Select => match key {
            Key::Esc => Some(Request::Apply(Directive::CancelMode)),
            Key::Char(':') => Some(Request::Apply(Directive::EnterCommand)),
            Key::Char(c) => request_move(decode_motion_letter(c)),
            _ => request_move(decode_motion_key(key)),
        },
    }
}

/// The key map asks only for what the mode machine accepts: a directive that
/// an input decodes to in a state is never ignored there.
pub proof fn law_decoded_is_accepted(m: ModeState, input: Input)
    ensures
        key_map(m.mode, m.pending is Some, input) matches Some(Request::Apply(d)) ==> m.accepts(d),
{
}

} // verus!
