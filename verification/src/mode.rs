//! The mode state machine: which directive is accepted in which mode, and
//! what it does to the mode, the pending action and the text view.

use vstd::prelude::*;
use vstd::view::View as _;
use crate::action::Action;
use crate::cursor::MoveCursor;
use crate::state::TextState;
use crate::view::{BufferError, TextView, View};
use crate::ViewMode;

verus! {

/// One input to the editor, already decoded from the keys.
pub enum Directive {
    /// Appends a character to the pending action.
    PushChar(char),
    /// Removes the last character of the pending action.
    RemoveChar,
    /// Commits the pending action.
    Commit,
    /// Discards the pending action.
    Cancel,
    /// Normal to Insert.
    EnterInsert,
    /// Normal to Insert, after the character at the cursor is deleted.
    ReplaceChar,
    /// Normal to Insert, on a new line opened behind the cursor's line.
    OpenLine,
    /// Normal to Select.
    EnterSelect,
    /// Starts a pending command line, from Normal or Select.
    EnterCommand,
    /// Insert or Select back to Normal.
    CancelMode,
    /// Types a character, in Insert.
    InsertChar(char),
    /// Types one step of indentation, in Insert.
    Indent,
    /// Deletes backwards, in Insert.
    Backspace,
    /// Deletes the character at the cursor, in Normal or Insert.
    Delete,
    /// Inserts a pasted text, in any mode.
    Paste(String),
    /// Moves the cursor, in any mode.
    Move(MoveCursor),
}

/// One step of indentation: four spaces.
pub open spec fn indentation() -> Seq<char> {
    seq![' ', ' ', ' ', ' ']
}

/// What a directive came to.
pub enum Outcome {
    /// The directive is not accepted in this state; nothing changed.
    Ignored,
    /// The directive was carried out.
    Applied,
    /// The pending action was committed and is handed over to be run.
    Commit(Action),
}

/// The mode and the pending action, as values.
pub struct ModeState {
    /// The edit mode.
    pub mode: ViewMode,
    /// The text of the pending action, if there is one.
    pub pending: Option<Seq<char>>,
}

impl ModeState {
    /// The directive is accepted in this state. A pending action takes its
    /// own four directives and nothing else; without one, each directive
    /// has the modes it belongs to.
    pub open spec fn accepts(self, d: Directive) -> bool {
        if self.pending is Some {
            d is PushChar || d is RemoveChar || d is Commit || d is Cancel
        } else {
            match d {
                Directive::PushChar(_) | Directive::RemoveChar | Directive::Commit
                | Directive::Cancel => false,
                Directive::EnterInsert | Directive::ReplaceChar | Directive::OpenLine
                | Directive::EnterSelect => self.mode == ViewMode::Normal,
                Directive::EnterCommand => self.mode == ViewMode::Normal || self.mode
                    == ViewMode::Select,
                Directive::CancelMode => self.mode == ViewMode::Insert || self.mode
                    == ViewMode::Select,
                Directive::InsertChar(_) | Directive::Indent | Directive::Backspace => self.mode
                    == ViewMode::Insert,
                Directive::Delete => self.mode == ViewMode::Normal || self.mode
                    == ViewMode::Insert,
                Directive::Paste(_) | Directive::Move(_) => true,
            }
        }
    }

    /// The state after the directive.
    pub open spec fn next(self, d: Directive) -> ModeState {
        if !self.accepts(d) {
            self
        } else {
            match d {
                Directive::PushChar(c) => ModeState {
                    pending: Some(self.pending->0.push(c)),
                    ..self
                },
                Directive::RemoveChar => ModeState {
                    pending: Some(
                        if self.pending->0.len() > 0 {
                            self.pending->0.drop_last()
                        } else {
                            self.pending->0
                        },
                    ),
                    ..self
                },
                Directive::Commit | Directive::Cancel => ModeState { pending: None, ..self },
                Directive::EnterInsert | Directive::ReplaceChar | Directive::OpenLine => ModeState {
                    mode: ViewMode::Insert,
                    ..self
                },
                Directive::EnterSelect => ModeState { mode: ViewMode::Select, ..self },
                Directive::EnterCommand => ModeState {
                    pending: Some(Seq::<char>::empty()),
                    ..self
                },
                Directive::CancelMode => ModeState { mode: ViewMode::Normal, ..self },
                _ => self,
            }
        }
    }

    /// The text view after the directive.
    pub open spec fn edits(self, d: Directive, t: TextState) -> TextState {
        if !self.accepts(d) {
            t
        } else {
            match d {
                Directive::ReplaceChar | Directive::Delete => t.removed(false),
                Directive::OpenLine => t.moved(MoveCursor::End).inserted(seq!['\n']),
                Directive::CancelMode => if self.mode == ViewMode::Select {
                    TextState { selection: None, ..t }
                } else {
                    t
                },
                Directive::InsertChar(c) => t.inserted(seq![c]),
                Directive::Indent => t.inserted(indentation()),
                Directive::Paste(s) => t.inserted(s@),
                Directive::Backspace => t.removed(true),
                Directive::Move(m) => t.moved(m),
                _ => t,
            }
        }
    }

    /// The directive fails: an accepted delete backwards that fails, which
    /// in a valid view is one whose selection does not lie in the buffer.
    pub open spec fn fails(self, d: Directive, t: TextState) -> bool {
        self.accepts(d) && d is Backspace && t.remove_fails(true)
    }
}

/// The mode of the editor and the action that is being composed, if any.
pub struct ModeMachine {
    mode: ViewMode,
    action: Option<Action>,
}

impl vstd::view::View for ModeMachine {
    type V = ModeState;

    closed spec fn view(&self) -> ModeState {
        ModeState {
            mode: self.mode,
            pending: match self.action {
                Some(a) => Some(a@),
                None => None,
            },
        }
    }
}

impl Outcome {
    /// The outcome is the one that the directive has in the state `m`:
    /// ignored where it is not accepted, the action with its text for a
    /// commit, applied else.
    pub open spec fn fits(self, m: ModeState, d: Directive) -> bool {
        if !m.accepts(d) {
            self is Ignored
        } else if d is Commit {
            self matches Outcome::Commit(a) && a@ == m.pending->0
        } else {
            self is Applied
        }
    }
}

impl ModeMachine {
    /// Normal mode, with no action pending.
    pub fn new() -> (machine: Self)
        ensures
            machine@ == (ModeState { mode: ViewMode::Normal, pending: None }),
    {
        ModeMachine { mode: ViewMode::Normal, action: None }
    }

    /// The edit mode.
    pub fn mode(&self) -> (mode: ViewMode)
        ensures
            mode == self@.mode,
    {
        self.mode
    }

    /// The pending action, if there is one.
    pub fn action(&self) -> (action: &Option<Action>)
        ensures
            action is Some <==> self@.pending is Some,
            action matches Some(a) ==> self@.pending == Some(a@),
    {
        &self.action
    }

    /// Carries out one directive on the mode, the pending action and the
    /// text view. A directive that the state does not accept changes nothing
    /// and is no error.
    pub fn apply(&mut self, view: &mut TextView, d: Directive) -> (r: Result<Outcome, BufferError>)
        requires
            old(view).inv(),
        ensures
            final(view).inv(),
            final(self)@ == old(self)@.next(d),
            final(view)@ == old(self)@.edits(d, old(view)@),
            r is Err <==> old(self)@.fails(d, old(view)@),
            r matches Err(e) ==> e == BufferError::OutOfBounds,
            r matches Ok(o) ==> o.fits(old(self)@, d),
    {
        if self.action.is_some() {
            return Ok(self.apply_to_action(d));
        }
        match d {
            Directive::PushChar(_) | Directive::RemoveChar | Directive::Commit
            | Directive::Cancel => Ok(Outcome::Ignored),
            Directive::EnterInsert => match self.mode {
                ViewMode::Normal => {
                    self.mode = ViewMode::Insert;
                    Ok(Outcome::Applied)
                },
                _ => Ok(Outcome::Ignored),
            },
            Directive::ReplaceChar => match self.mode {
                ViewMode::Normal => {
                    let removed = view.remove(false);
                    self.mode = ViewMode::Insert;
                    applied(removed)
                },
                _ => Ok(Outcome::Ignored),
            },
            Directive::OpenLine => match self.mode {
                ViewMode::Normal => {
                    view.move_cursor(MoveCursor::End);
                    let inserted = view.insert_char('\n');
                    self.mode = ViewMode::Insert;
                    applied(inserted)
                },
                _ => Ok(Outcome::Ignored),
            },
            Directive::EnterSelect => match self.mode {
                ViewMode::Normal => {
                    self.mode = ViewMode::Select;
                    Ok(Outcome::Applied)
                },
                _ => Ok(Outcome::Ignored),
            },
            Directive::EnterCommand => match self.mode {
                ViewMode::Normal | ViewMode::Select => {
                    self.action = Some(Action::Command { text: String::new() });
                    Ok(Outcome::Applied)
                },
                ViewMode::Insert => Ok(Outcome::Ignored),
            },
            Directive::CancelMode => match self.mode {
                ViewMode::Insert => {
                    self.mode = ViewMode::Normal;
                    Ok(Outcome::Applied)
                },
                ViewMode::Select => {
                    view.set_selection(None);
                    self.mode = ViewMode::Normal;
                    Ok(Outcome::Applied)
                },
                ViewMode::Normal => Ok(Outcome::Ignored),
            },
            Directive::InsertChar(c) => match self.mode {
                ViewMode::Insert => applied(view.insert_char(c)),
                _ => Ok(Outcome::Ignored),
            },
            Directive::Indent => match self.mode {
                ViewMode::Insert => {
                    proof {
                        reveal_strlit("    ");
                        assert("    "@ =~= indentation());
                    }
                    applied(view.insert("    "))
                },
                _ => Ok(Outcome::Ignored),
            },
            Directive::Backspace => match self.mode {
                ViewMode::Insert => applied(view.remove(true)),
                _ => Ok(Outcome::Ignored),
            },
            Directive::Delete => match self.mode {
                ViewMode::Normal | ViewMode::Insert => applied(view.remove(false)),
                ViewMode::Select => Ok(Outcome::Ignored),
            },
            Directive::Paste(text) => applied(view.insert(text.as_str())),
            Directive::Move(mov) => {
                view.move_cursor(mov);
                Ok(Outcome::Applied)
            },
        }
    }

    /// Carries out one directive while an action is pending: the action
    /// takes its own four directives and nothing else.
    fn apply_to_action(&mut self, d: Directive) -> (o: Outcome)
        requires
            old(self).action is Some,
        ensures
            final(self)@ == old(self)@.next(d),
            o.fits(old(self)@, d),
    {
        match d {
            Directive::PushChar(c) => {
                match &mut self.action {
                    Some(action) => action.push_char(c),
                    None => {},
                }
                Outcome::Applied
            },
            Directive::RemoveChar => {
                match &mut self.action {
                    Some(action) => action.remove_char(),
                    None => {},
                }
                Outcome::Applied
            },
            Directive::Commit => match self.action.take() {
                Some(action) => Outcome::Commit(action),
                None => Outcome::Ignored,
            },
            Directive::Cancel => {
                self.action = None;
                Outcome::Applied
            },
            _ => Outcome::Ignored,
        }
    }
}

/// The outcome of a directive that came to an edit of the buffer.
fn applied(edit: Result<(), BufferError>) -> (r: Result<Outcome, BufferError>)
    ensures
        r is Err <==> edit is Err,
        r matches Ok(o) ==> o is Applied,
        r matches Err(e) ==> edit == Err::<(), BufferError>(e),
{
    match edit {
        Ok(()) => Ok(Outcome::Applied),
        Err(e) => Err(e),
    }
}

/// The transitions of the mode machine are these and no others.
///
/// The mode changes only with no action pending: from Normal to Insert, by
/// entering insert, replacing a character or opening a line; from Normal to
/// Select; and from Insert or Select back to Normal. An action comes to be
/// pending, with an empty text, only by entering a command from Normal or
/// Select. While an action is pending the mode and the text view stay as
/// they are. What is not accepted changes nothing.
pub proof fn law_transitions(m: ModeState, d: Directive, t: TextState)
    ensures
        m.next(d).mode != m.mode ==> m.pending is None && {
            ||| m.mode == ViewMode::Normal && m.next(d).mode == ViewMode::Insert && (d
                is EnterInsert || d is ReplaceChar || d is OpenLine)
            ||| m.mode == ViewMode::Normal && m.next(d).mode == ViewMode::Select && d
                is EnterSelect
            ||| m.mode != ViewMode::Normal && m.next(d).mode == ViewMode::Normal && d
                is CancelMode
        },
        m.pending is None && m.next(d).pending is Some ==> d is EnterCommand && m.mode
            != ViewMode::Insert && m.next(d).pending == Some(Seq::<char>::empty()),
        m.pending is Some ==> m.next(d).mode == m.mode && m.edits(d, t) == t && !m.fails(d, t),
        m.pending is Some && m.next(d).pending is None ==> d is Commit || d is Cancel,
        !m.accepts(d) ==> m.next(d) == m && m.edits(d, t) == t && !m.fails(d, t),
{
}

} // verus!
