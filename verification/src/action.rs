//! The pending action: a command line that is being typed.

use vstd::prelude::*;

verus! {

/// An action that is being composed and takes the typed characters until it
/// is committed or cancelled.
pub enum Action {
    /// A command line, without the colon that opened it.
    Command { text: String },
}

impl View for Action {
    type V = Seq<char>;

    /// The text typed so far.
    open spec fn view(&self) -> Seq<char> {
        match self {
            Action::Command { text } => text@,
        }
    }
}

impl Action {
    /// Appends `c` to the text.
    pub fn push_char(&mut self, c: char)
        ensures
            final(self)@ == old(self)@.push(c),
    {
        match self {
            Action::Command { text } => text.push(c),
        }
    }

    /// Removes the last character of the text, if there is one.
    pub fn remove_char(&mut self)
        ensures
            final(self)@ == (if old(self)@.len() > 0 {
                old(self)@.drop_last()
            } else {
                old(self)@
            }),
    {
        match self {
            Action::Command { text } => {
                text.pop();
            },
        }
    }

    /// The command line to run when the action is committed: the text as it
    /// was typed. What a command means is for the caller to say.
    pub fn execute(&self) -> (command: String)
        ensures
            command@ == self@,
    {
        match self {
            Action::Command { text } => text.clone(),
        }
    }

    /// The action as the status line shows it: a colon, then the text.
    pub fn to_string(&self) -> (shown: String)
        ensures
            shown@ == seq![':'] + self@,
    {
        let mut shown = String::new();
        shown.push(':');
        match self {
            Action::Command { text } => shown.append(text.as_str()),
        }
        assert(shown@ =~= seq![':'] + self@);
        shown
    }
}

} // verus!
