//! The input line at the bottom of the screen: it shows a message, or collects a line of
//! text behind a prompt.
use vstd::prelude::*;

use crate::common::Key;
use crate::text::{char_count, insert_at, remove_at};

verus! {

/// What the input line holds.
#[derive(Debug, PartialEq, Eq)]
pub enum Status {
    /// Collecting: the prompt and the text typed so far.
    Input(String, String),
    /// Showing a message.
    Still(String),
}

impl Status {
    /// Inserts `ch` into the collected text before the character at `idx`.
    pub fn insert(&mut self, idx: usize, ch: char)
        requires
            *old(self) matches Status::Input(_, t) && idx <= t@.len(),
        ensures
            *old(self) matches Status::Input(p, t) && *final(self) matches Status::Input(p2, t2)
                && p2 == p && t2@ == t@.insert(idx as int, ch),
    {
        match self {
            Status::Input(_, text) => {
                *text = insert_at(text, idx, ch);
            },
            Status::Still(_) => {},
        }
    }

    /// Removes the character at `idx` from the collected text.
    pub fn handle_backspace(&mut self, idx: usize)
        requires
            *old(self) matches Status::Input(_, t) && idx < t@.len(),
        ensures
            *old(self) matches Status::Input(p, t) && *final(self) matches Status::Input(p2, t2)
                && p2 == p && t2@ == t@.remove(idx as int),
    {
        match self {
            Status::Input(_, text) => {
                *text = remove_at(text, idx);
            },
            Status::Still(_) => {},
        }
    }
}

/// The input line: what it holds, and where its edit cursor stands in the collected text.
pub struct StatusLine {
    pub status: Status,
    pub cursor: usize,
}

/// What a key did to a collection in progress.
#[derive(Debug, PartialEq, Eq)]
pub enum InputStatus {
    Processing,
    Cancelled,
    /// Enter was pressed; this is the collected text.
    Done(String),
}

/// What a key does to an input line `s` that is collecting: `new` is the line after it, `r`
/// what it reports.
pub open spec fn input_key_step(s: StatusLine, key: Key, new: StatusLine, r: InputStatus) -> bool {
    match key {
        Key::Esc => {
            &&& r is Cancelled
            &&& !new.collecting()
            &&& new.shown() == s.shown()
        },
        Key::Char('\n') => {
            &&& (r matches InputStatus::Done(t) && t@ == s.input())
            &&& !new.collecting()
            &&& new.shown() == s.shown()
        },
        Key::Char(ch) => {
            &&& r is Processing
            &&& new.collecting()
            &&& new.prompt() == s.prompt()
            &&& new.input() == s.input().insert(s.cursor as int, ch)
            &&& new.cursor == s.cursor + 1
        },
        Key::Backspace => {
            &&& r is Processing
            &&& new.collecting()
            &&& new.prompt() == s.prompt()
            &&& s.cursor > 0 ==> {
                &&& new.input() == s.input().remove(s.cursor - 1)
                &&& new.cursor == s.cursor - 1
            }
            &&& s.cursor == 0 ==> new == s
        },
        Key::Left => {
            &&& r is Processing
            &&& new.status == s.status
            &&& new.cursor == if s.cursor > 0 {
                s.cursor - 1
            } else {
                0
            }
        },
        Key::Right => {
            &&& r is Processing
            &&& new.status == s.status
            &&& new.cursor == if s.cursor < s.input().len() {
                s.cursor + 1
            } else {
                s.cursor as int
            }
        },
        _ => r is Processing && new == s,
    }
}

impl StatusLine {
    /// While collecting, the cursor lies within the collected text.
    pub open spec fn wf(&self) -> bool {
        self.status matches Status::Input(_, t) ==> self.cursor <= t@.len()
    }

    pub open spec fn collecting(&self) -> bool {
        self.status is Input
    }

    /// The prompt of a collection.
    pub open spec fn prompt(&self) -> Seq<char> {
        match self.status {
            Status::Input(p, _) => p@,
            Status::Still(_) => Seq::empty(),
        }
    }

    /// The text collected so far.
    pub open spec fn input(&self) -> Seq<char> {
        match self.status {
            Status::Input(_, t) => t@,
            Status::Still(_) => Seq::empty(),
        }
    }

    /// The line as drawn: `prompt: text` while collecting, else the message.
    pub open spec fn shown(&self) -> Seq<char> {
        match self.status {
            Status::Input(p, t) => p@ + ": "@ + t@,
            Status::Still(m) => m@,
        }
    }

    /// A line that shows its first message.
    pub fn new() -> (s: Self)
        ensures
            s.wf(),
            s.status matches Status::Still(m) && m@ == "This is command line"@,
            s.cursor == 0,
    {
        Self { status: Status::Still(String::from_str("This is command line")), cursor: 0 }
    }

    pub fn is_taking_input(&self) -> (b: bool)
        ensures
            b == self.collecting(),
    {
        match self.status {
            Status::Input(_, _) => true,
            _ => false,
        }
    }

    /// Shows `text`, ending any collection.
    pub fn set_status(&mut self, text: String)
        ensures
            final(self).status == Status::Still(text),
            final(self).cursor == old(self).cursor,
    {
        self.status = Status::Still(text);
    }

    /// The line as drawn.
    pub fn render(&self) -> (line: String)
        ensures
            line@ == self.shown(),
    {
        match &self.status {
            Status::Input(prefix, input) => {
                let mut line = prefix.clone();
                line.append(": ");
                line.append(input.as_str());
                line
            },
            Status::Still(mes) => mes.clone(),
        }
    }

    /// Starts collecting a line behind the prompt `prefix`.
    pub fn take_input(&mut self, prefix: String)
        ensures
            final(self).wf(),
            final(self).status matches Status::Input(p, t) && p == prefix && t@.len() == 0,
            final(self).cursor == 0,
    {
        self.status = Status::Input(prefix, String::new());
        self.cursor = 0;
    }

    /// Types `ch` at the edit cursor.
    pub fn write_input(&mut self, ch: char) -> (r: InputStatus)
        requires
            old(self).wf(),
            old(self).collecting(),
        ensures
            final(self).wf(),
            final(self).collecting(),
            final(self).prompt() == old(self).prompt(),
            final(self).input() == old(self).input().insert(old(self).cursor as int, ch),
            final(self).cursor == old(self).cursor + 1,
            r is Processing,
    {
        self.status.insert(self.cursor, ch);
        proof {
            assert(self.input().len() == old(self).input().len() + 1);
        }
        // The collected text is longer than the cursor, so the cursor can move past the new
        // character.
        let len = match &self.status {
            Status::Input(_, t) => char_count(t),
            Status::Still(_) => 0,
        };
        assert(self.cursor < len);
        self.cursor = self.cursor + 1;
        InputStatus::Processing
    }

    /// Deletes the character before the edit cursor, if there is one.
    pub fn handle_backspace(&mut self) -> (r: InputStatus)
        requires
            old(self).wf(),
        ensures
            final(self).wf(),
            final(self).collecting() == old(self).collecting(),
            final(self).prompt() == old(self).prompt(),
            old(self).collecting() && old(self).cursor > 0 ==> final(self).input() == old(
                self,
            ).input().remove(old(self).cursor - 1) && final(self).cursor == old(self).cursor - 1,
            !(old(self).collecting() && old(self).cursor > 0) ==> *final(self) == *old(self),
            r is Processing,
    {
        match &self.status {
            Status::Input(_, txt) => {
                if self.cursor > 0 {
                    self.status.handle_backspace(self.cursor - 1);
                    self.cursor = self.cursor - 1;
                }
            },
            Status::Still(_) => {},
        }
        InputStatus::Processing
    }

    /// Handles a key while collecting. Escape cancels and Enter finishes; both end the
    /// collection and leave the line showing what it showed. A character is typed at the
    /// edit cursor, Backspace deletes before it, and Left and Right move it by one within
    /// the collected text.
    pub fn process_key(&mut self, key: &Key) -> (r: InputStatus)
        requires
            old(self).wf(),
            old(self).collecting(),
        ensures
            final(self).wf(),
            input_key_step(*old(self), *key, *final(self), r),
    {
        match key {
            Key::Esc => {
                let shown = self.render();
                self.set_status(shown);
                InputStatus::Cancelled
            },
            Key::Char('\n') => {
                let shown = self.render();
                let collected = match &self.status {
                    Status::Input(_, input) => input.clone(),
                    Status::Still(_) => String::new(),
                };
                self.set_status(shown);
                InputStatus::Done(collected)
            },
            Key::Char(ch) => self.write_input(*ch),
            Key::Backspace => self.handle_backspace(),
            Key::Left => {
                if self.cursor > 0 {
                    self.cursor = self.cursor - 1;
                }
                InputStatus::Processing
            },
            Key::Right => {
                let len = match &self.status {
                    Status::Input(_, input) => char_count(input),
                    Status::Still(_) => 0,
                };
                if self.cursor < len {
                    self.cursor = self.cursor + 1;
                }
                InputStatus::Processing
            },
            _ => InputStatus::Processing,
        }
    }

    /// The terminal column (from 1) of the edit cursor: after the prompt, the two characters
    /// `": "`, and the characters before the cursor; at most `usize::MAX`.
    pub fn get_cursor_with_prefix(&self) -> (col: usize)
        requires
            self.collecting(),
        ensures
            col == if self.prompt().len() + 2 + self.cursor + 1 <= usize::MAX {
                self.prompt().len() + 2 + self.cursor + 1
            } else {
                usize::MAX as int
            },
    {
        match &self.status {
            Status::Input(p, _) => char_count(p).saturating_add(2).saturating_add(
                self.cursor.saturating_add(1),
            ),
            Status::Still(_) => 0,
        }
    }
}

} // verus!
