//! The input buffer of the shell: its text, its cursor, and the edits that apply to it.
use vstd::prelude::*;
use vstd::string::*;

use crate::edt::Cmd;

verus! {

/// The character that starts an escape sequence.
pub const ESC: char = '\\';

/// The width of the gutter that the prompt takes before each line.
pub const GUTTER_WIDTH: usize = 3;

/// The prompt shown before a line of input.
#[derive(Clone, Copy, Debug, PartialEq, Eq, Structural)]
pub enum Prompt {
    /// Before the first line.
    Ready,
    /// Before a continued line.
    Contd,
}

/// The text being entered, with its cursor.
#[derive(Clone, Debug, Default, PartialEq, Eq)]
pub struct Buf {
    /// The text.
    pub raw: String,
    /// The byte offset of the cursor in the text.
    pub idx: usize,
    /// Whether the next key is escaped.
    pub esc: bool,
    /// Whether input is complete.
    pub trm: bool,
}

/// An edit of the buffer, derived from a key.
#[derive(Debug, PartialEq, Eq)]
pub enum Inp {
    /// Nothing.
    Noop,
    /// Complete the input.
    Exit,
    /// Enter or leave escape mode.
    Esc(bool),
    /// The first edit, then the second if the first succeeded.
    Compose(Box<Inp>, Box<Inp>),
    /// The edit, repeated while it succeeds, at most the given number of times.
    Repeat(Box<Inp>, usize),
    /// Insert a character at the cursor.
    Push(char),
    /// Delete the grapheme after the cursor.
    Delete,
    /// Empty the buffer.
    Clear,
    /// Move the cursor a row up.
    MoveUp,
    /// Move the cursor a row down.
    MoveDn,
    /// Move the cursor a grapheme left.
    MoveLt,
    /// Move the cursor a grapheme right.
    MoveRt,
}

/// The command that a completed input denotes.
pub open spec fn value_of(raw: Seq<char>) -> Cmd {
    if raw.len() == 0 {
        Cmd::Noop
    } else if raw == "exit"@ || raw == "quit"@ {
        Cmd::Exit
    } else {
        Cmd::Help(None)
    }
}

impl Buf {
    /// An empty buffer, cursor at the start, in neither escape nor completed state.
    pub fn new() -> (r: Buf)
        ensures
            r.raw@.len() == 0,
            r.idx == 0,
            !r.esc,
            !r.trm,
    {
        Buf { raw: String::new(), idx: 0, esc: false, trm: false }
    }

    /// The command that the text denotes: nothing for an empty text, leaving for `exit` or
    /// `quit`, and help for anything else.
    pub fn value(&self) -> (r: Cmd)
        ensures
            r == value_of(self.raw@),
    {
        if self.raw.as_str().is_empty() {
            Cmd::Noop
        } else if self.raw == String::from_str("exit") || self.raw == String::from_str("quit") {
            Cmd::Exit
        } else {
            Cmd::Help(None)
        }
    }
}

impl Inp {
    /// This edit followed by `other`, where this one succeeds.
    pub fn compose(self, other: Inp) -> (r: Inp)
        ensures
            r == Inp::Compose(Box::new(self), Box::new(other)),
    {
        Inp::Compose(Box::new(self), Box::new(other))
    }

    /// This edit repeated at most `times` times, while it succeeds.
    pub fn repeat(self, times: usize) -> (r: Inp)
        ensures
            r == Inp::Repeat(Box::new(self), times),
    {
        Inp::Repeat(Box::new(self), times)
    }
}

} // verus!
