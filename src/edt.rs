//! Commands of the interactive shell and the output they produce, as plain data.
use vstd::prelude::*;
use vstd::string::*;

use crate::exp::Exp;

verus! {

/// How a line of output is to be presented.
#[derive(Clone, Copy, Debug, PartialEq, Eq, Structural)]
pub enum Status {
    /// The result of a command that succeeded.
    Success,
    /// The report of a command that failed.
    Failure,
    /// Information, such as help text.
    Content,
    /// Diagnostic detail.
    Diagnostics,
}

/// The editor that reads a command from the user; its terminal work is done by the shell.
#[derive(Debug, Default)]
pub struct Editor;

/// What the user asked the shell to do.
#[derive(Debug, PartialEq, Eq)]
pub enum Cmd {
    /// Nothing.
    Noop,
    /// Leave the shell.
    Exit,
    /// Show help, on all commands or on the given one.
    Help(Option<Box<Cmd>>),
    /// Show the normal form of an expression.
    Show(Exp),
    /// Show the type of an expression.
    Type(Exp),
    /// Run the program that an expression denotes.
    Exec(Exp),
}

/// The output of a command: messages with their status, and whether the shell is to end.
#[derive(Debug, Default, PartialEq, Eq)]
pub struct Out {
    /// The messages, in order.
    pub log: Vec<(Status, String)>,
    /// Whether the shell is to end.
    pub trm: bool,
}

/// The messages of an output, with text as character sequences.
pub open spec fn log_view(log: Seq<(Status, String)>) -> Seq<(Status, Seq<char>)> {
    log.map_values(|m: (Status, String)| (m.0, m.1@))
}

/// The help entries of a command: its spelling and what it does.
pub open spec fn help_of(c: Cmd) -> Seq<(Seq<char>, Seq<char>)> {
    match c {
        Cmd::Noop => seq![("noop"@, "Do nothing (not user-invocable)"@)],
        Cmd::Exit => seq![
            ("exit"@, "Exit the integrated development environment"@),
            ("quit"@, "Alias for “exit”"@),
        ],
        Cmd::Help(_) => seq![("help"@, "Print this help message"@)],
        Cmd::Show(_) => seq![("show EXP"@, "Show the normalized form of the expression EXP"@)],
        Cmd::Type(_) => seq![("type EXP"@, "Show the type of the expression EXP"@)],
        Cmd::Exec(_) => seq![("exec EXP"@, "Execute the program denoted by the expression"@)],
    }
}

impl Editor {
    /// A new editor.
    pub fn new() -> (r: Editor) {
        Editor
    }
}

impl Cmd {
    /// The help entries of this command: how it is spelled and what it does.
    pub fn help(&self) -> (r: Vec<(&'static str, &'static str)>)
        ensures
            r@.map_values(|p: (&str, &str)| (p.0@, p.1@)) == help_of(*self),
    {
        let mut res: Vec<(&'static str, &'static str)> = Vec::new();
        match self {
            Cmd::Noop => {
                res.push(("noop", "Do nothing (not user-invocable)"));
            },
            Cmd::Exit => {
                res.push(("exit", "Exit the integrated development environment"));
                res.push(("quit", "Alias for “exit”"));
            },
            Cmd::Help(_) => {
                res.push(("help", "Print this help message"));
            },
            Cmd::Show(_) => {
                res.push(("show EXP", "Show the normalized form of the expression EXP"));
            },
            Cmd::Type(_) => {
                res.push(("type EXP", "Show the type of the expression EXP"));
            },
            Cmd::Exec(_) => {
                res.push(("exec EXP", "Execute the program denoted by the expression"));
            },
        }
        assert(res@.map_values(|p: (&str, &str)| (p.0@, p.1@)) =~= help_of(*self));
        res
    }
}

impl Out {
    /// An output with no messages that lets the shell go on.
    pub fn new() -> (r: Out)
        ensures
            r.log@.len() == 0,
            !r.trm,
    {
        Out { log: Vec::new(), trm: false }
    }

    /// An output with no messages that ends the shell.
    pub fn trm() -> (r: Out)
        ensures
            r.log@.len() == 0,
            r.trm,
    {
        Out { log: Vec::new(), trm: true }
    }

    /// An output with the one message `val` of status `sts`.
    pub fn msg(sts: Status, val: &str) -> (r: Out)
        ensures
            log_view(r.log@) == seq![(sts, val@)],
            !r.trm,
    {
        let mut res = Out::new();
        res.append(sts, val);
        assert(log_view(res.log@) =~= seq![(sts, val@)]);
        res
    }

    /// Add the message `val` of status `sts` at the end.
    pub fn append(&mut self, sts: Status, val: &str)
        ensures
            log_view(final(self).log@) == log_view(old(self).log@).push((sts, val@)),
            final(self).trm == old(self).trm,
    {
        self.log.push((sts, val.to_string()));
        assert(log_view(self.log@) =~= log_view(old(self).log@).push((sts, val@)));
    }
}

} // verus!
