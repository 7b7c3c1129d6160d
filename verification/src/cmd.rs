//! The command line as plain values: what was asked for, and which front end
//! that selects.

use vstd::prelude::*;

verus! {

/// A front end.
#[derive(Clone, Copy, Debug, PartialEq, Eq, Structural)]
pub enum Command {
    /// The terminal front end.
    Tui,
    /// The graphical front end.
    Gui,
}

/// The options that every front end takes.
#[derive(Clone, Debug, PartialEq, Eq)]
pub struct GlobalOpts {
    /// The word to look up at start.
    pub word: Option<String>,
}

/// The parsed command line.
#[derive(Clone, Debug, PartialEq, Eq)]
pub struct App {
    pub global_opts: GlobalOpts,
    pub command: Option<Command>,
}

/// The front end that a command selects: the graphical one where it is
/// named, the terminal one otherwise.
pub open spec fn selected(command: Option<Command>) -> Command {
    match command {
        Some(Command::Gui) => Command::Gui,
        _ => Command::Tui,
    }
}

impl App {
    /// The front end to start.
    pub fn front_end(&self) -> (r: Command)
        ensures
            r == selected(self.command),
    {
        match self.command {
            Some(Command::Gui) => Command::Gui,
            _ => Command::Tui,
        }
    }

    /// The word to start with: the one given, or the empty word.
    pub fn initial_word(self) -> (r: String)
        ensures
            r@ == match self.global_opts.word {
                Some(word) => word@,
                None => Seq::<char>::empty(),
            },
    {
        match self.global_opts.word {
            Some(word) => word,
            None => String::new(),
        }
    }
}

} // verus!
