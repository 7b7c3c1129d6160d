//! The history tab: the list of the words looked up so far, as rows of text.

use vstd::prelude::*;
use vstd::string::*;
use crate::models::{format_created_at, created_at_text, History};
use crate::tabs::home::{HomeMessage, HomeMessageText};
use crate::tabs::main::TabId;
use crate::text::{signed_decimal, signed_decimal_string};

verus! {

/// A message to the history tab.
#[derive(Debug, Clone, Copy, PartialEq, Eq, Structural)]
pub enum HistoryMessage {
    /// The history is to be read from the store.
    LoadHistory,
}

/// What the window does after a message.
#[derive(Debug, Clone, Copy, PartialEq, Eq, Structural)]
pub enum HistoryAction {
    /// Read the history from the store, newest first, and hand it over.
    Load,
}

/// One row of the history, as shown.
#[derive(Debug, Clone, PartialEq, Eq)]
pub struct HistoryRow {
    pub id: String,
    pub word: String,
    pub created_at: String,
}

/// A row as plain text.
pub struct HistoryRowText {
    pub id: Seq<char>,
    pub word: Seq<char>,
    pub created_at: Seq<char>,
}

impl View for HistoryRow {
    type V = HistoryRowText;

    open spec fn view(&self) -> HistoryRowText {
        HistoryRowText { id: self.id@, word: self.word@, created_at: self.created_at@ }
    }
}

impl DeepView for HistoryRow {
    type V = HistoryRowText;

    open spec fn deep_view(&self) -> HistoryRowText {
        self.view()
    }
}

/// The row shown for an entry: its number, its word, and the time it was
/// made at.
pub open spec fn row_of(entry: History) -> HistoryRowText {
    HistoryRowText {
        id: signed_decimal(entry.id as int),
        word: entry.word@,
        created_at: created_at_text(entry.created_at),
    }
}

/// The state of the history tab.
pub struct HistoryTab {
    history: Vec<History>,
}

impl View for HistoryTab {
    type V = Seq<History>;

    closed spec fn view(&self) -> Seq<History> {
        self.history@
    }
}

impl HistoryTab {
    /// The tab at start, with nothing loaded.
    pub fn new() -> (tab: HistoryTab)
        ensures
            tab@ == Seq::<History>::empty(),
    {
        HistoryTab { history: Vec::new() }
    }

    /// The title of the tab.
    pub fn title(&self) -> (r: String)
        ensures
            r@ == "History"@,
    {
        String::from_str("History")
    }

    /// Takes one message and says what is left for the window to do. The
    /// state changes only when the history is handed over.
    pub fn update(&self, message: HistoryMessage) -> (action: HistoryAction)
        ensures
            action == HistoryAction::Load,
    {
        match message {
            HistoryMessage::LoadHistory => HistoryAction::Load,
        }
    }

    /// Takes the history as read from the store.
    pub fn loaded(&mut self, history: Vec<History>)
        ensures
            final(self)@ == history@,
    {
        self.history = history;
    }

    /// The entries held.
    pub fn history(&self) -> (r: &Vec<History>)
        ensures
            r@ == self@,
    {
        &self.history
    }

    /// The rows shown, one for each entry, in the order of the entries.
    pub fn rows(&self) -> (rows: Vec<HistoryRow>)
        ensures
            rows.deep_view() == self@.map_values(|entry: History| row_of(entry)),
    {
        let mut rows: Vec<HistoryRow> = Vec::new();
        let mut i: usize = 0;
        while i < self.history.len()
            invariant
                i <= self.history.len(),
                rows.len() == i,
                forall|j: int| 0 <= j < i ==> rows[j]@ == row_of(self.history@[j]),
            decreases self.history.len() - i,
        {
            let entry = &self.history[i];
            rows.push(
                HistoryRow {
                    id: signed_decimal_string(entry.id),
                    word: entry.word.clone(),
                    created_at: format_created_at(&entry.created_at),
                },
            );
            i += 1;
        }
        assert(rows.deep_view() =~= self@.map_values(|entry: History| row_of(entry)));
        rows
    }
}

/// What the button of a row sends: the home tab is selected, the row's word
/// is put in its input line, and the word is looked up.
pub fn open_entry(word: &str) -> (r: (TabId, Vec<HomeMessage>))
    ensures
        r.0 == TabId::Home,
        r.1.len() == 2,
        r.1[0]@ == HomeMessageText::InputChange(word@),
        r.1[1]@ == HomeMessageText::SearchWord,
{
    let mut messages: Vec<HomeMessage> = Vec::new();
    messages.push(HomeMessage::InputChange(String::from_str(word)));
    messages.push(HomeMessage::SearchWord);
    (TabId::Home, messages)
}

} // verus!
