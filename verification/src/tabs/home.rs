//! The lookup tab: an input line, the last result and the text shown for it.
//! Each message is a step from one state to the next, with what is left for
//! the window to do.

use vstd::prelude::*;
use vstd::string::*;
use crate::sentences::text_of;
use crate::youdao::{display, WordResult, WordResultText};

verus! {

/// A message to the lookup tab.
#[derive(Debug, Clone, PartialEq, Eq)]
pub enum HomeMessage {
    /// The input line was edited.
    InputChange(String),
    /// The input is to be looked up.
    SearchWord,
    /// A lookup has ended, with a record or without one.
    ResultFetched(Option<WordResult>),
    /// A link of the shown text was clicked.
    LinkClicked(String),
}

/// What the window does after a message.
#[derive(Debug, Clone, PartialEq, Eq)]
pub enum HomeAction {
    /// Nothing.
    Idle,
    /// Fetch the page of this word and send the outcome back.
    Search(String),
    /// Lay out the shown text anew; with a word, also append that word to
    /// the history.
    Show(Option<String>),
    /// Print this line.
    Print(String),
}

/// A message as plain values.
pub enum HomeMessageText {
    InputChange(Seq<char>),
    SearchWord,
    ResultFetched(Option<WordResultText>),
    LinkClicked(Seq<char>),
}

/// An action as plain values.
pub enum HomeActionText {
    Idle,
    Search(Seq<char>),
    Show(Option<Seq<char>>),
    Print(Seq<char>),
}

/// A record as plain values, where there is one.
pub open spec fn record_of(result: Option<WordResult>) -> Option<WordResultText> {
    match result {
        Some(record) => Some(record@),
        None => None,
    }
}

impl View for HomeMessage {
    type V = HomeMessageText;

    open spec fn view(&self) -> HomeMessageText {
        match *self {
            HomeMessage::InputChange(value) => HomeMessageText::InputChange(value@),
            HomeMessage::SearchWord => HomeMessageText::SearchWord,
            HomeMessage::ResultFetched(result) => HomeMessageText::ResultFetched(record_of(result)),
            HomeMessage::LinkClicked(url) => HomeMessageText::LinkClicked(url@),
        }
    }
}

impl View for HomeAction {
    type V = HomeActionText;

    open spec fn view(&self) -> HomeActionText {
        match *self {
            HomeAction::Idle => HomeActionText::Idle,
            HomeAction::Search(word) => HomeActionText::Search(word@),
            HomeAction::Show(word) => HomeActionText::Show(text_of(word)),
            HomeAction::Print(line) => HomeActionText::Print(line@),
        }
    }
}

/// The state of the lookup tab.
pub struct HomeTab {
    /// The text of the input line, until it is taken for a lookup.
    input_value: Option<String>,
    /// The word of the last lookup that was started.
    searched: Option<String>,
    /// The record of the last lookup that ended.
    word_result: Option<WordResult>,
    /// The text shown for that record.
    word_result_content: String,
}

/// The state of the lookup tab as plain values.
pub struct HomeState {
    pub input_value: Option<Seq<char>>,
    pub searched: Option<Seq<char>>,
    pub word_result: Option<WordResultText>,
    pub content: Seq<char>,
}

/// The text shown for the outcome of a lookup: that of the record, or
/// nothing where there is none.
pub open spec fn content_of(result: Option<WordResultText>) -> Seq<char> {
    match result {
        Some(record) => display(record),
        None => Seq::empty(),
    }
}

/// The word to append to the history after a lookup: the word looked up,
/// where the lookup gave the record of a found word, and none otherwise.
pub open spec fn word_to_record(searched: Option<Seq<char>>, result: Option<WordResultText>)
    -> Option<Seq<char>> {
    match result {
        Some(record) => if record.not_found {
            None
        } else {
            searched
        },
        None => None,
    }
}

/// The line printed for a clicked link.
pub open spec fn clicked_line(url: Seq<char>) -> Seq<char> {
    "The following url was clicked: "@ + url
}

impl HomeState {
    /// The state after a message. An edit replaces the input. A search
    /// takes the input away and remembers it as the word looked up. A
    /// fetched outcome replaces the record and the shown text. A click
    /// changes nothing.
    pub open spec fn after(self, message: HomeMessageText) -> HomeState {
        match message {
            HomeMessageText::InputChange(value) => HomeState {
                input_value: Some(value),
                searched: self.searched,
                word_result: self.word_result,
                content: self.content,
            },
            HomeMessageText::SearchWord => HomeState {
                input_value: None,
                searched: if self.input_value is Some {
                    self.input_value
                } else {
                    self.searched
                },
                word_result: self.word_result,
                content: self.content,
            },
            HomeMessageText::ResultFetched(result) => HomeState {
                input_value: self.input_value,
                searched: self.searched,
                word_result: result,
                content: content_of(result),
            },
            HomeMessageText::LinkClicked(_) => self,
        }
    }

    /// What is left to do after a message. A search with an input asks for
    /// the page of that input, one without asks for nothing. A fetched
    /// outcome asks for the shown text to be laid out, and for the word to
    /// be recorded where it was found. A click asks for a line to be
    /// printed.
    pub open spec fn action(self, message: HomeMessageText) -> HomeActionText {
        match message {
            HomeMessageText::InputChange(_) => HomeActionText::Idle,
            HomeMessageText::SearchWord => match self.input_value {
                Some(word) => HomeActionText::Search(word),
                None => HomeActionText::Idle,
            },
            HomeMessageText::ResultFetched(result) => HomeActionText::Show(
                word_to_record(self.searched, result),
            ),
            HomeMessageText::LinkClicked(url) => HomeActionText::Print(clicked_line(url)),
        }
    }
}

/// A word is recorded only for a found word: where a message asks for a word
/// to be appended to the history, the message brought the record of a found
/// word, and the word is the one that was looked up last.
pub proof fn lemma_only_found_words_recorded(state: HomeState, message: HomeMessageText)
    requires
        state.action(message) matches HomeActionText::Show(Some(_)),
    ensures
        message matches HomeMessageText::ResultFetched(Some(record)) && !record.not_found,
        state.action(message) == HomeActionText::Show(state.searched),
{
}

/// The shown text is that of the last record: after a fetched outcome it is
/// the display text of the record, and no other message changes it.
pub proof fn lemma_content_follows_record(state: HomeState, message: HomeMessageText)
    ensures
        message is ResultFetched ==> state.after(message).content == content_of(
            state.after(message).word_result,
        ),
        !(message is ResultFetched) ==> state.after(message).content == state.content
            && state.after(message).word_result == state.word_result,
{
}

impl View for HomeTab {
    type V = HomeState;

    closed spec fn view(&self) -> HomeState {
        HomeState {
            input_value: text_of(self.input_value),
            searched: text_of(self.searched),
            word_result: record_of(self.word_result),
            content: self.word_result_content@,
        }
    }
}

impl HomeTab {
    /// The tab at start, with the word to look up first, if any, in its
    /// input, and the message to send it first: a search.
    pub fn new(word: Option<String>) -> (r: (HomeTab, HomeMessage))
        ensures
            r.0@ == (HomeState {
                input_value: text_of(word),
                searched: None,
                word_result: None,
                content: Seq::empty(),
            }),
            r.1@ == HomeMessageText::SearchWord,
    {
        (
            HomeTab {
                input_value: word,
                searched: None,
                word_result: None,
                word_result_content: String::new(),
            },
            HomeMessage::SearchWord,
        )
    }

    /// The title of the tab.
    pub fn title(&self) -> (r: String)
        ensures
            r@ == "Home"@,
    {
        String::from_str("Home")
    }

    /// The text of the input line; empty once it was taken for a lookup.
    pub fn input_value(&self) -> (r: &str)
        ensures
            r@ == match self@.input_value {
                Some(value) => value,
                None => Seq::<char>::empty(),
            },
    {
        match &self.input_value {
            Some(value) => value.as_str(),
            None => {
                let empty = "";
                proof {
                    reveal_strlit("");
                    assert(empty@ =~= Seq::<char>::empty());
                }
                empty
            },
        }
    }

    /// The record of the last lookup that ended.
    pub fn word_result(&self) -> (r: Option<&WordResult>)
        ensures
            match r {
                Some(record) => self@.word_result == Some(record@),
                None => self@.word_result is None,
            },
    {
        self.word_result.as_ref()
    }

    /// The text shown for the last record.
    pub fn word_result_content(&self) -> (r: &str)
        ensures
            r@ == self@.content,
    {
        self.word_result_content.as_str()
    }

    /// Takes one message and says what is left for the window to do.
    pub fn update(&mut self, message: HomeMessage) -> (action: HomeAction)
        ensures
            final(self)@ == old(self)@.after(message@),
            action@ == old(self)@.action(message@),
    {
        match message {
            HomeMessage::InputChange(value) => {
                self.input_value = Some(value);
                HomeAction::Idle
            },
            HomeMessage::SearchWord => {
                let word = self.input_value.take();
                match word {
                    Some(word) => {
                        self.searched = Some(word.clone());
                        HomeAction::Search(word)
                    },
                    None => HomeAction::Idle,
                }
            },
            HomeMessage::ResultFetched(result) => {
                let (content, record) = match &result {
                    Some(r) => {
                        if r.not_found {
                            (r.display_text(), None)
                        } else {
                            (r.display_text(), self.searched.clone())
                        }
                    },
                    None => (String::new(), None),
                };
                self.word_result = result;
                self.word_result_content = content;
                HomeAction::Show(record)
            },
            HomeMessage::LinkClicked(url) => {
                let mut line = String::from_str("The following url was clicked: ");
                line.append(url.as_str());
                HomeAction::Print(line)
            },
        }
    }
}

} // verus!
