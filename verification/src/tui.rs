//! The state of the terminal front end: a one-line editor with a cursor, an
//! input mode, and the result of the last lookup. Every key is a step from
//! one state to the next.

use vstd::prelude::*;
use crate::text::{insert_char, inserted, remove_char, removed};
use crate::youdao::{WordResult, WordResultText};

verus! {

/// Whether keys edit the input line.
#[derive(Clone, Copy, Debug, PartialEq, Eq, Structural)]
pub enum InputMode {
    Normal,
    Editing,
}

/// A key of the keyboard, as far as the front end tells keys apart.
#[derive(Clone, Copy, Debug, PartialEq, Eq, Structural)]
pub enum Key {
    Char(char),
    Enter,
    Backspace,
    Left,
    Right,
    Esc,
    Other,
}

/// What the event loop does after a key.
#[derive(Clone, Copy, Debug, PartialEq, Eq, Structural)]
pub enum Step {
    /// Wait for the next key.
    Continue,
    /// Leave the loop.
    Quit,
    /// Look the input up, then show the result.
    Submit,
}

/// The state of the front end.
pub struct App {
    /// The text of the input line.
    input: String,
    /// The position of the cursor, counted in characters.
    character_index: usize,
    /// The input mode.
    input_mode: InputMode,
    /// The result of the last lookup.
    word_result: Option<WordResult>,
}

/// The state of the front end as plain values. The cursor is never behind
/// the end of the input.
pub struct AppState {
    pub input: Seq<char>,
    pub cursor: nat,
    pub mode: InputMode,
    pub word_result: Option<WordResultText>,
}

impl AppState {
    /// The state with the cursor at a position.
    pub open spec fn with_cursor(self, cursor: nat) -> AppState {
        AppState { input: self.input, cursor, mode: self.mode, word_result: self.word_result }
    }

    /// The state in a mode.
    pub open spec fn with_mode(self, mode: InputMode) -> AppState {
        AppState { input: self.input, cursor: self.cursor, mode, word_result: self.word_result }
    }

    /// A position held to the input line: no further right than its end.
    pub open spec fn clamped(self, position: nat) -> nat {
        if position <= self.input.len() {
            position
        } else {
            self.input.len()
        }
    }

    /// The cursor one character to the left, unless it is at the start.
    pub open spec fn moved_left(self) -> AppState {
        if self.cursor > 0 {
            self.with_cursor((self.cursor - 1) as nat)
        } else {
            self
        }
    }

    /// The cursor one character to the right, unless it is at the end.
    pub open spec fn moved_right(self) -> AppState {
        self.with_cursor(self.clamped(self.cursor + 1))
    }

    /// A character entered at the cursor, and the cursor behind it.
    pub open spec fn entered(self, ch: char) -> AppState {
        AppState {
            input: inserted(self.input, self.cursor, ch),
            cursor: self.cursor + 1,
            mode: self.mode,
            word_result: self.word_result,
        }
    }

    /// The character before the cursor deleted, and the cursor in its place;
    /// nothing changes with the cursor at the start.
    pub open spec fn deleted(self) -> AppState {
        if self.cursor > 0 {
            AppState {
                input: removed(self.input, (self.cursor - 1) as nat),
                cursor: (self.cursor - 1) as nat,
                mode: self.mode,
                word_result: self.word_result,
            }
        } else {
            self
        }
    }

    /// A result shown: the input line is cleared for the next word.
    pub open spec fn shown(self, result: WordResultText) -> AppState {
        AppState { input: Seq::empty(), cursor: 0, mode: self.mode, word_result: Some(result) }
    }

    /// The state after a key. In normal mode `e` starts editing and no other
    /// key changes anything. In editing mode only a key press counts: a
    /// character is entered, backspace deletes, the arrows move the cursor
    /// and escape goes back to normal mode.
    pub open spec fn after_key(self, key: Key, pressed: bool) -> AppState {
        match self.mode {
            InputMode::Normal => match key {
                Key::Char('e') => self.with_mode(InputMode::Editing),
                _ => self,
            },
            InputMode::Editing => if pressed {
                match key {
                    Key::Char(ch) => self.entered(ch),
                    Key::Backspace => self.deleted(),
                    Key::Left => self.moved_left(),
                    Key::Right => self.moved_right(),
                    Key::Esc => self.with_mode(InputMode::Normal),
                    _ => self,
                }
            } else {
                self
            },
        }
    }

    /// What the event loop does after a key: in normal mode `q` and escape
    /// quit; in editing mode a press of enter submits the input.
    pub open spec fn step(self, key: Key, pressed: bool) -> Step {
        match self.mode {
            InputMode::Normal => match key {
                Key::Char('q') => Step::Quit,
                Key::Esc => Step::Quit,
                _ => Step::Continue,
            },
            InputMode::Editing => if pressed && key == Key::Enter {
                Step::Submit
            } else {
                Step::Continue
            },
        }
    }
}

/// The cursor stays on the line: from a state whose cursor is not behind the
/// end of the input, no key leads to one whose cursor is.
pub proof fn lemma_cursor_stays_on_line(state: AppState, key: Key, pressed: bool)
    requires
        state.cursor <= state.input.len(),
    ensures
        state.after_key(key, pressed).cursor <= state.after_key(key, pressed).input.len(),
{
}

/// Backspace undoes the entering of a character.
pub proof fn lemma_delete_undoes_enter(state: AppState, ch: char)
    requires
        state.cursor <= state.input.len(),
    ensures
        state.entered(ch).deleted() == state,
{
    assert(state.entered(ch).deleted().input =~= state.input);
}

/// Only the keys that edit change the input, and only in editing mode: in
/// normal mode, and for a key that is not pressed, the input and the cursor
/// stay as they are.
pub proof fn lemma_input_kept(state: AppState, key: Key, pressed: bool)
    requires
        state.mode == InputMode::Normal || !pressed,
    ensures
        state.after_key(key, pressed).input == state.input,
        state.after_key(key, pressed).cursor == state.cursor,
        state.after_key(key, pressed).word_result == state.word_result,
{
}

impl View for App {
    type V = AppState;

    closed spec fn view(&self) -> AppState {
        AppState {
            input: self.input@,
            cursor: self.character_index as nat,
            mode: self.input_mode,
            word_result: match self.word_result {
                Some(result) => Some(result@),
                None => None,
            },
        }
    }
}

impl App {
    /// The cursor is never behind the end of the input.
    #[verifier::type_invariant]
    spec fn cursor_on_line(self) -> bool {
        self.character_index <= self.input@.len()
    }

    /// The state at start: the given input, the cursor at its start, editing
    /// mode, and no result.
    pub fn new(input: String) -> (app: App)
        ensures
            app@ == (AppState {
                input: input@,
                cursor: 0,
                mode: InputMode::Editing,
                word_result: None,
            }),
    {
        App { input, input_mode: InputMode::Editing, character_index: 0, word_result: None }
    }

    /// The text of the input line.
    pub fn input(&self) -> (r: &str)
        ensures
            r@ == self@.input,
    {
        self.input.as_str()
    }

    /// The position of the cursor, counted in characters. It is never behind
    /// the end of the input.
    pub fn character_index(&self) -> (r: usize)
        ensures
            r == self@.cursor,
            r <= self@.input.len(),
    {
        proof {
            use_type_invariant(self);
        }
        self.character_index
    }

    /// The input mode.
    pub fn input_mode(&self) -> (r: InputMode)
        ensures
            r == self@.mode,
    {
        self.input_mode
    }

    /// The result of the last lookup.
    pub fn word_result(&self) -> (r: Option<&WordResult>)
        ensures
            match r {
                Some(result) => self@.word_result == Some(result@),
                None => self@.word_result is None,
            },
    {
        self.word_result.as_ref()
    }

    /// A position held to the input line, whose length is a machine number.
    pub fn clamp_cursor(&self, new_cursor_pos: usize) -> (r: usize)
        ensures
            r == self@.clamped(new_cursor_pos as nat),
            self@.input.len() <= usize::MAX,
    {
        let count: usize = self.input.as_str().unicode_len();
        if new_cursor_pos <= count {
            new_cursor_pos
        } else {
            count
        }
    }

    /// Moves the cursor one character to the left.
    pub fn move_cursor_left(&mut self)
        ensures
            final(self)@ == old(self)@.moved_left(),
    {
        proof {
            use_type_invariant(&*self);
        }
        let cursor_moved_left: usize = self.character_index.saturating_sub(1);
        self.character_index = self.clamp_cursor(cursor_moved_left);
    }

    /// Moves the cursor one character to the right.
    pub fn move_cursor_right(&mut self)
        ensures
            final(self)@ == old(self)@.moved_right(),
    {
        proof {
            use_type_invariant(&*self);
        }
        let cursor_moved_right: usize = self.character_index.saturating_add(1);
        self.character_index = self.clamp_cursor(cursor_moved_right);
    }

    /// Enters a character at the cursor.
    pub fn enter_char(&mut self, new_char: char)
        ensures
            final(self)@ == old(self)@.entered(new_char),
    {
        proof {
            use_type_invariant(&*self);
        }
        self.input = insert_char(self.input.as_str(), self.character_index, new_char);
        self.move_cursor_right();
    }

    /// Deletes the character before the cursor.
    pub fn delete_char(&mut self)
        ensures
            final(self)@ == old(self)@.deleted(),
    {
        proof {
            use_type_invariant(&*self);
        }
        let is_not_cursor_leftmost = self.character_index != 0;
        if is_not_cursor_leftmost {
            let from_left_to_current_index: usize = self.character_index - 1;
            let shorter = remove_char(self.input.as_str(), from_left_to_current_index);
            self.character_index = from_left_to_current_index;
            self.input = shorter;
        }
    }

    /// Puts the cursor at the start of the line.
    pub fn reset_cursor(&mut self)
        ensures
            final(self)@ == old(self)@.with_cursor(0),
    {
        proof {
            use_type_invariant(&*self);
        }
        self.character_index = 0;
    }

    /// Shows the result of a lookup and clears the input line for the next
    /// word.
    pub fn show_result(&mut self, result: WordResult)
        ensures
            final(self)@ == old(self)@.shown(result@),
    {
        proof {
            use_type_invariant(&*self);
        }
        self.word_result = Some(result);
        self.reset_cursor();
        self.input = String::new();
    }

    /// Takes one key and says what the event loop does next.
    pub fn on_key(&mut self, key: Key, pressed: bool) -> (step: Step)
        ensures
            final(self)@ == old(self)@.after_key(key, pressed),
            step == old(self)@.step(key, pressed),
    {
        proof {
            use_type_invariant(&*self);
        }
        match self.input_mode {
            InputMode::Normal => match key {
                Key::Char('e') => {
                    self.input_mode = InputMode::Editing;
                    Step::Continue
                },
                Key::Char('q') => Step::Quit,
                Key::Esc => Step::Quit,
                _ => Step::Continue,
            },
            InputMode::Editing => {
                if pressed {
                    match key {
                        Key::Enter => Step::Submit,
                        Key::Char(to_insert) => {
                            self.enter_char(to_insert);
                            Step::Continue
                        },
                        Key::Backspace => {
                            self.delete_char();
                            Step::Continue
                        },
                        Key::Left => {
                            self.move_cursor_left();
                            Step::Continue
                        },
                        Key::Right => {
                            self.move_cursor_right();
                            Step::Continue
                        },
                        Key::Esc => {
                            self.input_mode = InputMode::Normal;
                            Step::Continue
                        },
                        Key::Other => Step::Continue,
                    }
                } else {
                    Step::Continue
                }
            },
        }
    }
}

} // verus!
