use yd::address::{result_url, suggest_url};
use yd::cmd::{App as Args, Command, GlobalOpts};
use yd::db::{connection_error_message, database_url};
use yd::models::History;
use yd::tabs::history::{open_entry, HistoryAction, HistoryMessage, HistoryTab};
use yd::tabs::home::{HomeAction, HomeMessage, HomeTab};
use yd::tabs::main::{select_tab, TabId};
use yd::tui::{App, InputMode, Key, Step};
use yd::youdao::WordResult;

fn found() -> WordResult {
    WordResult::found("# fire".to_string(), Some("- /f/".to_string()), None, None)
}

#[test]
fn command_selects_the_front_end() {
    let args = |command| Args { global_opts: GlobalOpts { word: None }, command };
    assert_eq!(args(None).front_end(), Command::Tui);
    assert_eq!(args(Some(Command::Tui)).front_end(), Command::Tui);
    assert_eq!(args(Some(Command::Gui)).front_end(), Command::Gui);
    assert_eq!(args(None).initial_word(), "");
    let with_word = Args { global_opts: GlobalOpts { word: Some("fire".to_string()) }, command: None };
    assert_eq!(with_word.initial_word(), "fire");
}

#[test]
fn store_location() {
    assert_eq!(
        database_url(Some("a.db".to_string()), Some("/home/u".to_string())),
        Some("a.db".to_string())
    );
    assert_eq!(
        database_url(None, Some("/home/u".to_string())),
        Some("/home/u/.config/yd/database.db".to_string())
    );
    assert_eq!(database_url(Some("a.db".to_string()), None), Some("a.db".to_string()));
    assert_eq!(database_url(None, None), None);
    assert_eq!(connection_error_message("a.db"), "Error connecting to a.db");
}

#[test]
fn editor_starts_in_editing_mode() {
    let app = App::new("fire".to_string());
    assert_eq!(app.input(), "fire");
    assert_eq!(app.character_index(), 0);
    assert_eq!(app.input_mode(), InputMode::Editing);
    assert!(app.word_result().is_none());
}

#[test]
fn editor_enters_and_deletes_at_the_cursor() {
    let mut app = App::new(String::new());
    for c in "f\u{4e2d}re".chars() {
        assert_eq!(app.on_key(Key::Char(c), true), Step::Continue);
    }
    assert_eq!(app.input(), "f\u{4e2d}re");
    assert_eq!(app.character_index(), 4);
    app.move_cursor_right();
    assert_eq!(app.character_index(), 4);
    app.move_cursor_left();
    app.move_cursor_left();
    assert_eq!(app.character_index(), 2);
    app.enter_char('i');
    assert_eq!(app.input(), "f\u{4e2d}ire");
    assert_eq!(app.character_index(), 3);
    app.move_cursor_left();
    app.delete_char();
    assert_eq!(app.input(), "fire");
    assert_eq!(app.character_index(), 1);
    app.move_cursor_left();
    app.move_cursor_left();
    assert_eq!(app.character_index(), 0);
    app.delete_char();
    assert_eq!(app.input(), "fire");
    assert_eq!(app.character_index(), 0);
    assert_eq!(app.clamp_cursor(2), 2);
    assert_eq!(app.clamp_cursor(9), 4);
    app.on_key(Key::Right, true);
    app.on_key(Key::Right, true);
    app.on_key(Key::Backspace, true);
    assert_eq!(app.input(), "fre");
    assert_eq!(app.character_index(), 1);
    app.on_key(Key::Left, true);
    assert_eq!(app.character_index(), 0);
    app.on_key(Key::Right, false);
    assert_eq!(app.character_index(), 0);
    app.reset_cursor();
    assert_eq!(app.character_index(), 0);
}

#[test]
fn editor_modes_and_steps() {
    let mut app = App::new("fire".to_string());
    assert_eq!(app.on_key(Key::Enter, false), Step::Continue);
    assert_eq!(app.on_key(Key::Enter, true), Step::Submit);
    assert_eq!(app.input(), "fire");
    assert_eq!(app.on_key(Key::Other, true), Step::Continue);
    assert_eq!(app.on_key(Key::Esc, false), Step::Continue);
    assert_eq!(app.input_mode(), InputMode::Editing);
    assert_eq!(app.on_key(Key::Esc, true), Step::Continue);
    assert_eq!(app.input_mode(), InputMode::Normal);
    assert_eq!(app.on_key(Key::Char('x'), true), Step::Continue);
    assert_eq!(app.input(), "fire");
    assert_eq!(app.on_key(Key::Char('q'), true), Step::Quit);
    assert_eq!(app.on_key(Key::Char('q'), false), Step::Quit);
    assert_eq!(app.on_key(Key::Esc, true), Step::Quit);
    assert_eq!(app.on_key(Key::Enter, true), Step::Continue);
    assert_eq!(app.on_key(Key::Char('e'), true), Step::Continue);
    assert_eq!(app.input_mode(), InputMode::Editing);
    assert_eq!(app.on_key(Key::Char('q'), true), Step::Continue);
    assert_eq!(app.input(), "qfire");
}

#[test]
fn editor_shows_a_result_and_clears_the_line() {
    let mut app = App::new("fire".to_string());
    app.move_cursor_right();
    app.show_result(found());
    assert_eq!(app.input(), "");
    assert_eq!(app.character_index(), 0);
    assert_eq!(app.input_mode(), InputMode::Editing);
    assert_eq!(app.word_result(), Some(&found()));
}

#[test]
fn tab_selection() {
    assert_eq!(TabId::default(), TabId::Home);
    let mut active = TabId::default();
    assert_eq!(select_tab(&mut active, TabId::History), Some(HistoryMessage::LoadHistory));
    assert_eq!(active, TabId::History);
    assert_eq!(select_tab(&mut active, TabId::Settings), None);
    assert_eq!(active, TabId::Settings);
    assert_eq!(select_tab(&mut active, TabId::Home), None);
    assert_eq!(active, TabId::Home);
}

#[test]
fn home_tab_searches_its_input_once() {
    let (mut tab, first) = HomeTab::new(Some("fire".to_string()));
    assert_eq!(first, HomeMessage::SearchWord);
    assert_eq!(tab.title(), "Home");
    assert_eq!(tab.input_value(), "fire");
    assert_eq!(tab.update(first), HomeAction::Search("fire".to_string()));
    assert_eq!(tab.input_value(), "");
    assert_eq!(tab.update(HomeMessage::SearchWord), HomeAction::Idle);
    assert_eq!(tab.update(HomeMessage::InputChange("wire".to_string())), HomeAction::Idle);
    assert_eq!(tab.input_value(), "wire");

    let (mut empty, first) = HomeTab::new(None);
    assert_eq!(empty.update(first), HomeAction::Idle);
    assert_eq!(empty.word_result_content(), "");
    assert!(empty.word_result().is_none());
}

#[test]
fn home_tab_records_found_words_only() {
    let (mut tab, first) = HomeTab::new(Some("fire".to_string()));
    tab.update(first);
    let action = tab.update(HomeMessage::ResultFetched(Some(found())));
    assert_eq!(action, HomeAction::Show(Some("fire".to_string())));
    assert_eq!(tab.word_result(), Some(&found()));
    assert_eq!(tab.word_result_content(), "# fire:\n\n- /f/\n\n\n\n\n");

    tab.update(HomeMessage::InputChange("fier".to_string()));
    assert_eq!(tab.update(HomeMessage::SearchWord), HomeAction::Search("fier".to_string()));
    let missing = WordResult::missing("fier", Some("fire".to_string()));
    let action = tab.update(HomeMessage::ResultFetched(Some(missing.clone())));
    assert_eq!(action, HomeAction::Show(None));
    assert_eq!(tab.word_result(), Some(&missing));
    assert_eq!(tab.word_result_content(), "# fier::\n\nfire\n");

    let action = tab.update(HomeMessage::ResultFetched(None));
    assert_eq!(action, HomeAction::Show(None));
    assert!(tab.word_result().is_none());
    assert_eq!(tab.word_result_content(), "");
}

#[test]
fn home_tab_prints_clicked_links() {
    let (mut tab, _) = HomeTab::new(None);
    assert_eq!(
        tab.update(HomeMessage::LinkClicked("https://a.example/".to_string())),
        HomeAction::Print("The following url was clicked: https://a.example/".to_string())
    );
}

#[test]
fn history_tab_shows_rows() {
    let mut tab = HistoryTab::new();
    assert_eq!(tab.title(), "History");
    assert!(tab.rows().is_empty());
    assert_eq!(tab.update(HistoryMessage::LoadHistory), HistoryAction::Load);
    assert!(tab.history().is_empty());
    let at = chrono::NaiveDate::from_ymd_opt(2024, 1, 2).unwrap().and_hms_opt(3, 4, 5).unwrap();
    tab.loaded(vec![
        History { id: 12, word: "fire".to_string(), created_at: at },
        History { id: -3, word: "wire".to_string(), created_at: at },
    ]);
    let rows = tab.rows();
    assert_eq!(rows.len(), 2);
    assert_eq!(rows[0].id, "12");
    assert_eq!(rows[0].word, "fire");
    assert_eq!(rows[0].created_at, "2024-01-02 03:04:05");
    assert_eq!(rows[1].id, "-3");
    assert_eq!(rows[1].word, "wire");
    assert_eq!(tab.history()[1].id, -3);
}

#[test]
fn history_row_opens_its_word_in_the_home_tab() {
    let (tab, messages) = open_entry("fire");
    assert_eq!(tab, TabId::Home);
    assert_eq!(
        messages,
        vec![HomeMessage::InputChange("fire".to_string()), HomeMessage::SearchWord]
    );
}

#[test]
fn addresses_carry_the_word_in_the_query() {
    assert_eq!(
        result_url("fire"),
        Some("https://dict.youdao.com/result?lang=en&word=fire".to_string())
    );
    assert_eq!(
        result_url("ice cream"),
        Some("https://dict.youdao.com/result?lang=en&word=ice+cream".to_string())
    );
    assert_eq!(
        result_url("\u{706b}&#"),
        Some("https://dict.youdao.com/result?lang=en&word=%E7%81%AB%26%23".to_string())
    );
    assert_eq!(
        result_url(""),
        Some("https://dict.youdao.com/result?lang=en&word=".to_string())
    );
    assert_eq!(
        suggest_url("fi"),
        Some(
            "https://dict.youdao.com/suggest?num=5&ver=3.0&doctype=json&cache=false&le=en&q=fi"
                .to_string()
        )
    );
}
