use terminal_google_search::actions::{Action, Effect};
use terminal_google_search::cache::Cache;
use terminal_google_search::history::History;
use terminal_google_search::record::QueryResult;
use terminal_google_search::session::{App, DisplayMode, InputMode, SubmitStep};

fn rec(url: &str, description: &str) -> QueryResult {
    QueryResult {
        url: url.to_string(),
        description: description.to_string(),
        url_supported_flag: true,
    }
}

fn fresh() -> App {
    App::new(History::new(Vec::new()), Cache::new())
}

fn type_text(app: &mut App, s: &str) {
    for c in s.chars() {
        app.begin_edit_action();
        app.insert_char(c);
        app.end_history_browsing();
    }
}

fn queries(app: &App) -> Vec<String> {
    app.history.get_queries().to_vec()
}

const NOW: u64 = 1_700_000_000;

fn submit_with_provider(
    app: &mut App,
    provider: &mut dyn FnMut(&str) -> Result<Vec<QueryResult>, String>,
    calls: &mut usize,
) {
    if app.input_mode == InputMode::Normal {
        app.handle_action(Action::Edit, NOW);
    }
    match app.handle_action(Action::Submit, NOW) {
        Effect::Search(SubmitStep::Skipped) => {}
        Effect::Search(SubmitStep::Cached(results)) => app.complete_cached(results),
        Effect::Search(SubmitStep::Fetch(args)) => {
            *calls += 1;
            let outcome = provider(&args.query);
            app.complete_fetch(args.query, outcome, NOW);
        }
        _ => panic!("submit must start a search"),
    }
}

#[test]
fn new_session_starts_at_home_editing() {
    let app = fresh();
    assert_eq!(app.display_mode, DisplayMode::Home);
    assert_eq!(app.input_mode, InputMode::Editing);
    assert_eq!(app.input, "");
    assert_eq!(app.cursor_idx, 0);
    assert!(app.messages.is_empty());
    assert!(!app.cache_hit);
    assert!(app.enable_cache_hit_notification);
    assert_eq!(app.spinner_frames, vec!['|', '/', '-', '\\']);
}

#[test]
fn end_to_end_fresh_submit_fetches_and_caches() {
    let mut app = fresh();
    type_text(&mut app, "rust async");
    let mut calls = 0usize;
    let mut provider = |_q: &str| Ok(vec![rec("https://a", "A"), rec("https://b", "B")]);
    submit_with_provider(&mut app, &mut provider, &mut calls);
    assert_eq!(calls, 1);
    assert_eq!(app.display_mode, DisplayMode::Ready);
    assert!(!app.cache_hit);
    assert!(!app.is_loading);
    assert_eq!(app.messages.len(), 2);
    assert_eq!(queries(&app), vec!["rust async".to_string()]);
    assert_eq!(app.cache.len(), 1);
    assert_eq!(app.cache.entries()[0].query, "rust async");
    assert_eq!(app.input_mode, InputMode::Normal);
    assert!(app.has_entered);
}

#[test]
fn end_to_end_repeat_submit_hits_cache() {
    let mut app = fresh();
    type_text(&mut app, "rust async");
    let mut calls = 0usize;
    let mut provider = |_q: &str| Ok(vec![rec("https://a", "A"), rec("https://b", "B")]);
    submit_with_provider(&mut app, &mut provider, &mut calls);
    submit_with_provider(&mut app, &mut provider, &mut calls);
    assert_eq!(calls, 1);
    assert!(app.cache_hit);
    assert_eq!(app.display_mode, DisplayMode::Ready);
    let urls: Vec<String> = app.messages.iter().map(|m| m.url.clone()).collect();
    assert_eq!(urls, vec!["https://a".to_string(), "https://b".to_string()]);
    assert_eq!(queries(&app), vec!["rust async".to_string()]);
    assert!(app.error_message.is_none());
}

#[test]
fn end_to_end_provider_failure_sets_error() {
    let mut app = fresh();
    type_text(&mut app, "rust async");
    let mut calls = 0usize;
    let mut provider = |_q: &str| Err("HTTP Error: 429".to_string());
    submit_with_provider(&mut app, &mut provider, &mut calls);
    assert_eq!(app.display_mode, DisplayMode::Ready);
    assert!(app.messages.is_empty());
    assert_eq!(app.error_message, Some("HTTP Error: 429".to_string()));
    assert_eq!(app.cache.len(), 0);
    assert!(!app.shows_no_match());
}

#[test]
fn empty_submit_is_a_noop() {
    let mut app = fresh();
    let step = app.submit(NOW);
    assert!(matches!(step, SubmitStep::Skipped));
    assert_eq!(app.display_mode, DisplayMode::Home);
    assert!(app.history.get_queries().is_empty());
    assert_eq!(app.cache.len(), 0);
}

#[test]
fn whitespace_submit_is_a_noop() {
    let mut app = fresh();
    type_text(&mut app, " \t  ");
    let step = app.submit(NOW);
    assert!(matches!(step, SubmitStep::Skipped));
    assert_eq!(app.display_mode, DisplayMode::Home);
    assert!(app.history.get_queries().is_empty());
    assert_eq!(app.cache.len(), 0);
    assert!(!app.is_loading);
}

#[test]
fn submit_normalizes_query() {
    let mut app = fresh();
    type_text(&mut app, "  Rust ASYNC ");
    match app.submit(NOW) {
        SubmitStep::Fetch(args) => {
            assert_eq!(args.query, "rust async");
            assert!(!args.debug_mode);
        }
        _ => panic!("expected a fetch"),
    }
    assert_eq!(app.display_mode, DisplayMode::Searching);
    assert!(app.is_loading);
    assert_eq!(queries(&app), vec!["rust async".to_string()]);
}

#[test]
fn submit_passes_debug_flag() {
    let mut app = fresh();
    app.toggle_debug_mode();
    type_text(&mut app, "x");
    match app.submit(NOW) {
        SubmitStep::Fetch(args) => assert!(args.debug_mode),
        _ => panic!("expected a fetch"),
    }
}

#[test]
fn no_match_notice_after_empty_result() {
    let mut app = fresh();
    type_text(&mut app, "nothing");
    let mut calls = 0usize;
    let mut provider = |_q: &str| Ok(Vec::new());
    submit_with_provider(&mut app, &mut provider, &mut calls);
    assert!(app.shows_no_match());
    assert!(app.error_message.is_none());
}

#[test]
fn cache_notice_follows_toggle() {
    let mut app = fresh();
    app.cache_hit = true;
    assert!(app.shows_cache_notice());
    app.toggle_cache_notification();
    assert!(!app.shows_cache_notice());
}

#[test]
fn selection_wraparound() {
    let mut app = fresh();
    app.messages = vec![rec("u0", "d"), rec("u1", "d"), rec("u2", "d")];
    app.results_selected = Some(2);
    app.selected_idx = 2;
    app.next_result();
    assert_eq!(app.selected_idx, 0);
    assert_eq!(app.results_selected, Some(0));
    app.previous_result();
    assert_eq!(app.selected_idx, 2);
    assert_eq!(app.results_selected, Some(2));
}

#[test]
fn selection_starts_at_first_row_and_ignores_empty() {
    let mut app = fresh();
    app.next_result();
    assert_eq!(app.results_selected, None);
    app.messages = vec![rec("u0", "d"), rec("u1", "d")];
    app.next_result();
    assert_eq!(app.results_selected, Some(0));
    app.next_result();
    assert_eq!(app.selected_idx, 1);
}

#[test]
fn editing_inserts_and_deletes_at_cursor() {
    let mut app = fresh();
    type_text(&mut app, "ac");
    app.move_cursor_left();
    app.insert_char('b');
    assert_eq!(app.input, "abc");
    assert_eq!(app.cursor_idx, 2);
    app.delete_char();
    assert_eq!(app.input, "ac");
    assert_eq!(app.cursor_idx, 1);
    app.move_cursor_right();
    app.move_cursor_right();
    assert_eq!(app.cursor_idx, 2);
    app.move_cursor_left();
    app.move_cursor_left();
    app.move_cursor_left();
    assert_eq!(app.cursor_idx, 0);
    app.delete_char();
    assert_eq!(app.input, "ac");
}

#[test]
fn editing_is_grapheme_aware() {
    let mut app = fresh();
    type_text(&mut app, "e\u{301}x");
    assert_eq!(app.cursor_idx, 2);
    app.move_cursor_left();
    app.delete_char();
    assert_eq!(app.input, "x");
    assert_eq!(app.cursor_idx, 0);
}

#[test]
fn edit_clears_cache_badge_and_previous_answer() {
    let mut app = fresh();
    app.cache_hit = true;
    app.messages = vec![rec("u", "d")];
    app.error_message = Some("old".to_string());
    app.has_entered = true;
    app.begin_edit_action();
    app.insert_char('x');
    assert!(!app.cache_hit);
    assert!(app.messages.is_empty());
    assert!(app.error_message.is_none());
    assert!(!app.has_entered);
    app.cache_hit = true;
    app.delete_char();
    assert!(!app.cache_hit);
}

#[test]
fn history_recall_fills_input() {
    let history = History::new(vec!["x".to_string(), "yy".to_string(), "zzz".to_string()]);
    let mut app = App::new(history, Cache::new());
    app.previous_history();
    app.set_input_to_history();
    assert_eq!(app.input, "zzz");
    assert_eq!(app.cursor_idx, 3);
    assert_eq!(app.history_selected, Some(2));
    app.next_history();
    app.set_input_to_history();
    assert_eq!(app.input, "x");
    assert_eq!(app.cursor_idx, 1);
}

#[test]
fn clear_resets_input_and_mode() {
    let mut app = fresh();
    type_text(&mut app, "abc");
    app.exit_input_mode();
    app.cache_hit = true;
    app.has_entered = true;
    app.display_mode = DisplayMode::Ready;
    app.clear_input();
    assert_eq!(app.input, "");
    assert_eq!(app.cursor_idx, 0);
    assert!(!app.cache_hit);
    assert!(!app.has_entered);
    assert_eq!(app.display_mode, DisplayMode::Home);
    assert_eq!(app.input_mode, InputMode::Editing);
}

#[test]
fn escape_and_start_editing() {
    let mut app = fresh();
    app.history.show_history_popup = true;
    app.exit_input_mode();
    assert_eq!(app.input_mode, InputMode::Normal);
    assert!(!app.history.show_history_popup);
    app.display_mode = DisplayMode::Ready;
    app.start_editing();
    assert_eq!(app.input_mode, InputMode::Editing);
    assert_eq!(app.display_mode, DisplayMode::Home);
    app.quit();
    assert!(app.should_quit);
}

#[test]
fn open_failure_is_recorded() {
    let mut app = fresh();
    assert!(app.url_to_open().is_none());
    app.messages = vec![rec("https://a", "A")];
    assert_eq!(app.url_to_open(), Some(&"https://a".to_string()));
    app.report_open_failure("no viewer");
    assert_eq!(app.error_message, Some("Error opening URL: no viewer".to_string()));
}

#[test]
fn spinner_cycles_only_while_loading() {
    let mut app = fresh();
    app.advance_spinner();
    assert_eq!(app.spinner_index, 0);
    app.is_loading = true;
    for expected in [1usize, 2, 3, 0] {
        app.advance_spinner();
        assert_eq!(app.spinner_index, expected);
    }
}

#[test]
fn toggles_flip_flags() {
    let mut app = fresh();
    app.toggle_debug_mode();
    assert!(app.debug_mode);
    app.toggle_debug_mode();
    assert!(!app.debug_mode);
    app.toggle_cache_notification();
    assert!(!app.enable_cache_hit_notification);
}

#[test]
fn previous_result_clamps_stale_selection() {
    let mut app = fresh();
    app.messages = vec![rec("u0", "d"), rec("u1", "d"), rec("u2", "d")];
    app.results_selected = Some(9);
    app.selected_idx = 9;
    app.previous_result();
    assert_eq!(app.selected_idx, 2);
    assert_eq!(app.results_selected, Some(2));
    app.results_selected = Some(9);
    app.next_result();
    assert_eq!(app.selected_idx, 0);
}

#[test]
fn normal_mode_ignores_editing_actions() {
    let mut app = fresh();
    type_text(&mut app, "ab");
    app.handle_action(Action::Escape, NOW);
    assert_eq!(app.input_mode, InputMode::Normal);
    assert!(matches!(app.handle_action(Action::InsertChar('x'), NOW), Effect::Nothing));
    assert!(matches!(app.handle_action(Action::Submit, NOW), Effect::Nothing));
    assert_eq!(app.input, "ab");
    assert_eq!(app.display_mode, DisplayMode::Home);
    app.handle_action(Action::Quit, NOW);
    assert!(app.should_quit);
}

#[test]
fn editing_action_discards_previous_answer() {
    let mut app = fresh();
    app.messages = vec![rec("u", "d")];
    app.error_message = Some("old".to_string());
    app.has_entered = true;
    app.history.index = 0;
    app.handle_action(Action::CursorLeft, NOW);
    assert!(app.messages.is_empty());
    assert!(app.error_message.is_none());
    assert!(!app.has_entered);
    app.messages = vec![rec("u", "d")];
    app.handle_action(Action::Other, NOW);
    assert!(app.messages.is_empty());
}

#[test]
fn history_actions_recall_entries() {
    let history = History::new(vec!["x ".to_string(), "y".to_string(), "z".to_string()]);
    let mut app = App::new(history, Cache::new());
    app.handle_action(Action::HistoryNext, NOW);
    assert_eq!(app.input, "");
    app.handle_action(Action::HistoryPrevious, NOW);
    assert_eq!(app.input, "z");
    assert!(app.history.show_history_popup);
    app.handle_action(Action::HistoryNext, NOW);
    assert_eq!(app.input, "x");
    assert_eq!(app.cursor_idx, 1);
    app.handle_action(Action::InsertChar('!'), NOW);
    assert_eq!(app.input, "x!");
    assert_eq!(app.history.index, 0);
    assert!(!app.history.show_history_popup);
}

#[test]
fn blank_submit_action_returns_to_normal() {
    let mut app = fresh();
    type_text(&mut app, "   ");
    match app.handle_action(Action::Submit, NOW) {
        Effect::Search(SubmitStep::Skipped) => {}
        _ => panic!("blank query must be skipped"),
    }
    assert_eq!(app.input_mode, InputMode::Normal);
    assert!(app.has_entered);
    assert_eq!(app.display_mode, DisplayMode::Home);
    assert!(app.history.get_queries().is_empty());
}

#[test]
fn open_action_hands_out_selected_url() {
    let mut app = fresh();
    app.handle_action(Action::Escape, NOW);
    assert!(matches!(app.handle_action(Action::Open, NOW), Effect::Nothing));
    app.messages = vec![rec("https://a", "A"), rec("https://b", "B")];
    app.handle_action(Action::SelectNext, NOW);
    app.handle_action(Action::SelectNext, NOW);
    match app.handle_action(Action::Open, NOW) {
        Effect::OpenUrl(u) => assert_eq!(u, "https://b"),
        _ => panic!("expected an address"),
    }
}

#[test]
fn normal_mode_toggles_and_clear() {
    let mut app = fresh();
    app.handle_action(Action::Escape, NOW);
    app.handle_action(Action::ToggleDebug, NOW);
    assert!(app.debug_mode);
    app.handle_action(Action::ToggleCacheNotice, NOW);
    assert!(!app.enable_cache_hit_notification);
    app.handle_action(Action::Clear, NOW);
    assert_eq!(app.input_mode, InputMode::Editing);
    app.handle_action(Action::Escape, NOW);
    app.handle_action(Action::Edit, NOW);
    assert_eq!(app.input_mode, InputMode::Editing);
    assert_eq!(app.display_mode, DisplayMode::Home);
}

#[test]
fn spinner_step_touches_nothing_else() {
    let mut app = fresh();
    app.is_loading = true;
    app.debug_mode = true;
    app.history_selected = Some(1);
    app.advance_spinner();
    assert_eq!(app.spinner_index, 1);
    assert!(app.debug_mode);
    assert!(!app.should_quit);
    assert!(app.enable_cache_hit_notification);
    assert_eq!(app.input_mode, InputMode::Editing);
    assert_eq!(app.history_selected, Some(1));
}
