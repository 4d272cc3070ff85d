use stockwatch::app::{Actions, App, AppEvent, Key, Mouse, SendOutcome};
use stockwatch::model::Stock;

fn app_with(codes: &[&str]) -> App {
    let mut app = App::new();
    for c in codes {
        assert!(app.add_stock(c));
    }
    app
}

fn fetched(code: &str, price: i128) -> Stock {
    let mut q = Stock::new(code);
    q.title = format!("{} title", code);
    q.price = price;
    q.percent = 2_500;
    q
}

#[test]
fn merge_preserves_user_code() {
    let mut app = app_with(&["x105.NVDA"]);
    let q = fetched("NVDA", 123_000);
    app.apply_event(AppEvent::StocksFetched(vec![q]));
    assert_eq!(app.stocks.len(), 1);
    assert_eq!(app.stocks[0].code, "x105.NVDA".to_string());
    assert_eq!(app.stocks[0].title, "NVDA title".to_string());
    assert_eq!(app.stocks[0].price, 123_000);
    assert_eq!(app.stocks[0].percent, 2_500);
}

#[test]
fn merge_leaves_unmatched_entries_alone() {
    let mut app = app_with(&["600519", "NVDA"]);
    let q = fetched("600519", 1_700_000);
    app.apply_event(AppEvent::StocksFetched(vec![q]));
    assert_eq!(app.stocks[0].price, 1_700_000);
    // the NVDA entry keeps its zero-valued placeholder quote
    assert_eq!(app.stocks[1].code, "NVDA".to_string());
    assert_eq!(app.stocks[1].price, 0);
    assert_eq!(app.stocks[1].title, "NVDA".to_string());
}

#[test]
fn merge_matches_case_insensitively_and_across_spellings() {
    let mut app = app_with(&["x1.600519", "nvda"]);
    app.apply_event(AppEvent::StocksFetched(vec![
        fetched("600519", 1_000),
        fetched("NVDA", 2_000),
    ]));
    assert_eq!(app.stocks[0].code, "x1.600519".to_string());
    assert_eq!(app.stocks[0].price, 1_000);
    assert_eq!(app.stocks[1].code, "nvda".to_string());
    assert_eq!(app.stocks[1].price, 2_000);
}

#[test]
fn fetch_error_event_is_displayed() {
    let mut app = app_with(&["NVDA"]);
    app.apply_event(AppEvent::FetchError("connection refused".to_string()));
    assert_eq!(app.error, "connection refused".to_string());
    // the next successful fetch clears it
    app.apply_event(AppEvent::StocksFetched(vec![]));
    assert_eq!(app.error, String::new());
}

#[test]
fn add_duplicate_normalized_code_is_rejected() {
    let mut app = app_with(&["600519"]);
    // same match key through a manual-mode spelling
    assert!(!app.add_stock("x1.600519"));
    assert_eq!(app.stocks.len(), 1);
    assert_eq!(app.stocks[0].code, "600519".to_string());
    assert_eq!(
        app.error,
        "security code already exists: x1.600519".to_string()
    );
}

#[test]
fn add_case_variant_is_rejected() {
    let mut app = app_with(&["NVDA"]);
    assert!(!app.add_stock("nvda"));
    assert_eq!(app.stocks.len(), 1);
}

#[test]
fn refresh_codes_is_none_on_empty_list() {
    let app = App::new();
    assert!(app.refresh_codes().is_none());
    let app2 = app_with(&["NVDA", "600519"]);
    assert_eq!(
        app2.refresh_codes().unwrap(),
        vec!["NVDA".to_string(), "600519".to_string()]
    );
}

#[test]
fn coalesced_send_changes_nothing_and_disconnect_is_reported() {
    let mut app = app_with(&["NVDA"]);
    app.note_send_outcome(SendOutcome::Sent);
    assert_eq!(app.error, String::new());
    app.note_send_outcome(SendOutcome::Full);
    assert_eq!(app.error, String::new());
    app.note_send_outcome(SendOutcome::Disconnected);
    assert_eq!(app.error, "refresh worker disconnected".to_string());
}

#[test]
fn periodic_refresh_every_sixty_ticks_in_normal_state() {
    let mut app = app_with(&["NVDA"]);
    let mut due = 0;
    for _ in 0..120 {
        if app.on_tick() {
            due += 1;
        }
    }
    assert_eq!(due, 2);
    assert_eq!(app.tick_count, 120);
}

#[test]
fn periodic_refresh_suppressed_while_adding() {
    let mut app = app_with(&["NVDA"]);
    app.on_key(Key::Char('n'));
    for _ in 0..60 {
        assert!(!app.on_tick());
    }
}

#[test]
fn load_result_replaces_list_with_placeholders() {
    let mut app = App::new();
    app.on_load_result(Ok(vec!["600519".to_string(), "NVDA".to_string()]));
    assert_eq!(app.stocks.len(), 2);
    assert_eq!(app.stocks[0].code, "600519".to_string());
    assert_eq!(app.stocks[1].code, "NVDA".to_string());
    assert_eq!(app.stocks[1].price, 0);
}

#[test]
fn failed_load_reports_error_and_keeps_list() {
    let mut app = App::new();
    app.on_load_result(Ok(vec!["600519".to_string()]));
    app.on_load_result(Err("invalid storage data".to_string()));
    assert_eq!(app.error, "invalid storage data".to_string());
    assert_eq!(app.stocks.len(), 1);
    assert_eq!(app.stocks[0].code, "600519".to_string());
}

#[test]
fn quit_key_sets_exit_flag() {
    let mut app = app_with(&["NVDA"]);
    let act = app.on_key(Key::Char('q'));
    assert!(app.should_exit);
    assert_eq!(act, Actions { save: false, refresh: false });
}

#[test]
fn manual_refresh_key_requests_refresh() {
    let mut app = app_with(&["NVDA"]);
    let act = app.on_key(Key::Char('r'));
    assert_eq!(act, Actions { save: false, refresh: true });
}

#[test]
fn typing_a_code_and_submitting_adds_it() {
    let mut app = App::new();
    app.on_key(Key::Char('n'));
    for c in [' ', 'R', 'R', '.', ' '] {
        app.on_key(Key::Char(c));
    }
    let act = app.on_key(Key::Enter);
    // the input is trimmed before it becomes an entry
    assert_eq!(app.stocks.len(), 1);
    assert_eq!(app.stocks[0].code, "RR.".to_string());
    assert_eq!(act, Actions { save: true, refresh: true });
}

#[test]
fn submitting_empty_input_is_an_error() {
    let mut app = App::new();
    app.on_key(Key::Char('n'));
    app.on_key(Key::Char(' '));
    let act = app.on_key(Key::Enter);
    assert_eq!(app.stocks.len(), 0);
    assert_eq!(app.error, "security code required".to_string());
    assert_eq!(act, Actions { save: false, refresh: false });
}

#[test]
fn backspace_edits_the_input_and_esc_cancels() {
    let mut app = App::new();
    app.on_key(Key::Char('n'));
    app.on_key(Key::Char('A'));
    app.on_key(Key::Char('B'));
    app.on_key(Key::Backspace);
    assert_eq!(app.input, "A".to_string());
    app.on_key(Key::Esc);
    // back to browsing; enter now does not submit anything
    let act = app.on_key(Key::Enter);
    assert_eq!(app.stocks.len(), 0);
    assert_eq!(act, Actions { save: false, refresh: false });
}

#[test]
fn delete_key_removes_selected_entry_and_asks_for_save() {
    let mut app = app_with(&["A", "B", "C"]);
    app.on_key(Key::Down);
    assert_eq!(app.selected, Some(1));
    let act = app.on_key(Key::Char('d'));
    assert_eq!(act, Actions { save: true, refresh: false });
    assert_eq!(app.selected, None);
    let codes: Vec<String> = app.stocks.iter().map(|s| s.code.clone()).collect();
    assert_eq!(codes, vec!["A".to_string(), "C".to_string()]);
}

#[test]
fn reorder_keys_swap_neighbours() {
    let mut app = app_with(&["A", "B", "C"]);
    app.on_key(Key::Down);
    assert_eq!(app.selected, Some(1));
    app.on_key(Key::Char('u'));
    let codes: Vec<String> = app.stocks.iter().map(|s| s.code.clone()).collect();
    assert_eq!(codes, vec!["B".to_string(), "A".to_string(), "C".to_string()]);
    assert_eq!(app.selected, Some(0));
    app.on_key(Key::Char('j'));
    let codes2: Vec<String> = app.stocks.iter().map(|s| s.code.clone()).collect();
    assert_eq!(codes2, vec!["A".to_string(), "B".to_string(), "C".to_string()]);
    assert_eq!(app.selected, Some(1));
}

#[test]
fn selection_movement_clamps_at_the_ends() {
    let mut app = app_with(&["A", "B"]);
    app.on_key(Key::Up);
    assert_eq!(app.selected, Some(0));
    app.on_key(Key::Up);
    assert_eq!(app.selected, Some(0));
    app.on_key(Key::Down);
    assert_eq!(app.selected, Some(1));
    app.on_key(Key::Down);
    assert_eq!(app.selected, Some(1));
}

#[test]
fn mouse_click_selects_a_list_row() {
    let mut app = app_with(&["A", "B"]);
    // rows start two lines below the top of the screen
    app.on_mouse(Mouse::Click(2));
    assert_eq!(app.selected, Some(0));
    app.on_mouse(Mouse::ScrollDown);
    assert_eq!(app.selected, Some(1));
    app.on_mouse(Mouse::ScrollUp);
    assert_eq!(app.selected, Some(0));
    // a click outside the list changes nothing
    app.on_mouse(Mouse::Click(9));
    assert_eq!(app.selected, Some(0));
}
