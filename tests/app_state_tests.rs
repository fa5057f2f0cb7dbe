use rfd::action::Action;
use rfd::exit_codes::ExitCode;
use rfd::keypress::{parse_key_event, Config, Event, KeyCode, KeyEvent, KeyMap, KeyModifiers};
use rfd::tui::{App, AppEvent, Effect, EventKind};

fn app() -> App {
    App::new(Config { keymap: KeyMap::new() })
}

fn type_text(a: &mut App, text: &str) {
    for c in text.chars() {
        a.input.update_input(c);
    }
}

#[test]
fn preview_width_is_clamped() {
    let mut a = app();
    for _ in 0..5 {
        a.dispatch(Action::IncreasePreview, 1);
    }
    assert_eq!(a.preview_width, 80);
    for _ in 0..10 {
        a.dispatch(Action::DecreasePreview, 1);
    }
    assert_eq!(a.preview_width, 20);
    assert_eq!(a.pane_percentages(true), (20, 80));
    assert_eq!(a.pane_percentages(false), (100, 0));
}

#[test]
fn quit_closes_help_first() {
    let mut a = app();
    type_text(&mut a, "/help");
    assert!(matches!(a.dispatch(Action::Search, 1), Effect::Continue));
    assert!(a.is_help_screen);
    assert!(matches!(a.dispatch(Action::Quit, 1), Effect::Continue));
    assert!(!a.is_help_screen);
    assert!(matches!(a.dispatch(Action::Quit, 1), Effect::Quit));
}

#[test]
fn search_with_bad_flag_keeps_text() {
    let mut a = app();
    type_text(&mut a, "foo -z");
    assert!(matches!(a.dispatch(Action::Search, 1), Effect::Continue));
    assert_eq!(a.input.text, "foo -z");
    assert_eq!(a.input.error_message, "unexpected argument '-z' found");
    assert_eq!(a.input_height(), 5);
    assert_eq!(a.input_split(), (3, 2));
}

#[test]
fn search_starts_and_clears_input() {
    let mut a = app();
    a.receive(AppEvent::SearchResult("old.txt".to_string()));
    type_text(&mut a, "x\\.txt -t 2");
    match a.dispatch(Action::Search, 4) {
        Effect::StartSearch(job) => {
            assert_eq!(job.args.pattern, "x\\.txt");
            assert_eq!(job.config.threads, 2);
            assert!(job.regex.is_match(b"x.txt"));
        }
        _ => panic!("no search started"),
    }
    assert_eq!(a.input.text, "");
    assert_eq!(a.input_height(), 3);
    assert!(a.results.matcher.is_empty());
}

#[test]
fn blank_search_does_nothing() {
    let mut a = app();
    type_text(&mut a, "   ");
    assert!(matches!(a.dispatch(Action::Search, 1), Effect::Continue));
    assert_eq!(a.input.text, "   ");
}

#[test]
fn events_update_status_and_banner() {
    let mut a = app();
    a.receive(AppEvent::Error("boom".to_string()));
    assert_eq!(a.input.error_message, "boom");
    assert_eq!(a.last_app_event, Some(EventKind::Error));
    a.receive(AppEvent::SearchComplete);
    assert_eq!(a.last_app_event, Some(EventKind::SearchComplete));
    assert!(matches!(a.dispatch(Action::CopyToClipboard, 1), Effect::Continue));
}

#[test]
fn exit_statuses() {
    assert_eq!(ExitCode::Success.status(), 0);
    assert_eq!(ExitCode::GeneralError("x".to_string()).status(), 1);
    assert_eq!(ExitCode::KilledBySigint.status(), 130);
    let code: i32 = ExitCode::KilledBySigint.into();
    assert_eq!(code, 130);
}

#[test]
fn key_events_drive_the_query() {
    let mut keymap = KeyMap::new();
    keymap.insert(parse_key_event("enter").unwrap(), Action::Search);
    keymap.insert(parse_key_event("esc").unwrap(), Action::Quit);
    let mut a = App::new(Config { keymap });
    for c in "abc".chars() {
        let key = KeyEvent::new(KeyCode::Char(c), KeyModifiers::empty());
        assert!(matches!(a.handle_events(Event::Key(key), 1), Effect::Continue));
    }
    assert_eq!(a.input.text, "abc");
    let enter = KeyEvent::new(KeyCode::Enter, KeyModifiers::empty());
    assert!(matches!(a.handle_events(Event::Key(enter), 1), Effect::StartSearch(_)));
    assert_eq!(a.input.text, "");
    let esc = KeyEvent::new(KeyCode::Esc, KeyModifiers::empty());
    assert!(matches!(a.handle_events(Event::Key(esc), 1), Effect::Quit));
}

#[test]
fn filter_returns_to_first_row() {
    let mut a = app();
    for i in 0..20 {
        a.receive(AppEvent::SearchResult(format!("f{}.txt", i)));
    }
    for _ in 0..2000 {
        a.results.matcher.tick();
        if a.results.matcher.get_matched_items_count() == 20 {
            break;
        }
    }
    a.results.set_height(5);
    for _ in 0..9 {
        a.dispatch(Action::SelectNext, 1);
    }
    assert!(a.results.offset > 0);
    type_text(&mut a, "f1");
    assert!(matches!(a.dispatch(Action::Filter, 1), Effect::Continue));
    assert_eq!((a.results.offset, a.results.selected), (0, Some(0)));
    assert_eq!(a.input.text, "f1");
}
