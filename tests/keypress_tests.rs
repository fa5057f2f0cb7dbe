use rfd::action::Action;
use rfd::input::Input;
use rfd::keypress::{
    handle_keypress, handle_keypress_with_config, parse_key_event, Config, Event, KeyCode,
    KeyEvent, KeyEventKind, KeyMap, KeyModifiers,
};

fn ctrl() -> KeyModifiers {
    let mut m = KeyModifiers::empty();
    m.control = true;
    m
}

#[test]
fn chord_parse_ignores_case() {
    let lower = parse_key_event("ctrl+a").unwrap();
    let upper = parse_key_event("CTRL+A").unwrap();
    assert_eq!(lower, upper);
    assert_eq!(lower, KeyEvent::new(KeyCode::Char('a'), ctrl()));
}

#[test]
fn chord_named_keys() {
    assert_eq!(parse_key_event("esc").unwrap().code, KeyCode::Esc);
    assert_eq!(parse_key_event("Escape").unwrap().code, KeyCode::Esc);
    assert_eq!(parse_key_event("return").unwrap().code, KeyCode::Enter);
    assert_eq!(parse_key_event("backspace").unwrap().code, KeyCode::Backspace);
    let shifted = parse_key_event("ctrl+shift+up").unwrap();
    assert_eq!(shifted.code, KeyCode::Up);
    assert!(shifted.modifiers.control && shifted.modifiers.shift);
    assert_eq!(shifted.kind, KeyEventKind::Press);
}

#[test]
fn chord_unknown_key_is_error() {
    let err = parse_key_event("ctrl+home").unwrap_err();
    assert_eq!(err, "Unknown key: home");
    assert!(parse_key_event("ctrl+").is_err());
}

#[test]
fn keymap_lookup_normalizes_case() {
    let mut map = KeyMap::new();
    let mut shift = KeyModifiers::empty();
    shift.shift = true;
    map.insert(KeyEvent::new(KeyCode::Char('k'), shift), Action::SelectPrevious);
    let typed = KeyEvent::new(KeyCode::Char('K'), KeyModifiers::empty());
    assert_eq!(map.get(&typed), Some(Action::SelectPrevious));
    map.insert(KeyEvent::new(KeyCode::Char('K'), KeyModifiers::empty()), Action::Quit);
    assert_eq!(map.get(&typed), Some(Action::Quit));
    assert_eq!(map.get(&KeyEvent::new(KeyCode::Char('j'), KeyModifiers::empty())), None);
}

#[test]
fn bound_key_gives_its_action() {
    let mut keymap = KeyMap::new();
    keymap.insert(parse_key_event("esc").unwrap(), Action::Quit);
    let config = Config { keymap };
    let mut input = Input::new();
    let esc = KeyEvent::new(KeyCode::Esc, KeyModifiers::empty());
    assert_eq!(handle_keypress_with_config(&mut input, Event::Key(esc), &config), Action::Quit);
    let mut release = esc;
    release.kind = KeyEventKind::Release;
    assert_eq!(handle_keypress_with_config(&mut input, Event::Key(release), &config), Action::NoOp);
}

#[test]
fn unbound_char_filters_after_typing() {
    let config = Config { keymap: KeyMap::new() };
    let mut input = Input::new();
    let x = KeyEvent::new(KeyCode::Char('x'), KeyModifiers::empty());
    assert_eq!(handle_keypress_with_config(&mut input, Event::Key(x), &config), Action::Filter);
    assert_eq!(input.text, "x");
    let back = KeyEvent::new(KeyCode::Backspace, KeyModifiers::empty());
    assert_eq!(handle_keypress(&mut input, Event::Key(back)), Action::Filter);
    assert_eq!(input.text, "");
    let tab = KeyEvent::new(KeyCode::Tab, KeyModifiers::empty());
    assert_eq!(handle_keypress(&mut input, Event::Key(tab)), Action::NoOp);
    assert_eq!(handle_keypress(&mut input, Event::Other), Action::NoOp);
}
