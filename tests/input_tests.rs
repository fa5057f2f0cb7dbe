use rfd::input::Input;

fn input_with(text: &str, cursor: usize) -> Input {
    let mut input = Input::new();
    input.text = text.to_string();
    input.char_index = cursor;
    input
}

#[test]
fn typing_inserts_at_cursor_and_advances() {
    let mut input = Input::new();
    input.update_input('a');
    input.update_input('c');
    input.move_cursor_left();
    input.update_input('b');
    assert_eq!(input.text, "abc");
    assert_eq!(input.char_index, 2);
}

#[test]
fn cursor_stays_within_text() {
    let mut input = input_with("héllo", 5);
    input.move_cursor_right();
    assert_eq!(input.char_index, 5);
    for _ in 0..10 {
        input.move_cursor_left();
    }
    assert_eq!(input.char_index, 0);
    let mut past = input_with("ab", 7);
    past.move_cursor_left();
    assert_eq!(past.char_index, 2);
}

#[test]
fn byte_index_counts_utf8_bytes() {
    let input = input_with("héllo", 2);
    assert_eq!(input.byte_index(), 3);
    let end = input_with("héllo", 9);
    assert_eq!(end.byte_index(), 6);
}

#[test]
fn insert_after_multibyte_char() {
    let mut input = input_with("héllo", 2);
    input.update_input('X');
    assert_eq!(input.text, "héXllo");
    assert_eq!(input.char_index, 3);
}

#[test]
fn delete_removes_char_before_cursor() {
    let mut input = input_with("héllo", 2);
    input.delete_char();
    assert_eq!(input.text, "hllo");
    assert_eq!(input.char_index, 1);
    let mut start = input_with("abc", 0);
    start.delete_char();
    assert_eq!(start.text, "abc");
    assert_eq!(start.char_index, 0);
}

#[test]
fn clear_input_clears_error_too() {
    let mut input = input_with("abc", 3);
    input.set_error("bad".to_string());
    assert_eq!(input.error_message, "bad");
    input.clear_input();
    assert_eq!(input.text, "");
    assert_eq!(input.char_index, 0);
    assert_eq!(input.error_message, "");
}

#[test]
fn clear_error_keeps_text() {
    let mut input = input_with("abc", 1);
    input.set_error("bad".to_string());
    input.clear_error();
    assert_eq!(input.error_message, "");
    assert_eq!(input.text, "abc");
    assert_eq!(input.clamp_cursor(10), 3);
}

#[test]
fn display_uses_placeholder_when_empty() {
    let empty = Input::new();
    assert_eq!(empty.display_text(), (" pattern [flags] • /help".to_string(), true));
    let typed = input_with("abc", 2);
    assert_eq!(typed.display_text(), ("abc".to_string(), false));
    assert_eq!(typed.cursor_column(10), 14);
    assert_eq!(typed.cursor_column(u16::MAX - 1), u16::MAX);
}
