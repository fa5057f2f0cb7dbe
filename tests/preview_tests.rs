use rfd::preview::{preview_arguments, should_preview_with_bat, BinaryExtensions, Preview};
use rfd::results::Results;

fn binaries() -> BinaryExtensions {
    BinaryExtensions::from_json("[\"png\", \"exe\", \"zip\"]")
}

#[test]
fn scroll_steps_saturate() {
    let mut p = Preview::new();
    p.scroll_up();
    p.scroll_left();
    assert_eq!((p.vertical_scroll, p.horizontal_scroll), (0, 0));
    p.scroll_down();
    p.scroll_down();
    p.scroll_right();
    assert_eq!((p.vertical_scroll, p.horizontal_scroll), (4, 3));
    p.scroll_up();
    assert_eq!(p.vertical_scroll, 2);
    p.reset_scroll_position();
    assert_eq!((p.vertical_scroll, p.horizontal_scroll), (0, 0));
    p.set_height(7);
    assert_eq!(p.height, 7);
}

#[test]
fn selection_change_resets_scroll() {
    let mut results = Results::new();
    results.matcher.push("a.txt".to_string());
    for _ in 0..2000 {
        results.matcher.tick();
        if results.matcher.get_matched_items_count() == 1 {
            break;
        }
    }
    let mut p = Preview::new();
    p.scroll_down();
    p.scroll_right();
    assert_eq!(p.get_preview_path(&results), "a.txt");
    assert_eq!((p.vertical_scroll, p.horizontal_scroll), (0, 0));
    p.scroll_down();
    assert_eq!(p.get_preview_path(&results), "a.txt");
    assert_eq!(p.vertical_scroll, 2);
}

#[test]
fn title_is_truncated_between_spaces() {
    let mut p = Preview::new();
    p.prev_path = "abcdefghijklmnopqrstuvwxyz".to_string();
    assert_eq!(p.truncate_title(15), " abc...xyz ");
    p.prev_path = "short".to_string();
    assert_eq!(p.truncate_title(40), " short ");
}

#[test]
fn binary_extensions_are_not_previewed() {
    let b = binaries();
    assert!(!should_preview_with_bat("img/logo.PNG", &b));
    assert!(should_preview_with_bat("src/main.rs", &b));
    assert!(should_preview_with_bat("Makefile", &b));
    assert!(should_preview_with_bat(".png", &b));
    let none = BinaryExtensions::from_json("not json");
    assert!(should_preview_with_bat("a.png", &none));
}

#[test]
fn renderer_arguments() {
    let b = binaries();
    let args = preview_arguments("src/lib.rs", 4, 20, &b).unwrap();
    assert_eq!(args, vec!["-n", "--color=always", "--line-range=5:24", "src/lib.rs"]);
    let err = preview_arguments("a.zip", 0, 10, &b).unwrap_err();
    assert_eq!(err, "Binary file not available for preview");
}
