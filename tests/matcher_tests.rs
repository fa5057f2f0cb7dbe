use rfd::matcher::{truncate_text, Matcher, Span};

fn highlight_fuzzy_match(text: &str, pattern: &str) -> Vec<Span> {
    Matcher::new().highlight_fuzzy_match(text, pattern)
}

fn spans(v: &[Span]) -> Vec<(String, bool)> {
    v.iter().map(|s| (s.text.clone(), s.highlighted)).collect()
}

fn settle(m: &mut Matcher, expected: u32) {
    for _ in 0..2000 {
        m.tick();
        if m.get_matched_items_count() == expected {
            return;
        }
    }
}

#[test]
fn truncate_keeps_short_text() {
    assert_eq!(truncate_text("abc".to_string(), 10), "abc");
}

#[test]
fn truncate_cuts_middle() {
    let t = "abcdefghijklmnopqrstuvwxyz".to_string();
    // width 15: 6 characters kept, 3 in front and 3 at the back
    assert_eq!(truncate_text(t.clone(), 15), "abc...xyz");
    // width 16: 7 kept, 3 in front and 4 at the back
    assert_eq!(truncate_text(t.clone(), 16), "abc...wxyz");
    assert_eq!(truncate_text(t, 9), "...");
}

#[test]
fn truncate_fits_width() {
    let t: String = std::iter::repeat('é').take(40).collect();
    for w in 9u16..60 {
        assert!(truncate_text(t.clone(), w).chars().count() <= w as usize);
    }
}

#[test]
fn highlight_marks_pattern_chars_in_order() {
    let got = spans(&highlight_fuzzy_match("src/Main.rs", "mrs"));
    let want = vec![
        ("src/".to_string(), false),
        ("M".to_string(), true),
        ("ain.".to_string(), false),
        ("r".to_string(), true),
        ("s".to_string(), true),
    ];
    assert_eq!(got, want);
}

#[test]
fn highlight_empty_pattern_is_plain() {
    let got = spans(&highlight_fuzzy_match("abc", ""));
    assert_eq!(got, vec![("abc".to_string(), false)]);
}

#[test]
fn highlight_trailing_plain_run() {
    let got = spans(&highlight_fuzzy_match("axbyc", "ab"));
    assert_eq!(
        got,
        vec![
            ("a".to_string(), true),
            ("x".to_string(), false),
            ("b".to_string(), true),
            ("yc".to_string(), false),
        ]
    );
}

#[test]
fn matcher_ingests_and_filters() {
    let mut m = Matcher::new();
    assert!(m.is_empty());
    m.push("alpha.txt".to_string());
    m.push("beta.md".to_string());
    m.push("gamma.txt".to_string());
    settle(&mut m, 3);
    assert_eq!(m.get_matched_items_count(), 3);
    m.find_fuzzy_match("txt");
    settle(&mut m, 2);
    assert_eq!(m.get_matched_items_count(), 2);
    m.find_fuzzy_match("txt");
    settle(&mut m, 2);
    assert_eq!(m.get_matched_items_count(), 2);
    let lines = m.get_results("txt", 80, 0, 10);
    assert_eq!(lines.len(), 2);
    assert!(m.get_results("txt", 80, 5, 10).is_empty());
    assert_eq!(m.get_item(7), None);
}

#[test]
fn matcher_restart_empties() {
    let mut m = Matcher::new();
    m.push("one".to_string());
    settle(&mut m, 1);
    assert!(!m.is_empty());
    m.restart();
    assert!(m.is_empty());
    assert_eq!(m.get_matched_items_count(), 0);
}

#[test]
fn restart_then_tick_has_no_matches() {
    let mut m = Matcher::new();
    m.push("one".to_string());
    m.push("two".to_string());
    settle(&mut m, 2);
    m.restart();
    for _ in 0..50 {
        m.tick();
    }
    assert!(m.is_empty());
    m.push("three".to_string());
    settle(&mut m, 1);
    assert_eq!(m.get_item(0), Some("three".to_string()));
}
