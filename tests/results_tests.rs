use rfd::results::{Results, StatusEvent};

fn results_with(n: usize) -> Results {
    let mut r = Results::new();
    for i in 0..n {
        r.matcher.push(format!("file{}.txt", i));
    }
    for _ in 0..2000 {
        r.matcher.tick();
        if r.matcher.get_matched_items_count() as usize == n {
            break;
        }
    }
    r
}

#[test]
fn virtualized_navigation() {
    let mut r = results_with(50);
    assert_eq!(r.matcher.get_matched_items_count(), 50);
    r.set_height(10);
    for _ in 0..12 {
        r.select_next();
    }
    assert_eq!(r.window_offset_value(), 2);
    assert_eq!(r.get_selected_index(), 9);
    assert_eq!(r.absolute_selected(), 11);
    for _ in 0..12 {
        r.select_previous();
    }
    assert_eq!(r.window_offset_value(), 0);
    assert_eq!(r.get_selected_index(), 0);
}

#[test]
fn selection_never_passes_last_match() {
    let mut r = results_with(3);
    r.set_height(10);
    r.select_first();
    for _ in 0..10 {
        r.select_next();
    }
    assert_eq!(r.get_selected_index(), 2);
    assert_eq!(r.window_offset_value(), 0);
    assert!(r.get_selected().is_some());
}

#[test]
fn move_to_top_resets_window() {
    let mut r = results_with(30);
    r.set_height(5);
    for _ in 0..8 {
        r.select_next();
    }
    assert!(r.window_offset_value() > 0);
    r.move_to_top();
    assert_eq!(r.window_offset_value(), 0);
    assert_eq!(r.selected, Some(0));
}

#[test]
fn status_messages() {
    let r = results_with(4);
    assert_eq!(r.get_status_msg(&StatusEvent::Scanning, 0), " Scanning files. ");
    assert_eq!(r.get_status_msg(&StatusEvent::Scanning, 700), " Scanning files.. ");
    assert_eq!(r.get_status_msg(&StatusEvent::Scanning, 1200), " Scanning files... ");
    assert_eq!(r.get_status_msg(&StatusEvent::Scanning, 1500), " Scanning files. ");
    assert_eq!(
        r.get_status_msg(&StatusEvent::Complete, 0),
        " 4 files found • ↑↓ navigate • Esc exits "
    );
    assert_eq!(r.get_status_msg(&StatusEvent::Idle, 0), "");
}

#[test]
fn select_first_only_when_unset() {
    let mut r = results_with(5);
    r.select_first();
    assert_eq!(r.selected, None);
    r.set_height(3);
    r.select_first();
    assert_eq!(r.selected, Some(0));
    r.select_next();
    r.select_first();
    assert_eq!(r.selected, Some(1));
}

#[test]
fn fit_moves_selection_back_onto_matches() {
    let mut r = results_with(3);
    r.set_height(10);
    r.offset = 5;
    r.selected = Some(4);
    r.fit_to_matches();
    assert_eq!((r.offset, r.selected), (0, Some(2)));
    r.offset = 1;
    r.selected = Some(1);
    r.fit_to_matches();
    assert_eq!((r.offset, r.selected), (1, Some(1)));
    r.set_height(1);
    r.fit_to_matches();
    assert_eq!((r.offset, r.selected), (1, Some(0)));
}
