use rfd::args::parse_input_args;
use rfd::config::{has_uppercase_char, Config};
use rfd::walk::{EntryKind, NameRegex, Walker};

fn walker_for(query: &str, threads: usize) -> (Walker, NameRegex) {
    let args = parse_input_args(query).unwrap();
    let config = Config::build(&args, threads);
    let regex = NameRegex::new(&args.pattern, &config).unwrap();
    (Walker::new(config), regex)
}

/// The entries of a small tree, as the walker reports them: (path, depth,
/// kind, file name).
fn tree() -> Vec<(&'static str, usize, EntryKind, &'static str)> {
    vec![
        (".", 0, EntryKind::Directory, "."),
        ("a", 1, EntryKind::Directory, "a"),
        ("a/x.txt", 2, EntryKind::File, "x.txt"),
        ("a/y.md", 2, EntryKind::File, "y.md"),
        ("b", 1, EntryKind::Directory, "b"),
        ("b/x.txt", 2, EntryKind::File, "x.txt"),
    ]
}

fn emitted(w: &Walker, re: &NameRegex, entries: &[(&'static str, usize, EntryKind, &'static str)]) -> Vec<String> {
    entries
        .iter()
        .filter(|(_, depth, kind, name)| w.accepts(re, *depth, Some(*kind), name.as_bytes()))
        .map(|(p, _, _, _)| p.to_string())
        .collect()
}

#[test]
fn basic_match() {
    let (w, re) = walker_for("x\\.txt", 2);
    assert_eq!(emitted(&w, &re, &tree()), vec!["a/x.txt", "b/x.txt"]);
}

#[test]
fn kind_filter() {
    let (w, re) = walker_for("x\\.txt -k d", 2);
    assert!(emitted(&w, &re, &tree()).is_empty());
    assert!(!w.accepts(&re, 1, None, b"x.txt"));
}

#[test]
fn depth_cap() {
    let (w, re) = walker_for("deep -d 2", 1);
    let entries = vec![
        ("a", 1, EntryKind::Directory, "a"),
        ("a/b", 2, EntryKind::Directory, "b"),
        ("a/b/c", 3, EntryKind::Directory, "c"),
        ("a/b/c/deep.txt", 4, EntryKind::File, "deep.txt"),
    ];
    assert!(emitted(&w, &re, &entries).is_empty());
    let plan = w.build(&vec!["./".to_string()]).unwrap();
    assert_eq!(plan.max_depth, Some(2));
}

#[test]
fn roots_are_never_results() {
    let (w, re) = walker_for(".*", 1);
    assert!(!w.accepts(&re, 0, Some(EntryKind::Directory), b"src"));
    assert!(w.accepts(&re, 1, Some(EntryKind::Directory), b"src"));
    assert!(!w.accepts(&re, 1, Some(EntryKind::File), b".hidden"));
    let (shown, re2) = walker_for(".* -H", 1);
    assert!(shown.accepts(&re2, 1, Some(EntryKind::File), b".hidden"));
}

#[test]
fn results_cap() {
    let (w, _) = walker_for(".* -m 10 -t 4", 8);
    assert_eq!(w.config.threads, 4);
    let sent = (1usize..=1000).filter(|c| w.within_cap(*c)).count();
    assert_eq!(sent, 10);
    assert!(w.within_cap(10));
    assert!(!w.within_cap(11));
    let (free, _) = walker_for(".*", 8);
    assert!(free.within_cap(1_000_000));
}

#[test]
fn smart_case() {
    let (_, upper) = walker_for("README", 1);
    assert!(upper.is_match(b"README.md"));
    assert!(!upper.is_match(b"readme.md"));
    let (_, lower) = walker_for("readme", 1);
    assert!(lower.is_match(b"README.md"));
    assert!(lower.is_match(b"readme.md"));
    let (_, forced) = walker_for("readme -s", 1);
    assert!(!forced.is_match(b"README.md"));
    assert!(has_uppercase_char("aÉ"));
    assert!(!has_uppercase_char("abc"));
}

#[test]
fn walk_plan_settings() {
    let (w, _) = walker_for("x -H -s -t 3", 8);
    let plan = w.build(&vec!["/a".to_string(), "/b".to_string()]).unwrap();
    assert_eq!(plan.roots, vec!["/a".to_string(), "/b".to_string()]);
    assert!(!plan.hidden);
    assert!(plan.ignore_case_insensitive);
    assert!(!plan.follow_links);
    assert!(plan.same_file_system);
    assert_eq!(plan.threads, 3);
    assert_eq!(w.build(&vec![]).err().unwrap(), "No paths provided for search");
}

#[test]
fn bad_regex_is_refused() {
    let args = parse_input_args("a(b").unwrap();
    let config = Config::build(&args, 0);
    assert_eq!(config.threads, 1);
    assert!(NameRegex::new(&args.pattern, &config).is_err());
}

#[test]
fn entry_kinds_from_file_type() {
    assert_eq!(EntryKind::from_file_type(true, false), EntryKind::File);
    assert_eq!(EntryKind::from_file_type(false, true), EntryKind::Directory);
    assert_eq!(EntryKind::from_file_type(false, false), EntryKind::Other);
}
