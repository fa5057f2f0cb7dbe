use rfd::args::{
    current_dir_search_paths, expand_tilde, get_search_paths, is_valid_directory,
    normalize_path, parse_input_args, split_whitespace, ParseError, Type,
};
use rfd::args::is_whitespace;
use rfd::file_system::{display_path, get_relative_path, is_existing_dir};

#[test]
fn parses_pattern_roots_and_flags() {
    let a = parse_input_args("x\\.txt  src  docs -k d -H -d 2 -s -t 4 -m 10 -j").unwrap();
    assert_eq!(a.pattern, "x\\.txt");
    assert_eq!(a.path, vec!["src".to_string(), "docs".to_string()]);
    assert_eq!(a.kind, Some(Type::Directory));
    assert!(a.show_hidden && a.case_sensitive && a.json);
    assert_eq!(a.max_depth, Some(2));
    assert_eq!(a.threads, Some(4));
    assert_eq!(a.max_results, Some(10));
}

#[test]
fn parses_long_and_attached_forms() {
    let a = parse_input_args("deep --kind file --max-depth 3 -m5 --hidden").unwrap();
    assert_eq!(a.kind, Some(Type::File));
    assert_eq!(a.max_depth, Some(3));
    assert_eq!(a.max_results, Some(5));
    assert!(a.show_hidden);
    assert!(!a.case_sensitive);
    assert_eq!(parse_input_args("p -k dir").unwrap().kind, Some(Type::Directory));
    assert_eq!(parse_input_args("p -kf").unwrap().kind, Some(Type::File));
    let eq = parse_input_args("p --kind=dir --max-results=7 --threads=2").unwrap();
    assert_eq!(eq.kind, Some(Type::Directory));
    assert_eq!(eq.max_results, Some(7));
    assert_eq!(eq.threads, Some(2));
    assert!(matches!(parse_input_args("p --hidden=yes"), Err(ParseError::UnknownArgument(_))));
    assert!(matches!(parse_input_args("p --max-depth="), Err(ParseError::InvalidValue(_))));
}

#[test]
fn parse_errors() {
    assert!(matches!(parse_input_args(""), Err(ParseError::MissingPattern)));
    assert!(matches!(parse_input_args("   "), Err(ParseError::MissingPattern)));
    match parse_input_args("p -x") {
        Err(e) => {
            assert!(matches!(e, ParseError::UnknownArgument(_)));
            assert_eq!(e.message(), "unexpected argument '-x' found");
        }
        Ok(_) => panic!("accepted an unknown flag"),
    }
    match parse_input_args("p -d") {
        Err(e) => assert_eq!(e.message(), "a value is required for '-d' but none was supplied"),
        Ok(_) => panic!("accepted a missing value"),
    }
    match parse_input_args("p -t 0") {
        Err(e) => assert_eq!(e.message(), "invalid value '0'"),
        Ok(_) => panic!("accepted zero threads"),
    }
    assert!(matches!(parse_input_args("p -k x"), Err(ParseError::InvalidValue(_))));
    assert!(matches!(
        parse_input_args("p -m 99999999999999999999999"),
        Err(ParseError::InvalidValue(_))
    ));
}

#[test]
fn whitespace_split() {
    let w = split_whitespace(" a\tbc  d ");
    let words: Vec<String> = w.iter().map(|v| v.iter().collect()).collect();
    assert_eq!(words, vec!["a", "bc", "d"]);
}

#[test]
fn path_helpers() {
    assert_eq!(normalize_path("."), "./");
    assert_eq!(normalize_path("/tmp"), "/tmp");
    assert_eq!(expand_tilde("~/code".to_string(), Some("/home/u".to_string())), "/home/u/code");
    assert_eq!(expand_tilde("~/code".to_string(), None), "~/code");
    assert_eq!(expand_tilde("a~b".to_string(), Some("/h".to_string())), "a~b");
    assert!(is_valid_directory(true).is_ok());
    assert_eq!(is_valid_directory(false).unwrap_err(), "Could not retrieve current directory");
    assert!(is_existing_dir(true, false, true));
    assert!(!is_existing_dir(false, true, true));
    assert!(!is_existing_dir(true, false, false));
}

#[test]
fn search_paths_keep_existing_dirs() {
    let paths = vec![".".to_string(), "missing".to_string(), "/etc".to_string()];
    let kept = get_search_paths(&paths, &vec![true, false, true]);
    assert_eq!(kept, vec!["./".to_string(), "/etc".to_string()]);
    assert_eq!(current_dir_search_paths("/work", true).unwrap(), vec!["/work".to_string()]);
    assert!(current_dir_search_paths("/work", false).is_err());
}

#[test]
fn whitespace_agrees_with_std() {
    for u in 0u32..0x110000 {
        if let Some(c) = char::from_u32(u) {
            assert_eq!(is_whitespace(c), c.is_whitespace(), "U+{:04X}", u);
        }
    }
}

#[test]
fn relative_paths() {
    assert_eq!(get_relative_path("/work/src/a.rs", Some("/work")), Some("src/a.rs".to_string()));
    assert_eq!(get_relative_path("/workshop/a.rs", Some("/work")), None);
    assert_eq!(get_relative_path("/work/a.rs", None), None);
    assert_eq!(display_path("/work/src/a.rs", Some("/work/")), "src/a.rs");
    assert_eq!(display_path("/other/a.rs", Some("/work")), "/other/a.rs");
    assert_eq!(display_path("./a/x.txt", None), "./a/x.txt");
}

#[test]
fn clustered_short_options() {
    let a = parse_input_args("p -Hsj").unwrap();
    assert!(a.show_hidden && a.case_sensitive && a.json);
    let b = parse_input_args("p -Hkf").unwrap();
    assert!(b.show_hidden);
    assert_eq!(b.kind, Some(Type::File));
    let c = parse_input_args("p -sd 3").unwrap();
    assert!(c.case_sensitive);
    assert_eq!(c.max_depth, Some(3));
    match parse_input_args("p -Hx") {
        Err(e) => assert_eq!(e.message(), "unexpected argument '-Hx' found"),
        Ok(_) => panic!("accepted an unknown switch"),
    }
    match parse_input_args("p -Hd") {
        Err(e) => assert_eq!(e.message(), "a value is required for '-Hd' but none was supplied"),
        Ok(_) => panic!("accepted a missing value"),
    }
}
