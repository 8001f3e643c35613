use minigrep::{ignore_case_from, select_lines, Config, MISSING_FILE_PATH, MISSING_QUERY};

fn args(items: &[&str]) -> Vec<String> {
    items.iter().map(|s| s.to_string()).collect()
}

#[test]
fn missing_both_arguments_fails_on_query_before_reading_switch() {
    let r = Config::build(args(&["minigrep"]), || -> Option<String> {
        panic!("the switch must not be read")
    });
    assert_eq!(Some(MISSING_QUERY), r.err());
    assert_eq!("get query string error", MISSING_QUERY);
}

#[test]
fn no_arguments_at_all_fails_on_query() {
    let r = Config::build(Vec::new(), || None);
    assert_eq!(Some(MISSING_QUERY), r.err());
}

#[test]
fn missing_file_path_fails_before_reading_switch() {
    let r = Config::build(args(&["minigrep", "duct"]), || -> Option<String> {
        panic!("the switch must not be read")
    });
    assert_eq!(Some(MISSING_FILE_PATH), r.err());
    assert_eq!("get file path error", MISSING_FILE_PATH);
}

#[test]
fn build_takes_query_and_path_in_order() {
    let c = Config::build(args(&["minigrep", "duct", "poem.txt", "extra"]), || None).ok().unwrap();
    assert_eq!("duct", c.query);
    assert_eq!("poem.txt", c.file_path);
    assert!(!c.ignore_case);
}

#[test]
fn switch_set_to_one_folds_case() {
    let c = Config::build(args(&["minigrep", "q", "f"]), || Some("1".to_string())).ok().unwrap();
    assert!(c.ignore_case);
}

#[test]
fn switch_zero_or_unset_keeps_case() {
    let c = Config::build(args(&["minigrep", "q", "f"]), || Some("0".to_string())).ok().unwrap();
    assert!(!c.ignore_case);
    let c = Config::build(args(&["minigrep", "q", "f"]), || None).ok().unwrap();
    assert!(!c.ignore_case);
}

#[test]
fn only_exact_one_turns_folding_on() {
    assert!(ignore_case_from(Some("1")));
    assert!(!ignore_case_from(Some("0")));
    assert!(!ignore_case_from(Some("true")));
    assert!(!ignore_case_from(Some("11")));
    assert!(!ignore_case_from(Some(" 1")));
    assert!(!ignore_case_from(Some("")));
    assert!(!ignore_case_from(None));
}

#[test]
fn select_lines_uses_exact_search_when_switch_off() {
    let contents = "Rust:\nsafe, fast, productive.\nPick three.\nTrust me.";
    let c = Config::build(args(&["minigrep", "rUsT", "f"]), || Some("0".to_string())).ok().unwrap();
    assert!(select_lines(&c, contents).is_empty());
    let c = Config::build(args(&["minigrep", "rUsT", "f"]), || Some("1".to_string())).ok().unwrap();
    assert_eq!(vec!["Rust:", "Trust me."], select_lines(&c, contents));
}
