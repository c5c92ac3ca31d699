use polkadot_cli::search;
use polkadot_cli::search_case_insensitive;
use polkadot_cli::Config;

#[test]
fn case_sensitive() {
    let query = "duct";
    let contents = "\
Rust:
safe, fast, productive.
Pick three.
Duct tape.";
    assert_eq!(vec!["safe, fast, productive.".to_string()], search(query, contents));
}

#[test]
fn case_insensitive() {
    let query = "rUsT";
    let contents = "\
Rust:
safe, fast, productive.
Pick three.
Trust me.";
    assert_eq!(
        vec!["Rust:".to_string(), "Trust me.".to_string()],
        search_case_insensitive(query, contents)
    );
}

#[test]
fn search_empty_query_matches_every_line() {
    let result = search("", "a\nb\nc");
    assert_eq!(vec!["a".to_string(), "b".to_string(), "c".to_string()], result);
}

#[test]
fn search_empty_contents_finds_nothing() {
    let result = search("needle", "");
    assert!(result.is_empty());
}

#[test]
fn search_no_match() {
    let result = search("zzz", "one\ntwo\nthree");
    assert!(result.is_empty());
}

#[test]
fn search_strips_carriage_returns_before_newlines() {
    let result = search("one", "one\r\ntwo\r\none more\r\n");
    assert_eq!(vec!["one".to_string(), "one more".to_string()], result);
}

#[test]
fn search_keeps_lone_trailing_carriage_return() {
    let result = search("one", "one\r");
    assert_eq!(vec!["one\r".to_string()], result);
}

#[test]
fn search_case_insensitive_mixed_case_query() {
    let result = search_case_insensitive("DUCT", "Duct tape.\nProductive.\nnothing");
    assert_eq!(vec!["Duct tape.".to_string(), "Productive.".to_string()], result);
}

#[test]
fn config_new_takes_query_and_filename() {
    let args = vec![
        "program".to_string(),
        "needle".to_string(),
        "haystack.txt".to_string(),
    ];
    let config = Config::new(&args, true).unwrap();
    assert_eq!(config.query, "needle");
    assert_eq!(config.filename, "haystack.txt");
    assert!(config.case_sensitive);
}

#[test]
fn config_new_reports_short_argument_lists() {
    let args = vec!["program".to_string(), "needle".to_string()];
    assert!(matches!(Config::new(&args, true), Err("Not enough arguments")));
}

#[test]
fn config_new_case_insensitive_flag_is_kept() {
    let args = vec!["p".to_string(), "q".to_string(), "f".to_string()];
    let config = Config::new(&args, false).unwrap();
    assert!(!config.case_sensitive);
}
