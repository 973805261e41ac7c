use typebridge::cli::{file_requests, parse_cli_args, parse_u32};

fn args(items: &[&str]) -> Vec<String> {
    items.iter().map(|s| s.to_string()).collect::<Vec<_>>()
}

#[test]
fn parses_all_flags() {
    let c = parse_cli_args(
        &args(&["--delay", "25", "--wait", "5", "--minimize", "--text", "hi", "--autostart"]),
        &Vec::new(),
    );
    assert_eq!(c.delay_ms, Some(25));
    assert_eq!(c.wait_s, Some(5));
    assert_eq!(c.minimize, Some(true));
    assert_eq!(c.text.as_deref(), Some("hi"));
    assert!(c.autostart);
}

#[test]
fn no_minimize_overrides() {
    let c = parse_cli_args(&args(&["--no-minimize"]), &Vec::new());
    assert_eq!(c.minimize, Some(false));
}

#[test]
fn empty_args_are_all_none() {
    let c = parse_cli_args(&Vec::new(), &Vec::new());
    assert!(c.delay_ms.is_none());
    assert!(c.wait_s.is_none());
    assert!(c.minimize.is_none());
    assert!(c.text.is_none());
    assert!(!c.autostart);
}

#[test]
fn bad_numbers_are_ignored() {
    let c = parse_cli_args(&args(&["--delay", "abc"]), &Vec::new());
    assert!(c.delay_ms.is_none());
}

#[test]
fn later_flags_win() {
    let c = parse_cli_args(&args(&["--delay", "5", "--delay", "7", "--minimize", "--no-minimize"]), &Vec::new());
    assert_eq!(c.delay_ms, Some(7));
    assert_eq!(c.minimize, Some(false));
    let d = parse_cli_args(&args(&["--delay", "5", "--delay"]), &Vec::new());
    assert_eq!(d.delay_ms, None);
}

#[test]
fn values_are_consumed_whatever_they_are() {
    let c = parse_cli_args(&args(&["--text", "--autostart", "--bogus", "x"]), &Vec::new());
    assert_eq!(c.text.as_deref(), Some("--autostart"));
    assert!(!c.autostart);
    let t = parse_cli_args(&args(&["--text"]), &Vec::new());
    assert!(t.text.is_none());
}

#[test]
fn files_are_requested_in_order_and_read_results_apply() {
    let a = args(&["--file", "a.txt", "--text", "--file", "--file", "b.txt", "--file"]);
    assert_eq!(file_requests(&a), vec!["a.txt".to_string(), "b.txt".to_string()]);
    let c = parse_cli_args(&a, &vec![Some("from a".to_string()), None]);
    assert_eq!(c.text.as_deref(), Some("--file"));
    let d = parse_cli_args(&args(&["--text", "t", "--file", "p"]), &vec![Some("file".to_string())]);
    assert_eq!(d.text.as_deref(), Some("file"));
    let e = parse_cli_args(&args(&["--text", "t", "--file", "p"]), &vec![None]);
    assert_eq!(e.text.as_deref(), Some("t"));
    let f = parse_cli_args(&args(&["--file", "p", "--text", "t"]), &vec![Some("file".to_string())]);
    assert_eq!(f.text.as_deref(), Some("t"));
}

#[test]
fn numbers_parse_like_str_parse() {
    assert_eq!(parse_u32("0"), Some(0));
    assert_eq!(parse_u32("+42"), Some(42));
    assert_eq!(parse_u32("4294967295"), Some(u32::MAX));
    assert_eq!(parse_u32("4294967296"), None);
    assert_eq!(parse_u32(""), None);
    assert_eq!(parse_u32("+"), None);
    assert_eq!(parse_u32("-1"), None);
    assert_eq!(parse_u32(" 1"), None);
    assert_eq!(parse_u32("١"), None);
}
