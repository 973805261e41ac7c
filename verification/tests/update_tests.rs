use typebridge::update::{
    api_latest_url, begin_check, check_outcome, is_newer, owner_repo, owner_repo_of, parse,
    release_from_api, Release, UpdateState,
};

#[test]
fn version_comparison() {
    assert!(is_newer("1.0.1", "1.0.0"));
    assert!(is_newer("v1.1.0", "1.0.9"));
    assert!(is_newer("2.0.0", "1.9.9"));
    assert!(!is_newer("1.0.0", "1.0.0"));
    assert!(!is_newer("1.0.0", "1.0.1"));
    assert!(!is_newer("1.0.0-rc1", "1.0.0"));
}

#[test]
fn repo_is_parsed() {
    assert_eq!(owner_repo().as_deref(), Some("junglivre/TypeBridge"));
}

#[test]
fn versions_parse_to_triples() {
    assert_eq!(parse("1.2.3"), (1, 2, 3));
    assert_eq!(parse("  vv10.20.30+build.7 "), (10, 20, 30));
    assert_eq!(parse("2.1"), (2, 1, 0));
    assert_eq!(parse("3.x.4"), (3, 0, 4));
    assert_eq!(parse(""), (0, 0, 0));
    assert_eq!(parse("1.2.3.4"), (1, 2, 3));
    assert_eq!(parse("1.+2.3"), (1, 0, 0));
    assert_eq!(parse("18446744073709551615.18446744073709551616.1"), (u64::MAX, 0, 1));
}

#[test]
fn newer_is_a_strict_order() {
    for v in ["1.0.0", "v2.3", "0.0.1-alpha", "garbage"] {
        assert!(!is_newer(v, v));
    }
    assert!(is_newer("1.10.0", "1.9.0"));
    assert!(!is_newer("1.9.0", "1.10.0"));
    assert!(!is_newer("v1.2.3", "1.2.3"));
    assert!(!is_newer("1.2.3+build", "1.2.3"));
}

#[test]
fn owner_repo_strips_suffixes() {
    assert_eq!(owner_repo_of("https://github.com/a/b/").as_deref(), Some("a/b"));
    assert_eq!(owner_repo_of("https://github.com/a/b.git").as_deref(), Some("a/b"));
    assert_eq!(owner_repo_of("https://github.com/a/b.git//").as_deref(), Some("a/b"));
    assert_eq!(owner_repo_of("https://github.com/a/b.git.git").as_deref(), Some("a/b"));
    assert_eq!(owner_repo_of("https://gitlab.com/a/b"), None);
    assert_eq!(owner_repo_of("http://github.com/a/b"), None);
}

#[test]
fn latest_release_address() {
    assert_eq!(
        api_latest_url().as_deref(),
        Some("https://api.github.com/repos/junglivre/TypeBridge/releases/latest")
    );
}

fn release(version: &str) -> Release {
    release_from_api(version.to_string(), None, "u".to_string())
}

#[test]
fn release_fields_from_the_api() {
    let r = release_from_api(
        "vv2.3.4".to_string(),
        Some("notes".to_string()),
        "https://x".to_string(),
    );
    assert_eq!(r.tag, "vv2.3.4");
    assert_eq!(r.version, "2.3.4");
    assert_eq!(r.notes, "notes");
    assert_eq!(r.url, "https://x");
    assert_eq!(release("1.0.0").notes, "");
}

#[test]
fn check_outcomes() {
    assert!(matches!(check_outcome(Ok(release("v9.0.0"))), UpdateState::Available(r) if r.version == "9.0.0"));
    assert!(matches!(check_outcome(Ok(release("2.2.0"))), UpdateState::UpToDate));
    assert!(matches!(check_outcome(Ok(release("1.0.0"))), UpdateState::UpToDate));
    assert!(matches!(check_outcome(Err(())), UpdateState::Failed));
}

#[test]
fn only_one_check_at_a_time() {
    let mut s = UpdateState::Idle;
    assert!(begin_check(&mut s));
    assert!(matches!(s, UpdateState::Checking));
    assert!(!begin_check(&mut s));
    assert!(matches!(s, UpdateState::Checking));
    let mut f = UpdateState::Failed;
    assert!(begin_check(&mut f));
}
