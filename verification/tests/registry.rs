use hoards::updates::{
    available_versions_registry, crates_io_latest_from, crates_io_versions_from,
    installed_version_query, lookup_outcome, npm_versions_from, pypi_latest_from,
    pypi_versions_from, LookupOutcome, Registry, VersionQuery,
};

#[test]
fn crates_io_latest() {
    let body = br#"{"crate":{"max_stable_version":"1.2.3","max_version":"1.3.0-beta"}}"#;
    assert_eq!(crates_io_latest_from(body), Some("1.2.3".to_string()));
    let body = br#"{"crate":{"max_stable_version":null,"max_version":"2.0.0"}}"#;
    assert_eq!(crates_io_latest_from(body), Some("2.0.0".to_string()));
    assert_eq!(crates_io_latest_from(b"not json"), None);
    assert_eq!(crates_io_latest_from(br#"{"errors":[]}"#), None);
}

#[test]
fn crates_io_versions() {
    let body = br#"{"versions":[{"num":"1.0.0"},{"num":"1.2.0"},{"num":"1.1.0"},{"num":"2.0.0-rc1"},{"num":"0.9.0"},{"id":3}]}"#;
    assert_eq!(crates_io_versions_from(body, "1.0.0"), vec!["1.1.0".to_string(), "1.2.0".to_string()]);
    assert!(crates_io_versions_from(b"[]", "1.0.0").is_empty());
}

#[test]
fn pypi_answers() {
    assert_eq!(pypi_latest_from(br#"{"info":{"version":"3.1"}}"#), Some("3.1".to_string()));
    assert_eq!(pypi_latest_from(br#"{"info":{}}"#), None);
    let body = br#"{"releases":{"1.0":[],"1.1":[],"2.0b1":[],"1.10":[]}}"#;
    assert_eq!(pypi_versions_from(body, "1.0"), vec!["1.1".to_string(), "1.10".to_string()]);
}

#[test]
fn npm_versions() {
    let body = br#"["1.0.0","1.1.0","0.5.0","2.0.0-alpha",7]"#;
    assert_eq!(npm_versions_from(body, "1.0.0"), vec!["1.1.0".to_string()]);
    assert!(npm_versions_from(b"{}", "1.0.0").is_empty());
}

#[test]
fn lookups_and_dispatch() {
    match lookup_outcome("ripgrep", "13.0.0", "apt", Registry::CratesIo, Some("14.0.0".to_string())) {
        LookupOutcome::Found(u) => assert_eq!(u.better_source, "cargo"),
        LookupOutcome::Next(_) => panic!("expected an upgrade"),
    }
    match lookup_outcome("ripgrep", "13.0.0", "apt", Registry::CratesIo, None) {
        LookupOutcome::Next(n) => assert_eq!(n, None),
        LookupOutcome::Found(_) => panic!("no upgrade expected"),
    }
    assert_eq!(installed_version_query("apt"), Some(VersionQuery::Apt));
    assert_eq!(installed_version_query("brew"), None);
    assert_eq!(available_versions_registry("pip"), Some(Registry::PyPI));
    assert_eq!(available_versions_registry("apt"), None);
}
