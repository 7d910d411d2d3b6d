use hoards::version::{is_stable_version, newer_stable_versions, parse_version_parts, version_is_newer};

#[test]
fn test_version_is_newer() {
    assert!(version_is_newer("1.2.0", "1.1.0"));
    assert!(version_is_newer("2.0.0", "1.9.9"));
    assert!(version_is_newer("1.0.1", "1.0.0"));
    assert!(!version_is_newer("1.0.0", "1.0.0"));
    assert!(!version_is_newer("1.0.0", "1.0.1"));
}

#[test]
fn version_parts_parse() {
    assert_eq!(parse_version_parts("v1.2.3"), vec![1, 2, 3]);
    assert_eq!(parse_version_parts("1..2"), vec![1, 2]);
    assert_eq!(parse_version_parts("1.0-rc.2"), vec![1, 0, 2]);
    assert_eq!(parse_version_parts("007"), vec![7]);
    assert_eq!(parse_version_parts(""), Vec::<u32>::new());
    // a run too large for u32 is dropped
    assert_eq!(parse_version_parts("1.99999999999.3"), vec![1, 3]);
    assert_eq!(parse_version_parts("4294967295"), vec![4294967295]);
    assert_eq!(parse_version_parts("4294967296"), Vec::<u32>::new());
}

#[test]
fn version_longer_is_newer() {
    assert!(version_is_newer("1.0.0", "1.0"));
    assert!(!version_is_newer("1.0", "1.0.0"));
    assert!(!version_is_newer("v1.0", "1.0"));
    assert!(version_is_newer("10.0", "9.99"));
}

#[test]
fn stable_versions() {
    assert!(is_stable_version("1.2.3"));
    assert!(!is_stable_version("1.0.0-alpha"));
    assert!(!is_stable_version("2.0.0-BETA.1"));
    assert!(!is_stable_version("1.0.dev1"));
    assert!(!is_stable_version("1.0rc1"));
    assert!(!is_stable_version("1.0a1"));
    assert!(!is_stable_version("1.0b2"));
    assert!(is_stable_version("a1.0"));
    assert!(is_stable_version("1.0-src"));
}

#[test]
fn newer_stable_sorted() {
    let all = vec![
        "2.0.0".to_string(),
        "1.5.0".to_string(),
        "3.0.0-beta".to_string(),
        "1.0.0".to_string(),
        "2.0.0".to_string(),
        "1.10.0".to_string(),
    ];
    let r = newer_stable_versions(all, "1.2.0");
    assert_eq!(r, vec!["1.5.0", "1.10.0", "2.0.0", "2.0.0"]);
    assert!(newer_stable_versions(vec![], "1.0").is_empty());
}
