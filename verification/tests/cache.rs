use hoards::cache::{CacheManager, GitHubInfo, NameMap, ToolUsage};

#[test]
fn name_map_insert_and_get() {
    let mut m: NameMap<i64> = NameMap::new();
    assert!(!m.contains_key("a"));
    m.insert("a".to_string(), 1);
    m.insert("b".to_string(), 2);
    m.insert("a".to_string(), 3);
    assert_eq!(m.get("a"), Some(&3));
    assert_eq!(m.get("b"), Some(&2));
    assert_eq!(m.get("c"), None);
    assert!(m.contains_key("b"));
}

#[test]
fn cache_usage_and_github() {
    let mut usage = NameMap::new();
    usage.insert("rg".to_string(), ToolUsage { use_count: 4, last_used: None });
    let mut c = CacheManager::new(usage, NameMap::new(), NameMap::new(), NameMap::new());
    assert_eq!(c.get_usage("rg").unwrap().use_count, 4);
    assert!(c.get_usage("fd").is_none());
    assert!(!c.has_github_info("rg"));
    let info = GitHubInfo {
        repo_owner: "BurntSushi".to_string(),
        repo_name: "ripgrep".to_string(),
        description: None,
        stars: 50000,
        language: Some("Rust".to_string()),
    };
    c.store_github_info("rg", info);
    assert!(c.has_github_info("rg"));
    assert_eq!(c.get_github_info("rg").unwrap().stars, 50000);
    let mut labels = NameMap::new();
    labels.insert("rg".to_string(), vec!["search".to_string()]);
    c.reload_labels(labels);
    assert_eq!(c.labels_cache.get("rg").unwrap()[0], "search");
    assert_eq!(c.get_usage("rg").unwrap().use_count, 4);
}

#[test]
fn github_info_is_read_on_a_miss_only() {
    let info = |stars: i64| GitHubInfo {
        repo_owner: "sharkdp".to_string(),
        repo_name: "fd".to_string(),
        description: None,
        stars,
        language: None,
    };
    let mut c = CacheManager::new(NameMap::new(), NameMap::new(), NameMap::new(), NameMap::new());
    c.fill_github_info("fd", None);
    assert!(c.get_github_info("fd").is_none());
    c.fill_github_info("fd", Some(info(30000)));
    assert_eq!(c.get_github_info("fd").unwrap().stars, 30000);
    c.fill_github_info("fd", Some(info(1)));
    assert_eq!(c.get_github_info("fd").unwrap().stars, 30000);
}
