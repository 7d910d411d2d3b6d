use hoards::cache::{CacheManager, NameMap, ToolUsage};
use hoards::tools::{
    clamp_selection, favorite_status, filter_and_sort_tools, name_less, set_favorite, tool_match_score,
    ListFilters, Tool,
};
use hoards::types::{InstallSource, SortBy};

fn tool(name: &str, source: InstallSource, favorite: bool) -> Tool {
    Tool {
        name: name.to_string(),
        description: None,
        category: None,
        source,
        install_command: None,
        binary_name: None,
        is_installed: true,
        is_favorite: favorite,
        updated_at: 0,
    }
}

fn filters(query: &str, sort_by: SortBy) -> ListFilters {
    ListFilters {
        source: None,
        labels: Vec::new(),
        favorites_only: false,
        search_query: query.to_string(),
        sort_by,
    }
}

fn empty_cache() -> CacheManager {
    CacheManager::new(NameMap::new(), NameMap::new(), NameMap::new(), NameMap::new())
}

fn names(tools: &[Tool]) -> Vec<&str> {
    tools.iter().map(|t| t.name.as_str()).collect()
}

#[test]
fn sorts_by_name_when_not_searching() {
    let all = vec![
        tool("ripgrep", InstallSource::Cargo, false),
        tool("bat", InstallSource::Cargo, false),
        tool("fd", InstallSource::Apt, false),
    ];
    let r = filter_and_sort_tools(&all, &filters("", SortBy::Name), &empty_cache());
    assert_eq!(names(&r), vec!["bat", "fd", "ripgrep"]);
}

#[test]
fn source_and_favorite_filters() {
    let all = vec![
        tool("ripgrep", InstallSource::Cargo, true),
        tool("bat", InstallSource::Cargo, false),
        tool("fd", InstallSource::Apt, true),
    ];
    let mut f = filters("", SortBy::Name);
    f.source = Some("cargo".to_string());
    let r = filter_and_sort_tools(&all, &f, &empty_cache());
    assert_eq!(names(&r), vec!["bat", "ripgrep"]);
    f.favorites_only = true;
    let r = filter_and_sort_tools(&all, &f, &empty_cache());
    assert_eq!(names(&r), vec!["ripgrep"]);
}

#[test]
fn sorts_by_usage_most_used_first_ties_keep_order() {
    let all = vec![
        tool("a", InstallSource::Cargo, false),
        tool("b", InstallSource::Cargo, false),
        tool("c", InstallSource::Cargo, false),
        tool("d", InstallSource::Cargo, false),
    ];
    let mut usage = NameMap::new();
    usage.insert("b".to_string(), ToolUsage { use_count: 5, last_used: None });
    usage.insert("c".to_string(), ToolUsage { use_count: 9, last_used: None });
    let cache = CacheManager::new(usage, NameMap::new(), NameMap::new(), NameMap::new());
    let r = filter_and_sort_tools(&all, &filters("", SortBy::Usage), &cache);
    assert_eq!(names(&r), vec!["c", "b", "a", "d"]);
}

#[test]
fn sorts_by_recent_use_unused_last_by_name() {
    let all = vec![
        tool("zed", InstallSource::Cargo, false),
        tool("old", InstallSource::Cargo, false),
        tool("new", InstallSource::Cargo, false),
        tool("abc", InstallSource::Cargo, false),
    ];
    let mut usage = NameMap::new();
    usage.insert(
        "old".to_string(),
        ToolUsage { use_count: 1, last_used: Some("2024-01-01T00:00:00Z".to_string()) },
    );
    usage.insert(
        "new".to_string(),
        ToolUsage { use_count: 1, last_used: Some("2025-01-01T00:00:00Z".to_string()) },
    );
    let cache = CacheManager::new(usage, NameMap::new(), NameMap::new(), NameMap::new());
    let r = filter_and_sort_tools(&all, &filters("", SortBy::Recent), &cache);
    assert_eq!(names(&r), vec!["new", "old", "abc", "zed"]);
}

#[test]
fn search_keeps_matches_best_first() {
    let mut a = tool("ripgrep", InstallSource::Cargo, false);
    a.description = Some("fast grep".to_string());
    let b = tool("bat", InstallSource::Cargo, false);
    let c = tool("rip", InstallSource::Cargo, false);
    let all = vec![a, b, c];
    let r = filter_and_sort_tools(&all, &filters("rip", SortBy::Name), &empty_cache());
    // "rip" matches "rip" exactly (bonus 100) and "ripgrep" as a prefix (bonus 50).
    assert_eq!(names(&r), vec!["rip", "ripgrep"]);
}

#[test]
fn label_filter_requires_every_label() {
    let all = vec![
        tool("a", InstallSource::Cargo, false),
        tool("b", InstallSource::Cargo, false),
        tool("c", InstallSource::Cargo, false),
    ];
    let mut labels = NameMap::new();
    labels.insert("a".to_string(), vec!["cli".to_string(), "rust".to_string()]);
    labels.insert("b".to_string(), vec!["cli".to_string()]);
    let cache = CacheManager::new(NameMap::new(), NameMap::new(), NameMap::new(), labels);
    let mut f = filters("", SortBy::Name);
    f.labels = vec!["cli".to_string(), "rust".to_string()];
    assert_eq!(names(&filter_and_sort_tools(&all, &f, &cache)), vec!["a"]);
    f.labels = vec!["cli".to_string()];
    assert_eq!(names(&filter_and_sort_tools(&all, &f, &cache)), vec!["a", "b"]);
}

#[test]
fn name_bonus_in_tool_score() {
    let mut t = tool("ripgrep", InstallSource::Cargo, false);
    assert_eq!(tool_match_score("zzz", &t), None);
    let name_only = tool_match_score("ripgrep", &t).unwrap();
    t.name = "x".to_string();
    t.description = Some("ripgrep".to_string());
    let desc_only = tool_match_score("ripgrep", &t).unwrap();
    assert_eq!(name_only, desc_only + 10);
}

#[test]
fn name_order_is_string_order() {
    assert!(name_less("abc", "abd"));
    assert!(name_less("ab", "abc"));
    assert!(!name_less("abc", "abc"));
    assert!(!name_less("b", "abc"));
    assert!(name_less("B", "a"));
}

#[test]
fn selection_is_clamped() {
    assert_eq!(clamp_selection(3, 10), 3);
    assert_eq!(clamp_selection(10, 10), 9);
    assert_eq!(clamp_selection(5, 0), 0);
}

#[test]
fn favorites_are_set_on_the_first_match() {
    let mut tools = vec![
        tool("rg", InstallSource::Cargo, false),
        tool("fd", InstallSource::Cargo, false),
        tool("fd", InstallSource::Apt, false),
    ];
    set_favorite(&mut tools, "fd", true);
    let favs: Vec<bool> = tools.iter().map(|t| t.is_favorite).collect();
    assert_eq!(favs, vec![false, true, false]);
    set_favorite(&mut tools, "zoxide", true);
    let favs: Vec<bool> = tools.iter().map(|t| t.is_favorite).collect();
    assert_eq!(favs, vec![false, true, false]);
    set_favorite(&mut tools, "fd", false);
    assert!(!tools[1].is_favorite);
    assert_eq!(favorite_status("fd", true), "fd: ★ Added to favorites");
    assert_eq!(favorite_status("fd", false), "fd: Removed from favorites");
}
