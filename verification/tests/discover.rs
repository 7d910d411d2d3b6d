use hoards::config::SourcesConfig;
use hoards::discover::{
    ai_step_label, available_discover_sources, centered_offset, results_title, discover_search_status, next_discover_step, discover_step_progress, history_down, history_query, history_up, record_search,
    plan_discover_search, sort_discover_results, DiscoverSearchEntry, HistoryDown, SearchStart,
    MAX_DISCOVER_HISTORY,
};
use hoards::types::{DiscoverResult, DiscoverSortBy, DiscoverSource};

fn result(name: &str, source: DiscoverSource, stars: Option<u64>) -> DiscoverResult {
    DiscoverResult {
        name: name.to_string(),
        description: None,
        source,
        stars,
        url: None,
        install_options: Vec::new(),
    }
}

fn names(r: &[DiscoverResult]) -> Vec<&str> {
    r.iter().map(|x| x.name.as_str()).collect()
}

#[test]
fn sort_by_stars_then_name() {
    let r = vec![
        result("zeta", DiscoverSource::Npm, None),
        result("Alpha", DiscoverSource::Npm, None),
        result("few", DiscoverSource::GitHub, Some(3)),
        result("many", DiscoverSource::GitHub, Some(300)),
    ];
    let s = sort_discover_results(r, DiscoverSortBy::Stars);
    assert_eq!(names(&s), vec!["many", "few", "Alpha", "zeta"]);
}

#[test]
fn sort_by_name_ignores_case() {
    let r = vec![
        result("beta", DiscoverSource::Npm, None),
        result("Alpha", DiscoverSource::Npm, None),
        result("alpha2", DiscoverSource::Npm, None),
    ];
    assert_eq!(names(&sort_discover_results(r, DiscoverSortBy::Name)), vec!["Alpha", "alpha2", "beta"]);
}

#[test]
fn sort_by_source_then_name() {
    let r = vec![
        result("x", DiscoverSource::GitHub, None),
        result("b", DiscoverSource::CratesIo, None),
        result("a", DiscoverSource::CratesIo, None),
        result("p", DiscoverSource::PyPI, None),
    ];
    assert_eq!(names(&sort_discover_results(r, DiscoverSortBy::Source)), vec!["a", "b", "p", "x"]);
}

#[test]
fn searchable_sources() {
    let mut sources = SourcesConfig::default();
    sources.npm = false;
    let r = available_discover_sources(&sources, true);
    let keys: Vec<&str> = r.iter().map(|s| s.0).collect();
    assert_eq!(keys, vec!["cargo", "pip", "brew", "apt", "github"]);
    assert_eq!(r[4].2, "GitHub");
    assert_eq!(available_discover_sources(&sources, false).len(), 4);
}

#[test]
fn history_navigation() {
    assert_eq!(history_up(None, 0), None);
    assert_eq!(history_up(None, 3), Some(0));
    assert_eq!(history_up(Some(1), 3), Some(2));
    assert_eq!(history_up(Some(2), 3), Some(2));
    assert_eq!(history_down(None, 3), HistoryDown::Stay);
    assert_eq!(history_down(Some(0), 3), HistoryDown::NewSearch);
    assert_eq!(history_down(Some(2), 3), HistoryDown::Entry(1));
    assert_eq!(history_down(Some(2), 0), HistoryDown::Stay);
}

#[test]
fn recording_searches() {
    assert_eq!(history_query("  rust cli "), Some("rust cli".to_string()));
    assert_eq!(history_query("   "), None);
    let mut h: Vec<DiscoverSearchEntry> = Vec::new();
    for i in 0..105 {
        record_search(
            &mut h,
            DiscoverSearchEntry {
                id: i,
                query: format!("q{}", i),
                ai_enabled: false,
                source_filters: Vec::new(),
                created_at: String::new(),
            },
        );
    }
    assert_eq!(h.len(), MAX_DISCOVER_HISTORY);
    assert_eq!(h[0].id, 104);
    assert_eq!(h[99].id, 5);
}

fn strings(v: &[&str]) -> Vec<String> {
    v.iter().map(|s| s.to_string()).collect()
}

#[test]
fn discover_search_plans() {
    let filters = strings(&["cargo", "github", "weird", "pip", "apt", "npm", "brew"]);
    assert_eq!(plan_discover_search("   ", false, false, &filters, true), SearchStart::Nothing);
    assert_eq!(
        plan_discover_search(" ripgrep ", false, false, &filters, true),
        SearchStart::Search {
            query: "ripgrep".to_string(),
            source_names: strings(&["crates.io", "GitHub", "PyPI", "apt", "npm", "Homebrew"]),
        }
    );
    assert_eq!(
        plan_discover_search("rg", false, false, &strings(&["github"]), false),
        SearchStart::Refused("No search sources enabled".to_string())
    );
    assert_eq!(
        plan_discover_search("rg", true, false, &filters, true),
        SearchStart::Refused("No AI provider configured".to_string())
    );
    assert_eq!(
        plan_discover_search("rg", true, true, &vec![], false),
        SearchStart::Search { query: "rg".to_string(), source_names: strings(&["AI"]) }
    );
}

#[test]
fn discover_search_steps() {
    let names = strings(&["crates.io", "npm"]);
    let p = discover_step_progress(1, &names, 17);
    assert_eq!((p.current_step, p.total_steps, p.found_count), (2, 2, 17));
    assert_eq!(p.step_name, "npm");
    assert_eq!(discover_search_status(0), "No results found");
    assert_eq!(discover_search_status(3), "Found 3 tool(s)");
}

#[test]
fn discover_step_order_and_ai_label() {
    assert_eq!(next_discover_step(0, 3), Some(1));
    assert_eq!(next_discover_step(2, 3), None);
    assert_eq!(next_discover_step(0, 1), None);
    assert_eq!(ai_step_label(0), "AI (0.0s)");
    assert_eq!(ai_step_label(12_345), "AI (12.3s)");
    assert_eq!(ai_step_label(999), "AI (0.9s)");
}

#[test]
fn result_list_scrolls_around_the_selection() {
    assert_eq!(centered_offset(0, 50, 10), 0);
    assert_eq!(centered_offset(20, 50, 10), 15);
    assert_eq!(centered_offset(48, 50, 10), 40);
    assert_eq!(centered_offset(3, 5, 10), 0);
    assert_eq!(centered_offset(3, 0, 10), 0);
    assert_eq!(centered_offset(3, 8, 0), 0);
    assert_eq!(results_title(12, DiscoverSortBy::Stars), " Results [12] (stars↕) ");
}

#[test]
fn page_opening_statuses() {
    let f = hoards::discover::open_page_status;
    assert_eq!(f(None, Ok(())), ("No URL available for this result".to_string(), false));
    assert_eq!(f(Some("https://x.io"), Ok(())), ("Opening https://x.io".to_string(), false));
    assert_eq!(f(Some("https://x.io"), Err("no opener")), ("Failed to open URL: no opener".to_string(), true));
}
