use hoards::updates::{lookup_outcome, LookupOutcome};
use hoards::updates::{
    apt_to_cargo_name, apt_to_npm_name, apt_to_pip_name, filter_migration_candidates,
    next_registry_lookup, next_update_check, update_check_progress, update_check_status,
    upgrade_from_lookup, watched_updates, CrossSourceUpgrade, Registry, Update,
};

#[test]
fn known_apt_names() {
    assert_eq!(apt_to_cargo_name("dust"), Some("du-dust"));
    assert_eq!(apt_to_cargo_name("exa"), Some("eza"));
    assert_eq!(apt_to_cargo_name("tldr"), Some("tealdeer"));
    assert_eq!(apt_to_cargo_name("vim"), None);
    assert_eq!(apt_to_pip_name("yt-dlp"), Some("yt-dlp"));
    assert_eq!(apt_to_pip_name("bat"), None);
    assert_eq!(apt_to_npm_name("typescript"), Some("typescript"));
    assert_eq!(apt_to_npm_name("ruff"), None);
}

#[test]
fn registry_lookups_in_order() {
    assert_eq!(next_registry_lookup("ripgrep", "apt", None), Some((Registry::CratesIo, "ripgrep")));
    assert_eq!(next_registry_lookup("ripgrep", "apt", Some(Registry::CratesIo)), None);
    assert_eq!(next_registry_lookup("ruff", "snap", None), Some((Registry::PyPI, "ruff")));
    assert_eq!(next_registry_lookup("eslint", "apt", Some(Registry::CratesIo)), Some((Registry::Npm, "eslint")));
    assert_eq!(next_registry_lookup("ripgrep", "cargo", None), None);
    assert_eq!(Registry::PyPI.source(), "pip");
}

#[test]
fn upgrades_only_when_newer() {
    let u = upgrade_from_lookup("ripgrep", "13.0.0", "apt", Registry::CratesIo, Some("14.1.0".to_string()))
        .unwrap();
    assert_eq!(u.better_version, "14.1.0");
    assert_eq!(u.better_source, "cargo");
    assert_eq!(u.current_source, "apt");
    assert!(upgrade_from_lookup("ripgrep", "14.1.0", "apt", Registry::CratesIo, Some("14.1.0".to_string()))
        .is_none());
    assert!(upgrade_from_lookup("ripgrep", "13.0.0", "apt", Registry::CratesIo, None).is_none());
}

fn upgrade(name: &str, from: &str, to: &str) -> CrossSourceUpgrade {
    CrossSourceUpgrade {
        name: name.to_string(),
        current_version: "1.0".to_string(),
        current_source: from.to_string(),
        better_version: "2.0".to_string(),
        better_source: to.to_string(),
    }
}

#[test]
fn migration_filters() {
    let all = || vec![upgrade("a", "apt", "cargo"), upgrade("b", "snap", "pip"), upgrade("c", "apt", "pip")];
    let names = |v: Vec<CrossSourceUpgrade>| v.into_iter().map(|u| u.name).collect::<Vec<_>>();
    assert_eq!(names(filter_migration_candidates(all(), None, None)), vec!["a", "b", "c"]);
    assert_eq!(names(filter_migration_candidates(all(), Some("apt"), None)), vec!["a", "c"]);
    assert_eq!(names(filter_migration_candidates(all(), Some("apt"), Some("pip"))), vec!["c"]);
    assert_eq!(names(filter_migration_candidates(all(), None, Some("npm"))), Vec::<String>::new());
}

fn upd(name: &str) -> Update {
    Update {
        name: name.to_string(),
        current: "1.0".to_string(),
        latest: "2.0".to_string(),
        source: "cargo".to_string(),
    }
}

#[test]
fn update_check_steps() {
    let p = update_check_progress(0, 0);
    assert_eq!((p.current_step, p.total_steps, p.found_count), (1, 5, 0));
    assert_eq!(p.step_name, "Cargo (Rust)");
    let p = update_check_progress(4, 7);
    assert_eq!((p.current_step, p.total_steps, p.found_count), (5, 5, 7));
    assert_eq!(p.step_name, "Homebrew");
    assert_eq!(next_update_check(0), Some(1));
    assert_eq!(next_update_check(3), Some(4));
    assert_eq!(next_update_check(4), None);
    assert_eq!(update_check_status(0), "All tools are up to date!");
    assert_eq!(update_check_status(1), "1 update(s) available");
    assert_eq!(update_check_status(12), "12 update(s) available");
}

#[test]
fn only_updates_of_listed_tools_are_kept() {
    let watched = vec!["ripgrep".to_string(), "bat".to_string()];
    let kept = watched_updates(vec![upd("bat"), upd("fd"), upd("ripgrep"), upd("bat")], &watched);
    let names: Vec<&str> = kept.iter().map(|u| u.name.as_str()).collect();
    assert_eq!(names, vec!["bat", "ripgrep", "bat"]);
    assert!(watched_updates(vec![upd("fd")], &watched).is_empty());
    assert!(watched_updates(vec![upd("fd")], &vec![]).is_empty());
}

fn check_with_answers(tools: &[(&str, &str, &str)], answer: &dyn Fn(Registry, &str) -> Option<String>) -> Vec<CrossSourceUpgrade> {
    let mut found = Vec::new();
    for (name, version, source) in tools {
        let mut next = next_registry_lookup(name, source, None);
        while let Some((registry, package)) = next {
            match lookup_outcome(name, version, source, registry, answer(registry, package)) {
                LookupOutcome::Found(u) => {
                    found.push(u);
                    next = None;
                }
                LookupOutcome::Next(n) => next = n,
            }
        }
    }
    found
}

#[test]
fn no_migration_candidates_from_cargo() {
    let tools = [("ripgrep", "13.0.0", "apt"), ("ripgrep", "13.0.0", "cargo"), ("httpie", "1.0", "snap")];
    let answer = |r: Registry, p: &str| match (r, p) {
        (Registry::CratesIo, "ripgrep") => Some("14.1.0".to_string()),
        (Registry::PyPI, "httpie") => Some("3.2.1".to_string()),
        _ => None,
    };
    let all = check_with_answers(&tools, &answer);
    let names = |v: &Vec<CrossSourceUpgrade>| v.iter().map(|u| (u.name.clone(), u.current_source.clone(), u.better_source.clone())).collect::<Vec<_>>();
    assert_eq!(
        names(&all),
        vec![
            ("ripgrep".to_string(), "apt".to_string(), "cargo".to_string()),
            ("httpie".to_string(), "snap".to_string(), "pip".to_string())
        ]
    );
    assert!(filter_migration_candidates(all, Some("cargo"), None).is_empty());
    assert!(filter_migration_candidates(check_with_answers(&tools, &answer), None, Some("apt")).is_empty());
    assert_eq!(filter_migration_candidates(check_with_answers(&tools, &answer), Some("snap"), None).len(), 1);
}
