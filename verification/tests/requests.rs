use hoards::requests::{
    build_install_task, bundle_install_targets, discover_install_source, install_targets,
    track_status, uninstall_targets, untracked_bundle_tools, update_targets,
};
use hoards::tools::Tool;
use hoards::types::{DiscoverResult, DiscoverSource, InstallOption, InstallSource};

fn listed(name: &str, installed: bool) -> Tool {
    Tool {
        name: name.to_string(),
        description: None,
        category: None,
        source: InstallSource::Cargo,
        install_command: None,
        binary_name: None,
        is_installed: installed,
        is_favorite: false,
        updated_at: 0,
    }
}

fn names(v: &[&str]) -> Vec<String> {
    v.iter().map(|s| s.to_string()).collect()
}

#[test]
fn install_and_uninstall_targets() {
    let tools = vec![listed("rg", true), listed("fd", false), listed("bat", false)];
    let none: Vec<String> = Vec::new();
    assert_eq!(install_targets(&none, Some(&tools[1]), &tools), names(&["fd"]));
    assert!(install_targets(&none, Some(&tools[0]), &tools).is_empty());
    assert!(install_targets(&none, None, &tools).is_empty());
    assert_eq!(uninstall_targets(&none, Some(&tools[0]), &tools), names(&["rg"]));
    let selected = names(&["bat", "rg", "zoxide", "fd"]);
    assert_eq!(install_targets(&selected, Some(&tools[0]), &tools), names(&["bat", "fd"]));
    assert_eq!(uninstall_targets(&selected, None, &tools), names(&["rg"]));
}

#[test]
fn update_targets_need_an_update() {
    let tools = vec![listed("rg", true), listed("fd", true)];
    let updated = names(&["fd", "jq"]);
    let none: Vec<String> = Vec::new();
    assert_eq!(update_targets(&none, Some(&tools[1]), &updated), names(&["fd"]));
    assert!(update_targets(&none, Some(&tools[0]), &updated).is_empty());
    assert_eq!(update_targets(&names(&["jq", "rg", "fd"]), None, &updated), names(&["jq", "fd"]));
}

#[test]
fn install_tasks_show_a_command() {
    let t = build_install_task("ripgrep", "cargo", None, Some("cargo install ripgrep --locked".to_string()));
    assert_eq!(t.display_command, "cargo install ripgrep --locked");
    assert_eq!((t.name.as_str(), t.source.as_str(), t.version.clone()), ("ripgrep", "cargo", None));
    let t = build_install_task("black", "pip", Some("24.1"), None);
    assert_eq!(t.display_command, "pip install black@24.1");
    assert_eq!(t.version, Some("24.1".to_string()));
    let t = build_install_task("jq", "apt", None, None);
    assert_eq!(t.display_command, "apt install jq");
}

fn found(options: &[DiscoverSource]) -> DiscoverResult {
    DiscoverResult {
        name: "tool".to_string(),
        description: None,
        source: DiscoverSource::GitHub,
        stars: None,
        url: None,
        install_options: options
            .iter()
            .map(|s| InstallOption { source: *s, install_command: "x".to_string() })
            .collect(),
    }
}

#[test]
fn discover_install_sources() {
    assert_eq!(discover_install_source(&found(&[])), Err("No install command available"));
    assert_eq!(discover_install_source(&found(&[DiscoverSource::CratesIo])), Ok("cargo"));
    assert_eq!(discover_install_source(&found(&[DiscoverSource::PyPI, DiscoverSource::Npm])), Ok("pip"));
    assert_eq!(discover_install_source(&found(&[DiscoverSource::Npm])), Ok("npm"));
    assert_eq!(discover_install_source(&found(&[DiscoverSource::Homebrew])), Ok("brew"));
    assert_eq!(discover_install_source(&found(&[DiscoverSource::Apt])), Ok("apt"));
    assert_eq!(
        discover_install_source(&found(&[DiscoverSource::GitHub, DiscoverSource::Apt])),
        Err("Cannot install directly (GitHub/AI source)")
    );
    assert_eq!(
        discover_install_source(&found(&[DiscoverSource::AI])),
        Err("Cannot install directly (GitHub/AI source)")
    );
}

#[test]
fn bundle_requests() {
    let bundle = names(&["rg", "fd", "bat", "jq"]);
    let known = vec![Some(true), Some(false), None, Some(false)];
    assert_eq!(bundle_install_targets(&bundle, &known), names(&["fd", "jq"]));
    assert_eq!(untracked_bundle_tools(&bundle, &known), names(&["bat"]));
    assert_eq!(track_status(0, 0), ("All bundle tools are already tracked".to_string(), false));
    assert_eq!(track_status(3, 2), ("Added 2 tool(s) to Available".to_string(), false));
    assert_eq!(track_status(3, 0), ("Failed to add 3 tool(s)".to_string(), true));
}

#[test]
fn bundle_detail_hints() {
    let h = hoards::requests::bundle_hints;
    assert_eq!(h(&vec![Some(true), Some(true)]), ("All tools installed ✓".to_string(), None));
    assert_eq!(
        h(&vec![Some(true), Some(false), None, None]),
        (
            "Press 'i' to install 3 missing tool(s)".to_string(),
            Some("Press 'a' to add 2 untracked tool(s) to Available".to_string())
        )
    );
    assert_eq!(h(&vec![Some(false)]), ("Press 'i' to install 1 missing tool(s)".to_string(), None));
    assert_eq!(h(&vec![]), ("All tools installed ✓".to_string(), None));
}
