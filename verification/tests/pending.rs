use hoards::pending::{BackgroundOp, InstallTask, PendingAction};

fn task(name: &str) -> InstallTask {
    InstallTask {
        name: name.to_string(),
        source: "cargo".to_string(),
        version: None,
        display_command: format!("cargo install {}", name),
    }
}

#[test]
fn confirmation_questions() {
    assert_eq!(PendingAction::Install(vec![task("ripgrep")]).description(), "Install ripgrep?");
    assert_eq!(
        PendingAction::Install(vec![task("a"), task("b"), task("c")]).description(),
        "Install 3 tools?"
    );
    assert_eq!(
        PendingAction::Uninstall(vec!["bat".to_string(), "fd".to_string()]).description(),
        "Uninstall 2 tools?"
    );
    assert_eq!(PendingAction::Update(vec![task("bat")]).description(), "Update bat?");
    assert_eq!(PendingAction::DiscoverInstall(task("jq")).description(), "Install jq?");
}

#[test]
fn tool_names_and_tasks() {
    let a = PendingAction::Update(vec![task("a"), task("b")]);
    assert_eq!(a.tool_names(), vec!["a", "b"]);
    assert_eq!(a.install_tasks().unwrap().len(), 2);
    let u = PendingAction::Uninstall(vec!["x".to_string()]);
    assert_eq!(u.tool_names(), vec!["x"]);
    assert!(u.install_tasks().is_none());
    let d = PendingAction::DiscoverInstall(task("jq"));
    assert_eq!(d.install_tasks().unwrap()[0].name, "jq");
}

#[test]
fn background_titles() {
    assert_eq!(BackgroundOp::CheckUpdates { step: 0 }.title(), "Checking for Updates");
    assert_eq!(
        BackgroundOp::ExecuteUpdate { tasks: Vec::new(), current: 0, results: Vec::new() }.title(),
        "Updating"
    );
    assert_eq!(
        BackgroundOp::DiscoverSearch { query: String::new(), step: 0, source_names: Vec::new() }.title(),
        "Searching"
    );
}
