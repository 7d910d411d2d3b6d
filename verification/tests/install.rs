use hoards::install::selection_after_batch;
use hoards::install::{
    add_warning, count_successes, cut_summary, error_summary, summary_text, failure_message, follow_output, install_report, install_step,
    line_names_error, outcome_line, scroll_output, sudo_error_message, sudo_stderr, task_progress,
    tasks_need_sudo, InstallStep, OutputLine,
    OutputLineType, OutputScroll, ProcessPoll,
};
use hoards::install::{plan_action, ActionPlan};
use hoards::pending::{BackgroundOp, InstallResult, InstallTask, PendingAction};

fn line(t: OutputLineType, s: &str) -> OutputLine {
    OutputLine { line_type: t, content: s.to_string() }
}

fn result(name: &str, success: bool, error: Option<&str>) -> InstallResult {
    InstallResult { name: name.to_string(), success, error: error.map(|e| e.to_string()) }
}

#[test]
fn error_lines_are_preferred() {
    let out = vec![
        line(OutputLineType::Stdout, "Compiling foo"),
        line(OutputLineType::Stderr, "warning: unused"),
        line(OutputLineType::Stderr, "ERROR: could not compile"),
        line(OutputLineType::Status, "error in status is ignored"),
        line(OutputLineType::Stderr, "Build Failed"),
    ];
    assert_eq!(error_summary(&out), Some("ERROR: could not compile\nBuild Failed".to_string()));
}

#[test]
fn last_stderr_lines_without_errors() {
    let mut out = Vec::new();
    for i in 0..20 {
        out.push(line(OutputLineType::Stderr, &format!("line {}", i)));
    }
    let expected: Vec<String> = (5..20).map(|i| format!("line {}", i)).collect();
    assert_eq!(error_summary(&out), Some(expected.join("\n")));
    assert_eq!(error_summary(&vec![line(OutputLineType::Stdout, "ok")]), None);
}

#[test]
fn last_ten_error_lines_and_long_summaries_are_cut() {
    let mut out = Vec::new();
    for i in 0..12 {
        out.push(line(OutputLineType::Stderr, &format!("error {}", i)));
    }
    let expected: Vec<String> = (2..12).map(|i| format!("error {}", i)).collect();
    assert_eq!(error_summary(&out), Some(expected.join("\n")));
    let long = "error ".to_string() + &"x".repeat(1200);
    let s = error_summary(&vec![line(OutputLineType::Stderr, &long)]).unwrap();
    assert_eq!(s.chars().count(), 1003);
    assert!(s.starts_with("...xxx"));
}

#[test]
fn long_summaries_keep_their_last_thousand_bytes() {
    // Two-byte characters: the last thousand bytes are five hundred of them.
    let text = format!("error: {}", "é".repeat(700));
    assert_eq!(summary_text(&vec![line(OutputLineType::Stderr, &text)]), text);
    assert_eq!(cut_summary(&text), Some(format!("...{}", "é".repeat(500))));
    assert_eq!(cut_summary(""), None);
    assert_eq!(cut_summary("short"), Some("short".to_string()));
    let exact = "e".repeat(1000);
    assert_eq!(cut_summary(&exact), Some(exact.clone()));
}

#[test]
fn error_words() {
    assert!(line_names_error("Segmentation fault: SIGSEGV"));
    assert!(line_names_error("process killed by signal: 9"));
    assert!(line_names_error("Cannot find crate"));
    assert!(!line_names_error("all good"));
}

#[test]
fn output_follows_the_end_when_near_it() {
    assert_eq!(follow_output(5, 30, 0), 5);
    assert_eq!(follow_output(15, 30, 3), 20);
    assert_eq!(follow_output(14, 30, 3), 14);
    assert_eq!(follow_output(2, 30, 3), 2);
    assert_eq!(follow_output(0, 5, 2), 0);
}

#[test]
fn output_scrolling_is_bounded() {
    assert_eq!(scroll_output(0, 10, OutputScroll::LineUp), 0);
    assert_eq!(scroll_output(4, 10, OutputScroll::LineDown), 5);
    assert_eq!(scroll_output(9, 10, OutputScroll::LineDown), 9);
    assert_eq!(scroll_output(3, 30, OutputScroll::PageDown), 13);
    assert_eq!(scroll_output(25, 30, OutputScroll::PageDown), 29);
    assert_eq!(scroll_output(7, 30, OutputScroll::PageUp), 0);
    assert_eq!(scroll_output(7, 30, OutputScroll::WheelUp), 4);
    assert_eq!(scroll_output(28, 30, OutputScroll::WheelDown), 29);
    assert_eq!(scroll_output(3, 0, OutputScroll::WheelDown), 3);
}

#[test]
fn install_steps() {
    assert_eq!(install_step(2, 2, None), InstallStep::Finish);
    assert_eq!(install_step(0, 2, None), InstallStep::Start { current: 0 });
    assert_eq!(install_step(1, 2, Some(ProcessPoll::Running)), InstallStep::Wait { current: 1 });
    assert_eq!(
        install_step(1, 3, Some(ProcessPoll::Exited { success: true })),
        InstallStep::Record { current: 1, success: true, next: 2 }
    );
    assert_eq!(
        install_step(0, 3, Some(ProcessPoll::PollFailed)),
        InstallStep::Record { current: 0, success: false, next: 1 }
    );
}

#[test]
fn outcome_lines_and_messages() {
    let ok = outcome_line("bat", true);
    assert_eq!(ok.line_type, OutputLineType::Status);
    assert_eq!(ok.content, "✓ bat completed");
    let bad = outcome_line("bat", false);
    assert_eq!(bad.line_type, OutputLineType::Stderr);
    assert_eq!(bad.content, "✗ bat failed");
    assert_eq!(
        failure_message(Some(101), Some("boom"), "/tmp/x.log"),
        "Exit code 101: boom\n\nFull log: /tmp/x.log"
    );
    assert_eq!(
        failure_message(None, None, "/tmp/x.log"),
        "Command failed with exit code: unknown\n\nFull log: /tmp/x.log"
    );
    assert_eq!(failure_message(Some(-2), None, "l"), "Command failed with exit code: -2\n\nFull log: l");
}

#[test]
fn sudo_needed_for_apt_and_snap() {
    let task = |s: &str| InstallTask {
        name: "x".to_string(),
        source: s.to_string(),
        version: None,
        display_command: String::new(),
    };
    assert!(!tasks_need_sudo(&vec![task("cargo"), task("pip")]));
    assert!(tasks_need_sudo(&vec![task("cargo"), task("snap")]));
    assert!(tasks_need_sudo(&vec![task("apt")]));
}

#[test]
fn report_of_all_successes() {
    let r = install_report(&vec![result("bat", true, None)], false);
    assert_eq!(r.status, "Successfully installed bat");
    assert!(!r.status_is_error);
    assert!(r.modal.is_none());
    let r = install_report(&vec![result("bat", true, Some("DB sync failed"))], true);
    assert_eq!(r.status, "Successfully updateed bat (warning: DB sync failed)");
    assert!(r.status_is_error);
    let r = install_report(&vec![result("a", true, None), result("b", true, Some("w"))], false);
    assert_eq!(r.status, "Successfully installed 2 tool(s) (1 DB sync warning(s))");
    assert_eq!(count_successes(&vec![result("a", true, None), result("b", false, None)]), 1);
}

#[test]
fn report_of_failures() {
    let r = install_report(&vec![result("a", false, Some("boom")), result("b", false, None)], false);
    assert_eq!(r.status, "Failed to install 2 tool(s)");
    assert!(r.status_is_error);
    assert_eq!(
        r.modal,
        Some(("Failed to install".to_string(), "• a: boom\n• b: Unknown error".to_string()))
    );
    let r = install_report(&vec![result("a", true, None), result("b", false, Some("x"))], true);
    assert_eq!(r.status, "Updateded 1, 1 failed");
    assert_eq!(
        r.modal,
        Some(("Partial update failure".to_string(), "Succeeded: 1\nFailed: 1\n\n• b: x".to_string()))
    );
}

#[test]
fn sudo_prompt_lines_are_dropped() {
    let stderr = "  [sudo] password for bob: \nE: Unable to locate package foo\nSorry, try again.\nbob: password for nothing\nE: done  \n";
    assert_eq!(sudo_stderr(stderr), "E: Unable to locate package foo\nSorry, try again.\nE: done");
    assert_eq!(sudo_stderr("[sudo] password for bob:"), "");
    assert_eq!(sudo_stderr(""), "");
}

#[test]
fn sudo_error_messages() {
    assert_eq!(sudo_error_message("", Some(100)), "Exit code: 100");
    assert_eq!(sudo_error_message("", None), "Exit code: -1");
    assert_eq!(sudo_error_message("", Some(-9)), "Exit code: -9");
    assert_eq!(sudo_error_message("E: broken", Some(1)), "E: broken");
    let exact = "x".repeat(500);
    assert_eq!(sudo_error_message(&exact, Some(1)), exact);
    let long = "y".repeat(501);
    assert_eq!(sudo_error_message(&long, Some(1)), format!("{}...", "y".repeat(500)));
    // 250 two-byte characters are 500 bytes; the cut keeps all of them.
    let wide = format!("{}tail", "é".repeat(250));
    assert_eq!(sudo_error_message(&wide, None), format!("{}...", "é".repeat(250)));
}

fn task(name: &str, source: &str) -> InstallTask {
    InstallTask {
        name: name.to_string(),
        source: source.to_string(),
        version: None,
        display_command: String::new(),
    }
}

#[test]
fn sudo_task_progress() {
    let tasks = vec![task("htop", "apt"), task("jq", "apt"), task("bat", "snap")];
    let p = task_progress(&tasks, &vec![], false);
    assert_eq!((p.current_step, p.total_steps, p.found_count), (1, 3, 0));
    assert_eq!(p.step_name, "Installing htop...");
    let done = vec![result("htop", true, None), result("jq", false, Some("x"))];
    let p = task_progress(&tasks, &done, true);
    assert_eq!((p.current_step, p.total_steps, p.found_count), (3, 3, 1));
    assert_eq!(p.step_name, "Updating bat...");
}

#[test]
fn warnings_are_joined() {
    assert_eq!(add_warning(None, "GitHub sync failed: x"), "GitHub sync failed: x");
    assert_eq!(
        add_warning(Some("DB sync failed: y".to_string()), "GitHub sync failed: x"),
        "DB sync failed: y; GitHub sync failed: x"
    );
}

#[test]
fn confirmed_actions_are_planned() {
    let cargo = vec![task("rg", "cargo"), task("fd", "cargo")];
    match plan_action(PendingAction::Install(cargo.clone())) {
        ActionPlan::Run(op) => assert_eq!(
            op,
            BackgroundOp::ExecuteInstall { tasks: cargo.clone(), current: 0, results: vec![] }
        ),
        other => panic!("unexpected plan {:?}", other),
    }
    match plan_action(PendingAction::Update(cargo.clone())) {
        ActionPlan::Run(op) => assert_eq!(
            op,
            BackgroundOp::ExecuteUpdate { tasks: cargo.clone(), current: 0, results: vec![] }
        ),
        other => panic!("unexpected plan {:?}", other),
    }
    let mixed = vec![task("rg", "cargo"), task("htop", "apt")];
    match plan_action(PendingAction::Update(mixed.clone())) {
        ActionPlan::AskPassword { tasks, is_update } => {
            assert_eq!(tasks, mixed);
            assert!(is_update);
        }
        other => panic!("unexpected plan {:?}", other),
    }
    match plan_action(PendingAction::DiscoverInstall(task("bat", "snap"))) {
        ActionPlan::AskPassword { tasks, is_update } => {
            assert_eq!(tasks, vec![task("bat", "snap")]);
            assert!(!is_update);
        }
        other => panic!("unexpected plan {:?}", other),
    }
    match plan_action(PendingAction::Uninstall(vec!["rg".to_string()])) {
        ActionPlan::Uninstall { status } => {
            assert_eq!(status, "Uninstall rg - use CLI: hoards uninstall rg")
        }
        other => panic!("unexpected plan {:?}", other),
    }
    match plan_action(PendingAction::Uninstall(vec!["rg".to_string(), "fd".to_string()])) {
        ActionPlan::Uninstall { status } => {
            assert_eq!(status, "Uninstall 2 tools - use CLI for batch uninstall")
        }
        other => panic!("unexpected plan {:?}", other),
    }
}

#[test]
fn only_succeeded_tools_leave_the_selection() {
    let selected: Vec<String> = ["rg", "fd", "bat", "jq"].iter().map(|s| s.to_string()).collect();
    let results = vec![
        result("rg", true, None),
        result("fd", false, Some("network down")),
        result("jq", true, None),
        result("zoxide", true, None),
    ];
    assert_eq!(selection_after_batch(&selected, &results), vec!["fd".to_string(), "bat".to_string()]);
    assert_eq!(selection_after_batch(&selected, &vec![]), selected);
    assert_eq!(selection_after_batch(&vec![], &results), Vec::<String>::new());
}
