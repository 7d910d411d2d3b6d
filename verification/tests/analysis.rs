use hoards::analysis::{
    analysis_check, analysis_progress_label, analysis_prompt, truncated_log, AnalysisCheck,
};

#[test]
fn when_a_failure_can_be_analysed() {
    assert_eq!(
        analysis_check(None, false, Ok(true)),
        AnalysisCheck::Warn("No recent install failure to analyze".to_string())
    );
    assert_eq!(
        analysis_check(Some("/tmp/x.log"), false, Ok(true)),
        AnalysisCheck::Fail("Log file not found: /tmp/x.log".to_string())
    );
    assert_eq!(
        analysis_check(Some("/tmp/x.log"), true, Ok(false)),
        AnalysisCheck::Warn("AI not configured. Run 'hoards config' to set up AI.".to_string())
    );
    assert_eq!(
        analysis_check(Some("/tmp/x.log"), true, Err("bad toml")),
        AnalysisCheck::Fail("Failed to load config: bad toml".to_string())
    );
    assert_eq!(analysis_check(Some("/tmp/x.log"), true, Ok(true)), AnalysisCheck::Start);
}

#[test]
fn long_logs_keep_their_end() {
    assert_eq!(truncated_log("a\nb\n"), "a\nb\n");
    let long: Vec<String> = (0..205).map(|i| format!("l{}", i)).collect();
    let text = long.join("\n");
    let kept = truncated_log(&text);
    assert!(kept.starts_with("... (5 lines truncated)\nl5\nl6"));
    assert!(kept.ends_with("l203\nl204"));
    assert_eq!(kept.lines().count(), 201);
}

#[test]
fn analysis_question_and_progress() {
    let p = analysis_prompt("E: boom");
    assert!(p.starts_with("Analyze this install error log"));
    assert!(p.ends_with("=== INSTALL LOG ===\nE: boom\n=== END LOG ==="));
    assert!(p.contains("Keep your response under 300 words and be direct."));
    assert_eq!(analysis_progress_label(12), "Analyzing error... (12s)");
}
