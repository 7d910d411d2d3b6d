//! Asking the AI provider about a failed install: when it can be asked,
//! the part of the install log it is shown, and the question put to it.

use vstd::prelude::*;
use crate::install::{join_from, join_lines, views};
use crate::text::{decimal, lines, split_lines, u64_to_string, usize_to_string};

verus! {

/// Most log lines shown to the AI provider; older ones are dropped.
pub const MAX_LOG_LINES: usize = 200;

/// Whether the last failure can be analysed.
#[derive(Debug, Clone, PartialEq, Eq)]
pub enum AnalysisCheck {
    /// Nothing to analyse, or no provider: a warning.
    Warn(String),
    /// The log or the configuration cannot be read: an error.
    Fail(String),
    /// Start the analysis.
    Start,
}

/// Whether the last failure can be analysed: there must be a failure with
/// a log that still exists, and a configured AI provider. `log` is the
/// failure's log file, `config` whether a provider is set, or why the
/// configuration could not be read.
pub open spec fn spec_analysis_check(
    log: Option<Seq<char>>,
    log_exists: bool,
    config: Result<bool, Seq<char>>,
) -> Result<Option<Seq<char>>, Seq<char>> {
    match log {
        None => Ok(Some("No recent install failure to analyze"@)),
        Some(path) => if !log_exists {
            Err("Log file not found: "@ + path)
        } else {
            match config {
                Ok(false) => Ok(Some("AI not configured. Run 'hoards config' to set up AI."@)),
                Err(e) => Err("Failed to load config: "@ + e),
                Ok(true) => Ok(None),
            }
        },
    }
}

/// A check as values: `Ok(Some(warning))`, `Err(error)`, or `Ok(None)` to
/// start.
pub open spec fn check_view(c: AnalysisCheck) -> Result<Option<Seq<char>>, Seq<char>> {
    match c {
        AnalysisCheck::Warn(w) => Ok(Some(w@)),
        AnalysisCheck::Fail(e) => Err(e@),
        AnalysisCheck::Start => Ok(None),
    }
}

/// Whether the last failure can be analysed (see `spec_analysis_check`).
pub fn analysis_check(log: Option<&str>, log_exists: bool, config: Result<bool, &str>) -> (r: AnalysisCheck)
    ensures
        check_view(r) == spec_analysis_check(
            match log {
                Some(l) => Some(l@),
                None => None,
            },
            log_exists,
            match config {
                Ok(b) => Ok(b),
                Err(e) => Err(e@),
            },
        ),
{
    match log {
        None => AnalysisCheck::Warn(String::from_str("No recent install failure to analyze")),
        Some(path) => {
            if !log_exists {
                let mut t = String::from_str("Log file not found: ");
                t.append(path);
                return AnalysisCheck::Fail(t);
            }
            match config {
                Ok(false) => AnalysisCheck::Warn(
                    String::from_str("AI not configured. Run 'hoards config' to set up AI."),
                ),
                Err(e) => {
                    let mut t = String::from_str("Failed to load config: ");
                    t.append(e);
                    AnalysisCheck::Fail(t)
                },
                Ok(true) => AnalysisCheck::Start,
            }
        },
    }
}

/// The part of the log shown to the provider: all of it when it has two
/// hundred lines or fewer, else a note of how many lines were dropped and
/// the last two hundred, joined by newlines.
pub open spec fn spec_truncated_log(content: Seq<char>) -> Seq<char> {
    let ls = lines(content);
    if ls.len() > MAX_LOG_LINES {
        "... ("@ + decimal((ls.len() - MAX_LOG_LINES) as nat) + " lines truncated)\n"@ + join_lines(
            ls.skip(ls.len() - MAX_LOG_LINES),
        )
    } else {
        content
    }
}

/// The part of the log shown to the provider (see `spec_truncated_log`).
pub fn truncated_log(content: &str) -> (r: String)
    ensures
        r@ == spec_truncated_log(content@),
{
    let ls = split_lines(content);
    assert(views(ls@) =~= crate::text::views_of(ls@));
    if ls.len() > MAX_LOG_LINES {
        let from = ls.len() - MAX_LOG_LINES;
        let mut t = String::from_str("... (");
        t.append(usize_to_string(from).as_str());
        t.append(" lines truncated)\n");
        t.append(join_from(&ls, from).as_str());
        t
    } else {
        content.to_owned()
    }
}

/// The question put to the provider about a failed install's log.
pub open spec fn spec_analysis_prompt(log: Seq<char>) -> Seq<char> {
    "Analyze this install error log and provide a concise troubleshooting suggestion.\nFocus on:\n1. The root cause of the failure\n2. Specific steps to fix it (missing packages, permissions, etc.)\n3. Alternative approaches if applicable\n\nKeep your response under 300 words and be direct.\n\n=== INSTALL LOG ===\n"@
        + log + "\n=== END LOG ==="@
}

/// The question put to the provider (see `spec_analysis_prompt`).
pub fn analysis_prompt(log: &str) -> (r: String)
    ensures
        r@ == spec_analysis_prompt(log@),
{
    let mut t = String::from_str(
        "Analyze this install error log and provide a concise troubleshooting suggestion.\nFocus on:\n1. The root cause of the failure\n2. Specific steps to fix it (missing packages, permissions, etc.)\n3. Alternative approaches if applicable\n\nKeep your response under 300 words and be direct.\n\n=== INSTALL LOG ===\n",
    );
    t.append(log);
    t.append("\n=== END LOG ===");
    t
}

/// The progress label while the analysis runs, `secs` seconds in.
pub fn analysis_progress_label(secs: u64) -> (r: String)
    ensures
        r@ == "Analyzing error... ("@ + decimal(secs as nat) + "s)"@,
{
    let mut t = String::from_str("Analyzing error... (");
    t.append(u64_to_string(secs).as_str());
    t.append("s)");
    t
}

} // verus!
