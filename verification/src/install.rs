//! Running installs and updates one task at a time: the live output pane,
//! the step-by-step progress, and the error summary of a failed command.

use vstd::prelude::*;
use vstd::utf8::{decode_utf8, encode_utf8, encode_utf8_decode_utf8, is_char_boundary};
use vstd::string::StringSliceAdditionalSpecFns;
use crate::pending::{BackgroundOp, InstallResult, InstallTask, LoadingProgress, PendingAction};
use crate::text::{
    chars_contain, chars_of, contains_seq, decimal, lines, lowercase, split_lines, str_eq,
    to_lowercase, trim, trim_str, usize_to_string, views_of,
};

verus! {

/// Where a line of command output came from.
#[derive(Debug, Clone, Copy, PartialEq, Eq, Structural)]
pub enum OutputLineType {
    Stdout,
    Stderr,
    /// A line written by the TUI itself.
    Status,
}

/// A line of the install output pane.
#[derive(Debug, Clone)]
pub struct OutputLine {
    pub line_type: OutputLineType,
    pub content: String,
}

/// Most error lines kept in a summary.
pub const MAX_ERROR_LINES: usize = 10;

/// Most stderr lines kept when no line names an error.
pub const MAX_STDERR_LINES: usize = 15;

/// Most bytes of a summary; longer ones keep their end.
pub const MAX_SUMMARY_BYTES: usize = 1000;

/// The stderr lines of the output, in order.
pub open spec fn stderr_lines(out: Seq<OutputLine>) -> Seq<Seq<char>>
    decreases out.len(),
{
    if out.len() == 0 {
        seq![]
    } else if out.last().line_type == OutputLineType::Stderr {
        stderr_lines(out.drop_last()).push(out.last().content@)
    } else {
        stderr_lines(out.drop_last())
    }
}

/// The line, in lower case, mentions an error.
pub open spec fn names_error(line: Seq<char>) -> bool {
    let l = lowercase(line);
    ||| contains_seq(l, "error"@)
    ||| contains_seq(l, "failed"@)
    ||| contains_seq(l, "cannot"@)
    ||| contains_seq(l, "could not"@)
    ||| contains_seq(l, "sigsegv"@)
    ||| contains_seq(l, "signal:"@)
}

/// The lines that mention an error, in order.
pub open spec fn error_lines(s: Seq<Seq<char>>) -> Seq<Seq<char>>
    decreases s.len(),
{
    if s.len() == 0 {
        s
    } else if names_error(s.last()) {
        error_lines(s.drop_last()).push(s.last())
    } else {
        error_lines(s.drop_last())
    }
}

/// The last `n` entries of `s`, or all of them when there are fewer.
pub open spec fn last_n<T>(s: Seq<T>, n: nat) -> Seq<T> {
    if s.len() <= n {
        s
    } else {
        s.skip(s.len() - n)
    }
}

/// The lines joined by newlines.
pub open spec fn join_lines(s: Seq<Seq<char>>) -> Seq<char>
    decreases s.len(),
{
    if s.len() == 0 {
        seq![]
    } else if s.len() == 1 {
        s[0]
    } else {
        join_lines(s.drop_last()) + seq!['\n'] + s.last()
    }
}

/// The stderr lines that matter in a failed command's output: the last
/// ten that mention an error, else the last fifteen, joined by newlines.
pub open spec fn spec_summary_text(out: Seq<OutputLine>) -> Seq<char> {
    let all = stderr_lines(out);
    let errs = error_lines(all);
    if errs.len() > 0 {
        join_lines(last_n(errs, MAX_ERROR_LINES as nat))
    } else {
        join_lines(last_n(all, MAX_STDERR_LINES as nat))
    }
}

/// A summary text as it is shown: `None` when empty; when its UTF-8 form
/// is longer than a thousand bytes, "..." and its last thousand bytes.
pub open spec fn spec_cut_summary(text: Seq<char>) -> Option<Seq<char>> {
    let bytes = encode_utf8(text);
    if text.len() == 0 {
        None
    } else if bytes.len() > MAX_SUMMARY_BYTES {
        Some("..."@ + decode_utf8(bytes.skip(bytes.len() - MAX_SUMMARY_BYTES)))
    } else {
        Some(text)
    }
}

/// Whether the last thousand bytes of the text start a character, as the
/// cut of a long summary needs.
pub open spec fn summary_cut_ok(text: Seq<char>) -> bool {
    let bytes = encode_utf8(text);
    bytes.len() > MAX_SUMMARY_BYTES ==> is_char_boundary(
        bytes,
        bytes.len() - MAX_SUMMARY_BYTES,
    )
}

/// What a failed command printed that matters (see `spec_summary_text`
/// and `spec_cut_summary`).
pub open spec fn spec_error_summary(out: Seq<OutputLine>) -> Option<Seq<char>> {
    spec_cut_summary(spec_summary_text(out))
}

/// An optional string as characters.
pub open spec fn opt_chars(o: Option<String>) -> Option<Seq<char>> {
    match o {
        Some(s) => Some(s@),
        None => None,
    }
}

/// Whether a line mentions an error (see `names_error`).
pub fn line_names_error(line: &str) -> (r: bool)
    ensures
        r == names_error(line@),
{
    let lower = to_lowercase(line);
    let l = chars_of(lower.as_str());
    chars_contain(&l, &chars_of("error")) || chars_contain(&l, &chars_of("failed"))
        || chars_contain(&l, &chars_of("cannot")) || chars_contain(&l, &chars_of("could not"))
        || chars_contain(&l, &chars_of("sigsegv")) || chars_contain(&l, &chars_of("signal:"))
}

/// Joins the lines `s[from..]` with newlines.
pub(crate) fn join_from(s: &Vec<String>, from: usize) -> (r: String)
    requires
        from <= s@.len(),
    ensures
        r@ == join_lines(views(s@).skip(from as int)),
{
    let ghost v = views(s@).skip(from as int);
    let mut out = String::new();
    let mut i = from;
    assert(views(s@).skip(from as int).take(0) =~= Seq::<Seq<char>>::empty());
    while i < s.len()
        invariant
            from <= i <= s@.len(),
            v == views(s@).skip(from as int),
            out@ == join_lines(v.take(i - from)),
        decreases s@.len() - i,
    {
        let ghost t = v.take(i - from + 1);
        assert(t.drop_last() =~= v.take(i - from));
        assert(t.last() == s@[i as int]@);
        if i > from {
            proof {
                reveal_strlit("\n");
            }
            out.append("\n");
            assert(out@ + s@[i as int]@ =~= join_lines(t.drop_last()) + seq!['\n'] + t.last());
        } else {
            assert(t =~= seq![s@[i as int]@]);
        }
        out.append(s[i].as_str());
        i += 1;
    }
    assert(v.take(s@.len() - from) =~= v);
    out
}

/// Characters of each string.
pub open spec fn views(s: Seq<String>) -> Seq<Seq<char>> {
    s.map_values(|x: String| x@)
}

/// The stderr lines that matter in a failed command's output (see
/// `spec_summary_text`).
pub fn summary_text(output: &Vec<OutputLine>) -> (r: String)
    ensures
        r@ == spec_summary_text(output@),
{
    let mut all: Vec<String> = Vec::new();
    let mut errs: Vec<String> = Vec::new();
    let mut i: usize = 0;
    while i < output.len()
        invariant
            i <= output@.len(),
            views(all@) == stderr_lines(output@.take(i as int)),
            views(errs@) == error_lines(views(all@)),
        decreases output@.len() - i,
    {
        let line = &output[i];
        proof {
            assert(output@.take(i + 1).drop_last() =~= output@.take(i as int));
            assert(output@.take(i + 1).last() == *line);
        }
        if line.line_type == OutputLineType::Stderr {
            let ghost before = views(all@);
            let ghost errs_before = views(errs@);
            all.push(line.content.clone());
            assert(views(all@) =~= before.push(line.content@));
            assert(views(all@).drop_last() =~= before);
            if line_names_error(line.content.as_str()) {
                errs.push(line.content.clone());
                assert(views(errs@) =~= errs_before.push(line.content@));
            }
        }
        i += 1;
    }
    assert(output@.take(output@.len() as int) =~= output@);
    if errs.len() > 0 {
        let from = if errs.len() > MAX_ERROR_LINES {
            errs.len() - MAX_ERROR_LINES
        } else {
            0
        };
        assert(views(errs@).skip(from as int) =~= last_n(views(errs@), MAX_ERROR_LINES as nat));
        join_from(&errs, from)
    } else {
        let from = if all.len() > MAX_STDERR_LINES {
            all.len() - MAX_STDERR_LINES
        } else {
            0
        };
        assert(views(all@).skip(from as int) =~= last_n(views(all@), MAX_STDERR_LINES as nat));
        join_from(&all, from)
    }
}

/// A summary text as it is shown (see `spec_cut_summary`); a long one
/// must be cut between two characters.
pub fn cut_summary(text: &str) -> (r: Option<String>)
    requires
        summary_cut_ok(text@),
    ensures
        opt_chars(r) == spec_cut_summary(text@),
{
    broadcast use vstd::utf8::encode_utf8_valid_utf8;

    let n = text.as_bytes().len();
    if text.is_empty() {
        None
    } else if n > MAX_SUMMARY_BYTES {
        let (_, tail) = text.split_at(n - MAX_SUMMARY_BYTES);
        proof {
            encode_utf8_decode_utf8(tail@);
            assert(encode_utf8(text@).skip(n - MAX_SUMMARY_BYTES) =~= encode_utf8(text@).subrange(
                n - MAX_SUMMARY_BYTES,
                n as int,
            ));
        }
        let mut s = String::from_str("...");
        s.append(tail);
        proof {
            reveal_strlit("...");
        }
        Some(s)
    } else {
        Some(text.to_owned())
    }
}

/// The error summary of a failed command's output (see
/// `spec_error_summary`); a long one must be cut between two characters.
pub fn error_summary(output: &Vec<OutputLine>) -> (r: Option<String>)
    requires
        summary_cut_ok(spec_summary_text(output@)),
    ensures
        opt_chars(r) == spec_error_summary(output@),
{
    let text = summary_text(output);
    cut_summary(text.as_str())
}

/// Lines shown at once in the output pane.
pub const VISIBLE_OUTPUT_LINES: usize = 10;

/// Most output lines taken in per tick.
pub const MAX_LINES_PER_TICK: usize = 20;

/// The scroll position after `lines_read` new lines arrived, the output
/// being `len` lines long now: it follows the end (showing the last ten
/// lines) when the view was within two lines of the end before they came,
/// and stays otherwise.
pub fn follow_output(scroll: usize, len: usize, lines_read: usize) -> (r: usize)
    requires
        lines_read <= MAX_LINES_PER_TICK,
    ensures
        lines_read == 0 ==> r == scroll,
        lines_read > 0 && scroll + VISIBLE_OUTPUT_LINES + lines_read + 2 >= len ==> r == (if len
            > VISIBLE_OUTPUT_LINES {
            len - VISIBLE_OUTPUT_LINES
        } else {
            0
        }),
        lines_read > 0 && scroll + VISIBLE_OUTPUT_LINES + lines_read + 2 < len ==> r == scroll,
{
    if lines_read > 0 {
        if scroll >= len.saturating_sub(VISIBLE_OUTPUT_LINES + lines_read + 2) {
            return len.saturating_sub(VISIBLE_OUTPUT_LINES);
        }
    }
    scroll
}

/// A scroll request in the output pane.
#[derive(Debug, Clone, Copy, PartialEq, Eq, Structural)]
pub enum OutputScroll {
    /// `k` or the up arrow.
    LineUp,
    /// `j` or the down arrow.
    LineDown,
    PageUp,
    PageDown,
    /// Mouse wheel up: three lines.
    WheelUp,
    /// Mouse wheel down: three lines.
    WheelDown,
}

/// The scroll position after a request, the output being `len` lines long:
/// up moves never pass the top, down moves never pass the last line.
pub fn scroll_output(scroll: usize, len: usize, request: OutputScroll) -> (r: usize)
    requires
        scroll + 10 <= usize::MAX,
    ensures
        r as int == match request {
            OutputScroll::LineUp => if scroll >= 1 {
                scroll - 1
            } else {
                0
            },
            OutputScroll::PageUp => if scroll >= 10 {
                scroll - 10
            } else {
                0
            },
            OutputScroll::WheelUp => if scroll >= 3 {
                scroll - 3
            } else {
                0
            },
            OutputScroll::LineDown => if len > 0 && scroll < len - 1 {
                scroll + 1
            } else {
                scroll as int
            },
            OutputScroll::PageDown => if len == 0 {
                scroll as int
            } else if scroll + 10 < len - 1 {
                scroll + 10
            } else {
                len - 1
            },
            OutputScroll::WheelDown => if len == 0 {
                scroll as int
            } else if scroll + 3 < len - 1 {
                scroll + 3
            } else {
                len - 1
            },
        },
{
    match request {
        OutputScroll::LineUp => scroll.saturating_sub(1),
        OutputScroll::PageUp => scroll.saturating_sub(10),
        OutputScroll::WheelUp => scroll.saturating_sub(3),
        OutputScroll::LineDown => {
            if len > 0 {
                let max_scroll = len - 1;
                if scroll < max_scroll {
                    return scroll + 1;
                }
            }
            scroll
        },
        OutputScroll::PageDown => {
            if len == 0 {
                scroll
            } else {
                let max_scroll = len - 1;
                if scroll + 10 < max_scroll {
                    scroll + 10
                } else {
                    max_scroll
                }
            }
        },
        OutputScroll::WheelDown => {
            if len == 0 {
                scroll
            } else {
                let max_scroll = len - 1;
                if scroll + 3 < max_scroll {
                    scroll + 3
                } else {
                    max_scroll
                }
            }
        },
    }
}

/// What the running command's process reported when polled.
#[derive(Debug, Clone, Copy, PartialEq, Eq, Structural)]
pub enum ProcessPoll {
    /// Still running.
    Running,
    /// Exited, successfully or not.
    Exited { success: bool },
    /// Polling it failed.
    PollFailed,
}

/// What one tick of the install loop does.
#[derive(Debug, Clone, Copy, PartialEq, Eq, Structural)]
pub enum InstallStep {
    /// Every task ran: the results are reported.
    Finish,
    /// No command runs yet for task `current`: start it.
    Start { current: usize },
    /// The command of task `current` still runs: poll again next tick.
    Wait { current: usize },
    /// Task `current` ended with the given outcome; task `next` comes next.
    Record { current: usize, success: bool, next: usize },
}

/// The install loop's decision for task `current` of `total`, given what
/// polling the running command (if one runs) reported.
pub fn install_step(current: usize, total: usize, poll: Option<ProcessPoll>) -> (r: InstallStep)
    ensures
        current >= total ==> r == InstallStep::Finish,
        current < total ==> r == match poll {
            None => InstallStep::Start { current },
            Some(ProcessPoll::Running) => InstallStep::Wait { current },
            Some(ProcessPoll::Exited { success }) => InstallStep::Record {
                current,
                success,
                next: (current + 1) as usize,
            },
            Some(ProcessPoll::PollFailed) => InstallStep::Record {
                current,
                success: false,
                next: (current + 1) as usize,
            },
        },
{
    if current >= total {
        return InstallStep::Finish;
    }
    match poll {
        None => InstallStep::Start { current },
        Some(ProcessPoll::Running) => InstallStep::Wait { current },
        Some(ProcessPoll::Exited { success }) => InstallStep::Record {
            current,
            success,
            next: current + 1,
        },
        Some(ProcessPoll::PollFailed) => InstallStep::Record {
            current,
            success: false,
            next: current + 1,
        },
    }
}

/// Number of successful results.
pub open spec fn spec_successes(results: Seq<InstallResult>) -> nat
    decreases results.len(),
{
    if results.len() == 0 {
        0
    } else {
        spec_successes(results.drop_last()) + if results.last().success {
            1nat
        } else {
            0nat
        }
    }
}

/// How many results succeeded.
pub fn count_successes(results: &Vec<InstallResult>) -> (r: usize)
    ensures
        r == spec_successes(results@),
{
    let mut n: usize = 0;
    let mut i: usize = 0;
    while i < results.len()
        invariant
            i <= results@.len(),
            n == spec_successes(results@.take(i as int)),
            n <= i,
        decreases results@.len() - i,
    {
        assert(results@.take(i + 1).drop_last() =~= results@.take(i as int));
        if results[i].success {
            n += 1;
        }
        i += 1;
    }
    assert(results@.take(results@.len() as int) =~= results@);
    n
}

/// The line added to the output when a task ends.
pub open spec fn spec_outcome_line(name: Seq<char>, success: bool) -> OutputLineType {
    if success {
        OutputLineType::Status
    } else {
        OutputLineType::Stderr
    }
}

/// "✓ <name> completed" as a status line, or "✗ <name> failed" as an error
/// line.
pub fn outcome_line(name: &str, success: bool) -> (r: OutputLine)
    ensures
        r.line_type == spec_outcome_line(name@, success),
        success ==> r.content@ == "✓ "@ + name@ + " completed"@,
        !success ==> r.content@ == "✗ "@ + name@ + " failed"@,
{
    if success {
        let mut s = String::from_str("✓ ");
        s.append(name);
        s.append(" completed");
        OutputLine { line_type: OutputLineType::Status, content: s }
    } else {
        let mut s = String::from_str("✗ ");
        s.append(name);
        s.append(" failed");
        OutputLine { line_type: OutputLineType::Stderr, content: s }
    }
}

/// The decimal form of an integer, with a minus sign when negative.
pub open spec fn signed_decimal(i: int) -> Seq<char> {
    if i < 0 {
        seq!['-'] + decimal((-i) as nat)
    } else {
        decimal(i as nat)
    }
}

/// The exit code as text, "unknown" when the process gave none.
pub open spec fn exit_code_text(code: Option<i32>) -> Seq<char> {
    match code {
        Some(c) => signed_decimal(c as int),
        None => "unknown"@,
    }
}

fn exit_code_string(code: Option<i32>) -> (r: String)
    ensures
        r@ == exit_code_text(code),
{
    match code {
        Some(c) => {
            if c < 0 {
                let magnitude: u64 = (0 - (c as i64)) as u64;
                let digits = usize_to_string(magnitude as usize);
                let mut s = String::from_str("-");
                s.append(digits.as_str());
                proof {
                    reveal_strlit("-");
                    assert(s@ =~= seq!['-'] + decimal((-(c as int)) as nat));
                }
                s
            } else {
                usize_to_string(c as usize)
            }
        },
        None => String::from_str("unknown"),
    }
}

/// The error recorded for a failed command: its exit code, the error
/// summary when there is one, and where the full log is.
pub open spec fn spec_failure_message(
    code: Option<i32>,
    summary: Option<Seq<char>>,
    log_path: Seq<char>,
) -> Seq<char> {
    match summary {
        Some(s) => "Exit code "@ + exit_code_text(code) + ": "@ + s + "\n\nFull log: "@ + log_path,
        None => "Command failed with exit code: "@ + exit_code_text(code) + "\n\nFull log: "@
            + log_path,
    }
}

/// The error message of a failed install (see `spec_failure_message`).
pub fn failure_message(code: Option<i32>, summary: Option<&str>, log_path: &str) -> (r: String)
    ensures
        r@ == spec_failure_message(
            code,
            match summary {
                Some(s) => Some(s@),
                None => None,
            },
            log_path@,
        ),
{
    let code_text = exit_code_string(code);
    match summary {
        Some(s) => {
            let mut m = String::from_str("Exit code ");
            m.append(code_text.as_str());
            m.append(": ");
            m.append(s);
            m.append("\n\nFull log: ");
            m.append(log_path);
            m
        },
        None => {
            let mut m = String::from_str("Command failed with exit code: ");
            m.append(code_text.as_str());
            m.append("\n\nFull log: ");
            m.append(log_path);
            m
        },
    }
}

/// Whether any task installs through apt or snap, which need sudo.
pub fn tasks_need_sudo(tasks: &Vec<InstallTask>) -> (r: bool)
    ensures
        r == exists|i: int|
            0 <= i < tasks@.len() && ((#[trigger] tasks@[i]).source@ == "apt"@ || tasks@[i].source@
                == "snap"@),
{
    let mut i: usize = 0;
    while i < tasks.len()
        invariant
            i <= tasks@.len(),
            forall|k: int|
                0 <= k < i ==> !((#[trigger] tasks@[k]).source@ == "apt"@ || tasks@[k].source@
                    == "snap"@),
        decreases tasks@.len() - i,
    {
        if str_eq(tasks[i].source.as_str(), "apt") || str_eq(tasks[i].source.as_str(), "snap") {
            return true;
        }
        i += 1;
    }
    false
}

/// How the end of a batch of installs or updates is reported.
pub struct InstallReport {
    /// The status bar message.
    pub status: String,
    /// The status shows as an error.
    pub status_is_error: bool,
    /// Title and text of the error modal, when some task failed.
    pub modal: Option<(String, String)>,
}

/// Number of successful results that still carry a warning.
pub open spec fn spec_warnings(results: Seq<InstallResult>) -> nat
    decreases results.len(),
{
    if results.len() == 0 {
        0
    } else {
        spec_warnings(results.drop_last()) + if results.last().success
            && results.last().error is Some {
            1nat
        } else {
            0nat
        }
    }
}

/// "• <name>: <error>" for each failed result, in order.
pub open spec fn failure_details(results: Seq<InstallResult>) -> Seq<Seq<char>>
    decreases results.len(),
{
    if results.len() == 0 {
        seq![]
    } else if !results.last().success {
        failure_details(results.drop_last()).push(
            "• "@ + results.last().name@ + ": "@ + match results.last().error {
                Some(e) => e@,
                None => "Unknown error"@,
            },
        )
    } else {
        failure_details(results.drop_last())
    }
}

/// "install" or "update".
pub open spec fn action_word(is_update: bool) -> Seq<char> {
    if is_update {
        "update"@
    } else {
        "install"@
    }
}

/// The status message of a batch in which nothing failed.
pub open spec fn success_status(results: Seq<InstallResult>, is_update: bool) -> Seq<char> {
    let warnings = spec_warnings(results);
    if results.len() == 1 {
        "Successfully "@ + action_word(is_update) + "ed "@ + results[0].name@ + match results[0].error {
            Some(w) => " (warning: "@ + w@ + ")"@,
            None => seq![],
        }
    } else {
        "Successfully "@ + action_word(is_update) + "ed "@ + decimal(spec_successes(results))
            + " tool(s)"@ + if warnings > 0 {
            " ("@ + decimal(warnings) + " DB sync warning(s))"@
        } else {
            seq![]
        }
    }
}

/// The report of a finished batch: success with any database warnings;
/// total failure with the details of each failure; or partial failure
/// with the counts and details.
pub open spec fn spec_install_report(
    results: Seq<InstallResult>,
    is_update: bool,
) -> (Seq<char>, bool, Option<(Seq<char>, Seq<char>)>) {
    let ok = spec_successes(results);
    let failed = results.len() - ok;
    let details = join_lines(failure_details(results));
    if failed == 0 {
        (success_status(results, is_update), spec_warnings(results) > 0, None)
    } else if ok == 0 {
        (
            "Failed to "@ + action_word(is_update) + " "@ + decimal(failed as nat) + " tool(s)"@,
            true,
            Some(("Failed to "@ + action_word(is_update), details)),
        )
    } else {
        (
            (if is_update {
                "Updated"@
            } else {
                "Installed"@
            }) + "ed "@ + decimal(ok) + ", "@ + decimal(failed as nat) + " failed"@,
            true,
            Some(
                (
                    "Partial "@ + action_word(is_update) + " failure"@,
                    "Succeeded: "@ + decimal(ok) + "\nFailed: "@ + decimal(failed as nat) + "\n\n"@
                        + details,
                ),
            ),
        )
    }
}

/// The report as values.
pub open spec fn report_view(r: InstallReport) -> (Seq<char>, bool, Option<(Seq<char>, Seq<char>)>) {
    (
        r.status@,
        r.status_is_error,
        match r.modal {
            Some((t, m)) => Some((t@, m@)),
            None => None,
        },
    )
}

proof fn lemma_successes_bound(results: Seq<InstallResult>)
    ensures
        spec_successes(results) <= results.len(),
        spec_warnings(results) <= spec_successes(results),
    decreases results.len(),
{
    if results.len() > 0 {
        lemma_successes_bound(results.drop_last());
    }
}

fn action_text(is_update: bool) -> (r: &'static str)
    ensures
        r@ == action_word(is_update),
{
    if is_update {
        "update"
    } else {
        "install"
    }
}

/// Details of the failed results, one per line (see `failure_details`).
fn failure_lines(results: &Vec<InstallResult>) -> (r: Vec<String>)
    ensures
        views(r@) == failure_details(results@),
{
    let mut out: Vec<String> = Vec::new();
    let mut i: usize = 0;
    while i < results.len()
        invariant
            i <= results@.len(),
            views(out@) == failure_details(results@.take(i as int)),
        decreases results@.len() - i,
    {
        assert(results@.take(i + 1).drop_last() =~= results@.take(i as int));
        assert(results@.take(i + 1).last() == results@[i as int]);
        let r = &results[i];
        if !r.success {
            let mut line = String::from_str("• ");
            line.append(r.name.as_str());
            line.append(": ");
            match &r.error {
                Some(e) => line.append(e.as_str()),
                None => line.append("Unknown error"),
            }
            let ghost before = out@;
            out.push(line);
            assert(views(out@) =~= views(before).push(line@));
        }
        i += 1;
    }
    assert(results@.take(results@.len() as int) =~= results@);
    out
}

/// The report of a finished batch of installs (or updates).
pub fn install_report(results: &Vec<InstallResult>, is_update: bool) -> (r: InstallReport)
    ensures
        report_view(r) == spec_install_report(results@, is_update),
{
    proof {
        lemma_successes_bound(results@);
    }
    let ok = count_successes(results);
    let failed = results.len() - ok;
    let action = action_text(is_update);
    let mut warnings: usize = 0;
    let mut i: usize = 0;
    while i < results.len()
        invariant
            i <= results@.len(),
            warnings == spec_warnings(results@.take(i as int)),
            warnings <= i,
        decreases results@.len() - i,
    {
        assert(results@.take(i + 1).drop_last() =~= results@.take(i as int));
        if results[i].success && results[i].error.is_some() {
            warnings += 1;
        }
        i += 1;
    }
    assert(results@.take(results@.len() as int) =~= results@);
    if failed == 0 {
        let mut msg = String::from_str("Successfully ");
        msg.append(action);
        msg.append("ed ");
        if results.len() == 1 {
            msg.append(results[0].name.as_str());
            match &results[0].error {
                Some(w) => {
                    msg.append(" (warning: ");
                    msg.append(w.as_str());
                    msg.append(")");
                },
                None => {},
            }
        } else {
            msg.append(usize_to_string(ok).as_str());
            msg.append(" tool(s)");
            if warnings > 0 {
                msg.append(" (");
                msg.append(usize_to_string(warnings).as_str());
                msg.append(" DB sync warning(s))");
            }
        }
        proof {
            reveal_strlit("");
        }
        assert(msg@ =~= success_status(results@, is_update));
        InstallReport { status: msg, status_is_error: warnings > 0, modal: None }
    } else {
        let lines = failure_lines(results);
        let details = join_from(&lines, 0);
        assert(views(lines@).skip(0) =~= views(lines@));
        if ok == 0 {
            let mut status = String::from_str("Failed to ");
            status.append(action);
            status.append(" ");
            status.append(usize_to_string(failed).as_str());
            status.append(" tool(s)");
            let mut title = String::from_str("Failed to ");
            title.append(action);
            InstallReport { status, status_is_error: true, modal: Some((title, details)) }
        } else {
            let mut status = String::from_str(
                if is_update {
                    "Updated"
                } else {
                    "Installed"
                },
            );
            status.append("ed ");
            status.append(usize_to_string(ok).as_str());
            status.append(", ");
            status.append(usize_to_string(failed).as_str());
            status.append(" failed");
            let mut title = String::from_str("Partial ");
            title.append(action);
            title.append(" failure");
            let mut text = String::from_str("Succeeded: ");
            text.append(usize_to_string(ok).as_str());
            text.append("\nFailed: ");
            text.append(usize_to_string(failed).as_str());
            text.append("\n\n");
            text.append(details.as_str());
            InstallReport { status, status_is_error: true, modal: Some((title, text)) }
        }
    }
}

/// Whether a stderr line is sudo's own password prompt.
pub open spec fn is_sudo_prompt(line: Seq<char>) -> bool {
    contains_seq(line, "[sudo]"@) || contains_seq(line, "password for"@)
}

/// The lines that are not sudo's password prompt, in order.
pub open spec fn without_prompts(s: Seq<Seq<char>>) -> Seq<Seq<char>>
    decreases s.len(),
{
    if s.len() == 0 {
        s
    } else if is_sudo_prompt(s.last()) {
        without_prompts(s.drop_last())
    } else {
        without_prompts(s.drop_last()).push(s.last())
    }
}

/// What a failed sudo command printed: the lines of its trimmed stderr
/// without sudo's password prompt, joined by newlines.
pub open spec fn spec_sudo_stderr(stderr: Seq<char>) -> Seq<char> {
    join_lines(without_prompts(lines(trim(stderr))))
}

/// The stderr of a failed sudo command without the password prompt (see
/// `spec_sudo_stderr`).
pub fn sudo_stderr(stderr: &str) -> (r: String)
    ensures
        r@ == spec_sudo_stderr(stderr@),
{
    let trimmed = trim_str(stderr);
    let all = split_lines(trimmed.as_str());
    let ghost ls = views_of(all@);
    let sudo_tag = chars_of("[sudo]");
    let password_for = chars_of("password for");
    let mut kept: Vec<String> = Vec::new();
    let mut i: usize = 0;
    while i < all.len()
        invariant
            i <= all@.len(),
            ls == views_of(all@),
            ls == lines(trim(stderr@)),
            sudo_tag@ == "[sudo]"@,
            password_for@ == "password for"@,
            views(kept@) == without_prompts(ls.take(i as int)),
        decreases all@.len() - i,
    {
        assert(ls.take(i + 1).drop_last() =~= ls.take(i as int));
        assert(ls.take(i + 1).last() == all@[i as int]@);
        let line = chars_of(all[i].as_str());
        if !(chars_contain(&line, &sudo_tag) || chars_contain(&line, &password_for)) {
            let ghost before = views(kept@);
            kept.push(all[i].clone());
            assert(views(kept@) =~= before.push(all@[i as int]@));
        }
        i += 1;
    }
    assert(ls.take(all@.len() as int) =~= ls);
    assert(views(kept@).skip(0) =~= views(kept@));
    join_from(&kept, 0)
}

/// Most bytes of a sudo error kept before "..." is added.
pub const MAX_SUDO_ERROR_BYTES: usize = 500;

/// The error of a failed sudo install, from what is left of its stderr
/// and its exit code: "Exit code: <code>" (-1 when the process gave none)
/// when nothing is left; else that text, cut after its first 500 bytes and
/// followed by "..." when its UTF-8 form is longer.
pub open spec fn spec_sudo_error(text: Seq<char>, code: Option<i32>) -> Seq<char> {
    if text.len() == 0 {
        "Exit code: "@ + signed_decimal(
            match code {
                Some(c) => c as int,
                None => -1,
            },
        )
    } else if encode_utf8(text).len() > MAX_SUDO_ERROR_BYTES {
        decode_utf8(encode_utf8(text).subrange(0, MAX_SUDO_ERROR_BYTES as int)) + "..."@
    } else {
        text
    }
}

/// The error message of a failed sudo install (see `spec_sudo_error`).
/// The cut must fall between two characters.
pub fn sudo_error_message(text: &str, code: Option<i32>) -> (r: String)
    requires
        encode_utf8(text@).len() > MAX_SUDO_ERROR_BYTES ==> is_char_boundary(
            encode_utf8(text@),
            MAX_SUDO_ERROR_BYTES as int,
        ),
    ensures
        r@ == spec_sudo_error(text@, code),
{
    broadcast use vstd::utf8::encode_utf8_valid_utf8;

    if text.is_empty() {
        let c: i32 = match code {
            Some(c) => c,
            None => -1,
        };
        let mut m = String::from_str("Exit code: ");
        let digits = exit_code_string(Some(c));
        m.append(digits.as_str());
        proof {
            reveal_strlit("Exit code: ");
        }
        m
    } else if text.as_bytes().len() > MAX_SUDO_ERROR_BYTES {
        let (head, _) = text.split_at(MAX_SUDO_ERROR_BYTES);
        proof {
            encode_utf8_decode_utf8(head@);
            assert(head.spec_bytes() == encode_utf8(text@).subrange(0, MAX_SUDO_ERROR_BYTES as int));
        }
        let mut m = head.to_owned();
        m.append("...");
        proof {
            reveal_strlit("...");
        }
        m
    } else {
        text.to_owned()
    }
}

/// The progress shown before running the next task, the one after those
/// whose results are in: "Updating <name>..." or "Installing <name>...",
/// its number, the number of tasks, and how many succeeded so far.
pub fn task_progress(tasks: &Vec<InstallTask>, results: &Vec<InstallResult>, is_update: bool) -> (r:
    LoadingProgress)
    requires
        results@.len() < tasks@.len(),
    ensures
        r.current_step == results@.len() + 1,
        r.total_steps == tasks@.len(),
        r.step_name@ == (if is_update {
            "Updating "@
        } else {
            "Installing "@
        }) + tasks@[results@.len() as int].name@ + "..."@,
        r.found_count == spec_successes(results@),
{
    let mut step_name = if is_update {
        String::from_str("Updating ")
    } else {
        String::from_str("Installing ")
    };
    step_name.append(tasks[results.len()].name.as_str());
    step_name.append("...");
    proof {
        reveal_strlit("Updating ");
        reveal_strlit("Installing ");
        reveal_strlit("...");
    }
    let done = results.len();
    let total = tasks.len();
    assert(done < total);
    LoadingProgress {
        current_step: done + 1,
        total_steps: total,
        step_name,
        found_count: count_successes(results),
    }
}

/// A warning added to an earlier one: "<earlier>; <warning>", or the
/// warning alone when there was none.
pub fn add_warning(earlier: Option<String>, warning: &str) -> (r: String)
    ensures
        r@ == match earlier {
            Some(w) => w@ + "; "@ + warning@,
            None => warning@,
        },
{
    match earlier {
        Some(w) => {
            let mut m = w;
            m.append("; ");
            m.append(warning);
            proof {
                reveal_strlit("; ");
            }
            m
        },
        None => warning.to_owned(),
    }
}

/// Whether any task installs through apt or snap, which need sudo.
pub open spec fn needs_sudo(tasks: Seq<InstallTask>) -> bool {
    exists|i: int|
        0 <= i < tasks.len() && ((#[trigger] tasks[i]).source@ == "apt"@ || tasks[i].source@
            == "snap"@)
}

/// What a confirmed action leads to.
#[derive(Debug)]
pub enum ActionPlan {
    /// Ask for the sudo password, then run these tasks.
    AskPassword { tasks: Vec<InstallTask>, is_update: bool },
    /// Run this operation in the background.
    Run(BackgroundOp),
    /// Uninstalls go through the CLI: show this status, clear the
    /// selection and reload the tools.
    Uninstall { status: String },
}

/// The status shown for a confirmed uninstall of these tools.
pub open spec fn spec_uninstall_status(tools: Seq<Seq<char>>) -> Seq<char> {
    if tools.len() == 1 {
        "Uninstall "@ + tools[0] + " - use CLI: hoards uninstall "@ + tools[0]
    } else {
        "Uninstall "@ + decimal(tools.len()) + " tools - use CLI for batch uninstall"@
    }
}

/// The plan for tasks to install (`is_update` false) or update.
pub open spec fn task_plan(plan: ActionPlan, tasks: Seq<InstallTask>, is_update: bool) -> bool {
    if needs_sudo(tasks) {
        plan matches ActionPlan::AskPassword { tasks: t, is_update: u } && t@ == tasks && u == is_update
    } else if is_update {
        plan matches ActionPlan::Run(BackgroundOp::ExecuteUpdate { tasks: t, current, results })
            && t@ == tasks && current == 0 && results@.len() == 0
    } else {
        plan matches ActionPlan::Run(BackgroundOp::ExecuteInstall { tasks: t, current, results })
            && t@ == tasks && current == 0 && results@.len() == 0
    }
}

fn plan_tasks(tasks: Vec<InstallTask>, is_update: bool) -> (r: ActionPlan)
    ensures
        task_plan(r, tasks@, is_update),
{
    if tasks_need_sudo(&tasks) {
        ActionPlan::AskPassword { tasks, is_update }
    } else if is_update {
        ActionPlan::Run(BackgroundOp::ExecuteUpdate { tasks, current: 0, results: Vec::new() })
    } else {
        ActionPlan::Run(BackgroundOp::ExecuteInstall { tasks, current: 0, results: Vec::new() })
    }
}

/// What a confirmed action leads to: installs and updates ask for the
/// sudo password first when a task needs sudo, and run in the background
/// otherwise, from their first task; a Discover install is an install of
/// its one task; uninstalls only report how to do them with the CLI.
pub fn plan_action(action: PendingAction) -> (r: ActionPlan)
    ensures
        match action {
            PendingAction::Install(tasks) => task_plan(r, tasks@, false),
            PendingAction::Update(tasks) => task_plan(r, tasks@, true),
            PendingAction::DiscoverInstall(task) => task_plan(r, seq![task], false),
            PendingAction::Uninstall(tools) => r matches ActionPlan::Uninstall { status }
                && status@ == spec_uninstall_status(views(tools@)),
        },
{
    match action {
        PendingAction::Install(tasks) => plan_tasks(tasks, false),
        PendingAction::Update(tasks) => plan_tasks(tasks, true),
        PendingAction::DiscoverInstall(task) => {
            let tasks = vec![task];
            assert(tasks@ =~= seq![task]);
            plan_tasks(tasks, false)
        },
        PendingAction::Uninstall(tools) => {
            proof {
                reveal_strlit("Uninstall ");
            }
            let mut m = String::from_str("Uninstall ");
            if tools.len() == 1 {
                m.append(tools[0].as_str());
                m.append(" - use CLI: hoards uninstall ");
                m.append(tools[0].as_str());
            } else {
                m.append(usize_to_string(tools.len()).as_str());
                m.append(" tools - use CLI for batch uninstall");
            }
            ActionPlan::Uninstall { status: m }
        },
    }
}

/// Some result of the batch reports `name` as done.
pub open spec fn succeeded(results: Seq<InstallResult>, name: Seq<char>) -> bool {
    exists|i: int| 0 <= i < results.len() && #[trigger] results[i].success && results[i].name@ == name
}

/// The selected names that stay selected after a batch: those no result
/// reports as done, so that failed tools can be retried, in their order.
pub open spec fn kept_after_batch(selected: Seq<Seq<char>>, results: Seq<InstallResult>) -> Seq<
    Seq<char>,
>
    decreases selected.len(),
{
    if selected.len() == 0 {
        seq![]
    } else {
        let rest = kept_after_batch(selected.drop_last(), results);
        if succeeded(results, selected.last()) {
            rest
        } else {
            rest.push(selected.last())
        }
    }
}

fn has_succeeded(results: &Vec<InstallResult>, name: &str) -> (r: bool)
    ensures
        r == succeeded(results@, name@),
{
    let mut i: usize = 0;
    while i < results.len()
        invariant
            i <= results@.len(),
            forall|j: int| 0 <= j < i ==> !(#[trigger] results@[j].success && results@[j].name@ == name@),
        decreases results@.len() - i,
    {
        if results[i].success && str_eq(results[i].name.as_str(), name) {
            return true;
        }
        i += 1;
    }
    false
}

/// The selection after a batch (see `kept_after_batch`): the tools that
/// succeeded leave it, the failed ones stay for a retry.
pub fn selection_after_batch(selected: &Vec<String>, results: &Vec<InstallResult>) -> (r: Vec<String>)
    ensures
        views(r@) == kept_after_batch(views(selected@), results@),
{
    let mut out: Vec<String> = Vec::new();
    let mut i: usize = 0;
    while i < selected.len()
        invariant
            i <= selected@.len(),
            views(out@) == kept_after_batch(views(selected@).take(i as int), results@),
        decreases selected@.len() - i,
    {
        let ghost before = out@;
        assert(views(selected@).take(i + 1).drop_last() =~= views(selected@).take(i as int));
        assert(views(selected@).take(i + 1).last() == selected@[i as int]@);
        if !has_succeeded(results, selected[i].as_str()) {
            out.push(selected[i].clone());
            assert(views(out@) =~= views(before).push(selected@[i as int]@));
        }
        i += 1;
    }
    assert(views(selected@).take(selected@.len() as int) =~= views(selected@));
    out
}

} // verus!

