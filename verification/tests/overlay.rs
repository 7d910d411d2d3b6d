use hoards::install::{OutputLine, OutputLineType};
use hoards::overlay::{
    output_line_color, output_scroll_offset, overlay_size, overlay_title, progress_bar,
};
use hoards::pending::BackgroundOp;
use hoards::theme::ThemeVariant;

#[test]
fn progress_bars() {
    assert_eq!(progress_bar(0, 0), format!("[{}] 0/0", "░".repeat(30)));
    assert_eq!(progress_bar(1, 3), format!("[{}{}] 1/3", "█".repeat(10), "░".repeat(20)));
    assert_eq!(progress_bar(2, 5), format!("[{}{}] 2/5", "█".repeat(12), "░".repeat(18)));
    assert_eq!(progress_bar(5, 5), format!("[{}] 5/5", "█".repeat(30)));
}

#[test]
fn overlay_sizes_and_titles() {
    let install = Some(BackgroundOp::ExecuteInstall { tasks: vec![], current: 0, results: vec![] });
    let update = Some(BackgroundOp::ExecuteUpdate { tasks: vec![], current: 0, results: vec![] });
    let check = Some(BackgroundOp::CheckUpdates { step: 0 });
    assert_eq!(overlay_size(&install, 3), (70, 60));
    assert_eq!(overlay_size(&update, 1), (70, 60));
    assert_eq!(overlay_size(&install, 0), (50, 30));
    assert_eq!(overlay_size(&check, 5), (50, 30));
    assert_eq!(overlay_size(&None, 5), (50, 30));
    assert_eq!(overlay_title(&install), "Installing");
    assert_eq!(overlay_title(&check), "Checking for Updates");
    assert_eq!(overlay_title(&None), "Working");
}

fn out(t: OutputLineType, s: &str) -> OutputLine {
    OutputLine { line_type: t, content: s.to_string() }
}

#[test]
fn output_colours() {
    let p = ThemeVariant::Nord.theme().colors;
    assert_eq!(output_line_color(&out(OutputLineType::Stdout, "error here"), &p), p.text);
    assert_eq!(output_line_color(&out(OutputLineType::Status, "$ cargo install x"), &p), p.blue);
    assert_eq!(output_line_color(&out(OutputLineType::Stderr, "Compiling foo"), &p), p.subtext0);
    assert_eq!(output_line_color(&out(OutputLineType::Stderr, "ERROR: broke"), &p), p.red);
    assert_eq!(output_line_color(&out(OutputLineType::Stderr, "pkg Not Found"), &p), p.red);
    assert_eq!(output_line_color(&out(OutputLineType::Stderr, "Cannot open"), &p), p.red);
}

#[test]
fn output_scrolling_stops_at_the_end() {
    assert_eq!(output_scroll_offset(5, 30, 10), 5);
    assert_eq!(output_scroll_offset(25, 30, 10), 20);
    assert_eq!(output_scroll_offset(3, 8, 10), 0);
}
