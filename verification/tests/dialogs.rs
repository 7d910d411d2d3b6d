use hoards::dialogs::source_selection_dialog;
use hoards::types::{DiscoverSource, InstallOption};
use hoards::dialogs::{confirmation_dialog, DialogLine};
use hoards::pending::{InstallTask, PendingAction};
use hoards::theme::ThemeVariant;

fn task(name: &str) -> InstallTask {
    InstallTask {
        name: name.to_string(),
        source: "cargo".to_string(),
        version: None,
        display_command: format!("cargo install {}", name),
    }
}

fn text_lines(lines: &[DialogLine]) -> Vec<String> {
    lines
        .iter()
        .map(|l| l.iter().map(|s| s.text.as_str()).collect::<Vec<_>>().join(""))
        .collect()
}

const HINT: &str = "Press y to confirm, n or Esc to cancel";

#[test]
fn install_dialog_lists_commands() {
    let p = ThemeVariant::Gruvbox.theme().colors;
    let (title, lines, color) = confirmation_dialog(&PendingAction::Install(vec![task("rg"), task("fd")]), &p);
    assert_eq!(title, " Install ");
    assert_eq!(color, p.green);
    assert_eq!(
        text_lines(&lines),
        vec!["", "Install 2 tool(s)?", "", "  $ cargo install rg", "  $ cargo install fd", "", HINT]
    );
    assert_eq!(lines[3][1].color, Some(p.green));
    assert!(lines[6][1].bold);
}

#[test]
fn long_dialogs_are_shortened() {
    let p = ThemeVariant::Gruvbox.theme().colors;
    let tasks: Vec<InstallTask> = (0..7).map(|i| task(&format!("t{}", i))).collect();
    let (title, lines, color) = confirmation_dialog(&PendingAction::Update(tasks), &p);
    assert_eq!((title, color), (" Update ", p.yellow));
    let text = text_lines(&lines);
    assert_eq!(text.len(), 3 + 5 + 1 + 2);
    assert_eq!(text[1], "Update 7 tool(s)?");
    assert_eq!(text[7], "  $ cargo install t4");
    assert_eq!(text[8], "  ... and 2 more");
    let names: Vec<String> = (0..6).map(|i| format!("t{}", i)).collect();
    let (_, lines, color) = confirmation_dialog(&PendingAction::Uninstall(names), &p);
    assert_eq!(color, p.red);
    assert_eq!(text_lines(&lines)[3], "Tools: t0, t1, ... and 4 more");
}

#[test]
fn uninstall_and_discover_dialogs() {
    let p = ThemeVariant::TokyoNight.theme().colors;
    let (title, lines, _) =
        confirmation_dialog(&PendingAction::Uninstall(vec!["rg".to_string(), "fd".to_string()]), &p);
    assert_eq!(title, " Uninstall ");
    assert_eq!(
        text_lines(&lines),
        vec!["", "Uninstall 2 tool(s)?", "", "Tools: rg, fd", "", HINT]
    );
    let (title, lines, _) = confirmation_dialog(&PendingAction::DiscoverInstall(task("bat")), &p);
    assert_eq!(title, " Install ");
    assert_eq!(
        text_lines(&lines),
        vec!["", "Install bat?", "", "  $ cargo install bat", "", HINT]
    );
}

#[test]
fn help_overlay_lines() {
    let p = ThemeVariant::CatppuccinLatte.theme().colors;
    let lines = hoards::dialogs::help_lines(&p);
    let text = text_lines(&lines);
    assert_eq!(text[0], "Keyboard Shortcuts");
    assert!(lines[0][0].bold && lines[0][0].color == Some(p.mauve));
    assert_eq!(text[2], "Navigation");
    assert_eq!(text[3], "  j/↓      Move down");
    assert_eq!(lines[8][0].color, Some(p.peach));
    assert_eq!(text.last().unwrap(), "Press ? or Esc to close");
    assert_eq!(text.len(), 46);
    assert!(text.contains(&"  Ctrl+z   Undo".to_string()));
}

#[test]
fn discover_empty_state() {
    let p = ThemeVariant::Nord.theme().colors;
    let after = text_lines(&hoards::dialogs::discover_empty_lines(true, &vec![], true, &p));
    assert_eq!(after, vec!["", "No results found", "", "Try a different search term"]);
    let sources = vec![("cargo", "🦀", "cargo"), ("weird", "?", "weird"), ("github", "🐙", "GitHub")];
    let lines = hoards::dialogs::discover_empty_lines(false, &sources, true, &p);
    let text = text_lines(&lines);
    assert_eq!(text[1], "🔍 Discover new tools");
    assert_eq!(text[4], "  🦀 Rust packages (crates.io)");
    assert_eq!(text[5], "  🐙 GitHub repositories");
    assert_eq!(text[6], "");
    assert_eq!(text[11], "  F1-F3     Toggle source filters");
    assert_eq!(text.last().unwrap(), "🤖 AI mode: Press Shift+A to enable AI-powered discovery");
    assert_eq!(lines.last().unwrap()[0].color, None);
    let one = text_lines(&hoards::dialogs::discover_empty_lines(false, &vec![("npm", "📦", "npm")], false, &p));
    assert_eq!(one[10], "  F1        Toggle source filters");
    assert_eq!(one.last().unwrap(), "");
    let none = text_lines(&hoards::dialogs::discover_empty_lines(false, &vec![], false, &p));
    assert_eq!(none[9], "  -         Toggle source filters");
}

#[test]
fn error_messages_wrap_to_the_dialog() {
    let f = hoards::dialogs::error_message_lines;
    assert_eq!(f("short\nalso short", 20), vec!["short", "also short"]);
    assert_eq!(f("abcdefghij", 4), vec!["abcd", "efgh", "ij"]);
    assert_eq!(f("line one\n\nthree", 8), vec!["line one", "", "three"]);
    // Bytes decide whether a line fits, characters how it is cut.
    assert_eq!(f("éééé", 3), vec!["ééé", "é"]);
    assert_eq!(f("éé", 3), vec!["éé"]);
    assert_eq!(f("\n\n", 0), vec!["", ""]);
}

#[test]
fn label_editor_lines() {
    let p = ThemeVariant::Dracula.theme().colors;
    let labels = vec!["cli".to_string(), "rust".to_string()];
    let lines = hoards::dialogs::label_editor_lines(Some("rg"), "sea", 0, &labels, &p);
    let text = text_lines(&lines);
    assert_eq!(
        text,
        vec![
            "",
            "Edit labels for: rg",
            "",
            "▶ Add: sea▌",
            "",
            "Current labels:",
            "  cli",
            "  rust",
            "",
            "Tab navigate  Enter add  d delete  Esc close"
        ]
    );
    assert_eq!(lines[3][2].background, Some(p.surface0));
    let on_label = hoards::dialogs::label_editor_lines(None, "", 2, &labels, &p);
    let text = text_lines(&on_label);
    assert_eq!(text[1], "Edit labels for: Unknown");
    assert_eq!(text[3], "  Add: ");
    assert_eq!(on_label[3][2].background, Some(p.base));
    assert_eq!(text[7], "▶ rust  [d] to delete");
    assert!(on_label[7][1].bold && on_label[7][1].color == Some(p.yellow));
    let empty = text_lines(&hoards::dialogs::label_editor_lines(Some("fd"), "", 0, &vec![], &p));
    assert_eq!(empty[6], "  (no labels)");
}

#[test]
fn source_selection_marks_the_selected_option() {
    let p = ThemeVariant::Gruvbox.theme().colors;
    let options = vec![
        InstallOption { source: DiscoverSource::CratesIo, install_command: "cargo install rg".to_string() },
        InstallOption { source: DiscoverSource::Homebrew, install_command: "brew install rg".to_string() },
    ];
    let (title, lines, color) = source_selection_dialog("ripgrep", &options, 1, &p);
    assert_eq!(title, " Select Source ");
    assert_eq!(color, p.blue);
    assert_eq!(
        text_lines(&lines),
        vec![
            "",
            "Select install source for ripgrep",
            "",
            "  🦀 cargo install rg",
            "▶ 🍺 brew install rg",
            "",
            "j/k navigate  Enter select  Esc cancel",
        ]
    );
    assert_eq!(lines[3][0].color, Some(p.subtext0));
    assert!(!lines[3][3].bold);
    assert_eq!(lines[4][3].color, Some(p.green));
    assert!(lines[4][0].bold && lines[4][3].bold);
    assert_eq!(lines[4][2].color, None);
    assert_eq!(lines[6][0].color, Some(p.blue));
    let (_, none_selected, _) = source_selection_dialog("fd", &options, 5, &p);
    assert!(text_lines(&none_selected)[3].starts_with("  ") && text_lines(&none_selected)[4].starts_with("  "));
}
