use hoards::command::CommandPalette;
use hoards::commands::{command_status, submit_command};
use hoards::commands::{
    autocomplete_command, command_suggestions, commands, parse_command, sort_by_name, source_filter_for,
    theme_by_name, CommandKind, ThemeChoice,
};
use hoards::theme::ThemeVariant;
use hoards::types::{SortBy, Tab};

#[test]
fn table_lists_every_command() {
    let c = commands();
    assert_eq!(c.len(), 46);
    assert_eq!(c[0], ("q", "quit - exit the application"));
    assert_eq!(c[45], ("edit-theme", "show custom theme file path"));
}

#[test]
fn suggestions_match_prefix_at_most_five() {
    let s = command_suggestions("  Th ");
    assert_eq!(s, vec![("theme", "theme [name] - cycle or set theme")]);
    assert!(command_suggestions("   ").is_empty());
    let u = command_suggestions("u");
    assert_eq!(u.iter().map(|p| p.0).collect::<Vec<_>>(), vec!["updates", "uninstall", "u", "update", "upgrade"]);
    assert_eq!(autocomplete_command("ins"), Some("installed"));
    assert_eq!(autocomplete_command("zzz"), None);
}

#[test]
fn parse_quit_and_help() {
    let c = parse_command("  Q ").unwrap();
    assert_eq!(c.text, "q");
    assert_eq!(c.kind, CommandKind::Quit);
    assert_eq!(parse_command("help").unwrap().kind, CommandKind::Help);
    assert!(parse_command("   ").is_none());
}

#[test]
fn parse_commands_with_arguments() {
    let c = parse_command("theme nord").unwrap();
    assert_eq!(c.kind, CommandKind::Theme);
    assert_eq!(c.arg.as_deref(), Some("nord"));
    let c = parse_command("sort").unwrap();
    assert_eq!(c.kind, CommandKind::Sort);
    assert_eq!(c.arg, None);
    let c = parse_command("src Cargo").unwrap();
    assert_eq!(c.kind, CommandKind::SourceFilter);
    assert_eq!(c.arg.as_deref(), Some("cargo"));
    assert_eq!(parse_command("3").unwrap().kind, CommandKind::Updates);
    assert_eq!(parse_command("uninstall").unwrap().kind, CommandKind::Uninstall);
    assert_eq!(parse_command("cfg").unwrap().kind, CommandKind::Config);
    let _ = Tab::Updates;
}

#[test]
fn parse_label_commands() {
    assert_eq!(parse_command("label").unwrap().kind, CommandKind::LabelFilter);
    assert_eq!(parse_command("labels filter").unwrap().kind, CommandKind::LabelFilter);
    assert_eq!(parse_command("label auto").unwrap().kind, CommandKind::LabelAuto);
    assert_eq!(parse_command("label edit").unwrap().kind, CommandKind::LabelEdit);
    assert_eq!(parse_command("label clear").unwrap().kind, CommandKind::LabelClear);
    assert_eq!(parse_command("label nope").unwrap().kind, CommandKind::LabelUsage);
}

#[test]
fn parse_unknown_command() {
    let c = parse_command("invalidcmd").unwrap();
    assert_eq!(c.kind, CommandKind::Unknown);
    assert_eq!(c.arg.as_deref(), Some("invalidcmd"));
    assert_eq!(c.text, "invalidcmd");
}

#[test]
fn sort_and_theme_names() {
    assert_eq!(sort_by_name("alpha"), Some(SortBy::Name));
    assert_eq!(sort_by_name("used"), Some(SortBy::Usage));
    assert_eq!(sort_by_name("last"), Some(SortBy::Recent));
    assert_eq!(sort_by_name("size"), None);
    assert_eq!(theme_by_name("catppuccin"), Some(ThemeChoice::Builtin(ThemeVariant::CatppuccinMocha)));
    assert_eq!(theme_by_name("tokyonight"), Some(ThemeChoice::Builtin(ThemeVariant::TokyoNight)));
    assert_eq!(theme_by_name("custom"), Some(ThemeChoice::Custom));
    assert_eq!(theme_by_name("solarized"), None);
}

#[test]
fn source_filter_is_lowercased_or_cleared() {
    assert_eq!(source_filter_for(Some("PIP")), Some("pip".to_string()));
    assert_eq!(source_filter_for(Some("")), None);
    assert_eq!(source_filter_for(None), None);
}

#[test]
fn submitted_commands_close_the_palette() {
    let mut p = CommandPalette::new();
    p.set_input("  Sort Name ".to_string());
    let c = submit_command(&mut p).unwrap();
    assert_eq!(c.text, "sort name");
    assert_eq!(c.kind, CommandKind::Sort);
    assert_eq!(c.arg.as_deref(), Some("name"));
    assert_eq!(p.input(), "");
    assert_eq!(command_status(&c), None);
    p.history_prev();
    assert_eq!(p.input(), "sort name");

    p.set_input("frobnicate now".to_string());
    let c = submit_command(&mut p).unwrap();
    assert_eq!(c.kind, CommandKind::Unknown);
    assert_eq!(command_status(&c).as_deref(), Some("Unknown command: frobnicate"));
    assert_eq!(p.input(), "");

    p.set_input("label nope".to_string());
    let c = submit_command(&mut p).unwrap();
    assert_eq!(command_status(&c).as_deref(), Some("Usage: label [auto|filter|edit|clear]"));

    p.set_input("   ".to_string());
    assert!(submit_command(&mut p).is_none());
    assert_eq!(p.input(), "");
    p.history_prev();
    assert_eq!(p.input(), "label nope");
    p.history_next();

    p.set_input("q".to_string());
    let c = submit_command(&mut p).unwrap();
    assert_eq!(c.kind, CommandKind::Quit);
    assert_eq!(p.input(), "q");
}
