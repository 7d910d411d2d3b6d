use hoards::footer::{
    build_command_mode_footer, build_discover_footer, build_filter_status, build_header_tabs,
    build_footer_right_status, build_jump_mode_footer, build_normal_mode_footer,
    build_password_mode_footer, build_search_mode_footer, build_status_footer, DiscoverSummary,
    FilterSummary,
};
use hoards::styled::StyledText;
use hoards::theme::{Palette, ThemeVariant};
use hoards::types::Tab;

fn palette() -> Palette {
    ThemeVariant::CatppuccinMocha.theme().colors
}

fn texts(v: &[StyledText]) -> Vec<String> {
    v.iter().map(|s| s.text.clone()).collect()
}

fn joined(v: &[StyledText]) -> String {
    v.iter().map(|s| s.text.as_str()).collect::<Vec<_>>().join("")
}

fn no_filter() -> FilterSummary {
    FilterSummary {
        shown: 10,
        total: 10,
        favorites_only: false,
        source: None,
        label: None,
        query: String::new(),
    }
}

fn discover(sources: usize, enabled: usize, ai: bool) -> DiscoverSummary {
    DiscoverSummary { sources, enabled, ai_enabled: ai }
}

#[test]
fn normal_footer_per_tab() {
    let p = palette();
    let d = discover(3, 2, false);
    let f = no_filter();
    assert_eq!(
        joined(&build_normal_mode_footer(Tab::Installed, 0, &f, &d, &p)),
        " j/k nav  Space select  D uninstall  u update  Ctrl+r refresh  ? help"
    );
    assert_eq!(
        joined(&build_normal_mode_footer(Tab::Available, 0, &f, &d, &p)),
        " j/k nav  Space select  i install  Ctrl+r refresh  ? help"
    );
    let updates = build_normal_mode_footer(Tab::Updates, 0, &f, &d, &p);
    assert_eq!(joined(&updates), " j/k nav  Space select  u update  U update all  Ctrl+r check  ? help");
    assert!(updates[6].bold && updates[6].color == Some(p.yellow));
    assert_eq!(
        joined(&build_normal_mode_footer(Tab::Bundles, 2, &f, &d, &p)),
        " j/k nav  Space select  i install  D delete  ? help │ 2 selected"
    );
    assert_eq!(
        joined(&build_normal_mode_footer(Tab::Discover, 0, &f, &d, &p)),
        joined(&build_discover_footer(&d, &p))
    );
}

#[test]
fn filter_summaries() {
    let p = palette();
    let f = FilterSummary {
        shown: 3,
        total: 42,
        favorites_only: true,
        source: Some("cargo".to_string()),
        label: Some("rust".to_string()),
        query: "rg".to_string(),
    };
    let spans = build_filter_status(&f, &p);
    assert_eq!(
        texts(&spans),
        vec![" │ ", "3/42 ", "★", " ", "src:", "cargo", " ", "label:", "rust", " ", "filter:", "rg"]
    );
    let only_fav = FilterSummary { favorites_only: true, ..no_filter() };
    assert_eq!(texts(&build_filter_status(&only_fav, &p)), vec![" │ ", "10/10 ", "★"]);
    let d = discover(0, 0, false);
    assert_eq!(
        joined(&build_normal_mode_footer(Tab::Installed, 0, &only_fav, &d, &p)),
        " j/k nav  Space select  D uninstall  u update  Ctrl+r refresh  ? help │ 10/10 ★"
    );
    // A selection takes the place of the filter summary.
    assert!(joined(&build_normal_mode_footer(Tab::Installed, 1, &f, &d, &p)).ends_with("│ 1 selected"));
}

#[test]
fn discover_footers() {
    let p = palette();
    assert_eq!(
        joined(&build_discover_footer(&discover(0, 0, false), &p)),
        " j/k nav  / search  A AI  i install  Enter readme  ? help │ 0/0 sources"
    );
    assert_eq!(
        joined(&build_discover_footer(&discover(1, 1, false), &p)),
        " j/k nav  / search  A AI  F1 filters  i install  Enter readme  ? help │ 1/1 sources"
    );
    let ai = build_discover_footer(&discover(6, 2, true), &p);
    assert_eq!(
        joined(&ai),
        " j/k nav  / search  A AI  F1-F6 filters  i install  Enter readme  ? help │ 🤖 AI"
    );
    assert!(ai.last().unwrap().bold);
}

#[test]
fn input_mode_footers() {
    let p = palette();
    assert_eq!(
        joined(&build_search_mode_footer("rip", &p)),
        " Search: rip│  Enter apply  Esc cancel"
    );
    assert_eq!(
        joined(&build_command_mode_footer("", &p)),
        " :│  Enter execute  Esc cancel  (h for help)"
    );
    assert_eq!(joined(&build_command_mode_footer("zzz", &p)), " :zzz│");
    let cmd = build_command_mode_footer("s", &p);
    let text = joined(&cmd);
    assert!(text.starts_with(" :s│  "));
    assert!(text.ends_with("  Tab complete"));
    assert_eq!(
        joined(&build_jump_mode_footer(&p)),
        " f  Type a letter to jump to first tool starting with it...  Esc cancel"
    );
    assert_eq!(
        joined(&build_password_mode_footer(4, &p)),
        " 🔒 Password: ****█  Enter confirm  Esc cancel"
    );
    let status = build_status_footer("Saved", false, &p);
    assert_eq!(texts(&status), vec![" ", "Saved"]);
    assert_eq!(status[1].color, Some(p.green));
    assert_eq!(build_status_footer("Oops", true, &p)[1].color, Some(p.red));
}

#[test]
fn right_status_and_width() {
    let p = palette();
    let (spans, width) = build_footer_right_status(true, false, Some("5m"), "0.3.1", &p);
    assert_eq!(texts(&spans), vec!["🤖", " ", "\u{f09b}", "  ", "⟳ 5m", " ", "v0.3.1", " "]);
    assert_eq!(spans[0].color, Some(p.green));
    assert_eq!(spans[2].color, Some(p.surface1));
    assert_eq!(width, 8 + 5 + 5);
    let (spans, width) = build_footer_right_status(false, true, None, "1.0.0", &p);
    assert_eq!(spans.len(), 6);
    assert_eq!(width, 13);
}

#[test]
fn header_tabs() {
    let p = palette();
    let tabs = build_header_tabs(Tab::Updates, &p);
    assert_eq!(texts(&tabs), vec![" Installed ", " Available ", " Updates ", " Bundles ", " Discover "]);
    assert!(tabs[2].bold && tabs[2].color == Some(p.blue));
    assert!(!tabs[0].bold && tabs[0].color == Some(p.subtext0));
}
