use hoards::config::AiProvider;
use hoards::config_menu::ConfigMenuState;
use hoards::config_view::config_menu_lines;
use hoards::dialogs::DialogLine;
use hoards::theme::ThemeVariant;
use hoards::types::ConfigSection;

/// The display name of the provider whose model can be chosen.
fn assistant() -> String {
    format!("{:?}", AiProvider::Claude)
}

fn text_lines(lines: &[DialogLine]) -> Vec<String> {
    lines
        .iter()
        .map(|l| l.iter().map(|s| s.text.as_str()).collect::<Vec<_>>().join(""))
        .collect()
}

#[test]
fn config_menu_with_the_assistant() {
    let p = ThemeVariant::CatppuccinMocha.theme().colors;
    let name = assistant();
    let mut s = ConfigMenuState::default();
    s.ai_selected = 1;
    s.section = ConfigSection::AiProvider;
    let lines = config_menu_lines(&s, &name, true, None, &p);
    let text = text_lines(&lines);
    assert_eq!(text.len(), 35);
    assert_eq!(text[0], "AI Provider");
    assert_eq!(text[1], "  ○ None (disabled)");
    assert_eq!(text[2], format!("  ● {}", name));
    assert!(lines[2][0].bold && lines[2][0].color == Some(p.blue));
    assert_eq!(text[7], format!("{} Model", name));
    assert_eq!(text[12], "Theme");
    assert_eq!(text[19], "  ○ Custom");
    assert_eq!(text[21], "Package Managers");
    assert_eq!(text[22], "  ☑ Cargo");
    assert_eq!(text[30], "Usage Tracking");
    assert_eq!(text[34], "   Save    Cancel ");
}

#[test]
fn config_menu_variants() {
    let p = ThemeVariant::Nord.theme().colors;
    let name = assistant();
    let mut s = ConfigMenuState::default();
    s.ai_selected = 0;
    s.theme_selected = 6;
    s.section = ConfigSection::Buttons;
    s.button_focused = 1;
    let lines = config_menu_lines(&s, &name, false, Some("/home/u/.config/hoards/theme.toml"), &p);
    let text = text_lines(&lines);
    // Without the assistant the model section shrinks to a note.
    assert_eq!(text[7], format!("{} Model (select {} above)", name, name));
    assert!(lines[7][0].italic);
    assert_eq!(text[16], "  ● Custom (use :create-theme to create)");
    assert_eq!(text[17], "    Edit: /home/u/.config/hoards/theme.toml");
    assert_eq!(text.len(), 33);
    let buttons = lines.last().unwrap();
    assert_eq!(buttons[3].background, Some(p.red));
    assert_eq!(buttons[1].background, None);
}
