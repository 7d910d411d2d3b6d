use hoards::config::{AiProvider, ClaudeModel, HoardConfig, SourcesConfig, TuiTheme, UsageMode};
use hoards::config_menu::{ConfigMenuState, MenuOutcome};
use hoards::types::ConfigSection;

#[test]
fn test_ai_provider_all_indices() {
    let all = AiProvider::all();
    assert_eq!(all.len(), 5);
    assert_eq!(all[0], AiProvider::NoProvider);
    assert_eq!(all[1], AiProvider::Claude);
    assert_eq!(all[2], AiProvider::Gemini);
    assert_eq!(all[3], AiProvider::Codex);
    assert_eq!(all[4], AiProvider::Opencode);
}

#[test]
fn config_round_trip() {
    let mut config = HoardConfig::default();
    config.ai.provider = AiProvider::Gemini;
    config.ai.claude_model = ClaudeModel::Opus;
    config.tui.theme = TuiTheme::Nord;
    config.usage.mode = UsageMode::Hook;
    config.sources.pip = false;
    let menu = ConfigMenuState::from_config(&config);
    assert_eq!(menu.ai_selected, 2);
    assert_eq!(menu.claude_model_selected, 2);
    assert_eq!(menu.theme_selected, 3);
    assert_eq!(menu.usage_selected, 1);
    assert_eq!(menu.to_config(), config);
}

#[test]
fn menu_provider_change() {
    let mut menu = ConfigMenuState::default();
    menu.ai_selected = 0;
    assert_eq!(menu.to_config().ai.provider, AiProvider::NoProvider);
    menu.ai_selected = 1;
    assert_eq!(menu.to_config().ai.provider, AiProvider::Claude);
    menu.theme_selected = 6;
    assert_eq!(menu.to_config().tui.theme, TuiTheme::Custom);
    menu.claude_model_selected = 9;
    assert_eq!(menu.to_config().ai.claude_model, ClaudeModel::Opus);
}

#[test]
fn next_prev_item_wrap() {
    let mut menu = ConfigMenuState::default();
    menu.prev_item();
    assert_eq!(menu.ai_selected, 4);
    menu.next_item();
    assert_eq!(menu.ai_selected, 0);
    menu.section = ConfigSection::UsageMode;
    menu.next_item();
    menu.next_item();
    assert_eq!(menu.usage_selected, 0);
    menu.section = ConfigSection::Buttons;
    menu.next_item();
    assert_eq!(menu.button_focused, 1);
}

#[test]
fn toggle_source() {
    let mut menu = ConfigMenuState::default();
    menu.toggle_current_source();
    assert!(menu.sources.cargo); // not in the sources section
    menu.section = ConfigSection::Sources;
    menu.source_focused = 4;
    menu.toggle_current_source();
    assert!(!menu.sources.brew);
    assert!(menu.sources.cargo);
    assert!(!menu.sources.is_enabled("brew"));
    assert!(!menu.sources.is_enabled("unknown"));
    let mut s = SourcesConfig::default();
    s.toggle("nope");
    assert_eq!(s, SourcesConfig::default());
}

#[test]
fn scroll_menu() {
    let mut menu = ConfigMenuState::default();
    menu.scroll_up();
    assert_eq!(menu.scroll_offset, 0);
    menu.scroll_down(1);
    menu.scroll_down(1);
    assert_eq!(menu.scroll_offset, 1);
    menu.scroll_down_within(35, 30);
    assert_eq!(menu.scroll_offset, 2);
}

#[test]
fn sections_and_select() {
    let mut menu = ConfigMenuState::default();
    menu.next_section();
    assert_eq!(menu.section, ConfigSection::ClaudeModel);
    assert_eq!(menu.scroll_offset, 7);
    menu.prev_section();
    menu.prev_section();
    assert_eq!(menu.section, ConfigSection::Buttons);
    assert_eq!(menu.scroll_offset, 25);
    assert_eq!(menu.select(), MenuOutcome::Save);
    menu.button_focused = 1;
    assert_eq!(menu.select(), MenuOutcome::Cancel);
    menu.section = ConfigSection::Theme;
    assert_eq!(menu.select(), MenuOutcome::Nothing);
    assert_eq!(menu.section, ConfigSection::Sources);
}

#[test]
fn click_lines() {
    let mut menu = ConfigMenuState::default();
    assert_eq!(menu.click_line(3), MenuOutcome::Nothing);
    assert_eq!(menu.ai_selected, 2);
    assert_eq!(menu.click_line(19), MenuOutcome::ThemeChanged);
    assert_eq!(menu.theme_selected, 6);
    // custom theme selected: sources start one line lower
    assert_eq!(menu.click_line(23), MenuOutcome::Nothing);
    assert_eq!(menu.section, ConfigSection::Sources);
    assert_eq!(menu.source_focused, 0);
    assert!(!menu.sources.cargo);
    assert_eq!(menu.click_line(40), MenuOutcome::Save);
    assert_eq!(menu.section, ConfigSection::Buttons);
}

#[test]
fn test_config_menu_ai_provider_change() {
    // The menu opened from the default configuration starts on the AI
    // provider section.
    let mut menu = ConfigMenuState::from_config(&HoardConfig::default());
    assert_eq!(menu.section, ConfigSection::AiProvider);

    // Select index 0 (no provider), move to the buttons, focus Save.
    menu.ai_selected = 0;
    menu.section = ConfigSection::Buttons;
    menu.button_focused = 0;

    let config = menu.to_config();
    assert_eq!(config.ai.provider, AiProvider::NoProvider);
    let expected_ai_available = config.ai.provider != AiProvider::NoProvider;
    assert!(!expected_ai_available);

    // A different provider.
    menu.ai_selected = 1;
    let config = menu.to_config();
    assert_eq!(config.ai.provider, AiProvider::Claude);
    assert!(config.ai.provider != AiProvider::NoProvider);
}

#[test]
fn test_save_config_menu_updates_ai_available() {
    let mut ai_available = true;
    let mut menu = ConfigMenuState::from_config(&HoardConfig::default());

    // Change to no provider; nothing is applied before saving.
    menu.ai_selected = 0;
    assert!(ai_available);

    // Saving applies the provider's availability.
    let config = menu.to_config();
    assert_eq!(config.ai.provider, AiProvider::NoProvider);
    ai_available = config.ai.provider != AiProvider::NoProvider;
    assert!(!ai_available);

    // And back to provider 1.
    menu.ai_selected = 1;
    let config = menu.to_config();
    assert_eq!(config.ai.provider, AiProvider::Claude);
    ai_available = config.ai.provider != AiProvider::NoProvider;
    assert!(ai_available);
}
