//! State of the configuration menu and its conversion to and from the
//! configuration it edits.

use vstd::prelude::*;
use crate::config::{
    lemma_source_names_distinct, AiConfig, AiProvider, ClaudeModel, HoardConfig, SourcesConfig,
    TuiConfig, TuiTheme, UsageConfig, UsageMode,
};
use crate::types::ConfigSection;
use crate::types::config_menu_layout::{spec_total_lines, total_lines, CUSTOM_THEME_INDEX};

verus! {

/// State of the config menu.
#[derive(Debug, Clone, Copy, PartialEq, Eq, Structural)]
pub struct ConfigMenuState {
    /// Currently focused section.
    pub section: ConfigSection,
    /// Selected AI provider (index into `AiProvider::all()`).
    pub ai_selected: usize,
    /// Model selection (0 = Haiku, 1 = Sonnet, 2 = Opus).
    pub claude_model_selected: usize,
    pub theme_selected: usize,
    pub usage_selected: usize,
    /// Source toggles.
    pub sources: SourcesConfig,
    /// Focused source (0-6).
    pub source_focused: usize,
    /// Focused button (0 = Save, 1 = Cancel).
    pub button_focused: usize,
    /// Scroll offset of the menu content.
    pub scroll_offset: usize,
}

/// Menu index of a model.
pub open spec fn claude_model_index(m: ClaudeModel) -> nat {
    match m {
        ClaudeModel::Haiku => 0,
        ClaudeModel::Sonnet => 1,
        ClaudeModel::Opus => 2,
    }
}

/// Model of a menu index; indices past the last select Opus.
pub open spec fn claude_model_of(index: int) -> ClaudeModel {
    if index == 0 {
        ClaudeModel::Haiku
    } else if index == 1 {
        ClaudeModel::Sonnet
    } else {
        ClaudeModel::Opus
    }
}

/// Menu index of a usage mode.
pub open spec fn usage_mode_index(m: UsageMode) -> nat {
    match m {
        UsageMode::Scan => 0,
        UsageMode::Hook => 1,
    }
}

/// Usage mode of a menu index: 0 scans, any other index hooks.
pub open spec fn usage_mode_of(index: int) -> UsageMode {
    if index == 0 {
        UsageMode::Scan
    } else {
        UsageMode::Hook
    }
}

impl ConfigMenuState {
    /// The value that next/prev move in the focused section.
    pub open spec fn focused_value(self) -> usize {
        match self.section {
            ConfigSection::AiProvider => self.ai_selected,
            ConfigSection::ClaudeModel => self.claude_model_selected,
            ConfigSection::Theme => self.theme_selected,
            ConfigSection::Sources => self.source_focused,
            ConfigSection::UsageMode => self.usage_selected,
            ConfigSection::Buttons => self.button_focused,
        }
    }

    /// `self` with the focused value replaced by `v`.
    pub open spec fn with_focused_value(self, v: usize) -> ConfigMenuState {
        match self.section {
            ConfigSection::AiProvider => ConfigMenuState { ai_selected: v, ..self },
            ConfigSection::ClaudeModel => ConfigMenuState { claude_model_selected: v, ..self },
            ConfigSection::Theme => ConfigMenuState { theme_selected: v, ..self },
            ConfigSection::Sources => ConfigMenuState { source_focused: v, ..self },
            ConfigSection::UsageMode => ConfigMenuState { usage_selected: v, ..self },
            ConfigSection::Buttons => ConfigMenuState { button_focused: v, ..self },
        }
    }

    /// `self` with another source selection.
    pub open spec fn with_sources(self, sources: SourcesConfig) -> ConfigMenuState {
        ConfigMenuState { sources, ..self }
    }

    /// `self` with another scroll offset.
    pub open spec fn with_scroll_offset(self, v: usize) -> ConfigMenuState {
        ConfigMenuState { scroll_offset: v, ..self }
    }

    /// The state after moving to the next item of the focused section.
    pub open spec fn spec_next_item(self) -> ConfigMenuState {
        self.with_focused_value(
            ((self.focused_value() + 1) % (self.section.spec_item_count() as int)) as usize,
        )
    }

    /// The state after moving to the previous item of the focused section.
    pub open spec fn spec_prev_item(self) -> ConfigMenuState {
        self.with_focused_value(
            if self.focused_value() == 0 {
                (self.section.spec_item_count() - 1) as usize
            } else {
                (self.focused_value() - 1) as usize
            },
        )
    }

    /// The menu state opened on `config`.
    pub open spec fn spec_from_config(config: HoardConfig) -> ConfigMenuState {
        ConfigMenuState {
            section: ConfigSection::AiProvider,
            ai_selected: config.ai.provider.spec_index() as usize,
            claude_model_selected: claude_model_index(config.ai.claude_model) as usize,
            theme_selected: config.tui.theme.spec_index() as usize,
            usage_selected: usage_mode_index(config.usage.mode) as usize,
            sources: config.sources,
            source_focused: 0,
            button_focused: 0,
            scroll_offset: 0,
        }
    }

    /// Whether every selection is a valid menu index.
    pub open spec fn selections_in_range(self) -> bool {
        &&& self.ai_selected < 5
        &&& self.claude_model_selected < 3
        &&& self.theme_selected < 7
        &&& self.usage_selected < 2
    }

    /// The configuration that this menu state stands for.
    pub open spec fn spec_to_config(self) -> HoardConfig {
        HoardConfig {
            ai: AiConfig {
                provider: AiProvider::spec_all()[self.ai_selected as int],
                claude_model: claude_model_of(self.claude_model_selected as int),
            },
            tui: TuiConfig { theme: TuiTheme::spec_from_index(self.theme_selected as int) },
            usage: UsageConfig { mode: usage_mode_of(self.usage_selected as int) },
            sources: self.sources,
        }
    }

    /// Menu opened on the first section with the first entries selected
    /// and all sources enabled.
    pub fn default() -> (r: ConfigMenuState)
        ensures
            r.section == ConfigSection::AiProvider,
            r.ai_selected == 0 && r.claude_model_selected == 0 && r.theme_selected == 0,
            r.usage_selected == 0 && r.source_focused == 0 && r.button_focused == 0,
            r.scroll_offset == 0,
            r.sources == SourcesConfig::default_spec(),
    {
        ConfigMenuState {
            section: ConfigSection::AiProvider,
            ai_selected: 0,
            claude_model_selected: 0,
            theme_selected: 0,
            usage_selected: 0,
            sources: SourcesConfig::default(),
            source_focused: 0,
            button_focused: 0,
            scroll_offset: 0,
        }
    }

    /// Initialise from an existing configuration.
    pub fn from_config(config: &HoardConfig) -> (r: ConfigMenuState)
        ensures
            r == Self::spec_from_config(*config),
    {
        let all = AiProvider::all();
        let mut ai_selected: usize = 0;
        let mut i: usize = 0;
        while i < all.len()
            invariant_except_break
                ai_selected == 0,
                forall|k: int| 0 <= k < i ==> all@[k] != config.ai.provider,
            invariant
                all@ == AiProvider::spec_all(),
                0 <= i <= all@.len(),
                all@[config.ai.provider.spec_index() as int] == config.ai.provider,
            ensures
                ai_selected == config.ai.provider.spec_index(),
            decreases all@.len() - i,
        {
            if all[i] == config.ai.provider {
                ai_selected = i;
                break;
            }
            i += 1;
        }
        let claude_model_selected: usize = match config.ai.claude_model {
            ClaudeModel::Haiku => 0,
            ClaudeModel::Sonnet => 1,
            ClaudeModel::Opus => 2,
        };
        let usage_selected: usize = match config.usage.mode {
            UsageMode::Scan => 0,
            UsageMode::Hook => 1,
        };
        ConfigMenuState {
            section: ConfigSection::AiProvider,
            ai_selected,
            claude_model_selected,
            theme_selected: config.tui.theme.index(),
            usage_selected,
            sources: config.sources,
            source_focused: 0,
            button_focused: 0,
            scroll_offset: 0,
        }
    }

    /// Build the configuration from the current selections.
    pub fn to_config(&self) -> (r: HoardConfig)
        requires
            self.ai_selected < 5,
        ensures
            r == self.spec_to_config(),
    {
        let mut config = HoardConfig::default();
        config.ai.provider = AiProvider::all()[self.ai_selected];
        config.ai.claude_model = match self.claude_model_selected {
            0 => ClaudeModel::Haiku,
            1 => ClaudeModel::Sonnet,
            _ => ClaudeModel::Opus,
        };
        config.tui.theme = TuiTheme::from_index(self.theme_selected);
        config.usage.mode = if self.usage_selected == 0 {
            UsageMode::Scan
        } else {
            UsageMode::Hook
        };
        config.sources = self.sources;
        config
    }

    /// Move to the next item of the current section, wrapping around.
    pub fn next_item(&mut self)
        requires
            old(self).focused_value() < usize::MAX,
        ensures
            *final(self) == old(self).spec_next_item(),
    {
        let count = self.section.item_count();
        match self.section {
            ConfigSection::AiProvider => {
                self.ai_selected = (self.ai_selected + 1) % count;
            },
            ConfigSection::ClaudeModel => {
                self.claude_model_selected = (self.claude_model_selected + 1) % count;
            },
            ConfigSection::Theme => {
                self.theme_selected = (self.theme_selected + 1) % count;
            },
            ConfigSection::Sources => {
                self.source_focused = (self.source_focused + 1) % count;
            },
            ConfigSection::UsageMode => {
                self.usage_selected = (self.usage_selected + 1) % count;
            },
            ConfigSection::Buttons => {
                self.button_focused = (self.button_focused + 1) % count;
            },
        }
    }

    /// Move to the previous item of the current section, wrapping around.
    pub fn prev_item(&mut self)
        ensures
            *final(self) == old(self).spec_prev_item(),
    {
        let count = self.section.item_count();
        match self.section {
            ConfigSection::AiProvider => {
                self.ai_selected = if self.ai_selected == 0 {
                    count - 1
                } else {
                    self.ai_selected - 1
                };
            },
            ConfigSection::ClaudeModel => {
                self.claude_model_selected = if self.claude_model_selected == 0 {
                    count - 1
                } else {
                    self.claude_model_selected - 1
                };
            },
            ConfigSection::Theme => {
                self.theme_selected = if self.theme_selected == 0 {
                    count - 1
                } else {
                    self.theme_selected - 1
                };
            },
            ConfigSection::Sources => {
                self.source_focused = if self.source_focused == 0 {
                    count - 1
                } else {
                    self.source_focused - 1
                };
            },
            ConfigSection::UsageMode => {
                self.usage_selected = if self.usage_selected == 0 {
                    count - 1
                } else {
                    self.usage_selected - 1
                };
            },
            ConfigSection::Buttons => {
                self.button_focused = if self.button_focused == 0 {
                    count - 1
                } else {
                    self.button_focused - 1
                };
            },
        }
    }

    /// Toggle the focused source checkbox (only in the Sources section).
    pub fn toggle_current_source(&mut self)
        ensures
            (old(self).section == ConfigSection::Sources && old(self).source_focused < 7) ==> {
                &&& forall|i: int|
                    0 <= i < 7 ==> #[trigger] final(self).sources.flags()[i] == if i
                        == old(self).source_focused {
                        !old(self).sources.flags()[i]
                    } else {
                        old(self).sources.flags()[i]
                    }
                &&& *final(self) == old(self).with_sources(final(self).sources)
            },
            !(old(self).section == ConfigSection::Sources && old(self).source_focused < 7)
                ==> *final(self) == *old(self),
    {
        if self.section == ConfigSection::Sources {
            let sources = SourcesConfig::all_sources();
            if self.source_focused < sources.len() {
                proof {
                    lemma_source_names_distinct();
                }
                self.sources.toggle(sources[self.source_focused]);
            }
        }
    }

    /// Scroll up by one line.
    pub fn scroll_up(&mut self)
        ensures
            *final(self) == old(self).with_scroll_offset(
                if old(self).scroll_offset == 0 {
                    0
                } else {
                    (old(self).scroll_offset - 1) as usize
                },
            ),
    {
        self.scroll_offset = self.scroll_offset.saturating_sub(1);
    }

    /// Scroll down by one line, up to `max_scroll`.
    pub fn scroll_down(&mut self, max_scroll: usize)
        ensures
            *final(self) == old(self).with_scroll_offset(
                if old(self).scroll_offset < max_scroll {
                    (old(self).scroll_offset + 1) as usize
                } else {
                    old(self).scroll_offset
                },
            ),
    {
        if self.scroll_offset < max_scroll {
            self.scroll_offset += 1;
        }
    }
}

/// What the application has to do after a menu action.
#[derive(Debug, Clone, Copy, PartialEq, Eq, Structural)]
pub enum MenuOutcome {
    /// Nothing beyond the menu state.
    Nothing,
    /// The theme selection changed: preview it.
    ThemeChanged,
    /// Save the configuration and close the menu.
    Save,
    /// Close the menu without saving.
    Cancel,
}

/// Highest scroll offset used when jumping to a section, so that the
/// buttons stay visible.
pub const SECTION_SCROLL_CAP: usize = 25;

impl ConfigMenuState {
    /// Whether the custom theme (with its extra hint line) is selected.
    pub open spec fn custom_selected(self) -> bool {
        self.theme_selected == CUSTOM_THEME_INDEX
    }

    /// Scroll offset that shows the focused section.
    pub open spec fn section_scroll(self) -> usize {
        let line = self.section.spec_start_line(self.custom_selected());
        if line < SECTION_SCROLL_CAP {
            line as usize
        } else {
            SECTION_SCROLL_CAP
        }
    }

    fn scroll_to_section(&mut self)
        ensures
            *final(self) == old(self).with_scroll_offset(old(self).section_scroll()),
    {
        let custom_selected = self.theme_selected == CUSTOM_THEME_INDEX;
        let section_line = self.section.start_line(custom_selected);
        self.scroll_offset = if section_line < SECTION_SCROLL_CAP {
            section_line
        } else {
            SECTION_SCROLL_CAP
        };
    }

    /// Focus the next section and scroll to it.
    pub fn next_section(&mut self)
        ensures
            final(self).section == old(self).section.spec_next(),
            *final(self) == (ConfigMenuState {
                section: old(self).section.spec_next(),
                scroll_offset: final(self).scroll_offset,
                ..*old(self)
            }),
            final(self).scroll_offset == final(self).section_scroll(),
    {
        self.section = self.section.next();
        self.scroll_to_section();
    }

    /// Focus the previous section and scroll to it.
    pub fn prev_section(&mut self)
        ensures
            final(self).section == old(self).section.spec_prev(),
            *final(self) == (ConfigMenuState {
                section: old(self).section.spec_prev(),
                scroll_offset: final(self).scroll_offset,
                ..*old(self)
            }),
            final(self).scroll_offset == final(self).section_scroll(),
    {
        self.section = self.section.prev();
        self.scroll_to_section();
    }

    /// Scroll down one line when `visible_lines` of `total_lines` show.
    pub fn scroll_down_within(&mut self, total_lines: usize, visible_lines: usize)
        ensures
            *final(self) == old(self).with_scroll_offset(
                if old(self).scroll_offset < total_lines - visible_lines {
                    (old(self).scroll_offset + 1) as usize
                } else {
                    old(self).scroll_offset
                },
            ),
    {
        let max_scroll = total_lines.saturating_sub(visible_lines);
        self.scroll_down(max_scroll);
    }

    /// Enter in the menu: the buttons save or cancel, the sources toggle
    /// the focused source, and the other sections move on to the next one.
    pub fn select(&mut self) -> (r: MenuOutcome)
        ensures
            old(self).section == ConfigSection::Buttons ==> *final(self) == *old(self) && r == (
            if old(self).button_focused == 0 {
                MenuOutcome::Save
            } else {
                MenuOutcome::Cancel
            }),
            old(self).section == ConfigSection::Sources ==> r == MenuOutcome::Nothing
                && final(self).section == ConfigSection::Sources && (old(self).source_focused < 7
                ==> *final(self) == old(self).with_sources(final(self).sources)),
            old(self).section != ConfigSection::Buttons && old(self).section
                != ConfigSection::Sources ==> r == MenuOutcome::Nothing && *final(self) == (
            ConfigMenuState { section: old(self).section.spec_next(), ..*old(self) }),
    {
        match self.section {
            ConfigSection::Buttons => {
                if self.button_focused == 0 {
                    MenuOutcome::Save
                } else {
                    MenuOutcome::Cancel
                }
            },
            ConfigSection::Sources => {
                self.toggle_current_source();
                MenuOutcome::Nothing
            },
            _ => {
                self.section = self.section.next();
                MenuOutcome::Nothing
            },
        }
    }

    /// A click on content line `clicked_line` (scroll included): an item
    /// of the AI, theme, sources or usage section selects it (a source is
    /// also toggled), and a click on the buttons line or below acts as
    /// Enter on the buttons.
    pub fn click_line(&mut self, clicked_line: usize) -> (r: MenuOutcome)
        ensures
            ({
                let c = old(self).custom_selected();
                let ai = ConfigSection::AiProvider.spec_item_lines(c);
                let th = ConfigSection::Theme.spec_item_lines(c);
                let so = ConfigSection::Sources.spec_item_lines(c);
                let us = ConfigSection::UsageMode.spec_item_lines(c);
                let bt = ConfigSection::Buttons.spec_start_line(c);
                if ai.0 <= clicked_line <= ai.1 {
                    r == MenuOutcome::Nothing && *final(self) == (ConfigMenuState {
                        section: ConfigSection::AiProvider,
                        ai_selected: (clicked_line - ai.0) as usize,
                        ..*old(self)
                    })
                } else if th.0 <= clicked_line <= th.1 {
                    r == MenuOutcome::ThemeChanged && *final(self) == (ConfigMenuState {
                        section: ConfigSection::Theme,
                        theme_selected: (clicked_line - th.0) as usize,
                        ..*old(self)
                    })
                } else if so.0 <= clicked_line <= so.1 {
                    r == MenuOutcome::Nothing && final(self).section == ConfigSection::Sources
                        && final(self).source_focused == clicked_line - so.0 && *final(self) == (
                    ConfigMenuState {
                        section: ConfigSection::Sources,
                        source_focused: (clicked_line - so.0) as usize,
                        sources: final(self).sources,
                        ..*old(self)
                    }) && forall|i: int|
                        0 <= i < 7 ==> #[trigger] final(self).sources.flags()[i] == if i
                            == clicked_line - so.0 {
                            !old(self).sources.flags()[i]
                        } else {
                            old(self).sources.flags()[i]
                        }
                } else if us.0 <= clicked_line <= us.1 {
                    r == MenuOutcome::Nothing && *final(self) == (ConfigMenuState {
                        section: ConfigSection::UsageMode,
                        usage_selected: (clicked_line - us.0) as usize,
                        ..*old(self)
                    })
                } else if clicked_line >= bt {
                    *final(self) == (ConfigMenuState {
                        section: ConfigSection::Buttons,
                        ..*old(self)
                    }) && r == (if old(self).button_focused == 0 {
                        MenuOutcome::Save
                    } else {
                        MenuOutcome::Cancel
                    })
                } else {
                    r == MenuOutcome::Nothing && *final(self) == *old(self)
                }
            }),
    {
        let custom_selected = self.theme_selected == CUSTOM_THEME_INDEX;
        let (ai_start, ai_end) = ConfigSection::AiProvider.item_lines(custom_selected);
        let (theme_start, theme_end) = ConfigSection::Theme.item_lines(custom_selected);
        let (sources_start, sources_end) = ConfigSection::Sources.item_lines(custom_selected);
        let (usage_start, usage_end) = ConfigSection::UsageMode.item_lines(custom_selected);
        let buttons_line = ConfigSection::Buttons.start_line(custom_selected);
        if clicked_line >= ai_start && clicked_line <= ai_end {
            self.section = ConfigSection::AiProvider;
            let item = clicked_line - ai_start;
            if item < ConfigSection::AiProvider.item_count() {
                self.ai_selected = item;
            }
            MenuOutcome::Nothing
        } else if clicked_line >= theme_start && clicked_line <= theme_end {
            self.section = ConfigSection::Theme;
            let item = clicked_line - theme_start;
            if item < ConfigSection::Theme.item_count() {
                self.theme_selected = item;
            }
            MenuOutcome::ThemeChanged
        } else if clicked_line >= sources_start && clicked_line <= sources_end {
            self.section = ConfigSection::Sources;
            let item = clicked_line - sources_start;
            if item < ConfigSection::Sources.item_count() {
                self.source_focused = item;
                self.toggle_current_source();
            }
            MenuOutcome::Nothing
        } else if clicked_line >= usage_start && clicked_line <= usage_end {
            self.section = ConfigSection::UsageMode;
            let item = clicked_line - usage_start;
            if item < ConfigSection::UsageMode.item_count() {
                self.usage_selected = item;
            }
            MenuOutcome::Nothing
        } else if clicked_line >= buttons_line {
            self.section = ConfigSection::Buttons;
            self.select()
        } else {
            MenuOutcome::Nothing
        }
    }
}

/// The content line under a click at (`x`, `y`) in a config popup with
/// area (`popup_x`, `popup_y`, `popup_width`, `popup_height`), counting the
/// scroll (capped so that the last line stays at the bottom); `None` when
/// the click is outside the content (the popup has a border all round).
pub fn config_popup_line(
    area: (u16, u16, u16, u16),
    x: u16,
    y: u16,
    scroll_offset: usize,
    custom_selected: bool,
) -> (r: Option<usize>)
    requires
        area.0 + area.2 <= u16::MAX,
        area.1 + area.3 <= u16::MAX,
        area.2 >= 1,
        area.3 >= 1,
    ensures
        ({
            let (px, py, pw, ph) = area;
            let content_height: int = if ph >= 2 {
                ph - 2
            } else {
                0
            };
            let total = spec_total_lines(custom_selected);
            let max_scroll: int = if total >= content_height {
                total - content_height
            } else {
                0
            };
            if px + 1 <= x < px + pw - 1 && py + 1 <= y < py + ph - 1 {
                r == Some(
                    (y - (py + 1) + if scroll_offset < max_scroll {
                        scroll_offset as int
                    } else {
                        max_scroll
                    }) as usize,
                )
            } else {
                r is None
            }
        }),
{
    let (popup_x, popup_y, popup_width, popup_height) = area;
    let content_x = popup_x + 1;
    let content_y = popup_y + 1;
    let content_height = popup_height.saturating_sub(2) as usize;
    let total = total_lines(custom_selected);
    let max_scroll = total.saturating_sub(content_height);
    if x >= content_x && x < popup_x + popup_width - 1 && y >= content_y && y < popup_y
        + popup_height - 1 {
        let scroll = if scroll_offset < max_scroll {
            scroll_offset
        } else {
            max_scroll
        };
        Some((y - content_y) as usize + scroll)
    } else {
        None
    }
}

/// Opening the menu on a configuration and saving it unchanged gives back
/// the same configuration.
pub proof fn law_config_round_trip(config: HoardConfig)
    ensures
        ConfigMenuState::spec_from_config(config).selections_in_range(),
        ConfigMenuState::spec_from_config(config).spec_to_config() == config,
{
}

/// Saving a menu whose selections are valid and reopening it on the saved
/// configuration restores every selection and the sources.
pub proof fn law_menu_round_trip(s: ConfigMenuState)
    requires
        s.selections_in_range(),
    ensures
        ({
            let t = ConfigMenuState::spec_from_config(s.spec_to_config());
            &&& t.ai_selected == s.ai_selected
            &&& t.claude_model_selected == s.claude_model_selected
            &&& t.theme_selected == s.theme_selected
            &&& t.usage_selected == s.usage_selected
            &&& t.sources == s.sources
        }),
{
}

/// Within a section, moving to the next item and back, or back and then
/// forward, returns to the same state.
pub proof fn law_next_prev_inverse(s: ConfigMenuState)
    requires
        s.focused_value() < s.section.spec_item_count(),
    ensures
        s.spec_next_item().spec_prev_item() == s,
        s.spec_prev_item().spec_next_item() == s,
{
    let c = s.section.spec_item_count() as int;
    let v = s.focused_value() as int;
    let p = s.spec_prev_item();
    assert(p.section == s.section);
    if v == 0 {
        assert(p.focused_value() == c - 1);
        assert((c - 1 + 1) % c == 0) by (nonlinear_arith)
            requires
                c > 0,
        ;
    } else {
        assert(p.focused_value() == v - 1);
        assert((v - 1 + 1) % c == v) by (nonlinear_arith)
            requires
                0 < v < c,
        ;
    }
}

/// Moving to the next item keeps the focused value within the section.
pub proof fn law_next_item_in_range(s: ConfigMenuState)
    ensures
        s.spec_next_item().focused_value() < s.section.spec_item_count(),
        s.spec_next_item().section == s.section,
{
}

} // verus!
