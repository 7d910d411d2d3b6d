//! Enums and small state types of the TUI.

use vstd::prelude::*;

pub mod config_menu_layout;

verus! {

/// Package source of an installed tool.
#[derive(Debug, Clone, Copy, PartialEq, Eq, Structural)]
pub enum InstallSource {
    Cargo,
    Apt,
    Pip,
    Npm,
    Brew,
    Flatpak,
    Manual,
    Unknown,
}

impl InstallSource {
    /// The variant's name in lower case, as a source filter names it.
    pub open spec fn spec_filter_name(self) -> Seq<char> {
        match self {
            InstallSource::Cargo => "cargo"@,
            InstallSource::Apt => "apt"@,
            InstallSource::Pip => "pip"@,
            InstallSource::Npm => "npm"@,
            InstallSource::Brew => "brew"@,
            InstallSource::Flatpak => "flatpak"@,
            InstallSource::Manual => "manual"@,
            InstallSource::Unknown => "unknown"@,
        }
    }

    pub fn filter_name(&self) -> (r: &'static str)
        ensures
            r@ == self.spec_filter_name(),
    {
        match self {
            InstallSource::Cargo => "cargo",
            InstallSource::Apt => "apt",
            InstallSource::Pip => "pip",
            InstallSource::Npm => "npm",
            InstallSource::Brew => "brew",
            InstallSource::Flatpak => "flatpak",
            InstallSource::Manual => "manual",
            InstallSource::Unknown => "unknown",
        }
    }
}

/// Source of a discover result.
#[derive(Debug, Clone, Copy, PartialEq, Eq, Structural)]
pub enum DiscoverSource {
    GitHub,
    CratesIo,
    PyPI,
    Npm,
    Apt,
    Homebrew,
    AI,
}

impl DiscoverSource {
    /// The package source that installs a result from this discover source.
    pub open spec fn spec_install_source(self) -> InstallSource {
        match self {
            DiscoverSource::GitHub => InstallSource::Unknown,
            DiscoverSource::CratesIo => InstallSource::Cargo,
            DiscoverSource::PyPI => InstallSource::Pip,
            DiscoverSource::Npm => InstallSource::Npm,
            DiscoverSource::Apt => InstallSource::Apt,
            DiscoverSource::Homebrew => InstallSource::Brew,
            DiscoverSource::AI => InstallSource::Unknown,
        }
    }

    pub fn to_install_source(&self) -> (r: InstallSource)
        ensures
            r == self.spec_install_source(),
    {
        match self {
            DiscoverSource::GitHub => InstallSource::Unknown,
            DiscoverSource::CratesIo => InstallSource::Cargo,
            DiscoverSource::PyPI => InstallSource::Pip,
            DiscoverSource::Npm => InstallSource::Npm,
            DiscoverSource::Apt => InstallSource::Apt,
            DiscoverSource::Homebrew => InstallSource::Brew,
            DiscoverSource::AI => InstallSource::Unknown,
        }
    }

    pub fn icon(&self) -> (r: &'static str)
        ensures
            r@ == (match *self {
                DiscoverSource::GitHub => "\u{f09b}"@,
                DiscoverSource::CratesIo => "🦀"@,
                DiscoverSource::PyPI => "🐍"@,
                DiscoverSource::Npm => "\u{e71e}"@,
                DiscoverSource::Apt => "📦"@,
                DiscoverSource::Homebrew => "🍺"@,
                DiscoverSource::AI => "🤖"@,
            }),
    {
        match self {
            DiscoverSource::GitHub => "\u{f09b}",
            DiscoverSource::CratesIo => "🦀",
            DiscoverSource::PyPI => "🐍",
            DiscoverSource::Npm => "\u{e71e}",
            DiscoverSource::Apt => "📦",
            DiscoverSource::Homebrew => "🍺",
            DiscoverSource::AI => "🤖",
        }
    }
}

/// An install option for a discovered tool.
#[derive(Debug, Clone)]
pub struct InstallOption {
    pub source: DiscoverSource,
    pub install_command: String,
}

/// A search result from the Discover tab.
#[derive(Debug, Clone)]
pub struct DiscoverResult {
    pub name: String,
    pub description: Option<String>,
    pub source: DiscoverSource,
    pub stars: Option<u64>,
    pub url: Option<String>,
    pub install_options: Vec<InstallOption>,
}

impl DiscoverResult {
    /// The command of the first install option, if there is one.
    pub fn install_command(&self) -> (r: Option<&str>)
        ensures
            self.install_options@.len() == 0 ==> r is None,
            self.install_options@.len() > 0 ==> r is Some && r->0@
                == self.install_options@[0].install_command@,
    {
        if self.install_options.len() > 0 {
            Some(self.install_options[0].install_command.as_str())
        } else {
            None
        }
    }
}

/// Section of the config menu.
#[derive(Debug, Clone, Copy, PartialEq, Eq, Structural)]
pub enum ConfigSection {
    AiProvider,
    ClaudeModel,
    Theme,
    Sources,
    UsageMode,
    Buttons,
}

impl Default for ConfigSection {
    fn default() -> (r: ConfigSection)
        ensures
            r == ConfigSection::AiProvider,
    {
        ConfigSection::AiProvider
    }
}

impl ConfigSection {
    /// Sections in menu order.
    pub open spec fn spec_all() -> Seq<ConfigSection> {
        seq![
            ConfigSection::AiProvider,
            ConfigSection::ClaudeModel,
            ConfigSection::Theme,
            ConfigSection::Sources,
            ConfigSection::UsageMode,
            ConfigSection::Buttons,
        ]
    }

    /// Position of the section in menu order.
    pub open spec fn spec_position(self) -> int {
        match self {
            ConfigSection::AiProvider => 0,
            ConfigSection::ClaudeModel => 1,
            ConfigSection::Theme => 2,
            ConfigSection::Sources => 3,
            ConfigSection::UsageMode => 4,
            ConfigSection::Buttons => 5,
        }
    }

    pub open spec fn spec_next(self) -> ConfigSection {
        Self::spec_all()[(self.spec_position() + 1) % 6]
    }

    pub open spec fn spec_prev(self) -> ConfigSection {
        Self::spec_all()[(self.spec_position() + 5) % 6]
    }

    pub open spec fn spec_item_count(self) -> nat {
        match self {
            ConfigSection::AiProvider => 5,
            ConfigSection::ClaudeModel => 3,
            ConfigSection::Theme => 7,
            ConfigSection::Sources => 7,
            ConfigSection::UsageMode => 2,
            ConfigSection::Buttons => 2,
        }
    }

    /// First line of the section; the sections after the theme move down
    /// one line when the custom theme (and its file hint) is selected.
    pub open spec fn spec_start_line(self, custom_theme_selected: bool) -> nat {
        let extra: nat = if custom_theme_selected { 1 } else { 0 };
        match self {
            ConfigSection::AiProvider => 0,
            ConfigSection::ClaudeModel => 7,
            ConfigSection::Theme => 12,
            ConfigSection::Sources => 21 + extra,
            ConfigSection::UsageMode => 30 + extra,
            ConfigSection::Buttons => 34 + extra,
        }
    }

    /// First and last item line of the section, inclusive.
    pub open spec fn spec_item_lines(self, custom_theme_selected: bool) -> (nat, nat) {
        let extra: nat = if custom_theme_selected { 1 } else { 0 };
        match self {
            ConfigSection::AiProvider => (1, 5),
            ConfigSection::ClaudeModel => (8, 10),
            ConfigSection::Theme => (13, 19),
            ConfigSection::Sources => (22 + extra, 28 + extra),
            ConfigSection::UsageMode => (31 + extra, 32 + extra),
            ConfigSection::Buttons => (34 + extra, 34 + extra),
        }
    }

    pub fn all() -> (r: &'static [ConfigSection])
        ensures
            r@ == Self::spec_all(),
    {
        &[
            ConfigSection::AiProvider,
            ConfigSection::ClaudeModel,
            ConfigSection::Theme,
            ConfigSection::Sources,
            ConfigSection::UsageMode,
            ConfigSection::Buttons,
        ]
    }

    pub fn next(&self) -> (r: ConfigSection)
        ensures
            r == self.spec_next(),
    {
        match self {
            ConfigSection::AiProvider => ConfigSection::ClaudeModel,
            ConfigSection::ClaudeModel => ConfigSection::Theme,
            ConfigSection::Theme => ConfigSection::Sources,
            ConfigSection::Sources => ConfigSection::UsageMode,
            ConfigSection::UsageMode => ConfigSection::Buttons,
            ConfigSection::Buttons => ConfigSection::AiProvider,
        }
    }

    pub fn prev(&self) -> (r: ConfigSection)
        ensures
            r == self.spec_prev(),
    {
        match self {
            ConfigSection::AiProvider => ConfigSection::Buttons,
            ConfigSection::ClaudeModel => ConfigSection::AiProvider,
            ConfigSection::Theme => ConfigSection::ClaudeModel,
            ConfigSection::Sources => ConfigSection::Theme,
            ConfigSection::UsageMode => ConfigSection::Sources,
            ConfigSection::Buttons => ConfigSection::UsageMode,
        }
    }

    /// Starting line of this section in the config menu, used for click
    /// detection and auto-scroll.
    pub fn start_line(&self, custom_theme_selected: bool) -> (r: usize)
        ensures
            r == self.spec_start_line(custom_theme_selected),
    {
        let theme_extra: usize = if custom_theme_selected { 1 } else { 0 };
        match self {
            ConfigSection::AiProvider => 0,
            ConfigSection::ClaudeModel => 7,
            ConfigSection::Theme => 12,
            ConfigSection::Sources => 21 + theme_extra,
            ConfigSection::UsageMode => 30 + theme_extra,
            ConfigSection::Buttons => 34 + theme_extra,
        }
    }

    /// Line range of the items of this section (header excluded), inclusive.
    pub fn item_lines(&self, custom_theme_selected: bool) -> (r: (usize, usize))
        ensures
            r.0 == self.spec_item_lines(custom_theme_selected).0,
            r.1 == self.spec_item_lines(custom_theme_selected).1,
    {
        let theme_extra: usize = if custom_theme_selected { 1 } else { 0 };
        match self {
            ConfigSection::AiProvider => (1, 5),
            ConfigSection::ClaudeModel => (8, 10),
            ConfigSection::Theme => (13, 19),
            ConfigSection::Sources => (22 + theme_extra, 28 + theme_extra),
            ConfigSection::UsageMode => (31 + theme_extra, 32 + theme_extra),
            ConfigSection::Buttons => (34 + theme_extra, 34 + theme_extra),
        }
    }

    /// Number of selectable items in this section.
    pub fn item_count(&self) -> (r: usize)
        ensures
            r == self.spec_item_count(),
    {
        match self {
            ConfigSection::AiProvider => 5,
            ConfigSection::ClaudeModel => 3,
            ConfigSection::Theme => 7,
            ConfigSection::Sources => 7,
            ConfigSection::UsageMode => 2,
            ConfigSection::Buttons => 2,
        }
    }
}

/// Available tabs in the TUI.
#[derive(Debug, Clone, Copy, PartialEq, Eq, Structural)]
pub enum Tab {
    Installed,
    Available,
    Updates,
    Bundles,
    Discover,
}

impl Default for Tab {
    fn default() -> (r: Tab)
        ensures
            r == Tab::Installed,
    {
        Tab::Installed
    }
}

impl Tab {
    /// Position of the tab in the tab bar.
    pub open spec fn spec_index(self) -> nat {
        match self {
            Tab::Installed => 0,
            Tab::Available => 1,
            Tab::Updates => 2,
            Tab::Bundles => 3,
            Tab::Discover => 4,
        }
    }

    /// Inverse of `spec_index` on 0..5.
    pub open spec fn spec_from_index(index: int) -> Option<Tab> {
        if index == 0 {
            Some(Tab::Installed)
        } else if index == 1 {
            Some(Tab::Available)
        } else if index == 2 {
            Some(Tab::Updates)
        } else if index == 3 {
            Some(Tab::Bundles)
        } else if index == 4 {
            Some(Tab::Discover)
        } else {
            None
        }
    }

    /// All tabs in display order.
    pub fn all() -> (r: &'static [Tab])
        ensures
            r@ == seq![Tab::Installed, Tab::Available, Tab::Updates, Tab::Bundles, Tab::Discover],
    {
        &[Tab::Installed, Tab::Available, Tab::Updates, Tab::Bundles, Tab::Discover]
    }

    pub fn title(&self) -> (r: &'static str)
        ensures
            r@ == (match *self {
                Tab::Installed => "Installed"@,
                Tab::Available => "Available"@,
                Tab::Updates => "Updates"@,
                Tab::Bundles => "Bundles"@,
                Tab::Discover => "Discover"@,
            }),
    {
        match self {
            Tab::Installed => "Installed",
            Tab::Available => "Available",
            Tab::Updates => "Updates",
            Tab::Bundles => "Bundles",
            Tab::Discover => "Discover",
        }
    }

    pub fn index(&self) -> (r: usize)
        ensures
            r == self.spec_index(),
    {
        match self {
            Tab::Installed => 0,
            Tab::Available => 1,
            Tab::Updates => 2,
            Tab::Bundles => 3,
            Tab::Discover => 4,
        }
    }

    /// The tab to the right, wrapping to the first.
    pub open spec fn spec_next(self) -> Tab {
        Tab::spec_from_index(((self.spec_index() + 1) % 5) as int)->0
    }

    /// The tab to the left, wrapping to the last.
    pub open spec fn spec_prev(self) -> Tab {
        Tab::spec_from_index(if self.spec_index() == 0 {
            4
        } else {
            self.spec_index() - 1
        })->0
    }

    /// The tab to the right, wrapping around (what the next-tab key shows).
    pub fn next(&self) -> (r: Tab)
        ensures
            r == self.spec_next(),
    {
        let next_index = (self.index() + 1) % Tab::all().len();
        match Tab::from_index(next_index) {
            Some(t) => t,
            None => *self,
        }
    }

    /// The tab to the left, wrapping around.
    pub fn prev(&self) -> (r: Tab)
        ensures
            r == self.spec_prev(),
    {
        let prev_index = if self.index() == 0 {
            Tab::all().len() - 1
        } else {
            self.index() - 1
        };
        match Tab::from_index(prev_index) {
            Some(t) => t,
            None => *self,
        }
    }

    pub fn from_index(index: usize) -> (r: Option<Tab>)
        ensures
            r == Tab::spec_from_index(index as int),
    {
        match index {
            0 => Some(Tab::Installed),
            1 => Some(Tab::Available),
            2 => Some(Tab::Updates),
            3 => Some(Tab::Bundles),
            4 => Some(Tab::Discover),
            _ => None,
        }
    }
}

/// Moving to the next section and back, or back and forward again,
/// returns to the same section; six moves forward go round the menu.
pub proof fn law_section_cycle(s: ConfigSection)
    ensures
        s.spec_next().spec_prev() == s,
        s.spec_prev().spec_next() == s,
        s.spec_next().spec_next().spec_next().spec_next().spec_next().spec_next() == s,
{
}

/// The menu layout is consistent: each section's items follow its header,
/// sections other than the buttons show one line per item, a blank line
/// (and, after the themes, the custom-theme hint) separates consecutive
/// sections, and every line lies within the menu.
pub proof fn law_config_layout(s: ConfigSection, custom_theme_selected: bool)
    ensures
        s.spec_start_line(custom_theme_selected) <= s.spec_item_lines(custom_theme_selected).0,
        s.spec_item_lines(custom_theme_selected).0 <= s.spec_item_lines(custom_theme_selected).1,
        s.spec_item_lines(custom_theme_selected).1
            < config_menu_layout::spec_total_lines(custom_theme_selected),
        s != ConfigSection::Buttons ==> {
            &&& s.spec_item_lines(custom_theme_selected).0 == s.spec_start_line(
                custom_theme_selected,
            ) + 1
            &&& s.spec_item_lines(custom_theme_selected).1 + 1 - s.spec_item_lines(
                custom_theme_selected,
            ).0 == s.spec_item_count()
            &&& s.spec_item_lines(custom_theme_selected).1 + 2 + (if s == ConfigSection::Theme
                && custom_theme_selected {
                1int
            } else {
                0int
            }) == s.spec_next().spec_start_line(custom_theme_selected)
        },
{
}

/// Tab indices and tab moves agree: `from_index` inverts `index`, and
/// moving right then left (or left then right) returns to the same tab.
pub proof fn law_tab_navigation(t: Tab)
    ensures
        Tab::spec_from_index(t.spec_index() as int) == Some(t),
        t.spec_next().spec_prev() == t,
        t.spec_prev().spec_next() == t,
{
}

/// Input mode for the application.
#[derive(Debug, Clone, Copy, PartialEq, Eq, Structural)]
pub enum InputMode {
    Normal,
    Search,
    /// Vim-style command palette opened with ':'.
    Command,
    /// Waiting for a letter to jump to.
    JumpToLetter,
}

impl Default for InputMode {
    fn default() -> (r: InputMode)
        ensures
            r == InputMode::Normal,
    {
        InputMode::Normal
    }
}

/// Sort options for the tool list.
#[derive(Debug, Clone, Copy, PartialEq, Eq, Structural)]
pub enum SortBy {
    Name,
    Usage,
    Recent,
}

impl Default for SortBy {
    fn default() -> (r: SortBy)
        ensures
            r == SortBy::Name,
    {
        SortBy::Name
    }
}

impl SortBy {
    /// The cycle Name -> Usage -> Recent -> Name.
    pub open spec fn spec_next(self) -> SortBy {
        match self {
            SortBy::Name => SortBy::Usage,
            SortBy::Usage => SortBy::Recent,
            SortBy::Recent => SortBy::Name,
        }
    }

    pub fn next(&self) -> (r: SortBy)
        ensures
            r == self.spec_next(),
    {
        match self {
            SortBy::Name => SortBy::Usage,
            SortBy::Usage => SortBy::Recent,
            SortBy::Recent => SortBy::Name,
        }
    }

    pub fn label(&self) -> (r: &'static str)
        ensures
            r@ == (match *self {
                SortBy::Name => "name"@,
                SortBy::Usage => "usage"@,
                SortBy::Recent => "recent"@,
            }),
    {
        match self {
            SortBy::Name => "name",
            SortBy::Usage => "usage",
            SortBy::Recent => "recent",
        }
    }
}

/// Sort options for discover results.
#[derive(Debug, Clone, Copy, PartialEq, Eq, Structural)]
pub enum DiscoverSortBy {
    Stars,
    Name,
    Source,
}

impl Default for DiscoverSortBy {
    fn default() -> (r: DiscoverSortBy)
        ensures
            r == DiscoverSortBy::Stars,
    {
        DiscoverSortBy::Stars
    }
}

impl DiscoverSortBy {
    /// The cycle Stars -> Name -> Source -> Stars.
    pub open spec fn spec_next(self) -> DiscoverSortBy {
        match self {
            DiscoverSortBy::Stars => DiscoverSortBy::Name,
            DiscoverSortBy::Name => DiscoverSortBy::Source,
            DiscoverSortBy::Source => DiscoverSortBy::Stars,
        }
    }

    pub fn next(&self) -> (r: DiscoverSortBy)
        ensures
            r == self.spec_next(),
    {
        match self {
            DiscoverSortBy::Stars => DiscoverSortBy::Name,
            DiscoverSortBy::Name => DiscoverSortBy::Source,
            DiscoverSortBy::Source => DiscoverSortBy::Stars,
        }
    }

    pub fn label(&self) -> (r: &'static str)
        ensures
            r@ == (match *self {
                DiscoverSortBy::Stars => "stars"@,
                DiscoverSortBy::Name => "name"@,
                DiscoverSortBy::Source => "source"@,
            }),
    {
        match self {
            DiscoverSortBy::Stars => "stars",
            DiscoverSortBy::Name => "name",
            DiscoverSortBy::Source => "source",
        }
    }
}

/// Package managers checked for updates: (key, display name).
pub fn package_managers() -> (r: &'static [(&'static str, &'static str)])
    ensures
        r@.len() == 5,
        r@[0].0@ == "cargo"@ && r@[0].1@ == "Cargo (Rust)"@,
        r@[1].0@ == "pip"@ && r@[1].1@ == "pip (Python)"@,
        r@[2].0@ == "npm"@ && r@[2].1@ == "npm (Node.js)"@,
        r@[3].0@ == "apt"@ && r@[3].1@ == "apt (Debian/Ubuntu)"@,
        r@[4].0@ == "brew"@ && r@[4].1@ == "Homebrew"@,
{
    &[
        ("cargo", "Cargo (Rust)"),
        ("pip", "pip (Python)"),
        ("npm", "npm (Node.js)"),
        ("apt", "apt (Debian/Ubuntu)"),
        ("brew", "Homebrew"),
    ]
}

} // verus!
