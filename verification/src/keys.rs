//! What a key press does: which part of the interface receives it, and
//! the action each part takes for it.

use vstd::prelude::*;
use crate::install::OutputScroll;
use crate::labels::PopupMove;
use crate::text::{char_is_alphanumeric, is_alphanumeric};
use crate::types::{ConfigSection, InputMode, Tab};

verus! {

/// A key as the interface reads it.
#[derive(Debug, Clone, Copy, PartialEq, Eq, Structural)]
pub enum Key {
    Char(char),
    Enter,
    Esc,
    Backspace,
    Delete,
    Tab,
    BackTab,
    Up,
    Down,
    Left,
    Right,
    PageUp,
    PageDown,
    Home,
    End,
    /// A function key, F1 to F12.
    F(u8),
    Other,
}

/// A key with the state of the Control modifier.
#[derive(Debug, Clone, Copy, PartialEq, Eq, Structural)]
pub struct KeyPress {
    pub key: Key,
    pub ctrl: bool,
}

/// What is on screen, as far as it decides who receives a key.
#[derive(Debug, Clone, Copy, PartialEq, Eq, Structural)]
pub struct KeyContext {
    /// A confirmation dialog waits for an answer.
    pub pending_action: bool,
    /// That dialog is the choice of an install source.
    pub source_selection: bool,
    pub error_modal: bool,
    /// An install or update runs, with its output shown.
    pub install_running: bool,
    pub readme_open: bool,
    pub help_shown: bool,
    pub config_menu: bool,
    pub details_popup: bool,
    pub label_filter_popup: bool,
    pub label_edit_popup: bool,
    pub mode: InputMode,
}

/// The part of the interface that receives a key.
#[derive(Debug, Clone, Copy, PartialEq, Eq, Structural)]
pub enum KeyRoute {
    SourceSelection,
    Confirmation,
    ErrorModal,
    InstallOutput,
    Readme,
    Help,
    ConfigMenu,
    Details,
    LabelFilter,
    LabelEdit,
    /// The current input mode; the status message is cleared first.
    Mode(InputMode),
}

pub open spec fn spec_route_key(c: KeyContext) -> KeyRoute {
    if c.pending_action {
        if c.source_selection {
            KeyRoute::SourceSelection
        } else {
            KeyRoute::Confirmation
        }
    } else if c.error_modal {
        KeyRoute::ErrorModal
    } else if c.install_running {
        KeyRoute::InstallOutput
    } else if c.readme_open {
        KeyRoute::Readme
    } else if c.help_shown {
        KeyRoute::Help
    } else if c.config_menu {
        KeyRoute::ConfigMenu
    } else if c.details_popup {
        KeyRoute::Details
    } else if c.label_filter_popup {
        KeyRoute::LabelFilter
    } else if c.label_edit_popup {
        KeyRoute::LabelEdit
    } else {
        KeyRoute::Mode(c.mode)
    }
}

/// Who receives a key: a dialog waiting for an answer first, then the
/// error modal, the running install, the README, help, the config menu,
/// the details popup, the label popups, and last the input mode.
pub fn route_key(c: &KeyContext) -> (r: KeyRoute)
    ensures
        r == spec_route_key(*c),
{
    if c.pending_action {
        if c.source_selection {
            KeyRoute::SourceSelection
        } else {
            KeyRoute::Confirmation
        }
    } else if c.error_modal {
        KeyRoute::ErrorModal
    } else if c.install_running {
        KeyRoute::InstallOutput
    } else if c.readme_open {
        KeyRoute::Readme
    } else if c.help_shown {
        KeyRoute::Help
    } else if c.config_menu {
        KeyRoute::ConfigMenu
    } else if c.details_popup {
        KeyRoute::Details
    } else if c.label_filter_popup {
        KeyRoute::LabelFilter
    } else if c.label_edit_popup {
        KeyRoute::LabelEdit
    } else {
        KeyRoute::Mode(c.mode)
    }
}

/// An answer in a dialog.
#[derive(Debug, Clone, Copy, PartialEq, Eq, Structural)]
pub enum DialogKey {
    /// Move the choice up (source selection).
    Up,
    /// Move the choice down (source selection).
    Down,
    Confirm,
    Cancel,
    Ignore,
}

pub open spec fn spec_dialog_key(key: Key, source_selection: bool) -> DialogKey {
    if source_selection {
        match key {
            Key::Char('j') | Key::Down => DialogKey::Down,
            Key::Char('k') | Key::Up => DialogKey::Up,
            Key::Enter => DialogKey::Confirm,
            Key::Esc => DialogKey::Cancel,
            _ => DialogKey::Ignore,
        }
    } else {
        match key {
            Key::Char('y') | Key::Char('Y') => DialogKey::Confirm,
            Key::Char('n') | Key::Char('N') | Key::Esc => DialogKey::Cancel,
            _ => DialogKey::Ignore,
        }
    }
}

/// A key in a dialog: a source choice moves with j/k or the arrows and
/// is taken with Enter; a question is answered y or n (Esc cancels both).
pub fn dialog_key(key: Key, source_selection: bool) -> (r: DialogKey)
    ensures
        r == spec_dialog_key(key, source_selection),
{
    if source_selection {
        match key {
            Key::Char('j') | Key::Down => DialogKey::Down,
            Key::Char('k') | Key::Up => DialogKey::Up,
            Key::Enter => DialogKey::Confirm,
            Key::Esc => DialogKey::Cancel,
            _ => DialogKey::Ignore,
        }
    } else {
        match key {
            Key::Char('y') | Key::Char('Y') => DialogKey::Confirm,
            Key::Char('n') | Key::Char('N') | Key::Esc => DialogKey::Cancel,
            _ => DialogKey::Ignore,
        }
    }
}

pub open spec fn spec_closes(route: KeyRoute, key: Key) -> bool {
    match route {
        KeyRoute::ErrorModal | KeyRoute::Details => key == Key::Esc || key == Key::Enter || key
            == Key::Char('q'),
        KeyRoute::Help => key == Key::Esc || key == Key::Char('?') || key == Key::Char('q'),
        _ => false,
    }
}

/// Whether the key closes the error modal, the details popup (Esc, Enter,
/// q) or help (Esc, ?, q); other keys are swallowed there.
pub fn closes(route: KeyRoute, key: Key) -> (r: bool)
    ensures
        r == spec_closes(route, key),
{
    match route {
        KeyRoute::ErrorModal | KeyRoute::Details => key == Key::Esc || key == Key::Enter || key
            == Key::Char('q'),
        KeyRoute::Help => key == Key::Esc || key == Key::Char('?') || key == Key::Char('q'),
        _ => false,
    }
}

/// A key while an install runs.
#[derive(Debug, Clone, Copy, PartialEq, Eq, Structural)]
pub enum InstallKey {
    Cancel,
    Scroll(OutputScroll),
    Ignore,
}

pub open spec fn spec_install_key(key: Key) -> InstallKey {
    match key {
        Key::Esc => InstallKey::Cancel,
        Key::Char('k') | Key::Up => InstallKey::Scroll(OutputScroll::LineUp),
        Key::Char('j') | Key::Down => InstallKey::Scroll(OutputScroll::LineDown),
        Key::PageUp => InstallKey::Scroll(OutputScroll::PageUp),
        Key::PageDown => InstallKey::Scroll(OutputScroll::PageDown),
        _ => InstallKey::Ignore,
    }
}

/// Esc cancels a running install; j/k, the arrows and the page keys
/// scroll its output.
pub fn install_key(key: Key) -> (r: InstallKey)
    ensures
        r == spec_install_key(key),
{
    match key {
        Key::Esc => InstallKey::Cancel,
        Key::Char('k') | Key::Up => InstallKey::Scroll(OutputScroll::LineUp),
        Key::Char('j') | Key::Down => InstallKey::Scroll(OutputScroll::LineDown),
        Key::PageUp => InstallKey::Scroll(OutputScroll::PageUp),
        Key::PageDown => InstallKey::Scroll(OutputScroll::PageDown),
        _ => InstallKey::Ignore,
    }
}

/// A key in the README popup.
#[derive(Debug, Clone, Copy, PartialEq, Eq, Structural)]
pub enum ReadmeKey {
    Close,
    ScrollDown(u16),
    ScrollUp(u16),
    /// Show the link picker.
    ShowLinks,
    Top,
    Bottom,
    /// Leave the link picker, keeping the README open.
    HideLinks,
    NextLink,
    PrevLink,
    OpenLink,
    Ignore,
}

pub open spec fn spec_readme_key(p: KeyPress, showing_links: bool) -> ReadmeKey {
    if showing_links {
        match p.key {
            Key::Esc | Key::Char('q') => ReadmeKey::HideLinks,
            Key::Char('j') | Key::Down => ReadmeKey::NextLink,
            Key::Char('k') | Key::Up => ReadmeKey::PrevLink,
            Key::Enter => ReadmeKey::OpenLink,
            _ => ReadmeKey::Ignore,
        }
    } else {
        match p.key {
            Key::Esc | Key::Char('q') => ReadmeKey::Close,
            Key::Char('j') | Key::Down => ReadmeKey::ScrollDown(1),
            Key::Char('k') | Key::Up => ReadmeKey::ScrollUp(1),
            Key::Char('o') => ReadmeKey::ShowLinks,
            Key::Char('d') => if p.ctrl {
                ReadmeKey::ScrollDown(10)
            } else {
                ReadmeKey::Ignore
            },
            Key::Char('u') => if p.ctrl {
                ReadmeKey::ScrollUp(10)
            } else {
                ReadmeKey::Ignore
            },
            Key::PageDown => ReadmeKey::ScrollDown(20),
            Key::PageUp => ReadmeKey::ScrollUp(20),
            Key::Home | Key::Char('g') => ReadmeKey::Top,
            Key::End | Key::Char('G') => ReadmeKey::Bottom,
            _ => ReadmeKey::Ignore,
        }
    }
}

/// Keys of the README popup, and of its link picker when shown.
pub fn readme_key(p: KeyPress, showing_links: bool) -> (r: ReadmeKey)
    ensures
        r == spec_readme_key(p, showing_links),
{
    if showing_links {
        match p.key {
            Key::Esc | Key::Char('q') => ReadmeKey::HideLinks,
            Key::Char('j') | Key::Down => ReadmeKey::NextLink,
            Key::Char('k') | Key::Up => ReadmeKey::PrevLink,
            Key::Enter => ReadmeKey::OpenLink,
            _ => ReadmeKey::Ignore,
        }
    } else {
        match p.key {
            Key::Esc | Key::Char('q') => ReadmeKey::Close,
            Key::Char('j') | Key::Down => ReadmeKey::ScrollDown(1),
            Key::Char('k') | Key::Up => ReadmeKey::ScrollUp(1),
            Key::Char('o') => ReadmeKey::ShowLinks,
            Key::Char('d') => if p.ctrl {
                ReadmeKey::ScrollDown(10)
            } else {
                ReadmeKey::Ignore
            },
            Key::Char('u') => if p.ctrl {
                ReadmeKey::ScrollUp(10)
            } else {
                ReadmeKey::Ignore
            },
            Key::PageDown => ReadmeKey::ScrollDown(20),
            Key::PageUp => ReadmeKey::ScrollUp(20),
            Key::Home | Key::Char('g') => ReadmeKey::Top,
            Key::End | Key::Char('G') => ReadmeKey::Bottom,
            _ => ReadmeKey::Ignore,
        }
    }
}

/// A key in the config menu.
#[derive(Debug, Clone, Copy, PartialEq, Eq, Structural)]
pub enum ConfigKey {
    /// Close without saving.
    Close,
    NextSection,
    PrevSection,
    /// Next item of the section, previewing a theme or provider.
    NextItem,
    PrevItem,
    FocusSave,
    FocusCancel,
    ToggleSource,
    Select,
    Save,
    Ignore,
}

pub open spec fn spec_config_key(key: Key, section: ConfigSection) -> ConfigKey {
    match key {
        Key::Esc => ConfigKey::Close,
        Key::Tab => ConfigKey::NextSection,
        Key::BackTab => ConfigKey::PrevSection,
        Key::Char('j') | Key::Down => ConfigKey::NextItem,
        Key::Char('k') | Key::Up => ConfigKey::PrevItem,
        Key::Char('h') | Key::Left => if section == ConfigSection::Buttons {
            ConfigKey::FocusSave
        } else {
            ConfigKey::Ignore
        },
        Key::Char('l') | Key::Right => if section == ConfigSection::Buttons {
            ConfigKey::FocusCancel
        } else {
            ConfigKey::Ignore
        },
        Key::Char(' ') => if section == ConfigSection::Sources {
            ConfigKey::ToggleSource
        } else if section == ConfigSection::Buttons {
            ConfigKey::Select
        } else {
            ConfigKey::Ignore
        },
        Key::Enter => ConfigKey::Select,
        Key::Char('s') => ConfigKey::Save,
        _ => ConfigKey::Ignore,
    }
}

/// Keys of the config menu: Tab and Shift+Tab change section, j/k move,
/// h/l pick a button, Space toggles a source or presses a button, Enter
/// selects, s saves, Esc closes.
pub fn config_key(key: Key, section: ConfigSection) -> (r: ConfigKey)
    ensures
        r == spec_config_key(key, section),
{
    match key {
        Key::Esc => ConfigKey::Close,
        Key::Tab => ConfigKey::NextSection,
        Key::BackTab => ConfigKey::PrevSection,
        Key::Char('j') | Key::Down => ConfigKey::NextItem,
        Key::Char('k') | Key::Up => ConfigKey::PrevItem,
        Key::Char('h') | Key::Left => if section == ConfigSection::Buttons {
            ConfigKey::FocusSave
        } else {
            ConfigKey::Ignore
        },
        Key::Char('l') | Key::Right => if section == ConfigSection::Buttons {
            ConfigKey::FocusCancel
        } else {
            ConfigKey::Ignore
        },
        Key::Char(' ') => if section == ConfigSection::Sources {
            ConfigKey::ToggleSource
        } else if section == ConfigSection::Buttons {
            ConfigKey::Select
        } else {
            ConfigKey::Ignore
        },
        Key::Enter => ConfigKey::Select,
        Key::Char('s') => ConfigKey::Save,
        _ => ConfigKey::Ignore,
    }
}

/// The list that moves on a tab.
#[derive(Debug, Clone, Copy, PartialEq, Eq, Structural)]
pub enum ListKind {
    Tools,
    Bundles,
    Discover,
}

pub open spec fn spec_list_kind(tab: Tab) -> ListKind {
    match tab {
        Tab::Bundles => ListKind::Bundles,
        Tab::Discover => ListKind::Discover,
        _ => ListKind::Tools,
    }
}

/// The Bundles and Discover tabs have their own lists; the others show
/// tools.
pub fn list_kind(tab: Tab) -> (r: ListKind)
    ensures
        r == spec_list_kind(tab),
{
    match tab {
        Tab::Bundles => ListKind::Bundles,
        Tab::Discover => ListKind::Discover,
        _ => ListKind::Tools,
    }
}

/// The vim-style key map of the lists: 'j' and Down move the selection to
/// the next item of the tab's list, 'k' and Up to the previous one (so Up
/// and Down never do the same), 'g' to the first and 'G' to the last; 'q'
/// quits. The list is the tab's own: bundles on Bundles, results on
/// Discover, tools elsewhere.
pub proof fn law_list_keys(p: KeyPress, tab: Tab)
    ensures
        p.key == Key::Char('j') || p.key == Key::Down ==> spec_normal_action(p, tab)
            == NormalAction::SelectNext(spec_list_kind(tab)),
        p.key == Key::Char('k') || p.key == Key::Up ==> spec_normal_action(p, tab)
            == NormalAction::SelectPrev(spec_list_kind(tab)),
        spec_normal_action(KeyPress { key: Key::Up, ..p }, tab) != spec_normal_action(
            KeyPress { key: Key::Down, ..p },
            tab,
        ),
        p.key == Key::Char('g') ==> spec_normal_action(p, tab) == NormalAction::SelectFirst(
            spec_list_kind(tab),
        ),
        p.key == Key::Char('G') ==> spec_normal_action(p, tab) == NormalAction::SelectLast(
            spec_list_kind(tab),
        ),
        p.key == Key::Char('q') ==> spec_normal_action(p, tab) == NormalAction::Quit,
        spec_list_kind(tab) == ListKind::Bundles <==> tab == Tab::Bundles,
        spec_list_kind(tab) == ListKind::Discover <==> tab == Tab::Discover,
{
}

/// The keys that move between tabs and modes: '1' to '5' open the tabs in
/// their order (Installed, Available, Updates, Bundles, Discover); Tab and
/// ']' go to the next tab, Shift-Tab and '[' to the previous one; '/'
/// starts a search, 'n' and 'N' go to the next and previous hit, ':' opens
/// the command palette and '?' the help.
pub proof fn law_tab_and_mode_keys(p: KeyPress, tab: Tab)
    ensures
        p.key == Key::Char('1') ==> spec_normal_action(p, tab) == NormalAction::SwitchTab(Tab::Installed),
        p.key == Key::Char('2') ==> spec_normal_action(p, tab) == NormalAction::SwitchTab(Tab::Available),
        p.key == Key::Char('3') ==> spec_normal_action(p, tab) == NormalAction::SwitchTab(Tab::Updates),
        p.key == Key::Char('4') ==> spec_normal_action(p, tab) == NormalAction::SwitchTab(Tab::Bundles),
        p.key == Key::Char('5') ==> spec_normal_action(p, tab) == NormalAction::SwitchTab(Tab::Discover),
        p.key == Key::Tab || p.key == Key::Char(']') ==> spec_normal_action(p, tab)
            == NormalAction::NextTab,
        p.key == Key::BackTab || p.key == Key::Char('[') ==> spec_normal_action(p, tab)
            == NormalAction::PrevTab,
        p.key == Key::Char('/') ==> spec_normal_action(p, tab) == NormalAction::EnterSearch,
        p.key == Key::Char('n') ==> spec_normal_action(p, tab) == NormalAction::SearchNext,
        p.key == Key::Char('N') ==> spec_normal_action(p, tab) == NormalAction::SearchPrev,
        p.key == Key::Char(':') ==> spec_normal_action(p, tab) == NormalAction::EnterCommand,
        p.key == Key::Char('?') ==> spec_normal_action(p, tab) == NormalAction::ToggleHelp,
{
}

/// What a key does in normal mode.
#[derive(Debug, Clone, Copy, PartialEq, Eq, Structural)]
pub enum NormalAction {
    Quit,
    SelectNext(ListKind),
    SelectPrev(ListKind),
    SelectFirst(ListKind),
    SelectLast(ListKind),
    /// Ten tools down.
    PageDown,
    /// Ten tools up.
    PageUp,
    NextTab,
    PrevTab,
    SwitchTab(Tab),
    EnterSearch,
    SearchNext,
    SearchPrev,
    EnterJump,
    ToggleFavorite,
    ToggleFavoritesFilter,
    LabelFilterPopup,
    LabelEditPopup,
    EnterCommand,
    ClearSearch,
    CycleSort,
    CycleDiscoverSort,
    ToggleDiscoverAi,
    /// Toggle the discover source at this index (F1 is 0).
    ToggleDiscoverSource(u8),
    /// Toggle the selection of the current tool and move down.
    ToggleSelection,
    SelectAll,
    ClearSelection,
    Install(ListKind),
    TrackBundleTools,
    Uninstall,
    Update,
    OpenReadme,
    ToggleDetails,
    ToggleHelp,
    CycleTheme,
    OpenConfig,
    Undo,
    Redo,
    CheckUpdates,
    Refresh,
    AnalyzeError,
    Nothing,
}

pub open spec fn spec_normal_action(p: KeyPress, tab: Tab) -> NormalAction {
    let list = spec_list_kind(tab);
    let discover = tab == Tab::Discover;
    match p.key {
        Key::Char('q') => NormalAction::Quit,
        Key::Char('c') => if p.ctrl {
            NormalAction::Quit
        } else {
            NormalAction::OpenConfig
        },
        Key::Char('j') | Key::Down => NormalAction::SelectNext(list),
        Key::Char('k') | Key::Up => NormalAction::SelectPrev(list),
        Key::Char('g') => NormalAction::SelectFirst(list),
        Key::Char('G') => NormalAction::SelectLast(list),
        Key::PageDown => if p.ctrl {
            NormalAction::PageDown
        } else {
            NormalAction::Nothing
        },
        Key::Char('d') => if p.ctrl {
            NormalAction::PageDown
        } else {
            NormalAction::Nothing
        },
        Key::PageUp => if p.ctrl {
            NormalAction::PageUp
        } else {
            NormalAction::Nothing
        },
        Key::Char('u') => if p.ctrl {
            NormalAction::PageUp
        } else {
            NormalAction::Update
        },
        Key::Tab | Key::Char(']') => NormalAction::NextTab,
        Key::BackTab | Key::Char('[') => NormalAction::PrevTab,
        Key::Char('1') => NormalAction::SwitchTab(Tab::Installed),
        Key::Char('2') => NormalAction::SwitchTab(Tab::Available),
        Key::Char('3') => NormalAction::SwitchTab(Tab::Updates),
        Key::Char('4') => NormalAction::SwitchTab(Tab::Bundles),
        Key::Char('5') => NormalAction::SwitchTab(Tab::Discover),
        Key::Char('/') => NormalAction::EnterSearch,
        Key::Char('n') => NormalAction::SearchNext,
        Key::Char('N') => NormalAction::SearchPrev,
        Key::Char('f') => NormalAction::EnterJump,
        Key::Char('*') => NormalAction::ToggleFavorite,
        Key::Char('F') => NormalAction::ToggleFavoritesFilter,
        Key::Char('l') => if !discover {
            NormalAction::LabelFilterPopup
        } else {
            NormalAction::Nothing
        },
        Key::Char('L') => if !discover {
            NormalAction::LabelEditPopup
        } else {
            NormalAction::Nothing
        },
        Key::Char(':') => NormalAction::EnterCommand,
        Key::Esc => NormalAction::ClearSearch,
        Key::Char('s') => if discover {
            NormalAction::CycleDiscoverSort
        } else {
            NormalAction::CycleSort
        },
        Key::Char('A') => if discover {
            NormalAction::ToggleDiscoverAi
        } else {
            NormalAction::Nothing
        },
        Key::F(n) => if 1 <= n <= 6 && discover {
            NormalAction::ToggleDiscoverSource((n - 1) as u8)
        } else {
            NormalAction::Nothing
        },
        Key::Char(' ') => NormalAction::ToggleSelection,
        Key::Char('a') => if p.ctrl {
            NormalAction::SelectAll
        } else if tab == Tab::Bundles {
            NormalAction::TrackBundleTools
        } else {
            NormalAction::AnalyzeError
        },
        Key::Char('x') => NormalAction::ClearSelection,
        Key::Char('i') => NormalAction::Install(list),
        Key::Char('D') => NormalAction::Uninstall,
        Key::Enter => if discover {
            NormalAction::OpenReadme
        } else {
            NormalAction::ToggleDetails
        },
        Key::Char('?') => NormalAction::ToggleHelp,
        Key::Char('t') => NormalAction::CycleTheme,
        Key::Char('z') => if p.ctrl {
            NormalAction::Undo
        } else {
            NormalAction::Nothing
        },
        Key::Char('y') => if p.ctrl {
            NormalAction::Redo
        } else {
            NormalAction::Nothing
        },
        Key::Char('r') => if tab == Tab::Updates {
            NormalAction::CheckUpdates
        } else {
            NormalAction::Refresh
        },
        _ => NormalAction::Nothing,
    }
}

/// The normal-mode key map (vim-style), on the given tab.
pub fn normal_action(p: KeyPress, tab: Tab) -> (r: NormalAction)
    ensures
        r == spec_normal_action(p, tab),
{
    let list = list_kind(tab);
    let discover = tab == Tab::Discover;
    match p.key {
        Key::Char('q') => NormalAction::Quit,
        Key::Char('c') => if p.ctrl {
            NormalAction::Quit
        } else {
            NormalAction::OpenConfig
        },
        Key::Char('j') | Key::Down => NormalAction::SelectNext(list),
        Key::Char('k') | Key::Up => NormalAction::SelectPrev(list),
        Key::Char('g') => NormalAction::SelectFirst(list),
        Key::Char('G') => NormalAction::SelectLast(list),
        Key::PageDown => if p.ctrl {
            NormalAction::PageDown
        } else {
            NormalAction::Nothing
        },
        Key::Char('d') => if p.ctrl {
            NormalAction::PageDown
        } else {
            NormalAction::Nothing
        },
        Key::PageUp => if p.ctrl {
            NormalAction::PageUp
        } else {
            NormalAction::Nothing
        },
        Key::Char('u') => if p.ctrl {
            NormalAction::PageUp
        } else {
            NormalAction::Update
        },
        Key::Tab | Key::Char(']') => NormalAction::NextTab,
        Key::BackTab | Key::Char('[') => NormalAction::PrevTab,
        Key::Char('1') => NormalAction::SwitchTab(Tab::Installed),
        Key::Char('2') => NormalAction::SwitchTab(Tab::Available),
        Key::Char('3') => NormalAction::SwitchTab(Tab::Updates),
        Key::Char('4') => NormalAction::SwitchTab(Tab::Bundles),
        Key::Char('5') => NormalAction::SwitchTab(Tab::Discover),
        Key::Char('/') => NormalAction::EnterSearch,
        Key::Char('n') => NormalAction::SearchNext,
        Key::Char('N') => NormalAction::SearchPrev,
        Key::Char('f') => NormalAction::EnterJump,
        Key::Char('*') => NormalAction::ToggleFavorite,
        Key::Char('F') => NormalAction::ToggleFavoritesFilter,
        Key::Char('l') => if !discover {
            NormalAction::LabelFilterPopup
        } else {
            NormalAction::Nothing
        },
        Key::Char('L') => if !discover {
            NormalAction::LabelEditPopup
        } else {
            NormalAction::Nothing
        },
        Key::Char(':') => NormalAction::EnterCommand,
        Key::Esc => NormalAction::ClearSearch,
        Key::Char('s') => if discover {
            NormalAction::CycleDiscoverSort
        } else {
            NormalAction::CycleSort
        },
        Key::Char('A') => if discover {
            NormalAction::ToggleDiscoverAi
        } else {
            NormalAction::Nothing
        },
        Key::F(n) => if 1 <= n && n <= 6 && discover {
            NormalAction::ToggleDiscoverSource(n - 1)
        } else {
            NormalAction::Nothing
        },
        Key::Char(' ') => NormalAction::ToggleSelection,
        Key::Char('a') => if p.ctrl {
            NormalAction::SelectAll
        } else if tab == Tab::Bundles {
            NormalAction::TrackBundleTools
        } else {
            NormalAction::AnalyzeError
        },
        Key::Char('x') => NormalAction::ClearSelection,
        Key::Char('i') => NormalAction::Install(list),
        Key::Char('D') => NormalAction::Uninstall,
        Key::Enter => if discover {
            NormalAction::OpenReadme
        } else {
            NormalAction::ToggleDetails
        },
        Key::Char('?') => NormalAction::ToggleHelp,
        Key::Char('t') => NormalAction::CycleTheme,
        Key::Char('z') => if p.ctrl {
            NormalAction::Undo
        } else {
            NormalAction::Nothing
        },
        Key::Char('y') => if p.ctrl {
            NormalAction::Redo
        } else {
            NormalAction::Nothing
        },
        Key::Char('r') => if tab == Tab::Updates {
            NormalAction::CheckUpdates
        } else {
            NormalAction::Refresh
        },
        _ => NormalAction::Nothing,
    }
}

/// A key while typing a search.
#[derive(Debug, Clone, Copy, PartialEq, Eq, Structural)]
pub enum SearchAction {
    Exit,
    /// Leave the search, keeping the query (and on Discover, search).
    Submit,
    HistoryOlder,
    HistoryNewer,
    DeleteChar,
    Type(char),
    Ignore,
}

pub open spec fn spec_search_action(key: Key, tab: Tab) -> SearchAction {
    match key {
        Key::Esc => SearchAction::Exit,
        Key::Enter => SearchAction::Submit,
        Key::Up => if tab == Tab::Discover {
            SearchAction::HistoryOlder
        } else {
            SearchAction::Ignore
        },
        Key::Down => if tab == Tab::Discover {
            SearchAction::HistoryNewer
        } else {
            SearchAction::Ignore
        },
        Key::Backspace => SearchAction::DeleteChar,
        Key::Char(c) => SearchAction::Type(c),
        _ => SearchAction::Ignore,
    }
}

/// Keys of search mode; Discover searches also walk their history.
pub fn search_action(key: Key, tab: Tab) -> (r: SearchAction)
    ensures
        r == spec_search_action(key, tab),
{
    match key {
        Key::Esc => SearchAction::Exit,
        Key::Enter => SearchAction::Submit,
        Key::Up => if tab == Tab::Discover {
            SearchAction::HistoryOlder
        } else {
            SearchAction::Ignore
        },
        Key::Down => if tab == Tab::Discover {
            SearchAction::HistoryNewer
        } else {
            SearchAction::Ignore
        },
        Key::Backspace => SearchAction::DeleteChar,
        Key::Char(c) => SearchAction::Type(c),
        _ => SearchAction::Ignore,
    }
}

/// A key in the command palette.
#[derive(Debug, Clone, Copy, PartialEq, Eq, Structural)]
pub enum CommandAction {
    Exit,
    Execute,
    Autocomplete,
    HistoryPrev,
    HistoryNext,
    DeleteChar,
    Type(char),
    Ignore,
}

pub open spec fn spec_command_action(key: Key, input_empty: bool) -> CommandAction {
    match key {
        Key::Esc => CommandAction::Exit,
        Key::Enter => CommandAction::Execute,
        Key::Tab => CommandAction::Autocomplete,
        Key::Up => CommandAction::HistoryPrev,
        Key::Down => CommandAction::HistoryNext,
        Key::Backspace => if input_empty {
            CommandAction::Exit
        } else {
            CommandAction::DeleteChar
        },
        Key::Char(c) => CommandAction::Type(c),
        _ => CommandAction::Ignore,
    }
}

/// Keys of the command palette; Backspace on empty input closes it.
pub fn command_action(key: Key, input_empty: bool) -> (r: CommandAction)
    ensures
        r == spec_command_action(key, input_empty),
{
    match key {
        Key::Esc => CommandAction::Exit,
        Key::Enter => CommandAction::Execute,
        Key::Tab => CommandAction::Autocomplete,
        Key::Up => CommandAction::HistoryPrev,
        Key::Down => CommandAction::HistoryNext,
        Key::Backspace => if input_empty {
            CommandAction::Exit
        } else {
            CommandAction::DeleteChar
        },
        Key::Char(c) => CommandAction::Type(c),
        _ => CommandAction::Ignore,
    }
}

/// In jump mode a letter jumps to the first tool starting with it; any
/// other key leaves the mode.
pub fn jump_letter(key: Key) -> (r: Option<char>)
    ensures
        r == match key {
            Key::Char(c) => if ('a' <= c <= 'z') || ('A' <= c <= 'Z') {
                Some(c)
            } else {
                None
            },
            _ => None,
        },
{
    match key {
        Key::Char(c) => if ('a' <= c && c <= 'z') || ('A' <= c && c <= 'Z') {
            Some(c)
        } else {
            None
        },
        _ => None,
    }
}

/// A key in the label filter popup.
#[derive(Debug, Clone, Copy, PartialEq, Eq, Structural)]
pub enum LabelFilterAction {
    Close,
    /// Apply the selected row, then close.
    ApplyAndClose,
    /// Apply the selected row and stay (to pick several labels).
    Apply,
    Move(PopupMove),
    /// Delete the last search character (the cursor goes to the top).
    DeleteChar,
    ToggleSort,
    /// Type into the search (the cursor goes to the top).
    Type(char),
    Ignore,
}

pub open spec fn spec_label_filter_action(p: KeyPress) -> LabelFilterAction {
    match p.key {
        Key::Esc => LabelFilterAction::Close,
        Key::Enter => LabelFilterAction::ApplyAndClose,
        Key::Tab => LabelFilterAction::Apply,
        Key::Up => LabelFilterAction::Move(PopupMove::Up),
        Key::Down => LabelFilterAction::Move(PopupMove::Down),
        Key::Backspace => LabelFilterAction::DeleteChar,
        Key::PageUp => LabelFilterAction::Move(PopupMove::PageUp),
        Key::PageDown => LabelFilterAction::Move(PopupMove::PageDown),
        Key::Home => LabelFilterAction::Move(PopupMove::Home),
        Key::End => LabelFilterAction::Move(PopupMove::End),
        Key::Char(c) => if c == 's' && p.ctrl {
            LabelFilterAction::ToggleSort
        } else {
            LabelFilterAction::Type(c)
        },
        _ => LabelFilterAction::Ignore,
    }
}

/// Keys of the label filter popup: Enter applies the row and closes, Tab
/// applies it and stays, Ctrl+S switches the order, other characters
/// search.
pub fn label_filter_action(p: KeyPress) -> (r: LabelFilterAction)
    ensures
        r == spec_label_filter_action(p),
{
    match p.key {
        Key::Esc => LabelFilterAction::Close,
        Key::Enter => LabelFilterAction::ApplyAndClose,
        Key::Tab => LabelFilterAction::Apply,
        Key::Up => LabelFilterAction::Move(PopupMove::Up),
        Key::Down => LabelFilterAction::Move(PopupMove::Down),
        Key::Backspace => LabelFilterAction::DeleteChar,
        Key::PageUp => LabelFilterAction::Move(PopupMove::PageUp),
        Key::PageDown => LabelFilterAction::Move(PopupMove::PageDown),
        Key::Home => LabelFilterAction::Move(PopupMove::Home),
        Key::End => LabelFilterAction::Move(PopupMove::End),
        Key::Char(c) => if c == 's' && p.ctrl {
            LabelFilterAction::ToggleSort
        } else {
            LabelFilterAction::Type(c)
        },
        _ => LabelFilterAction::Ignore,
    }
}

/// A key in the label edit popup, whose row 0 is the input.
#[derive(Debug, Clone, Copy, PartialEq, Eq, Structural)]
pub enum LabelEditAction {
    Close,
    /// Move to this row.
    Select(usize),
    AddLabel,
    RemoveLabel,
    DeleteChar,
    Type(char),
    Ignore,
}

/// A character that labels may hold.
pub open spec fn label_char(c: char) -> bool {
    is_alphanumeric(c) || c == '-' || c == '_'
}

pub open spec fn spec_label_edit_action(key: Key, selected: usize, total: usize) -> LabelEditAction {
    match key {
        Key::Esc | Key::Char('q') => LabelEditAction::Close,
        Key::Up => if selected > 0 {
            LabelEditAction::Select((selected - 1) as usize)
        } else {
            LabelEditAction::Ignore
        },
        Key::Char('k') => if selected > 0 {
            LabelEditAction::Select((selected - 1) as usize)
        } else {
            LabelEditAction::Type('k')
        },
        Key::Down | Key::Char('j') => if selected < total - 1 {
            LabelEditAction::Select((selected + 1) as usize)
        } else {
            LabelEditAction::Ignore
        },
        Key::Tab => LabelEditAction::Select(((selected + 1) % (total as int)) as usize),
        Key::BackTab => LabelEditAction::Select(
            if selected > 0 {
                (selected - 1) as usize
            } else {
                (total - 1) as usize
            },
        ),
        Key::Enter => if selected == 0 {
            LabelEditAction::AddLabel
        } else {
            LabelEditAction::Ignore
        },
        Key::Char('d') | Key::Delete => if selected > 0 {
            LabelEditAction::RemoveLabel
        } else {
            LabelEditAction::Ignore
        },
        Key::Backspace => if selected == 0 {
            LabelEditAction::DeleteChar
        } else {
            LabelEditAction::RemoveLabel
        },
        Key::Char(c) => if selected == 0 && label_char(c) {
            LabelEditAction::Type(c)
        } else {
            LabelEditAction::Ignore
        },
        _ => LabelEditAction::Ignore,
    }
}

/// Keys of the label edit popup with `total` rows (the input and the
/// tool's labels): Enter adds the typed label, d, Delete or Backspace on a
/// label removes it, and only letters, digits, '-' and '_' can be typed.
pub fn label_edit_action(key: Key, selected: usize, total: usize) -> (r: LabelEditAction)
    requires
        1 <= total,
        selected < usize::MAX,
    ensures
        r == spec_label_edit_action(key, selected, total),
{
    match key {
        Key::Esc | Key::Char('q') => LabelEditAction::Close,
        Key::Up => if selected > 0 {
            LabelEditAction::Select(selected - 1)
        } else {
            LabelEditAction::Ignore
        },
        Key::Char('k') => if selected > 0 {
            LabelEditAction::Select(selected - 1)
        } else {
            LabelEditAction::Type('k')
        },
        Key::Down | Key::Char('j') => if selected < total - 1 {
            LabelEditAction::Select(selected + 1)
        } else {
            LabelEditAction::Ignore
        },
        Key::Tab => LabelEditAction::Select((selected + 1) % total),
        Key::BackTab => LabelEditAction::Select(
            if selected > 0 {
                selected - 1
            } else {
                total - 1
            },
        ),
        Key::Enter => if selected == 0 {
            LabelEditAction::AddLabel
        } else {
            LabelEditAction::Ignore
        },
        Key::Char('d') | Key::Delete => if selected > 0 {
            LabelEditAction::RemoveLabel
        } else {
            LabelEditAction::Ignore
        },
        Key::Backspace => if selected == 0 {
            LabelEditAction::DeleteChar
        } else {
            LabelEditAction::RemoveLabel
        },
        Key::Char(c) => if selected == 0 && (char_is_alphanumeric(c) || c == '-' || c == '_') {
            LabelEditAction::Type(c)
        } else {
            LabelEditAction::Ignore
        },
        _ => LabelEditAction::Ignore,
    }
}

} // verus!
