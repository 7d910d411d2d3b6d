use hoards::install::OutputScroll;
use hoards::keys::{
    closes, command_action, config_key, dialog_key, install_key, jump_letter, label_edit_action,
    label_filter_action, normal_action, readme_key, route_key, search_action, CommandAction,
    ConfigKey, DialogKey, InstallKey, Key, KeyContext, KeyPress, KeyRoute, LabelEditAction,
    LabelFilterAction, ListKind, NormalAction, ReadmeKey, SearchAction,
};
use hoards::labels::PopupMove;
use hoards::types::{ConfigSection, InputMode, Tab};

fn ctx() -> KeyContext {
    KeyContext {
        pending_action: false,
        source_selection: false,
        error_modal: false,
        install_running: false,
        readme_open: false,
        help_shown: false,
        config_menu: false,
        details_popup: false,
        label_filter_popup: false,
        label_edit_popup: false,
        mode: InputMode::Normal,
    }
}

fn plain(c: char) -> KeyPress {
    KeyPress { key: Key::Char(c), ctrl: false }
}

fn ctrl(c: char) -> KeyPress {
    KeyPress { key: Key::Char(c), ctrl: true }
}

#[test]
fn dialogs_take_keys_first() {
    let mut c = ctx();
    c.help_shown = true;
    c.error_modal = true;
    c.pending_action = true;
    assert_eq!(route_key(&c), KeyRoute::Confirmation);
    c.source_selection = true;
    assert_eq!(route_key(&c), KeyRoute::SourceSelection);
    c.pending_action = false;
    assert_eq!(route_key(&c), KeyRoute::ErrorModal);
    c.error_modal = false;
    assert_eq!(route_key(&c), KeyRoute::Help);
    let mut c = ctx();
    c.mode = InputMode::Search;
    assert_eq!(route_key(&c), KeyRoute::Mode(InputMode::Search));
}

#[test]
fn dialog_answers() {
    assert_eq!(dialog_key(Key::Char('Y'), false), DialogKey::Confirm);
    assert_eq!(dialog_key(Key::Esc, false), DialogKey::Cancel);
    assert_eq!(dialog_key(Key::Enter, false), DialogKey::Ignore);
    assert_eq!(dialog_key(Key::Char('j'), true), DialogKey::Down);
    assert_eq!(dialog_key(Key::Enter, true), DialogKey::Confirm);
    assert!(closes(KeyRoute::Help, Key::Char('?')));
    assert!(!closes(KeyRoute::Details, Key::Char('?')));
    assert!(closes(KeyRoute::ErrorModal, Key::Enter));
}

#[test]
fn install_output_keys() {
    assert_eq!(install_key(Key::Esc), InstallKey::Cancel);
    assert_eq!(install_key(Key::Char('k')), InstallKey::Scroll(OutputScroll::LineUp));
    assert_eq!(install_key(Key::PageDown), InstallKey::Scroll(OutputScroll::PageDown));
    assert_eq!(install_key(Key::Char('q')), InstallKey::Ignore);
}

#[test]
fn readme_keys() {
    assert_eq!(readme_key(ctrl('d'), false), ReadmeKey::ScrollDown(10));
    assert_eq!(readme_key(plain('d'), false), ReadmeKey::Ignore);
    assert_eq!(readme_key(KeyPress { key: Key::PageUp, ctrl: false }, false), ReadmeKey::ScrollUp(20));
    assert_eq!(readme_key(plain('G'), false), ReadmeKey::Bottom);
    assert_eq!(readme_key(plain('q'), true), ReadmeKey::HideLinks);
    assert_eq!(readme_key(plain('q'), false), ReadmeKey::Close);
}

#[test]
fn config_menu_keys() {
    assert_eq!(config_key(Key::Char('h'), ConfigSection::Buttons), ConfigKey::FocusSave);
    assert_eq!(config_key(Key::Char('h'), ConfigSection::Theme), ConfigKey::Ignore);
    assert_eq!(config_key(Key::Char(' '), ConfigSection::Sources), ConfigKey::ToggleSource);
    assert_eq!(config_key(Key::Char(' '), ConfigSection::Buttons), ConfigKey::Select);
    assert_eq!(config_key(Key::BackTab, ConfigSection::Theme), ConfigKey::PrevSection);
}

#[test]
fn normal_mode_keys() {
    assert_eq!(normal_action(plain('q'), Tab::Installed), NormalAction::Quit);
    assert_eq!(normal_action(ctrl('c'), Tab::Installed), NormalAction::Quit);
    assert_eq!(normal_action(plain('c'), Tab::Installed), NormalAction::OpenConfig);
    assert_eq!(normal_action(plain('j'), Tab::Bundles), NormalAction::SelectNext(ListKind::Bundles));
    assert_eq!(normal_action(plain('u'), Tab::Installed), NormalAction::Update);
    assert_eq!(normal_action(ctrl('u'), Tab::Installed), NormalAction::PageUp);
    assert_eq!(normal_action(plain('d'), Tab::Installed), NormalAction::Nothing);
    assert_eq!(normal_action(plain('a'), Tab::Bundles), NormalAction::TrackBundleTools);
    assert_eq!(normal_action(plain('a'), Tab::Installed), NormalAction::AnalyzeError);
    assert_eq!(normal_action(ctrl('a'), Tab::Bundles), NormalAction::SelectAll);
    assert_eq!(
        normal_action(KeyPress { key: Key::F(3), ctrl: false }, Tab::Discover),
        NormalAction::ToggleDiscoverSource(2)
    );
    assert_eq!(normal_action(KeyPress { key: Key::F(7), ctrl: false }, Tab::Discover), NormalAction::Nothing);
    assert_eq!(normal_action(plain('l'), Tab::Discover), NormalAction::Nothing);
    assert_eq!(normal_action(plain('r'), Tab::Updates), NormalAction::CheckUpdates);
    assert_eq!(normal_action(plain('4'), Tab::Installed), NormalAction::SwitchTab(Tab::Bundles));
    assert_eq!(normal_action(KeyPress { key: Key::Enter, ctrl: false }, Tab::Discover), NormalAction::OpenReadme);
}

#[test]
fn search_and_command_keys() {
    assert_eq!(search_action(Key::Up, Tab::Discover), SearchAction::HistoryOlder);
    assert_eq!(search_action(Key::Up, Tab::Installed), SearchAction::Ignore);
    assert_eq!(search_action(Key::Char('x'), Tab::Installed), SearchAction::Type('x'));
    assert_eq!(command_action(Key::Backspace, true), CommandAction::Exit);
    assert_eq!(command_action(Key::Backspace, false), CommandAction::DeleteChar);
    assert_eq!(command_action(Key::Tab, false), CommandAction::Autocomplete);
    assert_eq!(jump_letter(Key::Char('R')), Some('R'));
    assert_eq!(jump_letter(Key::Char('3')), None);
    assert_eq!(jump_letter(Key::Esc), None);
}

#[test]
fn label_popup_keys() {
    assert_eq!(label_filter_action(ctrl('s')), LabelFilterAction::ToggleSort);
    assert_eq!(label_filter_action(plain('s')), LabelFilterAction::Type('s'));
    assert_eq!(
        label_filter_action(KeyPress { key: Key::End, ctrl: false }),
        LabelFilterAction::Move(PopupMove::End)
    );
    assert_eq!(label_edit_action(Key::Char('k'), 0, 3), LabelEditAction::Type('k'));
    assert_eq!(label_edit_action(Key::Char('k'), 2, 3), LabelEditAction::Select(1));
    assert_eq!(label_edit_action(Key::Char('j'), 2, 3), LabelEditAction::Ignore);
    assert_eq!(label_edit_action(Key::Tab, 2, 3), LabelEditAction::Select(0));
    assert_eq!(label_edit_action(Key::BackTab, 0, 3), LabelEditAction::Select(2));
    assert_eq!(label_edit_action(Key::Char('d'), 0, 3), LabelEditAction::Ignore);
    assert_eq!(label_edit_action(Key::Backspace, 1, 3), LabelEditAction::RemoveLabel);
    assert_eq!(label_edit_action(Key::Char('!'), 0, 3), LabelEditAction::Ignore);
    assert_eq!(label_edit_action(Key::Char('_'), 0, 3), LabelEditAction::Type('_'));
}
