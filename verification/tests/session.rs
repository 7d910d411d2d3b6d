use hoards::commands::CommandKind;
use hoards::keys::Key;
use hoards::session::{AppAction, Session};
use hoards::types::InputMode;

#[test]
fn test_command_mode_enter_exit() {
    let mut app = Session::new();

    assert_eq!(app.input_mode, InputMode::Normal);
    assert!(app.command.input().is_empty());

    app.enter_command();
    assert_eq!(app.input_mode, InputMode::Command);
    assert!(app.command.input().is_empty());

    app.command_push('q');
    assert_eq!(app.command.input(), "q");

    app.exit_command();
    assert_eq!(app.input_mode, InputMode::Normal);
    assert!(app.command.input().is_empty());
}

#[test]
fn test_command_execute_help() {
    let mut app = Session::new();

    app.enter_command();
    app.command_push('h');
    app.execute_command();

    assert!(app.show_help);
    assert_eq!(app.input_mode, InputMode::Normal);
}

#[test]
fn test_command_execute_quit() {
    let mut app = Session::new();

    assert!(app.running);
    app.enter_command();
    app.command_push('q');
    app.execute_command();

    assert!(!app.running);
}

#[test]
fn test_command_unknown() {
    let mut app = Session::new();

    app.enter_command();
    for c in "invalidcmd".chars() {
        app.command_push(c);
    }
    app.execute_command();

    // Should have status message about unknown command
    assert!(app.status_message.is_some());
    assert!(app.status_message.as_ref().unwrap().is_error);
    assert_eq!(app.status_message.as_ref().unwrap().text, "Unknown command: invalidcmd");
    assert_eq!(app.input_mode, InputMode::Normal);
}

#[test]
fn test_set_list_area() {
    let mut app = Session::new();

    assert!(app.last_list_area.is_none());

    app.set_list_area(10, 20, 100, 50);
    assert_eq!(app.last_list_area, Some((10, 20, 100, 50)));
}

#[test]
fn test_set_tab_area() {
    let mut app = Session::new();

    assert!(app.last_tab_area.is_none());

    app.set_tab_area(0, 0, 120, 3);
    assert_eq!(app.last_tab_area, Some((0, 0, 120, 3)));
}

#[test]
fn palette_keys_step_the_session() {
    let mut app = Session::new();
    app.enter_command();
    for c in "so".chars() {
        assert!(matches!(app.command_key(Key::Char(c)), AppAction::Nothing));
    }
    app.command_key(Key::Tab);
    assert_eq!(app.command.input(), "sort");
    app.command_key(Key::Backspace);
    assert_eq!(app.command.input(), "sor");
    app.command_key(Key::Char('t'));
    match app.command_key(Key::Enter) {
        AppAction::Run(c) => {
            assert_eq!(c.kind, CommandKind::Sort);
            assert_eq!(c.text, "sort");
        }
        AppAction::Nothing => panic!("sort is carried out by the application"),
    }
    assert_eq!(app.input_mode, InputMode::Normal);
    assert!(app.command.input().is_empty());

    app.enter_command();
    app.command_key(Key::Up);
    assert_eq!(app.command.input(), "sort");
    app.command_key(Key::Down);
    assert_eq!(app.command.input(), "");
    app.command_key(Key::Backspace);
    assert_eq!(app.input_mode, InputMode::Normal);

    app.enter_command();
    app.command_key(Key::Char('x'));
    app.command_key(Key::Esc);
    assert_eq!(app.input_mode, InputMode::Normal);
    assert!(app.command.input().is_empty());
    assert!(app.running);

    app.enter_command();
    app.command_key(Key::Char('q'));
    assert!(matches!(app.command_key(Key::Enter), AppAction::Nothing));
    assert!(!app.running);
}

#[test]
fn help_toggles() {
    let mut app = Session::new();
    app.toggle_help();
    assert!(app.show_help);
    app.toggle_help();
    assert!(!app.show_help);
    app.set_status("Saved".to_string(), false);
    assert!(!app.status_message.as_ref().unwrap().is_error);
}
