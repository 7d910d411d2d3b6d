use hoards::command::{CommandPalette, MAX_COMMAND_HISTORY};

#[test]
fn history_walk_restores_typed_input() {
    let mut p = CommandPalette::new();
    p.add_to_history("help".to_string());
    p.add_to_history("quit".to_string());
    p.set_input("th".to_string());
    p.history_prev();
    assert_eq!(p.input(), "quit");
    p.history_prev();
    assert_eq!(p.input(), "help");
    p.history_prev();
    assert_eq!(p.input(), "help");
    p.history_next();
    assert_eq!(p.input(), "quit");
    p.history_next();
    assert_eq!(p.input(), "th");
}

#[test]
fn history_skips_empty_and_repeated_commands() {
    let mut p = CommandPalette::new();
    p.add_to_history("sort".to_string());
    p.add_to_history("sort".to_string());
    p.add_to_history(String::new());
    p.history_prev();
    assert_eq!(p.input(), "sort");
    p.history_prev();
    assert_eq!(p.input(), "sort");
}

#[test]
fn history_is_bounded() {
    let mut p = CommandPalette::new();
    for i in 0..(MAX_COMMAND_HISTORY + 5) {
        p.add_to_history(format!("c{}", i));
    }
    for _ in 0..(MAX_COMMAND_HISTORY + 10) {
        p.history_prev();
    }
    assert_eq!(p.input(), "c5");
}

#[test]
fn clear_empties_input() {
    let mut p = CommandPalette::new();
    p.set_input("abc".to_string());
    p.clear();
    assert_eq!(p.input(), "");
    p.add_to_history("x".to_string());
    p.history_prev();
    p.clear_history_nav();
    p.history_next();
    assert_eq!(p.input(), "x");
}

#[test]
fn test_command_push_pop() {
    // Entering command mode clears the palette.
    let mut p = CommandPalette::new();
    p.clear();
    p.push_char('h');
    p.push_char('e');
    p.push_char('l');
    p.push_char('p');
    assert_eq!(p.input(), "help");

    p.pop_char();
    assert_eq!(p.input(), "hel");

    p.pop_char();
    p.pop_char();
    p.pop_char();
    assert!(p.input().is_empty());
    p.pop_char();
    assert!(p.input().is_empty());
}

#[test]
fn history_any_steps_back_and_forth_restore_input() {
    let mut p = CommandPalette::new();
    for cmd in ["help", "quit", "sort name", "theme"] {
        p.add_to_history(cmd.to_string());
    }
    for k in 0..7 {
        p.set_input("ins".to_string());
        for _ in 0..k {
            p.history_prev();
        }
        for _ in 0..k {
            p.history_next();
        }
        assert_eq!(p.input(), "ins", "after {} steps", k);
        p.history_prev();
        assert_eq!(p.input(), "theme");
        p.history_next();
    }
    let mut empty = CommandPalette::new();
    empty.set_input("x".to_string());
    empty.history_prev();
    empty.history_next();
    assert_eq!(empty.input(), "x");
}
