use hoards::history::{ActionHistory, UndoableAction};
use hoards::types::{SortBy, Tab};
use hoards::undo::{HistoryKind, ViewState};

#[test]
fn test_action_history() {
    let mut history = ActionHistory::new(3);

    assert!(!history.can_undo());
    assert!(!history.can_redo());

    history.push(UndoableAction::Filter("a".to_string()));
    history.push(UndoableAction::Filter("b".to_string()));
    assert!(history.can_undo());

    let action = history.pop_undo().unwrap();
    if let UndoableAction::Filter(s) = action {
        assert_eq!(s, "b");
    }

    history.push_redo(UndoableAction::Filter("b".to_string()));
    assert!(history.can_redo());

    let action = history.pop_redo().unwrap();
    if let UndoableAction::Filter(s) = action {
        assert_eq!(s, "b");
    }
}

#[test]
fn test_history_max_size() {
    let mut history = ActionHistory::new(2);

    history.push(UndoableAction::Filter("a".to_string()));
    history.push(UndoableAction::Filter("b".to_string()));
    history.push(UndoableAction::Filter("c".to_string()));

    assert!(history.can_undo());
    let _ = history.pop_undo(); // c
    let action = history.pop_undo(); // b
    if let Some(UndoableAction::Filter(s)) = action {
        assert_eq!(s, "b");
    }

    assert!(!history.can_undo());
}

#[test]
fn push_clears_redo() {
    let mut history = ActionHistory::new(5);
    history.push(UndoableAction::Sort(SortBy::Name));
    let a = history.pop_undo().unwrap();
    history.push_redo(a);
    assert!(history.can_redo());
    history.push(UndoableAction::TabSwitch(Tab::Updates));
    assert!(!history.can_redo());
    assert_eq!(history.undo_stack.len(), 1);
}

#[test]
fn pop_on_empty_stacks() {
    let mut history = ActionHistory::new(1);
    assert!(history.pop_undo().is_none());
    assert!(history.pop_redo().is_none());
}

#[test]
fn test_undo_selection() {
    let mut view = ViewState::new(50);
    assert!(view.selected_tools.is_empty());

    view.record_selection();
    view.selected_tools.insert("tool1".to_string());
    view.selected_tools.insert("tool2".to_string());

    assert_eq!(view.undo(), Some(HistoryKind::Selection));
    assert!(view.selected_tools.is_empty());
}

#[test]
fn test_undo_filter() {
    let mut view = ViewState::new(50);
    view.search_query = "old_filter".to_string();
    view.record_filter();
    view.search_query = "new_filter".to_string();

    view.undo();
    assert_eq!(view.search_query, "old_filter");
}

#[test]
fn test_redo() {
    let mut view = ViewState::new(50);
    view.search_query = "filter1".to_string();
    view.record_filter();
    view.search_query = "filter2".to_string();

    view.undo();
    assert_eq!(view.search_query, "filter1");

    assert_eq!(view.redo(), Some(HistoryKind::Filter));
    assert_eq!(view.search_query, "filter2");
}

#[test]
fn undo_redo_nothing_to_do() {
    let mut view = ViewState::new(50);
    assert_eq!(view.undo(), None);
    assert_eq!(view.redo(), None);
}

#[test]
fn undo_then_redo_restores_selection() {
    let mut view = ViewState::new(10);
    view.selected_tools.insert("a".to_string());
    view.record_selection();
    view.selected_tools.insert("b".to_string());
    view.undo();
    assert_eq!(view.selected_tools.len(), 1);
    view.redo();
    assert_eq!(view.selected_tools.len(), 2);
    assert!(view.selected_tools.contains("b"));
    assert!(view.history.can_undo());
    assert!(!view.history.can_redo());
}
