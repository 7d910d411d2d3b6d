use hoards::lists::{
    jump_target, next_index, prev_index, search_next_index, search_prev_index, Bundle, BundleState,
};

fn bundle(name: &str) -> Bundle {
    Bundle { name: name.to_string(), description: None, tools: Vec::new() }
}

#[test]
fn list_moves_stop_at_the_ends() {
    assert_eq!(next_index(0, 3), 1);
    assert_eq!(next_index(2, 3), 2);
    assert_eq!(next_index(5, 0), 5);
    assert_eq!(prev_index(0), 0);
    assert_eq!(prev_index(4), 3);
}

#[test]
fn search_moves_wrap() {
    assert_eq!(search_next_index(2, 3), Some((0, true)));
    assert_eq!(search_next_index(0, 3), Some((1, false)));
    assert_eq!(search_prev_index(0, 3), Some((2, true)));
    assert_eq!(search_prev_index(2, 3), Some((1, false)));
    assert_eq!(search_next_index(0, 0), None);
}

#[test]
fn jump_to_letter_ignores_case() {
    let names = vec!["bat".to_string(), "Ripgrep".to_string(), "rg".to_string()];
    assert_eq!(jump_target(&names, 'r'), Some(1));
    assert_eq!(jump_target(&names, 'b'), Some(0));
    assert_eq!(jump_target(&names, 'z'), None);
}

#[test]
fn bundle_selection() {
    let mut s = BundleState::new(vec![bundle("a"), bundle("b"), bundle("c")]);
    assert_eq!(s.selected_bundle().unwrap().name, "a");
    s.next();
    s.next();
    s.next();
    assert_eq!(s.selected, 2);
    s.prev();
    assert_eq!(s.selected, 1);
    s.first();
    assert_eq!(s.selected, 0);
    s.last();
    assert_eq!(s.selected, 2);
    s.select(7);
    assert_eq!(s.selected, 2);
    s.select(1);
    assert_eq!(s.get(1).unwrap().name, "b");
    assert_eq!(s.len(), 3);
    assert_eq!(s.reload(Err("database is locked".to_string())), Err("database is locked".to_string()));
    assert_eq!(s.selected, 1);
    assert_eq!(s.len(), 3);
    assert_eq!(s.reload(Ok(vec![bundle("x")])), Ok(()));
    assert_eq!(s.selected, 0);
    assert!(!s.is_empty());
    assert_eq!(s.reload(Ok(Vec::new())), Ok(()));
    assert!(s.is_empty());
    assert!(s.selected_bundle().is_none());
    assert_eq!(s.iter().count(), 0);
}

#[test]
fn bundle_list_labels() {
    assert_eq!(hoards::lists::bundle_count_label(1), " (1 tool)");
    assert_eq!(hoards::lists::bundle_count_label(0), " (0 tools)");
    assert_eq!(hoards::lists::bundle_count_label(12), " (12 tools)");
    assert_eq!(hoards::lists::bundle_list_title(3), " Bundles [3] ");
}
