use hoards::cache::NameMap;
use hoards::labels::{
    add_label, filtered_label_list, label_choice, label_filter_view, label_suggestions, label_to_add, label_to_remove,
    move_cursor, replace_spaces, LabelChoice, LabelFilterSort, LabelRow, PopupCursor, PopupMove,
};
use hoards::tools::Tool;
use hoards::types::InstallSource;

fn tool(name: &str) -> Tool {
    Tool {
        name: name.to_string(),
        description: None,
        category: None,
        source: InstallSource::Cargo,
        install_command: None,
        binary_name: None,
        is_installed: true,
        is_favorite: false,
        updated_at: 0,
    }
}

fn strs(v: &[&str]) -> Vec<String> {
    v.iter().map(|s| s.to_string()).collect()
}

fn cache() -> NameMap<Vec<String>> {
    let mut c = NameMap::new();
    c.insert("rg".to_string(), strs(&["rust", "search", "cli"]));
    c.insert("fd".to_string(), strs(&["rust", "cli"]));
    c.insert("jq".to_string(), strs(&["json", "cli"]));
    c
}

#[test]
fn counts_labels_most_used_first() {
    let tools = vec![tool("rg"), tool("fd"), tool("jq"), tool("bat")];
    let r = filtered_label_list(&tools, &cache(), &Vec::new(), "", LabelFilterSort::Count);
    let expected: Vec<(String, usize)> = vec![
        ("cli".to_string(), 3),
        ("rust".to_string(), 2),
        ("json".to_string(), 1),
        ("search".to_string(), 1),
    ];
    assert_eq!(r, expected);
}

#[test]
fn counts_labels_by_name_with_selection_and_search() {
    let tools = vec![tool("rg"), tool("fd"), tool("jq")];
    let r = filtered_label_list(&tools, &cache(), &strs(&["rust"]), "", LabelFilterSort::Name);
    assert_eq!(
        r,
        vec![("cli".to_string(), 2), ("rust".to_string(), 2), ("search".to_string(), 1)]
    );
    let r = filtered_label_list(&tools, &cache(), &Vec::new(), "jsn cli", LabelFilterSort::Name);
    assert_eq!(r, vec![("cli".to_string(), 1), ("json".to_string(), 1)]);
}

#[test]
fn popup_cursor_moves() {
    let c = PopupCursor { selected: 0, scroll: 0 };
    assert_eq!(move_cursor(c, 25, PopupMove::Up), PopupCursor { selected: 24, scroll: 0 });
    let c = PopupCursor { selected: 9, scroll: 0 };
    assert_eq!(move_cursor(c, 25, PopupMove::Down), PopupCursor { selected: 10, scroll: 1 });
    let c = PopupCursor { selected: 24, scroll: 15 };
    assert_eq!(move_cursor(c, 25, PopupMove::Down), PopupCursor { selected: 0, scroll: 0 });
    assert_eq!(move_cursor(c, 25, PopupMove::WheelDown), c);
    let c = PopupCursor { selected: 3, scroll: 0 };
    assert_eq!(move_cursor(c, 25, PopupMove::PageDown), PopupCursor { selected: 13, scroll: 4 });
    assert_eq!(move_cursor(c, 25, PopupMove::End), PopupCursor { selected: 24, scroll: 15 });
    assert_eq!(move_cursor(c, 25, PopupMove::Home), PopupCursor { selected: 0, scroll: 0 });
    assert_eq!(move_cursor(c, 25, PopupMove::PageUp), PopupCursor { selected: 0, scroll: 0 });
}

#[test]
fn popup_choices() {
    let labels = vec![("cli".to_string(), 3)];
    assert_eq!(label_choice(0, &labels), LabelChoice::ClearFilter);
    assert_eq!(label_choice(1, &labels), LabelChoice::Toggle("cli".to_string()));
    assert_eq!(label_choice(2, &labels), LabelChoice::Nothing);
}

#[test]
fn label_editing() {
    assert_eq!(replace_spaces("a b  c"), "a-b--c");
    assert_eq!(label_to_add(0, &strs(&["cli"]), "  Command Line "), "command-line");
    assert_eq!(label_to_add(1, &strs(&["cli"]), "other"), "cli");
    assert_eq!(label_to_remove(0, 1, 2), None);
    assert_eq!(label_to_remove(2, 1, 2), Some(0));
    assert_eq!(label_to_remove(4, 1, 2), None);
    let mut labels = strs(&["cli", "search"]);
    assert!(add_label(&mut labels, "rust".to_string()));
    assert_eq!(labels, strs(&["cli", "rust", "search"]));
    assert!(!add_label(&mut labels, "cli".to_string()));
    assert_eq!(labels, strs(&["cli", "rust", "search"]));
}

#[test]
fn suggestions_exclude_current_labels() {
    let all = strs(&["rust", "ruby", "cli", "rustacean"]);
    let r = label_suggestions(&all, &strs(&["ruby"]), "RUST");
    assert_eq!(r, strs(&["rust", "rustacean"]));
    assert!(label_suggestions(&all, &Vec::new(), "").is_empty());
}

fn counted(n: usize) -> Vec<(String, usize)> {
    (0..n).map(|i| (format!("l{}", i), 10 + i)).collect()
}

#[test]
fn label_filter_popup_contents() {
    let labels = counted(3);
    let active = vec!["l1".to_string()];
    let v = label_filter_view(&labels, 2, 0, &active, false);
    assert_eq!(v.clear_row, Some((false, "(Clear 1 selected)".to_string())));
    assert_eq!(
        v.rows,
        vec![
            LabelRow { label: "l0".to_string(), count: 10, cursor: false, active: false },
            LabelRow { label: "l1".to_string(), count: 11, cursor: true, active: true },
            LabelRow { label: "l2".to_string(), count: 12, cursor: false, active: false },
        ]
    );
    assert!(!v.no_matches);
    assert_eq!(v.scroll_info, None);
    assert_eq!(v.active_summary, Some("Active: l1".to_string()));
    let none = label_filter_view(&vec![], 0, 0, &vec![], true);
    assert_eq!(none.clear_row, Some((true, "(No filters active)".to_string())));
    assert!(none.rows.is_empty() && none.no_matches);
    assert_eq!(none.active_summary, None);
}

#[test]
fn label_filter_popup_scrolls() {
    let labels = counted(14);
    let many: Vec<String> = (0..4).map(|i| format!("l{}", i)).collect();
    let v = label_filter_view(&labels, 5, 3, &many, false);
    assert_eq!(v.clear_row, None);
    let names: Vec<&str> = v.rows.iter().map(|r| r.label.as_str()).collect();
    assert_eq!(names, vec!["l2", "l3", "l4", "l5", "l6", "l7", "l8", "l9", "l10", "l11"]);
    assert!(v.rows[2].cursor);
    assert_eq!(v.scroll_info, Some("Showing 4-13 of 15".to_string()));
    assert_eq!(v.active_summary, Some("Active: 4 labels selected".to_string()));
    let end = label_filter_view(&labels, 0, 10, &vec![], false);
    assert_eq!(end.rows.len(), 5);
    assert_eq!(end.scroll_info, Some("Showing 11-15 of 15".to_string()));
    let three: Vec<String> = vec!["a".to_string(), "b".to_string(), "c".to_string()];
    let v = label_filter_view(&labels, 0, 0, &three, false);
    assert_eq!(v.active_summary, Some("Active: a, b, c".to_string()));
}

#[test]
fn add_label_sorts_unsorted_labels() {
    let mut labels = strs(&["search", "cli", "zsh"]);
    assert!(add_label(&mut labels, "awk".to_string()));
    assert_eq!(labels, strs(&["awk", "cli", "search", "zsh"]));
    let mut unsorted = strs(&["b", "a"]);
    assert!(!add_label(&mut unsorted, "a".to_string()));
    assert_eq!(unsorted, strs(&["b", "a"]));
}
