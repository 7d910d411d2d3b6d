use hoards::display::detail_status;
use hoards::display::{
    health, highlight_runs, label_color, label_color_index, relative_time_label, tool_list_title,
    tool_mark, update_info, usage_info, Health, ToolMark,
};
use hoards::theme::ThemeVariant;

#[test]
fn label_colors_from_byte_sums() {
    assert_eq!(label_color_index("cli"), 4);
    assert_eq!(label_color_index("rust"), 0);
    assert_eq!(label_color_index(""), 0);
    let p = ThemeVariant::Nord.theme().colors;
    assert_eq!(label_color("rust", &p), p.blue);
    assert_eq!(label_color("cli", &p), p.peach);
}

#[test]
fn relative_times() {
    assert_eq!(relative_time_label(-5), "now");
    assert_eq!(relative_time_label(59), "now");
    assert_eq!(relative_time_label(60), "1m");
    assert_eq!(relative_time_label(3599), "59m");
    assert_eq!(relative_time_label(3600), "1h");
    assert_eq!(relative_time_label(86399), "23h");
    assert_eq!(relative_time_label(86400), "1d");
    assert_eq!(relative_time_label(604799), "6d");
    assert_eq!(relative_time_label(604800), "1w");
    assert_eq!(relative_time_label(4 * 604800), "0mo");
    assert_eq!(relative_time_label(90 * 86400), "3mo");
}

#[test]
fn health_marks() {
    assert_eq!(health(0, Some(1)), Health::Cold);
    assert_eq!(health(3, Some(2)), Health::Fresh);
    assert_eq!(health(3, Some(10)), Health::Aging);
    assert_eq!(health(3, Some(40)), Health::Cold);
    assert_eq!(health(3, None), Health::Fresh);
    assert_eq!(tool_mark(true, false, 0, None), ToolMark::UpdateAvailable);
    assert_eq!(tool_mark(false, false, 9, None), ToolMark::NotInstalled);
    assert_eq!(tool_mark(false, true, 9, Some(8)), ToolMark::Installed(Health::Aging));
}

#[test]
fn highlighted_runs() {
    let r = highlight_runs("ripgrep", "rg");
    let expected: Vec<(String, bool)> = vec![
        ("r".to_string(), true),
        ("ip".to_string(), false),
        ("g".to_string(), true),
        ("rep".to_string(), false),
    ];
    assert_eq!(r, expected);
    assert_eq!(highlight_runs("ripgrep", ""), vec![("ripgrep".to_string(), false)]);
    assert_eq!(highlight_runs("ripgrep", "xyz"), vec![("ripgrep".to_string(), false)]);
}

#[test]
fn list_texts() {
    assert_eq!(tool_list_title(false, 12, 0, "name"), " Tools [12] (name↕) ");
    assert_eq!(tool_list_title(true, 3, 2, "name"), " Updates [3] (2 selected) ");
    assert_eq!(update_info("1.0", "2.0"), " 1.0 → 2.0");
    assert_eq!(usage_info(0), "");
    assert_eq!(usage_info(42), " (42)");
}

#[test]
fn detail_status_lines() {
    let p = hoards::theme::ThemeVariant::Dracula.theme().colors;
    assert_eq!(detail_status(false, 5, Some(1), &p), ("Not installed", p.yellow, None));
    assert_eq!(
        detail_status(true, 0, Some(1), &p),
        ("Installed (never used)", p.red, Some("Consider using or removing"))
    );
    assert_eq!(detail_status(true, 3, Some(6), &p), ("Installed (active)", p.green, None));
    assert_eq!(
        detail_status(true, 3, Some(7), &p),
        ("Installed (idle)", p.yellow, Some("Not used recently"))
    );
    assert_eq!(
        detail_status(true, 3, Some(30), &p),
        ("Installed (stale)", p.red, Some("Not used in 30+ days"))
    );
    assert_eq!(detail_status(true, 3, None, &p), ("Installed", p.green, None));
}

#[test]
fn tool_list_scrolls_around_the_selection() {
    assert_eq!(hoards::display::tool_list_offset(3, 10), 0);
    assert_eq!(hoards::display::tool_list_offset(25, 10), 20);
    assert_eq!(hoards::display::tool_list_offset(25, 0), 0);
}
