use hoards::keys::KeyContext;
use hoards::mouse::{
    click_list_target, click_tab_target, get_list_row, is_in_tab_area, label_edit_wheel,
    route_mouse, ListClick, MouseRoute,
};
use hoards::types::{InputMode, Tab};

#[test]
fn test_get_list_row() {
    // List area: x=10, y=5, width=80, height=20
    let area = Some((10u16, 5u16, 80u16, 20u16));

    // y=6 is the first content row (after the top border at y=5)
    assert_eq!(get_list_row(area, 15, 6), Some(0));
    // y=7 is the second content row
    assert_eq!(get_list_row(area, 15, 7), Some(1));
    // x too small
    assert!(get_list_row(area, 5, 7).is_none());
    // on the border
    assert!(get_list_row(area, 15, 5).is_none());
    // y too large
    assert!(get_list_row(area, 15, 30).is_none());
}

#[test]
fn test_click_tab() {
    let area = Some((0u16, 0u16, 120u16, 3u16));
    // Click on the first tab (Installed)
    assert!(is_in_tab_area(area, 5, 1));
    assert_eq!(click_tab_target(area, 5), Some(Tab::Installed));
    // Click on the second tab (Available)
    assert_eq!(click_tab_target(area, 15), Some(Tab::Available));
}

#[test]
fn test_click_list_item_tool() {
    // Installed tab with three tools
    assert_eq!(click_list_target(Tab::Installed, 1, 0, 3, 0), ListClick::Tool(1));
    assert_eq!(click_list_target(Tab::Installed, 2, 0, 3, 0), ListClick::Tool(2));
}

#[test]
fn test_click_list_item_with_offset() {
    // Ten tools, list scrolled by 5
    assert_eq!(click_list_target(Tab::Installed, 0, 5, 10, 0), ListClick::Tool(5));
    assert_eq!(click_list_target(Tab::Installed, 3, 5, 10, 0), ListClick::Tool(8));
}

#[test]
fn test_click_list_item_out_of_bounds() {
    // One tool: row 10 selects nothing
    assert_eq!(click_list_target(Tab::Installed, 10, 0, 1, 0), ListClick::Nothing);
}

#[test]
fn clicks_on_bundles_and_discover() {
    assert_eq!(click_list_target(Tab::Bundles, 4, 7, 0, 0), ListClick::Bundle(4));
    assert_eq!(click_list_target(Tab::Discover, 2, 7, 0, 3), ListClick::Discover(2));
    assert_eq!(click_list_target(Tab::Discover, 3, 7, 0, 3), ListClick::Nothing);
}

#[test]
fn mouse_routing() {
    let mut c = KeyContext {
        pending_action: false,
        source_selection: false,
        error_modal: false,
        install_running: false,
        readme_open: false,
        help_shown: false,
        config_menu: false,
        details_popup: false,
        label_filter_popup: false,
        label_edit_popup: false,
        mode: InputMode::Normal,
    };
    assert_eq!(route_mouse(&c), MouseRoute::Main);
    c.mode = InputMode::Search;
    assert_eq!(route_mouse(&c), MouseRoute::Blocked);
    c.help_shown = true;
    c.install_running = true;
    assert_eq!(route_mouse(&c), MouseRoute::InstallOutput);
    c.label_edit_popup = true;
    assert_eq!(route_mouse(&c), MouseRoute::LabelEdit);
    assert_eq!(label_edit_wheel(0, 3, false), 0);
    assert_eq!(label_edit_wheel(1, 3, true), 2);
    assert_eq!(label_edit_wheel(2, 3, true), 2);
}
