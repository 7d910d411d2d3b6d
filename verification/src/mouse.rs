//! Mouse hit-testing of the tab bar and the item lists.

use vstd::prelude::*;
use vstd::string::StrSliceExecFns;
use crate::keys::KeyContext;
use crate::types::{InputMode, Tab};

verus! {

/// A screen rectangle: (x, y, width, height).
pub type Area = (u16, u16, u16, u16);

/// The rectangle does not reach past the last screen coordinate.
pub open spec fn area_ok(a: Area) -> bool {
    a.0 + a.2 <= u16::MAX && a.1 + a.3 <= u16::MAX
}

/// Whether (`x`, `y`) lies in the rectangle.
pub open spec fn in_area(a: Area, x: int, y: int) -> bool {
    a.0 <= x < a.0 + a.2 && a.1 <= y < a.1 + a.3
}

/// Row of the list under (`x`, `y`), counted below the header row of the
/// list area; `None` outside the area, on the header, or with no area yet.
pub fn get_list_row(list_area: Option<Area>, x: u16, y: u16) -> (r: Option<u16>)
    requires
        list_area matches Some(a) ==> area_ok(a),
    ensures
        match list_area {
            Some(a) => if in_area(a, x as int, y as int) && y > a.1 {
                r == Some((y - a.1 - 1) as u16)
            } else {
                r is None
            },
            None => r is None,
        },
{
    if let Some((area_x, area_y, width, height)) = list_area {
        if x >= area_x && x < area_x + width && y >= area_y && y < area_y + height {
            if y > area_y {
                return Some(y - area_y - 1);
            }
        }
    }
    None
}

/// Whether (`x`, `y`) is in the tab bar.
pub fn is_in_tab_area(tab_area: Option<Area>, x: u16, y: u16) -> (r: bool)
    requires
        tab_area matches Some(a) ==> area_ok(a),
    ensures
        r == match tab_area {
            Some(a) => in_area(a, x as int, y as int),
            None => false,
        },
{
    if let Some((area_x, area_y, width, height)) = tab_area {
        x >= area_x && x < area_x + width && y >= area_y && y < area_y + height
    } else {
        false
    }
}

/// Width of a tab label: its title with a space on each side.
pub open spec fn tab_width(t: Tab) -> int {
    match t {
        Tab::Installed => 11,
        Tab::Available => 11,
        Tab::Updates => 9,
        Tab::Bundles => 9,
        Tab::Discover => 10,
    }
}

/// Column where the `k`-th tab starts: the labels are separated by a
/// one-character divider.
pub open spec fn tab_start(k: int) -> int
    decreases k,
{
    if k <= 0 {
        0
    } else {
        tab_start(k - 1) + tab_width(Tab::spec_from_index(k - 1)->0) + 1
    }
}

/// The tab whose label covers column `rel` of the tab bar content.
pub open spec fn tab_at(rel: int) -> Option<Tab> {
    if 0 <= rel < tab_start(0) + 11 {
        Some(Tab::Installed)
    } else if tab_start(1) <= rel < tab_start(1) + 11 {
        Some(Tab::Available)
    } else if tab_start(2) <= rel < tab_start(2) + 9 {
        Some(Tab::Updates)
    } else if tab_start(3) <= rel < tab_start(3) + 9 {
        Some(Tab::Bundles)
    } else if tab_start(4) <= rel < tab_start(4) + 10 {
        Some(Tab::Discover)
    } else {
        None
    }
}

/// Title of a tab, as `Tab::title` gives it.
pub open spec fn title_of(t: Tab) -> Seq<char> {
    match t {
        Tab::Installed => "Installed"@,
        Tab::Available => "Available"@,
        Tab::Updates => "Updates"@,
        Tab::Bundles => "Bundles"@,
        Tab::Discover => "Discover"@,
    }
}

proof fn lemma_tab_titles()
    ensures
        forall|t: Tab| #[trigger] tab_width(t) == title_of(t).len() + 2,
{
    reveal_strlit("Installed");
    reveal_strlit("Available");
    reveal_strlit("Updates");
    reveal_strlit("Bundles");
    reveal_strlit("Discover");
}

/// The tab under a click at column `x` of the tab bar in `tab_area`
/// (whose border takes the first column); `None` between or after the
/// labels, or with no tab area yet.
pub fn click_tab_target(tab_area: Option<Area>, x: u16) -> (r: Option<Tab>)
    requires
        tab_area matches Some(a) ==> a.0 < u16::MAX,
    ensures
        match tab_area {
            Some(a) => r == tab_at(if x > a.0 + 1 {
                x - (a.0 + 1)
            } else {
                0
            }),
            None => r is None,
        },
{
    if let Some((area_x, area_y, area_w, area_h)) = tab_area {
        let content_start = area_x + 1;
        let relative_x = x.saturating_sub(content_start) as usize;
        let tabs = Tab::all();
        let mut pos: usize = 0;
        let mut i: usize = 0;
        proof {
            lemma_tab_titles();
            reveal_with_fuel(tab_start, 6);
        }
        while i < tabs.len()
            invariant
                tabs@ == seq![Tab::Installed, Tab::Available, Tab::Updates, Tab::Bundles, Tab::Discover],
                0 <= i <= 5,
                i < 5 ==> pos == tab_start(i as int),
                tab_start(0) == 0 && tab_start(1) == 12 && tab_start(2) == 24,
                tab_start(3) == 34 && tab_start(4) == 44,
                relative_x < 65536,
                tab_area == Some((area_x, area_y, area_w, area_h)),
                relative_x as int == (if x > area_x + 1 {
                    x - (area_x + 1)
                } else {
                    0
                }),
                forall|k: int|
                    0 <= k < i ==> !(#[trigger] tab_start(k) <= relative_x < tab_start(k)
                        + tab_width(Tab::spec_from_index(k)->0)),
                forall|t: Tab| #[trigger] tab_width(t) == title_of(t).len() + 2,
            decreases 5 - i,
        {
            let tab = tabs[i];
            assert(tab == Tab::spec_from_index(i as int)->0);
            let title = tab.title();
            assert(title@ == title_of(tab));
            let width = title.unicode_len() + 2;
            assert(width == tab_width(tab));
            if relative_x >= pos && relative_x < pos + width {
                proof {
                    let rel = relative_x as int;
                    assert(tab_start(i as int) <= rel < tab_start(i as int) + tab_width(tab));
                    if i >= 1 {
                        assert(!(tab_start(0) <= rel < tab_start(0) + tab_width(
                            Tab::spec_from_index(0)->0,
                        )));
                    }
                    if i >= 2 {
                        assert(!(tab_start(1) <= rel < tab_start(1) + tab_width(
                            Tab::spec_from_index(1)->0,
                        )));
                    }
                    if i >= 3 {
                        assert(!(tab_start(2) <= rel < tab_start(2) + tab_width(
                            Tab::spec_from_index(2)->0,
                        )));
                    }
                    if i >= 4 {
                        assert(!(tab_start(3) <= rel < tab_start(3) + tab_width(
                            Tab::spec_from_index(3)->0,
                        )));
                    }
                    assert(tab_at(rel) == Some(tab));
                }
                return Some(tab);
            }
            pos += width;
            if i < tabs.len() - 1 {
                pos += 1;
            }
            i += 1;
        }
        None
    } else {
        None
    }
}

/// What a click on row `row` of the list selects.
#[derive(Debug, Clone, Copy, PartialEq, Eq, Structural)]
pub enum ListClick {
    /// Select this bundle (out-of-range indices are ignored by the list).
    Bundle(usize),
    /// Select this discover result.
    Discover(usize),
    /// Select this tool.
    Tool(usize),
    /// Nothing under the click.
    Nothing,
}

/// The item selected by a click on list row `row`: bundles and discover
/// results do not scroll, the tool list is scrolled by `list_offset`.
pub fn click_list_target(
    tab: Tab,
    row: u16,
    list_offset: usize,
    tool_count: usize,
    discover_count: usize,
) -> (r: ListClick)
    requires
        list_offset + row <= usize::MAX,
    ensures
        tab == Tab::Bundles ==> r == ListClick::Bundle(row as usize),
        tab == Tab::Discover ==> r == (if (row as int) < discover_count {
            ListClick::Discover(row as usize)
        } else {
            ListClick::Nothing
        }),
        tab != Tab::Bundles && tab != Tab::Discover ==> r == (if list_offset + row < tool_count {
            ListClick::Tool((list_offset + row) as usize)
        } else {
            ListClick::Nothing
        }),
{
    if tab == Tab::Bundles {
        ListClick::Bundle(row as usize)
    } else if tab == Tab::Discover {
        let target_index = row as usize;
        if target_index < discover_count {
            ListClick::Discover(target_index)
        } else {
            ListClick::Nothing
        }
    } else {
        let target_index = list_offset + row as usize;
        if target_index < tool_count {
            ListClick::Tool(target_index)
        } else {
            ListClick::Nothing
        }
    }
}

/// The part of the interface that receives a mouse event.
#[derive(Debug, Clone, Copy, PartialEq, Eq, Structural)]
pub enum MouseRoute {
    LabelFilter,
    LabelEdit,
    InstallOutput,
    Readme,
    ConfigMenu,
    /// A dialog, help or details is shown, or a mode other than normal is
    /// on: the event is dropped.
    Blocked,
    /// The tab bar and the list.
    Main,
}

pub open spec fn spec_route_mouse(c: KeyContext) -> MouseRoute {
    if c.label_filter_popup {
        MouseRoute::LabelFilter
    } else if c.label_edit_popup {
        MouseRoute::LabelEdit
    } else if c.install_running {
        MouseRoute::InstallOutput
    } else if c.readme_open {
        MouseRoute::Readme
    } else if c.config_menu {
        MouseRoute::ConfigMenu
    } else if c.help_shown || c.details_popup || c.pending_action || c.error_modal {
        MouseRoute::Blocked
    } else if c.mode != InputMode::Normal {
        MouseRoute::Blocked
    } else {
        MouseRoute::Main
    }
}

/// Who receives a mouse event: the label popups first, then the running
/// install, the README and the config menu; other overlays and modes drop
/// it.
pub fn route_mouse(c: &KeyContext) -> (r: MouseRoute)
    ensures
        r == spec_route_mouse(*c),
{
    if c.label_filter_popup {
        MouseRoute::LabelFilter
    } else if c.label_edit_popup {
        MouseRoute::LabelEdit
    } else if c.install_running {
        MouseRoute::InstallOutput
    } else if c.readme_open {
        MouseRoute::Readme
    } else if c.config_menu {
        MouseRoute::ConfigMenu
    } else if c.help_shown || c.details_popup || c.pending_action || c.error_modal {
        MouseRoute::Blocked
    } else if c.mode != InputMode::Normal {
        MouseRoute::Blocked
    } else {
        MouseRoute::Main
    }
}

/// The label edit popup's selection after a wheel step among `total` rows:
/// up stops at the input row, down at the last row.
pub fn label_edit_wheel(selected: usize, total: usize, down: bool) -> (r: usize)
    ensures
        down && selected + 1 < total ==> r == selected + 1,
        down && selected + 1 >= total ==> r == selected,
        !down && selected > 0 ==> r == selected - 1,
        !down && selected == 0 ==> r == 0,
{
    if down {
        if selected < total.saturating_sub(1) {
            selected + 1
        } else {
            selected
        }
    } else if selected > 0 {
        selected - 1
    } else {
        selected
    }
}

} // verus!
