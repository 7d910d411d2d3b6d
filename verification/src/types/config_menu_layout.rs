//! Line layout of the configuration menu.

use vstd::prelude::*;

verus! {

/// Lines of the config menu without the custom-theme file hint.
pub const TOTAL_LINES_BASE: usize = 35;

/// Extra line shown when the custom theme is selected.
pub const CUSTOM_THEME_EXTRA_LINES: usize = 1;

/// Index of the custom theme in the theme list.
pub const CUSTOM_THEME_INDEX: usize = 6;

/// Number of lines of the config menu.
pub open spec fn spec_total_lines(custom_theme_selected: bool) -> nat {
    if custom_theme_selected {
        36
    } else {
        35
    }
}

pub fn total_lines(custom_theme_selected: bool) -> (r: usize)
    ensures
        r == spec_total_lines(custom_theme_selected),
{
    if custom_theme_selected {
        TOTAL_LINES_BASE + CUSTOM_THEME_EXTRA_LINES
    } else {
        TOTAL_LINES_BASE
    }
}

} // verus!
