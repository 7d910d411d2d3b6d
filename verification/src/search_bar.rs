//! The Discover tab's search bar: the AI toggle, the source filter chips
//! and the search box, and whether they fit the screen.

use vstd::prelude::*;
use crate::discover::{source_views, SearchSource};
use crate::styled::{bold, fg, fg_bold, span_view, spans_view, push, styled, styled_owned, SpanView, StyledText};
use crate::text::{chars_of, decimal, usize_to_string, views_of};
use crate::theme::{Palette, Rgb};
use crate::tools::contains_text;

verus! {

/// Cells of the AI toggle.
pub const AI_TOGGLE_WIDTH: u16 = 7;

/// Fewest cells left for the search box.
pub const MIN_SEARCH_WIDTH: u16 = 20;

/// Whether an icon is drawn two cells wide (an emoji) rather than one (a
/// Nerd Font glyph): it has a character above U+1000.
pub open spec fn is_wide_icon(icon: Seq<char>) -> bool {
    exists|i: int| 0 <= i < icon.len() && (#[trigger] icon[i]) > '\u{1000}'
}

/// Cells of the chip of the source at `index`: its function key (three
/// cells from F10 on), the check box, the icon and a space.
pub open spec fn chip_width(index: nat, icon: Seq<char>) -> nat {
    (if index + 1 >= 10 {
        3nat
    } else {
        2nat
    }) + 3 + (if is_wide_icon(icon) {
        2nat
    } else {
        1nat
    }) + 1
}

/// Cells of the chips of the sources from `index` on.
pub open spec fn chips_from(sources: Seq<(Seq<char>, Seq<char>, Seq<char>)>, index: nat) -> nat
    decreases sources.len() - index,
{
    if index >= sources.len() {
        0
    } else {
        chip_width(index, sources[index as int].1) + chips_from(sources, index + 1)
    }
}

fn wide_icon(icon: &str) -> (r: bool)
    ensures
        r == is_wide_icon(icon@),
{
    let cs = chars_of(icon);
    let mut i: usize = 0;
    while i < cs.len()
        invariant
            cs@ == icon@,
            i <= cs@.len(),
            forall|k: int| 0 <= k < i ==> !((#[trigger] cs@[k]) > '\u{1000}'),
        decreases cs@.len() - i,
    {
        if cs[i] > '\u{1000}' {
            return true;
        }
        i += 1;
    }
    false
}

/// The chips from `j` on take no more cells than those from `i` on, for
/// `i <= j`.
proof fn lemma_chips_from_shrinks(sources: Seq<(Seq<char>, Seq<char>, Seq<char>)>, i: nat, j: nat)
    requires
        i <= j,
    ensures
        chips_from(sources, j) <= chips_from(sources, i),
    decreases j - i,
{
    if i < j && i < sources.len() {
        lemma_chips_from_shrinks(sources, i + 1, j);
    }
}

/// Cells of the filter chips with their borders. The count is a `u16`, as
/// the bar's width is; it must hold the total.
pub fn filter_chips_width(sources: &Vec<SearchSource>) -> (r: u16)
    requires
        chips_from(source_views(sources@), 0) + 2 <= u16::MAX,
    ensures
        r == chips_from(source_views(sources@), 0) + 2,
{
    let ghost sv = source_views(sources@);
    let mut total: u16 = 2;
    let mut i: usize = sources.len();
    while i > 0
        invariant
            i <= sources@.len(),
            sv == source_views(sources@),
            chips_from(sv, 0) + 2 <= u16::MAX,
            total == chips_from(sv, i as nat) + 2,
        decreases i,
    {
        i -= 1;
        let (_, icon, _) = sources[i];
        assert(sv[i as int].1 == icon@);
        assert(chips_from(sv, i as nat) == chip_width(i as nat, icon@) + chips_from(sv, (i + 1) as nat));
        proof {
            lemma_chips_from_shrinks(sv, 0, i as nat);
        }
        let fkey: u16 = if i + 1 >= 10 {
            3
        } else {
            2
        };
        let icon_w: u16 = if wide_icon(icon) {
            2
        } else {
            1
        };
        total = total + fkey + 3 + icon_w + 1;
    }
    total
}

/// Whether the toggle, the chips and a usable search box fit a bar
/// `width` cells wide; when they do not, only the search box is drawn.
pub fn search_controls_fit(width: u16, chips_width: u16) -> (r: bool)
    ensures
        r == (width >= AI_TOGGLE_WIDTH + chips_width + MIN_SEARCH_WIDTH),
{
    width as u32 >= AI_TOGGLE_WIDTH as u32 + chips_width as u32 + MIN_SEARCH_WIDTH as u32
}

/// The AI toggle: a check box and a robot, green and bold when AI search
/// is on; and its border colour.
pub open spec fn spec_ai_toggle(on: bool, p: Palette) -> (SpanView, Rgb) {
    if on {
        (fg_bold("[x]🤖"@, p.green), p.green)
    } else {
        (fg("[ ]🤖"@, p.subtext0), p.surface1)
    }
}

/// The AI toggle (see `spec_ai_toggle`).
pub fn ai_toggle(on: bool, p: &Palette) -> (r: (StyledText, Rgb))
    ensures
        (span_view(r.0), r.1) == spec_ai_toggle(on, *p),
{
    if on {
        (bold("[x]🤖", p.green), p.green)
    } else {
        (styled("[ ]🤖", p.subtext0), p.surface1)
    }
}

/// The chip of a source: "F<n>[x]<icon> " when its filter is on, with a
/// blank box when off; dim while AI search is on (the filters do not
/// apply then), blue when on, grey when off.
pub open spec fn spec_chip(index: nat, icon: Seq<char>, on: bool, ai: bool, p: Palette) -> SpanView {
    fg(
        "F"@ + decimal(index + 1) + "["@ + (if on {
            "x"@
        } else {
            " "@
        }) + "]"@ + icon + " "@,
        if ai {
            p.surface1
        } else if on {
            p.blue
        } else {
            p.subtext0
        },
    )
}

/// The chips of the sources, in order; `enabled` holds the keys of the
/// sources whose filter is on.
pub open spec fn spec_chips(
    sources: Seq<(Seq<char>, Seq<char>, Seq<char>)>,
    enabled: Seq<Seq<char>>,
    ai: bool,
    p: Palette,
) -> Seq<SpanView> {
    Seq::new(
        sources.len(),
        |i: int| spec_chip(i as nat, sources[i].1, enabled.contains(sources[i].0), ai, p),
    )
}

/// The filter chips (see `spec_chips`) and the colour of their border.
pub fn filter_chips(sources: &Vec<SearchSource>, enabled: &Vec<String>, ai: bool, p: &Palette) -> (r: (
    Vec<StyledText>,
    Rgb,
))
    requires
        sources@.len() < usize::MAX,
    ensures
        spans_view(r.0@) == spec_chips(source_views(sources@), views_of(enabled@), ai, *p),
        r.1 == if ai {
            p.surface0
        } else {
            p.surface1
        },
{
    let ghost sv = source_views(sources@);
    let mut v: Vec<StyledText> = Vec::new();
    let mut i: usize = 0;
    while i < sources.len()
        invariant
            i <= sources@.len() < usize::MAX,
            sv == source_views(sources@),
            spans_view(v@) == spec_chips(sv, views_of(enabled@), ai, *p).take(i as int),
        decreases sources@.len() - i,
    {
        let (key, icon, _) = sources[i];
        assert(sv[i as int] == (key@, icon@, sources@[i as int].2@));
        let on = contains_text(enabled, key);
        let mut t = String::from_str("F");
        t.append(usize_to_string(i + 1).as_str());
        t.append("[");
        if on {
            t.append("x");
        } else {
            t.append(" ");
        }
        t.append("]");
        t.append(icon);
        t.append(" ");
        let color = if ai {
            p.surface1
        } else if on {
            p.blue
        } else {
            p.subtext0
        };
        let ghost before = spans_view(v@);
        push(&mut v, styled_owned(t, color));
        assert(spans_view(v@) =~= spec_chips(sv, views_of(enabled@), ai, *p).take(i + 1));
        i += 1;
    }
    let border = if ai {
        p.surface0
    } else {
        p.surface1
    };
    (v, border)
}

/// The title of the search box: while a search runs, the search under way
/// and its step (or "Searching..." before the first); while browsing the
/// history, the entry shown; else "Search".
pub open spec fn spec_search_title(
    loading: bool,
    step_name: Seq<char>,
    step: nat,
    steps: nat,
    history: Option<nat>,
    history_len: nat,
) -> Seq<char> {
    if loading {
        if step_name.len() > 0 {
            " "@ + step_name + " ("@ + decimal(step) + "/"@ + decimal(steps) + ") "@
        } else {
            " Searching... "@
        }
    } else {
        match history {
            Some(i) => " History ["@ + decimal(i + 1) + "/"@ + decimal(history_len) + "] "@,
            None => " Search "@,
        }
    }
}

/// The title of the search box (see `spec_search_title`).
pub fn search_title(
    loading: bool,
    step_name: &str,
    step: usize,
    steps: usize,
    history: Option<usize>,
    history_len: usize,
) -> (r: String)
    requires
        history matches Some(i) ==> i < usize::MAX,
    ensures
        r@ == spec_search_title(
            loading,
            step_name@,
            step as nat,
            steps as nat,
            match history {
                Some(i) => Some(i as nat),
                None => None,
            },
            history_len as nat,
        ),
{
    if loading {
        if !step_name.is_empty() {
            let mut t = String::from_str(" ");
            t.append(step_name);
            t.append(" (");
            t.append(usize_to_string(step).as_str());
            t.append("/");
            t.append(usize_to_string(steps).as_str());
            t.append(") ");
            t
        } else {
            String::from_str(" Searching... ")
        }
    } else {
        match history {
            Some(i) => {
                let mut t = String::from_str(" History [");
                t.append(usize_to_string(i + 1).as_str());
                t.append("/");
                t.append(usize_to_string(history_len).as_str());
                t.append("] ");
                t
            },
            None => String::from_str(" Search "),
        }
    }
}

/// The text of the search box: the query, or, while it is empty and the
/// box is not being typed in, a grey hint (shorter when the bar is
/// narrow and has no controls).
pub open spec fn spec_search_text(query: Seq<char>, typing: bool, with_controls: bool, p: Palette) -> SpanView {
    if query.len() == 0 && !typing {
        fg(
            if with_controls {
                "Press / to search, ↑↓ history"@
            } else {
                "Press / to search"@
            },
            p.subtext0,
        )
    } else {
        fg(query, p.text)
    }
}

/// The text of the search box (see `spec_search_text`).
pub fn search_text(query: &str, typing: bool, with_controls: bool, p: &Palette) -> (r: StyledText)
    ensures
        span_view(r) == spec_search_text(query@, typing, with_controls, *p),
{
    if query.is_empty() && !typing {
        if with_controls {
            styled("Press / to search, ↑↓ history", p.subtext0)
        } else {
            styled("Press / to search", p.subtext0)
        }
    } else {
        styled(query, p.text)
    }
}

} // verus!
