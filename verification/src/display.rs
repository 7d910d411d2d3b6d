//! What the tool list shows beside each tool: the colour of a label, a
//! health mark from recent use, how long ago something happened, and
//! which parts of a name a search matched.

use vstd::prelude::*;
use vstd::string::StringSliceAdditionalSpecFns;
use crate::fuzzy::{fuzzy_match_positions, fuzzy_fits, fuzzy_result, int_positions, result_positions};
use crate::text::{chars_of, decimal, lowercase, u64_to_string};
use crate::theme::{Palette, Rgb};

verus! {

/// Sum of the bytes.
pub open spec fn byte_sum(b: Seq<u8>) -> nat
    decreases b.len(),
{
    if b.len() == 0 {
        0
    } else {
        byte_sum(b.drop_last()) + b.last() as nat
    }
}

/// Which of the seven label colours a label gets: the sum of its UTF-8
/// bytes, modulo 7.
pub fn label_color_index(label: &str) -> (r: usize)
    ensures
        r == byte_sum(label.spec_bytes()) % 7,
{
    let bytes = label.as_bytes();
    let mut acc: usize = 0;
    let mut i: usize = 0;
    while i < bytes.len()
        invariant
            i <= bytes@.len(),
            bytes@ == label.spec_bytes(),
            acc == byte_sum(bytes@.take(i as int)) % 7,
        decreases bytes@.len() - i,
    {
        let b = bytes[i];
        proof {
            assert(bytes@.take(i + 1).drop_last() =~= bytes@.take(i as int));
            let s = byte_sum(bytes@.take(i as int));
            vstd::arithmetic::div_mod::lemma_add_mod_noop(s as int, b as int, 7);
            vstd::arithmetic::div_mod::lemma_mod_twice(b as int, 7);
            vstd::arithmetic::div_mod::lemma_small_mod(acc as nat, 7);
        }
        acc = (acc + b as usize) % 7;
        i += 1;
    }
    assert(bytes@.take(bytes@.len() as int) =~= bytes@);
    acc
}

/// Colour `k` of blue, green, yellow, mauve, peach, teal, red.
pub open spec fn palette_color(colors: Palette, k: nat) -> Rgb {
    if k == 0 {
        colors.blue
    } else if k == 1 {
        colors.green
    } else if k == 2 {
        colors.yellow
    } else if k == 3 {
        colors.mauve
    } else if k == 4 {
        colors.peach
    } else if k == 5 {
        colors.teal
    } else {
        colors.red
    }
}

/// The colour of a label: blue, green, yellow, mauve, peach, teal or red,
/// by `label_color_index`.
pub fn label_color(label: &str, colors: &Palette) -> (r: Rgb)
    ensures
        r == palette_color(*colors, byte_sum(label.spec_bytes()) % 7),
{
    match label_color_index(label) {
        0 => colors.blue,
        1 => colors.green,
        2 => colors.yellow,
        3 => colors.mauve,
        4 => colors.peach,
        5 => colors.teal,
        _ => colors.red,
    }
}

/// Seconds in a minute, hour, day and week.
pub const MINUTE: i64 = 60;
pub const HOUR: i64 = 3600;
pub const DAY: i64 = 86400;
pub const WEEK: i64 = 604800;

/// How long ago, from the seconds elapsed: "now" under a minute, then
/// whole minutes ("5m"), hours ("2h"), days ("3d"), weeks ("2w"), and
/// 30-day months ("4mo").
pub open spec fn spec_relative_time(secs: int) -> Seq<char> {
    if secs < 60 {
        "now"@
    } else if secs / 60 < 60 {
        decimal((secs / 60) as nat) + "m"@
    } else if secs / 3600 < 24 {
        decimal((secs / 3600) as nat) + "h"@
    } else if secs / 86400 < 7 {
        decimal((secs / 86400) as nat) + "d"@
    } else if secs / 604800 < 4 {
        decimal((secs / 604800) as nat) + "w"@
    } else {
        decimal((secs / 86400 / 30) as nat) + "mo"@
    }
}

/// The relative time label for `elapsed_secs` seconds (see
/// `spec_relative_time`).
pub fn relative_time_label(elapsed_secs: i64) -> (r: String)
    ensures
        r@ == spec_relative_time(elapsed_secs as int),
{
    if elapsed_secs < MINUTE {
        return String::from_str("now");
    }
    let n = elapsed_secs as u64;
    let (count, unit) = if n / 60 < 60 {
        (n / 60, "m")
    } else if n / 3600 < 24 {
        (n / 3600, "h")
    } else if n / 86400 < 7 {
        (n / 86400, "d")
    } else if n / 604800 < 4 {
        (n / 604800, "w")
    } else {
        (n / 86400 / 30, "mo")
    };
    let mut s = u64_to_string(count);
    s.append(unit);
    s
}

/// A tool's health mark in the list.
#[derive(Debug, Clone, Copy, PartialEq, Eq, Structural)]
pub enum Health {
    /// Used in the last week, or used with no time recorded (green).
    Fresh,
    /// Used in the last month (yellow).
    Aging,
    /// Never used, or not for a month (red).
    Cold,
}

pub open spec fn spec_health(use_count: i64, days_since_use: Option<i64>) -> Health {
    if use_count == 0 {
        Health::Cold
    } else {
        match days_since_use {
            Some(d) => if d < 7 {
                Health::Fresh
            } else if d < 30 {
                Health::Aging
            } else {
                Health::Cold
            },
            None => Health::Fresh,
        }
    }
}

/// The health mark from the use count and the days since the last use
/// (when a time was recorded).
pub fn health(use_count: i64, days_since_use: Option<i64>) -> (r: Health)
    ensures
        r == spec_health(use_count, days_since_use),
{
    if use_count == 0 {
        Health::Cold
    } else {
        match days_since_use {
            Some(d) => if d < 7 {
                Health::Fresh
            } else if d < 30 {
                Health::Aging
            } else {
                Health::Cold
            },
            None => Health::Fresh,
        }
    }
}

/// The mark before a tool in the list.
#[derive(Debug, Clone, Copy, PartialEq, Eq, Structural)]
pub enum ToolMark {
    /// On the Updates tab: an update is available.
    UpdateAvailable,
    NotInstalled,
    Installed(Health),
}

/// The mark of a tool: an update arrow on the Updates tab, a hollow mark
/// for tools that are not installed, else the health of its use.
pub fn tool_mark(on_updates_tab: bool, is_installed: bool, use_count: i64, days_since_use: Option<
    i64,
>) -> (r: ToolMark)
    ensures
        on_updates_tab ==> r == ToolMark::UpdateAvailable,
        !on_updates_tab && !is_installed ==> r == ToolMark::NotInstalled,
        !on_updates_tab && is_installed ==> r == ToolMark::Installed(
            spec_health(use_count, days_since_use),
        ),
{
    if on_updates_tab {
        ToolMark::UpdateAvailable
    } else if !is_installed {
        ToolMark::NotInstalled
    } else {
        ToolMark::Installed(health(use_count, days_since_use))
    }
}

/// Splits `s` into runs of characters, each run wholly inside or wholly
/// outside `marked`, recording for each run whether it is marked.
pub open spec fn runs(s: Seq<char>, marked: Set<int>) -> Seq<(Seq<char>, bool)>
    decreases s.len(),
{
    if s.len() == 0 {
        seq![]
    } else {
        let rest = runs(s.drop_last(), marked);
        let m = marked.contains(s.len() - 1);
        if rest.len() > 0 && rest.last().1 == m {
            rest.drop_last().push((rest.last().0.push(s.last()), m))
        } else {
            rest.push((seq![s.last()], m))
        }
    }
}

/// The name split into highlighted and plain runs for a search query:
/// one plain run when the query is empty or does not match; otherwise the
/// characters at the positions the fuzzy match reports are highlighted.
pub open spec fn spec_highlight(name: Seq<char>, query: Seq<char>) -> Seq<(Seq<char>, bool)> {
    let q = lowercase(query);
    let t = lowercase(name);
    if query.len() == 0 || !fuzzy_fits(q, t) || fuzzy_result(q, t) is None {
        if name.len() == 0 {
            seq![]
        } else {
            seq![(name, false)]
        }
    } else {
        runs(name, result_positions(fuzzy_result(q, t)).to_set())
    }
}

/// Runs as values.
pub open spec fn run_views(r: Seq<(String, bool)>) -> Seq<(Seq<char>, bool)> {
    r.map_values(|x: (String, bool)| (x.0@, x.1))
}

fn contains_position(p: &Vec<usize>, i: usize) -> (r: bool)
    ensures
        r == int_positions(p@).to_set().contains(i as int),
{
    let mut k: usize = 0;
    while k < p.len()
        invariant
            k <= p@.len(),
            forall|j: int| 0 <= j < k ==> p@[j] != i,
        decreases p@.len() - k,
    {
        if p[k] == i {
            assert(int_positions(p@)[k as int] == i as int);
            return true;
        }
        k += 1;
    }
    assert forall|j: int| 0 <= j < int_positions(p@).len() implies int_positions(p@)[j] != i as int by {
        assert(int_positions(p@)[j] == p@[j] as int);
    }
    false
}

/// The name's runs for highlighting the query's match (see
/// `spec_highlight`).
pub fn highlight_runs(name: &str, query: &str) -> (r: Vec<(String, bool)>)
    ensures
        run_views(r@) == spec_highlight(name@, query@),
{
    let cs = chars_of(name);
    if query.is_empty() {
        return plain_run(name);
    }
    match fuzzy_match_positions(query, name) {
        None => {
            plain_run(name)
        },
        Some((_, positions)) => {
            let ghost marked = int_positions(positions@).to_set();
            let mut out: Vec<(String, bool)> = Vec::new();
            let mut i: usize = 0;
            while i < cs.len()
                invariant
                    i <= cs@.len(),
                    cs@ == name@,
                    marked == int_positions(positions@).to_set(),
                    run_views(out@) == runs(name@.take(i as int), marked),
                decreases cs@.len() - i,
            {
                let m = contains_position(&positions, i);
                let piece = name.substring_char(i, i + 1);
                let ghost before = run_views(out@);
                let ghost t = name@.take(i + 1);
                assert(t.drop_last() =~= name@.take(i as int));
                assert(t.last() == cs@[i as int]);
                assert(piece@ =~= seq![cs@[i as int]]);
                let n = out.len();
                if n > 0 && out[n - 1].1 == m {
                    let ghost old_out = out@;
                    let (mut text, flag) = out.pop().unwrap();
                    assert(out@ == old_out.drop_last());
                    assert(run_views(out@) =~= before.drop_last());
                    assert(before.last() == (text@, flag));
                    text.append(piece);
                    assert(text@ =~= before.last().0.push(cs@[i as int]));
                    let ghost popped = out@;
                    out.push((text, flag));
                    assert(run_views(out@) =~= run_views(popped).push((text@, flag)));
                    assert(run_views(out@) =~= before.drop_last().push(
                        (before.last().0.push(cs@[i as int]), m),
                    ));
                } else {
                    out.push((piece.to_owned(), m));
                    assert(run_views(out@) =~= before.push((seq![cs@[i as int]], m)));
                }
                i += 1;
            }
            assert(name@.take(cs@.len() as int) =~= name@);
            out
        },
    }
}

fn plain_run(name: &str) -> (r: Vec<(String, bool)>)
    ensures
        name@.len() == 0 ==> run_views(r@) == Seq::<(Seq<char>, bool)>::empty(),
        name@.len() > 0 ==> run_views(r@) == seq![(name@, false)],
{
    let mut out: Vec<(String, bool)> = Vec::new();
    if !name.is_empty() {
        out.push((name.to_owned(), false));
    }
    assert(run_views(out@) =~= if name@.len() == 0 {
        Seq::<(Seq<char>, bool)>::empty()
    } else {
        seq![(name@, false)]
    });
    out
}

/// " (<k> selected)" when tools are selected, else nothing.
pub open spec fn selection_note(selected: nat) -> Seq<char> {
    if selected > 0 {
        " ("@ + decimal(selected) + " selected)"@
    } else {
        seq![]
    }
}

/// The title of the tool list: " Updates [<n>]<selection> " on the
/// Updates tab, else " Tools [<n>]<selection> (<sort>↕) ".
pub open spec fn spec_list_title(on_updates: bool, count: nat, selected: nat, sort_label: Seq<char>) -> Seq<
    char,
> {
    if on_updates {
        " Updates ["@ + decimal(count) + "]"@ + selection_note(selected) + " "@
    } else {
        " Tools ["@ + decimal(count) + "]"@ + selection_note(selected) + " ("@ + sort_label + "↕) "@
    }
}

/// The tool list's title (see `spec_list_title`).
pub fn tool_list_title(on_updates: bool, count: usize, selected: usize, sort_label: &str) -> (r: String)
    ensures
        r@ == spec_list_title(on_updates, count as nat, selected as nat, sort_label@),
{
    let mut note = String::new();
    if selected > 0 {
        note.append(" (");
        note.append(crate::text::usize_to_string(selected).as_str());
        note.append(" selected)");
    }
    assert(note@ =~= selection_note(selected as nat));
    let mut s = String::from_str(
        if on_updates {
            " Updates ["
        } else {
            " Tools ["
        },
    );
    s.append(crate::text::usize_to_string(count).as_str());
    s.append("]");
    s.append(note.as_str());
    if on_updates {
        s.append(" ");
    } else {
        s.append(" (");
        s.append(sort_label);
        s.append("↕) ");
    }
    s
}

/// " <current> → <latest>", shown beside a tool with an update.
pub fn update_info(current: &str, latest: &str) -> (r: String)
    ensures
        r@ == " "@ + current@ + " → "@ + latest@,
{
    let mut s = String::from_str(" ");
    s.append(current);
    s.append(" → ");
    s.append(latest);
    s
}

/// " (<uses>)" beside a used tool, nothing for an unused one.
pub fn usage_info(use_count: i64) -> (r: String)
    ensures
        use_count > 0 ==> r@ == " ("@ + decimal(use_count as nat) + ")"@,
        use_count <= 0 ==> r@ == Seq::<char>::empty(),
{
    if use_count > 0 {
        let mut s = String::from_str(" (");
        s.append(u64_to_string(use_count as u64).as_str());
        s.append(")");
        s
    } else {
        String::new()
    }
}

/// The status line of a tool's details: its text, its colour, and a hint
/// for tools that are not used much.
pub open spec fn spec_detail_status(
    is_installed: bool,
    use_count: i64,
    days_since_use: Option<i64>,
    p: Palette,
) -> (Seq<char>, Rgb, Option<Seq<char>>) {
    if !is_installed {
        ("Not installed"@, p.yellow, None)
    } else if use_count == 0 {
        ("Installed (never used)"@, p.red, Some("Consider using or removing"@))
    } else {
        match days_since_use {
            Some(d) => if d < 7 {
                ("Installed (active)"@, p.green, None)
            } else if d < 30 {
                ("Installed (idle)"@, p.yellow, Some("Not used recently"@))
            } else {
                ("Installed (stale)"@, p.red, Some("Not used in 30+ days"@))
            },
            None => ("Installed"@, p.green, None),
        }
    }
}

/// The status line of a tool's details (see `spec_detail_status`).
pub fn detail_status(is_installed: bool, use_count: i64, days_since_use: Option<i64>, p: &Palette) -> (r: (
    &'static str,
    Rgb,
    Option<&'static str>,
))
    ensures
        (r.0@, r.1, match r.2 {
            Some(h) => Some(h@),
            None => None,
        }) == spec_detail_status(is_installed, use_count, days_since_use, *p),
{
    if !is_installed {
        ("Not installed", p.yellow, None)
    } else if use_count == 0 {
        ("Installed (never used)", p.red, Some("Consider using or removing"))
    } else {
        match days_since_use {
            Some(d) => if d < 7 {
                ("Installed (active)", p.green, None)
            } else if d < 30 {
                ("Installed (idle)", p.yellow, Some("Not used recently"))
            } else {
                ("Installed (stale)", p.red, Some("Not used in 30+ days"))
            },
            None => ("Installed", p.green, None),
        }
    }
}

/// The first tool row shown: the selection kept in the middle of the
/// `visible` rows (the list may scroll past its end).
pub fn tool_list_offset(selected: usize, visible: usize) -> (r: usize)
    ensures
        r == if visible > 0 && selected > visible / 2 {
            selected - visible / 2
        } else {
            0
        },
{
    if visible > 0 && selected > visible / 2 {
        selected - visible / 2
    } else {
        0
    }
}

} // verus!

