//! The header and footer bars: the tab titles, the key hints of each
//! mode, the filter summary and the status indicators, as styled pieces of
//! text.

use vstd::prelude::*;
use vstd::string::StrSliceExecFns;
use crate::commands::{command_suggestions, pair_views, spec_suggestions};
use vstd::utf8::encode_utf8;
use vstd::string::StringSliceAdditionalSpecFns;
use crate::text::{chars_of, decimal, trim, trim_str, usize_to_string};
use crate::styled::{
    bold, dim_owned, extend, fg, fg_bold, fg_dim, plain, push, spans_view, styled, styled_owned,
    unstyled, SpanView, StyledText,
};
use crate::theme::Palette;
use crate::types::Tab;

verus! {

/// What the tool list shows and how it is filtered.
#[derive(Debug, Clone)]
pub struct FilterSummary {
    /// Tools shown.
    pub shown: usize,
    /// Tools in all.
    pub total: usize,
    pub favorites_only: bool,
    pub source: Option<String>,
    pub label: Option<String>,
    pub query: String,
}

/// Whether any filter is on.
pub open spec fn filtering(f: FilterSummary) -> bool {
    f.query@.len() > 0 || f.source is Some || f.label is Some || f.favorites_only
}

/// The filter summary: "<shown>/<total> ", then a star for favourites,
/// "src:" and the source, "label:" and the label, "filter:" and the
/// query, each that is on, separated by spaces.
pub open spec fn spec_filter_status(f: FilterSummary, p: Palette) -> Seq<SpanView> {
    let head = seq![fg(" │ "@, p.surface1), fg(decimal(f.shown as nat) + "/"@ + decimal(f.total as nat) + " "@, p.blue)];
    let fav = if f.favorites_only {
        seq![fg("★"@, p.yellow)] + if f.source is Some || f.label is Some || f.query@.len() > 0 {
            seq![plain(" "@)]
        } else {
            seq![]
        }
    } else {
        seq![]
    };
    let src = match f.source {
        Some(s) => seq![fg("src:"@, p.mauve), fg(s@, p.text)] + if f.label is Some || f.query@.len() > 0 {
            seq![plain(" "@)]
        } else {
            seq![]
        },
        None => seq![],
    };
    let lab = match f.label {
        Some(l) => seq![fg("label:"@, p.teal), fg(l@, p.text)] + if f.query@.len() > 0 {
            seq![plain(" "@)]
        } else {
            seq![]
        },
        None => seq![],
    };
    let q = if f.query@.len() > 0 {
        seq![fg("filter:"@, p.yellow), fg(f.query@, p.text)]
    } else {
        seq![]
    };
    head + fav + src + lab + q
}

/// The filter summary of the footer (see `spec_filter_status`).
pub fn build_filter_status(f: &FilterSummary, p: &Palette) -> (r: Vec<StyledText>)
    ensures
        spans_view(r@) == spec_filter_status(*f, *p),
{
    let mut count = usize_to_string(f.shown);
    count.append("/");
    count.append(usize_to_string(f.total).as_str());
    count.append(" ");
    let mut v: Vec<StyledText> = Vec::new();
    push(&mut v, styled(" │ ", p.surface1));
    push(&mut v, styled_owned(count, p.blue));
    let ghost head = spans_view(v@);
    let query_on = !f.query.as_str().is_empty();
    if f.favorites_only {
        push(&mut v, styled("★", p.yellow));
        if f.source.is_some() || f.label.is_some() || query_on {
            push(&mut v, unstyled(" "));
        }
    }
    let ghost after_fav = spans_view(v@);
    match &f.source {
        Some(s) => {
            push(&mut v, styled("src:", p.mauve));
            push(&mut v, styled(s.as_str(), p.text));
            if f.label.is_some() || query_on {
                push(&mut v, unstyled(" "));
            }
        },
        None => {},
    }
    let ghost after_src = spans_view(v@);
    match &f.label {
        Some(l) => {
            push(&mut v, styled("label:", p.teal));
            push(&mut v, styled(l.as_str(), p.text));
            if query_on {
                push(&mut v, unstyled(" "));
            }
        },
        None => {},
    }
    let ghost after_label = spans_view(v@);
    if query_on {
        push(&mut v, styled("filter:", p.yellow));
        push(&mut v, styled(f.query.as_str(), p.text));
    }
    proof {
        let fav = if f.favorites_only {
            seq![fg("★"@, p.yellow)] + if f.source is Some || f.label is Some || f.query@.len() > 0 {
                seq![plain(" "@)]
            } else {
                seq![]
            }
        } else {
            seq![]
        };
        assert(after_fav =~= head + fav);
        assert(head =~= seq![fg(" │ "@, p.surface1), fg(decimal(f.shown as nat) + "/"@ + decimal(f.total as nat) + " "@, p.blue)]);
    }
    assert(spans_view(v@) =~= spec_filter_status(*f, *p));
    v
}

/// What the Discover footer reports: the searchable sources, how many
/// are selected, and whether AI search is on.
#[derive(Debug, Clone, Copy)]
pub struct DiscoverSummary {
    pub sources: usize,
    pub enabled: usize,
    pub ai_enabled: bool,
}

/// The function-key hint for `n` sources: none, " F1", or " F1-F<n>".
pub open spec fn fkey_label(n: nat) -> Seq<char> {
    if n == 0 {
        seq![]
    } else if n == 1 {
        " F1"@
    } else {
        " F1-F"@ + decimal(n)
    }
}

/// The Discover tab's footer: its key hints (the source keys only when
/// there are sources), then AI mode or how many sources are selected.
pub open spec fn spec_discover_footer(d: DiscoverSummary, p: Palette) -> Seq<SpanView> {
    let keys = seq![
        fg(" j/k"@, p.blue),
        fg(" nav "@, p.subtext0),
        fg(" /"@, p.yellow),
        fg(" search "@, p.subtext0),
        fg(" A"@, p.green),
        fg(" AI "@, p.subtext0),
    ];
    let fkeys = if d.sources == 0 {
        seq![]
    } else {
        seq![fg(fkey_label(d.sources as nat), p.blue), fg(" filters "@, p.subtext0)]
    };
    let rest = seq![
        fg(" i"@, p.green),
        fg(" install "@, p.subtext0),
        fg(" Enter"@, p.blue),
        fg(" readme "@, p.subtext0),
        fg(" ?"@, p.blue),
        fg(" help"@, p.subtext0),
        fg(" │ "@, p.surface1),
    ];
    let state = if d.ai_enabled {
        fg_bold("🤖 AI"@, p.green)
    } else {
        fg(decimal(d.enabled as nat) + "/"@ + decimal(d.sources as nat) + " sources"@, p.blue)
    };
    keys + fkeys + rest.push(state)
}

/// The Discover tab's footer (see `spec_discover_footer`).
pub fn build_discover_footer(d: &DiscoverSummary, p: &Palette) -> (r: Vec<StyledText>)
    ensures
        spans_view(r@) == spec_discover_footer(*d, *p),
{
    let mut v: Vec<StyledText> = Vec::new();
    push(&mut v, styled(" j/k", p.blue));
    push(&mut v, styled(" nav ", p.subtext0));
    push(&mut v, styled(" /", p.yellow));
    push(&mut v, styled(" search ", p.subtext0));
    push(&mut v, styled(" A", p.green));
    push(&mut v, styled(" AI ", p.subtext0));
    let ghost keys = spans_view(v@);
    if d.sources > 0 {
        let label = if d.sources == 1 {
            String::from_str(" F1")
        } else {
            let mut l = String::from_str(" F1-F");
            l.append(usize_to_string(d.sources).as_str());
            l
        };
        push(&mut v, styled_owned(label, p.blue));
        push(&mut v, styled(" filters ", p.subtext0));
    }
    let ghost with_fkeys = spans_view(v@);
    push(&mut v, styled(" i", p.green));
    push(&mut v, styled(" install ", p.subtext0));
    push(&mut v, styled(" Enter", p.blue));
    push(&mut v, styled(" readme ", p.subtext0));
    push(&mut v, styled(" ?", p.blue));
    push(&mut v, styled(" help", p.subtext0));
    push(&mut v, styled(" │ ", p.surface1));
    if d.ai_enabled {
        push(&mut v, bold("🤖 AI", p.green));
    } else {
        let mut m = usize_to_string(d.enabled);
        m.append("/");
        m.append(usize_to_string(d.sources).as_str());
        m.append(" sources");
        push(&mut v, styled_owned(m, p.blue));
    }
    proof {
        let fkeys = if d.sources == 0 {
            seq![]
        } else {
            seq![fg(fkey_label(d.sources as nat), p.blue), fg(" filters "@, p.subtext0)]
        };
        assert(with_fkeys =~= keys + fkeys);
    }
    assert(spans_view(v@) =~= spec_discover_footer(*d, *p));
    v
}

/// The key hints of a tab of the tool list.
pub open spec fn tab_hints(tab: Tab, p: Palette) -> Seq<SpanView> {
    match tab {
        Tab::Installed => seq![
            fg(" Space"@, p.blue),
            fg(" select "@, p.subtext0),
            fg(" D"@, p.red),
            fg(" uninstall "@, p.subtext0),
            fg(" u"@, p.yellow),
            fg(" update "@, p.subtext0),
            fg(" Ctrl+r"@, p.blue),
            fg(" refresh "@, p.subtext0),
        ],
        Tab::Available => seq![
            fg(" Space"@, p.blue),
            fg(" select "@, p.subtext0),
            fg(" i"@, p.green),
            fg(" install "@, p.subtext0),
            fg(" Ctrl+r"@, p.blue),
            fg(" refresh "@, p.subtext0),
        ],
        Tab::Updates => seq![
            fg(" Space"@, p.blue),
            fg(" select "@, p.subtext0),
            fg(" u"@, p.yellow),
            fg(" update "@, p.subtext0),
            fg_bold(" U"@, p.yellow),
            fg(" update all "@, p.subtext0),
            fg(" Ctrl+r"@, p.blue),
            fg(" check "@, p.subtext0),
        ],
        Tab::Bundles => seq![
            fg(" Space"@, p.blue),
            fg(" select "@, p.subtext0),
            fg(" i"@, p.green),
            fg(" install "@, p.subtext0),
            fg(" D"@, p.red),
            fg(" delete "@, p.subtext0),
        ],
        Tab::Discover => seq![],
    }
}

fn build_tab_hints(tab: Tab, p: &Palette) -> (r: Vec<StyledText>)
    requires
        tab != Tab::Discover,
    ensures
        spans_view(r@) == tab_hints(tab, *p),
{
    let mut v: Vec<StyledText> = Vec::new();
    push(&mut v, styled(" Space", p.blue));
    push(&mut v, styled(" select ", p.subtext0));
    match tab {
        Tab::Installed => {
            push(&mut v, styled(" D", p.red));
            push(&mut v, styled(" uninstall ", p.subtext0));
            push(&mut v, styled(" u", p.yellow));
            push(&mut v, styled(" update ", p.subtext0));
            push(&mut v, styled(" Ctrl+r", p.blue));
            push(&mut v, styled(" refresh ", p.subtext0));
        },
        Tab::Available => {
            push(&mut v, styled(" i", p.green));
            push(&mut v, styled(" install ", p.subtext0));
            push(&mut v, styled(" Ctrl+r", p.blue));
            push(&mut v, styled(" refresh ", p.subtext0));
        },
        Tab::Updates => {
            push(&mut v, styled(" u", p.yellow));
            push(&mut v, styled(" update ", p.subtext0));
            push(&mut v, bold(" U", p.yellow));
            push(&mut v, styled(" update all ", p.subtext0));
            push(&mut v, styled(" Ctrl+r", p.blue));
            push(&mut v, styled(" check ", p.subtext0));
        },
        _ => {
            push(&mut v, styled(" i", p.green));
            push(&mut v, styled(" install ", p.subtext0));
            push(&mut v, styled(" D", p.red));
            push(&mut v, styled(" delete ", p.subtext0));
        },
    }
    assert(spans_view(v@) =~= tab_hints(tab, *p));
    v
}

/// The footer in Normal mode: the Discover footer on the Discover tab;
/// else navigation, the tab's hints and help, then the number of selected
/// tools when there is a selection, or the filter summary when a filter
/// is on.
pub open spec fn spec_normal_footer(
    tab: Tab,
    selected: nat,
    f: FilterSummary,
    d: DiscoverSummary,
    p: Palette,
) -> Seq<SpanView> {
    if tab == Tab::Discover {
        spec_discover_footer(d, p)
    } else {
        let tail = if selected > 0 {
            seq![fg(" │ "@, p.surface1), fg(decimal(selected) + " selected"@, p.blue)]
        } else if filtering(f) {
            spec_filter_status(f, p)
        } else {
            seq![]
        };
        seq![fg(" j/k"@, p.blue), fg(" nav "@, p.subtext0)] + tab_hints(tab, p) + seq![
            fg(" ?"@, p.blue),
            fg(" help"@, p.subtext0),
        ] + tail
    }
}

/// The footer in Normal mode (see `spec_normal_footer`); `selected` is
/// the number of selected tools.
pub fn build_normal_mode_footer(
    tab: Tab,
    selected: usize,
    f: &FilterSummary,
    d: &DiscoverSummary,
    p: &Palette,
) -> (r: Vec<StyledText>)
    ensures
        spans_view(r@) == spec_normal_footer(tab, selected as nat, *f, *d, *p),
{
    if tab == Tab::Discover {
        return build_discover_footer(d, p);
    }
    let mut v: Vec<StyledText> = Vec::new();
    push(&mut v, styled(" j/k", p.blue));
    push(&mut v, styled(" nav ", p.subtext0));
    extend(&mut v, build_tab_hints(tab, p));
    push(&mut v, styled(" ?", p.blue));
    push(&mut v, styled(" help", p.subtext0));
    let ghost head = spans_view(v@);
    if selected > 0 {
        push(&mut v, styled(" │ ", p.surface1));
        let mut m = usize_to_string(selected);
        m.append(" selected");
        push(&mut v, styled_owned(m, p.blue));
    } else if !f.query.as_str().is_empty() || f.source.is_some() || f.label.is_some()
        || f.favorites_only {
        extend(&mut v, build_filter_status(f, p));
    }
    assert(head =~= seq![fg(" j/k"@, p.blue), fg(" nav "@, p.subtext0)] + tab_hints(tab, *p) + seq![
        fg(" ?"@, p.blue),
        fg(" help"@, p.subtext0),
    ]);
    assert(spans_view(v@) =~= spec_normal_footer(tab, selected as nat, *f, *d, *p));
    v
}

/// The footer in Search mode: the query being typed and its keys.
pub open spec fn spec_search_footer(query: Seq<char>, p: Palette) -> Seq<SpanView> {
    seq![
        fg(" Search: "@, p.yellow),
        fg(query, p.text),
        fg("│"@, p.blue),
        fg("  Enter"@, p.blue),
        fg(" apply "@, p.subtext0),
        fg(" Esc"@, p.blue),
        fg(" cancel"@, p.subtext0),
    ]
}

/// The footer in Search mode (see `spec_search_footer`).
pub fn build_search_mode_footer(query: &str, p: &Palette) -> (r: Vec<StyledText>)
    ensures
        spans_view(r@) == spec_search_footer(query@, *p),
{
    let mut v: Vec<StyledText> = Vec::new();
    push(&mut v, styled(" Search: ", p.yellow));
    push(&mut v, styled(query, p.text));
    push(&mut v, styled("│", p.blue));
    push(&mut v, styled("  Enter", p.blue));
    push(&mut v, styled(" apply ", p.subtext0));
    push(&mut v, styled(" Esc", p.blue));
    push(&mut v, styled(" cancel", p.subtext0));
    assert(spans_view(v@) =~= spec_search_footer(query@, *p));
    v
}

/// The text before the first `c` in `s`, or all of `s` when it has none
/// (the first piece of `split(c)`).
pub open spec fn before_char(s: Seq<char>, c: char) -> Seq<char>
    decreases s.len(),
{
    if s.len() == 0 {
        s
    } else if s[0] == c {
        seq![]
    } else {
        seq![s[0]] + before_char(s.drop_first(), c)
    }
}

fn first_piece(s: &str, c: char) -> (r: String)
    ensures
        r@ == before_char(s@, c),
{
    let cs = chars_of(s);
    let mut i: usize = 0;
    assert(cs@.skip(0) =~= cs@);
    assert(cs@.take(0) + before_char(cs@, c) =~= before_char(cs@, c));
    while i < cs.len() && cs[i] != c
        invariant
            cs@ == s@,
            i <= cs@.len(),
            before_char(s@, c) == cs@.take(i as int) + before_char(cs@.skip(i as int), c),
        decreases cs@.len() - i,
    {
        assert(cs@.skip(i as int).drop_first() =~= cs@.skip(i + 1));
        assert(cs@.take(i + 1) =~= cs@.take(i as int) + seq![cs@[i as int]]);
        i += 1;
    }
    assert(cs@.take(i as int) =~= cs@.subrange(0, i as int));
    if i < cs.len() {
        assert(before_char(cs@.skip(i as int), c) == Seq::<char>::empty());
    } else {
        assert(cs@.skip(i as int) =~= Seq::<char>::empty());
    }
    s.substring_char(0, i).to_owned()
}

/// The spans of the first suggestions: each command and the start of its
/// description, separated by bars.
pub open spec fn suggestion_spans(s: Seq<(Seq<char>, Seq<char>)>, p: Palette) -> Seq<SpanView>
    decreases s.len(),
{
    if s.len() == 0 {
        seq![]
    } else {
        let sep = if s.len() > 1 {
            seq![fg(" │ "@, p.surface1)]
        } else {
            seq![]
        };
        suggestion_spans(s.drop_last(), p) + sep + seq![
            fg(s.last().0, p.green),
            fg_dim(" "@ + trim(before_char(s.last().1, '-')), p.subtext0),
        ]
    }
}

/// At most the first `n` entries of `s`.
pub open spec fn first_n<T>(s: Seq<T>, n: nat) -> Seq<T> {
    if s.len() <= n {
        s
    } else {
        s.take(n as int)
    }
}

/// The footer in Command mode: ":" and the input; then the first three
/// suggestions with the part of their description before any dash, and
/// the Tab key; or, for empty input, the keys and a help hint.
pub open spec fn spec_command_footer(input: Seq<char>, p: Palette) -> Seq<SpanView> {
    let head = seq![fg(" :"@, p.mauve), fg(input, p.text), fg("│"@, p.blue)];
    let sugg = spec_suggestions(input);
    if sugg.len() > 0 {
        head + seq![plain("  "@)] + suggestion_spans(first_n(sugg, 3), p) + seq![
            fg("  Tab"@, p.blue),
            fg(" complete"@, p.subtext0),
        ]
    } else if input.len() == 0 {
        head + seq![
            fg("  Enter"@, p.blue),
            fg(" execute "@, p.subtext0),
            fg(" Esc"@, p.blue),
            fg(" cancel "@, p.subtext0),
            fg_dim(" (h for help)"@, p.subtext0),
        ]
    } else {
        head
    }
}

/// The footer in Command mode (see `spec_command_footer`).
pub fn build_command_mode_footer(input: &str, p: &Palette) -> (r: Vec<StyledText>)
    ensures
        spans_view(r@) == spec_command_footer(input@, *p),
{
    let mut v: Vec<StyledText> = Vec::new();
    push(&mut v, styled(" :", p.mauve));
    push(&mut v, styled(input, p.text));
    push(&mut v, styled("│", p.blue));
    let ghost head = spans_view(v@);
    let suggestions = command_suggestions(input);
    let ghost sugg = pair_views(suggestions@);
    if suggestions.len() > 0 {
        push(&mut v, unstyled("  "));
        let ghost start = spans_view(v@);
        let shown = if suggestions.len() < 3 {
            suggestions.len()
        } else {
            3
        };
        let mut i: usize = 0;
        while i < shown
            invariant
                i <= shown <= suggestions@.len(),
                sugg == pair_views(suggestions@),
                spans_view(v@) == start + suggestion_spans(sugg.take(i as int), *p),
            decreases shown - i,
        {
            let (cmd, desc) = suggestions[i];
            assert(sugg.take(i + 1).drop_last() =~= sugg.take(i as int));
            assert(sugg.take(i + 1).last() == (cmd@, desc@));
            let ghost before = spans_view(v@);
            if i > 0 {
                push(&mut v, styled(" │ ", p.surface1));
            }
            push(&mut v, styled(cmd, p.green));
            let piece = first_piece(desc, '-');
            let mut d = String::from_str(" ");
            d.append(trim_str(piece.as_str()).as_str());
            push(&mut v, dim_owned(d, p.subtext0));
            proof {
                let sep = if i > 0 {
                    seq![fg(" │ "@, p.surface1)]
                } else {
                    seq![]
                };
                assert(spans_view(v@) =~= before + sep + seq![
                    fg(cmd@, p.green),
                    fg_dim(" "@ + trim(before_char(desc@, '-')), p.subtext0),
                ]);
            }
            i += 1;
        }
        assert(sugg.take(shown as int) =~= first_n(sugg, 3));
        push(&mut v, styled("  Tab", p.blue));
        push(&mut v, styled(" complete", p.subtext0));
    } else if input.is_empty() {
        push(&mut v, styled("  Enter", p.blue));
        push(&mut v, styled(" execute ", p.subtext0));
        push(&mut v, styled(" Esc", p.blue));
        push(&mut v, styled(" cancel ", p.subtext0));
        push(&mut v, dim_owned(String::from_str(" (h for help)"), p.subtext0));
    }
    assert(spans_view(v@) =~= spec_command_footer(input@, *p));
    v
}

/// The footer while waiting for a letter to jump to.
pub open spec fn spec_jump_footer(p: Palette) -> Seq<SpanView> {
    seq![
        fg_bold(" f"@, p.peach),
        fg("  Type a letter to jump to first tool starting with it..."@, p.text),
        fg("  Esc"@, p.blue),
        fg(" cancel"@, p.subtext0),
    ]
}

/// The footer while waiting for a letter to jump to (see
/// `spec_jump_footer`).
pub fn build_jump_mode_footer(p: &Palette) -> (r: Vec<StyledText>)
    ensures
        spans_view(r@) == spec_jump_footer(*p),
{
    let mut v: Vec<StyledText> = Vec::new();
    push(&mut v, bold(" f", p.peach));
    push(&mut v, styled("  Type a letter to jump to first tool starting with it...", p.text));
    push(&mut v, styled("  Esc", p.blue));
    push(&mut v, styled(" cancel", p.subtext0));
    assert(spans_view(v@) =~= spec_jump_footer(*p));
    v
}

/// `n` stars.
pub open spec fn stars(n: nat) -> Seq<char> {
    Seq::new(n, |i: int| '*')
}

/// The footer while a sudo password is typed: a star per byte typed.
pub open spec fn spec_password_footer(typed_bytes: nat, p: Palette) -> Seq<SpanView> {
    seq![
        fg_bold(" 🔒 Password: "@, p.yellow),
        fg(stars(typed_bytes), p.text),
        fg("█"@, p.blue),
        fg("  Enter"@, p.blue),
        fg(" confirm  "@, p.subtext0),
        fg("Esc"@, p.blue),
        fg(" cancel"@, p.subtext0),
    ]
}

/// The footer while a sudo password is typed (see `spec_password_footer`);
/// `typed_bytes` is the length of the input in bytes.
pub fn build_password_mode_footer(typed_bytes: usize, p: &Palette) -> (r: Vec<StyledText>)
    ensures
        spans_view(r@) == spec_password_footer(typed_bytes as nat, *p),
{
    let mut masked = String::new();
    let mut i: usize = 0;
    while i < typed_bytes
        invariant
            i <= typed_bytes,
            masked@ == stars(i as nat),
        decreases typed_bytes - i,
    {
        masked.append("*");
        proof {
            reveal_strlit("*");
        }
        assert(masked@ =~= stars((i + 1) as nat));
        i += 1;
    }
    let mut v: Vec<StyledText> = Vec::new();
    push(&mut v, bold(" 🔒 Password: ", p.yellow));
    push(&mut v, styled_owned(masked, p.text));
    push(&mut v, styled("█", p.blue));
    push(&mut v, styled("  Enter", p.blue));
    push(&mut v, styled(" confirm  ", p.subtext0));
    push(&mut v, styled("Esc", p.blue));
    push(&mut v, styled(" cancel", p.subtext0));
    assert(spans_view(v@) =~= spec_password_footer(typed_bytes as nat, *p));
    v
}

/// The right side of the footer: the AI and GitHub indicators (green when
/// available), the time since the last sync when there was one, and the
/// version; with the width it takes: eight cells, the sync text and a
/// space, and the version's bytes.
pub open spec fn spec_right_status(
    ai_available: bool,
    gh_available: bool,
    sync: Option<Seq<char>>,
    version: Seq<char>,
    p: Palette,
) -> (Seq<SpanView>, int) {
    let ai = if ai_available {
        p.green
    } else {
        p.surface1
    };
    let gh = if gh_available {
        p.green
    } else {
        p.surface1
    };
    let icons = seq![fg("🤖"@, ai), plain(" "@), fg("\u{f09b}"@, gh), plain("  "@)];
    let (synced, sync_width) = match sync {
        Some(label) => (seq![fg_dim("⟳ "@ + label, p.subtext0), plain(" "@)], label.len() as int + 3),
        None => (seq![], 0int),
    };
    (
        icons + synced + seq![fg("v"@ + version, p.subtext0), plain(" "@)],
        8 + sync_width + encode_utf8(version).len(),
    )
}

/// The right side of the footer (see `spec_right_status`); `sync` is the
/// relative time of the last sync, if any.
pub fn build_footer_right_status(
    ai_available: bool,
    gh_available: bool,
    sync: Option<&str>,
    version: &str,
    p: &Palette,
) -> (r: (Vec<StyledText>, usize))
    requires
        match sync {
            Some(label) => label@.len(),
            None => 0,
        } + encode_utf8(version@).len() + 11 <= usize::MAX,
    ensures
        (spans_view(r.0@), r.1 as int) == spec_right_status(
            ai_available,
            gh_available,
            match sync {
                Some(label) => Some(label@),
                None => None,
            },
            version@,
            *p,
        ),
{
    let ai = if ai_available {
        p.green
    } else {
        p.surface1
    };
    let gh = if gh_available {
        p.green
    } else {
        p.surface1
    };
    let mut v: Vec<StyledText> = Vec::new();
    push(&mut v, styled("🤖", ai));
    push(&mut v, unstyled(" "));
    push(&mut v, styled("\u{f09b}", gh));
    push(&mut v, unstyled("  "));
    let ghost icons = spans_view(v@);
    let mut sync_width: usize = 0;
    match sync {
        Some(label) => {
            let mut t = String::from_str("⟳ ");
            t.append(label);
            push(&mut v, dim_owned(t, p.subtext0));
            push(&mut v, unstyled(" "));
            sync_width = label.unicode_len() + 3;
        },
        None => {},
    }
    let ghost with_sync = spans_view(v@);
    let mut ver = String::from_str("v");
    ver.append(version);
    push(&mut v, styled_owned(ver, p.subtext0));
    push(&mut v, unstyled(" "));
    let width = 8 + sync_width + version.as_bytes().len();
    proof {
        let synced = match sync {
            Some(label) => seq![fg_dim("⟳ "@ + label@, p.subtext0), plain(" "@)],
            None => seq![],
        };
        assert(with_sync =~= icons + synced);
    }
    assert(spans_view(v@) =~= spec_right_status(
        ai_available,
        gh_available,
        match sync {
            Some(label) => Some(label@),
            None => None,
        },
        version@,
        *p,
    ).0);
    (v, width)
}

/// The left side of the footer while a status message shows: the message
/// in red for an error, in green otherwise.
pub open spec fn spec_status_footer(text: Seq<char>, is_error: bool, p: Palette) -> Seq<SpanView> {
    seq![plain(" "@), fg(text, if is_error {
        p.red
    } else {
        p.green
    })]
}

/// The left side of the footer while a status message shows (see
/// `spec_status_footer`).
pub fn build_status_footer(text: &str, is_error: bool, p: &Palette) -> (r: Vec<StyledText>)
    ensures
        spans_view(r@) == spec_status_footer(text@, is_error, *p),
{
    let mut v: Vec<StyledText> = Vec::new();
    push(&mut v, unstyled(" "));
    push(&mut v, styled(text, if is_error {
        p.red
    } else {
        p.green
    }));
    assert(spans_view(v@) =~= spec_status_footer(text@, is_error, *p));
    v
}

/// The title of a tab.
pub open spec fn tab_title(t: Tab) -> Seq<char> {
    match t {
        Tab::Installed => "Installed"@,
        Tab::Available => "Available"@,
        Tab::Updates => "Updates"@,
        Tab::Bundles => "Bundles"@,
        Tab::Discover => "Discover"@,
    }
}

/// The tab titles of the header, in order, each padded with a space on
/// both sides; the current tab's is blue and bold.
pub open spec fn spec_header_tabs(current: Tab, p: Palette) -> Seq<SpanView> {
    let tabs = seq![Tab::Installed, Tab::Available, Tab::Updates, Tab::Bundles, Tab::Discover];
    Seq::new(
        5,
        |i: int|
            if tabs[i] == current {
                fg_bold(" "@ + tab_title(tabs[i]) + " "@, p.blue)
            } else {
                fg(" "@ + tab_title(tabs[i]) + " "@, p.subtext0)
            },
    )
}

/// The tab titles of the header (see `spec_header_tabs`).
pub fn build_header_tabs(current: Tab, p: &Palette) -> (r: Vec<StyledText>)
    ensures
        spans_view(r@) == spec_header_tabs(current, *p),
{
    let tabs = Tab::all();
    let mut v: Vec<StyledText> = Vec::new();
    let mut i: usize = 0;
    while i < tabs.len()
        invariant
            tabs@ == seq![Tab::Installed, Tab::Available, Tab::Updates, Tab::Bundles, Tab::Discover],
            i <= 5,
            spans_view(v@) == spec_header_tabs(current, *p).take(i as int),
        decreases 5 - i,
    {
        let t = tabs[i];
        let mut title = String::from_str(" ");
        title.append(t.title());
        title.append(" ");
        if t == current {
            push(&mut v, StyledText {
                text: title,
                color: Some(p.blue),
                bold: true,
                dim: false,
                italic: false,
                background: None,
            });
        } else {
            push(&mut v, styled_owned(title, p.subtext0));
        }
        assert(spans_view(v@) =~= spec_header_tabs(current, *p).take(i + 1));
        i += 1;
    }
    assert(spec_header_tabs(current, *p).take(5) =~= spec_header_tabs(current, *p));
    v
}

} // verus!

