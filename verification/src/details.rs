//! The details panel of the selected tool: what it is, where it comes
//! from, its labels, how it is used, its GitHub data and its health.

use vstd::prelude::*;
use vstd::string::StringSliceAdditionalSpecFns;
use crate::cache::GitHubInfo;
use crate::dialogs::{lines_view, DialogLine};
use crate::display::{byte_sum, detail_status, label_color, palette_color, spec_detail_status};
use crate::install::signed_decimal;
use crate::styled::{
    bold, fg, fg_bold, plain, push, span_view, spans_view, styled, styled_owned, unstyled, SpanView,
    StyledText,
};
use crate::github::{strip_prefix_all, strip_prefix_all_str};
use crate::text::{chars_contain, chars_of, contains_seq, decimal, strip_end, strip_trailing, u64_to_string, views_of};
use crate::types::{DiscoverResult, DiscoverSource, InstallOption};
use crate::theme::Palette;
use crate::tools::Tool;

verus! {

/// A labelled value: the label in grey, the value in `c`.
pub open spec fn field(label: Seq<char>, value: Seq<char>, c: crate::theme::Rgb, p: Palette) -> Seq<SpanView> {
    seq![fg(label, p.subtext0), fg(value, c)]
}

/// A label drawn as a pill: the label between spaces, dark on its colour.
pub open spec fn pill(label: Seq<char>, p: Palette) -> SpanView {
    (" "@ + label + " "@, Some(p.base), false, false, false, Some(
        palette_color(p, byte_sum(vstd::utf8::encode_utf8(label)) % 7),
    ))
}

/// The pills of the labels, a space between two of them.
pub open spec fn pills(labels: Seq<Seq<char>>, p: Palette) -> Seq<SpanView>
    decreases labels.len(),
{
    if labels.len() == 0 {
        seq![]
    } else {
        pills(labels.drop_last(), p) + (if labels.len() > 1 {
            seq![plain(" "@)]
        } else {
            seq![]
        }) + seq![pill(labels.last(), p)]
    }
}

/// An optional line.
pub open spec fn opt_line(o: Option<Seq<char>>, label: Seq<char>, c: crate::theme::Rgb, p: Palette) -> Seq<
    Seq<SpanView>,
> {
    match o {
        Some(v) => seq![field(label, v, c, p)],
        None => seq![],
    }
}

/// Characters of an optional string.
pub open spec fn opt_view(o: Option<String>) -> Option<Seq<char>> {
    match o {
        Some(s) => Some(s@),
        None => None,
    }
}

/// The labels line, when the tool has labels: its pills.
pub open spec fn label_block(labels: Option<Seq<Seq<char>>>, p: Palette) -> Seq<Seq<SpanView>> {
    match labels {
        Some(ls) => if ls.len() > 0 {
            seq![seq![fg("Labels: "@, p.subtext0)] + pills(ls, p)]
        } else {
            seq![]
        },
        None => seq![],
    }
}

/// The description block, when the tool has a description.
pub open spec fn desc_lines(t: Tool, p: Palette) -> Seq<Seq<SpanView>> {
    match t.description {
        Some(d) => seq![seq![fg("Description:"@, p.subtext0)], seq![fg(d@, p.text)], seq![]],
        None => seq![],
    }
}

/// The top of the panel: the name, the description, the source (its icon
/// and name, given by the caller), the install command, the binary, the
/// category, and the labels as pills when there are any.
pub open spec fn head_lines(
    t: Tool,
    icon: Seq<char>,
    source_name: Seq<char>,
    labels: Option<Seq<Seq<char>>>,
    p: Palette,
) -> Seq<Seq<SpanView>> {
    let desc = desc_lines(t, p);
    let label_line = label_block(labels, p);
    seq![seq![fg("Name: "@, p.subtext0), fg_bold(t.name@, p.blue)], seq![]] + desc + seq![
        field("Source: "@, icon + " "@ + source_name, p.peach, p),
    ] + opt_line(opt_view(t.install_command), "Install: "@, p.green, p) + opt_line(
        opt_view(t.binary_name),
        "Binary: "@,
        p.text,
        p,
    ) + opt_line(opt_view(t.category), "Category: "@, p.mauve, p) + label_line + seq![seq![]]
}

/// The usage block: the number of uses and, when known, the last use (as
/// the caller words it).
pub open spec fn usage_lines(usage: Option<(i64, Option<Seq<char>>)>, p: Palette) -> Seq<Seq<SpanView>> {
    match usage {
        Some((count, last)) => seq![
            seq![fg_bold("Usage:"@, p.subtext0)],
            field("  Invocations: "@, signed_decimal(count as int), p.teal, p),
        ] + opt_line(last, "  Last used: "@, p.text, p) + seq![seq![]],
        None => seq![],
    }
}

/// The GitHub block: stars (as the caller words them), language and
/// repository.
pub open spec fn github_lines(gh: Option<(GitHubInfo, Seq<char>)>, p: Palette) -> Seq<Seq<SpanView>> {
    match gh {
        Some((g, stars)) => seq![
            seq![fg_bold("GitHub:"@, p.subtext0)],
            seq![fg("  ★ Stars: "@, p.yellow), fg(stars, p.yellow)],
        ] + opt_line(opt_view(g.language), "  Language: "@, p.peach, p) + seq![
            field("  Repo: "@, g.repo_owner@ + "/"@ + g.repo_name@, p.blue, p),
            seq![],
        ],
        None => seq![],
    }
}

/// The status block: the health of the tool (see `spec_detail_status`),
/// its hint, and the favourite mark.
pub open spec fn status_lines(t: Tool, use_count: i64, days_since_use: Option<i64>, p: Palette) -> Seq<
    Seq<SpanView>,
> {
    let (text, color, hint) = spec_detail_status(t.is_installed, use_count, days_since_use, p);
    seq![field("Status: "@, text, color, p)] + (match hint {
        Some(h) => seq![seq![fg("  ↳ "@ + h, p.subtext0)]],
        None => seq![],
    }) + if t.is_favorite {
        seq![seq![fg("★ Favorite"@, p.yellow)]]
    } else {
        seq![]
    }
}

/// The details panel: for the selected tool its blocks, for none a note.
pub open spec fn spec_tool_details(
    tool: Option<Tool>,
    icon: Seq<char>,
    source_name: Seq<char>,
    labels: Option<Seq<Seq<char>>>,
    usage: Option<(i64, Option<Seq<char>>)>,
    gh: Option<(GitHubInfo, Seq<char>)>,
    days_since_use: Option<i64>,
    p: Palette,
) -> Seq<Seq<SpanView>> {
    match tool {
        Some(t) => head_lines(t, icon, source_name, labels, p) + usage_lines(usage, p) + github_lines(gh, p)
            + status_lines(
            t,
            match usage {
                Some((c, _)) => c,
                None => 0,
            },
            days_since_use,
            p,
        ),
        None => seq![seq![fg("No tool selected"@, p.subtext0)]],
    }
}

fn push_line(lines: &mut Vec<DialogLine>, line: DialogLine)
    ensures
        lines_view(final(lines)@) == lines_view(old(lines)@).push(spans_view(line@)),
{
    let ghost before = lines@;
    lines.push(line);
    assert(lines_view(lines@) =~= lines_view(before).push(spans_view(line@)));
}

fn field_line(label: &str, value: String, c: crate::theme::Rgb, p: &Palette) -> (r: DialogLine)
    ensures
        spans_view(r@) == field(label@, value@, c, *p),
{
    let mut v: Vec<StyledText> = Vec::new();
    push(&mut v, styled(label, p.subtext0));
    push(&mut v, styled_owned(value, c));
    assert(spans_view(v@) =~= field(label@, value@, c, *p));
    v
}

fn single(s: StyledText) -> (r: DialogLine)
    ensures
        spans_view(r@) == seq![span_view(s)],
{
    let mut v: Vec<StyledText> = Vec::new();
    push(&mut v, s);
    assert(spans_view(v@) =~= seq![span_view(s)]);
    v
}

fn blank() -> (r: DialogLine)
    ensures
        spans_view(r@) == Seq::<SpanView>::empty(),
{
    let v: Vec<StyledText> = Vec::new();
    assert(spans_view(v@) =~= Seq::<SpanView>::empty());
    v
}

fn push_opt(lines: &mut Vec<DialogLine>, o: &Option<String>, label: &str, c: crate::theme::Rgb, p: &Palette)
    ensures
        lines_view(final(lines)@) == lines_view(old(lines)@) + opt_line(opt_view(*o), label@, c, *p),
{
    let ghost start = lines_view(lines@);
    match o {
        Some(v) => push_line(lines, field_line(label, v.clone(), c, p)),
        None => {},
    }
    assert(lines_view(lines@) =~= start + opt_line(opt_view(*o), label@, c, *p));
}

fn i64_text(n: i64) -> (r: String)
    ensures
        r@ == signed_decimal(n as int),
{
    if n < 0 {
        let magnitude: u64 = (0 - (n as i128)) as u64;
        let mut s = String::from_str("-");
        s.append(u64_to_string(magnitude).as_str());
        proof {
            reveal_strlit("-");
        }
        s
    } else {
        u64_to_string(n as u64)
    }
}

fn label_pills(labels: &Vec<String>, p: &Palette) -> (r: Vec<StyledText>)
    ensures
        spans_view(r@) == pills(views_of(labels@), *p),
{
    let ghost lv = views_of(labels@);
    let mut v: Vec<StyledText> = Vec::new();
    let mut i: usize = 0;
    assert(lv.take(0) =~= Seq::<Seq<char>>::empty());
    while i < labels.len()
        invariant
            i <= labels@.len(),
            lv == views_of(labels@),
            spans_view(v@) == pills(lv.take(i as int), *p),
        decreases labels@.len() - i,
    {
        let ghost t = lv.take(i + 1);
        assert(t.drop_last() =~= lv.take(i as int));
        assert(t.last() == labels@[i as int]@);
        if i > 0 {
            push(&mut v, unstyled(" "));
        }
        let mut text = String::from_str(" ");
        text.append(labels[i].as_str());
        text.append(" ");
        let color = label_color(labels[i].as_str(), p);
        push(&mut v, StyledText {
            text,
            color: Some(p.base),
            bold: false,
            dim: false,
            italic: false,
            background: Some(color),
        });
        i += 1;
    }
    assert(lv.take(labels@.len() as int) =~= lv);
    v
}

fn push_labels(lines: &mut Vec<DialogLine>, labels: Option<&Vec<String>>, p: &Palette)
    ensures
        lines_view(final(lines)@) == lines_view(old(lines)@) + label_block(
            match labels {
                Some(ls) => Some(views_of(ls@)),
                None => None,
            },
            *p,
        ),
{
    let ghost after_fields = lines_view(lines@);
    match labels {
        Some(ls) => {
            if ls.len() > 0 {
                let mut l: Vec<StyledText> = Vec::new();
                push(&mut l, styled("Labels: ", p.subtext0));
                let ghost first = spans_view(l@);
                let mut more = label_pills(ls, p);
                let ghost b = more@;
                l.append(&mut more);
                assert(spans_view(l@) =~= first + spans_view(b));
                assert(spans_view(l@) =~= seq![fg("Labels: "@, p.subtext0)] + pills(views_of(ls@), *p));
                push_line(lines, l);
                assert(lines_view(lines@) =~= after_fields + seq![seq![fg("Labels: "@, p.subtext0)] + pills(views_of(ls@), *p)]);
            } else {
                assert(lines_view(lines@) =~= after_fields + Seq::<Seq<SpanView>>::empty());
            }
        },
        None => {
            assert(lines_view(lines@) =~= after_fields + Seq::<Seq<SpanView>>::empty());
        },
    }
}

fn push_head(
    lines: &mut Vec<DialogLine>,
    t: &Tool,
    icon: &str,
    source_name: &str,
    labels: Option<&Vec<String>>,
    p: &Palette,
)
    ensures
        lines_view(final(lines)@) == lines_view(old(lines)@) + head_lines(
            *t,
            icon@,
            source_name@,
            match labels {
                Some(ls) => Some(views_of(ls@)),
                None => None,
            },
            *p,
        ),
{
    let ghost start = lines_view(lines@);
    let mut name_line: Vec<StyledText> = Vec::new();
    push(&mut name_line, styled("Name: ", p.subtext0));
    push(&mut name_line, bold(t.name.as_str(), p.blue));
    assert(spans_view(name_line@) =~= seq![fg("Name: "@, p.subtext0), fg_bold(t.name@, p.blue)]);
    push_line(lines, name_line);
    push_line(lines, blank());
    let ghost after_name = lines_view(lines@);
    assert(after_name =~= start + seq![seq![fg("Name: "@, p.subtext0), fg_bold(t.name@, p.blue)], seq![]]);
    match &t.description {
        Some(d) => {
            push_line(lines, single(styled("Description:", p.subtext0)));
            push_line(lines, single(styled(d.as_str(), p.text)));
            push_line(lines, blank());
            assert(lines_view(lines@) =~= after_name + seq![seq![fg("Description:"@, p.subtext0)], seq![fg(d@, p.text)], seq![]]);
        },
        None => {
            assert(lines_view(lines@) =~= after_name + Seq::<Seq<SpanView>>::empty());
        },
    }
    let ghost after_desc = lines_view(lines@);
    let mut src = icon.to_owned();
    src.append(" ");
    src.append(source_name);
    assert(src@ == icon@ + " "@ + source_name@);
    push_line(lines, field_line("Source: ", src, p.peach, p));
    push_opt(lines, &t.install_command, "Install: ", p.green, p);
    push_opt(lines, &t.binary_name, "Binary: ", p.text, p);
    push_opt(lines, &t.category, "Category: ", p.mauve, p);
    let ghost after_fields = lines_view(lines@);
    assert(after_fields =~= after_desc + seq![field("Source: "@, icon@ + " "@ + source_name@, p.peach, *p)]
        + opt_line(opt_view(t.install_command), "Install: "@, p.green, *p) + opt_line(
        opt_view(t.binary_name),
        "Binary: "@,
        p.text,
        *p,
    ) + opt_line(opt_view(t.category), "Category: "@, p.mauve, *p));
    push_labels(lines, labels, p);
    assert(lines_view(lines@) =~= after_fields + label_block(
        match labels {
            Some(ls) => Some(views_of(ls@)),
            None => None,
        },
        *p,
    ));
    push_line(lines, blank());
    assert(after_desc =~= start + seq![seq![fg("Name: "@, p.subtext0), fg_bold(t.name@, p.blue)], seq![]]
        + desc_lines(*t, *p));
    assert(lines_view(lines@) =~= start + head_lines(
        *t,
        icon@,
        source_name@,
        match labels {
            Some(ls) => Some(views_of(ls@)),
            None => None,
        },
        *p,
    ));
}

fn push_usage(lines: &mut Vec<DialogLine>, usage: Option<(i64, Option<&str>)>, p: &Palette)
    ensures
        lines_view(final(lines)@) == lines_view(old(lines)@) + usage_lines(
            match usage {
                Some((c, l)) => Some((
                    c,
                    match l {
                        Some(x) => Some(x@),
                        None => None,
                    },
                )),
                None => None,
            },
            *p,
        ),
{
    let ghost start = lines_view(lines@);
    match usage {
        Some((count, last)) => {
            push_line(lines, single(bold("Usage:", p.subtext0)));
            push_line(lines, field_line("  Invocations: ", i64_text(count), p.teal, p));
            match last {
                Some(l) => push_line(lines, field_line("  Last used: ", l.to_owned(), p.text, p)),
                None => {},
            }
            push_line(lines, blank());
        },
        None => {},
    }
    assert(lines_view(lines@) =~= start + usage_lines(
        match usage {
            Some((c, l)) => Some((
                c,
                match l {
                    Some(x) => Some(x@),
                    None => None,
                },
            )),
            None => None,
        },
        *p,
    ));
}

fn push_github(lines: &mut Vec<DialogLine>, gh: Option<(&GitHubInfo, &str)>, p: &Palette)
    ensures
        lines_view(final(lines)@) == lines_view(old(lines)@) + github_lines(
            match gh {
                Some((g, s)) => Some((*g, s@)),
                None => None,
            },
            *p,
        ),
{
    let ghost start = lines_view(lines@);
    match gh {
        Some((g, stars)) => {
            push_line(lines, single(bold("GitHub:", p.subtext0)));
            let mut s: Vec<StyledText> = Vec::new();
            push(&mut s, styled("  ★ Stars: ", p.yellow));
            push(&mut s, styled(stars, p.yellow));
            assert(spans_view(s@) =~= seq![fg("  ★ Stars: "@, p.yellow), fg(stars@, p.yellow)]);
            push_line(lines, s);
            push_opt(lines, &g.language, "  Language: ", p.peach, p);
            let mut repo = g.repo_owner.clone();
            repo.append("/");
            repo.append(g.repo_name.as_str());
            assert(repo@ == g.repo_owner@ + "/"@ + g.repo_name@);
            push_line(lines, field_line("  Repo: ", repo, p.blue, p));
            push_line(lines, blank());
        },
        None => {},
    }
    assert(lines_view(lines@) =~= start + github_lines(
        match gh {
            Some((g, s)) => Some((*g, s@)),
            None => None,
        },
        *p,
    ));
}

fn push_status(lines: &mut Vec<DialogLine>, t: &Tool, use_count: i64, days_since_use: Option<i64>, p: &Palette)
    ensures
        lines_view(final(lines)@) == lines_view(old(lines)@) + status_lines(*t, use_count, days_since_use, *p),
{
    let ghost start = lines_view(lines@);
    let (text, color, hint) = detail_status(t.is_installed, use_count, days_since_use, p);
    push_line(lines, field_line("Status: ", text.to_owned(), color, p));
    match hint {
        Some(h) => {
            let mut m = String::from_str("  ↳ ");
            m.append(h);
            push_line(lines, single(styled_owned(m, p.subtext0)));
        },
        None => {},
    }
    if t.is_favorite {
        push_line(lines, single(styled("★ Favorite", p.yellow)));
    }
    assert(lines_view(lines@) =~= start + status_lines(*t, use_count, days_since_use, *p));
}

/// The lines of the details panel (see `spec_tool_details`). The caller
/// gives the source's icon and name, the last use and the star count as
/// they are to be worded, and the days since the last use.
pub fn tool_details_lines(
    tool: Option<&Tool>,
    icon: &str,
    source_name: &str,
    labels: Option<&Vec<String>>,
    usage: Option<(i64, Option<&str>)>,
    gh: Option<(&GitHubInfo, &str)>,
    days_since_use: Option<i64>,
    p: &Palette,
) -> (r: Vec<DialogLine>)
    ensures
        lines_view(r@) == spec_tool_details(
            match tool {
                Some(t) => Some(*t),
                None => None,
            },
            icon@,
            source_name@,
            match labels {
                Some(ls) => Some(views_of(ls@)),
                None => None,
            },
            match usage {
                Some((c, l)) => Some((
                    c,
                    match l {
                        Some(x) => Some(x@),
                        None => None,
                    },
                )),
                None => None,
            },
            match gh {
                Some((g, s)) => Some((*g, s@)),
                None => None,
            },
            days_since_use,
            *p,
        ),
{
    let mut lines: Vec<DialogLine> = Vec::new();
    match tool {
        None => {
            push_line(&mut lines, single(styled("No tool selected", p.subtext0)));
        },
        Some(t) => {
            assert(lines_view(lines@) =~= Seq::<Seq<SpanView>>::empty());
            push_head(&mut lines, t, icon, source_name, labels, p);
            push_usage(&mut lines, usage, p);
            push_github(&mut lines, gh, p);
            let count = match usage {
                Some((c, _)) => c,
                None => 0,
            };
            push_status(&mut lines, t, count, days_since_use, p);
        },
    }
    lines
}

/// The icon of a search source.
pub open spec fn source_icon(s: DiscoverSource) -> Seq<char> {
    match s {
        DiscoverSource::GitHub => "\u{f09b}"@,
        DiscoverSource::CratesIo => "🦀"@,
        DiscoverSource::PyPI => "🐍"@,
        DiscoverSource::Npm => "\u{e71e}"@,
        DiscoverSource::Apt => "📦"@,
        DiscoverSource::Homebrew => "🍺"@,
        DiscoverSource::AI => "🤖"@,
    }
}

/// The name of a search source's variant, as its derived `Debug` writes
/// it.
pub open spec fn source_variant_name(s: DiscoverSource) -> Seq<char> {
    match s {
        DiscoverSource::GitHub => "GitHub"@,
        DiscoverSource::CratesIo => "CratesIo"@,
        DiscoverSource::PyPI => "PyPI"@,
        DiscoverSource::Npm => "Npm"@,
        DiscoverSource::Apt => "Apt"@,
        DiscoverSource::Homebrew => "Homebrew"@,
        DiscoverSource::AI => "AI"@,
    }
}

fn variant_name(s: DiscoverSource) -> (r: &'static str)
    ensures
        r@ == source_variant_name(s),
{
    match s {
        DiscoverSource::GitHub => "GitHub",
        DiscoverSource::CratesIo => "CratesIo",
        DiscoverSource::PyPI => "PyPI",
        DiscoverSource::Npm => "Npm",
        DiscoverSource::Apt => "Apt",
        DiscoverSource::Homebrew => "Homebrew",
        DiscoverSource::AI => "AI",
    }
}

/// How a result's address is shown: a GitHub address as its repository
/// path (without the site prefix, repeated or not, and trailing slashes),
/// any other address whole.
pub open spec fn url_display(url: Seq<char>) -> Seq<char> {
    if contains_seq(url, "github.com"@) {
        strip_trailing(strip_prefix_all(url, "https://github.com/"@), '/')
    } else {
        url
    }
}

/// The install lines of a result: each option's icon and command.
pub open spec fn option_lines(opts: Seq<InstallOption>, p: Palette) -> Seq<Seq<SpanView>> {
    Seq::new(
        opts.len(),
        |i: int| seq![plain("  "@ + source_icon(opts[i].source) + " "@), fg(opts[i].install_command@, p.green)],
    )
}

/// The name and description lines of a result.
pub open spec fn result_head(r: DiscoverResult, p: Palette) -> Seq<Seq<SpanView>> {
    seq![seq![fg("Name: "@, p.subtext0), fg_bold(r.name@, p.blue)], seq![]] + match r.description {
        Some(d) => seq![seq![fg("Description:"@, p.subtext0)], seq![fg(d@, p.text)], seq![]],
        None => seq![],
    }
}

/// The package info of a result: its source, the language and the star
/// count (as the caller words them), its address, and an empty line.
pub open spec fn result_info(
    r: DiscoverResult,
    language: Option<Seq<char>>,
    stars: Option<Seq<char>>,
    p: Palette,
) -> Seq<Seq<SpanView>> {
    let stars_line = match (r.stars, stars) {
        (Some(_), Some(t)) => seq![seq![fg("  ★ Stars: "@, p.yellow), fg(t, p.yellow)]],
        _ => seq![],
    };
    let url_line = match r.url {
        Some(u) => seq![field("  URL: "@, url_display(u@), p.blue, p)],
        None => seq![],
    };
    seq![
        seq![fg_bold("Package Info:"@, p.subtext0)],
        field("  Source: "@, source_icon(r.source) + " "@ + source_variant_name(r.source), p.peach, p),
    ] + opt_line(language, "  Language: "@, p.peach, p) + stars_line + url_line + seq![seq![]]
}

/// The install block of a result, when it has install options.
pub open spec fn result_install(r: DiscoverResult, p: Palette) -> Seq<Seq<SpanView>> {
    if r.install_options@.len() > 0 {
        seq![seq![fg_bold("Install:"@, p.subtext0)]] + option_lines(r.install_options@, p) + seq![seq![]]
    } else {
        seq![]
    }
}

/// The details panel of a Discover result: name and description, the
/// package info, the install options, and the keys; a prompt to select one
/// when there is no result.
pub open spec fn spec_discover_details(
    result: Option<DiscoverResult>,
    language: Option<Seq<char>>,
    stars: Option<Seq<char>>,
    p: Palette,
) -> Seq<Seq<SpanView>> {
    match result {
        None => seq![seq![], seq![fg("Select a result to see details"@, p.subtext0)]],
        Some(r) => result_head(r, p) + result_info(r, language, stars, p) + result_install(r, p) + seq![
            seq![fg("─── Actions ───"@, p.surface1)],
            seq![
                fg("i"@, p.mauve),
                fg(" install  "@, p.subtext0),
                fg("Enter"@, p.mauve),
                fg(" view README"@, p.subtext0),
            ],
        ],
    }
}

fn push_result_head(lines: &mut Vec<DialogLine>, r: &DiscoverResult, p: &Palette)
    ensures
        lines_view(final(lines)@) == lines_view(old(lines)@) + result_head(*r, *p),
{
    let ghost start = lines_view(lines@);
    let mut name_line: Vec<StyledText> = Vec::new();
    push(&mut name_line, styled("Name: ", p.subtext0));
    push(&mut name_line, bold(r.name.as_str(), p.blue));
    assert(spans_view(name_line@) =~= seq![fg("Name: "@, p.subtext0), fg_bold(r.name@, p.blue)]);
    push_line(lines, name_line);
    push_line(lines, blank());
    let ghost after_name = lines_view(lines@);
    match &r.description {
        Some(d) => {
            push_line(lines, single(styled("Description:", p.subtext0)));
            push_line(lines, single(styled(d.as_str(), p.text)));
            push_line(lines, blank());
            assert(lines_view(lines@) =~= after_name + seq![seq![fg("Description:"@, p.subtext0)], seq![fg(d@, p.text)], seq![]]);
        },
        None => {
            assert(lines_view(lines@) =~= after_name + Seq::<Seq<SpanView>>::empty());
        },
    }
    assert(lines_view(lines@) =~= start + result_head(*r, *p));
}

fn push_result_info(lines: &mut Vec<DialogLine>, r: &DiscoverResult, language: Option<&str>, stars: Option<&str>, p: &Palette)
    ensures
        lines_view(final(lines)@) == lines_view(old(lines)@) + result_info(
            *r,
            match language {
                Some(l) => Some(l@),
                None => None,
            },
            match stars {
                Some(t) => Some(t@),
                None => None,
            },
            *p,
        ),
{
    let ghost start = lines_view(lines@);
    push_line(lines, single(bold("Package Info:", p.subtext0)));
    let mut src = r.source.icon().to_owned();
    src.append(" ");
    src.append(variant_name(r.source));
    push_line(lines, field_line("  Source: ", src, p.peach, p));
    let ghost after_source = lines_view(lines@);
    match language {
        Some(l) => push_line(lines, field_line("  Language: ", l.to_owned(), p.peach, p)),
        None => {},
    }
    let ghost after_lang = lines_view(lines@);
    assert(after_lang =~= after_source + opt_line(
        match language {
            Some(l) => Some(l@),
            None => None,
        },
        "  Language: "@,
        p.peach,
        *p,
    ));
    match (r.stars, stars) {
        (Some(_), Some(t)) => {
            let mut v: Vec<StyledText> = Vec::new();
            push(&mut v, styled("  ★ Stars: ", p.yellow));
            push(&mut v, styled(t, p.yellow));
            assert(spans_view(v@) =~= seq![fg("  ★ Stars: "@, p.yellow), fg(t@, p.yellow)]);
            push_line(lines, v);
        },
        _ => {},
    }
    match &r.url {
        Some(u) => {
            let shown = if chars_contain(&chars_of(u.as_str()), &chars_of("github.com")) {
                let rest = strip_prefix_all_str(u.as_str(), "https://github.com/");
                strip_end(rest.as_str(), '/')
            } else {
                u.clone()
            };
            push_line(lines, field_line("  URL: ", shown, p.blue, p));
        },
        None => {},
    }
    push_line(lines, blank());
    assert(lines_view(lines@) =~= start + result_info(
        *r,
        match language {
            Some(l) => Some(l@),
            None => None,
        },
        match stars {
            Some(t) => Some(t@),
            None => None,
        },
        *p,
    ));
}

/// The lines of the Discover details panel (see `spec_discover_details`);
/// the caller words the language and the star count.
pub fn discover_details_lines(
    result: Option<&DiscoverResult>,
    language: Option<&str>,
    stars: Option<&str>,
    p: &Palette,
) -> (r: Vec<DialogLine>)
    ensures
        lines_view(r@) == spec_discover_details(
            match result {
                Some(x) => Some(*x),
                None => None,
            },
            match language {
                Some(l) => Some(l@),
                None => None,
            },
            match stars {
                Some(t) => Some(t@),
                None => None,
            },
            *p,
        ),
{
    let mut lines: Vec<DialogLine> = Vec::new();
    match result {
        None => {
            push_line(&mut lines, blank());
            push_line(&mut lines, single(styled("Select a result to see details", p.subtext0)));
            assert(lines_view(lines@) =~= seq![seq![], seq![fg("Select a result to see details"@, p.subtext0)]]);
        },
        Some(r) => {
            assert(lines_view(lines@) =~= Seq::<Seq<SpanView>>::empty());
            push_result_head(&mut lines, r, p);
            push_result_info(&mut lines, r, language, stars, p);
            let ghost head = lines_view(lines@);
            if r.install_options.len() > 0 {
                push_line(&mut lines, single(bold("Install:", p.subtext0)));
                let ghost before_opts = lines_view(lines@);
                let mut i: usize = 0;
                while i < r.install_options.len()
                    invariant
                        i <= r.install_options@.len(),
                        lines_view(lines@) == before_opts + option_lines(r.install_options@, *p).take(i as int),
                    decreases r.install_options@.len() - i,
                {
                    let opt = &r.install_options[i];
                    let mut ic = String::from_str("  ");
                    ic.append(opt.source.icon());
                    ic.append(" ");
                    let mut v: Vec<StyledText> = Vec::new();
                    push(&mut v, StyledText {
                        text: ic,
                        color: None,
                        bold: false,
                        dim: false,
                        italic: false,
                        background: None,
                    });
                    push(&mut v, styled(opt.install_command.as_str(), p.green));
                    assert(spans_view(v@) =~= option_lines(r.install_options@, *p)[i as int]);
                    push_line(&mut lines, v);
                    assert(option_lines(r.install_options@, *p).take(i + 1) =~= option_lines(
                        r.install_options@,
                        *p,
                    ).take(i as int).push(option_lines(r.install_options@, *p)[i as int]));
                    i += 1;
                }
                assert(option_lines(r.install_options@, *p).take(r.install_options@.len() as int)
                    =~= option_lines(r.install_options@, *p));
                push_line(&mut lines, blank());
            }
            let ghost with_install = lines_view(lines@);
            push_line(&mut lines, single(styled("─── Actions ───", p.surface1)));
            let mut keys: Vec<StyledText> = Vec::new();
            push(&mut keys, styled("i", p.mauve));
            push(&mut keys, styled(" install  ", p.subtext0));
            push(&mut keys, styled("Enter", p.mauve));
            push(&mut keys, styled(" view README", p.subtext0));
            assert(spans_view(keys@) =~= seq![
                fg("i"@, p.mauve),
                fg(" install  "@, p.subtext0),
                fg("Enter"@, p.mauve),
                fg(" view README"@, p.subtext0),
            ]);
            push_line(&mut lines, keys);
            assert(with_install =~= head + result_install(*r, *p));
        },
    }
    lines
}

} // verus!

