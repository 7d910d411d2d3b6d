//! What the configuration menu shows: its sections with radio buttons and
//! check boxes, and how its lines line up with the menu layout that mouse
//! clicks are mapped through.

use vstd::prelude::*;
use crate::config::{source_names, SourcesConfig};
use crate::config_menu::ConfigMenuState;
use crate::dialogs::{lines_view, DialogLine};
use crate::styled::{
    bold, fg, fg_bold, fg_italic, fg_on, italic, italic_owned, on_background, plain, push,
    spans_view, styled, unstyled, SpanView, StyledText,
};
use crate::theme::Palette;
use crate::types::config_menu_layout::spec_total_lines;
use crate::types::ConfigSection;

verus! {

/// The style of an option: blue and bold under the cursor, green when
/// chosen, grey otherwise.
pub open spec fn option_span(text: Seq<char>, chosen: bool, focused: bool, p: Palette) -> SpanView {
    if focused {
        fg_bold(text, p.blue)
    } else if chosen {
        fg(text, p.green)
    } else {
        fg(text, p.subtext0)
    }
}

/// A radio button line: a filled or hollow bullet and the label.
pub open spec fn radio_line(chosen: bool, focused: bool, label: Seq<char>, p: Palette) -> Seq<SpanView> {
    seq![
        option_span("  "@ + (if chosen {
            "●"@
        } else {
            "○"@
        }) + " "@, chosen, focused, p),
        option_span(label, chosen, focused, p),
    ]
}

/// A check box line: a ticked or empty box and the label.
pub open spec fn checkbox_line(checked: bool, focused: bool, label: Seq<char>, p: Palette) -> Seq<SpanView> {
    seq![
        option_span("  "@ + (if checked {
            "☑"@
        } else {
            "☐"@
        }) + " "@, checked, focused, p),
        option_span(label, checked, focused, p),
    ]
}

/// A section header: bold, blue when the section has the focus.
pub open spec fn header_line(title: Seq<char>, focused: bool, p: Palette) -> Seq<SpanView> {
    seq![fg_bold(title, if focused {
        p.blue
    } else {
        p.text
    })]
}

/// The labels of the AI providers, in menu order; `assistant` is the name
/// of the second provider, the one whose model can be chosen.
pub open spec fn provider_labels(assistant: Seq<char>) -> Seq<Seq<char>> {
    seq!["None (disabled)"@, assistant, "Gemini"@, "Codex"@, "Opencode"@]
}

/// The labels of the assistant's models, in menu order.
pub open spec fn model_labels() -> Seq<Seq<char>> {
    seq!["Haiku - Fast and cost-effective"@, "Sonnet - Balanced intelligence"@, "Opus - Most capable"@]
}

/// The labels of the built-in themes, in menu order.
pub open spec fn theme_labels() -> Seq<Seq<char>> {
    seq!["Catppuccin Mocha"@, "Catppuccin Latte"@, "Dracula"@, "Nord"@, "Tokyo Night"@, "Gruvbox"@]
}

/// The labels of the package managers, in menu order.
pub open spec fn source_labels() -> Seq<Seq<char>> {
    seq!["Cargo"@, "Apt"@, "Pip"@, "npm"@, "Brew"@, "Flatpak"@, "Manual"@]
}

/// Radio lines for the labels, the one at `chosen` filled, the cursor on
/// it when the section has the focus.
pub open spec fn radio_lines(labels: Seq<Seq<char>>, chosen: nat, focused: bool, p: Palette) -> Seq<
    Seq<SpanView>,
> {
    Seq::new(
        labels.len(),
        |i: int| radio_line(i == chosen, focused && i == chosen, labels[i], p),
    )
}

/// The menu's lines (see the section functions below), with the name of
/// the assistant provider, and the custom theme's existence and its file's
/// path, when known, read by the caller.
pub open spec fn spec_config_lines(
    s: ConfigMenuState,
    assistant: Seq<char>,
    custom_exists: bool,
    custom_path: Option<Seq<char>>,
    p: Palette,
) -> Seq<Seq<SpanView>> {
    ai_section(s, assistant, p) + model_section(s, assistant, p) + theme_section(s, custom_exists, custom_path, p)
        + sources_section(s, p) + usage_section(s, p) + seq![buttons_line(s, p)]
}

/// The AI provider section: a header, the providers, an empty line.
pub open spec fn ai_section(s: ConfigMenuState, assistant: Seq<char>, p: Palette) -> Seq<Seq<SpanView>> {
    let f = s.section == ConfigSection::AiProvider;
    seq![header_line("AI Provider"@, f, p)] + radio_lines(provider_labels(assistant), s.ai_selected as nat, f, p)
        + seq![seq![]]
}

/// The model section: the assistant's models when it is the provider, else
/// a dimmed note to choose it first.
pub open spec fn model_section(s: ConfigMenuState, assistant: Seq<char>, p: Palette) -> Seq<Seq<SpanView>> {
    let f = s.section == ConfigSection::ClaudeModel;
    if s.ai_selected != 1 {
        seq![seq![fg_italic(assistant + " Model (select "@ + assistant + " above)"@, p.subtext0)], seq![]]
    } else {
        seq![header_line(assistant + " Model"@, f, p)] + radio_lines(
            model_labels(),
            s.claude_model_selected as nat,
            f,
            p,
        ) + seq![seq![]]
    }
}

/// The theme section: the built-in themes, the custom theme (with a hint
/// when it has not been created), its file when chosen and known, and an
/// empty line.
pub open spec fn theme_section(
    s: ConfigMenuState,
    custom_exists: bool,
    custom_path: Option<Seq<char>>,
    p: Palette,
) -> Seq<Seq<SpanView>> {
    let f = s.section == ConfigSection::Theme;
    let custom = s.theme_selected == 6;
    let edit = match custom_path {
        Some(path) => if custom {
            seq![seq![fg_italic("    Edit: "@ + path, p.subtext0)]]
        } else {
            seq![]
        },
        None => seq![],
    };
    seq![header_line("Theme"@, f, p)] + radio_lines(theme_labels(), s.theme_selected as nat, f, p) + seq![
        radio_line(custom, f && custom, if custom_exists {
            "Custom"@
        } else {
            "Custom (use :create-theme to create)"@
        }, p),
    ] + edit + seq![seq![]]
}

/// The package manager section: a check box per source.
pub open spec fn sources_section(s: ConfigMenuState, p: Palette) -> Seq<Seq<SpanView>> {
    let f = s.section == ConfigSection::Sources;
    seq![header_line("Package Managers"@, f, p)] + Seq::new(
        7,
        |i: int|
            checkbox_line(
                s.sources.spec_is_enabled(source_names()[i]),
                f && i == s.source_focused,
                source_labels()[i],
                p,
            ),
    ) + seq![seq![]]
}

/// The usage tracking section: scanning or the shell hook.
pub open spec fn usage_section(s: ConfigMenuState, p: Palette) -> Seq<Seq<SpanView>> {
    let f = s.section == ConfigSection::UsageMode;
    seq![
        header_line("Usage Tracking"@, f, p),
        radio_line(s.usage_selected == 0, f && s.usage_selected == 0, "Scan (manual)"@, p),
        radio_line(s.usage_selected == 1, f && s.usage_selected == 1, "Hook (real-time)"@, p),
        seq![],
    ]
}

/// The buttons: Save in green and Cancel in red, the focused one drawn
/// inverted.
pub open spec fn buttons_line(s: ConfigMenuState, p: Palette) -> Seq<SpanView> {
    let f = s.section == ConfigSection::Buttons;
    seq![
        plain("  "@),
        if f && s.button_focused == 0 {
            fg_on(" Save "@, p.base, p.green)
        } else {
            fg(" Save "@, p.green)
        },
        plain("  "@),
        if f && s.button_focused == 1 {
            fg_on(" Cancel "@, p.base, p.red)
        } else {
            fg(" Cancel "@, p.red)
        },
    ]
}

fn push_line(lines: &mut Vec<DialogLine>, line: DialogLine)
    ensures
        lines_view(final(lines)@) == lines_view(old(lines)@).push(spans_view(line@)),
{
    let ghost before = lines@;
    lines.push(line);
    assert(lines_view(lines@) =~= lines_view(before).push(spans_view(line@)));
}

fn option(text: String, chosen: bool, focused: bool, p: &Palette) -> (r: StyledText)
    ensures
        crate::styled::span_view(r) == option_span(text@, chosen, focused, *p),
{
    if focused {
        StyledText { text, color: Some(p.blue), bold: true, dim: false, italic: false, background: None }
    } else if chosen {
        StyledText { text, color: Some(p.green), bold: false, dim: false, italic: false, background: None }
    } else {
        StyledText { text, color: Some(p.subtext0), bold: false, dim: false, italic: false, background: None }
    }
}

fn make_radio_line(chosen: bool, focused: bool, label: &str, p: &Palette) -> (r: DialogLine)
    ensures
        spans_view(r@) == radio_line(chosen, focused, label@, *p),
{
    let mut mark = String::from_str("  ");
    mark.append(if chosen {
        "●"
    } else {
        "○"
    });
    mark.append(" ");
    let mut v: Vec<StyledText> = Vec::new();
    push(&mut v, option(mark, chosen, focused, p));
    push(&mut v, option(label.to_owned(), chosen, focused, p));
    assert(spans_view(v@) =~= radio_line(chosen, focused, label@, *p));
    v
}

fn make_checkbox_line(checked: bool, focused: bool, label: &str, p: &Palette) -> (r: DialogLine)
    ensures
        spans_view(r@) == checkbox_line(checked, focused, label@, *p),
{
    let mut mark = String::from_str("  ");
    mark.append(if checked {
        "☑"
    } else {
        "☐"
    });
    mark.append(" ");
    let mut v: Vec<StyledText> = Vec::new();
    push(&mut v, option(mark, checked, focused, p));
    push(&mut v, option(label.to_owned(), checked, focused, p));
    assert(spans_view(v@) =~= checkbox_line(checked, focused, label@, *p));
    v
}

fn make_section_header(title: &str, focused: bool, p: &Palette) -> (r: DialogLine)
    ensures
        spans_view(r@) == header_line(title@, focused, *p),
{
    let mut v: Vec<StyledText> = Vec::new();
    push(&mut v, bold(title, if focused {
        p.blue
    } else {
        p.text
    }));
    assert(spans_view(v@) =~= header_line(title@, focused, *p));
    v
}

fn empty() -> (r: DialogLine)
    ensures
        spans_view(r@) == Seq::<SpanView>::empty(),
{
    let v: Vec<StyledText> = Vec::new();
    assert(spans_view(v@) =~= Seq::<SpanView>::empty());
    v
}

fn push_radios(lines: &mut Vec<DialogLine>, labels: &[&str], chosen: usize, focused: bool, p: &Palette)
    ensures
        lines_view(final(lines)@) == lines_view(old(lines)@) + radio_lines(
            labels@.map_values(|l: &str| l@),
            chosen as nat,
            focused,
            *p,
        ),
{
    let ghost ls = labels@.map_values(|l: &str| l@);
    let ghost start = lines_view(lines@);
    let mut i: usize = 0;
    while i < labels.len()
        invariant
            i <= labels@.len(),
            ls == labels@.map_values(|l: &str| l@),
            start == lines_view(old(lines)@),
            lines_view(lines@) == start + radio_lines(ls, chosen as nat, focused, *p).take(i as int),
        decreases labels@.len() - i,
    {
        push_line(lines, make_radio_line(i == chosen, focused && i == chosen, labels[i], p));
        assert(radio_lines(ls, chosen as nat, focused, *p).take(i + 1) =~= radio_lines(
            ls,
            chosen as nat,
            focused,
            *p,
        ).take(i as int).push(radio_line(i == chosen, focused && i == chosen, labels@[i as int]@, *p)));
        i += 1;
    }
    assert(radio_lines(ls, chosen as nat, focused, *p).take(labels@.len() as int) =~= radio_lines(
        ls,
        chosen as nat,
        focused,
        *p,
    ));
}

fn push_ai_section(lines: &mut Vec<DialogLine>, s: &ConfigMenuState, assistant: &str, p: &Palette)
    ensures
        lines_view(final(lines)@) == lines_view(old(lines)@) + ai_section(*s, assistant@, *p),
{
    let ghost start = lines_view(lines@);
    let f = s.section == ConfigSection::AiProvider;
    push_line(lines, make_section_header("AI Provider", f, p));
    let providers: [&str; 5] = ["None (disabled)", assistant, "Gemini", "Codex", "Opencode"];
    push_radios(lines, providers.as_slice(), s.ai_selected, f, p);
    push_line(lines, empty());
    proof {
        assert(providers@.map_values(|l: &str| l@) =~= provider_labels(assistant@));
    }
    assert(lines_view(lines@) =~= start + ai_section(*s, assistant@, *p));
}

fn push_model_section(lines: &mut Vec<DialogLine>, s: &ConfigMenuState, assistant: &str, p: &Palette)
    ensures
        lines_view(final(lines)@) == lines_view(old(lines)@) + model_section(*s, assistant@, *p),
{
    let ghost start = lines_view(lines@);
    let f = s.section == ConfigSection::ClaudeModel;
    if s.ai_selected != 1 {
        let mut note = assistant.to_owned();
        note.append(" Model (select ");
        note.append(assistant);
        note.append(" above)");
        let mut v: Vec<StyledText> = Vec::new();
        push(&mut v, italic_owned(note, p.subtext0));
        assert(spans_view(v@) =~= seq![fg_italic(assistant@ + " Model (select "@ + assistant@ + " above)"@, p.subtext0)]);
        push_line(lines, v);
        push_line(lines, empty());
    } else {
        let mut title = assistant.to_owned();
        title.append(" Model");
        push_line(lines, make_section_header(title.as_str(), f, p));
        let models: [&str; 3] = [
            "Haiku - Fast and cost-effective",
            "Sonnet - Balanced intelligence",
            "Opus - Most capable",
        ];
        push_radios(lines, models.as_slice(), s.claude_model_selected, f, p);
        push_line(lines, empty());
        proof {
            assert(models@.map_values(|l: &str| l@) =~= model_labels());
        }
    }
    assert(lines_view(lines@) =~= start + model_section(*s, assistant@, *p));
}

fn push_theme_section(
    lines: &mut Vec<DialogLine>,
    s: &ConfigMenuState,
    custom_exists: bool,
    custom_path: Option<&str>,
    p: &Palette,
)
    ensures
        lines_view(final(lines)@) == lines_view(old(lines)@) + theme_section(
            *s,
            custom_exists,
            match custom_path {
                Some(x) => Some(x@),
                None => None,
            },
            *p,
        ),
{
    let ghost start = lines_view(lines@);
    let f = s.section == ConfigSection::Theme;
    push_line(lines, make_section_header("Theme", f, p));
    let themes: [&str; 6] = [
        "Catppuccin Mocha",
        "Catppuccin Latte",
        "Dracula",
        "Nord",
        "Tokyo Night",
        "Gruvbox",
    ];
    push_radios(lines, themes.as_slice(), s.theme_selected, f, p);
    proof {
        assert(themes@.map_values(|l: &str| l@) =~= theme_labels());
    }
    let custom = s.theme_selected == 6;
    push_line(
        lines,
        make_radio_line(custom, f && custom, if custom_exists {
            "Custom"
        } else {
            "Custom (use :create-theme to create)"
        }, p),
    );
    if custom {
        match custom_path {
            Some(path) => {
                let mut t = String::from_str("    Edit: ");
                t.append(path);
                let mut v: Vec<StyledText> = Vec::new();
                push(&mut v, italic_owned(t, p.subtext0));
                assert(spans_view(v@) =~= seq![fg_italic("    Edit: "@ + path@, p.subtext0)]);
                push_line(lines, v);
            },
            None => {},
        }
    }
    push_line(lines, empty());
    assert(lines_view(lines@) =~= start + theme_section(
        *s,
        custom_exists,
        match custom_path {
            Some(x) => Some(x@),
            None => None,
        },
        *p,
    ));
}

fn push_sources_section(lines: &mut Vec<DialogLine>, s: &ConfigMenuState, p: &Palette)
    ensures
        lines_view(final(lines)@) == lines_view(old(lines)@) + sources_section(*s, *p),
{
    let ghost start = lines_view(lines@);
    let f = s.section == ConfigSection::Sources;
    push_line(lines, make_section_header("Package Managers", f, p));
    let names = SourcesConfig::all_sources();
    let labels: [&str; 7] = ["Cargo", "Apt", "Pip", "npm", "Brew", "Flatpak", "Manual"];
    let ghost before_boxes = lines_view(lines@);
    let ghost boxes = Seq::new(
        7,
        |i: int|
            checkbox_line(
                s.sources.spec_is_enabled(source_names()[i]),
                f && i == s.source_focused,
                source_labels()[i],
                *p,
            ),
    );
    proof {
        assert(labels@.map_values(|l: &str| l@) =~= source_labels());
    }
    let mut i: usize = 0;
    while i < 7
        invariant
            i <= 7,
            names@.len() == 7,
            forall|k: int| 0 <= k < 7 ==> (#[trigger] names@[k])@ == source_names()[k],
            labels@.map_values(|l: &str| l@) == source_labels(),
            boxes == Seq::new(
                7,
                |i: int|
                    checkbox_line(
                        s.sources.spec_is_enabled(source_names()[i]),
                        f && i == s.source_focused,
                        source_labels()[i],
                        *p,
                    ),
            ),
            lines_view(lines@) == before_boxes + boxes.take(i as int),
        decreases 7 - i,
    {
        let checked = s.sources.is_enabled(names[i]);
        assert(labels@[i as int]@ == source_labels()[i as int]);
        push_line(lines, make_checkbox_line(checked, f && i == s.source_focused, labels[i], p));
        assert(boxes.take(i + 1) =~= boxes.take(i as int).push(boxes[i as int]));
        i += 1;
    }
    assert(boxes.take(7) =~= boxes);
    push_line(lines, empty());
    assert(lines_view(lines@) =~= start + sources_section(*s, *p));
}

fn push_usage_section(lines: &mut Vec<DialogLine>, s: &ConfigMenuState, p: &Palette)
    ensures
        lines_view(final(lines)@) == lines_view(old(lines)@) + usage_section(*s, *p),
{
    let ghost start = lines_view(lines@);
    let f = s.section == ConfigSection::UsageMode;
    push_line(lines, make_section_header("Usage Tracking", f, p));
    push_line(lines, make_radio_line(s.usage_selected == 0, f && s.usage_selected == 0, "Scan (manual)", p));
    push_line(
        lines,
        make_radio_line(s.usage_selected == 1, f && s.usage_selected == 1, "Hook (real-time)", p),
    );
    push_line(lines, empty());
    assert(lines_view(lines@) =~= start + usage_section(*s, *p));
}

fn make_buttons_line(s: &ConfigMenuState, p: &Palette) -> (r: DialogLine)
    ensures
        spans_view(r@) == buttons_line(*s, *p),
{
    let f = s.section == ConfigSection::Buttons;
    let mut v: Vec<StyledText> = Vec::new();
    push(&mut v, unstyled("  "));
    if f && s.button_focused == 0 {
        push(&mut v, on_background(" Save ", p.base, p.green));
    } else {
        push(&mut v, styled(" Save ", p.green));
    }
    push(&mut v, unstyled("  "));
    if f && s.button_focused == 1 {
        push(&mut v, on_background(" Cancel ", p.base, p.red));
    } else {
        push(&mut v, styled(" Cancel ", p.red));
    }
    assert(spans_view(v@) =~= buttons_line(*s, *p));
    v
}

/// The lines of the configuration menu (see `spec_config_lines`).
pub fn config_menu_lines(
    s: &ConfigMenuState,
    assistant: &str,
    custom_exists: bool,
    custom_path: Option<&str>,
    p: &Palette,
) -> (r: Vec<DialogLine>)
    ensures
        lines_view(r@) == spec_config_lines(*s, assistant@, custom_exists, match custom_path {
            Some(x) => Some(x@),
            None => None,
        }, *p),
{
    let mut lines: Vec<DialogLine> = Vec::new();
    assert(lines_view(lines@) =~= Seq::<Seq<SpanView>>::empty());
    push_ai_section(&mut lines, s, assistant, p);
    push_model_section(&mut lines, s, assistant, p);
    push_theme_section(&mut lines, s, custom_exists, custom_path, p);
    push_sources_section(&mut lines, s, p);
    push_usage_section(&mut lines, s, p);
    push_line(&mut lines, make_buttons_line(s, p));
    assert(lines_view(lines@) =~= spec_config_lines(*s, assistant@, custom_exists, match custom_path {
        Some(x) => Some(x@),
        None => None,
    }, *p));
    lines
}

/// With the assistant as the provider, and the custom theme's file known when
/// that theme is chosen, the menu's lines line up with the layout that
/// clicks are mapped through: as many lines as the layout counts, each
/// section's header on its start line, and each provider, model, theme and
/// package manager on the line the layout gives its item.
pub proof fn law_config_lines_match_layout(
    s: ConfigMenuState,
    assistant: Seq<char>,
    custom_exists: bool,
    custom_path: Option<Seq<char>>,
    p: Palette,
)
    requires
        s.ai_selected == 1,
        s.theme_selected == 6 ==> custom_path is Some,
    ensures
        ({
            let custom = s.theme_selected == 6;
            let ls = spec_config_lines(s, assistant, custom_exists, custom_path, p);
            &&& ls.len() == spec_total_lines(custom)
            &&& ls[ConfigSection::AiProvider.spec_start_line(custom) as int] == header_line(
                "AI Provider"@,
                s.section == ConfigSection::AiProvider,
                p,
            )
            &&& ls[ConfigSection::ClaudeModel.spec_start_line(custom) as int] == header_line(
                assistant + " Model"@,
                s.section == ConfigSection::ClaudeModel,
                p,
            )
            &&& ls[ConfigSection::Theme.spec_start_line(custom) as int] == header_line(
                "Theme"@,
                s.section == ConfigSection::Theme,
                p,
            )
            &&& ls[ConfigSection::Sources.spec_start_line(custom) as int] == header_line(
                "Package Managers"@,
                s.section == ConfigSection::Sources,
                p,
            )
            &&& ls[ConfigSection::UsageMode.spec_start_line(custom) as int] == header_line(
                "Usage Tracking"@,
                s.section == ConfigSection::UsageMode,
                p,
            )
            &&& ls[ConfigSection::Buttons.spec_start_line(custom) as int] == buttons_line(s, p)
            &&& forall|i: int|
                0 <= i < 5 ==> #[trigger] ls[ConfigSection::AiProvider.spec_item_lines(custom).0 + i]
                    == radio_lines(
                    provider_labels(assistant),
                    s.ai_selected as nat,
                    s.section == ConfigSection::AiProvider,
                    p,
                )[i]
            &&& forall|i: int|
                0 <= i < 3 ==> #[trigger] ls[ConfigSection::ClaudeModel.spec_item_lines(custom).0 + i]
                    == radio_lines(
                    model_labels(),
                    s.claude_model_selected as nat,
                    s.section == ConfigSection::ClaudeModel,
                    p,
                )[i]
            &&& forall|i: int|
                0 <= i < 6 ==> #[trigger] ls[ConfigSection::Theme.spec_item_lines(custom).0 + i]
                    == radio_lines(
                    theme_labels(),
                    s.theme_selected as nat,
                    s.section == ConfigSection::Theme,
                    p,
                )[i]
            &&& forall|i: int|
                0 <= i < 7 ==> #[trigger] ls[ConfigSection::Sources.spec_item_lines(custom).0 + i]
                    == checkbox_line(
                    s.sources.spec_is_enabled(source_names()[i]),
                    s.section == ConfigSection::Sources && i == s.source_focused,
                    source_labels()[i],
                    p,
                )
        }),
{
    let custom = s.theme_selected == 6;
    let a = ai_section(s, assistant, p);
    let m = model_section(s, assistant, p);
    let t = theme_section(s, custom_exists, custom_path, p);
    let so = sources_section(s, p);
    let u = usage_section(s, p);
    assert(a.len() == 7);
    assert(m.len() == 5);
    assert(t.len() == if custom {
        10int
    } else {
        9int
    });
    assert(so.len() == 9);
    assert(u.len() == 4);
    let ls = spec_config_lines(s, assistant, custom_exists, custom_path, p);
    assert(ls == a + m + t + so + u + seq![buttons_line(s, p)]);
}

} // verus!

