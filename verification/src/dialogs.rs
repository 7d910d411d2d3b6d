//! The confirmation dialog shown before an install, update or uninstall
//! runs, and the help overlay.

use vstd::prelude::*;
use crate::discover::{source_views, SearchSource};
use crate::footer::first_n;
use crate::install::views;
use crate::pending::{InstallTask, PendingAction};
use crate::types::InstallOption;
use crate::details::source_icon;
use crate::styled::{
    bold, fg, fg_bold, fg_italic, italic, plain, push, span_view, spans_view, styled, styled_owned,
    unstyled, SpanView, StyledText,
};
use vstd::string::StrSliceExecFns;
use vstd::utf8::encode_utf8;
use crate::text::{chars_of, decimal, lines, split_lines, str_eq, usize_to_string, views_of};
use crate::theme::{Palette, Rgb};

verus! {

/// Commands listed at most in the dialog.
pub const MAX_DISPLAY_ITEMS: usize = 5;

/// A line of the dialog: its pieces of text.
pub type DialogLine = Vec<StyledText>;

/// Lines as values.
pub open spec fn lines_view(v: Seq<DialogLine>) -> Seq<Seq<SpanView>> {
    v.map_values(|l: DialogLine| spans_view(l@))
}

/// The strings joined with `sep` between them.
pub open spec fn join_sep(s: Seq<Seq<char>>, sep: Seq<char>) -> Seq<char>
    decreases s.len(),
{
    if s.len() == 0 {
        seq![]
    } else if s.len() == 1 {
        s[0]
    } else {
        join_sep(s.drop_last(), sep) + sep + s.last()
    }
}

/// The closing hint: y confirms, n or Esc cancel.
pub open spec fn confirm_hint(p: Palette) -> Seq<SpanView> {
    seq![
        fg("Press "@, p.subtext0),
        fg_bold("y"@, p.green),
        fg(" to confirm, "@, p.subtext0),
        fg_bold("n"@, p.red),
        fg(" or "@, p.subtext0),
        fg_bold("Esc"@, p.yellow),
        fg(" to cancel"@, p.subtext0),
    ]
}

/// A command line of the dialog: "  $ " and the command in `c`.
pub open spec fn command_line(cmd: Seq<char>, c: Rgb, p: Palette) -> Seq<SpanView> {
    seq![fg("  $ "@, p.subtext0), fg(cmd, c)]
}

/// The command lines of the tasks.
pub open spec fn command_lines(tasks: Seq<InstallTask>, c: Rgb, p: Palette) -> Seq<Seq<SpanView>>
    decreases tasks.len(),
{
    if tasks.len() == 0 {
        seq![]
    } else {
        command_lines(tasks.drop_last(), c, p).push(command_line(tasks.last().display_command@, c, p))
    }
}

/// The lines of a dialog about a list of tasks: the question, the first
/// five commands, and how many more there are.
pub open spec fn task_dialog_lines(
    verb: Seq<char>,
    tasks: Seq<InstallTask>,
    c: Rgb,
    p: Palette,
) -> Seq<Seq<SpanView>> {
    let more = if tasks.len() > MAX_DISPLAY_ITEMS {
        seq![seq![fg("  ... and "@ + decimal((tasks.len() - MAX_DISPLAY_ITEMS) as nat) + " more"@, p.subtext0)]]
    } else {
        seq![]
    };
    seq![seq![], seq![fg(verb + " "@ + decimal(tasks.len()) + " tool(s)?"@, p.text)], seq![]]
        + command_lines(first_n(tasks, MAX_DISPLAY_ITEMS as nat), c, p) + more
}

/// The tools named in an uninstall dialog: all of them when there are
/// five at most, else the first two and how many more.
pub open spec fn uninstall_list(tools: Seq<Seq<char>>) -> Seq<char> {
    if tools.len() <= MAX_DISPLAY_ITEMS {
        join_sep(tools, ", "@)
    } else {
        join_sep(tools.take(2), ", "@) + ", ... and "@ + decimal((tools.len() - 2) as nat) + " more"@
    }
}

/// The confirmation dialog of an action: its title, its lines (the
/// question and what will run, then an empty line and the hint) and its
/// colour.
pub open spec fn spec_confirmation_dialog(action: PendingAction, p: Palette) -> (
    Seq<char>,
    Seq<Seq<SpanView>>,
    Rgb,
) {
    let (title, body, color) = match action {
        PendingAction::Install(tasks) => (
            " Install "@,
            task_dialog_lines("Install"@, tasks@, p.green, p),
            p.green,
        ),
        PendingAction::Update(tasks) => (
            " Update "@,
            task_dialog_lines("Update"@, tasks@, p.yellow, p),
            p.yellow,
        ),
        PendingAction::DiscoverInstall(task) => (
            " Install "@,
            seq![
                seq![],
                seq![fg("Install "@ + task.name@ + "?"@, p.text)],
                seq![],
                command_line(task.display_command@, p.green, p),
            ],
            p.green,
        ),
        PendingAction::Uninstall(tools) => (
            " Uninstall "@,
            seq![
                seq![],
                seq![fg("Uninstall "@ + decimal(tools@.len()) + " tool(s)?"@, p.text)],
                seq![],
                seq![fg("Tools: "@ + uninstall_list(views(tools@)), p.red)],
            ],
            p.red,
        ),
    };
    (title, body + seq![seq![], confirm_hint(p)], color)
}

fn push_line(lines: &mut Vec<DialogLine>, line: DialogLine)
    ensures
        lines_view(final(lines)@) == lines_view(old(lines)@).push(spans_view(line@)),
{
    let ghost before = lines@;
    lines.push(line);
    assert(lines_view(lines@) =~= lines_view(before).push(spans_view(line@)));
}

fn one(s: StyledText) -> (r: DialogLine)
    ensures
        spans_view(r@) == seq![crate::styled::span_view(s)],
{
    let mut v: Vec<StyledText> = Vec::new();
    push(&mut v, s);
    assert(spans_view(v@) =~= seq![crate::styled::span_view(s)]);
    v
}

fn empty_line() -> (r: DialogLine)
    ensures
        spans_view(r@) == Seq::<SpanView>::empty(),
{
    let v: Vec<StyledText> = Vec::new();
    assert(spans_view(v@) =~= Seq::<SpanView>::empty());
    v
}

fn cmd_line(cmd: &str, c: Rgb, p: &Palette) -> (r: DialogLine)
    ensures
        spans_view(r@) == command_line(cmd@, c, *p),
{
    let mut v: Vec<StyledText> = Vec::new();
    push(&mut v, styled("  $ ", p.subtext0));
    push(&mut v, styled(cmd, c));
    assert(spans_view(v@) =~= command_line(cmd@, c, *p));
    v
}

fn task_lines(verb: &str, tasks: &Vec<InstallTask>, c: Rgb, p: &Palette) -> (r: Vec<DialogLine>)
    ensures
        lines_view(r@) == task_dialog_lines(verb@, tasks@, c, *p),
{
    let mut lines: Vec<DialogLine> = Vec::new();
    push_line(&mut lines, empty_line());
    let mut q = verb.to_owned();
    q.append(" ");
    q.append(usize_to_string(tasks.len()).as_str());
    q.append(" tool(s)?");
    push_line(&mut lines, one(styled_owned(q, p.text)));
    push_line(&mut lines, empty_line());
    let ghost head = lines_view(lines@);
    let shown = if tasks.len() < MAX_DISPLAY_ITEMS {
        tasks.len()
    } else {
        MAX_DISPLAY_ITEMS
    };
    let mut i: usize = 0;
    while i < shown
        invariant
            i <= shown <= tasks@.len(),
            lines_view(lines@) == head + command_lines(tasks@.take(i as int), c, *p),
        decreases shown - i,
    {
        assert(tasks@.take(i + 1).drop_last() =~= tasks@.take(i as int));
        push_line(&mut lines, cmd_line(tasks[i].display_command.as_str(), c, p));
        i += 1;
    }
    assert(tasks@.take(shown as int) =~= first_n(tasks@, MAX_DISPLAY_ITEMS as nat));
    let ghost with_cmds = lines_view(lines@);
    if tasks.len() > MAX_DISPLAY_ITEMS {
        let mut m = String::from_str("  ... and ");
        m.append(usize_to_string(tasks.len() - MAX_DISPLAY_ITEMS).as_str());
        m.append(" more");
        push_line(&mut lines, one(styled_owned(m, p.subtext0)));
    }
    assert(lines_view(lines@) =~= task_dialog_lines(verb@, tasks@, c, *p));
    lines
}

fn join_names(tools: &Vec<String>, count: usize) -> (r: String)
    requires
        count <= tools@.len(),
    ensures
        r@ == join_sep(views(tools@).take(count as int), ", "@),
{
    let ghost vs = views(tools@);
    let mut s = String::new();
    let mut i: usize = 0;
    assert(vs.take(0) =~= Seq::<Seq<char>>::empty());
    while i < count
        invariant
            i <= count <= tools@.len(),
            vs == views(tools@),
            s@ == join_sep(vs.take(i as int), ", "@),
        decreases count - i,
    {
        let ghost t = vs.take(i + 1);
        assert(t.drop_last() =~= vs.take(i as int));
        assert(t.last() == tools@[i as int]@);
        if i > 0 {
            s.append(", ");
        } else {
            assert(t =~= seq![tools@[i as int]@]);
        }
        s.append(tools[i].as_str());
        i += 1;
    }
    s
}

/// The confirmation dialog of an action (see `spec_confirmation_dialog`).
pub fn confirmation_dialog(action: &PendingAction, p: &Palette) -> (r: (&'static str, Vec<DialogLine>, Rgb))
    ensures
        (r.0@, lines_view(r.1@), r.2) == spec_confirmation_dialog(*action, *p),
{
    let (title, mut lines, color): (&'static str, Vec<DialogLine>, Rgb) = match action {
        PendingAction::Install(tasks) => (" Install ", task_lines("Install", tasks, p.green, p), p.green),
        PendingAction::Update(tasks) => (" Update ", task_lines("Update", tasks, p.yellow, p), p.yellow),
        PendingAction::DiscoverInstall(task) => {
            let mut lines: Vec<DialogLine> = Vec::new();
            push_line(&mut lines, empty_line());
            let mut q = String::from_str("Install ");
            q.append(task.name.as_str());
            q.append("?");
            push_line(&mut lines, one(styled_owned(q, p.text)));
            push_line(&mut lines, empty_line());
            push_line(&mut lines, cmd_line(task.display_command.as_str(), p.green, p));
            (" Install ", lines, p.green)
        },
        PendingAction::Uninstall(tools) => {
            let list = if tools.len() <= MAX_DISPLAY_ITEMS {
                assert(views(tools@).take(tools@.len() as int) =~= views(tools@));
                join_names(tools, tools.len())
            } else {
                let mut l = join_names(tools, 2);
                l.append(", ... and ");
                l.append(usize_to_string(tools.len() - 2).as_str());
                l.append(" more");
                l
            };
            let mut lines: Vec<DialogLine> = Vec::new();
            push_line(&mut lines, empty_line());
            let mut q = String::from_str("Uninstall ");
            q.append(usize_to_string(tools.len()).as_str());
            q.append(" tool(s)?");
            push_line(&mut lines, one(styled_owned(q, p.text)));
            push_line(&mut lines, empty_line());
            let mut t = String::from_str("Tools: ");
            t.append(list.as_str());
            push_line(&mut lines, one(styled_owned(t, p.red)));
            (" Uninstall ", lines, p.red)
        },
    };
    let ghost body = lines_view(lines@);
    push_line(&mut lines, empty_line());
    let mut hint: Vec<StyledText> = Vec::new();
    push(&mut hint, styled("Press ", p.subtext0));
    push(&mut hint, bold("y", p.green));
    push(&mut hint, styled(" to confirm, ", p.subtext0));
    push(&mut hint, bold("n", p.red));
    push(&mut hint, styled(" or ", p.subtext0));
    push(&mut hint, bold("Esc", p.yellow));
    push(&mut hint, styled(" to cancel", p.subtext0));
    assert(spans_view(hint@) =~= confirm_hint(*p));
    push_line(&mut lines, hint);
    assert(lines_view(lines@) =~= body + seq![seq![], confirm_hint(*p)]);
    (title, lines, color)
}

/// The piece of an option row in the style of a selected (green, bold) or
/// other (dimmed) row.
pub open spec fn option_piece(text: Seq<char>, is_selected: bool, p: Palette) -> SpanView {
    if is_selected {
        fg_bold(text, p.green)
    } else {
        fg(text, p.subtext0)
    }
}

/// The row of an install option: the marker ("▶ " on the selected row),
/// the source's icon, a space and the install command.
pub open spec fn option_row(o: InstallOption, is_selected: bool, p: Palette) -> Seq<SpanView> {
    seq![
        option_piece(if is_selected { "▶ "@ } else { "  "@ }, is_selected, p),
        option_piece(source_icon(o.source), is_selected, p),
        plain(" "@),
        option_piece(o.install_command@, is_selected, p),
    ]
}

/// The closing hint of source selection: j/k move, Enter selects, Esc
/// cancels.
pub open spec fn select_hint(p: Palette) -> Seq<SpanView> {
    seq![
        fg_bold("j/k"@, p.blue),
        fg(" navigate  "@, p.subtext0),
        fg_bold("Enter"@, p.green),
        fg(" select  "@, p.subtext0),
        fg_bold("Esc"@, p.yellow),
        fg(" cancel"@, p.subtext0),
    ]
}

/// The dialog that asks which source to install a discovered tool from:
/// the question, one row per option with the selected one marked, an empty
/// line and the hint; titled " Select Source " in blue.
pub open spec fn spec_source_selection_dialog(
    name: Seq<char>,
    options: Seq<InstallOption>,
    selected: int,
    p: Palette,
) -> (Seq<char>, Seq<Seq<SpanView>>, Rgb) {
    (
        " Select Source "@,
        seq![seq![], seq![fg("Select install source for "@ + name, p.text)], seq![]] + Seq::new(
            options.len(),
            |i: int| option_row(options[i], i == selected, p),
        ) + seq![seq![], select_hint(p)],
        p.blue,
    )
}

/// The dialog for choosing the install source of a discovered tool (see
/// `spec_source_selection_dialog`).
pub fn source_selection_dialog(name: &str, options: &Vec<InstallOption>, selected: usize, p: &Palette) -> (r: (
    &'static str,
    Vec<DialogLine>,
    Rgb,
))
    ensures
        (r.0@, lines_view(r.1@), r.2) == spec_source_selection_dialog(
            name@,
            options@,
            selected as int,
            *p,
        ),
{
    let mut lines: Vec<DialogLine> = Vec::new();
    push_line(&mut lines, empty_line());
    let mut q = String::from_str("Select install source for ");
    q.append(name);
    push_line(&mut lines, one(styled_owned(q, p.text)));
    push_line(&mut lines, empty_line());
    let ghost head = lines_view(lines@);
    let ghost rows = Seq::new(options@.len(), |i: int| option_row(options@[i], i == selected, *p));
    let mut i: usize = 0;
    while i < options.len()
        invariant
            i <= options@.len(),
            rows == Seq::new(options@.len(), |i: int| option_row(options@[i], i == selected, *p)),
            lines_view(lines@) == head + rows.take(i as int),
        decreases options@.len() - i,
    {
        let o = &options[i];
        let is_selected = i == selected;
        let icon = o.source.icon();
        let mut row: Vec<StyledText> = Vec::new();
        if is_selected {
            push(&mut row, bold("▶ ", p.green));
            push(&mut row, bold(icon, p.green));
            push(&mut row, unstyled(" "));
            push(&mut row, bold(o.install_command.as_str(), p.green));
        } else {
            push(&mut row, styled("  ", p.subtext0));
            push(&mut row, styled(icon, p.subtext0));
            push(&mut row, unstyled(" "));
            push(&mut row, styled(o.install_command.as_str(), p.subtext0));
        }
        assert(source_icon(o.source) == icon@);
        assert(spans_view(row@) =~= rows[i as int]);
        push_line(&mut lines, row);
        assert(rows.take(i + 1) =~= rows.take(i as int).push(rows[i as int]));
        i += 1;
    }
    assert(rows.take(options@.len() as int) =~= rows);
    push_line(&mut lines, empty_line());
    let mut hint: Vec<StyledText> = Vec::new();
    push(&mut hint, bold("j/k", p.blue));
    push(&mut hint, styled(" navigate  ", p.subtext0));
    push(&mut hint, bold("Enter", p.green));
    push(&mut hint, styled(" select  ", p.subtext0));
    push(&mut hint, bold("Esc", p.yellow));
    push(&mut hint, styled(" cancel", p.subtext0));
    assert(spans_view(hint@) =~= select_hint(*p));
    push_line(&mut lines, hint);
    assert(lines_view(lines@) =~= head + rows + seq![seq![], select_hint(*p)]);
    (" Select Source ", lines, p.blue)
}

/// The help overlay: the keyboard and mouse shortcuts by section, each key
/// in the colour of what it does.
pub open spec fn spec_help_lines(p: Palette) -> Seq<Seq<SpanView>> {
    seq![
        seq![fg_bold("Keyboard Shortcuts"@, p.mauve)],
        seq![],
        seq![fg_bold("Navigation"@, p.blue)],
        seq![fg("  j/↓      "@, p.yellow), fg("Move down"@, p.text)],
        seq![fg("  k/↑      "@, p.yellow), fg("Move up"@, p.text)],
        seq![fg("  g        "@, p.yellow), fg("Go to top"@, p.text)],
        seq![fg("  G        "@, p.yellow), fg("Go to bottom"@, p.text)],
        seq![fg("  n/N      "@, p.yellow), fg("Next/prev match (wrap)"@, p.text)],
        seq![fg("  f<char>  "@, p.peach), fg("Jump to letter"@, p.text)],
        seq![fg("  Ctrl+d   "@, p.yellow), fg("Page down"@, p.text)],
        seq![fg("  Ctrl+u   "@, p.yellow), fg("Page up"@, p.text)],
        seq![],
        seq![fg_bold("Tabs"@, p.blue)],
        seq![fg("  1-4      "@, p.yellow), fg("Switch to tab"@, p.text)],
        seq![fg("  Tab/]    "@, p.yellow), fg("Next tab"@, p.text)],
        seq![fg("  S-Tab/[  "@, p.yellow), fg("Previous tab"@, p.text)],
        seq![],
        seq![fg_bold("Selection"@, p.blue)],
        seq![fg("  Space    "@, p.yellow), fg("Toggle selection"@, p.text)],
        seq![fg("  Ctrl+a   "@, p.yellow), fg("Select all"@, p.text)],
        seq![fg("  x        "@, p.yellow), fg("Clear selection"@, p.text)],
        seq![fg("  *        "@, p.yellow), fg("Toggle favorite"@, p.text)],
        seq![fg("  F        "@, p.yellow), fg("Toggle favorites filter"@, p.text)],
        seq![],
        seq![fg_bold("Actions"@, p.blue)],
        seq![fg("  i        "@, p.green), fg("Install tool(s)"@, p.text)],
        seq![fg("  D        "@, p.red), fg("Uninstall tool(s)"@, p.text)],
        seq![fg("  u        "@, p.yellow), fg("Update tool(s)"@, p.text)],
        seq![fg("  Enter    "@, p.yellow), fg("Show details popup"@, p.text)],
        seq![fg("  /        "@, p.yellow), fg("Search/filter tools"@, p.text)],
        seq![fg("  :        "@, p.mauve), fg("Command palette (vim-style)"@, p.text)],
        seq![fg("  s        "@, p.yellow), fg("Cycle sort (name/usage/recent)"@, p.text)],
        seq![fg("  Esc      "@, p.yellow), fg("Clear search filter"@, p.text)],
        seq![fg("  r        "@, p.yellow), fg("Refresh list"@, p.text)],
        seq![fg("  t        "@, p.teal), fg("Cycle theme"@, p.text)],
        seq![fg("  Ctrl+z   "@, p.peach), fg("Undo"@, p.text)],
        seq![fg("  Ctrl+y   "@, p.peach), fg("Redo"@, p.text)],
        seq![],
        seq![fg_bold("Mouse"@, p.blue)],
        seq![fg("  Click    "@, p.green), fg("Select item / switch tab"@, p.text)],
        seq![fg("  R-Click  "@, p.green), fg("Toggle selection"@, p.text)],
        seq![fg("  Scroll   "@, p.green), fg("Navigate list"@, p.text)],
        seq![fg("  ?        "@, p.yellow), fg("Toggle help"@, p.text)],
        seq![fg("  q        "@, p.yellow), fg("Quit"@, p.text)],
        seq![],
        seq![fg("Press ? or Esc to close"@, p.subtext0)],
    ]
}

fn key_line(key: &str, c: Rgb, what: &str, p: &Palette) -> (r: DialogLine)
    ensures
        spans_view(r@) == seq![fg(key@, c), fg(what@, p.text)],
{
    let mut v: Vec<StyledText> = Vec::new();
    push(&mut v, styled(key, c));
    push(&mut v, styled(what, p.text));
    assert(spans_view(v@) =~= seq![fg(key@, c), fg(what@, p.text)]);
    v
}

/// The lines of the help overlay (see `spec_help_lines`).
#[verifier::rlimit(50)]
pub fn help_lines(p: &Palette) -> (r: Vec<DialogLine>)
    ensures
        lines_view(r@) == spec_help_lines(*p),
{
    let mut lines: Vec<DialogLine> = Vec::new();
    push_line(&mut lines, one(bold("Keyboard Shortcuts", p.mauve)));
    push_line(&mut lines, empty_line());
    push_line(&mut lines, one(bold("Navigation", p.blue)));
    push_line(&mut lines, key_line("  j/↓      ", p.yellow, "Move down", p));
    push_line(&mut lines, key_line("  k/↑      ", p.yellow, "Move up", p));
    push_line(&mut lines, key_line("  g        ", p.yellow, "Go to top", p));
    push_line(&mut lines, key_line("  G        ", p.yellow, "Go to bottom", p));
    push_line(&mut lines, key_line("  n/N      ", p.yellow, "Next/prev match (wrap)", p));
    push_line(&mut lines, key_line("  f<char>  ", p.peach, "Jump to letter", p));
    push_line(&mut lines, key_line("  Ctrl+d   ", p.yellow, "Page down", p));
    push_line(&mut lines, key_line("  Ctrl+u   ", p.yellow, "Page up", p));
    push_line(&mut lines, empty_line());
    push_line(&mut lines, one(bold("Tabs", p.blue)));
    push_line(&mut lines, key_line("  1-4      ", p.yellow, "Switch to tab", p));
    push_line(&mut lines, key_line("  Tab/]    ", p.yellow, "Next tab", p));
    push_line(&mut lines, key_line("  S-Tab/[  ", p.yellow, "Previous tab", p));
    push_line(&mut lines, empty_line());
    push_line(&mut lines, one(bold("Selection", p.blue)));
    push_line(&mut lines, key_line("  Space    ", p.yellow, "Toggle selection", p));
    push_line(&mut lines, key_line("  Ctrl+a   ", p.yellow, "Select all", p));
    push_line(&mut lines, key_line("  x        ", p.yellow, "Clear selection", p));
    push_line(&mut lines, key_line("  *        ", p.yellow, "Toggle favorite", p));
    push_line(&mut lines, key_line("  F        ", p.yellow, "Toggle favorites filter", p));
    push_line(&mut lines, empty_line());
    push_line(&mut lines, one(bold("Actions", p.blue)));
    push_line(&mut lines, key_line("  i        ", p.green, "Install tool(s)", p));
    push_line(&mut lines, key_line("  D        ", p.red, "Uninstall tool(s)", p));
    push_line(&mut lines, key_line("  u        ", p.yellow, "Update tool(s)", p));
    push_line(&mut lines, key_line("  Enter    ", p.yellow, "Show details popup", p));
    push_line(&mut lines, key_line("  /        ", p.yellow, "Search/filter tools", p));
    push_line(&mut lines, key_line("  :        ", p.mauve, "Command palette (vim-style)", p));
    push_line(&mut lines, key_line("  s        ", p.yellow, "Cycle sort (name/usage/recent)", p));
    push_line(&mut lines, key_line("  Esc      ", p.yellow, "Clear search filter", p));
    push_line(&mut lines, key_line("  r        ", p.yellow, "Refresh list", p));
    push_line(&mut lines, key_line("  t        ", p.teal, "Cycle theme", p));
    push_line(&mut lines, key_line("  Ctrl+z   ", p.peach, "Undo", p));
    push_line(&mut lines, key_line("  Ctrl+y   ", p.peach, "Redo", p));
    push_line(&mut lines, empty_line());
    push_line(&mut lines, one(bold("Mouse", p.blue)));
    push_line(&mut lines, key_line("  Click    ", p.green, "Select item / switch tab", p));
    push_line(&mut lines, key_line("  R-Click  ", p.green, "Toggle selection", p));
    push_line(&mut lines, key_line("  Scroll   ", p.green, "Navigate list", p));
    push_line(&mut lines, key_line("  ?        ", p.yellow, "Toggle help", p));
    push_line(&mut lines, key_line("  q        ", p.yellow, "Quit", p));
    push_line(&mut lines, empty_line());
    push_line(&mut lines, one(styled("Press ? or Esc to close", p.subtext0)));
    assert(lines_view(lines@) =~= spec_help_lines(*p));
    lines
}

/// What a searchable source offers, by its key.
pub open spec fn source_blurb(key: Seq<char>) -> Option<Seq<char>> {
    if key == "cargo"@ {
        Some("Rust packages (crates.io)"@)
    } else if key == "npm"@ {
        Some("Node.js packages"@)
    } else if key == "pip"@ {
        Some("Python packages (PyPI)"@)
    } else if key == "brew"@ {
        Some("Homebrew formulae"@)
    } else if key == "apt"@ {
        Some("Debian/Ubuntu packages"@)
    } else if key == "github"@ {
        Some("GitHub repositories"@)
    } else {
        None
    }
}

/// A line per searchable source with a blurb: its icon and what it
/// offers.
pub open spec fn source_lines(sources: Seq<(Seq<char>, Seq<char>, Seq<char>)>, p: Palette) -> Seq<
    Seq<SpanView>,
>
    decreases sources.len(),
{
    if sources.len() == 0 {
        seq![]
    } else {
        let rest = source_lines(sources.drop_last(), p);
        match source_blurb(sources.last().0) {
            Some(b) => rest.push(seq![fg("  "@ + sources.last().1 + " "@, p.subtext0), fg(b, p.text)]),
            None => rest,
        }
    }
}

/// The key that toggles source filters, padded to the key column: "-"
/// without sources, "F1" for one, "F1-F<n>" for more.
pub open spec fn fkey_column(n: nat) -> Seq<char> {
    if n == 0 {
        "  -         "@
    } else if n == 1 {
        "  F1        "@
    } else {
        "  F1-F"@ + decimal(n) + "     "@
    }
}

/// What the Discover tab shows without results: before any search, an
/// introduction with the searchable sources, the keys, and the AI mode
/// when an AI provider is set; after a search, that nothing was found.
pub open spec fn spec_discover_empty(
    searched: bool,
    sources: Seq<(Seq<char>, Seq<char>, Seq<char>)>,
    ai_available: bool,
    p: Palette,
) -> Seq<Seq<SpanView>> {
    if searched {
        seq![
            seq![],
            seq![fg("No results found"@, p.subtext0)],
            seq![],
            seq![fg("Try a different search term"@, p.subtext0)],
        ]
    } else {
        let intro = seq![
            seq![],
            seq![fg_bold("🔍 Discover new tools"@, p.text)],
            seq![],
            seq![fg("Search across multiple sources:"@, p.subtext0)],
        ];
        let keys = seq![
            seq![],
            seq![fg("─── Keyboard shortcuts ───"@, p.surface1)],
            seq![fg("  /         "@, p.blue), fg("Enter search mode"@, p.subtext0)],
            seq![fg("  ↑/↓       "@, p.blue), fg("Browse search history (in search mode)"@, p.subtext0)],
            seq![fg("  Shift+A   "@, p.blue), fg("Toggle AI search mode"@, p.subtext0)],
            seq![fg(fkey_column(sources.len()), p.blue), fg("Toggle source filters"@, p.subtext0)],
            seq![fg("  Enter     "@, p.blue), fg("View README for selected result"@, p.subtext0)],
            seq![],
        ];
        let ai = if ai_available {
            seq![
                seq![
                    plain("🤖 "@),
                    fg_bold("AI mode: "@, p.green),
                    fg("Press Shift+A to enable AI-powered discovery"@, p.subtext0),
                ],
            ]
        } else {
            seq![]
        };
        intro + source_lines(sources, p) + keys + ai
    }
}

fn two(a: StyledText, b: StyledText) -> (r: DialogLine)
    ensures
        spans_view(r@) == seq![crate::styled::span_view(a), crate::styled::span_view(b)],
{
    let mut v: Vec<StyledText> = Vec::new();
    push(&mut v, a);
    push(&mut v, b);
    assert(spans_view(v@) =~= seq![crate::styled::span_view(a), crate::styled::span_view(b)]);
    v
}

fn blurb(key: &str) -> (r: Option<&'static str>)
    ensures
        match r {
            Some(b) => source_blurb(key@) == Some(b@),
            None => source_blurb(key@) is None,
        },
{
    if str_eq(key, "cargo") {
        Some("Rust packages (crates.io)")
    } else if str_eq(key, "npm") {
        Some("Node.js packages")
    } else if str_eq(key, "pip") {
        Some("Python packages (PyPI)")
    } else if str_eq(key, "brew") {
        Some("Homebrew formulae")
    } else if str_eq(key, "apt") {
        Some("Debian/Ubuntu packages")
    } else if str_eq(key, "github") {
        Some("GitHub repositories")
    } else {
        None
    }
}

/// What the Discover tab shows without results (see
/// `spec_discover_empty`); `searched` is whether a query was typed.
pub fn discover_empty_lines(searched: bool, sources: &Vec<SearchSource>, ai_available: bool, p: &Palette) -> (r:
    Vec<DialogLine>)
    ensures
        lines_view(r@) == spec_discover_empty(searched, source_views(sources@), ai_available, *p),
{
    let mut lines: Vec<DialogLine> = Vec::new();
    if searched {
        push_line(&mut lines, empty_line());
        push_line(&mut lines, one(styled("No results found", p.subtext0)));
        push_line(&mut lines, empty_line());
        push_line(&mut lines, one(styled("Try a different search term", p.subtext0)));
        assert(lines_view(lines@) =~= spec_discover_empty(searched, source_views(sources@), ai_available, *p));
        return lines;
    }
    push_line(&mut lines, empty_line());
    push_line(&mut lines, one(bold("🔍 Discover new tools", p.text)));
    push_line(&mut lines, empty_line());
    push_line(&mut lines, one(styled("Search across multiple sources:", p.subtext0)));
    let ghost intro = lines_view(lines@);
    let ghost srcs = source_views(sources@);
    let mut i: usize = 0;
    while i < sources.len()
        invariant
            i <= sources@.len(),
            srcs == source_views(sources@),
            lines_view(lines@) == intro + source_lines(srcs.take(i as int), *p),
        decreases sources@.len() - i,
    {
        let (key, icon, _) = sources[i];
        assert(srcs.take(i + 1).drop_last() =~= srcs.take(i as int));
        assert(srcs.take(i + 1).last() == (key@, icon@, sources@[i as int].2@));
        match blurb(key) {
            Some(b) => {
                let mut ic = String::from_str("  ");
                ic.append(icon);
                ic.append(" ");
                push_line(&mut lines, two(styled_owned(ic, p.subtext0), styled(b, p.text)));
            },
            None => {},
        }
        i += 1;
    }
    assert(srcs.take(sources@.len() as int) =~= srcs);
    let ghost with_sources = lines_view(lines@);
    push_line(&mut lines, empty_line());
    push_line(&mut lines, one(styled("─── Keyboard shortcuts ───", p.surface1)));
    push_line(&mut lines, two(styled("  /         ", p.blue), styled("Enter search mode", p.subtext0)));
    push_line(&mut lines, two(styled("  ↑/↓       ", p.blue), styled("Browse search history (in search mode)", p.subtext0)));
    push_line(&mut lines, two(styled("  Shift+A   ", p.blue), styled("Toggle AI search mode", p.subtext0)));
    let fkey = if sources.len() == 0 {
        String::from_str("  -         ")
    } else if sources.len() == 1 {
        String::from_str("  F1        ")
    } else {
        let mut k = String::from_str("  F1-F");
        k.append(usize_to_string(sources.len()).as_str());
        k.append("     ");
        k
    };
    push_line(&mut lines, two(styled_owned(fkey, p.blue), styled("Toggle source filters", p.subtext0)));
    push_line(&mut lines, two(styled("  Enter     ", p.blue), styled("View README for selected result", p.subtext0)));
    push_line(&mut lines, empty_line());
    let ghost with_keys = lines_view(lines@);
    assert(with_keys =~= intro + source_lines(source_views(sources@), *p) + seq![
        seq![],
        seq![fg("─── Keyboard shortcuts ───"@, p.surface1)],
        seq![fg("  /         "@, p.blue), fg("Enter search mode"@, p.subtext0)],
        seq![fg("  ↑/↓       "@, p.blue), fg("Browse search history (in search mode)"@, p.subtext0)],
        seq![fg("  Shift+A   "@, p.blue), fg("Toggle AI search mode"@, p.subtext0)],
        seq![fg(fkey_column(sources@.len()), p.blue), fg("Toggle source filters"@, p.subtext0)],
        seq![fg("  Enter     "@, p.blue), fg("View README for selected result"@, p.subtext0)],
        seq![],
    ]);
    if ai_available {
        let mut v: Vec<StyledText> = Vec::new();
        push(&mut v, unstyled("🤖 "));
        push(&mut v, bold("AI mode: ", p.green));
        push(&mut v, styled("Press Shift+A to enable AI-powered discovery", p.subtext0));
        assert(spans_view(v@) =~= seq![
            plain("🤖 "@),
            fg_bold("AI mode: "@, p.green),
            fg("Press Shift+A to enable AI-powered discovery"@, p.subtext0),
        ]);
        push_line(&mut lines, v);
    }
    assert(lines_view(lines@) =~= spec_discover_empty(searched, source_views(sources@), ai_available, *p));
    lines
}

/// `s` cut into pieces of `n` characters, the last one shorter (none for
/// an empty `s`).
pub open spec fn char_chunks(s: Seq<char>, n: nat) -> Seq<Seq<char>>
    decreases s.len(),
{
    if s.len() == 0 || n == 0 {
        seq![]
    } else if s.len() <= n {
        seq![s]
    } else {
        seq![s.take(n as int)] + char_chunks(s.skip(n as int), n)
    }
}

/// A line of an error message as shown: whole when its UTF-8 form fits
/// `max` bytes, else cut into pieces of `max` characters.
pub open spec fn wrap_error_line(line: Seq<char>, max: nat) -> Seq<Seq<char>> {
    if encode_utf8(line).len() <= max {
        seq![line]
    } else {
        char_chunks(line, max)
    }
}

/// The wrapped lines of the first `k` message lines.
pub open spec fn wrap_error_lines(ls: Seq<Seq<char>>, max: nat) -> Seq<Seq<char>>
    decreases ls.len(),
{
    if ls.len() == 0 {
        seq![]
    } else {
        wrap_error_lines(ls.drop_last(), max) + wrap_error_line(ls.last(), max)
    }
}

/// Whether the message can be shown in lines of `max`: a line that does
/// not fit can only be cut when `max` is not zero.
pub open spec fn error_wrap_ok(message: Seq<char>, max: nat) -> bool {
    max > 0 || forall|i: int| 0 <= i < lines(message).len() ==> encode_utf8(#[trigger] lines(message)[i]).len() == 0
}

fn chunk_line(line: &str, max: usize) -> (r: Vec<String>)
    requires
        max > 0,
    ensures
        views_of(r@) == char_chunks(line@, max as nat),
{
    let cs = chars_of(line);
    let mut out: Vec<String> = Vec::new();
    let mut start: usize = 0;
    assert(cs@.skip(0) =~= cs@);
    assert(views_of(out@) =~= Seq::<Seq<char>>::empty());
    assert(Seq::<Seq<char>>::empty() + char_chunks(cs@, max as nat) =~= char_chunks(cs@, max as nat));
    while start < cs.len()
        invariant
            cs@ == line@,
            max > 0,
            start <= cs@.len(),
            views_of(out@) + char_chunks(cs@.skip(start as int), max as nat) == char_chunks(line@, max as nat),
        decreases cs@.len() - start,
    {
        let ghost rest = cs@.skip(start as int);
        let end = if cs.len() - start <= max {
            cs.len()
        } else {
            start + max
        };
        let piece = line.substring_char(start, end).to_owned();
        let ghost before = views_of(out@);
        out.push(piece);
        assert(views_of(out@) =~= before.push(piece@));
        if cs.len() - start <= max {
            assert(rest =~= cs@.subrange(start as int, end as int));
            assert(cs@.skip(end as int) =~= Seq::<char>::empty());
        } else {
            assert(rest.take(max as int) =~= cs@.subrange(start as int, end as int));
            assert(rest.skip(max as int) =~= cs@.skip(end as int));
        }
        start = end;
    }
    assert(cs@.skip(start as int) =~= Seq::<char>::empty());
    assert(views_of(out@) + Seq::<Seq<char>>::empty() =~= views_of(out@));
    out
}

/// The lines of an error message as the error dialog shows them (see
/// `wrap_error_lines`), `max` being the room inside the dialog.
pub fn error_message_lines(message: &str, max: usize) -> (r: Vec<String>)
    requires
        error_wrap_ok(message@, max as nat),
    ensures
        views_of(r@) == wrap_error_lines(lines(message@), max as nat),
{
    let ls = split_lines(message);
    let ghost lv = views_of(ls@);
    let mut out: Vec<String> = Vec::new();
    let mut i: usize = 0;
    while i < ls.len()
        invariant
            i <= ls@.len(),
            lv == views_of(ls@),
            lv == lines(message@),
            error_wrap_ok(message@, max as nat),
            views_of(out@) == wrap_error_lines(lv.take(i as int), max as nat),
        decreases ls@.len() - i,
    {
        assert(lv.take(i + 1).drop_last() =~= lv.take(i as int));
        assert(lv.take(i + 1).last() == ls@[i as int]@);
        let line = ls[i].as_str();
        let ghost before = views_of(out@);
        if line.as_bytes().len() <= max {
            out.push(ls[i].clone());
            assert(views_of(out@) =~= before + seq![ls@[i as int]@]);
        } else {
            assert(max > 0) by {
                if max == 0 {
                    assert(encode_utf8(lv[i as int]).len() == 0);
                }
            }
            let pieces = chunk_line(line, max);
            let mut k: usize = 0;
            while k < pieces.len()
                invariant
                    k <= pieces@.len(),
                    views_of(out@) == before + views_of(pieces@).take(k as int),
                decreases pieces@.len() - k,
            {
                let ghost b2 = views_of(out@);
                out.push(pieces[k].clone());
                assert(views_of(out@) =~= b2.push(pieces@[k as int]@));
                assert(views_of(pieces@).take(k + 1) =~= views_of(pieces@).take(k as int).push(pieces@[k as int]@));
                k += 1;
            }
            assert(views_of(pieces@).take(pieces@.len() as int) =~= views_of(pieces@));
        }
        i += 1;
    }
    assert(lv.take(ls@.len() as int) =~= lv);
    out
}

/// A text has at least as many UTF-8 bytes as characters.
pub proof fn lemma_chars_within_bytes(s: Seq<char>)
    ensures
        s.len() <= encode_utf8(s).len(),
    decreases s.len(),
{
    if s.len() > 0 {
        lemma_chars_within_bytes(s.drop_first());
        assert(vstd::utf8::encode_scalar(s[0] as u32).len() >= 1);
    }
}

proof fn lemma_chunks_fit(s: Seq<char>, n: nat)
    ensures
        forall|k: int| 0 <= k < char_chunks(s, n).len() ==> (#[trigger] char_chunks(s, n)[k]).len() <= n,
    decreases s.len(),
{
    if s.len() > 0 && n > 0 && s.len() > n {
        lemma_chunks_fit(s.skip(n as int), n);
        let rest = char_chunks(s.skip(n as int), n);
        assert(char_chunks(s, n) == seq![s.take(n as int)] + rest);
        assert forall|k: int| 0 <= k < char_chunks(s, n).len() implies (#[trigger] char_chunks(s, n)[k]).len() <= n by {
            if k > 0 {
                assert(char_chunks(s, n)[k] == rest[k - 1]);
            }
        }
    }
}

/// Every line the error dialog shows fits its width: none is longer than
/// `max` characters.
pub proof fn law_error_lines_fit(message: Seq<char>, max: nat)
    ensures
        forall|k: int|
            0 <= k < wrap_error_lines(lines(message), max).len() ==> (#[trigger] wrap_error_lines(
                lines(message),
                max,
            )[k]).len() <= max,
{
    lemma_wrapped_fit(lines(message), max);
}

proof fn lemma_wrapped_fit(ls: Seq<Seq<char>>, max: nat)
    ensures
        forall|k: int|
            0 <= k < wrap_error_lines(ls, max).len() ==> (#[trigger] wrap_error_lines(ls, max)[k]).len() <= max,
    decreases ls.len(),
{
    if ls.len() > 0 {
        lemma_wrapped_fit(ls.drop_last(), max);
        let a = wrap_error_lines(ls.drop_last(), max);
        let b = wrap_error_line(ls.last(), max);
        assert(wrap_error_lines(ls, max) == a + b);
        if encode_utf8(ls.last()).len() <= max {
            lemma_chars_within_bytes(ls.last());
        } else {
            lemma_chunks_fit(ls.last(), max);
        }
        assert forall|k: int| 0 <= k < wrap_error_lines(ls, max).len() implies (#[trigger] wrap_error_lines(ls, max)[k]).len() <= max by {
            if k >= a.len() {
                assert(wrap_error_lines(ls, max)[k] == b[k - a.len()]);
            } else {
                assert(wrap_error_lines(ls, max)[k] == a[k]);
            }
        }
    }
}

/// The style of a row of the label editor: green and bold under the
/// cursor, grey otherwise (for the input row), or yellow and bold under the
/// cursor and teal otherwise (for a label).
pub open spec fn editor_span(text: Seq<char>, cursor: bool, c_on: Rgb, c_off: Rgb) -> SpanView {
    if cursor {
        fg_bold(text, c_on)
    } else {
        fg(text, c_off)
    }
}

/// The label rows of the editor: each label, the cursor marked and the
/// delete key offered on the one at row `selected` (labels start at row 1).
pub open spec fn label_rows(labels: Seq<Seq<char>>, selected: nat, p: Palette) -> Seq<Seq<SpanView>> {
    Seq::new(
        labels.len(),
        |i: int|
            seq![
                editor_span(if selected == i + 1 {
                    "▶ "@
                } else {
                    "  "@
                }, selected == i + 1, p.yellow, p.teal),
                editor_span(labels[i], selected == i + 1, p.yellow, p.teal),
                fg(if selected == i + 1 {
                    "  [d] to delete"@
                } else {
                    ""@
                }, p.red),
            ],
    )
}

/// The label editor: the tool's name ("Unknown" without one), the input
/// row (row 0) with a cursor while selected, the tool's labels, and the
/// keys.
pub open spec fn spec_label_editor(
    tool: Option<Seq<char>>,
    input: Seq<char>,
    selected: nat,
    labels: Seq<Seq<char>>,
    p: Palette,
) -> Seq<Seq<SpanView>> {
    let on_input = selected == 0;
    let name = match tool {
        Some(t) => t,
        None => "Unknown"@,
    };
    seq![
        seq![],
        seq![fg("Edit labels for: "@ + name, p.text)],
        seq![],
        seq![
            editor_span(if on_input {
                "▶ "@
            } else {
                "  "@
            }, on_input, p.green, p.subtext0),
            editor_span("Add: "@, on_input, p.green, p.subtext0),
            (input + if on_input {
                "▌"@
            } else {
                ""@
            }, Some(p.text), false, false, false, Some(if on_input {
                p.surface0
            } else {
                p.base
            })),
        ],
        seq![],
        seq![fg("Current labels:"@, p.subtext0)],
    ] + (if labels.len() == 0 {
        seq![seq![fg_italic("  (no labels)"@, p.subtext0)]]
    } else {
        label_rows(labels, selected, p)
    }) + seq![
        seq![],
        seq![
            fg_bold("Tab"@, p.blue),
            fg(" navigate  "@, p.subtext0),
            fg_bold("Enter"@, p.green),
            fg(" add  "@, p.subtext0),
            fg_bold("d"@, p.red),
            fg(" delete  "@, p.subtext0),
            fg_bold("Esc"@, p.yellow),
            fg(" close"@, p.subtext0),
        ],
    ]
}

fn editor_text(text: &str, cursor: bool, c_on: Rgb, c_off: Rgb) -> (r: StyledText)
    ensures
        span_view(r) == editor_span(text@, cursor, c_on, c_off),
{
    if cursor {
        bold(text, c_on)
    } else {
        styled(text, c_off)
    }
}

/// The lines of the label editor (see `spec_label_editor`).
pub fn label_editor_lines(
    tool: Option<&str>,
    input: &str,
    selected: usize,
    labels: &Vec<String>,
    p: &Palette,
) -> (r: Vec<DialogLine>)
    requires
        labels@.len() < usize::MAX,
    ensures
        lines_view(r@) == spec_label_editor(
            match tool {
                Some(t) => Some(t@),
                None => None,
            },
            input@,
            selected as nat,
            views_of(labels@),
            *p,
        ),
{
    let mut lines: Vec<DialogLine> = Vec::new();
    push_line(&mut lines, empty_line());
    let mut title = String::from_str("Edit labels for: ");
    match tool {
        Some(t) => title.append(t),
        None => title.append("Unknown"),
    }
    assert(title@ == "Edit labels for: "@ + match tool {
        Some(t) => t@,
        None => "Unknown"@,
    });
    push_line(&mut lines, one(styled_owned(title, p.text)));
    push_line(&mut lines, empty_line());
    let on_input = selected == 0;
    let mut row: Vec<StyledText> = Vec::new();
    push(&mut row, editor_text(if on_input {
        "▶ "
    } else {
        "  "
    }, on_input, p.green, p.subtext0));
    push(&mut row, editor_text("Add: ", on_input, p.green, p.subtext0));
    let mut typed = input.to_owned();
    typed.append(if on_input {
        "▌"
    } else {
        ""
    });
    push(&mut row, StyledText {
        text: typed,
        color: Some(p.text),
        bold: false,
        dim: false,
        italic: false,
        background: Some(if on_input {
            p.surface0
        } else {
            p.base
        }),
    });
    assert(spans_view(row@) =~= seq![
        editor_span(if on_input {
            "▶ "@
        } else {
            "  "@
        }, on_input, p.green, p.subtext0),
        editor_span("Add: "@, on_input, p.green, p.subtext0),
        (input@ + if on_input {
            "▌"@
        } else {
            ""@
        }, Some(p.text), false, false, false, Some(if on_input {
            p.surface0
        } else {
            p.base
        })),
    ]);
    push_line(&mut lines, row);
    push_line(&mut lines, empty_line());
    push_line(&mut lines, one(styled("Current labels:", p.subtext0)));
    let ghost head = lines_view(lines@);
    let ghost lv = views_of(labels@);
    if labels.len() == 0 {
        push_line(&mut lines, one(italic("  (no labels)", p.subtext0)));
    } else {
        let mut i: usize = 0;
        while i < labels.len()
            invariant
                i <= labels@.len() < usize::MAX,
                lv == views_of(labels@),
                lines_view(lines@) == head + label_rows(lv, selected as nat, *p).take(i as int),
            decreases labels@.len() - i,
        {
            let here = selected == i + 1;
            let mut l: Vec<StyledText> = Vec::new();
            push(&mut l, editor_text(if here {
                "▶ "
            } else {
                "  "
            }, here, p.yellow, p.teal));
            push(&mut l, editor_text(labels[i].as_str(), here, p.yellow, p.teal));
            push(&mut l, styled(if here {
                "  [d] to delete"
            } else {
                ""
            }, p.red));
            assert(spans_view(l@) =~= label_rows(lv, selected as nat, *p)[i as int]);
            push_line(&mut lines, l);
            assert(label_rows(lv, selected as nat, *p).take(i + 1) =~= label_rows(
                lv,
                selected as nat,
                *p,
            ).take(i as int).push(label_rows(lv, selected as nat, *p)[i as int]));
            i += 1;
        }
        assert(label_rows(lv, selected as nat, *p).take(labels@.len() as int) =~= label_rows(
            lv,
            selected as nat,
            *p,
        ));
    }
    let ghost body = lines_view(lines@);
    push_line(&mut lines, empty_line());
    let mut hint: Vec<StyledText> = Vec::new();
    push(&mut hint, bold("Tab", p.blue));
    push(&mut hint, styled(" navigate  ", p.subtext0));
    push(&mut hint, bold("Enter", p.green));
    push(&mut hint, styled(" add  ", p.subtext0));
    push(&mut hint, bold("d", p.red));
    push(&mut hint, styled(" delete  ", p.subtext0));
    push(&mut hint, bold("Esc", p.yellow));
    push(&mut hint, styled(" close", p.subtext0));
    assert(spans_view(hint@) =~= seq![
        fg_bold("Tab"@, p.blue),
        fg(" navigate  "@, p.subtext0),
        fg_bold("Enter"@, p.green),
        fg(" add  "@, p.subtext0),
        fg_bold("d"@, p.red),
        fg(" delete  "@, p.subtext0),
        fg_bold("Esc"@, p.yellow),
        fg(" close"@, p.subtext0),
    ]);
    push_line(&mut lines, hint);
    assert(lines_view(lines@) =~= spec_label_editor(
        match tool {
            Some(t) => Some(t@),
            None => None,
        },
        input@,
        selected as nat,
        views_of(labels@),
        *p,
    ));
    lines
}

} // verus!

