//! The command palette's commands: the table of names, suggestions while
//! typing, and the reading of an entered command line.

use vstd::prelude::*;
use crate::command::{CommandPalette, PaletteView};
use crate::theme::ThemeVariant;
use crate::types::SortBy;
use crate::text::{
    chars_of, chars_starts_with, is_prefix, lowercase, split_words, str_eq, to_lowercase, trim,
    trim_str, views_of, words,
};

verus! {

/// The palette's commands with their descriptions, in display order.
pub open spec fn command_table() -> Seq<(Seq<char>, Seq<char>)> {
    seq![
        ("q"@, "quit - exit the application"@),
        ("quit"@, "quit - exit the application"@),
        ("exit"@, "exit the application"@),
        ("h"@, "help - show help"@),
        ("help"@, "show help dialog"@),
        ("r"@, "refresh - reload tools"@),
        ("refresh"@, "reload tools from database"@),
        ("t"@, "theme [name] - cycle or set theme"@),
        ("theme"@, "theme [name] - cycle or set theme"@),
        ("s"@, "sort [field] - cycle or set sort"@),
        ("sort"@, "sort [field] - cycle or set sort (name/usage/recent)"@),
        ("filter"@, "filter [source] - filter by source (cargo/apt/pip/npm)"@),
        ("source"@, "source [name] - filter by source"@),
        ("src"@, "src [name] - filter by source"@),
        ("fav"@, "fav - toggle favorites filter"@),
        ("favorites"@, "favorites - toggle favorites filter"@),
        ("starred"@, "starred - toggle favorites filter"@),
        ("1"@, "go to Installed tab"@),
        ("installed"@, "go to Installed tab"@),
        ("2"@, "go to Available tab"@),
        ("available"@, "go to Available tab"@),
        ("3"@, "go to Updates tab"@),
        ("updates"@, "go to Updates tab"@),
        ("4"@, "go to Bundles tab"@),
        ("bundles"@, "go to Bundles tab"@),
        ("5"@, "go to Discover tab"@),
        ("discover"@, "go to Discover tab"@),
        ("i"@, "install selected item"@),
        ("install"@, "install selected tool/bundle"@),
        ("d"@, "delete/uninstall selected"@),
        ("delete"@, "delete selected tool"@),
        ("uninstall"@, "uninstall selected tool"@),
        ("u"@, "update selected"@),
        ("update"@, "update selected tool"@),
        ("upgrade"@, "upgrade selected tool"@),
        ("undo"@, "undo last action"@),
        ("z"@, "undo last action"@),
        ("redo"@, "redo undone action"@),
        ("y"@, "redo undone action"@),
        ("c"@, "config - open configuration menu"@),
        ("config"@, "open configuration menu"@),
        ("settings"@, "open configuration menu"@),
        ("cfg"@, "open configuration menu"@),
        ("create-theme"@, "create custom theme file"@),
        ("new-theme"@, "create custom theme file"@),
        ("edit-theme"@, "show custom theme file path"@)
    ]
}

/// Pairs of strings as characters.
pub open spec fn pair_views(s: Seq<(&str, &str)>) -> Seq<(Seq<char>, Seq<char>)> {
    s.map_values(|p: (&str, &str)| (p.0@, p.1@))
}

/// The palette's commands with their descriptions.
pub fn commands() -> (r: Vec<(&'static str, &'static str)>)
    ensures
        pair_views(r@) == command_table(),
{
    let r = vec![
        ("q", "quit - exit the application"),
        ("quit", "quit - exit the application"),
        ("exit", "exit the application"),
        ("h", "help - show help"),
        ("help", "show help dialog"),
        ("r", "refresh - reload tools"),
        ("refresh", "reload tools from database"),
        ("t", "theme [name] - cycle or set theme"),
        ("theme", "theme [name] - cycle or set theme"),
        ("s", "sort [field] - cycle or set sort"),
        ("sort", "sort [field] - cycle or set sort (name/usage/recent)"),
        ("filter", "filter [source] - filter by source (cargo/apt/pip/npm)"),
        ("source", "source [name] - filter by source"),
        ("src", "src [name] - filter by source"),
        ("fav", "fav - toggle favorites filter"),
        ("favorites", "favorites - toggle favorites filter"),
        ("starred", "starred - toggle favorites filter"),
        ("1", "go to Installed tab"),
        ("installed", "go to Installed tab"),
        ("2", "go to Available tab"),
        ("available", "go to Available tab"),
        ("3", "go to Updates tab"),
        ("updates", "go to Updates tab"),
        ("4", "go to Bundles tab"),
        ("bundles", "go to Bundles tab"),
        ("5", "go to Discover tab"),
        ("discover", "go to Discover tab"),
        ("i", "install selected item"),
        ("install", "install selected tool/bundle"),
        ("d", "delete/uninstall selected"),
        ("delete", "delete selected tool"),
        ("uninstall", "uninstall selected tool"),
        ("u", "update selected"),
        ("update", "update selected tool"),
        ("upgrade", "upgrade selected tool"),
        ("undo", "undo last action"),
        ("z", "undo last action"),
        ("redo", "redo undone action"),
        ("y", "redo undone action"),
        ("c", "config - open configuration menu"),
        ("config", "open configuration menu"),
        ("settings", "open configuration menu"),
        ("cfg", "open configuration menu"),
        ("create-theme", "create custom theme file"),
        ("new-theme", "create custom theme file"),
        ("edit-theme", "show custom theme file path")
    ];
    assert(pair_views(r@) =~= command_table());
    r
}

/// The entries of `t` whose name starts with `p`, in order.
pub open spec fn matching_commands(t: Seq<(Seq<char>, Seq<char>)>, p: Seq<char>) -> Seq<
    (Seq<char>, Seq<char>),
>
    decreases t.len(),
{
    if t.len() == 0 {
        t
    } else if is_prefix(p, t.last().0) {
        matching_commands(t.drop_last(), p).push(t.last())
    } else {
        matching_commands(t.drop_last(), p)
    }
}

/// The first `n` entries of `s`, or all of them when there are fewer.
pub open spec fn at_most<T>(s: Seq<T>, n: nat) -> Seq<T> {
    if s.len() <= n {
        s
    } else {
        s.take(n as int)
    }
}

/// Most suggestions shown.
pub const MAX_SUGGESTIONS: usize = 5;

/// Suggestions for what has been typed: nothing for blank input, else the
/// first five commands whose name starts with the trimmed, lowercased input.
pub open spec fn spec_suggestions(input: Seq<char>) -> Seq<(Seq<char>, Seq<char>)> {
    let p = lowercase(trim(input));
    if p.len() == 0 {
        seq![]
    } else {
        at_most(matching_commands(command_table(), p), MAX_SUGGESTIONS as nat)
    }
}

/// Commands offered for the typed `input` (see `spec_suggestions`).
pub fn command_suggestions(input: &str) -> (r: Vec<(&'static str, &'static str)>)
    ensures
        pair_views(r@) == spec_suggestions(input@),
{
    let trimmed = trim_str(input);
    let typed = to_lowercase(trimmed.as_str());
    let mut out: Vec<(&'static str, &'static str)> = Vec::new();
    if typed.as_str().is_empty() {
        assert(pair_views(out@) =~= Seq::<(Seq<char>, Seq<char>)>::empty());
        return out;
    }
    let p = chars_of(typed.as_str());
    let table = commands();
    let ghost t = command_table();
    let mut i: usize = 0;
    while i < table.len()
        invariant
            i <= table@.len(),
            pair_views(table@) == t,
            t == command_table(),
            p@ == typed@,
            pair_views(out@) == at_most(matching_commands(t.take(i as int), p@), MAX_SUGGESTIONS as nat),
        decreases table@.len() - i,
    {
        let (name, description) = table[i];
        let ghost m = matching_commands(t.take(i as int), p@);
        proof {
            assert(t.take(i + 1).drop_last() =~= t.take(i as int));
            assert(t.take(i + 1).last() == (name@, description@));
        }
        let name_chars = chars_of(name);
        if chars_starts_with(&name_chars, &p) {
            if out.len() < MAX_SUGGESTIONS {
                let ghost before = out@;
                assert(pair_views(before).len() == before.len());
                assert(m.len() < MAX_SUGGESTIONS);
                out.push((name, description));
                assert(pair_views(out@) =~= pair_views(before).push((name@, description@)));
                assert(pair_views(out@) =~= at_most(m.push((name@, description@)), MAX_SUGGESTIONS as nat));
            } else {
                assert(at_most(m.push((name@, description@)), MAX_SUGGESTIONS as nat) =~= at_most(m, MAX_SUGGESTIONS as nat));
            }
        }
        i += 1;
    }
    assert(t.take(t.len() as int) =~= t);
    out
}

/// The command that autocompletion puts in place of the input: the first
/// suggestion's name, if any.
pub fn autocomplete_command(input: &str) -> (r: Option<&'static str>)
    ensures
        spec_suggestions(input@).len() == 0 ==> r is None,
        spec_suggestions(input@).len() > 0 ==> (r matches Some(c) && c@ == spec_suggestions(input@)[0].0),
{
    let s = command_suggestions(input);
    if s.len() == 0 {
        None
    } else {
        assert(pair_views(s@)[0] == (s@[0].0@, s@[0].1@));
        Some(s[0].0)
    }
}

/// What an entered command asks for.
#[derive(Debug, Clone, Copy, PartialEq, Eq, Structural)]
pub enum CommandKind {
    Quit,
    Help,
    Refresh,
    Theme,
    Sort,
    SourceFilter,
    Favorites,
    Installed,
    Available,
    Updates,
    Bundles,
    Discover,
    Install,
    Uninstall,
    Update,
    Undo,
    Redo,
    Config,
    CreateTheme,
    EditTheme,
    /// `label` or `labels`, alone or with `filter`.
    LabelFilter,
    LabelAuto,
    LabelEdit,
    LabelClear,
    /// `label` with another word: its usage is shown.
    LabelUsage,
    Unknown,
}

/// The command that the words `parts` (at least one) name.
pub open spec fn spec_kind(parts: Seq<Seq<char>>) -> CommandKind {
    let w = parts[0];
    if w == "q"@ || w == "quit"@ || w == "exit"@ {
        CommandKind::Quit
    } else if w == "h"@ || w == "help"@ {
        CommandKind::Help
    } else if w == "r"@ || w == "refresh"@ {
        CommandKind::Refresh
    } else if w == "theme"@ || w == "t"@ {
        CommandKind::Theme
    } else if w == "sort"@ || w == "s"@ {
        CommandKind::Sort
    } else if w == "filter"@ || w == "source"@ || w == "src"@ {
        CommandKind::SourceFilter
    } else if w == "fav"@ || w == "favorites"@ || w == "starred"@ {
        CommandKind::Favorites
    } else if w == "installed"@ || w == "1"@ {
        CommandKind::Installed
    } else if w == "available"@ || w == "2"@ {
        CommandKind::Available
    } else if w == "updates"@ || w == "3"@ {
        CommandKind::Updates
    } else if w == "bundles"@ || w == "4"@ {
        CommandKind::Bundles
    } else if w == "discover"@ || w == "5"@ {
        CommandKind::Discover
    } else if w == "i"@ || w == "install"@ {
        CommandKind::Install
    } else if w == "d"@ || w == "delete"@ || w == "uninstall"@ {
        CommandKind::Uninstall
    } else if w == "u"@ || w == "update"@ || w == "upgrade"@ {
        CommandKind::Update
    } else if w == "undo"@ || w == "z"@ {
        CommandKind::Undo
    } else if w == "redo"@ || w == "y"@ {
        CommandKind::Redo
    } else if w == "c"@ || w == "config"@ || w == "settings"@ || w == "cfg"@ {
        CommandKind::Config
    } else if w == "create-theme"@ || w == "new-theme"@ {
        CommandKind::CreateTheme
    } else if w == "edit-theme"@ {
        CommandKind::EditTheme
    } else if w == "label"@ || w == "labels"@ {
        if parts.len() == 1 || parts[1] == "filter"@ {
            CommandKind::LabelFilter
        } else if parts[1] == "auto"@ {
            CommandKind::LabelAuto
        } else if parts[1] == "edit"@ {
            CommandKind::LabelEdit
        } else if parts[1] == "clear"@ {
            CommandKind::LabelClear
        } else {
            CommandKind::LabelUsage
        }
    } else {
        CommandKind::Unknown
    }
}

/// Each command word names its command and no other: the words of the
/// command table (and `label`/`labels`) parse to the commands their
/// descriptions name (`undo` and `z` undo, `redo` and `y` redo, ...), and any
/// other first word is an unknown command.
pub proof fn law_command_words(parts: Seq<Seq<char>>, w: Seq<char>)
    requires
        parts.len() > 0,
        w == parts[0],
    ensures
        (spec_kind(parts) == CommandKind::Quit) == (w == "q"@ || w == "quit"@ || w == "exit"@),
        (spec_kind(parts) == CommandKind::Help) == (w == "h"@ || w == "help"@),
        (spec_kind(parts) == CommandKind::Refresh) == (w == "r"@ || w == "refresh"@),
        (spec_kind(parts) == CommandKind::Theme) == (w == "theme"@ || w == "t"@),
        (spec_kind(parts) == CommandKind::Sort) == (w == "sort"@ || w == "s"@),
        (spec_kind(parts) == CommandKind::SourceFilter) == (w == "filter"@ || w == "source"@ || w == "src"@),
        (spec_kind(parts) == CommandKind::Favorites) == (w == "fav"@ || w == "favorites"@ || w == "starred"@),
        (spec_kind(parts) == CommandKind::Installed) == (w == "installed"@ || w == "1"@),
        (spec_kind(parts) == CommandKind::Available) == (w == "available"@ || w == "2"@),
        (spec_kind(parts) == CommandKind::Updates) == (w == "updates"@ || w == "3"@),
        (spec_kind(parts) == CommandKind::Bundles) == (w == "bundles"@ || w == "4"@),
        (spec_kind(parts) == CommandKind::Discover) == (w == "discover"@ || w == "5"@),
        (spec_kind(parts) == CommandKind::Install) == (w == "i"@ || w == "install"@),
        (spec_kind(parts) == CommandKind::Uninstall) == (w == "d"@ || w == "delete"@ || w == "uninstall"@),
        (spec_kind(parts) == CommandKind::Update) == (w == "u"@ || w == "update"@ || w == "upgrade"@),
        (spec_kind(parts) == CommandKind::Undo) == (w == "undo"@ || w == "z"@),
        (spec_kind(parts) == CommandKind::Redo) == (w == "redo"@ || w == "y"@),
        (spec_kind(parts) == CommandKind::Config) == (w == "c"@ || w == "config"@ || w == "settings"@ || w == "cfg"@),
        (spec_kind(parts) == CommandKind::CreateTheme) == (w == "create-theme"@ || w == "new-theme"@),
        (spec_kind(parts) == CommandKind::EditTheme) == (w == "edit-theme"@),
        (spec_kind(parts) == CommandKind::LabelFilter || spec_kind(parts) == CommandKind::LabelAuto
            || spec_kind(parts) == CommandKind::LabelEdit || spec_kind(parts)
            == CommandKind::LabelClear || spec_kind(parts) == CommandKind::LabelUsage) == (w
            == "label"@ || w == "labels"@),
        (spec_kind(parts) == CommandKind::Unknown) == !(w == "q"@ || w == "quit"@ || w == "exit"@ || w == "h"@ || w == "help"@ || w == "r"@ || w == "refresh"@ || w == "theme"@ || w == "t"@ || w == "sort"@ || w == "s"@ || w == "filter"@ || w == "source"@ || w == "src"@ || w == "fav"@ || w == "favorites"@ || w == "starred"@ || w == "installed"@ || w == "1"@ || w == "available"@ || w == "2"@ || w == "updates"@ || w == "3"@ || w == "bundles"@ || w == "4"@ || w == "discover"@ || w == "5"@ || w == "i"@ || w == "install"@ || w == "d"@ || w == "delete"@ || w == "uninstall"@ || w == "u"@ || w == "update"@ || w == "upgrade"@ || w == "undo"@ || w == "z"@ || w == "redo"@ || w == "y"@ || w == "c"@ || w == "config"@ || w == "settings"@ || w == "cfg"@ || w == "create-theme"@ || w == "new-theme"@ || w == "edit-theme"@ || w == "label"@ || w == "labels"@),
{
    reveal_strlit("q");
    reveal_strlit("quit");
    reveal_strlit("exit");
    reveal_strlit("h");
    reveal_strlit("help");
    reveal_strlit("r");
    reveal_strlit("refresh");
    reveal_strlit("theme");
    reveal_strlit("t");
    reveal_strlit("sort");
    reveal_strlit("s");
    reveal_strlit("filter");
    reveal_strlit("source");
    reveal_strlit("src");
    reveal_strlit("fav");
    reveal_strlit("favorites");
    reveal_strlit("starred");
    reveal_strlit("installed");
    reveal_strlit("1");
    reveal_strlit("available");
    reveal_strlit("2");
    reveal_strlit("updates");
    reveal_strlit("3");
    reveal_strlit("bundles");
    reveal_strlit("4");
    reveal_strlit("discover");
    reveal_strlit("5");
    reveal_strlit("i");
    reveal_strlit("install");
    reveal_strlit("d");
    reveal_strlit("delete");
    reveal_strlit("uninstall");
    reveal_strlit("u");
    reveal_strlit("update");
    reveal_strlit("upgrade");
    reveal_strlit("undo");
    reveal_strlit("z");
    reveal_strlit("redo");
    reveal_strlit("y");
    reveal_strlit("c");
    reveal_strlit("config");
    reveal_strlit("settings");
    reveal_strlit("cfg");
    reveal_strlit("create-theme");
    reveal_strlit("new-theme");
    reveal_strlit("edit-theme");
    reveal_strlit("label");
    reveal_strlit("labels");
    assert("q"@.len() == 1 && "q"@[0] == 'q');
    assert("quit"@.len() == 4 && "quit"@[0] == 'q');
    assert("exit"@.len() == 4 && "exit"@[0] == 'e');
    assert("h"@.len() == 1 && "h"@[0] == 'h');
    assert("help"@.len() == 4 && "help"@[0] == 'h');
    assert("r"@.len() == 1 && "r"@[0] == 'r');
    assert("refresh"@.len() == 7 && "refresh"@[0] == 'r');
    assert("theme"@.len() == 5 && "theme"@[0] == 't');
    assert("t"@.len() == 1 && "t"@[0] == 't');
    assert("sort"@.len() == 4 && "sort"@[0] == 's');
    assert("s"@.len() == 1 && "s"@[0] == 's');
    assert("filter"@.len() == 6 && "filter"@[0] == 'f');
    assert("source"@.len() == 6 && "source"@[0] == 's');
    assert("src"@.len() == 3 && "src"@[0] == 's');
    assert("fav"@.len() == 3 && "fav"@[0] == 'f');
    assert("favorites"@.len() == 9 && "favorites"@[0] == 'f');
    assert("starred"@.len() == 7 && "starred"@[0] == 's');
    assert("installed"@.len() == 9 && "installed"@[0] == 'i');
    assert("1"@.len() == 1 && "1"@[0] == '1');
    assert("available"@.len() == 9 && "available"@[0] == 'a');
    assert("2"@.len() == 1 && "2"@[0] == '2');
    assert("updates"@.len() == 7 && "updates"@[0] == 'u' && "updates"@[2] == 'd');
    assert("3"@.len() == 1 && "3"@[0] == '3');
    assert("bundles"@.len() == 7 && "bundles"@[0] == 'b');
    assert("4"@.len() == 1 && "4"@[0] == '4');
    assert("discover"@.len() == 8 && "discover"@[0] == 'd');
    assert("5"@.len() == 1 && "5"@[0] == '5');
    assert("i"@.len() == 1 && "i"@[0] == 'i');
    assert("install"@.len() == 7 && "install"@[0] == 'i');
    assert("d"@.len() == 1 && "d"@[0] == 'd');
    assert("delete"@.len() == 6 && "delete"@[0] == 'd');
    assert("uninstall"@.len() == 9 && "uninstall"@[0] == 'u');
    assert("u"@.len() == 1 && "u"@[0] == 'u');
    assert("update"@.len() == 6 && "update"@[0] == 'u');
    assert("upgrade"@.len() == 7 && "upgrade"@[0] == 'u' && "upgrade"@[2] == 'g');
    assert("undo"@.len() == 4 && "undo"@[0] == 'u');
    assert("z"@.len() == 1 && "z"@[0] == 'z');
    assert("redo"@.len() == 4 && "redo"@[0] == 'r');
    assert("y"@.len() == 1 && "y"@[0] == 'y');
    assert("c"@.len() == 1 && "c"@[0] == 'c');
    assert("config"@.len() == 6 && "config"@[0] == 'c');
    assert("settings"@.len() == 8 && "settings"@[0] == 's');
    assert("cfg"@.len() == 3 && "cfg"@[0] == 'c');
    assert("create-theme"@.len() == 12 && "create-theme"@[0] == 'c');
    assert("new-theme"@.len() == 9 && "new-theme"@[0] == 'n');
    assert("edit-theme"@.len() == 10 && "edit-theme"@[0] == 'e');
    assert("label"@.len() == 5 && "label"@[0] == 'l');
    assert("labels"@.len() == 6 && "labels"@[0] == 'l');
}

/// The argument that a command carries: the second word for `theme`,
/// `sort` and the source filter, if there is one; the first word of an
/// unknown command.
pub open spec fn spec_arg(parts: Seq<Seq<char>>) -> Option<Seq<char>> {
    let k = spec_kind(parts);
    if k == CommandKind::Theme || k == CommandKind::Sort || k == CommandKind::SourceFilter {
        if parts.len() > 1 {
            Some(parts[1])
        } else {
            None
        }
    } else if k == CommandKind::Unknown {
        Some(parts[0])
    } else {
        None
    }
}

/// The second word is the argument of `theme`, `sort` and the source
/// filter (none when there is no second word); an unknown command carries
/// its own word, for the status message; other commands carry none.
pub proof fn law_command_argument(parts: Seq<Seq<char>>)
    requires
        parts.len() > 0,
    ensures
        parts[0] == "theme"@ || parts[0] == "sort"@ || parts[0] == "filter"@ ==> spec_arg(parts)
            == if parts.len() > 1 {
            Some(parts[1])
        } else {
            None
        },
        spec_kind(parts) == CommandKind::Unknown ==> spec_arg(parts) == Some(parts[0]),
        spec_kind(parts) == CommandKind::Redo || spec_kind(parts) == CommandKind::Undo
            || spec_kind(parts) == CommandKind::Quit ==> spec_arg(parts) is None,
{
    law_command_words(parts, parts[0]);
}

/// An entered command line, read.
pub struct ParsedCommand {
    /// The line trimmed and lowercased, as command history keeps it.
    pub text: String,
    pub kind: CommandKind,
    pub arg: Option<String>,
}

/// An optional string as characters.
pub open spec fn opt_text(o: Option<String>) -> Option<Seq<char>> {
    match o {
        Some(s) => Some(s@),
        None => None,
    }
}

fn kind_of(parts: &Vec<String>) -> (r: CommandKind)
    requires
        parts@.len() > 0,
    ensures
        r == spec_kind(views_of(parts@)),
{
    let ghost v = views_of(parts@);
    assert(v[0] == parts@[0]@);
    let w = parts[0].as_str();
    if str_eq(w, "q") || str_eq(w, "quit") || str_eq(w, "exit") {
        CommandKind::Quit
    } else if str_eq(w, "h") || str_eq(w, "help") {
        CommandKind::Help
    } else if str_eq(w, "r") || str_eq(w, "refresh") {
        CommandKind::Refresh
    } else if str_eq(w, "theme") || str_eq(w, "t") {
        CommandKind::Theme
    } else if str_eq(w, "sort") || str_eq(w, "s") {
        CommandKind::Sort
    } else if str_eq(w, "filter") || str_eq(w, "source") || str_eq(w, "src") {
        CommandKind::SourceFilter
    } else if str_eq(w, "fav") || str_eq(w, "favorites") || str_eq(w, "starred") {
        CommandKind::Favorites
    } else if str_eq(w, "installed") || str_eq(w, "1") {
        CommandKind::Installed
    } else if str_eq(w, "available") || str_eq(w, "2") {
        CommandKind::Available
    } else if str_eq(w, "updates") || str_eq(w, "3") {
        CommandKind::Updates
    } else if str_eq(w, "bundles") || str_eq(w, "4") {
        CommandKind::Bundles
    } else if str_eq(w, "discover") || str_eq(w, "5") {
        CommandKind::Discover
    } else if str_eq(w, "i") || str_eq(w, "install") {
        CommandKind::Install
    } else if str_eq(w, "d") || str_eq(w, "delete") || str_eq(w, "uninstall") {
        CommandKind::Uninstall
    } else if str_eq(w, "u") || str_eq(w, "update") || str_eq(w, "upgrade") {
        CommandKind::Update
    } else if str_eq(w, "undo") || str_eq(w, "z") {
        CommandKind::Undo
    } else if str_eq(w, "redo") || str_eq(w, "y") {
        CommandKind::Redo
    } else if str_eq(w, "c") || str_eq(w, "config") || str_eq(w, "settings") || str_eq(w, "cfg") {
        CommandKind::Config
    } else if str_eq(w, "create-theme") || str_eq(w, "new-theme") {
        CommandKind::CreateTheme
    } else if str_eq(w, "edit-theme") {
        CommandKind::EditTheme
    } else if str_eq(w, "label") || str_eq(w, "labels") {
        if parts.len() == 1 {
            CommandKind::LabelFilter
        } else {
            assert(v[1] == parts@[1]@);
            let second = parts[1].as_str();
            if str_eq(second, "filter") {
                CommandKind::LabelFilter
            } else if str_eq(second, "auto") {
                CommandKind::LabelAuto
            } else if str_eq(second, "edit") {
                CommandKind::LabelEdit
            } else if str_eq(second, "clear") {
                CommandKind::LabelClear
            } else {
                CommandKind::LabelUsage
            }
        }
    } else {
        CommandKind::Unknown
    }
}

/// Reads an entered command line: `None` when it holds no word (the
/// palette just closes); else the trimmed, lowercased line, the command
/// its first word names and that command's argument.
pub fn parse_command(input: &str) -> (r: Option<ParsedCommand>)
    ensures
        r is None <==> words(lowercase(trim(input@))).len() == 0,
        r matches Some(c) ==> {
            let parts = words(lowercase(trim(input@)));
            &&& c.text@ == lowercase(trim(input@))
            &&& c.kind == spec_kind(parts)
            &&& opt_text(c.arg) == spec_arg(parts)
        },
{
    let trimmed = trim_str(input);
    let text = to_lowercase(trimmed.as_str());
    let parts = split_words(text.as_str());
    if parts.len() == 0 {
        return None;
    }
    let ghost v = views_of(parts@);
    let kind = kind_of(&parts);
    let arg = match kind {
        CommandKind::Theme | CommandKind::Sort | CommandKind::SourceFilter => {
            if parts.len() > 1 {
                assert(v[1] == parts@[1]@);
                Some(parts[1].clone())
            } else {
                None
            }
        },
        CommandKind::Unknown => {
            assert(v[0] == parts@[0]@);
            Some(parts[0].clone())
        },
        _ => None,
    };
    Some(ParsedCommand { text, kind, arg })
}

/// The sort that `sort <name>` selects.
pub open spec fn spec_sort_named(name: Seq<char>) -> Option<SortBy> {
    if name == "name"@ || name == "n"@ || name == "alpha"@ {
        Some(SortBy::Name)
    } else if name == "usage"@ || name == "u"@ || name == "used"@ {
        Some(SortBy::Usage)
    } else if name == "recent"@ || name == "r"@ || name == "last"@ {
        Some(SortBy::Recent)
    } else {
        None
    }
}

/// The sort named by `sort <name>`; `None` for an unknown name.
pub fn sort_by_name(name: &str) -> (r: Option<SortBy>)
    ensures
        r == spec_sort_named(name@),
{
    if str_eq(name, "name") || str_eq(name, "n") || str_eq(name, "alpha") {
        Some(SortBy::Name)
    } else if str_eq(name, "usage") || str_eq(name, "u") || str_eq(name, "used") {
        Some(SortBy::Usage)
    } else if str_eq(name, "recent") || str_eq(name, "r") || str_eq(name, "last") {
        Some(SortBy::Recent)
    } else {
        None
    }
}

/// A theme chosen by name.
#[derive(Debug, Clone, Copy, PartialEq, Eq, Structural)]
pub enum ThemeChoice {
    Builtin(ThemeVariant),
    /// The user's theme file, which must exist.
    Custom,
}

/// The theme that `theme <name>` selects.
pub open spec fn spec_theme_named(name: Seq<char>) -> Option<ThemeChoice> {
    if name == "mocha"@ || name == "catppuccin"@ || name == "catppuccin-mocha"@ {
        Some(ThemeChoice::Builtin(ThemeVariant::CatppuccinMocha))
    } else if name == "latte"@ || name == "catppuccin-latte"@ {
        Some(ThemeChoice::Builtin(ThemeVariant::CatppuccinLatte))
    } else if name == "dracula"@ {
        Some(ThemeChoice::Builtin(ThemeVariant::Dracula))
    } else if name == "nord"@ {
        Some(ThemeChoice::Builtin(ThemeVariant::Nord))
    } else if name == "tokyo"@ || name == "tokyo-night"@ || name == "tokyonight"@ {
        Some(ThemeChoice::Builtin(ThemeVariant::TokyoNight))
    } else if name == "gruvbox"@ {
        Some(ThemeChoice::Builtin(ThemeVariant::Gruvbox))
    } else if name == "custom"@ {
        Some(ThemeChoice::Custom)
    } else {
        None
    }
}

/// The theme named by `theme <name>`; `None` for an unknown name.
pub fn theme_by_name(name: &str) -> (r: Option<ThemeChoice>)
    ensures
        r == spec_theme_named(name@),
{
    if str_eq(name, "mocha") || str_eq(name, "catppuccin") || str_eq(name, "catppuccin-mocha") {
        Some(ThemeChoice::Builtin(ThemeVariant::CatppuccinMocha))
    } else if str_eq(name, "latte") || str_eq(name, "catppuccin-latte") {
        Some(ThemeChoice::Builtin(ThemeVariant::CatppuccinLatte))
    } else if str_eq(name, "dracula") {
        Some(ThemeChoice::Builtin(ThemeVariant::Dracula))
    } else if str_eq(name, "nord") {
        Some(ThemeChoice::Builtin(ThemeVariant::Nord))
    } else if str_eq(name, "tokyo") || str_eq(name, "tokyo-night") || str_eq(name, "tokyonight") {
        Some(ThemeChoice::Builtin(ThemeVariant::TokyoNight))
    } else if str_eq(name, "gruvbox") {
        Some(ThemeChoice::Builtin(ThemeVariant::Gruvbox))
    } else if str_eq(name, "custom") {
        Some(ThemeChoice::Custom)
    } else {
        None
    }
}

/// The source filter that `filter <source>` sets: the source in lower
/// case; no source, or an empty one, clears the filter.
pub fn source_filter_for(source: Option<&str>) -> (r: Option<String>)
    ensures
        (source matches Some(s) && s@.len() > 0) ==> opt_text(r) == Some(lowercase(source->0@)),
        !(source matches Some(s) && s@.len() > 0) ==> r is None,
{
    match source {
        Some(s) => {
            if s.is_empty() {
                None
            } else {
                Some(to_lowercase(s))
            }
        },
        None => None,
    }
}

/// The error status that running a command shows of itself: the usage of
/// `label` after an unknown label action, "Unknown command: <word>" after
/// an unknown first word; none for the other commands.
pub open spec fn spec_command_status(kind: CommandKind, arg: Option<Seq<char>>) -> Option<Seq<char>> {
    match kind {
        CommandKind::LabelUsage => Some("Usage: label [auto|filter|edit|clear]"@),
        CommandKind::Unknown => Some(
            "Unknown command: "@ + match arg {
                Some(a) => a,
                None => seq![],
            },
        ),
        _ => None,
    }
}

/// The error status of a command (see `spec_command_status`).
pub fn command_status(c: &ParsedCommand) -> (r: Option<String>)
    ensures
        opt_text(r) == spec_command_status(c.kind, opt_text(c.arg)),
{
    match c.kind {
        CommandKind::LabelUsage => Some(String::from_str("Usage: label [auto|filter|edit|clear]")),
        CommandKind::Unknown => {
            let mut m = String::from_str("Unknown command: ");
            match &c.arg {
                Some(a) => m.append(a.as_str()),
                None => {},
            }
            Some(m)
        },
        _ => None,
    }
}

/// The palette after its line is entered: a line without a word just
/// closes it (input cleared, navigation left); otherwise the trimmed,
/// lowercased line joins the history, navigation ends, and the palette
/// closes, except for a quit command, which leaves the input as it is.
pub open spec fn spec_submit(p: PaletteView) -> PaletteView {
    let text = lowercase(trim(p.input));
    let parts = words(text);
    if parts.len() == 0 {
        PaletteView { input: seq![], index: None, temp: seq![], ..p }
    } else {
        let added = PaletteView { index: None, temp: seq![], ..p.add(text) };
        if spec_kind(parts) == CommandKind::Quit {
            added
        } else {
            PaletteView { input: seq![], ..added }
        }
    }
}

/// Enters the palette's line (see `spec_submit`) and gives the command it
/// names, as `parse_command` reads it.
pub fn submit_command(palette: &mut CommandPalette) -> (r: Option<ParsedCommand>)
    requires
        old(palette).view().wf(),
    ensures
        final(palette).view() == spec_submit(old(palette).view()),
        final(palette).view().wf(),
        r is None <==> words(lowercase(trim(old(palette).view().input))).len() == 0,
        r matches Some(c) ==> {
            let parts = words(lowercase(trim(old(palette).view().input)));
            &&& c.text@ == lowercase(trim(old(palette).view().input))
            &&& c.kind == spec_kind(parts)
            &&& opt_text(c.arg) == spec_arg(parts)
        },
{
    let parsed = parse_command(palette.input());
    match parsed {
        None => {
            palette.clear();
            None
        },
        Some(c) => {
            palette.add_to_history(c.text.clone());
            palette.clear_history_nav();
            if c.kind != CommandKind::Quit {
                palette.clear();
            }
            Some(c)
        },
    }
}

} // verus!
