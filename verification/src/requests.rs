//! Which tools an install, uninstall or update request acts on, and the
//! install task built for each.

use vstd::prelude::*;
use crate::pending::InstallTask;
use crate::text::{decimal, str_eq, usize_to_string, views_of};
use crate::tools::{contains_text, Tool};
use crate::types::{DiscoverResult, DiscoverSource};

verus! {

/// Whether `tools` lists a tool named `name` whose installed flag is
/// `installed`.
pub open spec fn listed_as(tools: Seq<Tool>, name: Seq<char>, installed: bool) -> bool {
    exists|i: int| 0 <= i < tools.len() && #[trigger] tools[i].name@ == name && tools[i].is_installed == installed
}

/// The selected names, in order, that `tools` lists with that installed
/// flag.
pub open spec fn selected_listed_as(
    selected: Seq<Seq<char>>,
    tools: Seq<Tool>,
    installed: bool,
) -> Seq<Seq<char>>
    decreases selected.len(),
{
    if selected.len() == 0 {
        seq![]
    } else {
        let rest = selected_listed_as(selected.drop_last(), tools, installed);
        if listed_as(tools, selected.last(), installed) {
            rest.push(selected.last())
        } else {
            rest
        }
    }
}

/// The tools an install (`installed` false) or uninstall (`installed`
/// true) request acts on: with nothing selected, the current tool when its
/// installed flag is `installed`; else the selected names that the list
/// shows with that flag, in the order given.
pub open spec fn spec_request_targets(
    selected: Seq<Seq<char>>,
    current: Option<Tool>,
    tools: Seq<Tool>,
    installed: bool,
) -> Seq<Seq<char>> {
    if selected.len() == 0 {
        match current {
            Some(t) => if t.is_installed == installed {
                seq![t.name@]
            } else {
                seq![]
            },
            None => seq![],
        }
    } else {
        selected_listed_as(selected, tools, installed)
    }
}

/// The tool a reference points to.
pub open spec fn deref_tool(t: Option<&Tool>) -> Option<Tool> {
    match t {
        Some(t) => Some(*t),
        None => None,
    }
}

/// Whether the list shows a tool with this name and installed flag.
fn is_listed_as(tools: &Vec<Tool>, name: &str, installed: bool) -> (r: bool)
    ensures
        r == listed_as(tools@, name@, installed),
{
    let mut i: usize = 0;
    while i < tools.len()
        invariant
            i <= tools@.len(),
            forall|k: int|
                0 <= k < i ==> !(#[trigger] tools@[k].name@ == name@ && tools@[k].is_installed
                    == installed),
        decreases tools@.len() - i,
    {
        if tools[i].is_installed == installed && str_eq(tools[i].name.as_str(), name) {
            return true;
        }
        i += 1;
    }
    false
}

fn request_targets(selected: &Vec<String>, current: Option<&Tool>, tools: &Vec<Tool>, installed: bool) -> (r:
    Vec<String>)
    ensures
        views_of(r@) == spec_request_targets(
            views_of(selected@),
            deref_tool(current),
            tools@,
            installed,
        ),
{
    let mut r: Vec<String> = Vec::new();
    if selected.len() == 0 {
        if let Some(t) = current {
            if t.is_installed == installed {
                r.push(t.name.clone());
                assert(views_of(r@) =~= seq![t.name@]);
            }
        }
        assert(views_of(r@) =~= spec_request_targets(
            views_of(selected@),
            deref_tool(current),
            tools@,
            installed,
        ));
        return r;
    }
    let ghost names = views_of(selected@);
    let mut i: usize = 0;
    while i < selected.len()
        invariant
            i <= selected@.len(),
            names == views_of(selected@),
            views_of(r@) == selected_listed_as(names.take(i as int), tools@, installed),
        decreases selected@.len() - i,
    {
        assert(names.take(i + 1).drop_last() =~= names.take(i as int));
        assert(names.take(i + 1).last() == selected@[i as int]@);
        if is_listed_as(tools, selected[i].as_str(), installed) {
            let ghost before = views_of(r@);
            r.push(selected[i].clone());
            assert(views_of(r@) =~= before.push(selected@[i as int]@));
        }
        i += 1;
    }
    assert(names.take(selected@.len() as int) =~= names);
    r
}

/// The tools an install request acts on (see `spec_request_targets`):
/// those not installed yet.
pub fn install_targets(selected: &Vec<String>, current: Option<&Tool>, tools: &Vec<Tool>) -> (r:
    Vec<String>)
    ensures
        views_of(r@) == spec_request_targets(views_of(selected@), deref_tool(current), tools@, false),
{
    request_targets(selected, current, tools, false)
}

/// The tools an uninstall request acts on (see `spec_request_targets`):
/// those installed.
pub fn uninstall_targets(selected: &Vec<String>, current: Option<&Tool>, tools: &Vec<Tool>) -> (r:
    Vec<String>)
    ensures
        views_of(r@) == spec_request_targets(views_of(selected@), deref_tool(current), tools@, true),
{
    request_targets(selected, current, tools, true)
}

/// The selected names, in order, that have an update.
pub open spec fn selected_with_update(selected: Seq<Seq<char>>, updated: Seq<Seq<char>>) -> Seq<
    Seq<char>,
>
    decreases selected.len(),
{
    if selected.len() == 0 {
        seq![]
    } else {
        let rest = selected_with_update(selected.drop_last(), updated);
        if updated.contains(selected.last()) {
            rest.push(selected.last())
        } else {
            rest
        }
    }
}

/// The tools an update request acts on: with nothing selected, the
/// current tool when it has an update; else the selected names that have
/// one (`updated` names the tools with an update), in the order given.
pub open spec fn spec_update_targets(
    selected: Seq<Seq<char>>,
    current: Option<Tool>,
    updated: Seq<Seq<char>>,
) -> Seq<Seq<char>> {
    if selected.len() == 0 {
        match current {
            Some(t) => if updated.contains(t.name@) {
                seq![t.name@]
            } else {
                seq![]
            },
            None => seq![],
        }
    } else {
        selected_with_update(selected, updated)
    }
}

/// The tools an update request acts on (see `spec_update_targets`).
pub fn update_targets(selected: &Vec<String>, current: Option<&Tool>, updated: &Vec<String>) -> (r:
    Vec<String>)
    ensures
        views_of(r@) == spec_update_targets(views_of(selected@), deref_tool(current), views_of(updated@)),
{
    let mut r: Vec<String> = Vec::new();
    if selected.len() == 0 {
        if let Some(t) = current {
            if contains_text(updated, t.name.as_str()) {
                r.push(t.name.clone());
                assert(views_of(r@) =~= seq![t.name@]);
            }
        }
        assert(views_of(r@) =~= spec_update_targets(
            views_of(selected@),
            deref_tool(current),
            views_of(updated@),
        ));
        return r;
    }
    let ghost names = views_of(selected@);
    let mut i: usize = 0;
    while i < selected.len()
        invariant
            i <= selected@.len(),
            names == views_of(selected@),
            views_of(r@) == selected_with_update(names.take(i as int), views_of(updated@)),
        decreases selected@.len() - i,
    {
        assert(names.take(i + 1).drop_last() =~= names.take(i as int));
        assert(names.take(i + 1).last() == selected@[i as int]@);
        if contains_text(updated, selected[i].as_str()) {
            let ghost before = views_of(r@);
            r.push(selected[i].clone());
            assert(views_of(r@) =~= before.push(selected@[i as int]@));
        }
        i += 1;
    }
    assert(names.take(selected@.len() as int) =~= names);
    r
}

/// The command shown for an install when the install commands know none
/// for the source: "<source> install <name>", with "@<version>" for a
/// given version.
pub open spec fn fallback_display(name: Seq<char>, source: Seq<char>, version: Option<Seq<char>>) -> Seq<
    char,
> {
    match version {
        Some(v) => source + " install "@ + name + "@"@ + v,
        None => source + " install "@ + name,
    }
}

/// An optional string slice as characters.
pub open spec fn opt_str(o: Option<&str>) -> Option<Seq<char>> {
    match o {
        Some(s) => Some(s@),
        None => None,
    }
}

/// The install task for a tool. `command` is the command the install
/// commands give for it, if any; without one the task shows
/// `fallback_display`.
pub fn build_install_task(name: &str, source: &str, version: Option<&str>, command: Option<String>) -> (r:
    InstallTask)
    ensures
        r.name@ == name@,
        r.source@ == source@,
        opt_chars_of(r.version) == opt_str(version),
        r.display_command@ == match command {
            Some(c) => c@,
            None => fallback_display(name@, source@, opt_str(version)),
        },
{
    let display_command = match command {
        Some(c) => c,
        None => {
            let mut d = source.to_owned();
            d.append(" install ");
            d.append(name);
            proof {
                reveal_strlit(" install ");
                reveal_strlit("@");
            }
            match version {
                Some(v) => {
                    d.append("@");
                    d.append(v);
                },
                None => {},
            }
            d
        },
    };
    InstallTask {
        name: name.to_owned(),
        source: source.to_owned(),
        version: match version {
            Some(v) => Some(v.to_owned()),
            None => None,
        },
        display_command,
    }
}

/// An optional string as characters.
pub open spec fn opt_chars_of(o: Option<String>) -> Option<Seq<char>> {
    match o {
        Some(s) => Some(s@),
        None => None,
    }
}

/// The package source a Discover result installs through: that of its
/// first install option; an error for results without one, and for
/// GitHub and AI results, which cannot be installed directly.
pub open spec fn spec_discover_install_source(result: DiscoverResult) -> Result<Seq<char>, Seq<char>> {
    if result.install_options@.len() == 0 {
        Err("No install command available"@)
    } else {
        match result.install_options@[0].source {
            DiscoverSource::CratesIo => Ok("cargo"@),
            DiscoverSource::PyPI => Ok("pip"@),
            DiscoverSource::Npm => Ok("npm"@),
            DiscoverSource::Homebrew => Ok("brew"@),
            DiscoverSource::Apt => Ok("apt"@),
            _ => Err("Cannot install directly (GitHub/AI source)"@),
        }
    }
}

/// The package source a Discover result installs through (see
/// `spec_discover_install_source`).
pub fn discover_install_source(result: &DiscoverResult) -> (r: Result<&'static str, &'static str>)
    ensures
        match r {
            Ok(s) => spec_discover_install_source(*result) == Ok::<Seq<char>, Seq<char>>(s@),
            Err(m) => spec_discover_install_source(*result) == Err::<Seq<char>, Seq<char>>(m@),
        },
{
    if result.install_options.len() == 0 {
        return Err("No install command available");
    }
    match result.install_options[0].source {
        DiscoverSource::CratesIo => Ok("cargo"),
        DiscoverSource::PyPI => Ok("pip"),
        DiscoverSource::Npm => Ok("npm"),
        DiscoverSource::Homebrew => Ok("brew"),
        DiscoverSource::Apt => Ok("apt"),
        _ => Err("Cannot install directly (GitHub/AI source)"),
    }
}

/// The names whose database record is `want` (`Some(installed)` for a
/// known tool, `None` for an unknown one), in order.
pub open spec fn names_known_as(names: Seq<Seq<char>>, known: Seq<Option<bool>>, want: Option<bool>) -> Seq<
    Seq<char>,
>
    decreases names.len(),
{
    if names.len() == 0 || known.len() == 0 {
        seq![]
    } else {
        let rest = names_known_as(names.drop_last(), known.drop_last(), want);
        if known.last() == want {
            rest.push(names.last())
        } else {
            rest
        }
    }
}

fn pick_known(names: &Vec<String>, known: &Vec<Option<bool>>, want: Option<bool>) -> (r: Vec<String>)
    requires
        names@.len() == known@.len(),
    ensures
        views_of(r@) == names_known_as(views_of(names@), known@, want),
{
    let ghost ns = views_of(names@);
    let mut r: Vec<String> = Vec::new();
    let mut i: usize = 0;
    while i < names.len()
        invariant
            i <= names@.len(),
            names@.len() == known@.len(),
            ns == views_of(names@),
            views_of(r@) == names_known_as(ns.take(i as int), known@.take(i as int), want),
        decreases names@.len() - i,
    {
        assert(ns.take(i + 1).drop_last() =~= ns.take(i as int));
        assert(known@.take(i + 1).drop_last() =~= known@.take(i as int));
        assert(ns.take(i + 1).last() == names@[i as int]@);
        assert(known@.take(i + 1).last() == known@[i as int]);
        if known[i] == want {
            let ghost before = views_of(r@);
            r.push(names[i].clone());
            assert(views_of(r@) =~= before.push(names@[i as int]@));
        }
        i += 1;
    }
    assert(ns.take(names@.len() as int) =~= ns);
    assert(known@.take(names@.len() as int) =~= known@);
    r
}

/// The tools a bundle install acts on: the bundle's tools that the
/// database knows and that are not installed, in order. `known[i]` is
/// what the database says of `names[i]`: `Some(installed)`, or `None`
/// when it has no such tool.
pub fn bundle_install_targets(names: &Vec<String>, known: &Vec<Option<bool>>) -> (r: Vec<String>)
    requires
        names@.len() == known@.len(),
    ensures
        views_of(r@) == names_known_as(views_of(names@), known@, Some(false)),
{
    pick_known(names, known, Some(false))
}

/// The bundle's tools that the database does not know yet, in order
/// (`known` as for `bundle_install_targets`).
pub fn untracked_bundle_tools(names: &Vec<String>, known: &Vec<Option<bool>>) -> (r: Vec<String>)
    requires
        names@.len() == known@.len(),
    ensures
        views_of(r@) == names_known_as(views_of(names@), known@, None),
{
    pick_known(names, known, None)
}

/// The status line after adding a bundle's untracked tools to the list,
/// and whether it reports an error: `untracked` tools were missing and
/// `added` of them were stored.
pub open spec fn spec_track_status(untracked: nat, added: nat) -> (Seq<char>, bool) {
    if untracked == 0 {
        ("All bundle tools are already tracked"@, false)
    } else if added > 0 {
        ("Added "@ + decimal(added) + " tool(s) to Available"@, false)
    } else {
        ("Failed to add "@ + decimal(untracked) + " tool(s)"@, true)
    }
}

/// The status line after tracking a bundle's tools (see
/// `spec_track_status`).
pub fn track_status(untracked: usize, added: usize) -> (r: (String, bool))
    ensures
        (r.0@, r.1) == spec_track_status(untracked as nat, added as nat),
{
    proof {
        reveal_strlit("All bundle tools are already tracked");
        reveal_strlit("Added ");
        reveal_strlit(" tool(s) to Available");
        reveal_strlit("Failed to add ");
        reveal_strlit(" tool(s)");
    }
    if untracked == 0 {
        (String::from_str("All bundle tools are already tracked"), false)
    } else if added > 0 {
        let mut m = String::from_str("Added ");
        m.append(usize_to_string(added).as_str());
        m.append(" tool(s) to Available");
        (m, false)
    } else {
        let mut m = String::from_str("Failed to add ");
        m.append(usize_to_string(untracked).as_str());
        m.append(" tool(s)");
        (m, true)
    }
}

/// How many of the records are `want`.
pub open spec fn count_known(known: Seq<Option<bool>>, want: Option<bool>) -> nat
    decreases known.len(),
{
    if known.len() == 0 {
        0
    } else {
        count_known(known.drop_last(), want) + if known.last() == want {
            1nat
        } else {
            0nat
        }
    }
}

/// The hints under a bundle's contents: how many of its tools are missing
/// (unknown to the database or not installed) and can be installed with
/// 'i', or that all are installed; and, when some are unknown, that 'a'
/// adds them to the Available tab.
pub open spec fn spec_bundle_hints(known: Seq<Option<bool>>) -> (Seq<char>, Option<Seq<char>>) {
    let untracked = count_known(known, None);
    let missing = untracked + count_known(known, Some(false));
    (
        if missing > 0 {
            "Press 'i' to install "@ + decimal(missing) + " missing tool(s)"@
        } else {
            "All tools installed ✓"@
        },
        if untracked > 0 {
            Some("Press 'a' to add "@ + decimal(untracked) + " untracked tool(s) to Available"@)
        } else {
            None
        },
    )
}

/// The hints under a bundle's contents (see `spec_bundle_hints`);
/// `known` is what the database says of each of its tools.
pub fn bundle_hints(known: &Vec<Option<bool>>) -> (r: (String, Option<String>))
    ensures
        (r.0@, match r.1 {
            Some(h) => Some(h@),
            None => None,
        }) == spec_bundle_hints(known@),
{
    let mut untracked: usize = 0;
    let mut not_installed: usize = 0;
    let mut i: usize = 0;
    while i < known.len()
        invariant
            i <= known@.len(),
            untracked == count_known(known@.take(i as int), None),
            not_installed == count_known(known@.take(i as int), Some(false)),
            untracked + not_installed <= i,
        decreases known@.len() - i,
    {
        assert(known@.take(i + 1).drop_last() =~= known@.take(i as int));
        match known[i] {
            None => untracked += 1,
            Some(false) => not_installed += 1,
            Some(true) => {},
        }
        i += 1;
    }
    assert(known@.take(known@.len() as int) =~= known@);
    let missing = untracked + not_installed;
    let install = if missing > 0 {
        let mut t = String::from_str("Press 'i' to install ");
        t.append(usize_to_string(missing).as_str());
        t.append(" missing tool(s)");
        t
    } else {
        String::from_str("All tools installed ✓")
    };
    let add = if untracked > 0 {
        let mut t = String::from_str("Press 'a' to add ");
        t.append(usize_to_string(untracked).as_str());
        t.append(" untracked tool(s) to Available");
        Some(t)
    } else {
        None
    };
    (install, add)
}

} // verus!

