//! Update records and the decisions behind cross-source upgrades: which
//! registry to ask about an apt/snap tool, and whether its answer is an
//! upgrade.

use vstd::prelude::*;
use crate::json::{as_text, get, json_get, json_str, parse_json, parsed_json, Json};
use crate::pending::LoadingProgress;
use crate::text::{decimal, str_eq, usize_to_string, views_of};
use crate::tools::contains_text;
use crate::types::package_managers;
use crate::version::{
    kept_versions, newer_stable_versions, sort_versions, string_views, version_is_newer,
    version_newer,
};

verus! {

/// An available update.
#[derive(Debug)]
pub struct Update {
    pub name: String,
    pub current: String,
    pub latest: String,
    pub source: String,
}

/// A potential upgrade by switching sources.
#[derive(Debug)]
pub struct CrossSourceUpgrade {
    pub name: String,
    pub current_version: String,
    pub current_source: String,
    pub better_version: String,
    pub better_source: String,
}

/// The registries asked about apt/snap tools, in the order they are tried.
#[derive(Debug, Clone, Copy, PartialEq, Eq, Structural)]
pub enum Registry {
    CratesIo,
    PyPI,
    Npm,
}

impl Registry {
    /// Position in the order of lookups.
    pub open spec fn rank(self) -> int {
        match self {
            Registry::CratesIo => 0,
            Registry::PyPI => 1,
            Registry::Npm => 2,
        }
    }

    /// Name of the package source the registry serves.
    pub open spec fn spec_source(self) -> Seq<char> {
        match self {
            Registry::CratesIo => "cargo"@,
            Registry::PyPI => "pip"@,
            Registry::Npm => "npm"@,
        }
    }

    pub fn source(&self) -> (r: &'static str)
        ensures
            r@ == self.spec_source(),
    {
        match self {
            Registry::CratesIo => "cargo",
            Registry::PyPI => "pip",
            Registry::Npm => "npm",
        }
    }
}

/// Crate name of a known apt package.
pub open spec fn cargo_name_for(n: Seq<char>) -> Option<Seq<char>> {
    if n == "bat"@ {
        Some("bat"@)
    } else if n == "fd-find"@ {
        Some("fd-find"@)
    } else if n == "ripgrep"@ {
        Some("ripgrep"@)
    } else if n == "exa"@ || n == "eza"@ {
        Some("eza"@)
    } else if n == "dust"@ {
        Some("du-dust"@)
    } else if n == "procs"@ {
        Some("procs"@)
    } else if n == "bottom"@ {
        Some("bottom"@)
    } else if n == "zoxide"@ {
        Some("zoxide"@)
    } else if n == "starship"@ {
        Some("starship"@)
    } else if n == "delta"@ || n == "git-delta"@ {
        Some("git-delta"@)
    } else if n == "tokei"@ {
        Some("tokei"@)
    } else if n == "hyperfine"@ {
        Some("hyperfine"@)
    } else if n == "just"@ {
        Some("just"@)
    } else if n == "sd"@ {
        Some("sd"@)
    } else if n == "tealdeer"@ || n == "tldr"@ {
        Some("tealdeer"@)
    } else if n == "gitui"@ {
        Some("gitui"@)
    } else if n == "zellij"@ {
        Some("zellij"@)
    } else if n == "helix"@ || n == "hx"@ {
        Some("helix"@)
    } else if n == "alacritty"@ {
        Some("alacritty"@)
    } else {
        None
    }
}

/// Pip package name of a known apt package.
pub open spec fn pip_name_for(n: Seq<char>) -> Option<Seq<char>> {
    if n == "httpie"@ {
        Some("httpie"@)
    } else if n == "youtube-dl"@ {
        Some("youtube-dl"@)
    } else if n == "yt-dlp"@ {
        Some("yt-dlp"@)
    } else if n == "black"@ {
        Some("black"@)
    } else if n == "ruff"@ {
        Some("ruff"@)
    } else if n == "mypy"@ {
        Some("mypy"@)
    } else if n == "pylint"@ {
        Some("pylint"@)
    } else if n == "ansible"@ {
        Some("ansible"@)
    } else {
        None
    }
}

/// Npm package name of a known apt package.
pub open spec fn npm_name_for(n: Seq<char>) -> Option<Seq<char>> {
    if n == "prettier"@ {
        Some("prettier"@)
    } else if n == "eslint"@ {
        Some("eslint"@)
    } else if n == "typescript"@ {
        Some("typescript"@)
    } else {
        None
    }
}

/// Characters of an optional static name.
pub open spec fn opt_view(o: Option<&str>) -> Option<Seq<char>> {
    match o {
        Some(s) => Some(s@),
        None => None,
    }
}

/// Known mappings from apt package names to cargo crate names.
pub fn apt_to_cargo_name(apt_name: &str) -> (r: Option<&'static str>)
    ensures
        opt_view(r) == cargo_name_for(apt_name@),
{
    let n = apt_name;
    if str_eq(n, "bat") {
        Some("bat")
    } else if str_eq(n, "fd-find") {
        Some("fd-find")
    } else if str_eq(n, "ripgrep") {
        Some("ripgrep")
    } else if str_eq(n, "exa") || str_eq(n, "eza") {
        Some("eza")
    } else if str_eq(n, "dust") {
        Some("du-dust")
    } else if str_eq(n, "procs") {
        Some("procs")
    } else if str_eq(n, "bottom") {
        Some("bottom")
    } else if str_eq(n, "zoxide") {
        Some("zoxide")
    } else if str_eq(n, "starship") {
        Some("starship")
    } else if str_eq(n, "delta") || str_eq(n, "git-delta") {
        Some("git-delta")
    } else if str_eq(n, "tokei") {
        Some("tokei")
    } else if str_eq(n, "hyperfine") {
        Some("hyperfine")
    } else if str_eq(n, "just") {
        Some("just")
    } else if str_eq(n, "sd") {
        Some("sd")
    } else if str_eq(n, "tealdeer") || str_eq(n, "tldr") {
        Some("tealdeer")
    } else if str_eq(n, "gitui") {
        Some("gitui")
    } else if str_eq(n, "zellij") {
        Some("zellij")
    } else if str_eq(n, "helix") || str_eq(n, "hx") {
        Some("helix")
    } else if str_eq(n, "alacritty") {
        Some("alacritty")
    } else {
        None
    }
}

/// Known mappings from apt package names to pip package names.
pub fn apt_to_pip_name(apt_name: &str) -> (r: Option<&'static str>)
    ensures
        opt_view(r) == pip_name_for(apt_name@),
{
    let n = apt_name;
    if str_eq(n, "httpie") {
        Some("httpie")
    } else if str_eq(n, "youtube-dl") {
        Some("youtube-dl")
    } else if str_eq(n, "yt-dlp") {
        Some("yt-dlp")
    } else if str_eq(n, "black") {
        Some("black")
    } else if str_eq(n, "ruff") {
        Some("ruff")
    } else if str_eq(n, "mypy") {
        Some("mypy")
    } else if str_eq(n, "pylint") {
        Some("pylint")
    } else if str_eq(n, "ansible") {
        Some("ansible")
    } else {
        None
    }
}

/// Known mappings from apt package names to npm package names.
pub fn apt_to_npm_name(apt_name: &str) -> (r: Option<&'static str>)
    ensures
        opt_view(r) == npm_name_for(apt_name@),
{
    let n = apt_name;
    if str_eq(n, "prettier") {
        Some("prettier")
    } else if str_eq(n, "eslint") {
        Some("eslint")
    } else if str_eq(n, "typescript") {
        Some("typescript")
    } else {
        None
    }
}

/// Package name of `name` in `registry`, if it is known there.
pub open spec fn registry_name_for(registry: Registry, name: Seq<char>) -> Option<Seq<char>> {
    match registry {
        Registry::CratesIo => cargo_name_for(name),
        Registry::PyPI => pip_name_for(name),
        Registry::Npm => npm_name_for(name),
    }
}

/// Only apt and snap tools are checked for cross-source upgrades.
pub open spec fn migratable_source(source: Seq<char>) -> bool {
    source == "apt"@ || source == "snap"@
}

/// The registry of the given rank.
pub open spec fn registry_of_rank(k: int) -> Registry {
    if k == 0 {
        Registry::CratesIo
    } else if k == 1 {
        Registry::PyPI
    } else {
        Registry::Npm
    }
}

/// Whether the lookup of rank `k` is due for this tool.
pub open spec fn lookup_due(name: Seq<char>, source: Seq<char>, k: int) -> bool {
    migratable_source(source) && registry_name_for(registry_of_rank(k), name) is Some
}

/// The next registry to ask, with the package name to ask for: the first
/// registry of rank above `after` (or of any rank, at the start) in which
/// the tool has a known name; `None` when there is none or the tool is not
/// from apt or snap.
pub open spec fn spec_next_lookup(name: Seq<char>, source: Seq<char>, after: Option<Registry>) -> Option<
    (Registry, Seq<char>),
> {
    let start: int = match after {
        Some(r) => r.rank() + 1,
        None => 0,
    };
    if !migratable_source(source) {
        None
    } else if start <= 0 && lookup_due(name, source, 0) {
        Some((Registry::CratesIo, cargo_name_for(name)->0))
    } else if start <= 1 && lookup_due(name, source, 1) {
        Some((Registry::PyPI, pip_name_for(name)->0))
    } else if start <= 2 && lookup_due(name, source, 2) {
        Some((Registry::Npm, npm_name_for(name)->0))
    } else {
        None
    }
}

/// Characters of a lookup.
pub open spec fn lookup_view(o: Option<(Registry, &str)>) -> Option<(Registry, Seq<char>)> {
    match o {
        Some((r, s)) => Some((r, s@)),
        None => None,
    }
}

/// The next registry lookup for a tool during a cross-source upgrade
/// check; `after` is the registry asked last (`None` at the start).
pub fn next_registry_lookup(name: &str, current_source: &str, after: Option<Registry>) -> (r: Option<
    (Registry, &'static str),
>)
    ensures
        lookup_view(r) == spec_next_lookup(name@, current_source@, after),
{
    if !str_eq(current_source, "apt") && !str_eq(current_source, "snap") {
        return None;
    }
    let start: u8 = match after {
        Some(Registry::CratesIo) => 1,
        Some(Registry::PyPI) => 2,
        Some(Registry::Npm) => 3,
        None => 0,
    };
    if start <= 0 {
        if let Some(n) = apt_to_cargo_name(name) {
            return Some((Registry::CratesIo, n));
        }
    }
    if start <= 1 {
        if let Some(n) = apt_to_pip_name(name) {
            return Some((Registry::PyPI, n));
        }
    }
    if start <= 2 {
        if let Some(n) = apt_to_npm_name(name) {
            return Some((Registry::Npm, n));
        }
    }
    None
}

/// Plain view of an upgrade.
pub struct UpgradeView {
    pub name: Seq<char>,
    pub current_version: Seq<char>,
    pub current_source: Seq<char>,
    pub better_version: Seq<char>,
    pub better_source: Seq<char>,
}

impl CrossSourceUpgrade {
    pub open spec fn view(&self) -> UpgradeView {
        UpgradeView {
            name: self.name@,
            current_version: self.current_version@,
            current_source: self.current_source@,
            better_version: self.better_version@,
            better_source: self.better_source@,
        }
    }
}

/// The upgrade that the answer `latest` of `registry` offers a tool, if it
/// is newer than the installed version.
pub open spec fn spec_upgrade(
    name: Seq<char>,
    current_version: Seq<char>,
    current_source: Seq<char>,
    registry: Registry,
    latest: Option<Seq<char>>,
) -> Option<UpgradeView> {
    match latest {
        Some(v) => if version_newer(v, current_version) {
            Some(
                UpgradeView {
                    name,
                    current_version,
                    current_source,
                    better_version: v,
                    better_source: registry.spec_source(),
                },
            )
        } else {
            None
        },
        None => None,
    }
}

/// View of an optional upgrade.
pub open spec fn upgrade_view(o: Option<CrossSourceUpgrade>) -> Option<UpgradeView> {
    match o {
        Some(u) => Some(u.view()),
        None => None,
    }
}

/// Characters of an optional string.
pub open spec fn opt_string_view(o: Option<String>) -> Option<Seq<char>> {
    match o {
        Some(s) => Some(s@),
        None => None,
    }
}

/// The upgrade offered by the latest version that `registry` reported for
/// a tool (`None` when the registry had no answer).
pub fn upgrade_from_lookup(
    name: &str,
    current_version: &str,
    current_source: &str,
    registry: Registry,
    latest: Option<String>,
) -> (r: Option<CrossSourceUpgrade>)
    ensures
        upgrade_view(r) == spec_upgrade(
            name@,
            current_version@,
            current_source@,
            registry,
            opt_string_view(latest),
        ),
{
    match latest {
        Some(v) => {
            if version_is_newer(v.as_str(), current_version) {
                Some(
                    CrossSourceUpgrade {
                        name: name.to_owned(),
                        current_version: current_version.to_owned(),
                        current_source: current_source.to_owned(),
                        better_version: v,
                        better_source: registry.source().to_owned(),
                    },
                )
            } else {
                None
            }
        },
        None => None,
    }
}

/// Whether an upgrade passes the optional source filters.
pub open spec fn passes_filters(u: UpgradeView, from: Option<Seq<char>>, to: Option<Seq<char>>) -> bool {
    &&& (from is Some ==> u.current_source == from->0)
    &&& (to is Some ==> u.better_source == to->0)
}

/// The upgrades that pass the filters, in order.
pub open spec fn filtered_upgrades(
    s: Seq<UpgradeView>,
    from: Option<Seq<char>>,
    to: Option<Seq<char>>,
) -> Seq<UpgradeView>
    decreases s.len(),
{
    if s.len() == 0 {
        s
    } else if passes_filters(s.last(), from, to) {
        filtered_upgrades(s.drop_last(), from, to).push(s.last())
    } else {
        filtered_upgrades(s.drop_last(), from, to)
    }
}

/// Views of upgrades.
pub open spec fn upgrade_views(s: Seq<CrossSourceUpgrade>) -> Seq<UpgradeView> {
    s.map_values(|u: CrossSourceUpgrade| u.view())
}

/// Keep the migration candidates coming from source `from_source` and
/// going to source `to_source`, where those are given.
pub fn filter_migration_candidates(
    upgrades: Vec<CrossSourceUpgrade>,
    from_source: Option<&str>,
    to_source: Option<&str>,
) -> (r: Vec<CrossSourceUpgrade>)
    ensures
        upgrade_views(r@) == filtered_upgrades(
            upgrade_views(upgrades@),
            opt_view(from_source),
            opt_view(to_source),
        ),
{
    let ghost all = upgrade_views(upgrades@);
    let mut kept: Vec<CrossSourceUpgrade> = Vec::new();
    for u in it: upgrades
        invariant
            it.seq() == upgrades@,
            all == upgrade_views(upgrades@),
            upgrade_views(kept@) == filtered_upgrades(
                all.take(it.index() as int),
                opt_view(from_source),
                opt_view(to_source),
            ),
    {
        proof {
            assert(all.take(it.index() + 1).drop_last() =~= all.take(it.index() as int));
            assert(all.take(it.index() + 1).last() == u.view());
        }
        let from_ok = match from_source {
            Some(f) => str_eq(u.current_source.as_str(), f),
            None => true,
        };
        let to_ok = match to_source {
            Some(t) => str_eq(u.better_source.as_str(), t),
            None => true,
        };
        if from_ok && to_ok {
            let ghost before = kept@;
            let ghost uv = u.view();
            kept.push(u);
            assert(upgrade_views(kept@) =~= upgrade_views(before).push(uv));
        }
    }
    assert(all.take(all.len() as int) =~= all);
    kept
}

/// Where the lookups of a tool start: after the registry asked last.
pub open spec fn lookup_start(after: Option<Registry>) -> int {
    match after {
        Some(r) => r.rank() + 1,
        None => 0,
    }
}

/// The upgrade found for one tool by asking the registries in order from
/// after `after`: the first registry whose latest version is newer; the
/// search stops there (as `next_registry_lookup` and `lookup_outcome`
/// decide step by step). `latest(r, p)` is the latest version registry `r`
/// reports for package `p`, if any. The registry `spec_next_lookup` gives
/// always ranks after `after`; the rank test only makes the recursion
/// visibly finite.
pub open spec fn tool_upgrade(
    name: Seq<char>,
    version: Seq<char>,
    source: Seq<char>,
    after: Option<Registry>,
    latest: spec_fn(Registry, Seq<char>) -> Option<Seq<char>>,
) -> Option<UpgradeView>
    decreases 3 - lookup_start(after),
{
    match spec_next_lookup(name, source, after) {
        None => None,
        Some((registry, package)) => {
            if registry.rank() >= lookup_start(after) && lookup_start(after) <= 2 {
                match spec_upgrade(name, version, source, registry, latest(registry, package)) {
                    Some(u) => Some(u),
                    None => tool_upgrade(name, version, source, Some(registry), latest),
                }
            } else {
                None
            }
        },
    }
}

/// The cross-source upgrades of the tools (name, installed version,
/// source), in their order, given the registries' answers `latest`.
pub open spec fn cross_source_upgrades(
    tools: Seq<(Seq<char>, Seq<char>, Seq<char>)>,
    latest: spec_fn(Registry, Seq<char>) -> Option<Seq<char>>,
) -> Seq<UpgradeView>
    decreases tools.len(),
{
    if tools.len() == 0 {
        seq![]
    } else {
        let rest = cross_source_upgrades(tools.drop_last(), latest);
        let t = tools.last();
        match tool_upgrade(t.0, t.1, t.2, None, latest) {
            Some(u) => rest.push(u),
            None => rest,
        }
    }
}

/// The migration candidates: the cross-source upgrades that pass the
/// optional source filters, in order (see `filter_migration_candidates`).
pub open spec fn migration_candidates(
    tools: Seq<(Seq<char>, Seq<char>, Seq<char>)>,
    from: Option<Seq<char>>,
    to: Option<Seq<char>>,
    latest: spec_fn(Registry, Seq<char>) -> Option<Seq<char>>,
) -> Seq<UpgradeView> {
    filtered_upgrades(cross_source_upgrades(tools, latest), from, to)
}

/// Every upgrade found for a tool moves it from apt or snap to cargo, pip
/// or npm.
proof fn lemma_tool_upgrade_sources(
    name: Seq<char>,
    version: Seq<char>,
    source: Seq<char>,
    after: Option<Registry>,
    latest: spec_fn(Registry, Seq<char>) -> Option<Seq<char>>,
)
    ensures
        tool_upgrade(name, version, source, after, latest) matches Some(u) ==> {
            &&& migratable_source(u.current_source)
            &&& (u.better_source == "cargo"@ || u.better_source == "pip"@ || u.better_source
                == "npm"@)
        },
    decreases 3 - lookup_start(after),
{
    match spec_next_lookup(name, source, after) {
        None => {},
        Some((registry, package)) => {
            if registry.rank() >= lookup_start(after) && lookup_start(after) <= 2 {
                if spec_upgrade(name, version, source, registry, latest(registry, package)) is None {
                    lemma_tool_upgrade_sources(name, version, source, Some(registry), latest);
                }
            }
        },
    }
}

/// Cross-source upgrades only move tools installed with apt or snap, and
/// only to cargo, pip or npm.
pub proof fn law_upgrades_leave_apt_or_snap(
    tools: Seq<(Seq<char>, Seq<char>, Seq<char>)>,
    latest: spec_fn(Registry, Seq<char>) -> Option<Seq<char>>,
)
    ensures
        forall|i: int|
            0 <= i < cross_source_upgrades(tools, latest).len() ==> {
                let u = #[trigger] cross_source_upgrades(tools, latest)[i];
                &&& migratable_source(u.current_source)
                &&& (u.better_source == "cargo"@ || u.better_source == "pip"@ || u.better_source
                    == "npm"@)
            },
    decreases tools.len(),
{
    if tools.len() > 0 {
        law_upgrades_leave_apt_or_snap(tools.drop_last(), latest);
        let t = tools.last();
        lemma_tool_upgrade_sources(t.0, t.1, t.2, None, latest);
        let rest = cross_source_upgrades(tools.drop_last(), latest);
        assert forall|i: int| 0 <= i < rest.len() implies #[trigger] cross_source_upgrades(
            tools,
            latest,
        )[i] == rest[i] by {}
    }
}

/// The filtered upgrades are among the upgrades and pass the filters.
proof fn lemma_filtered_pass(s: Seq<UpgradeView>, from: Option<Seq<char>>, to: Option<Seq<char>>)
    ensures
        forall|i: int|
            0 <= i < filtered_upgrades(s, from, to).len() ==> {
                let u = #[trigger] filtered_upgrades(s, from, to)[i];
                passes_filters(u, from, to) && s.contains(u)
            },
    decreases s.len(),
{
    if s.len() > 0 {
        lemma_filtered_pass(s.drop_last(), from, to);
        let rest = filtered_upgrades(s.drop_last(), from, to);
        assert forall|i: int| 0 <= i < filtered_upgrades(s, from, to).len() implies {
            let u = #[trigger] filtered_upgrades(s, from, to)[i];
            passes_filters(u, from, to) && s.contains(u)
        } by {
            let u = filtered_upgrades(s, from, to)[i];
            if i < rest.len() {
                assert(u == rest[i]);
                let j = choose|j: int| 0 <= j < s.drop_last().len() && s.drop_last()[j] == u;
                assert(s[j] == u);
            } else {
                assert(u == s.last());
                assert(s[s.len() - 1] == u);
            }
        }
    }
}

/// Migration candidates asked for from a source other than apt or snap
/// (such as cargo), or for a source other than cargo, pip or npm, are
/// always none, whatever the registries answer.
pub proof fn law_no_candidates_outside_the_sources(
    tools: Seq<(Seq<char>, Seq<char>, Seq<char>)>,
    from: Option<Seq<char>>,
    to: Option<Seq<char>>,
    latest: spec_fn(Registry, Seq<char>) -> Option<Seq<char>>,
)
    requires
        (from matches Some(f) && !migratable_source(f)) || (to matches Some(t) && t != "cargo"@
            && t != "pip"@ && t != "npm"@),
    ensures
        migration_candidates(tools, from, to, latest).len() == 0,
{
    let all = cross_source_upgrades(tools, latest);
    law_upgrades_leave_apt_or_snap(tools, latest);
    lemma_filtered_pass(all, from, to);
    let c = migration_candidates(tools, from, to, latest);
    if c.len() > 0 {
        let u = c[0];
        assert(passes_filters(u, from, to) && all.contains(u));
        let j = choose|j: int| 0 <= j < all.len() && all[j] == u;
        assert(all[j] == u);
    }
}

/// What looking up a tool in one registry led to.
#[derive(Debug)]
pub enum LookupOutcome {
    /// The registry has a newer version: this upgrade, and the tool is done.
    Found(CrossSourceUpgrade),
    /// No upgrade there: the next lookup for the tool, if any remains.
    Next(Option<(Registry, &'static str)>),
}

/// After asking `registry` about an apt/snap tool and getting `latest`:
/// the upgrade if it is newer, else the next registry to ask.
pub fn lookup_outcome(
    name: &str,
    current_version: &str,
    current_source: &str,
    registry: Registry,
    latest: Option<String>,
) -> (r: LookupOutcome)
    ensures
        match r {
            LookupOutcome::Found(u) => spec_upgrade(
                name@,
                current_version@,
                current_source@,
                registry,
                opt_string_view(latest),
            ) == Some(u.view()),
            LookupOutcome::Next(n) => spec_upgrade(
                name@,
                current_version@,
                current_source@,
                registry,
                opt_string_view(latest),
            ) is None && lookup_view(n) == spec_next_lookup(name@, current_source@, Some(registry)),
        },
{
    match upgrade_from_lookup(name, current_version, current_source, registry, latest) {
        Some(u) => LookupOutcome::Found(u),
        None => LookupOutcome::Next(next_registry_lookup(name, current_source, Some(registry))),
    }
}

/// Where the installed version of a tool is read, by its source.
#[derive(Debug, Clone, Copy, PartialEq, Eq, Structural)]
pub enum VersionQuery {
    /// `cargo install --list`.
    Cargo,
    /// `pip show`.
    Pip,
    /// `npm list -g`.
    Npm,
    /// `dpkg-query`.
    Apt,
}

pub open spec fn spec_version_query(source: Seq<char>) -> Option<VersionQuery> {
    if source == "cargo"@ {
        Some(VersionQuery::Cargo)
    } else if source == "pip"@ {
        Some(VersionQuery::Pip)
    } else if source == "npm"@ {
        Some(VersionQuery::Npm)
    } else if source == "apt"@ {
        Some(VersionQuery::Apt)
    } else {
        None
    }
}

/// How the installed version of a tool from `source` is found; other
/// sources have none.
pub fn installed_version_query(source: &str) -> (r: Option<VersionQuery>)
    ensures
        r == spec_version_query(source@),
{
    if str_eq(source, "cargo") {
        Some(VersionQuery::Cargo)
    } else if str_eq(source, "pip") {
        Some(VersionQuery::Pip)
    } else if str_eq(source, "npm") {
        Some(VersionQuery::Npm)
    } else if str_eq(source, "apt") {
        Some(VersionQuery::Apt)
    } else {
        None
    }
}

pub open spec fn spec_versions_registry(source: Seq<char>) -> Option<Registry> {
    if source == "cargo"@ {
        Some(Registry::CratesIo)
    } else if source == "pip"@ {
        Some(Registry::PyPI)
    } else if source == "npm"@ {
        Some(Registry::Npm)
    } else {
        None
    }
}

/// The registry that lists the versions of a tool from `source`; other
/// sources list none.
pub fn available_versions_registry(source: &str) -> (r: Option<Registry>)
    ensures
        r == spec_versions_registry(source@),
{
    if str_eq(source, "cargo") {
        Some(Registry::CratesIo)
    } else if str_eq(source, "pip") {
        Some(Registry::PyPI)
    } else if str_eq(source, "npm") {
        Some(Registry::Npm)
    } else {
        None
    }
}

/// The latest version in a crates.io crate document: `crate.max_stable_version`,
/// else `crate.max_version`.
pub open spec fn spec_crates_io_latest(j: Option<Json>) -> Option<Seq<char>> {
    let c = json_get(j, "crate"@);
    match json_str(json_get(c, "max_stable_version"@)) {
        Some(v) => Some(v),
        None => json_str(json_get(c, "max_version"@)),
    }
}

/// The latest version in crates.io's answer about a crate.
pub fn crates_io_latest_from(body: &[u8]) -> (r: Option<String>)
    ensures
        opt_string_view(r) == spec_crates_io_latest(parsed_json(body@)),
{
    let json = parse_json(body);
    let c = get(json.as_ref(), "crate");
    match as_text(get(c, "max_stable_version")) {
        Some(v) => Some(v.clone()),
        None => match as_text(get(c, "max_version")) {
            Some(v) => Some(v.clone()),
            None => None,
        },
    }
}

/// The latest version in PyPI's answer about a package: `info.version`.
pub fn pypi_latest_from(body: &[u8]) -> (r: Option<String>)
    ensures
        opt_string_view(r) == json_str(json_get(json_get(parsed_json(body@), "info"@), "version"@)),
{
    let json = parse_json(body);
    match as_text(get(get(json.as_ref(), "info"), "version")) {
        Some(v) => Some(v.clone()),
        None => None,
    }
}

/// The elements of an array, none for anything else.
pub open spec fn json_items(j: Option<Json>) -> Seq<Json> {
    match j {
        Some(Json::Array(a)) => a@,
        _ => seq![],
    }
}

/// The member names of an object, none for anything else.
pub open spec fn json_keys(j: Option<Json>) -> Seq<Seq<char>> {
    match j {
        Some(Json::Object(keys, _)) => views_of(keys@),
        _ => seq![],
    }
}

/// The strings among the items, in order.
pub open spec fn item_strs(items: Seq<Json>) -> Seq<Seq<char>>
    decreases items.len(),
{
    if items.len() == 0 {
        seq![]
    } else {
        match json_str(Some(items.last())) {
            Some(s) => item_strs(items.drop_last()).push(s),
            None => item_strs(items.drop_last()),
        }
    }
}

/// The `num` strings of the items, in order.
pub open spec fn item_nums(items: Seq<Json>) -> Seq<Seq<char>>
    decreases items.len(),
{
    if items.len() == 0 {
        seq![]
    } else {
        match json_str(json_get(Some(items.last()), "num"@)) {
            Some(s) => item_nums(items.drop_last()).push(s),
            None => item_nums(items.drop_last()),
        }
    }
}

/// Version strings picked from array items: the items themselves, or
/// their `num` member.
fn pick_versions(items: &Vec<Json>, by_num: bool) -> (r: Vec<String>)
    ensures
        by_num ==> string_views(r@) == item_nums(items@),
        !by_num ==> string_views(r@) == item_strs(items@),
{
    let mut out: Vec<String> = Vec::new();
    let mut i: usize = 0;
    while i < items.len()
        invariant
            i <= items@.len(),
            by_num ==> string_views(out@) == item_nums(items@.take(i as int)),
            !by_num ==> string_views(out@) == item_strs(items@.take(i as int)),
        decreases items@.len() - i,
    {
        assert(items@.take(i + 1).drop_last() =~= items@.take(i as int));
        assert(items@.take(i + 1).last() == items@[i as int]);
        let item = Some(&items[i]);
        let picked = if by_num {
            as_text(get(item, "num"))
        } else {
            as_text(item)
        };
        match picked {
            Some(v) => {
                let ghost before = out@;
                out.push(v.clone());
                assert(string_views(out@) =~= string_views(before).push(v@));
            },
            None => {},
        }
        i += 1;
    }
    assert(items@.take(items@.len() as int) =~= items@);
    out
}

/// The stable versions newer than `current` in crates.io's answer about a
/// crate (the `num` of each of its `versions`), oldest first.
pub fn crates_io_versions_from(body: &[u8], current: &str) -> (r: Vec<String>)
    ensures
        string_views(r@) == sort_versions(
            kept_versions(
                item_nums(json_items(json_get(parsed_json(body@), "versions"@))),
                current@,
            ),
        ),
{
    let json = parse_json(body);
    let nums = match get(json.as_ref(), "versions") {
        Some(Json::Array(items)) => pick_versions(items, true),
        _ => Vec::new(),
    };
    assert(string_views(nums@) =~= item_nums(json_items(json_get(parsed_json(body@), "versions"@))))
        by {
        if !(json_get(parsed_json(body@), "versions"@) matches Some(Json::Array(_))) {
            assert(json_items(json_get(parsed_json(body@), "versions"@)) =~= Seq::<Json>::empty());
        }
    }
    newer_stable_versions(nums, current)
}

/// The stable versions newer than `current` in PyPI's answer about a
/// package (the names of its `releases`), oldest first.
pub fn pypi_versions_from(body: &[u8], current: &str) -> (r: Vec<String>)
    ensures
        string_views(r@) == sort_versions(
            kept_versions(json_keys(json_get(parsed_json(body@), "releases"@)), current@),
        ),
{
    let json = parse_json(body);
    let mut names: Vec<String> = Vec::new();
    match get(json.as_ref(), "releases") {
        Some(Json::Object(keys, _)) => {
            let mut i: usize = 0;
            while i < keys.len()
                invariant
                    i <= keys@.len(),
                    string_views(names@) == views_of(keys@).take(i as int),
                decreases keys@.len() - i,
            {
                let ghost before = names@;
                names.push(keys[i].clone());
                assert(string_views(names@) =~= string_views(before).push(keys@[i as int]@));
                assert(views_of(keys@).take(i + 1) =~= views_of(keys@).take(i as int).push(
                    keys@[i as int]@,
                ));
                i += 1;
            }
            assert(views_of(keys@).take(keys@.len() as int) =~= views_of(keys@));
        },
        _ => {
            assert(string_views(names@) =~= Seq::<Seq<char>>::empty());
        },
    }
    newer_stable_versions(names, current)
}

/// The stable versions newer than `current` in `npm view --json`'s list
/// of versions, oldest first.
pub fn npm_versions_from(body: &[u8], current: &str) -> (r: Vec<String>)
    ensures
        string_views(r@) == sort_versions(
            kept_versions(item_strs(json_items(parsed_json(body@))), current@),
        ),
{
    let json = parse_json(body);
    let versions = match &json {
        Some(Json::Array(items)) => pick_versions(items, false),
        _ => Vec::new(),
    };
    assert(string_views(versions@) =~= item_strs(json_items(parsed_json(body@)))) by {
        if !(parsed_json(body@) matches Some(Json::Array(_))) {
            assert(json_items(parsed_json(body@)) =~= Seq::<Json>::empty());
        }
    }
    newer_stable_versions(versions, current)
}

/// Number of package managers checked for updates, one per step.
pub const UPDATE_CHECK_STEPS: usize = 5;

/// The display name of the package manager checked at a step.
pub open spec fn manager_title(step: int) -> Seq<char> {
    if step == 0 {
        "Cargo (Rust)"@
    } else if step == 1 {
        "pip (Python)"@
    } else if step == 2 {
        "npm (Node.js)"@
    } else if step == 3 {
        "apt (Debian/Ubuntu)"@
    } else {
        "Homebrew"@
    }
}

/// The progress shown while step `step` of an update check runs, with
/// `found` updates found so far.
pub fn update_check_progress(step: usize, found: usize) -> (r: LoadingProgress)
    requires
        step < UPDATE_CHECK_STEPS,
    ensures
        r.current_step == step + 1,
        r.total_steps == UPDATE_CHECK_STEPS,
        r.step_name@ == manager_title(step as int),
        r.found_count == found,
{
    let managers = package_managers();
    LoadingProgress {
        current_step: step + 1,
        total_steps: managers.len(),
        step_name: managers[step].1.to_owned(),
        found_count: found,
    }
}

/// The updates of tools the user keeps in the list, in order.
pub open spec fn watched_only(updates: Seq<Update>, watched: Seq<Seq<char>>) -> Seq<Update>
    decreases updates.len(),
{
    if updates.len() == 0 {
        updates
    } else {
        (if watched.contains(updates[0].name@) {
            seq![updates[0]]
        } else {
            Seq::empty()
        }) + watched_only(updates.drop_first(), watched)
    }
}

/// The updates found by a checker that concern tools in the list
/// (`watched`), in order.
pub fn watched_updates(updates: Vec<Update>, watched: &Vec<String>) -> (r: Vec<Update>)
    ensures
        r@ == watched_only(updates@, views_of(watched@)),
{
    let ghost all = updates@;
    let ghost names = views_of(watched@);
    let mut rest = updates;
    let mut kept: Vec<Update> = Vec::new();
    while rest.len() > 0
        invariant
            names == views_of(watched@),
            kept@ + watched_only(rest@, names) == watched_only(all, names),
        decreases rest@.len(),
    {
        let ghost before = rest@;
        let u = rest.remove(0);
        assert(rest@ =~= before.drop_first());
        if contains_text(watched, u.name.as_str()) {
            let ghost k = kept@;
            kept.push(u);
            assert(kept@ + watched_only(rest@, names) =~= k + watched_only(before, names));
        } else {
            assert(watched_only(before, names) =~= watched_only(rest@, names));
        }
    }
    assert(watched_only(rest@, names) =~= Seq::<Update>::empty());
    assert(kept@ + Seq::<Update>::empty() =~= kept@);
    kept
}

/// The step of an update check after `step`, if there is one.
pub fn next_update_check(step: usize) -> (r: Option<usize>)
    ensures
        r == (if step + 1 < UPDATE_CHECK_STEPS {
            Some((step + 1) as usize)
        } else {
            None::<usize>
        }),
{
    if step < UPDATE_CHECK_STEPS - 1 {
        Some(step + 1)
    } else {
        None
    }
}

/// The status line at the end of an update check that found `count`
/// updates.
pub open spec fn spec_update_check_status(count: nat) -> Seq<char> {
    if count == 0 {
        "All tools are up to date!"@
    } else {
        decimal(count) + " update(s) available"@
    }
}

/// The status line at the end of an update check (see
/// `spec_update_check_status`).
pub fn update_check_status(count: usize) -> (r: String)
    ensures
        r@ == spec_update_check_status(count as nat),
{
    if count == 0 {
        proof {
            reveal_strlit("All tools are up to date!");
        }
        String::from_str("All tools are up to date!")
    } else {
        let mut s = usize_to_string(count);
        s.append(" update(s) available");
        proof {
            reveal_strlit(" update(s) available");
        }
        s
    }
}

} // verus!

