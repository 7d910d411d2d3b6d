//! Reading what package managers print: installed crates and their
//! versions, upgradable apt packages, `pip show` versions, and the JSON
//! reports of outdated pip, npm and brew packages.

use vstd::prelude::*;
use vstd::string::StringSliceAdditionalSpecFns;
use crate::text::{
    chars_of, is_prefix, lines, split_lines, split_words, str_eq, strip_end, strip_leading, strip_matches,
    strip_trailing, trim, trim_str, views_of, words,
};
use crate::json::{as_text, get, json_get, json_str, opt_json, parse_json, parsed_json, Json};
use crate::updates::Update;
use crate::version::{version_is_newer, version_newer};

verus! {

/// A line that lists an installed crate (binary lines are indented).
pub open spec fn is_crate_line(line: Seq<char>) -> bool {
    !(line.len() > 0 && line[0] == ' ')
}

/// "v1.2.3:" as printed after a crate name, without the 'v's and ':'s.
pub open spec fn clean_version(v: Seq<char>) -> Seq<char> {
    strip_trailing(strip_leading(v, 'v'), ':')
}

/// Crates read so far from `cargo install --list`, and the last crate
/// line seen that no binary line has followed yet.
pub struct CargoAcc {
    pub found: Seq<(Seq<char>, Seq<char>)>,
    pub pending: Option<(Seq<char>, Seq<char>)>,
}

/// Reading the first `n` lines.
pub open spec fn cargo_acc(ls: Seq<Seq<char>>, n: nat) -> CargoAcc
    decreases n,
{
    if n == 0 {
        CargoAcc { found: seq![], pending: None }
    } else {
        let a = cargo_acc(ls, (n - 1) as nat);
        let line = ls[n - 1];
        if is_crate_line(line) {
            let p = words(line);
            if p.len() >= 2 {
                CargoAcc { found: a.found, pending: Some((p[0], clean_version(p[1]))) }
            } else {
                a
            }
        } else {
            match a.pending {
                Some(c) => CargoAcc { found: a.found.push(c), pending: None },
                None => a,
            }
        }
    }
}

/// The (name, version) of each crate in `cargo install --list` output
/// that is followed by at least one binary line: the crates whose updates
/// are checked.
pub open spec fn cargo_crates(output: Seq<char>) -> Seq<(Seq<char>, Seq<char>)> {
    cargo_acc(lines(output), lines(output).len()).found
}

/// Characters of each pair of strings.
pub open spec fn pair_views(v: Seq<(String, String)>) -> Seq<(Seq<char>, Seq<char>)> {
    v.map_values(|p: (String, String)| (p.0@, p.1@))
}

/// Name and cleaned version of a crate line with at least two words.
fn crate_line_entry(line: &str) -> (r: Option<(String, String)>)
    ensures
        words(line@).len() >= 2 ==> match r {
            Some((name, version)) => name@ == words(line@)[0] && version@ == clean_version(
                words(line@)[1],
            ),
            None => false,
        },
        words(line@).len() < 2 ==> r is None,
{
    let parts = split_words(line);
    if parts.len() >= 2 {
        assert(parts@[0]@ == views_of(parts@)[0]);
        assert(parts@[1]@ == views_of(parts@)[1]);
        let version = strip_matches(parts[1].as_str(), 'v', ':');
        Some((parts[0].clone(), version))
    } else {
        None
    }
}

/// Whether a line starts with a space.
fn starts_with_space(line: &str) -> (r: bool)
    ensures
        r == !is_crate_line(line@),
{
    let cs = chars_of(line);
    cs.len() > 0 && cs[0] == ' '
}

/// The crates of `cargo install --list` output whose updates are checked.
pub fn cargo_installed_crates(output: &str) -> (r: Vec<(String, String)>)
    ensures
        pair_views(r@) == cargo_crates(output@),
{
    let ls = split_lines(output);
    let ghost lv = views_of(ls@);
    let mut found: Vec<(String, String)> = Vec::new();
    let mut pending: Option<(String, String)> = None;
    let mut i: usize = 0;
    while i < ls.len()
        invariant
            lv == views_of(ls@),
            lv == lines(output@),
            0 <= i <= ls@.len(),
            ({
                let a = cargo_acc(lv, i as nat);
                &&& pair_views(found@) == a.found
                &&& match pending {
                    Some(p) => a.pending == Some((p.0@, p.1@)),
                    None => a.pending is None,
                }
            }),
        decreases ls@.len() - i,
    {
        let line = ls[i].as_str();
        assert(line@ == lv[i as int]);
        if !starts_with_space(line) {
            if let Some(entry) = crate_line_entry(line) {
                pending = Some(entry);
            }
        } else {
            match pending.take() {
                Some(c) => {
                    let ghost before = found@;
                    let ghost cv = (c.0@, c.1@);
                    found.push(c);
                    assert(pair_views(found@) =~= pair_views(before).push(cv));
                },
                None => {},
            }
        }
        i += 1;
    }
    found
}

/// The cleaned version of the first crate line naming `name`.
pub open spec fn cargo_version_from(ls: Seq<Seq<char>>, name: Seq<char>) -> Option<Seq<char>>
    decreases ls.len(),
{
    if ls.len() == 0 {
        None
    } else if is_crate_line(ls[0]) && words(ls[0]).len() >= 2 && words(ls[0])[0] == name {
        Some(clean_version(words(ls[0])[1]))
    } else {
        cargo_version_from(ls.drop_first(), name)
    }
}

/// Characters of an optional string.
pub open spec fn opt_chars(o: Option<String>) -> Option<Seq<char>> {
    match o {
        Some(s) => Some(s@),
        None => None,
    }
}

/// Installed version of crate `name` in `cargo install --list` output.
pub fn cargo_version_in_list(output: &str, name: &str) -> (r: Option<String>)
    ensures
        opt_chars(r) == cargo_version_from(lines(output@), name@),
{
    let ls = split_lines(output);
    let ghost lv = views_of(ls@);
    let mut i: usize = 0;
    assert(lv.skip(0) =~= lv);
    while i < ls.len()
        invariant
            lv == views_of(ls@),
            lv == lines(output@),
            0 <= i <= ls@.len(),
            cargo_version_from(lv, name@) == cargo_version_from(lv.skip(i as int), name@),
        decreases ls@.len() - i,
    {
        let line = ls[i].as_str();
        assert(line@ == lv[i as int]);
        assert(lv.skip(i as int)[0] == lv[i as int]);
        assert(lv.skip(i as int).drop_first() =~= lv.skip(i + 1));
        if !starts_with_space(line) {
            if let Some(entry) = crate_line_entry(line) {
                if str_eq(entry.0.as_str(), name) {
                    return Some(entry.1);
                }
            }
        }
        i += 1;
    }
    assert(lv.skip(i as int) =~= Seq::<Seq<char>>::empty());
    None
}

/// The part of an apt "package/suite" word before the first '/'.
pub open spec fn before_slash(w: Seq<char>) -> Seq<char>
    decreases w.len(),
{
    if w.len() == 0 || w[0] == '/' {
        seq![]
    } else {
        seq![w[0]] + before_slash(w.drop_first())
    }
}

/// Index of the first occurrence of `x` in `s`, if any.
pub open spec fn first_index_of(s: Seq<Seq<char>>, x: Seq<char>) -> Option<int>
    decreases s.len(),
{
    if s.len() == 0 {
        None
    } else if s[0] == x {
        Some(0)
    } else {
        match first_index_of(s.drop_first(), x) {
            Some(i) => Some(i + 1),
            None => None,
        }
    }
}

/// Plain view of an update.
pub struct UpdateView {
    pub name: Seq<char>,
    pub current: Seq<char>,
    pub latest: Seq<char>,
    pub source: Seq<char>,
}

impl Update {
    pub open spec fn view(&self) -> UpdateView {
        UpdateView {
            name: self.name@,
            current: self.current@,
            latest: self.latest@,
            source: self.source@,
        }
    }
}

/// The update described by one line of `apt list --upgradable`
/// ("package/suite version arch [upgradable from: old]"): lines with at
/// least six words whose "from:" word is followed by the old version.
pub open spec fn apt_line_update(line: Seq<char>) -> Option<UpdateView> {
    let p = words(line);
    if p.len() >= 6 {
        match first_index_of(p, "from:"@) {
            Some(i) => if i + 1 < p.len() {
                Some(
                    UpdateView {
                        name: before_slash(p[0]),
                        current: strip_trailing(p[i + 1], ']'),
                        latest: p[1],
                        source: "apt"@,
                    },
                )
            } else {
                None
            },
            None => None,
        }
    } else {
        None
    }
}

/// The updates of the lines, in order.
pub open spec fn apt_updates_of(ls: Seq<Seq<char>>) -> Seq<UpdateView>
    decreases ls.len(),
{
    if ls.len() == 0 {
        seq![]
    } else {
        match apt_line_update(ls.last()) {
            Some(u) => apt_updates_of(ls.drop_last()).push(u),
            None => apt_updates_of(ls.drop_last()),
        }
    }
}

/// The updates in `apt list --upgradable` output (its first line is a
/// header).
pub open spec fn apt_updates(output: Seq<char>) -> Seq<UpdateView> {
    if lines(output).len() == 0 {
        seq![]
    } else {
        apt_updates_of(lines(output).skip(1))
    }
}

/// Views of updates.
pub open spec fn update_views(v: Seq<Update>) -> Seq<UpdateView> {
    v.map_values(|u: Update| u.view())
}

fn prefix_before_slash(w: &str) -> (r: String)
    ensures
        r@ == before_slash(w@),
{
    let cs = chars_of(w);
    let mut i: usize = 0;
    assert(cs@.skip(0) =~= cs@);
    assert(cs@.subrange(0, 0) + before_slash(cs@) =~= before_slash(cs@));
    while i < cs.len() && cs[i] != '/'
        invariant
            cs@ == w@,
            0 <= i <= cs@.len(),
            forall|k: int| 0 <= k < i ==> cs@[k] != '/',
            before_slash(w@) == cs@.subrange(0, i as int) + before_slash(cs@.skip(i as int)),
        decreases cs@.len() - i,
    {
        assert(cs@.skip(i as int)[0] == cs@[i as int]);
        assert(cs@.skip(i as int).drop_first() =~= cs@.skip(i + 1));
        assert(cs@.subrange(0, i + 1) =~= cs@.subrange(0, i as int) + seq![cs@[i as int]]);
        i += 1;
    }
    assert(before_slash(cs@.skip(i as int)) =~= Seq::<char>::empty());
    assert(cs@.subrange(0, i as int) + Seq::<char>::empty() =~= cs@.subrange(0, i as int));
    w.substring_char(0, i).to_owned()
}

fn index_of_word(p: &Vec<String>, x: &str) -> (r: Option<usize>)
    ensures
        match r {
            Some(i) => i < p@.len() && first_index_of(views_of(p@), x@) == Some(i as int),
            None => first_index_of(views_of(p@), x@) is None,
        },
{
    let ghost pv = views_of(p@);
    let mut i: usize = 0;
    assert(pv.skip(0) =~= pv);
    while i < p.len()
        invariant
            pv == views_of(p@),
            0 <= i <= p@.len(),
            first_index_of(pv, x@) == match first_index_of(pv.skip(i as int), x@) {
                Some(j) => Some(j + i),
                None => None::<int>,
            },
        decreases p@.len() - i,
    {
        assert(pv.skip(i as int)[0] == pv[i as int]);
        assert(pv.skip(i as int).drop_first() =~= pv.skip(i + 1));
        if str_eq(p[i].as_str(), x) {
            return Some(i);
        }
        i += 1;
    }
    assert(pv.skip(i as int) =~= Seq::<Seq<char>>::empty());
    None
}

fn apt_update_from_line(line: &str) -> (r: Option<Update>)
    ensures
        match r {
            Some(u) => apt_line_update(line@) == Some(u.view()),
            None => apt_line_update(line@) is None,
        },
{
    let parts = split_words(line);
    let ghost pv = views_of(parts@);
    if parts.len() >= 6 {
        if let Some(i) = index_of_word(&parts, "from:") {
            if i + 1 < parts.len() {
                assert(parts@[0]@ == pv[0] && parts@[1]@ == pv[1]);
                assert(parts@[i + 1]@ == pv[i + 1]);
                let current = strip_end(parts[i + 1].as_str(), ']');
                return Some(
                    Update {
                        name: prefix_before_slash(parts[0].as_str()),
                        current,
                        latest: parts[1].clone(),
                        source: "apt".to_owned(),
                    },
                );
            }
        }
    }
    None
}

/// The updates in `apt list --upgradable` output.
pub fn apt_upgradable(output: &str) -> (r: Vec<Update>)
    ensures
        update_views(r@) == apt_updates(output@),
{
    let ls = split_lines(output);
    let mut out: Vec<Update> = Vec::new();
    if ls.len() == 0 {
        return out;
    }
    let ghost rest = views_of(ls@).skip(1);
    assert(rest.take(0) =~= Seq::<Seq<char>>::empty());
    let mut i: usize = 1;
    while i < ls.len()
        invariant
            rest == views_of(ls@).skip(1),
            views_of(ls@) == lines(output@),
            1 <= i <= ls@.len(),
            update_views(out@) == apt_updates_of(rest.take(i - 1)),
        decreases ls@.len() - i,
    {
        let line = ls[i].as_str();
        proof {
            assert(line@ == views_of(ls@)[i as int]);
            assert(rest.take(i as int).drop_last() =~= rest.take(i - 1));
            assert(rest.take(i as int).last() == line@);
        }
        if let Some(u) = apt_update_from_line(line) {
            let ghost before = out@;
            let ghost uv = u.view();
            out.push(u);
            assert(update_views(out@) =~= update_views(before).push(uv));
        }
        i += 1;
    }
    assert(rest.take(i - 1) =~= rest);
    out
}

/// `s` with repeated leading copies of `p` removed (what
/// `trim_start_matches(p)` gives for a non-empty `p`).
pub open spec fn strip_leading_seq(s: Seq<char>, p: Seq<char>) -> Seq<char>
    decreases s.len(),
{
    if p.len() > 0 && is_prefix(p, s) {
        strip_leading_seq(s.skip(p.len() as int), p)
    } else {
        s
    }
}

/// The version that `pip show` reports: the first line starting with
/// "Version:", without that label (and repeats of it) and surrounding
/// whitespace.
pub open spec fn pip_version_from(ls: Seq<Seq<char>>) -> Option<Seq<char>>
    decreases ls.len(),
{
    if ls.len() == 0 {
        None
    } else if is_prefix("Version:"@, ls[0]) {
        Some(trim(strip_leading_seq(ls[0], "Version:"@)))
    } else {
        pip_version_from(ls.drop_first())
    }
}

fn strip_leading_label(line: &str, label: &str) -> (r: String)
    requires
        label@.len() > 0,
    ensures
        r@ == strip_leading_seq(line@, label@),
{
    let cs = chars_of(line);
    let lc = chars_of(label);
    let mut start: usize = 0;
    assert(cs@.skip(0) =~= cs@);
    while start <= cs.len() && crate::text::chars_match_at(&cs, &lc, start)
        invariant
            cs@ == line@,
            lc@ == label@,
            lc@.len() > 0,
            start <= cs@.len(),
            strip_leading_seq(line@, label@) == strip_leading_seq(cs@.skip(start as int), label@),
        decreases cs@.len() - start,
    {
        proof {
            assert(cs@.skip(start as int).subrange(0, lc@.len() as int) =~= cs@.subrange(
                start as int,
                start + lc@.len(),
            ));
            assert(cs@.skip(start as int).skip(lc@.len() as int) =~= cs@.skip(start + lc@.len()));
        }
        start = start + lc.len();
    }
    proof {
        if start <= cs@.len() {
            assert(cs@.skip(start as int).subrange(0, lc@.len() as int) =~= cs@.subrange(
                start as int,
                start + lc@.len(),
            ) || lc@.len() > cs@.len() - start);
        }
    }
    assert(cs@.skip(start as int) =~= cs@.subrange(start as int, cs@.len() as int));
    line.substring_char(start, cs.len()).to_owned()
}

/// The version reported by `pip show` output.
pub fn pip_show_version(output: &str) -> (r: Option<String>)
    ensures
        opt_chars(r) == pip_version_from(lines(output@)),
{
    let ls = split_lines(output);
    let ghost lv = views_of(ls@);
    let label = "Version:";
    proof {
        reveal_strlit("Version:");
    }
    let lc = chars_of(label);
    let mut i: usize = 0;
    assert(lv.skip(0) =~= lv);
    while i < ls.len()
        invariant
            lv == views_of(ls@),
            lv == lines(output@),
            lc@ == "Version:"@,
            label@ == "Version:"@,
            0 <= i <= ls@.len(),
            pip_version_from(lv) == pip_version_from(lv.skip(i as int)),
        decreases ls@.len() - i,
    {
        let line = ls[i].as_str();
        assert(line@ == lv[i as int]);
        assert(lv.skip(i as int)[0] == lv[i as int]);
        assert(lv.skip(i as int).drop_first() =~= lv.skip(i + 1));
        let cs = chars_of(line);
        if crate::text::chars_starts_with(&cs, &lc) {
            proof {
                reveal_strlit("Version:");
            }
            assert(label@.len() > 0);
            let stripped = strip_leading_label(line, label);
            return Some(trim_str(stripped.as_str()));
        }
        i += 1;
    }
    assert(lv.skip(i as int) =~= Seq::<Seq<char>>::empty());
    None
}

/// Trimmed output, or `None` when nothing but whitespace was printed (as
/// `dpkg-query` and `npm view` report a version).
pub fn trimmed_version(output: &str) -> (r: Option<String>)
    ensures
        trim(output@).len() == 0 ==> r is None,
        trim(output@).len() > 0 ==> r is Some && r->0@ == trim(output@),
{
    let t = trim_str(output);
    if t.as_str().is_empty() {
        None
    } else {
        Some(t)
    }
}

/// The cargo update that crates.io's latest version `latest` offers for an
/// installed crate: one when it differs from the installed version and is
/// newer.
pub fn cargo_update_from_latest(name: &str, current: &str, latest: Option<String>) -> (r: Option<
    Update,
>)
    ensures
        match latest {
            Some(l) => if l@ != current@ && version_newer(l@, current@) {
                r is Some && r->0.view() == (UpdateView {
                    name: name@,
                    current: current@,
                    latest: l@,
                    source: "cargo"@,
                })
            } else {
                r is None
            },
            None => r is None,
        },
{
    match latest {
        Some(l) => {
            if !str_eq(l.as_str(), current) && version_is_newer(l.as_str(), current) {
                Some(
                    Update {
                        name: name.to_owned(),
                        current: current.to_owned(),
                        latest: l,
                        source: "cargo".to_owned(),
                    },
                )
            } else {
                None
            }
        },
        None => None,
    }
}

/// An optional update view, from optional fields.
pub open spec fn update_of(
    name: Option<Seq<char>>,
    current: Option<Seq<char>>,
    latest: Option<Seq<char>>,
    source: Seq<char>,
) -> Option<UpdateView> {
    match (name, current, latest) {
        (Some(n), Some(c), Some(l)) => Some(UpdateView { name: n, current: c, latest: l, source }),
        _ => None,
    }
}

/// The update that an entry of `pip list --outdated --format=json`
/// describes: its `name`, `version` and `latest_version`, all strings.
pub open spec fn pip_entry_update(pkg: Json) -> Option<UpdateView> {
    update_of(
        json_str(json_get(Some(pkg), "name"@)),
        json_str(json_get(Some(pkg), "version"@)),
        json_str(json_get(Some(pkg), "latest_version"@)),
        "pip"@,
    )
}

/// The updates of the entries, in order.
pub open spec fn pip_entries_updates(items: Seq<Json>) -> Seq<UpdateView>
    decreases items.len(),
{
    if items.len() == 0 {
        seq![]
    } else {
        match pip_entry_update(items.last()) {
            Some(u) => pip_entries_updates(items.drop_last()).push(u),
            None => pip_entries_updates(items.drop_last()),
        }
    }
}

/// The updates in pip's report: `None` when it is not a JSON array.
pub open spec fn spec_pip_outdated(j: Option<Json>) -> Option<Seq<UpdateView>> {
    match j {
        Some(Json::Array(items)) => Some(pip_entries_updates(items@)),
        _ => None,
    }
}

/// An optional list of updates as values.
pub open spec fn opt_update_views(o: Option<Vec<Update>>) -> Option<Seq<UpdateView>> {
    match o {
        Some(v) => Some(update_views(v@)),
        None => None,
    }
}

fn text_of(j: Option<&Json>, key: &str) -> (r: Option<String>)
    ensures
        match r {
            Some(s) => json_str(json_get(opt_json(j), key@)) == Some(s@),
            None => json_str(json_get(opt_json(j), key@)) is None,
        },
{
    match as_text(get(j, key)) {
        Some(s) => Some(s.clone()),
        None => None,
    }
}

/// The updates in the output of `pip list --outdated --format=json`
/// (see `spec_pip_outdated`).
pub fn pip_outdated_from(body: &[u8]) -> (r: Option<Vec<Update>>)
    ensures
        opt_update_views(r) == spec_pip_outdated(parsed_json(body@)),
{
    let json = parse_json(body);
    match &json {
        Some(Json::Array(items)) => {
            let mut out: Vec<Update> = Vec::new();
            let mut i: usize = 0;
            while i < items.len()
                invariant
                    i <= items@.len(),
                    update_views(out@) == pip_entries_updates(items@.take(i as int)),
                decreases items@.len() - i,
            {
                assert(items@.take(i + 1).drop_last() =~= items@.take(i as int));
                assert(items@.take(i + 1).last() == items@[i as int]);
                let pkg = Some(&items[i]);
                let name = text_of(pkg, "name");
                let current = text_of(pkg, "version");
                let latest = text_of(pkg, "latest_version");
                match (name, current, latest) {
                    (Some(n), Some(c), Some(l)) => {
                        let ghost before = out@;
                        let u = Update { name: n, current: c, latest: l, source: String::from_str("pip") };
                        proof {
                            reveal_strlit("pip");
                        }
                        out.push(u);
                        assert(update_views(out@) =~= update_views(before).push(u.view()));
                    },
                    _ => {},
                }
                i += 1;
            }
            assert(items@.take(items@.len() as int) =~= items@);
            Some(out)
        },
        _ => None,
    }
}

/// The update that npm reports for the package at position `i`: its
/// `current` and `latest` strings, when they differ.
pub open spec fn npm_entry_update(name: Seq<char>, info: Json) -> Option<UpdateView> {
    let c = json_str(json_get(Some(info), "current"@));
    let l = json_str(json_get(Some(info), "latest"@));
    match (c, l) {
        (Some(cv), Some(lv)) => if cv != lv {
            Some(UpdateView { name, current: cv, latest: lv, source: "npm"@ })
        } else {
            None
        },
        _ => None,
    }
}

/// The updates of the first `n` members of npm's report.
pub open spec fn npm_members_updates(keys: Seq<String>, values: Seq<Json>, n: nat) -> Seq<UpdateView>
    decreases n,
{
    if n == 0 {
        seq![]
    } else {
        let rest = npm_members_updates(keys, values, (n - 1) as nat);
        match npm_entry_update(keys[n - 1]@, values[n - 1]) {
            Some(u) => rest.push(u),
            None => rest,
        }
    }
}

/// The updates in the output of `npm outdated -g --json`: none when it is
/// blank or `{}`; `None` when it is not JSON; else one per member of the
/// object whose versions differ.
pub open spec fn spec_npm_outdated(text: &str) -> Option<Seq<UpdateView>> {
    let t = trim(text@);
    if t.len() == 0 || t == "{}"@ {
        Some(seq![])
    } else {
        match parsed_json(text.spec_bytes()) {
            Some(Json::Object(keys, values)) => Some(
                npm_members_updates(
                    keys@,
                    values@,
                    if keys@.len() <= values@.len() {
                        keys@.len()
                    } else {
                        values@.len()
                    },
                ),
            ),
            Some(_) => Some(seq![]),
            None => None,
        }
    }
}

/// The updates in the output of `npm outdated -g --json` (see
/// `spec_npm_outdated`).
pub fn npm_outdated_from(text: &str) -> (r: Option<Vec<Update>>)
    ensures
        opt_update_views(r) == spec_npm_outdated(text),
{
    let t = trim_str(text);
    if t.as_str().is_empty() || str_eq(t.as_str(), "{}") {
        let out: Vec<Update> = Vec::new();
        assert(update_views(out@) =~= Seq::<UpdateView>::empty());
        return Some(out);
    }
    let json = parse_json(text.as_bytes());
    match &json {
        Some(Json::Object(keys, values)) => {
            let n = if keys.len() <= values.len() {
                keys.len()
            } else {
                values.len()
            };
            let mut out: Vec<Update> = Vec::new();
            let mut i: usize = 0;
            while i < n
                invariant
                    i <= n,
                    n <= keys@.len(),
                    n <= values@.len(),
                    update_views(out@) == npm_members_updates(keys@, values@, i as nat),
                decreases n - i,
            {
                let info = Some(&values[i]);
                let current = text_of(info, "current");
                let latest = text_of(info, "latest");
                match (current, latest) {
                    (Some(c), Some(l)) => {
                        if !str_eq(c.as_str(), l.as_str()) {
                            let ghost before = out@;
                            let u = Update {
                                name: keys[i].clone(),
                                current: c,
                                latest: l,
                                source: String::from_str("npm"),
                            };
                            proof {
                                reveal_strlit("npm");
                            }
                            out.push(u);
                            assert(update_views(out@) =~= update_views(before).push(u.view()));
                        }
                    },
                    _ => {},
                }
                i += 1;
            }
            Some(out)
        },
        Some(_) => {
            let out: Vec<Update> = Vec::new();
            assert(update_views(out@) =~= Seq::<UpdateView>::empty());
            Some(out)
        },
        None => None,
    }
}

/// The first element of an array, as a string.
pub open spec fn first_str(j: Option<Json>) -> Option<Seq<char>> {
    match j {
        Some(Json::Array(a)) => if a@.len() > 0 {
            json_str(Some(a@[0]))
        } else {
            None
        },
        _ => None,
    }
}

/// The update that a formula of `brew outdated --json` describes: its
/// `name`, first `installed_versions` entry and `current_version`.
pub open spec fn brew_formula_update(f: Json) -> Option<UpdateView> {
    update_of(
        json_str(json_get(Some(f), "name"@)),
        first_str(json_get(Some(f), "installed_versions"@)),
        json_str(json_get(Some(f), "current_version"@)),
        "brew"@,
    )
}

/// The updates of the formulae, in order.
pub open spec fn brew_formulae_updates(items: Seq<Json>) -> Seq<UpdateView>
    decreases items.len(),
{
    if items.len() == 0 {
        seq![]
    } else {
        match brew_formula_update(items.last()) {
            Some(u) => brew_formulae_updates(items.drop_last()).push(u),
            None => brew_formulae_updates(items.drop_last()),
        }
    }
}

/// The updates in brew's report: `None` when it is not JSON; none when
/// it has no `formulae` array.
pub open spec fn spec_brew_outdated(j: Option<Json>) -> Option<Seq<UpdateView>> {
    match j {
        Some(_) => match json_get(j, "formulae"@) {
            Some(Json::Array(items)) => Some(brew_formulae_updates(items@)),
            _ => Some(seq![]),
        },
        None => None,
    }
}

/// The updates in the output of `brew outdated --json` (see
/// `spec_brew_outdated`).
pub fn brew_outdated_from(body: &[u8]) -> (r: Option<Vec<Update>>)
    ensures
        opt_update_views(r) == spec_brew_outdated(parsed_json(body@)),
{
    let json = parse_json(body);
    if json.is_none() {
        return None;
    }
    let mut out: Vec<Update> = Vec::new();
    match get(json.as_ref(), "formulae") {
        Some(Json::Array(items)) => {
            let mut i: usize = 0;
            while i < items.len()
                invariant
                    i <= items@.len(),
                    update_views(out@) == brew_formulae_updates(items@.take(i as int)),
                decreases items@.len() - i,
            {
                assert(items@.take(i + 1).drop_last() =~= items@.take(i as int));
                assert(items@.take(i + 1).last() == items@[i as int]);
                let f = Some(&items[i]);
                let name = text_of(f, "name");
                let installed = match get(f, "installed_versions") {
                    Some(Json::Array(vs)) => if vs.len() > 0 {
                        match as_text(Some(&vs[0])) {
                            Some(s) => Some(s.clone()),
                            None => None,
                        }
                    } else {
                        None
                    },
                    _ => None,
                };
                let latest = text_of(f, "current_version");
                match (name, installed, latest) {
                    (Some(n), Some(c), Some(l)) => {
                        let ghost before = out@;
                        let u = Update { name: n, current: c, latest: l, source: String::from_str("brew") };
                        proof {
                            reveal_strlit("brew");
                        }
                        out.push(u);
                        assert(update_views(out@) =~= update_views(before).push(u.view()));
                    },
                    _ => {},
                }
                i += 1;
            }
            assert(items@.take(items@.len() as int) =~= items@);
        },
        _ => {
            assert(update_views(out@) =~= Seq::<UpdateView>::empty());
        },
    }
    Some(out)
}

/// The version of `package` in `npm list -g --json`: its
/// `dependencies.<package>.version`.
pub fn npm_installed_version_from(body: &[u8], package: &str) -> (r: Option<String>)
    ensures
        match r {
            Some(v) => json_str(
                json_get(json_get(json_get(parsed_json(body@), "dependencies"@), package@), "version"@),
            ) == Some(v@),
            None => json_str(
                json_get(json_get(json_get(parsed_json(body@), "dependencies"@), package@), "version"@),
            ) is None,
        },
{
    let json = parse_json(body);
    text_of(get(get(json.as_ref(), "dependencies"), package), "version")
}

} // verus!
