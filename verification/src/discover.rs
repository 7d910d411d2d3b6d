//! The Discover tab: ordering search results, the sources one can search,
//! and the history of past searches.

use vstd::prelude::*;
use crate::config::SourcesConfig;
use crate::pending::LoadingProgress;
use crate::text::{
    decimal, lowercase, str_eq, to_lowercase, trim, trim_str, u64_to_string, usize_to_string, views_of,
};
use crate::tools::{lemma_lex_asym, lemma_lex_not_less_trans, lex_less, name_less};
use crate::types::{DiscoverResult, DiscoverSortBy, DiscoverSource};

verus! {

/// Rank of a source when ordering by source.
pub open spec fn source_rank(s: DiscoverSource) -> int {
    match s {
        DiscoverSource::CratesIo => 0,
        DiscoverSource::Npm => 1,
        DiscoverSource::PyPI => 2,
        DiscoverSource::Homebrew => 3,
        DiscoverSource::Apt => 4,
        DiscoverSource::GitHub => 5,
        DiscoverSource::AI => 6,
    }
}

fn source_order(s: DiscoverSource) -> (r: u8)
    ensures
        r as int == source_rank(s),
{
    match s {
        DiscoverSource::CratesIo => 0,
        DiscoverSource::Npm => 1,
        DiscoverSource::PyPI => 2,
        DiscoverSource::Homebrew => 3,
        DiscoverSource::Apt => 4,
        DiscoverSource::GitHub => 5,
        DiscoverSource::AI => 6,
    }
}

/// Result `a` must be listed before result `b`: by stars, most first and
/// unstarred last (those by name); by name, ignoring case; or by source,
/// then name.
pub open spec fn result_before(sort: DiscoverSortBy, a: DiscoverResult, b: DiscoverResult) -> bool {
    let (an, bn) = (lowercase(a.name@), lowercase(b.name@));
    match sort {
        DiscoverSortBy::Stars => match a.stars {
            Some(x) => match b.stars {
                Some(y) => x > y,
                None => true,
            },
            None => match b.stars {
                Some(_) => false,
                None => lex_less(an, bn),
            },
        },
        DiscoverSortBy::Name => lex_less(an, bn),
        DiscoverSortBy::Source => source_rank(a.source) < source_rank(b.source) || (source_rank(
            a.source,
        ) == source_rank(b.source) && lex_less(an, bn)),
    }
}

/// `x` inserted after every result that it need not precede (a stable
/// insertion).
pub open spec fn insert_result(r: Seq<DiscoverResult>, x: DiscoverResult, sort: DiscoverSortBy) -> Seq<
    DiscoverResult,
>
    decreases r.len(),
{
    if r.len() == 0 {
        seq![x]
    } else if result_before(sort, x, r.last()) {
        insert_result(r.drop_last(), x, sort).push(r.last())
    } else {
        r.push(x)
    }
}

/// Stable sort of results.
pub open spec fn sort_results(s: Seq<DiscoverResult>, sort: DiscoverSortBy) -> Seq<DiscoverResult>
    decreases s.len(),
{
    if s.len() == 0 {
        s
    } else {
        insert_result(sort_results(s.drop_last(), sort), s.last(), sort)
    }
}

/// Results paired with their lowercased names.
pub open spec fn keyed_view(s: Seq<(DiscoverResult, String)>) -> Seq<DiscoverResult> {
    s.map_values(|e: (DiscoverResult, String)| e.0)
}

pub open spec fn keys_ok(s: Seq<(DiscoverResult, String)>) -> bool {
    forall|i: int| 0 <= i < s.len() ==> (#[trigger] s[i]).1@ == lowercase(s[i].0.name@)
}

fn before_keyed(sort: DiscoverSortBy, a: &(DiscoverResult, String), b: &(DiscoverResult, String)) -> (r:
    bool)
    requires
        a.1@ == lowercase(a.0.name@),
        b.1@ == lowercase(b.0.name@),
    ensures
        r == result_before(sort, a.0, b.0),
{
    match sort {
        DiscoverSortBy::Stars => match a.0.stars {
            Some(x) => match b.0.stars {
                Some(y) => x > y,
                None => true,
            },
            None => match b.0.stars {
                Some(_) => false,
                None => name_less(a.1.as_str(), b.1.as_str()),
            },
        },
        DiscoverSortBy::Name => name_less(a.1.as_str(), b.1.as_str()),
        DiscoverSortBy::Source => {
            let (ra, rb) = (source_order(a.0.source), source_order(b.0.source));
            ra < rb || (ra == rb && name_less(a.1.as_str(), b.1.as_str()))
        },
    }
}

fn insert_keyed(r: &mut Vec<(DiscoverResult, String)>, x: (DiscoverResult, String), sort: DiscoverSortBy)
    requires
        keys_ok(old(r)@),
        x.1@ == lowercase(x.0.name@),
    ensures
        keys_ok(final(r)@),
        keyed_view(final(r)@) == insert_result(keyed_view(old(r)@), x.0, sort),
{
    let ghost v = keyed_view(r@);
    let ghost xv = x.0;
    let mut j = r.len();
    assert(v.take(j as int) =~= v);
    assert(v.skip(j as int) =~= Seq::<DiscoverResult>::empty());
    assert(insert_result(v, xv, sort) + Seq::<DiscoverResult>::empty() =~= insert_result(v, xv, sort));
    while j > 0 && before_keyed(sort, &x, &r[j - 1])
        invariant
            j <= r@.len(),
            v == keyed_view(r@),
            keys_ok(r@),
            xv == x.0,
            x.1@ == lowercase(x.0.name@),
            insert_result(v, xv, sort) == insert_result(v.take(j as int), xv, sort) + v.skip(
                j as int,
            ),
        decreases j,
    {
        proof {
            let t = v.take(j as int);
            assert(t.drop_last() =~= v.take(j - 1));
            assert(t.last() == v[j - 1]);
            assert(v.skip(j - 1) =~= seq![v[j - 1]] + v.skip(j as int));
            assert(insert_result(t, xv, sort) == insert_result(v.take(j - 1), xv, sort).push(
                v[j - 1],
            ));
            assert(insert_result(v.take(j - 1), xv, sort).push(v[j - 1]) + v.skip(j as int)
                =~= insert_result(v.take(j - 1), xv, sort) + v.skip(j - 1));
        }
        j -= 1;
    }
    proof {
        if j == 0 {
            assert(v.take(0) =~= Seq::<DiscoverResult>::empty());
        } else {
            assert(v.take(j as int).last() == v[j - 1]);
        }
    }
    let ghost before = r@;
    r.insert(j, x);
    proof {
        assert(keyed_view(r@) =~= v.take(j as int).push(xv) + v.skip(j as int));
        assert forall|i: int| 0 <= i < r@.len() implies (#[trigger] r@[i]).1@ == lowercase(
            r@[i].0.name@,
        ) by {
            if i < j {
                assert(r@[i] == before[i]);
            } else if i > j {
                assert(r@[i] == before[i - 1]);
            }
        }
    }
}

/// The results in the order of `sort`; results that tie keep their order.
pub fn sort_discover_results(results: Vec<DiscoverResult>, sort: DiscoverSortBy) -> (r: Vec<
    DiscoverResult,
>)
    ensures
        r@ == sort_results(results@, sort),
{
    let ghost input = results@;
    let mut sorted: Vec<(DiscoverResult, String)> = Vec::new();
    for x in it: results
        invariant
            it.seq() == input,
            keys_ok(sorted@),
            keyed_view(sorted@) == sort_results(input.take(it.index() as int), sort),
    {
        proof {
            assert(input.take(it.index() + 1).drop_last() =~= input.take(it.index() as int));
            assert(input.take(it.index() + 1).last() == x);
        }
        let key = to_lowercase(x.name.as_str());
        insert_keyed(&mut sorted, (x, key), sort);
    }
    assert(input.take(input.len() as int) =~= input);
    let ghost ordered = keyed_view(sorted@);
    let mut out: Vec<DiscoverResult> = Vec::new();
    for e in it: sorted
        invariant
            it.seq() == sorted@,
            ordered == keyed_view(sorted@),
            out@ == ordered.take(it.index() as int),
    {
        assert(ordered.take(it.index() + 1) =~= ordered.take(it.index() as int).push(e.0));
        out.push(e.0);
    }
    assert(ordered.take(ordered.len() as int) =~= ordered);
    out
}

/// No result goes before an earlier one.
pub open spec fn results_sorted(r: Seq<DiscoverResult>, sort: DiscoverSortBy) -> bool {
    forall|i: int, j: int|
        0 <= i < j < r.len() ==> !result_before(sort, #[trigger] r[j], #[trigger] r[i])
}

proof fn lemma_result_asym(sort: DiscoverSortBy, a: DiscoverResult, b: DiscoverResult)
    ensures
        result_before(sort, a, b) ==> !result_before(sort, b, a),
{
    lemma_lex_asym(lowercase(a.name@), lowercase(b.name@));
}

proof fn lemma_result_not_before_trans(
    sort: DiscoverSortBy,
    a: DiscoverResult,
    b: DiscoverResult,
    c: DiscoverResult,
)
    requires
        !result_before(sort, b, a),
        !result_before(sort, c, b),
    ensures
        !result_before(sort, c, a),
{
    let (an, bn, cn) = (lowercase(a.name@), lowercase(b.name@), lowercase(c.name@));
    let all_none = a.stars is None && b.stars is None && c.stars is None;
    let same_rank = source_rank(a.source) == source_rank(b.source) && source_rank(b.source)
        == source_rank(c.source);
    if sort == DiscoverSortBy::Name || (sort == DiscoverSortBy::Stars && all_none) || (sort
        == DiscoverSortBy::Source && same_rank) {
        lemma_lex_not_less_trans(cn, bn, an);
    }
}

proof fn lemma_insert_result(r: Seq<DiscoverResult>, x: DiscoverResult, sort: DiscoverSortBy)
    requires
        results_sorted(r, sort),
    ensures
        results_sorted(insert_result(r, x, sort), sort),
        insert_result(r, x, sort).to_multiset() == r.to_multiset().insert(x),
        forall|y: DiscoverResult|
            (forall|k: int| 0 <= k < r.len() ==> !result_before(sort, y, #[trigger] r[k]))
                && !result_before(sort, y, x) ==> forall|k: int|
                0 <= k < insert_result(r, x, sort).len() ==> !result_before(
                    sort,
                    y,
                    #[trigger] insert_result(r, x, sort)[k],
                ),
    decreases r.len(),
{
    broadcast use vstd::seq_lib::group_to_multiset_ensures;
    if r.len() == 0 {
        assert(seq![x] =~= Seq::<DiscoverResult>::empty().push(x));
    } else if result_before(sort, x, r.last()) {
        let d = r.drop_last();
        let l = r.last();
        assert(results_sorted(d, sort));
        lemma_insert_result(d, x, sort);
        lemma_result_asym(sort, x, l);
        assert forall|k: int| 0 <= k < d.len() implies !result_before(sort, l, #[trigger] d[k]) by {
            assert(r[k] == d[k]);
        }
        assert(r =~= d.push(l));
        let ins = insert_result(d, x, sort);
        assert forall|i: int, j: int| 0 <= i < j < ins.push(l).len() implies !result_before(
            sort,
            #[trigger] ins.push(l)[j],
            #[trigger] ins.push(l)[i],
        ) by {
            assert(ins.push(l)[i] == ins[i]);
            if j < ins.len() {
                assert(ins.push(l)[j] == ins[j]);
            }
        }
        assert forall|y: DiscoverResult|
            (forall|k: int| 0 <= k < r.len() ==> !result_before(sort, y, #[trigger] r[k]))
                && !result_before(sort, y, x) implies forall|k: int|
            0 <= k < ins.push(l).len() ==> !result_before(sort, y, #[trigger] ins.push(l)[k]) by {
            assert forall|k: int| 0 <= k < d.len() implies !result_before(
                sort,
                y,
                #[trigger] d[k],
            ) by {
                assert(r[k] == d[k]);
            }
            assert(r[r.len() - 1] == l);
            assert forall|k: int| 0 <= k < ins.push(l).len() implies !result_before(
                sort,
                y,
                #[trigger] ins.push(l)[k],
            ) by {
                if k < ins.len() {
                    assert(ins.push(l)[k] == ins[k]);
                }
            }
        }
    } else {
        let l = r.last();
        assert forall|k: int| 0 <= k < r.len() implies !result_before(sort, x, #[trigger] r[k]) by {
            if k < r.len() - 1 {
                lemma_result_not_before_trans(sort, r[k], l, x);
            }
        }
        assert forall|i: int, j: int| 0 <= i < j < r.push(x).len() implies !result_before(
            sort,
            #[trigger] r.push(x)[j],
            #[trigger] r.push(x)[i],
        ) by {
            assert(r.push(x)[i] == r[i]);
            if j < r.len() {
                assert(r.push(x)[j] == r[j]);
            }
        }
        assert forall|y: DiscoverResult|
            (forall|k: int| 0 <= k < r.len() ==> !result_before(sort, y, #[trigger] r[k]))
                && !result_before(sort, y, x) implies forall|k: int|
            0 <= k < r.push(x).len() ==> !result_before(sort, y, #[trigger] r.push(x)[k]) by {
            assert forall|k: int| 0 <= k < r.push(x).len() implies !result_before(
                sort,
                y,
                #[trigger] r.push(x)[k],
            ) by {
                if k < r.len() {
                    assert(r.push(x)[k] == r[k]);
                }
            }
        }
    }
}

/// Sorting lists every result once, and never a result before one that
/// must come first.
pub proof fn law_sort_results(s: Seq<DiscoverResult>, sort: DiscoverSortBy)
    ensures
        results_sorted(sort_results(s, sort), sort),
        sort_results(s, sort).to_multiset() == s.to_multiset(),
    decreases s.len(),
{
    broadcast use vstd::seq_lib::group_to_multiset_ensures;
    if s.len() > 0 {
        law_sort_results(s.drop_last(), sort);
        lemma_insert_result(sort_results(s.drop_last(), sort), s.last(), sort);
        assert(s =~= s.drop_last().push(s.last()));
    } else {
        assert(results_sorted(s, sort));
    }
}

/// A source that Discover can search: key, icon and label.
pub type SearchSource = (&'static str, &'static str, &'static str);

/// The searchable sources, as values.
pub open spec fn spec_search_sources(sources: SourcesConfig, gh_available: bool) -> Seq<
    (Seq<char>, Seq<char>, Seq<char>),
> {
    let s0: Seq<(Seq<char>, Seq<char>, Seq<char>)> = seq![];
    let s1 = if sources.cargo {
        s0.push(("cargo"@, "🦀"@, "cargo"@))
    } else {
        s0
    };
    let s2 = if sources.npm {
        s1.push(("npm"@, "📦"@, "npm"@))
    } else {
        s1
    };
    let s3 = if sources.pip {
        s2.push(("pip"@, "🐍"@, "pip"@))
    } else {
        s2
    };
    let s4 = if sources.brew {
        s3.push(("brew"@, "🍺"@, "brew"@))
    } else {
        s3
    };
    let s5 = if sources.apt {
        s4.push(("apt"@, "📋"@, "apt"@))
    } else {
        s4
    };
    if gh_available {
        s5.push(("github"@, "🐙"@, "GitHub"@))
    } else {
        s5
    }
}

/// Sources as values.
pub open spec fn source_views(s: Seq<SearchSource>) -> Seq<(Seq<char>, Seq<char>, Seq<char>)> {
    s.map_values(|e: SearchSource| (e.0@, e.1@, e.2@))
}

/// The sources Discover can search: the enabled package sources that
/// have a search (cargo, npm, pip, brew, apt, in that order), and GitHub
/// when its CLI is installed.
pub fn available_discover_sources(sources: &SourcesConfig, gh_available: bool) -> (r: Vec<
    SearchSource,
>)
    ensures
        source_views(r@) == spec_search_sources(*sources, gh_available),
{
    let mut r: Vec<SearchSource> = Vec::new();
    let ghost mut expected: Seq<(Seq<char>, Seq<char>, Seq<char>)> = seq![];
    assert(source_views(r@) =~= expected);
    if sources.cargo {
        r.push(("cargo", "🦀", "cargo"));
        proof {
            expected = expected.push(("cargo"@, "🦀"@, "cargo"@));
        }
        assert(source_views(r@) =~= expected);
    }
    if sources.npm {
        r.push(("npm", "📦", "npm"));
        proof {
            expected = expected.push(("npm"@, "📦"@, "npm"@));
        }
        assert(source_views(r@) =~= expected);
    }
    if sources.pip {
        r.push(("pip", "🐍", "pip"));
        proof {
            expected = expected.push(("pip"@, "🐍"@, "pip"@));
        }
        assert(source_views(r@) =~= expected);
    }
    if sources.brew {
        r.push(("brew", "🍺", "brew"));
        proof {
            expected = expected.push(("brew"@, "🍺"@, "brew"@));
        }
        assert(source_views(r@) =~= expected);
    }
    if sources.apt {
        r.push(("apt", "📋", "apt"));
        proof {
            expected = expected.push(("apt"@, "📋"@, "apt"@));
        }
        assert(source_views(r@) =~= expected);
    }
    if gh_available {
        r.push(("github", "🐙", "GitHub"));
        proof {
            expected = expected.push(("github"@, "🐙"@, "GitHub"@));
        }
        assert(source_views(r@) =~= expected);
    }
    r
}

/// Where the history cursor goes on Up (older): from the new search to
/// the most recent entry, then one older at a time, stopping at the
/// oldest; nowhere when there is no history.
pub open spec fn spec_history_up(index: Option<usize>, len: nat) -> Option<usize> {
    if len == 0 {
        index
    } else {
        match index {
            None => Some(0),
            Some(i) => if i + 1 < len {
                Some((i + 1) as usize)
            } else {
                Some(i)
            },
        }
    }
}

pub fn history_up(index: Option<usize>, len: usize) -> (r: Option<usize>)
    ensures
        r == spec_history_up(index, len as nat),
{
    if len == 0 {
        return index;
    }
    match index {
        None => Some(0),
        Some(i) => if i < len - 1 {
            Some(i + 1)
        } else {
            Some(i)
        },
    }
}

/// What Down (newer) does in the search history.
#[derive(Debug, Clone, Copy, PartialEq, Eq, Structural)]
pub enum HistoryDown {
    /// Nothing: no history, or already at the new search.
    Stay,
    /// Back to a new, empty search with the default filters.
    NewSearch,
    /// To this, newer, entry.
    Entry(usize),
}

pub open spec fn spec_history_down(index: Option<usize>, len: nat) -> HistoryDown {
    if len == 0 {
        HistoryDown::Stay
    } else {
        match index {
            None => HistoryDown::Stay,
            Some(i) => if i == 0 {
                HistoryDown::NewSearch
            } else {
                HistoryDown::Entry((i - 1) as usize)
            },
        }
    }
}

pub fn history_down(index: Option<usize>, len: usize) -> (r: HistoryDown)
    ensures
        r == spec_history_down(index, len as nat),
{
    if len == 0 {
        return HistoryDown::Stay;
    }
    match index {
        None => HistoryDown::Stay,
        Some(i) => if i == 0 {
            HistoryDown::NewSearch
        } else {
            HistoryDown::Entry(i - 1)
        },
    }
}

/// Down undoes Up: going one entry older and then one newer comes back to
/// where one was, unless Up was stopped by the oldest entry.
pub proof fn law_history_up_then_down(index: Option<usize>, len: nat)
    requires
        0 < len <= usize::MAX,
        index matches Some(i) ==> i + 1 < len,
    ensures
        spec_history_down(spec_history_up(index, len), len) == match index {
            None => HistoryDown::NewSearch,
            Some(i) => HistoryDown::Entry(i),
        },
{
}

/// A past Discover search.
#[derive(Debug, Clone)]
pub struct DiscoverSearchEntry {
    pub id: i64,
    pub query: String,
    pub ai_enabled: bool,
    pub source_filters: Vec<String>,
    /// RFC 3339 time of the search.
    pub created_at: String,
}

/// Most searches kept in memory.
pub const MAX_DISCOVER_HISTORY: usize = 100;

/// The query that a search records: the typed query trimmed; `None` when
/// that is empty (nothing is recorded).
pub fn history_query(query: &str) -> (r: Option<String>)
    ensures
        trim(query@).len() == 0 ==> r is None,
        trim(query@).len() > 0 ==> (r matches Some(q) && q@ == trim(query@)),
{
    let q = trim_str(query);
    if q.as_str().is_empty() {
        None
    } else {
        Some(q)
    }
}

/// Puts a search first in the history, keeping the most recent hundred.
pub fn record_search(history: &mut Vec<DiscoverSearchEntry>, entry: DiscoverSearchEntry)
    ensures
        ({
            let all = seq![entry].add(old(history)@);
            final(history)@ == if all.len() > MAX_DISCOVER_HISTORY {
                all.take(MAX_DISCOVER_HISTORY as int)
            } else {
                all
            }
        }),
{
    let ghost all = seq![entry].add(old(history)@);
    history.insert(0, entry);
    assert(history@ =~= all);
    if history.len() > MAX_DISCOVER_HISTORY {
        history.truncate(MAX_DISCOVER_HISTORY);
    }
}

/// The search that serves a package source in the Discover tab; GitHub
/// only when its CLI is installed.
pub open spec fn search_name_of(source: Seq<char>, gh_available: bool) -> Option<Seq<char>> {
    if source == "cargo"@ {
        Some("crates.io"@)
    } else if source == "npm"@ {
        Some("npm"@)
    } else if source == "pip"@ {
        Some("PyPI"@)
    } else if source == "brew"@ {
        Some("Homebrew"@)
    } else if source == "apt"@ {
        Some("apt"@)
    } else if source == "github"@ && gh_available {
        Some("GitHub"@)
    } else {
        None
    }
}

/// The searches serving the selected sources, in their order; unknown
/// sources are skipped.
pub open spec fn search_names(filters: Seq<Seq<char>>, gh_available: bool) -> Seq<Seq<char>>
    decreases filters.len(),
{
    if filters.len() == 0 {
        seq![]
    } else {
        let rest = search_names(filters.drop_last(), gh_available);
        match search_name_of(filters.last(), gh_available) {
            Some(n) => rest.push(n),
            None => rest,
        }
    }
}

/// How a Discover search starts.
#[derive(Debug, Clone, PartialEq, Eq)]
pub enum SearchStart {
    /// The query is blank: nothing happens.
    Nothing,
    /// The search cannot run; the status line says why.
    Refused(String),
    /// Search `query` with these searches, one step each.
    Search { query: String, source_names: Vec<String> },
}

/// How a Discover search for `query` starts: nothing for a blank query;
/// with AI on, the AI search alone, refused when no AI provider is set;
/// else the searches of the selected sources (`filters`, in the order
/// given), refused when there are none.
pub open spec fn spec_search_start(
    query: Seq<char>,
    ai_enabled: bool,
    ai_configured: bool,
    filters: Seq<Seq<char>>,
    gh_available: bool,
) -> Option<Result<(Seq<char>, Seq<Seq<char>>), Seq<char>>> {
    let q = trim(query);
    if q.len() == 0 {
        None
    } else if ai_enabled && !ai_configured {
        Some(Err("No AI provider configured"@))
    } else {
        let names = if ai_enabled {
            seq!["AI"@]
        } else {
            search_names(filters, gh_available)
        };
        if names.len() == 0 {
            Some(Err("No search sources enabled"@))
        } else {
            Some(Ok((q, names)))
        }
    }
}

/// A search start as values.
pub open spec fn start_view(s: SearchStart) -> Option<Result<(Seq<char>, Seq<Seq<char>>), Seq<char>>> {
    match s {
        SearchStart::Nothing => None,
        SearchStart::Refused(m) => Some(Err(m@)),
        SearchStart::Search { query, source_names } => Some(Ok((query@, views_of(source_names@)))),
    }
}

/// The search a source filter stands for (see `search_name_of`).
fn search_name(source: &str, gh_available: bool) -> (r: Option<&'static str>)
    ensures
        match r {
            Some(n) => search_name_of(source@, gh_available) == Some(n@),
            None => search_name_of(source@, gh_available) is None,
        },
{
    if str_eq(source, "cargo") {
        Some("crates.io")
    } else if str_eq(source, "npm") {
        Some("npm")
    } else if str_eq(source, "pip") {
        Some("PyPI")
    } else if str_eq(source, "brew") {
        Some("Homebrew")
    } else if str_eq(source, "apt") {
        Some("apt")
    } else if str_eq(source, "github") && gh_available {
        Some("GitHub")
    } else {
        None
    }
}

/// How a Discover search starts (see `spec_search_start`).
pub fn plan_discover_search(
    query: &str,
    ai_enabled: bool,
    ai_configured: bool,
    filters: &Vec<String>,
    gh_available: bool,
) -> (r: SearchStart)
    ensures
        start_view(r) == spec_search_start(
            query@,
            ai_enabled,
            ai_configured,
            views_of(filters@),
            gh_available,
        ),
{
    let q = trim_str(query);
    if q.as_str().is_empty() {
        return SearchStart::Nothing;
    }
    if ai_enabled && !ai_configured {
        proof {
            reveal_strlit("No AI provider configured");
        }
        return SearchStart::Refused(String::from_str("No AI provider configured"));
    }
    let mut names: Vec<String> = Vec::new();
    if ai_enabled {
        names.push(String::from_str("AI"));
        proof {
            reveal_strlit("AI");
        }
        assert(views_of(names@) =~= seq!["AI"@]);
    } else {
        let ghost fs = views_of(filters@);
        let mut i: usize = 0;
        while i < filters.len()
            invariant
                i <= filters@.len(),
                fs == views_of(filters@),
                views_of(names@) == search_names(fs.take(i as int), gh_available),
            decreases filters@.len() - i,
        {
            assert(fs.take(i + 1).drop_last() =~= fs.take(i as int));
            assert(fs.take(i + 1).last() == filters@[i as int]@);
            match search_name(filters[i].as_str(), gh_available) {
                Some(n) => {
                    let ghost before = views_of(names@);
                    names.push(n.to_owned());
                    assert(views_of(names@) =~= before.push(n@));
                },
                None => {},
            }
            i += 1;
        }
        assert(fs.take(filters@.len() as int) =~= fs);
    }
    if names.len() == 0 {
        proof {
            reveal_strlit("No search sources enabled");
        }
        return SearchStart::Refused(String::from_str("No search sources enabled"));
    }
    SearchStart::Search { query: q, source_names: names }
}

/// The progress shown while step `step` of a Discover search runs, with
/// `found` results so far.
pub fn discover_step_progress(step: usize, source_names: &Vec<String>, found: usize) -> (r:
    LoadingProgress)
    requires
        step < source_names@.len(),
    ensures
        r.current_step == step + 1,
        r.total_steps == source_names@.len(),
        r.step_name@ == source_names@[step as int]@,
        r.found_count == found,
{
    let total = source_names.len();
    LoadingProgress {
        current_step: step + 1,
        total_steps: total,
        step_name: source_names[step].clone(),
        found_count: found,
    }
}

/// The status line at the end of a Discover search that found `count`
/// results.
pub open spec fn spec_search_status(count: nat) -> Seq<char> {
    if count == 0 {
        "No results found"@
    } else {
        "Found "@ + decimal(count) + " tool(s)"@
    }
}

/// The status line at the end of a Discover search (see
/// `spec_search_status`).
pub fn discover_search_status(count: usize) -> (r: String)
    ensures
        r@ == spec_search_status(count as nat),
{
    if count == 0 {
        proof {
            reveal_strlit("No results found");
        }
        String::from_str("No results found")
    } else {
        let mut s = String::from_str("Found ");
        s.append(usize_to_string(count).as_str());
        s.append(" tool(s)");
        proof {
            reveal_strlit("Found ");
            reveal_strlit(" tool(s)");
        }
        s
    }
}

/// The step of a Discover search after `step`, when its searches are not
/// all done.
pub fn next_discover_step(step: usize, total: usize) -> (r: Option<usize>)
    ensures
        r == (if step + 1 < total {
            Some((step + 1) as usize)
        } else {
            None::<usize>
        }),
{
    if step < total && step + 1 < total {
        Some(step + 1)
    } else {
        None
    }
}

/// The progress label of a running AI search: "AI (<s>.<tenths>s)" for
/// the time it has run, in milliseconds.
pub open spec fn spec_ai_step_label(elapsed_ms: nat) -> Seq<char> {
    "AI ("@ + decimal(elapsed_ms / 1000) + "."@ + decimal((elapsed_ms % 1000) / 100) + "s)"@
}

/// The progress label of a running AI search (see `spec_ai_step_label`).
pub fn ai_step_label(elapsed_ms: u64) -> (r: String)
    ensures
        r@ == spec_ai_step_label(elapsed_ms as nat),
{
    let mut s = String::from_str("AI (");
    s.append(u64_to_string(elapsed_ms / 1000).as_str());
    s.append(".");
    s.append(u64_to_string((elapsed_ms % 1000) / 100).as_str());
    s.append("s)");
    s
}

/// The first result row shown: the selection kept in the middle of the
/// `visible` rows where it can be, without scrolling past the end; none
/// while there is nothing to show.
pub open spec fn spec_centered_offset(selected: nat, len: nat, visible: nat) -> nat {
    if len == 0 || visible == 0 {
        0
    } else {
        let centered = if selected > visible / 2 {
            (selected - visible / 2) as nat
        } else {
            0
        };
        let last = if len > visible {
            (len - visible) as nat
        } else {
            0
        };
        if centered < last {
            centered
        } else {
            last
        }
    }
}

/// The first result row shown (see `spec_centered_offset`).
pub fn centered_offset(selected: usize, len: usize, visible: usize) -> (r: usize)
    ensures
        r == spec_centered_offset(selected as nat, len as nat, visible as nat),
{
    if len == 0 || visible == 0 {
        return 0;
    }
    let centered = if selected > visible / 2 {
        selected - visible / 2
    } else {
        0
    };
    let last = if len > visible {
        len - visible
    } else {
        0
    };
    if centered < last {
        centered
    } else {
        last
    }
}

/// The title of the result list: " Results [<n>] (<sort>↕) ".
pub open spec fn spec_results_title(n: nat, sort: Seq<char>) -> Seq<char> {
    " Results ["@ + decimal(n) + "] ("@ + sort + "↕) "@
}

/// The title of the result list (see `spec_results_title`).
pub fn results_title(n: usize, sort: DiscoverSortBy) -> (r: String)
    ensures
        r@ == spec_results_title(
            n as nat,
            match sort {
                DiscoverSortBy::Stars => "stars"@,
                DiscoverSortBy::Name => "name"@,
                DiscoverSortBy::Source => "source"@,
            },
        ),
{
    let mut t = String::from_str(" Results [");
    t.append(usize_to_string(n).as_str());
    t.append("] (");
    t.append(sort.label());
    t.append("↕) ");
    t
}

/// The status line after trying to open a result's page, and whether it
/// reports an error: `url` is the result's page, if it has one, `opened`
/// what starting the browser gave.
pub open spec fn spec_open_page_status(url: Option<Seq<char>>, opened: Result<(), Seq<char>>) -> (Seq<char>, bool) {
    match url {
        None => ("No URL available for this result"@, false),
        Some(u) => match opened {
            Ok(()) => ("Opening "@ + u, false),
            Err(e) => ("Failed to open URL: "@ + e, true),
        },
    }
}

/// The status line after trying to open a result's page (see
/// `spec_open_page_status`).
pub fn open_page_status(url: Option<&str>, opened: Result<(), &str>) -> (r: (String, bool))
    ensures
        (r.0@, r.1) == spec_open_page_status(
            match url {
                Some(u) => Some(u@),
                None => None,
            },
            match opened {
                Ok(()) => Ok(()),
                Err(e) => Err(e@),
            },
        ),
{
    match url {
        None => (String::from_str("No URL available for this result"), false),
        Some(u) => match opened {
            Ok(()) => {
                let mut t = String::from_str("Opening ");
                t.append(u);
                (t, false)
            },
            Err(e) => {
                let mut t = String::from_str("Failed to open URL: ");
                t.append(e);
                (t, true)
            },
        },
    }
}

} // verus!

