//! The tool list: filtering by source, favourites and a fuzzy query, and
//! ordering by match score or by the chosen sort.

use vstd::prelude::*;
use crate::cache::{CacheManager, NameMap, ToolUsage};
use crate::fuzzy::{fuzzy_fits, fuzzy_match, fuzzy_result, result_score};
use crate::text::{chars_of, lowercase, str_eq, views_of};
use crate::types::{InstallSource, SortBy};

verus! {

/// A tool as the list shows it.
#[derive(Debug, Clone)]
pub struct Tool {
    pub name: String,
    pub description: Option<String>,
    pub category: Option<String>,
    pub source: InstallSource,
    pub install_command: Option<String>,
    pub binary_name: Option<String>,
    pub is_installed: bool,
    pub is_favorite: bool,
    /// Time of the last change, in seconds since the Unix epoch.
    pub updated_at: i64,
}

/// What `fuzzy_match` gives for `query` and `target`.
pub open spec fn match_score(query: Seq<char>, target: Seq<char>) -> Option<int> {
    if fuzzy_fits(lowercase(query), lowercase(target)) {
        result_score(fuzzy_result(lowercase(query), lowercase(target)))
    } else {
        None
    }
}

/// Score of an optional text field.
pub open spec fn field_score(query: Seq<char>, field: Option<String>) -> Option<int> {
    match field {
        Some(s) => match_score(query, s@),
        None => None,
    }
}

/// The larger of two optional scores; a missing one does not count.
pub open spec fn max_score(a: Option<int>, b: Option<int>) -> Option<int> {
    match a {
        Some(x) => match b {
            Some(y) => Some(
                if x >= y {
                    x
                } else {
                    y
                },
            ),
            None => Some(x),
        },
        None => b,
    }
}

/// Best score of a tool over its name (with a bonus of 10), description and
/// category; `None` when none of them matches.
pub open spec fn tool_score(query: Seq<char>, t: Tool) -> Option<int> {
    let name = match match_score(query, t.name@) {
        Some(s) => Some(s + 10),
        None => None,
    };
    max_score(max_score(name, field_score(query, t.description)), field_score(query, t.category))
}

/// A tool matches a search exactly when its name, its description or its
/// category matches the query, and its score is the best of these: the
/// name's score raised by 10, the description's and the category's. So a
/// tool whose category matches is kept, scoring at least as much as its
/// category does.
pub proof fn law_tool_score_is_best_field(query: Seq<char>, t: Tool)
    ensures
        match_score(query, t.name@) matches Some(n) ==> (tool_score(query, t) matches Some(x) && x
            >= n + 10),
        forall|d: String, s: int|
            t.description == Some(d) && match_score(query, d@) == Some(s) ==> (tool_score(
                query,
                t,
            ) matches Some(x) && x >= s),
        forall|c: String, s: int|
            t.category == Some(c) && match_score(query, c@) == Some(s) ==> (tool_score(
                query,
                t,
            ) matches Some(x) && x >= s),
        tool_score(query, t) matches Some(x) ==> {
            ||| match_score(query, t.name@) == Some(x - 10)
            ||| (t.description matches Some(d) && match_score(query, d@) == Some(x))
            ||| (t.category matches Some(c) && match_score(query, c@) == Some(x))
        },
        tool_score(query, t) is None ==> {
            &&& match_score(query, t.name@) is None
            &&& (t.description matches Some(d) ==> match_score(query, d@) is None)
            &&& (t.category matches Some(c) ==> match_score(query, c@) is None)
        },
{
}

/// The list's filters.
pub struct ListFilters {
    /// Only tools of this source (a lower-case source name).
    pub source: Option<String>,
    /// Only tools that carry every one of these labels.
    pub labels: Vec<String>,
    pub favorites_only: bool,
    /// Fuzzy query on name, description and category; empty for none.
    pub search_query: String,
    pub sort_by: SortBy,
}

/// The filters as values.
pub struct FilterView {
    pub source: Option<Seq<char>>,
    pub labels: Seq<Seq<char>>,
    pub favorites_only: bool,
    pub query: Seq<char>,
    pub sort_by: SortBy,
}

impl ListFilters {
    pub open spec fn view(&self) -> FilterView {
        FilterView {
            source: match self.source {
                Some(s) => Some(s@),
                None => None,
            },
            labels: views_of(self.labels@),
            favorites_only: self.favorites_only,
            query: self.search_query@,
            sort_by: self.sort_by,
        }
    }
}

/// The labels of a tool, as values; none when it has no entry.
pub open spec fn labels_of(labels: Map<Seq<char>, Vec<String>>, name: Seq<char>) -> Seq<Seq<char>> {
    if labels.dom().contains(name) {
        views_of(labels[name]@)
    } else {
        seq![]
    }
}

/// The tool passes the source filter, the label filter (an entry with
/// every wanted label) and the favourites filter.
pub open spec fn keeps(t: Tool, f: FilterView, labels: Map<Seq<char>, Vec<String>>) -> bool {
    &&& (f.source matches Some(s) ==> t.source.spec_filter_name() == s)
    &&& (f.labels.len() > 0 ==> labels.dom().contains(t.name@) && forall|i: int|
        0 <= i < f.labels.len() ==> labels_of(labels, t.name@).contains(#[trigger] f.labels[i]))
    &&& (f.favorites_only ==> t.is_favorite)
}

/// How the list is ordered.
#[derive(Debug, Clone, Copy, PartialEq, Eq, Structural)]
pub enum ListOrder {
    /// Best match first (while searching).
    Score,
    /// By name, A to Z.
    Name,
    /// Most used first.
    Usage,
    /// Most recently used first; never-used tools last, by name.
    Recent,
}

pub open spec fn spec_list_order(query: Seq<char>, sort_by: SortBy) -> ListOrder {
    if query.len() > 0 {
        ListOrder::Score
    } else {
        match sort_by {
            SortBy::Name => ListOrder::Name,
            SortBy::Usage => ListOrder::Usage,
            SortBy::Recent => ListOrder::Recent,
        }
    }
}

/// Searching orders by score; otherwise the chosen sort applies.
pub fn list_order(query: &str, sort_by: SortBy) -> (r: ListOrder)
    ensures
        r == spec_list_order(query@, sort_by),
{
    if !query.is_empty() {
        ListOrder::Score
    } else {
        match sort_by {
            SortBy::Name => ListOrder::Name,
            SortBy::Usage => ListOrder::Usage,
            SortBy::Recent => ListOrder::Recent,
        }
    }
}

/// Recorded uses of a tool, 0 when none are recorded.
pub open spec fn usage_count(usage: Map<Seq<char>, ToolUsage>, name: Seq<char>) -> int {
    if usage.dom().contains(name) {
        usage[name].use_count as int
    } else {
        0
    }
}

/// The key by which `order` ranks a tool matched with `score`, higher
/// first (unused when ordering by name or recency).
pub open spec fn rank_key(
    order: ListOrder,
    usage: Map<Seq<char>, ToolUsage>,
    t: Tool,
    score: int,
) -> int {
    match order {
        ListOrder::Score => score,
        ListOrder::Name => 0,
        ListOrder::Usage => usage_count(usage, t.name@),
        ListOrder::Recent => 0,
    }
}

/// The tools kept by the filters and, when searching, by the query, with
/// their keys, in their original order.
pub open spec fn ranked_rows(
    tools: Seq<Tool>,
    f: FilterView,
    order: ListOrder,
    usage: Map<Seq<char>, ToolUsage>,
    labels: Map<Seq<char>, Vec<String>>,
) -> Seq<(Tool, int)>
    decreases tools.len(),
{
    if tools.len() == 0 {
        seq![]
    } else {
        let rest = ranked_rows(tools.drop_last(), f, order, usage, labels);
        let t = tools.last();
        if !keeps(t, f, labels) {
            rest
        } else if f.query.len() == 0 {
            rest.push((t, rank_key(order, usage, t, 0)))
        } else {
            match tool_score(f.query, t) {
                Some(s) => rest.push((t, rank_key(order, usage, t, s))),
                None => rest,
            }
        }
    }
}

/// `a` comes before `b` in the lexicographic order of characters, which
/// is the order of `String`s.
pub open spec fn lex_less(a: Seq<char>, b: Seq<char>) -> bool
    decreases a.len(),
{
    if a.len() == 0 {
        b.len() > 0
    } else if b.len() == 0 {
        false
    } else if a[0] != b[0] {
        a[0] < b[0]
    } else {
        lex_less(a.drop_first(), b.drop_first())
    }
}

/// When a tool was last used, if it ever was.
pub open spec fn last_used(usage: Map<Seq<char>, ToolUsage>, name: Seq<char>) -> Option<Seq<char>> {
    if usage.dom().contains(name) {
        match usage[name].last_used {
            Some(t) => Some(t@),
            None => None,
        }
    } else {
        None
    }
}

/// Row `a` must be listed before row `b`.
pub open spec fn goes_before(
    order: ListOrder,
    usage: Map<Seq<char>, ToolUsage>,
    a: (Tool, int),
    b: (Tool, int),
) -> bool {
    match order {
        ListOrder::Name => lex_less(a.0.name@, b.0.name@),
        ListOrder::Recent => match last_used(usage, a.0.name@) {
            Some(x) => match last_used(usage, b.0.name@) {
                Some(y) => lex_less(y, x),
                None => true,
            },
            None => match last_used(usage, b.0.name@) {
                Some(_) => false,
                None => lex_less(a.0.name@, b.0.name@),
            },
        },
        _ => a.1 > b.1,
    }
}

/// `x` inserted into `r` after every row that it need not precede,
/// scanning from the end (a stable insertion).
pub open spec fn insert_row(
    r: Seq<(Tool, int)>,
    x: (Tool, int),
    order: ListOrder,
    usage: Map<Seq<char>, ToolUsage>,
) -> Seq<(Tool, int)>
    decreases r.len(),
{
    if r.len() == 0 {
        seq![x]
    } else if goes_before(order, usage, x, r.last()) {
        insert_row(r.drop_last(), x, order, usage).push(r.last())
    } else {
        r.push(x)
    }
}

/// Stable sort of rows by `order`.
pub open spec fn sort_rows(
    s: Seq<(Tool, int)>,
    order: ListOrder,
    usage: Map<Seq<char>, ToolUsage>,
) -> Seq<(Tool, int)>
    decreases s.len(),
{
    if s.len() == 0 {
        s
    } else {
        insert_row(sort_rows(s.drop_last(), order, usage), s.last(), order, usage)
    }
}

/// The tools of rows.
pub open spec fn row_tools(s: Seq<(Tool, int)>) -> Seq<Tool> {
    s.map_values(|r: (Tool, int)| r.0)
}

/// The list shown for these filters, with this usage and these labels.
pub open spec fn listed_tools(
    all: Seq<Tool>,
    f: FilterView,
    usage: Map<Seq<char>, ToolUsage>,
    labels: Map<Seq<char>, Vec<String>>,
) -> Seq<Tool> {
    let order = spec_list_order(f.query, f.sort_by);
    row_tools(sort_rows(ranked_rows(all, f, order, usage, labels), order, usage))
}

/// Rows with integer keys.
pub open spec fn row_view(s: Seq<(Tool, i64)>) -> Seq<(Tool, int)> {
    s.map_values(|r: (Tool, i64)| (r.0, r.1 as int))
}

/// Optional machine scores as integers.
pub open spec fn opt_int(o: Option<i64>) -> Option<int> {
    match o {
        Some(x) => Some(x as int),
        None => None,
    }
}

fn copy_text(o: &Option<String>) -> (r: Option<String>)
    ensures
        r == *o,
{
    match o {
        Some(s) => Some(s.clone()),
        None => None,
    }
}

fn copy_tool(t: &Tool) -> (r: Tool)
    ensures
        r == *t,
{
    Tool {
        name: t.name.clone(),
        description: copy_text(&t.description),
        category: copy_text(&t.category),
        source: t.source,
        install_command: copy_text(&t.install_command),
        binary_name: copy_text(&t.binary_name),
        is_installed: t.is_installed,
        is_favorite: t.is_favorite,
        updated_at: t.updated_at,
    }
}

fn score_of(query: &str, target: &str) -> (r: Option<i64>)
    ensures
        opt_int(r) == match_score(query@, target@),
        r matches Some(x) ==> i32::MIN <= x <= i32::MAX,
{
    match fuzzy_match(query, target) {
        Some(s) => Some(s as i64),
        None => None,
    }
}

fn field_score_of(query: &str, field: &Option<String>) -> (r: Option<i64>)
    ensures
        opt_int(r) == field_score(query@, *field),
{
    match field {
        Some(s) => score_of(query, s.as_str()),
        None => None,
    }
}

fn max_of(a: Option<i64>, b: Option<i64>) -> (r: Option<i64>)
    ensures
        opt_int(r) == max_score(opt_int(a), opt_int(b)),
{
    match a {
        Some(x) => match b {
            Some(y) => Some(
                if x >= y {
                    x
                } else {
                    y
                },
            ),
            None => Some(x),
        },
        None => b,
    }
}

/// Best match score of a tool for `query` (see `tool_score`).
pub fn tool_match_score(query: &str, t: &Tool) -> (r: Option<i64>)
    ensures
        opt_int(r) == tool_score(query@, *t),
{
    let name = match score_of(query, t.name.as_str()) {
        Some(s) => Some(s + 10),
        None => None,
    };
    let best = max_of(name, field_score_of(query, &t.description));
    max_of(best, field_score_of(query, &t.category))
}

/// Whether `v` holds a string equal to `x`.
pub fn contains_text(v: &Vec<String>, x: &str) -> (r: bool)
    ensures
        r == views_of(v@).contains(x@),
{
    let ghost vs = views_of(v@);
    let mut i: usize = 0;
    while i < v.len()
        invariant
            i <= v@.len(),
            vs == views_of(v@),
            forall|k: int| 0 <= k < i ==> vs[k] != x@,
        decreases v@.len() - i,
    {
        if str_eq(v[i].as_str(), x) {
            assert(vs[i as int] == x@);
            return true;
        }
        i += 1;
    }
    assert forall|k: int| 0 <= k < vs.len() implies vs[k] != x@ by {}
    false
}

fn has_all_labels(tool_labels: &Vec<String>, wanted: &Vec<String>) -> (r: bool)
    ensures
        r == forall|i: int|
            0 <= i < wanted@.len() ==> views_of(tool_labels@).contains(
                #[trigger] views_of(wanted@)[i],
            ),
{
    let ghost ws = views_of(wanted@);
    let ghost ts = views_of(tool_labels@);
    let mut i: usize = 0;
    while i < wanted.len()
        invariant
            i <= wanted@.len(),
            ws == views_of(wanted@),
            ts == views_of(tool_labels@),
            forall|k: int| 0 <= k < i ==> ts.contains(#[trigger] ws[k]),
        decreases wanted@.len() - i,
    {
        if !contains_text(tool_labels, wanted[i].as_str()) {
            assert(!ts.contains(ws[i as int]));
            return false;
        }
        i += 1;
    }
    true
}

fn keeps_tool(t: &Tool, f: &ListFilters, labels: &NameMap<Vec<String>>) -> (r: bool)
    ensures
        r == keeps(*t, f.view(), labels@),
{
    let source_ok = match &f.source {
        Some(s) => str_eq(t.source.filter_name(), s.as_str()),
        None => true,
    };
    let labels_ok = if f.labels.len() > 0 {
        match labels.get(t.name.as_str()) {
            Some(tool_labels) => has_all_labels(tool_labels, &f.labels),
            None => false,
        }
    } else {
        true
    };
    let ghost v = f.view();
    assert(source_ok == (v.source matches Some(s) ==> t.source.spec_filter_name() == s));
    assert(labels_ok == (v.labels.len() > 0 ==> labels@.dom().contains(t.name@) && forall|i: int|
        0 <= i < v.labels.len() ==> labels_of(labels@, t.name@).contains(#[trigger] v.labels[i])));
    source_ok && labels_ok && (!f.favorites_only || t.is_favorite)
}

fn key_of(order: ListOrder, usage: &NameMap<ToolUsage>, t: &Tool, score: i64) -> (r: i64)
    ensures
        r as int == rank_key(order, usage@, *t, score as int),
{
    match order {
        ListOrder::Score => score,
        ListOrder::Name => 0,
        ListOrder::Usage => match usage.get(t.name.as_str()) {
            Some(u) => u.use_count,
            None => 0,
        },
        ListOrder::Recent => 0,
    }
}

/// Compares two names as `String`s are ordered.
pub fn name_less(a: &str, b: &str) -> (r: bool)
    ensures
        r == lex_less(a@, b@),
{
    let x = chars_of(a);
    let y = chars_of(b);
    let mut i: usize = 0;
    assert(a@.skip(0) =~= a@ && b@.skip(0) =~= b@);
    while i < x.len() && i < y.len() && x[i] == y[i]
        invariant
            i <= x@.len(),
            i <= y@.len(),
            x@ == a@,
            y@ == b@,
            lex_less(a@, b@) == lex_less(a@.skip(i as int), b@.skip(i as int)),
        decreases x@.len() - i,
    {
        proof {
            let (s, t) = (a@.skip(i as int), b@.skip(i as int));
            assert(s.drop_first() =~= a@.skip(i + 1));
            assert(t.drop_first() =~= b@.skip(i + 1));
        }
        i += 1;
    }
    let ghost (s, t) = (a@.skip(i as int), b@.skip(i as int));
    if i == x.len() {
        assert(s.len() == 0);
        i < y.len()
    } else if i == y.len() {
        false
    } else {
        assert(s[0] == x@[i as int] && t[0] == y@[i as int]);
        x[i] < y[i]
    }
}

fn last_used_of<'a>(usage: &'a NameMap<ToolUsage>, name: &str) -> (r: Option<&'a String>)
    ensures
        match r {
            Some(s) => last_used(usage@, name@) == Some(s@),
            None => last_used(usage@, name@) is None,
        },
{
    match usage.get(name) {
        Some(u) => match &u.last_used {
            Some(t) => Some(t),
            None => None,
        },
        None => None,
    }
}

fn row_before(order: ListOrder, usage: &NameMap<ToolUsage>, a: &(Tool, i64), b: &(Tool, i64)) -> (r:
    bool)
    ensures
        r == goes_before(order, usage@, (a.0, a.1 as int), (b.0, b.1 as int)),
{
    match order {
        ListOrder::Name => name_less(a.0.name.as_str(), b.0.name.as_str()),
        ListOrder::Recent => match last_used_of(usage, a.0.name.as_str()) {
            Some(x) => match last_used_of(usage, b.0.name.as_str()) {
                Some(y) => name_less(y.as_str(), x.as_str()),
                None => true,
            },
            None => match last_used_of(usage, b.0.name.as_str()) {
                Some(_) => false,
                None => name_less(a.0.name.as_str(), b.0.name.as_str()),
            },
        },
        _ => a.1 > b.1,
    }
}

/// Insert `x` into `r` as `insert_row` does.
fn insert_ranked(
    r: &mut Vec<(Tool, i64)>,
    x: (Tool, i64),
    order: ListOrder,
    usage: &NameMap<ToolUsage>,
)
    ensures
        row_view(final(r)@) == insert_row(row_view(old(r)@), (x.0, x.1 as int), order, usage@),
{
    let ghost v = row_view(r@);
    let ghost xv = (x.0, x.1 as int);
    let mut j = r.len();
    assert(v.take(j as int) =~= v);
    assert(v.skip(j as int) =~= Seq::<(Tool, int)>::empty());
    assert(insert_row(v, xv, order, usage@) + Seq::<(Tool, int)>::empty() =~= insert_row(v, xv, order, usage@));
    while j > 0 && row_before(order, usage, &x, &r[j - 1])
        invariant
            j <= r@.len(),
            v == row_view(r@),
            xv == (x.0, x.1 as int),
            insert_row(v, xv, order, usage@) == insert_row(v.take(j as int), xv, order, usage@) + v.skip(j as int),
        decreases j,
    {
        proof {
            let t = v.take(j as int);
            assert(t.drop_last() =~= v.take(j - 1));
            assert(t.last() == v[j - 1]);
            assert(v.skip(j - 1) =~= seq![v[j - 1]] + v.skip(j as int));
            assert(insert_row(t, xv, order, usage@) == insert_row(v.take(j - 1), xv, order, usage@).push(v[j - 1]));
            assert(insert_row(v.take(j - 1), xv, order, usage@).push(v[j - 1]) + v.skip(j as int)
                =~= insert_row(v.take(j - 1), xv, order, usage@) + v.skip(j - 1));
        }
        j -= 1;
    }
    proof {
        if j == 0 {
            assert(v.take(0) =~= Seq::<(Tool, int)>::empty());
        } else {
            assert(v.take(j as int).last() == v[j - 1]);
        }
    }
    r.insert(j, x);
    proof {
        assert(row_view(r@) =~= v.take(j as int).push(xv) + v.skip(j as int));
    }
}

/// The tool list for the given filters: the tools of `all_tools` from the
/// chosen source, carrying every chosen label and, if asked, only
/// favourites; when the search query is not empty, only those that match
/// it on name, description or category, best match first; otherwise
/// ordered by the chosen sort (name A to Z, most used first, or most
/// recently used first with never-used tools last by name). Ties keep
/// their order.
pub fn filter_and_sort_tools(all_tools: &Vec<Tool>, filters: &ListFilters, cache: &CacheManager) -> (r:
    Vec<Tool>)
    ensures
        r@ == listed_tools(all_tools@, filters.view(), cache.usage_data@, cache.labels_cache@),
{
    let order = list_order(filters.search_query.as_str(), filters.sort_by);
    let ghost f = filters.view();
    let usage = &cache.usage_data;
    let labels = &cache.labels_cache;
    let mut rows: Vec<(Tool, i64)> = Vec::new();
    let mut i: usize = 0;
    while i < all_tools.len()
        invariant
            i <= all_tools@.len(),
            f == filters.view(),
            order == spec_list_order(f.query, f.sort_by),
            row_view(rows@) == ranked_rows(all_tools@.take(i as int), f, order, usage@, labels@),
        decreases all_tools@.len() - i,
    {
        let t = &all_tools[i];
        proof {
            assert(all_tools@.take(i + 1).drop_last() =~= all_tools@.take(i as int));
            assert(all_tools@.take(i + 1).last() == *t);
        }
        if keeps_tool(t, filters, labels) {
            if filters.search_query.as_str().is_empty() {
                let key = key_of(order, usage, t, 0);
                let ghost before = rows@;
                rows.push((copy_tool(t), key));
                assert(row_view(rows@) =~= row_view(before).push((*t, key as int)));
            } else {
                match tool_match_score(filters.search_query.as_str(), t) {
                    Some(s) => {
                        let key = key_of(order, usage, t, s);
                        let ghost before = rows@;
                        rows.push((copy_tool(t), key));
                        assert(row_view(rows@) =~= row_view(before).push((*t, key as int)));
                    },
                    None => {},
                }
            }
        }
        i += 1;
    }
    assert(all_tools@.take(all_tools@.len() as int) =~= all_tools@);
    let ghost ranked = row_view(rows@);
    let mut sorted: Vec<(Tool, i64)> = Vec::new();
    for x in it: rows
        invariant
            it.seq() == rows@,
            ranked == row_view(rows@),
            row_view(sorted@) == sort_rows(ranked.take(it.index() as int), order, usage@),
    {
        proof {
            assert(ranked.take(it.index() + 1).drop_last() =~= ranked.take(it.index() as int));
            assert(ranked.take(it.index() + 1).last() == (x.0, x.1 as int));
        }
        insert_ranked(&mut sorted, x, order, usage);
    }
    assert(ranked.take(ranked.len() as int) =~= ranked);
    let ghost ordered = row_view(sorted@);
    let mut out: Vec<Tool> = Vec::new();
    for x in it: sorted
        invariant
            it.seq() == sorted@,
            ordered == row_view(sorted@),
            out@ == row_tools(ordered.take(it.index() as int)),
    {
        proof {
            assert(row_tools(ordered.take(it.index() + 1)) =~= row_tools(
                ordered.take(it.index() as int),
            ).push(x.0));
        }
        out.push(x.0);
    }
    assert(ordered.take(ordered.len() as int) =~= ordered);
    out
}

/// No row goes before an earlier one.
pub open spec fn rows_sorted(
    r: Seq<(Tool, int)>,
    order: ListOrder,
    usage: Map<Seq<char>, ToolUsage>,
) -> bool {
    forall|i: int, j: int|
        0 <= i < j < r.len() ==> !goes_before(order, usage, #[trigger] r[j], #[trigger] r[i])
}

pub proof fn lemma_lex_asym(a: Seq<char>, b: Seq<char>)
    ensures
        lex_less(a, b) ==> !lex_less(b, a),
    decreases a.len(),
{
    if a.len() > 0 && b.len() > 0 && a[0] == b[0] {
        lemma_lex_asym(a.drop_first(), b.drop_first());
    }
}

pub proof fn lemma_lex_not_less_trans(a: Seq<char>, b: Seq<char>, c: Seq<char>)
    requires
        !lex_less(a, b),
        !lex_less(b, c),
    ensures
        !lex_less(a, c),
    decreases a.len(),
{
    if a.len() > 0 && b.len() > 0 && c.len() > 0 && a[0] == b[0] && b[0] == c[0] {
        lemma_lex_not_less_trans(a.drop_first(), b.drop_first(), c.drop_first());
    }
}

proof fn lemma_lex_trans(a: Seq<char>, b: Seq<char>, c: Seq<char>)
    requires
        lex_less(a, b),
        lex_less(b, c),
    ensures
        lex_less(a, c),
    decreases a.len(),
{
    if a.len() > 0 && b.len() > 0 && c.len() > 0 && a[0] == b[0] && b[0] == c[0] {
        lemma_lex_trans(a.drop_first(), b.drop_first(), c.drop_first());
    }
}

proof fn lemma_lex_total(a: Seq<char>, b: Seq<char>)
    requires
        a != b,
    ensures
        lex_less(a, b) || lex_less(b, a),
    decreases a.len(),
{
    if a.len() > 0 && b.len() > 0 && a[0] == b[0] {
        if a.drop_first() == b.drop_first() {
            assert(a.drop_first().len() == b.drop_first().len());
            assert forall|i: int| 0 <= i < a.len() implies a[i] == b[i] by {
                if i > 0 {
                    assert(a[i] == a.drop_first()[i - 1]);
                    assert(b[i] == b.drop_first()[i - 1]);
                }
            }
            assert(a =~= b);
        } else {
            lemma_lex_total(a.drop_first(), b.drop_first());
        }
    } else if a.len() == 0 && b.len() == 0 {
        assert(a =~= b);
    }
}

proof fn lemma_lex_irreflexive(a: Seq<char>)
    ensures
        !lex_less(a, a),
    decreases a.len(),
{
    if a.len() > 0 {
        lemma_lex_irreflexive(a.drop_first());
    }
}

/// The order of names is a strict total order: never a name before
/// itself, never both ways, transitive, and one way or the other for two
/// different names.
pub proof fn law_lex_strict_total_order(a: Seq<char>, b: Seq<char>, c: Seq<char>)
    ensures
        !lex_less(a, a),
        lex_less(a, b) ==> !lex_less(b, a),
        lex_less(a, b) && lex_less(b, c) ==> lex_less(a, c),
        a != b ==> lex_less(a, b) || lex_less(b, a),
{
    lemma_lex_irreflexive(a);
    lemma_lex_asym(a, b);
    if lex_less(a, b) && lex_less(b, c) {
        lemma_lex_trans(a, b, c);
    }
    if a != b {
        lemma_lex_total(a, b);
    }
}

proof fn lemma_before_asym(
    order: ListOrder,
    usage: Map<Seq<char>, ToolUsage>,
    a: (Tool, int),
    b: (Tool, int),
)
    ensures
        goes_before(order, usage, a, b) ==> !goes_before(order, usage, b, a),
{
    lemma_lex_asym(a.0.name@, b.0.name@);
    match (last_used(usage, a.0.name@), last_used(usage, b.0.name@)) {
        (Some(x), Some(y)) => lemma_lex_asym(y, x),
        _ => {},
    }
}

proof fn lemma_not_before_trans(
    order: ListOrder,
    usage: Map<Seq<char>, ToolUsage>,
    a: (Tool, int),
    b: (Tool, int),
    c: (Tool, int),
)
    requires
        !goes_before(order, usage, b, a),
        !goes_before(order, usage, c, b),
    ensures
        !goes_before(order, usage, c, a),
{
    let (la, lb, lc) = (
        last_used(usage, a.0.name@),
        last_used(usage, b.0.name@),
        last_used(usage, c.0.name@),
    );
    if order == ListOrder::Name || (order == ListOrder::Recent && la is None && lb is None
        && lc is None) {
        lemma_lex_not_less_trans(c.0.name@, b.0.name@, a.0.name@);
    } else if order == ListOrder::Recent {
        match (la, lb, lc) {
            (Some(x), Some(y), Some(z)) => lemma_lex_not_less_trans(x, y, z),
            _ => {},
        }
    }
}

proof fn lemma_insert_row(
    r: Seq<(Tool, int)>,
    x: (Tool, int),
    order: ListOrder,
    usage: Map<Seq<char>, ToolUsage>,
)
    requires
        rows_sorted(r, order, usage),
    ensures
        rows_sorted(insert_row(r, x, order, usage), order, usage),
        insert_row(r, x, order, usage).to_multiset() == r.to_multiset().insert(x),
        forall|y: (Tool, int)|
            (forall|k: int| 0 <= k < r.len() ==> !goes_before(order, usage, y, #[trigger] r[k]))
                && !goes_before(order, usage, y, x) ==> forall|k: int|
                0 <= k < insert_row(r, x, order, usage).len() ==> !goes_before(
                    order,
                    usage,
                    y,
                    #[trigger] insert_row(r, x, order, usage)[k],
                ),
    decreases r.len(),
{
    broadcast use vstd::seq_lib::group_to_multiset_ensures;
    if r.len() == 0 {
        assert(seq![x] =~= Seq::<(Tool, int)>::empty().push(x));
    } else if goes_before(order, usage, x, r.last()) {
        let d = r.drop_last();
        let l = r.last();
        assert(rows_sorted(d, order, usage));
        lemma_insert_row(d, x, order, usage);
        lemma_before_asym(order, usage, x, l);
        assert forall|k: int| 0 <= k < d.len() implies !goes_before(order, usage, l, #[trigger] d[k]) by {
            assert(r[k] == d[k]);
        }
        assert(r =~= d.push(l));
        let ins = insert_row(d, x, order, usage);
        assert forall|i: int, j: int| 0 <= i < j < ins.push(l).len() implies !goes_before(
            order,
            usage,
            #[trigger] ins.push(l)[j],
            #[trigger] ins.push(l)[i],
        ) by {
            assert(ins.push(l)[i] == ins[i]);
            if j < ins.len() {
                assert(ins.push(l)[j] == ins[j]);
            }
        }
        assert forall|y: (Tool, int)|
            (forall|k: int| 0 <= k < r.len() ==> !goes_before(order, usage, y, #[trigger] r[k]))
                && !goes_before(order, usage, y, x) implies forall|k: int|
            0 <= k < ins.push(l).len() ==> !goes_before(order, usage, y, #[trigger] ins.push(l)[k]) by {
            assert forall|k: int| 0 <= k < d.len() implies !goes_before(order, usage, y, #[trigger] d[k]) by {
                assert(r[k] == d[k]);
            }
            assert(r[r.len() - 1] == l);
            assert forall|k: int| 0 <= k < ins.push(l).len() implies !goes_before(
                order,
                usage,
                y,
                #[trigger] ins.push(l)[k],
            ) by {
                if k < ins.len() {
                    assert(ins.push(l)[k] == ins[k]);
                }
            }
        }
    } else {
        let l = r.last();
        assert forall|k: int| 0 <= k < r.len() implies !goes_before(order, usage, x, #[trigger] r[k]) by {
            if k < r.len() - 1 {
                lemma_not_before_trans(order, usage, r[k], l, x);
            }
        }
        assert forall|i: int, j: int| 0 <= i < j < r.push(x).len() implies !goes_before(
            order,
            usage,
            #[trigger] r.push(x)[j],
            #[trigger] r.push(x)[i],
        ) by {
            assert(r.push(x)[i] == r[i]);
            if j < r.len() {
                assert(r.push(x)[j] == r[j]);
            }
        }
        assert forall|y: (Tool, int)|
            (forall|k: int| 0 <= k < r.len() ==> !goes_before(order, usage, y, #[trigger] r[k]))
                && !goes_before(order, usage, y, x) implies forall|k: int|
            0 <= k < r.push(x).len() ==> !goes_before(order, usage, y, #[trigger] r.push(x)[k]) by {
            assert forall|k: int| 0 <= k < r.push(x).len() implies !goes_before(
                order,
                usage,
                y,
                #[trigger] r.push(x)[k],
            ) by {
                if k < r.len() {
                    assert(r.push(x)[k] == r[k]);
                }
            }
        }
    }
}

/// The sort lists every row once, and no row before one it must follow.
pub proof fn law_sort_rows(s: Seq<(Tool, int)>, order: ListOrder, usage: Map<Seq<char>, ToolUsage>)
    ensures
        rows_sorted(sort_rows(s, order, usage), order, usage),
        sort_rows(s, order, usage).to_multiset() == s.to_multiset(),
    decreases s.len(),
{
    broadcast use vstd::seq_lib::group_to_multiset_ensures;
    if s.len() > 0 {
        law_sort_rows(s.drop_last(), order, usage);
        lemma_insert_row(sort_rows(s.drop_last(), order, usage), s.last(), order, usage);
        assert(s =~= s.drop_last().push(s.last()));
    } else {
        assert(rows_sorted(s, order, usage));
    }
}

/// Every kept row passes the filters and, when searching, matches the
/// query.
pub proof fn law_ranked_rows_pass(
    tools: Seq<Tool>,
    f: FilterView,
    order: ListOrder,
    usage: Map<Seq<char>, ToolUsage>,
    labels: Map<Seq<char>, Vec<String>>,
)
    ensures
        forall|k: int|
            0 <= k < ranked_rows(tools, f, order, usage, labels).len() ==> {
                let row = #[trigger] ranked_rows(tools, f, order, usage, labels)[k];
                &&& keeps(row.0, f, labels)
                &&& tools.contains(row.0)
                &&& f.query.len() > 0 ==> tool_score(f.query, row.0) is Some
            },
    decreases tools.len(),
{
    if tools.len() > 0 {
        let d = tools.drop_last();
        law_ranked_rows_pass(d, f, order, usage, labels);
        let rest = ranked_rows(d, f, order, usage, labels);
        let all = ranked_rows(tools, f, order, usage, labels);
        assert forall|k: int| 0 <= k < all.len() implies {
            let row = #[trigger] all[k];
            &&& keeps(row.0, f, labels)
            &&& tools.contains(row.0)
            &&& f.query.len() > 0 ==> tool_score(f.query, row.0) is Some
        } by {
            if k < rest.len() {
                assert(all[k] == rest[k]);
                let j = choose|j: int| 0 <= j < d.len() && d[j] == rest[k].0;
                assert(tools[j] == d[j]);
            } else {
                assert(tools[tools.len() - 1] == tools.last());
            }
        }
    }
}

/// The selection after the list changed length: kept if still in range,
/// else the last row (0 for an empty list).
pub fn clamp_selection(selected: usize, len: usize) -> (r: usize)
    ensures
        selected < len ==> r == selected,
        selected >= len ==> r == if len == 0 {
            0
        } else {
            len - 1
        },
{
    if selected >= len {
        len.saturating_sub(1)
    } else {
        selected
    }
}

/// Index of the first tool named `name`, if any.
pub open spec fn first_named(tools: Seq<Tool>, name: Seq<char>) -> Option<int> {
    if exists|i: int| 0 <= i < tools.len() && #[trigger] tools[i].name@ == name {
        Some(
            choose|i: int|
                0 <= i < tools.len() && #[trigger] tools[i].name@ == name && forall|j: int|
                    0 <= j < i ==> #[trigger] tools[j].name@ != name,
        )
    } else {
        None
    }
}

/// The list after marking its first tool named `name` a favourite or
/// not; the other tools and their order stay.
pub open spec fn spec_set_favorite(tools: Seq<Tool>, name: Seq<char>, favorite: bool) -> Seq<Tool> {
    match first_named(tools, name) {
        Some(i) => tools.update(i, Tool { is_favorite: favorite, ..tools[i] }),
        None => tools,
    }
}

/// Marks the first tool named `name` a favourite or not (see
/// `spec_set_favorite`).
pub fn set_favorite(tools: &mut Vec<Tool>, name: &str, favorite: bool)
    ensures
        final(tools)@ == spec_set_favorite(old(tools)@, name@, favorite),
{
    let mut i: usize = 0;
    while i < tools.len()
        invariant
            tools@ == old(tools)@,
            i <= tools@.len(),
            forall|j: int| 0 <= j < i ==> #[trigger] tools@[j].name@ != name@,
        decreases tools@.len() - i,
    {
        if str_eq(tools[i].name.as_str(), name) {
            let ghost k = i as int;
            proof {
                assert(exists|x: int| 0 <= x < tools@.len() && #[trigger] tools@[x].name@ == name@) by {
                    assert(tools@[k].name@ == name@);
                }
                let c = choose|x: int|
                    0 <= x < tools@.len() && #[trigger] tools@[x].name@ == name@ && forall|j: int|
                        0 <= j < x ==> #[trigger] tools@[j].name@ != name@;
                assert(0 <= k < tools@.len() && tools@[k].name@ == name@ && forall|j: int|
                    0 <= j < k ==> #[trigger] tools@[j].name@ != name@);
                if c < k {
                    assert(tools@[c].name@ != name@);
                } else if c > k {
                    assert(tools@[k].name@ != name@);
                }
                assert(first_named(old(tools)@, name@) == Some(k));
            }
            let ghost before = tools@;
            let mut t = tools.remove(i);
            t.is_favorite = favorite;
            tools.insert(i, t);
            assert(tools@ =~= before.update(k, Tool { is_favorite: favorite, ..before[k] }));
            return;
        }
        i += 1;
    }
}

/// The status line after marking a tool a favourite or not.
pub open spec fn spec_favorite_status(name: Seq<char>, favorite: bool) -> Seq<char> {
    name + ": "@ + if favorite {
        "★ Added to favorites"@
    } else {
        "Removed from favorites"@
    }
}

/// The status line after marking a tool a favourite or not (see
/// `spec_favorite_status`).
pub fn favorite_status(name: &str, favorite: bool) -> (r: String)
    ensures
        r@ == spec_favorite_status(name@, favorite),
{
    let mut m = name.to_owned();
    m.append(": ");
    if favorite {
        m.append("★ Added to favorites");
    } else {
        m.append("Removed from favorites");
    }
    proof {
        reveal_strlit(": ");
        reveal_strlit("★ Added to favorites");
        reveal_strlit("Removed from favorites");
    }
    m
}

/// Marking a tool a favourite changes only that flag of the first tool
/// with its name: the list keeps its length, names and order.
pub proof fn law_set_favorite_keeps_names(tools: Seq<Tool>, name: Seq<char>, favorite: bool)
    ensures
        spec_set_favorite(tools, name, favorite).len() == tools.len(),
        forall|i: int|
            0 <= i < tools.len() ==> (#[trigger] spec_set_favorite(tools, name, favorite)[i]).name
                == tools[i].name,
        forall|i: int|
            0 <= i < tools.len() && tools[i].name@ != name ==> #[trigger] spec_set_favorite(
                tools,
                name,
                favorite,
            )[i] == tools[i],
        first_named(tools, name) matches Some(k) ==> spec_set_favorite(tools, name, favorite)[k].is_favorite
            == favorite,
{
    lemma_first_named(tools, name);
}

/// Some tool at or before `i` is the first one named `name`.
proof fn lemma_first_exists(tools: Seq<Tool>, name: Seq<char>, i: int)
    requires
        0 <= i < tools.len(),
        tools[i].name@ == name,
    ensures
        exists|m: int|
            0 <= m < tools.len() && #[trigger] tools[m].name@ == name && forall|j: int|
                0 <= j < m ==> #[trigger] tools[j].name@ != name,
    decreases i,
{
    if exists|j: int| 0 <= j < i && #[trigger] tools[j].name@ == name {
        let j = choose|j: int| 0 <= j < i && #[trigger] tools[j].name@ == name;
        lemma_first_exists(tools, name, j);
    } else {
        assert(forall|j: int| 0 <= j < i ==> #[trigger] tools[j].name@ != name);
    }
}

/// What `first_named` gives: the index of a tool with that name before
/// which no tool has it, or `None` when no tool has it.
pub proof fn lemma_first_named(tools: Seq<Tool>, name: Seq<char>)
    ensures
        match first_named(tools, name) {
            Some(k) => 0 <= k < tools.len() && tools[k].name@ == name && forall|j: int|
                0 <= j < k ==> #[trigger] tools[j].name@ != name,
            None => forall|i: int| 0 <= i < tools.len() ==> #[trigger] tools[i].name@ != name,
        },
{
    if exists|i: int| 0 <= i < tools.len() && #[trigger] tools[i].name@ == name {
        let i = choose|i: int| 0 <= i < tools.len() && #[trigger] tools[i].name@ == name;
        lemma_first_exists(tools, name, i);
    }
}

/// Toggling a favourite twice gives the list back: setting the flag of
/// the first tool named `name` to the other value and then back restores
/// every tool.
pub proof fn law_favorite_toggle_round_trip(tools: Seq<Tool>, name: Seq<char>)
    requires
        first_named(tools, name) is Some,
    ensures
        ({
            let k = first_named(tools, name)->0;
            let was = tools[k].is_favorite;
            spec_set_favorite(spec_set_favorite(tools, name, !was), name, was) == tools
        }),
{
    lemma_first_named(tools, name);
    let k = first_named(tools, name)->0;
    let was = tools[k].is_favorite;
    let once = spec_set_favorite(tools, name, !was);
    assert(once == tools.update(k, Tool { is_favorite: !was, ..tools[k] }));
    lemma_first_named(once, name);
    assert(once[k].name@ == name);
    match first_named(once, name) {
        Some(c) => {
            if c < k {
                assert(once[c] == tools[c]);
            } else if c > k {
                assert(once[k].name@ == name);
            }
            assert(c == k);
        },
        None => {
            assert(once[k].name@ != name);
        },
    }
    assert(spec_set_favorite(once, name, was) =~= tools);
}

} // verus!

