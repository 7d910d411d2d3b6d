//! The label filter popup: which labels it offers, with how many tools
//! carry each, and how its selection moves.

use vstd::prelude::*;
use crate::cache::NameMap;
use crate::dialogs::join_sep;
use crate::fuzzy::fuzzy_match;
use crate::text::{
    chars_of, decimal, lowercase, split_words, str_eq, to_lowercase, trim, trim_str,
    usize_to_string, views_of, words,
};
use crate::tools::{
    contains_text, labels_of, law_lex_strict_total_order, lex_less, match_score, name_less, Tool,
};

verus! {

broadcast use vstd::seq_lib::group_to_multiset_ensures;

/// How the label list is ordered.
#[derive(Debug, Clone, Copy, PartialEq, Eq, Structural)]
pub enum LabelFilterSort {
    /// Most used first, then by name.
    Count,
    /// By name, A to Z.
    Name,
}

impl Default for LabelFilterSort {
    fn default() -> (r: LabelFilterSort)
        ensures
            r == LabelFilterSort::Count,
    {
        LabelFilterSort::Count
    }
}

impl LabelFilterSort {
    /// Switches between the two orders.
    pub fn toggle(&self) -> (r: LabelFilterSort)
        ensures
            *self == LabelFilterSort::Count ==> r == LabelFilterSort::Name,
            *self == LabelFilterSort::Name ==> r == LabelFilterSort::Count,
    {
        match self {
            LabelFilterSort::Count => LabelFilterSort::Name,
            LabelFilterSort::Name => LabelFilterSort::Count,
        }
    }
}

/// Some label of the tool fuzzy-matches the term.
pub open spec fn term_matches(term: Seq<char>, labels: Seq<Seq<char>>) -> bool {
    exists|i: int| 0 <= i < labels.len() && match_score(term, #[trigger] labels[i]) is Some
}

/// The labels match the popup's search: it is empty, or each of its words
/// fuzzy-matches some label (not necessarily the same one).
pub open spec fn matches_search(search: Seq<char>, labels: Seq<Seq<char>>) -> bool {
    search.len() == 0 || forall|k: int|
        0 <= k < words(search).len() ==> term_matches(#[trigger] words(search)[k], labels)
}

/// The labels include every selected one.
pub open spec fn has_selected(selected: Seq<Seq<char>>, labels: Seq<Seq<char>>) -> bool {
    forall|k: int| 0 <= k < selected.len() ==> labels.contains(#[trigger] selected[k])
}

/// A tool counts for the popup: it has labels recorded, carrying every
/// selected label and matching the search.
pub open spec fn tool_counts(
    t: Tool,
    cache: Map<Seq<char>, Vec<String>>,
    selected: Seq<Seq<char>>,
    search: Seq<char>,
) -> bool {
    &&& cache.dom().contains(t.name@)
    &&& has_selected(selected, labels_of(cache, t.name@))
    &&& matches_search(search, labels_of(cache, t.name@))
}

/// The labels of the tools that count, one after another.
pub open spec fn counted_labels(
    tools: Seq<Tool>,
    cache: Map<Seq<char>, Vec<String>>,
    selected: Seq<Seq<char>>,
    search: Seq<char>,
) -> Seq<Seq<char>>
    decreases tools.len(),
{
    if tools.len() == 0 {
        seq![]
    } else {
        let rest = counted_labels(tools.drop_last(), cache, selected, search);
        if tool_counts(tools.last(), cache, selected, search) {
            rest + labels_of(cache, tools.last().name@)
        } else {
            rest
        }
    }
}

/// How often `l` occurs in `s`.
pub open spec fn occurrences(s: Seq<Seq<char>>, l: Seq<char>) -> nat
    decreases s.len(),
{
    if s.len() == 0 {
        0
    } else {
        occurrences(s.drop_last(), l) + if s.last() == l {
            1nat
        } else {
            0nat
        }
    }
}

/// Entry `a` is listed before entry `b`.
pub open spec fn label_before(sort: LabelFilterSort, a: (Seq<char>, nat), b: (Seq<char>, nat)) -> bool {
    match sort {
        LabelFilterSort::Count => a.1 > b.1 || (a.1 == b.1 && lex_less(a.0, b.0)),
        LabelFilterSort::Name => lex_less(a.0, b.0),
    }
}

/// `r` lists each label of `all` once with its number of occurrences, and
/// nothing else, in the order of `sort`.
pub open spec fn is_label_list(
    r: Seq<(Seq<char>, nat)>,
    all: Seq<Seq<char>>,
    sort: LabelFilterSort,
) -> bool {
    &&& forall|i: int| 0 <= i < r.len() ==> (#[trigger] r[i]).1 == occurrences(all, r[i].0) && r[i].1 > 0
    &&& forall|l: Seq<char>| #[trigger] occurrences(all, l) > 0 ==> exists|i: int|
        0 <= i < r.len() && (#[trigger] r[i]).0 == l
    &&& forall|i: int, j: int|
        0 <= i < j < r.len() ==> label_before(sort, #[trigger] r[i], #[trigger] r[j])
}

/// Entries as values.
pub open spec fn entry_views(r: Seq<(String, usize)>) -> Seq<(Seq<char>, nat)> {
    r.map_values(|e: (String, usize)| (e.0@, e.1 as nat))
}

/// Whether `labels` include every one of `selected`.
fn carries_all(labels: &Vec<String>, selected: &Vec<String>) -> (r: bool)
    ensures
        r == has_selected(views_of(selected@), views_of(labels@)),
{
    let ghost sv = views_of(selected@);
    let mut k: usize = 0;
    while k < selected.len()
        invariant
            k <= selected@.len(),
            sv == views_of(selected@),
            forall|j: int| 0 <= j < k ==> views_of(labels@).contains(#[trigger] sv[j]),
        decreases selected@.len() - k,
    {
        assert(sv[k as int] == selected@[k as int]@);
        if !contains_text(labels, selected[k].as_str()) {
            return false;
        }
        k += 1;
    }
    true
}

fn some_label_matches(term: &str, labels: &Vec<String>) -> (r: bool)
    ensures
        r == term_matches(term@, views_of(labels@)),
{
    let ghost lv = views_of(labels@);
    let mut i: usize = 0;
    while i < labels.len()
        invariant
            i <= labels@.len(),
            lv == views_of(labels@),
            forall|j: int| 0 <= j < i ==> match_score(term@, #[trigger] lv[j]) is None,
        decreases labels@.len() - i,
    {
        if fuzzy_match(term, labels[i].as_str()).is_some() {
            assert(match_score(term@, lv[i as int]) is Some);
            return true;
        }
        i += 1;
    }
    false
}

fn labels_match_search(search: &str, labels: &Vec<String>) -> (r: bool)
    ensures
        r == matches_search(search@, views_of(labels@)),
{
    if search.is_empty() {
        return true;
    }
    let terms = split_words(search);
    let ghost tv = views_of(terms@);
    let mut k: usize = 0;
    while k < terms.len()
        invariant
            k <= terms@.len(),
            tv == views_of(terms@),
            tv == words(search@),
            forall|j: int| 0 <= j < k ==> term_matches(#[trigger] tv[j], views_of(labels@)),
        decreases terms@.len() - k,
    {
        if !some_label_matches(terms[k].as_str(), labels) {
            assert(!term_matches(tv[k as int], views_of(labels@)));
            return false;
        }
        k += 1;
    }
    true
}

/// Where `label` stands among the entries, if it does.
fn find_entry(entries: &Vec<(String, usize)>, label: &str) -> (r: Option<usize>)
    ensures
        match r {
            Some(i) => i < entries@.len() && entries@[i as int].0@ == label@,
            None => forall|i: int| 0 <= i < entries@.len() ==> (#[trigger] entries@[i]).0@ != label@,
        },
{
    let mut i: usize = 0;
    while i < entries.len()
        invariant
            i <= entries@.len(),
            forall|j: int| 0 <= j < i ==> (#[trigger] entries@[j]).0@ != label@,
        decreases entries@.len() - i,
    {
        if str_eq(entries[i].0.as_str(), label) {
            return Some(i);
        }
        i += 1;
    }
    None
}

/// The entries count the labels of `s` exactly, once each.
pub open spec fn counts_exactly(e: Seq<(Seq<char>, nat)>, s: Seq<Seq<char>>) -> bool {
    &&& forall|i: int| 0 <= i < e.len() ==> (#[trigger] e[i]).1 == occurrences(s, e[i].0) && e[i].1 > 0
    &&& forall|l: Seq<char>| #[trigger] occurrences(s, l) > 0 ==> exists|i: int|
        0 <= i < e.len() && (#[trigger] e[i]).0 == l
    &&& forall|i: int, j: int| 0 <= i < j < e.len() ==> (#[trigger] e[i]).0 != (#[trigger] e[j]).0
}

proof fn lemma_occurrences_push(s: Seq<Seq<char>>, x: Seq<char>, l: Seq<char>)
    ensures
        occurrences(s.push(x), l) == occurrences(s, l) + if x == l {
            1nat
        } else {
            0nat
        },
{
    assert(s.push(x).drop_last() =~= s);
}

proof fn lemma_occurrences_bound(s: Seq<Seq<char>>, l: Seq<char>)
    ensures
        occurrences(s, l) <= s.len(),
    decreases s.len(),
{
    if s.len() > 0 {
        lemma_occurrences_bound(s.drop_last(), l);
    }
}

/// Counts each label of `labels` into `entries`.
fn count_labels(entries: &mut Vec<(String, usize)>, labels: &Vec<String>, Ghost(seen): Ghost<
    Seq<Seq<char>>,
>)
    requires
        counts_exactly(entry_views(old(entries)@), seen),
        seen.len() + labels@.len() <= usize::MAX,
    ensures
        counts_exactly(entry_views(final(entries)@), seen + views_of(labels@)),
{
    let ghost lv = views_of(labels@);
    let mut i: usize = 0;
    assert(seen + lv.take(0) =~= seen);
    while i < labels.len()
        invariant
            i <= labels@.len(),
            lv == views_of(labels@),
            seen.len() + labels@.len() <= usize::MAX,
            counts_exactly(entry_views(entries@), seen + lv.take(i as int)),
        decreases labels@.len() - i,
    {
        let ghost before = seen + lv.take(i as int);
        let ghost after = seen + lv.take(i + 1);
        let ghost old_e = entry_views(entries@);
        let ghost x = lv[i as int];
        assert(after =~= before.push(x));
        proof {
            assert forall|l: Seq<char>| occurrences(after, l) == occurrences(before, l) + if x == l {
                1nat
            } else {
                0nat
            } by {
                lemma_occurrences_push(before, x, l);
            }
        }
        let label = labels[i].as_str();
        match find_entry(entries, label) {
            Some(k) => {
                let (name, n) = entries.remove(k);
                proof {
                    lemma_occurrences_bound(after, x);
                    assert(old_e[k as int].1 == occurrences(before, x));
                }
                entries.insert(k, (name, n + 1));
                let ghost e = entry_views(entries@);
                assert(e =~= old_e.update(k as int, (x, (n + 1) as nat)));
                assert forall|l: Seq<char>| #[trigger] occurrences(after, l) > 0 implies exists|j: int|
                    0 <= j < e.len() && (#[trigger] e[j]).0 == l by {
                    if l == x {
                        assert(e[k as int].0 == l);
                    } else {
                        let j = choose|j: int| 0 <= j < old_e.len() && (#[trigger] old_e[j]).0 == l;
                        assert(e[j].0 == l);
                    }
                }
            },
            None => {
                let ghost old_e2 = old_e;
                entries.push((labels[i].clone(), 1));
                let ghost e = entry_views(entries@);
                assert(e =~= old_e2.push((x, 1nat)));
                assert(occurrences(before, x) == 0) by {
                    if occurrences(before, x) > 0 {
                        let j = choose|j: int| 0 <= j < old_e2.len() && (#[trigger] old_e2[j]).0 == x;
                    }
                }
                assert forall|l: Seq<char>| #[trigger] occurrences(after, l) > 0 implies exists|j: int|
                    0 <= j < e.len() && (#[trigger] e[j]).0 == l by {
                    if l == x {
                        assert(e[old_e2.len() as int].0 == l);
                    } else {
                        let j = choose|j: int| 0 <= j < old_e2.len() && (#[trigger] old_e2[j]).0 == l;
                        assert(e[j].0 == l);
                    }
                }
            },
        }
        i += 1;
    }
    assert(lv.take(labels@.len() as int) =~= lv);
}

/// Total number of labels recorded for the tools, counting a tool once
/// per time it appears.
pub open spec fn label_total(tools: Seq<Tool>, cache: Map<Seq<char>, Vec<String>>) -> nat
    decreases tools.len(),
{
    if tools.len() == 0 {
        0
    } else {
        label_total(tools.drop_last(), cache) + labels_of(cache, tools.last().name@).len()
    }
}

proof fn lemma_counted_len(
    tools: Seq<Tool>,
    cache: Map<Seq<char>, Vec<String>>,
    selected: Seq<Seq<char>>,
    search: Seq<char>,
)
    ensures
        counted_labels(tools, cache, selected, search).len() <= label_total(tools, cache),
    decreases tools.len(),
{
    if tools.len() > 0 {
        lemma_counted_len(tools.drop_last(), cache, selected, search);
    }
}

proof fn lemma_label_total_prefix(tools: Seq<Tool>, cache: Map<Seq<char>, Vec<String>>, i: int)
    requires
        0 <= i <= tools.len(),
    ensures
        label_total(tools.take(i), cache) <= label_total(tools, cache),
    decreases tools.len(),
{
    if i < tools.len() {
        assert(tools.drop_last().take(i) =~= tools.take(i));
        lemma_label_total_prefix(tools.drop_last(), cache, i);
    } else {
        assert(tools.take(i) =~= tools);
    }
}

/// Sort rank of an entry, for `label_before`.
fn entry_before(sort: LabelFilterSort, a: &(String, usize), b: &(String, usize)) -> (r: bool)
    ensures
        r == label_before(sort, (a.0@, a.1 as nat), (b.0@, b.1 as nat)),
{
    match sort {
        LabelFilterSort::Count => a.1 > b.1 || (a.1 == b.1 && name_less(a.0.as_str(), b.0.as_str())),
        LabelFilterSort::Name => name_less(a.0.as_str(), b.0.as_str()),
    }
}

proof fn lemma_before_trans(
    sort: LabelFilterSort,
    a: (Seq<char>, nat),
    b: (Seq<char>, nat),
    c: (Seq<char>, nat),
)
    requires
        label_before(sort, a, b),
        label_before(sort, b, c),
    ensures
        label_before(sort, a, c),
{
    law_lex_strict_total_order(a.0, b.0, c.0);
}

proof fn lemma_before_total(sort: LabelFilterSort, a: (Seq<char>, nat), b: (Seq<char>, nat))
    requires
        a.0 != b.0,
    ensures
        label_before(sort, a, b) || label_before(sort, b, a),
{
    law_lex_strict_total_order(a.0, b.0, b.0);
}

/// Strictly in the order of `sort`.
pub open spec fn strictly_sorted(r: Seq<(Seq<char>, nat)>, sort: LabelFilterSort) -> bool {
    forall|i: int, j: int|
        0 <= i < j < r.len() ==> label_before(sort, #[trigger] r[i], #[trigger] r[j])
}

/// Inserts `x`, whose label is not among the entries, keeping them
/// strictly sorted.
fn insert_entry(sorted: &mut Vec<(String, usize)>, x: (String, usize), sort: LabelFilterSort)
    requires
        strictly_sorted(entry_views(old(sorted)@), sort),
        forall|i: int| 0 <= i < old(sorted)@.len() ==> (#[trigger] old(sorted)@[i]).0@ != x.0@,
    ensures
        strictly_sorted(entry_views(final(sorted)@), sort),
        entry_views(final(sorted)@).to_multiset() == entry_views(old(sorted)@).to_multiset().insert(
            (x.0@, x.1 as nat),
        ),
{
    let ghost v = entry_views(sorted@);
    let ghost xv = (x.0@, x.1 as nat);
    let mut j: usize = 0;
    while j < sorted.len() && !entry_before(sort, &x, &sorted[j])
        invariant
            j <= sorted@.len(),
            v == entry_views(sorted@),
            xv == (x.0@, x.1 as nat),
            strictly_sorted(v, sort),
            forall|i: int| 0 <= i < v.len() ==> (#[trigger] v[i]).0 != xv.0,
            forall|i: int| 0 <= i < j ==> label_before(sort, #[trigger] v[i], xv),
        decreases sorted@.len() - j,
    {
        proof {
            lemma_before_total(sort, v[j as int], xv);
        }
        j += 1;
    }
    proof {
        if j < v.len() {
            assert forall|i: int| j <= i < v.len() implies label_before(sort, xv, #[trigger] v[i]) by {
                if i > j {
                    lemma_before_trans(sort, xv, v[j as int], v[i]);
                }
            }
        }
    }
    sorted.insert(j, x);
    proof {
        let w = entry_views(sorted@);
        assert(w =~= v.insert(j as int, xv));
        assert forall|a: int, b: int| 0 <= a < b < w.len() implies label_before(
            sort,
            #[trigger] w[a],
            #[trigger] w[b],
        ) by {
            if b < j {
            } else if b == j {
            } else if a < j {
                assert(w[b] == v[b - 1]);
                lemma_before_trans(sort, v[a], xv, v[b - 1]);
            } else if a == j {
                assert(w[b] == v[b - 1]);
            } else {
                assert(w[a] == v[a - 1]);
                assert(w[b] == v[b - 1]);
            }
        }
    }
}

/// The labels offered by the label filter popup: every label of the tools
/// that count (see `tool_counts`), once, with the number of its
/// occurrences among them, most frequent first (then by name), or by name.
pub fn filtered_label_list(
    tools: &Vec<Tool>,
    cache: &NameMap<Vec<String>>,
    selected: &Vec<String>,
    search: &str,
    sort: LabelFilterSort,
) -> (r: Vec<(String, usize)>)
    requires
        label_total(tools@, cache@) <= usize::MAX,
    ensures
        is_label_list(
            entry_views(r@),
            counted_labels(tools@, cache@, views_of(selected@), search@),
            sort,
        ),
{
    let ghost sv = views_of(selected@);
    let mut entries: Vec<(String, usize)> = Vec::new();
    let mut i: usize = 0;
    while i < tools.len()
        invariant
            i <= tools@.len(),
            sv == views_of(selected@),
            label_total(tools@, cache@) <= usize::MAX,
            counts_exactly(
                entry_views(entries@),
                counted_labels(tools@.take(i as int), cache@, sv, search@),
            ),
        decreases tools@.len() - i,
    {
        let t = &tools[i];
        let ghost prefix = tools@.take(i + 1);
        proof {
            assert(prefix.drop_last() =~= tools@.take(i as int));
            assert(prefix.last() == *t);
            lemma_counted_len(prefix, cache@, sv, search@);
            lemma_label_total_prefix(tools@, cache@, i + 1);
        }
        match cache.get(t.name.as_str()) {
            Some(labels) => {
                if carries_all(labels, selected) && labels_match_search(search, labels) {
                    count_labels(
                        &mut entries,
                        labels,
                        Ghost(counted_labels(tools@.take(i as int), cache@, sv, search@)),
                    );
                }
            },
            None => {},
        }
        i += 1;
    }
    assert(tools@.take(tools@.len() as int) =~= tools@);
    let ghost all = counted_labels(tools@, cache@, sv, search@);
    let ghost ev = entry_views(entries@);
    let mut sorted: Vec<(String, usize)> = Vec::new();
    let mut k: usize = 0;
    while k < entries.len()
        invariant
            k <= entries@.len(),
            ev == entry_views(entries@),
            counts_exactly(ev, all),
            strictly_sorted(entry_views(sorted@), sort),
            entry_views(sorted@).to_multiset() == ev.take(k as int).to_multiset(),
        decreases entries@.len() - k,
    {
        let ghost sw = entry_views(sorted@);
        proof {
            assert forall|i: int| 0 <= i < sorted@.len() implies (#[trigger] sorted@[i]).0@ != entries@[
                k as int
            ].0@ by {
                assert(sw[i] == (sorted@[i].0@, sorted@[i].1 as nat));
                assert(sw.contains(sw[i]));
                assert(sw.to_multiset().count(sw[i]) > 0);
                assert(ev.take(k as int).to_multiset().count(sw[i]) > 0);
                assert(ev.take(k as int).contains(sw[i]));
                let m = choose|m: int| 0 <= m < k && ev.take(k as int)[m] == sw[i];
                assert(ev[m] == sw[i]);
                assert(ev[k as int].0 == entries@[k as int].0@);
            }
        }
        let e = (entries[k].0.clone(), entries[k].1);
        insert_entry(&mut sorted, e, sort);
        proof {
            assert(ev.take(k + 1) =~= ev.take(k as int).push(ev[k as int]));
        }
        k += 1;
    }
    proof {
        assert(ev.take(ev.len() as int) =~= ev);
        let w = entry_views(sorted@);
        assert forall|i: int| 0 <= i < w.len() implies (#[trigger] w[i]).1 == occurrences(
            all,
            w[i].0,
        ) && w[i].1 > 0 by {
            assert(w.contains(w[i]));
            assert(w.to_multiset().count(w[i]) > 0);
            assert(ev.to_multiset().count(w[i]) > 0);
            assert(ev.contains(w[i]));
            let m = choose|m: int| 0 <= m < ev.len() && ev[m] == w[i];
        }
        assert forall|l: Seq<char>| #[trigger] occurrences(all, l) > 0 implies exists|i: int|
            0 <= i < w.len() && (#[trigger] w[i]).0 == l by {
            let m = choose|m: int| 0 <= m < ev.len() && (#[trigger] ev[m]).0 == l;
            assert(ev.contains(ev[m]));
            assert(ev.to_multiset().count(ev[m]) > 0);
            assert(w.to_multiset().count(ev[m]) > 0);
            assert(w.contains(ev[m]));
            let i = choose|i: int| 0 <= i < w.len() && w[i] == ev[m];
            assert(w[i].0 == l);
        }
    }
    sorted
}

proof fn lemma_before_irreflexive_asym(sort: LabelFilterSort, a: (Seq<char>, nat), b: (Seq<char>, nat))
    ensures
        !label_before(sort, a, a),
        label_before(sort, a, b) ==> !label_before(sort, b, a),
{
    law_lex_strict_total_order(a.0, b.0, b.0);
}

proof fn lemma_sorted_same_entries(
    r1: Seq<(Seq<char>, nat)>,
    r2: Seq<(Seq<char>, nat)>,
    sort: LabelFilterSort,
)
    requires
        strictly_sorted(r1, sort),
        strictly_sorted(r2, sort),
        forall|e: (Seq<char>, nat)| r1.contains(e) <==> r2.contains(e),
    ensures
        r1 == r2,
    decreases r1.len(),
{
    if r1.len() == 0 {
        if r2.len() > 0 {
            assert(r2.contains(r2[0]));
        }
        assert(r1 =~= r2);
    } else {
        assert(r1.contains(r1[0]));
        let j = choose|j: int| 0 <= j < r2.len() && r2[j] == r1[0];
        assert(r2.contains(r2[0]));
        let i = choose|i: int| 0 <= i < r1.len() && r1[i] == r2[0];
        lemma_before_irreflexive_asym(sort, r1[0], r2[0]);
        lemma_before_irreflexive_asym(sort, r2[0], r1[0]);
        if j > 0 {
            assert(label_before(sort, r2[0], r2[j]));
            if i > 0 {
                assert(label_before(sort, r1[0], r1[i]));
            }
        }
        assert(r1[0] == r2[0]);
        let (d1, d2) = (r1.drop_first(), r2.drop_first());
        assert forall|e: (Seq<char>, nat)| d1.contains(e) <==> d2.contains(e) by {
            if d1.contains(e) {
                let k = choose|k: int| 0 <= k < d1.len() && d1[k] == e;
                assert(r1[k + 1] == e);
                assert(r1.contains(e));
                let m = choose|m: int| 0 <= m < r2.len() && r2[m] == e;
                lemma_before_irreflexive_asym(sort, e, e);
                assert(label_before(sort, r1[0], r1[k + 1]));
                assert(m != 0);
                assert(d2[m - 1] == e);
            }
            if d2.contains(e) {
                let k = choose|k: int| 0 <= k < d2.len() && d2[k] == e;
                assert(r2[k + 1] == e);
                assert(r2.contains(e));
                let m = choose|m: int| 0 <= m < r1.len() && r1[m] == e;
                lemma_before_irreflexive_asym(sort, e, e);
                assert(label_before(sort, r2[0], r2[k + 1]));
                assert(m != 0);
                assert(d1[m - 1] == e);
            }
        }
        assert(strictly_sorted(d1, sort)) by {
            assert forall|a: int, b: int| 0 <= a < b < d1.len() implies label_before(
                sort,
                #[trigger] d1[a],
                #[trigger] d1[b],
            ) by {
                assert(d1[a] == r1[a + 1] && d1[b] == r1[b + 1]);
            }
        }
        assert(strictly_sorted(d2, sort)) by {
            assert forall|a: int, b: int| 0 <= a < b < d2.len() implies label_before(
                sort,
                #[trigger] d2[a],
                #[trigger] d2[b],
            ) by {
                assert(d2[a] == r2[a + 1] && d2[b] == r2[b + 1]);
            }
        }
        lemma_sorted_same_entries(d1, d2, sort);
        assert(r1 =~= seq![r1[0]] + d1);
        assert(r2 =~= seq![r2[0]] + d2);
    }
}

/// The popup's label list is fully determined by the labels counted: any
/// two lists that meet `is_label_list` for them are the same.
pub proof fn law_label_list_unique(
    r1: Seq<(Seq<char>, nat)>,
    r2: Seq<(Seq<char>, nat)>,
    all: Seq<Seq<char>>,
    sort: LabelFilterSort,
)
    requires
        is_label_list(r1, all, sort),
        is_label_list(r2, all, sort),
    ensures
        r1 == r2,
{
    assert forall|e: (Seq<char>, nat)| r1.contains(e) <==> r2.contains(e) by {
        if r1.contains(e) {
            let i = choose|i: int| 0 <= i < r1.len() && r1[i] == e;
            assert(occurrences(all, e.0) > 0);
            let j = choose|j: int| 0 <= j < r2.len() && (#[trigger] r2[j]).0 == e.0;
            assert(r2[j] == e);
        }
        if r2.contains(e) {
            let i = choose|i: int| 0 <= i < r2.len() && r2[i] == e;
            assert(occurrences(all, e.0) > 0);
            let j = choose|j: int| 0 <= j < r1.len() && (#[trigger] r1[j]).0 == e.0;
            assert(r1[j] == e);
        }
    }
    lemma_sorted_same_entries(r1, r2, sort);
}

/// Rows shown at once in the label filter popup.
pub const LABEL_POPUP_ROWS: usize = 10;

/// A move of the label filter popup's cursor.
#[derive(Debug, Clone, Copy, PartialEq, Eq, Structural)]
pub enum PopupMove {
    /// Up arrow: wraps from the top to the bottom.
    Up,
    /// Down arrow: wraps from the bottom to the top.
    Down,
    PageUp,
    PageDown,
    Home,
    End,
    /// Mouse wheel up: stops at the top.
    WheelUp,
    /// Mouse wheel down: stops at the bottom.
    WheelDown,
}

/// Selected row and first shown row of the popup, whose row 0 is "clear
/// filter" and rows 1.. the labels.
#[derive(Debug, Clone, Copy, PartialEq, Eq, Structural)]
pub struct PopupCursor {
    pub selected: usize,
    pub scroll: usize,
}

/// `a - b`, or 0 when `b` is larger.
pub open spec fn sat_sub(a: int, b: int) -> int {
    if a >= b {
        a - b
    } else {
        0
    }
}

/// Scrolls so that a selection that went below the shown rows is the last
/// shown row.
pub open spec fn follow_down(sel: int, scroll: int) -> int {
    if sel >= scroll + LABEL_POPUP_ROWS {
        sat_sub(sel, LABEL_POPUP_ROWS - 1)
    } else {
        scroll
    }
}

/// Scrolls up to a selection above the shown rows.
pub open spec fn follow_up(sel: int, scroll: int) -> int {
    if sel < scroll {
        sel
    } else {
        scroll
    }
}

/// The cursor after a move, with `total` rows.
pub open spec fn spec_move_cursor(c: PopupCursor, total: int, m: PopupMove) -> (int, int) {
    let (sel, scroll) = (c.selected as int, c.scroll as int);
    let last = sat_sub(total, 1);
    match m {
        PopupMove::Up => {
            let s = if sel > 0 {
                sel - 1
            } else {
                last
            };
            (s, follow_up(s, scroll))
        },
        PopupMove::Down => {
            let s = (sel + 1) % (if total > 1 {
                total
            } else {
                1
            });
            (s, if s == 0 {
                0
            } else {
                follow_down(s, scroll)
            })
        },
        PopupMove::PageUp => (sat_sub(sel, LABEL_POPUP_ROWS as int), sat_sub(scroll, LABEL_POPUP_ROWS as int)),
        PopupMove::PageDown => {
            let s = if sel + LABEL_POPUP_ROWS < last {
                sel + LABEL_POPUP_ROWS
            } else {
                last
            };
            (s, follow_down(s, scroll))
        },
        PopupMove::Home => (0, 0),
        PopupMove::End => (last, sat_sub(total, LABEL_POPUP_ROWS as int)),
        PopupMove::WheelUp => if sel > 0 {
            (sel - 1, follow_up(sel - 1, scroll))
        } else {
            (sel, scroll)
        },
        PopupMove::WheelDown => if sel < last {
            (sel + 1, follow_down(sel + 1, scroll))
        } else {
            (sel, scroll)
        },
    }
}

/// Moves the popup's cursor among `total` rows (see `spec_move_cursor`).
pub fn move_cursor(c: PopupCursor, total: usize, m: PopupMove) -> (r: PopupCursor)
    requires
        c.selected + LABEL_POPUP_ROWS <= usize::MAX,
        c.scroll + LABEL_POPUP_ROWS <= usize::MAX,
    ensures
        (r.selected as int, r.scroll as int) == spec_move_cursor(c, total as int, m),
{
    let sel = c.selected;
    let scroll = c.scroll;
    let last = total.saturating_sub(1);
    match m {
        PopupMove::Up => {
            let s = if sel > 0 {
                sel - 1
            } else {
                last
            };
            PopupCursor {
                selected: s,
                scroll: if s < scroll {
                    s
                } else {
                    scroll
                },
            }
        },
        PopupMove::Down => {
            let s = (sel + 1) % (if total > 1 {
                total
            } else {
                1
            });
            let follow = if s >= scroll + LABEL_POPUP_ROWS {
                s.saturating_sub(LABEL_POPUP_ROWS - 1)
            } else {
                scroll
            };
            PopupCursor {
                selected: s,
                scroll: if s == 0 {
                    0
                } else {
                    follow
                },
            }
        },
        PopupMove::PageUp => PopupCursor {
            selected: sel.saturating_sub(LABEL_POPUP_ROWS),
            scroll: scroll.saturating_sub(LABEL_POPUP_ROWS),
        },
        PopupMove::PageDown => {
            let s = if sel + LABEL_POPUP_ROWS < last {
                sel + LABEL_POPUP_ROWS
            } else {
                last
            };
            PopupCursor {
                selected: s,
                scroll: if s >= scroll + LABEL_POPUP_ROWS {
                    s.saturating_sub(LABEL_POPUP_ROWS - 1)
                } else {
                    scroll
                },
            }
        },
        PopupMove::Home => PopupCursor { selected: 0, scroll: 0 },
        PopupMove::End => PopupCursor {
            selected: last,
            scroll: total.saturating_sub(LABEL_POPUP_ROWS),
        },
        PopupMove::WheelUp => if sel > 0 {
            let s = sel - 1;
            PopupCursor {
                selected: s,
                scroll: if s < scroll {
                    s
                } else {
                    scroll
                },
            }
        } else {
            c
        },
        PopupMove::WheelDown => if sel < last {
            let s = sel + 1;
            PopupCursor {
                selected: s,
                scroll: if s >= scroll + LABEL_POPUP_ROWS {
                    s.saturating_sub(LABEL_POPUP_ROWS - 1)
                } else {
                    scroll
                },
            }
        } else {
            c
        },
    }
}

/// Every move keeps a cursor that is on a row, at or below the first
/// shown row, in that state.
pub proof fn law_cursor_stays_in_range(c: PopupCursor, total: int, m: PopupMove)
    requires
        c.selected < total,
        c.scroll <= c.selected,
    ensures
        ({
            let (s, sc) = spec_move_cursor(c, total, m);
            0 <= sc <= s < total
        }),
{
    let sel = c.selected as int;
    if m == PopupMove::Down && total > 1 {
        if sel + 1 < total {
            assert((sel + 1) % total == sel + 1) by (nonlinear_arith)
                requires
                    0 <= sel + 1 < total,
            ;
        } else {
            assert((sel + 1) % total == 0) by (nonlinear_arith)
                requires
                    sel + 1 == total,
                    total > 1,
            ;
        }
    } else if m == PopupMove::Down {
        assert((sel + 1) % 1 == 0);
    }
}

/// What pressing Enter or Tab on the selected row does.
#[derive(Debug, Clone, PartialEq, Eq)]
pub enum LabelChoice {
    /// Row 0: clear the label filter.
    ClearFilter,
    /// A label row: add the label to the filter, or take it out.
    Toggle(String),
    /// The row is past the end of the list.
    Nothing,
}

/// The choice on row `selected` of the popup listing `labels`.
pub fn label_choice(selected: usize, labels: &Vec<(String, usize)>) -> (r: LabelChoice)
    ensures
        selected == 0 ==> r == LabelChoice::ClearFilter,
        selected > 0 && selected - 1 < labels@.len() ==> (r matches LabelChoice::Toggle(l) && l@
            == labels@[selected - 1].0@),
        selected > 0 && selected - 1 >= labels@.len() ==> r == LabelChoice::Nothing,
{
    if selected == 0 {
        LabelChoice::ClearFilter
    } else if selected - 1 < labels.len() {
        LabelChoice::Toggle(labels[selected - 1].0.clone())
    } else {
        LabelChoice::Nothing
    }
}

/// Spaces turned into dashes.
pub open spec fn dashed(s: Seq<char>) -> Seq<char> {
    s.map_values(|c: char|
        if c == ' ' {
            '-'
        } else {
            c
        })
}

/// `s` with each space replaced by a dash.
pub fn replace_spaces(s: &str) -> (r: String)
    ensures
        r@ == dashed(s@),
{
    let cs = chars_of(s);
    let mut out = String::new();
    let mut i: usize = 0;
    while i < cs.len()
        invariant
            i <= cs@.len(),
            cs@ == s@,
            out@ == dashed(s@.take(i as int)),
        decreases cs@.len() - i,
    {
        if cs[i] == ' ' {
            out.append("-");
            proof {
                reveal_strlit("-");
            }
        } else {
            out.append(s.substring_char(i, i + 1));
        }
        assert(dashed(s@.take(i + 1)) =~= dashed(s@.take(i as int)).push(
            if cs@[i as int] == ' ' {
                '-'
            } else {
                cs@[i as int]
            },
        ));
        i += 1;
    }
    assert(s@.take(cs@.len() as int) =~= s@);
    out
}

/// The label that Enter adds in the label edit popup: the selected
/// suggestion (rows 1 to the number of suggestions), else the typed input
/// trimmed, lowercased, with spaces as dashes.
pub open spec fn spec_label_to_add(
    selected: int,
    suggestions: Seq<Seq<char>>,
    input: Seq<char>,
) -> Seq<char> {
    if 0 < selected <= suggestions.len() {
        suggestions[selected - 1]
    } else {
        dashed(lowercase(trim(input)))
    }
}

/// The label to add (see `spec_label_to_add`); an empty one adds nothing.
pub fn label_to_add(selected: usize, suggestions: &Vec<String>, input: &str) -> (r: String)
    ensures
        r@ == spec_label_to_add(selected as int, views_of(suggestions@), input@),
{
    if selected > 0 && selected <= suggestions.len() {
        suggestions[selected - 1].clone()
    } else {
        let t = trim_str(input);
        let l = to_lowercase(t.as_str());
        replace_spaces(l.as_str())
    }
}

/// The index, among the tool's labels, of the label on row `selected`:
/// rows after the input and the suggestions are the labels.
pub fn label_to_remove(selected: usize, suggestion_count: usize, label_count: usize) -> (r: Option<
    usize,
>)
    requires
        suggestion_count < usize::MAX,
    ensures
        selected >= suggestion_count + 1 && selected - suggestion_count - 1 < label_count ==> r
            == Some((selected - suggestion_count - 1) as usize),
        !(selected >= suggestion_count + 1 && selected - suggestion_count - 1 < label_count) ==> r
            is None,
{
    let start = 1 + suggestion_count;
    if selected < start || label_count == 0 {
        return None;
    }
    let index = selected - start;
    if index < label_count {
        Some(index)
    } else {
        None
    }
}

/// Names in order, each at most the next.
pub open spec fn names_sorted(s: Seq<Seq<char>>) -> bool {
    forall|i: int, j: int| 0 <= i < j < s.len() ==> !lex_less(#[trigger] s[j], #[trigger] s[i])
}

/// Puts `label` into sorted labels at its place.
fn insert_in_order(labels: &mut Vec<String>, label: String)
    requires
        names_sorted(views_of(old(labels)@)),
    ensures
        names_sorted(views_of(final(labels)@)),
        views_of(final(labels)@).to_multiset() == views_of(old(labels)@).to_multiset().insert(label@),
{
    let ghost v = views_of(labels@);
    let ghost x = label@;
    let mut j: usize = 0;
    while j < labels.len() && !name_less(label.as_str(), labels[j].as_str())
        invariant
            j <= labels@.len(),
            v == views_of(labels@),
            x == label@,
            names_sorted(v),
            forall|i: int| 0 <= i < j ==> !lex_less(x, #[trigger] v[i]),
        decreases labels@.len() - j,
    {
        j += 1;
    }
    proof {
        if j < v.len() {
            assert forall|i: int| j <= i < v.len() implies !lex_less(#[trigger] v[i], x) by {
                law_lex_strict_total_order(x, v[j as int], v[i]);
                law_lex_strict_total_order(v[i], x, v[j as int]);
                if i > j && lex_less(v[i], x) {
                    law_lex_strict_total_order(v[j as int], v[i], x);
                }
            }
        }
    }
    labels.insert(j, label);
    proof {
        let w = views_of(labels@);
        assert(w =~= v.insert(j as int, x));
        assert forall|a: int, b: int| 0 <= a < b < w.len() implies !lex_less(
            #[trigger] w[b],
            #[trigger] w[a],
        ) by {
            if b < j {
            } else if b == j {
            } else if a < j {
                assert(w[b] == v[b - 1]);
                if lex_less(v[b - 1], v[a]) {
                    law_lex_strict_total_order(v[b - 1], v[a], x);
                    law_lex_strict_total_order(x, v[b - 1], v[a]);
                    if !lex_less(x, v[a]) && v[a] != x {
                        law_lex_strict_total_order(v[a], x, x);
                    }
                    if lex_less(v[a], x) {
                        law_lex_strict_total_order(v[b - 1], v[a], x);
                    }
                }
            } else if a == j {
                assert(w[b] == v[b - 1]);
            } else {
                assert(w[a] == v[a - 1]);
                assert(w[b] == v[b - 1]);
            }
        }
    }
}

/// Adds `label` to a tool's labels unless it is there already, and sorts
/// them (by character, as `sort` orders strings); says whether it was
/// added. Added, the labels are the old ones and `label`, in order.
pub fn add_label(labels: &mut Vec<String>, label: String) -> (added: bool)
    ensures
        added == !views_of(old(labels)@).contains(label@),
        added ==> names_sorted(views_of(final(labels)@)),
        added ==> views_of(final(labels)@).to_multiset() == views_of(old(labels)@).to_multiset().insert(
            label@,
        ),
        !added ==> final(labels)@ == old(labels)@,
{
    if contains_text(labels, label.as_str()) {
        return false;
    }
    let ghost v = views_of(labels@);
    let mut sorted: Vec<String> = Vec::new();
    let mut i: usize = 0;
    while i < labels.len()
        invariant
            i <= labels@.len(),
            v == views_of(labels@),
            names_sorted(views_of(sorted@)),
            views_of(sorted@).to_multiset() == v.take(i as int).to_multiset(),
        decreases labels@.len() - i,
    {
        let item = labels[i].clone();
        insert_in_order(&mut sorted, item);
        assert(v.take(i + 1) =~= v.take(i as int).push(v[i as int]));
        i += 1;
    }
    assert(v.take(labels@.len() as int) =~= v);
    insert_in_order(&mut sorted, label);
    *labels = sorted;
    true
}

/// Labels ranked as suggestions: their match score, higher first.
pub open spec fn suggestion_rows(
    all: Seq<Seq<char>>,
    current: Seq<Seq<char>>,
    query: Seq<char>,
) -> Seq<(Seq<char>, int)>
    decreases all.len(),
{
    if all.len() == 0 {
        seq![]
    } else {
        let rest = suggestion_rows(all.drop_last(), current, query);
        let l = all.last();
        if current.contains(l) {
            rest
        } else {
            match match_score(query, l) {
                Some(s) => rest.push((l, s)),
                None => rest,
            }
        }
    }
}

/// `x` inserted after every row that scores at least as much (a stable
/// insertion, best first).
pub open spec fn insert_by_score(r: Seq<(Seq<char>, int)>, x: (Seq<char>, int)) -> Seq<
    (Seq<char>, int),
>
    decreases r.len(),
{
    if r.len() == 0 {
        seq![x]
    } else if x.1 > r.last().1 {
        insert_by_score(r.drop_last(), x).push(r.last())
    } else {
        r.push(x)
    }
}

/// Stable sort of rows, best score first.
pub open spec fn sort_by_score(s: Seq<(Seq<char>, int)>) -> Seq<(Seq<char>, int)>
    decreases s.len(),
{
    if s.len() == 0 {
        s
    } else {
        insert_by_score(sort_by_score(s.drop_last()), s.last())
    }
}

/// The labels of rows.
pub open spec fn row_labels(s: Seq<(Seq<char>, int)>) -> Seq<Seq<char>> {
    s.map_values(|r: (Seq<char>, int)| r.0)
}

/// Most suggestions shown while typing a label.
pub const MAX_LABEL_SUGGESTIONS: usize = 5;

/// Suggestions for the typed label: none for empty input; else the known
/// labels that the tool does not carry and that match the lowercased
/// input, best match first (ties in their order), at most five.
pub open spec fn spec_label_suggestions(
    all: Seq<Seq<char>>,
    current: Seq<Seq<char>>,
    input: Seq<char>,
) -> Seq<Seq<char>> {
    if input.len() == 0 {
        seq![]
    } else {
        let ranked = sort_by_score(suggestion_rows(all, current, lowercase(input)));
        row_labels(
            if ranked.len() <= MAX_LABEL_SUGGESTIONS {
                ranked
            } else {
                ranked.take(MAX_LABEL_SUGGESTIONS as int)
            },
        )
    }
}

pub open spec fn row_views(s: Seq<(String, i64)>) -> Seq<(Seq<char>, int)> {
    s.map_values(|r: (String, i64)| (r.0@, r.1 as int))
}

/// Inserts `x` as `insert_by_score` does.
fn insert_scored(r: &mut Vec<(String, i64)>, x: (String, i64))
    ensures
        row_views(final(r)@) == insert_by_score(row_views(old(r)@), (x.0@, x.1 as int)),
{
    let ghost v = row_views(r@);
    let ghost xv = (x.0@, x.1 as int);
    let mut j = r.len();
    assert(v.take(j as int) =~= v);
    assert(v.skip(j as int) =~= Seq::<(Seq<char>, int)>::empty());
    assert(insert_by_score(v, xv) + Seq::<(Seq<char>, int)>::empty() =~= insert_by_score(v, xv));
    while j > 0 && x.1 > r[j - 1].1
        invariant
            j <= r@.len(),
            v == row_views(r@),
            xv == (x.0@, x.1 as int),
            insert_by_score(v, xv) == insert_by_score(v.take(j as int), xv) + v.skip(j as int),
        decreases j,
    {
        proof {
            let t = v.take(j as int);
            assert(t.drop_last() =~= v.take(j - 1));
            assert(t.last() == v[j - 1]);
            assert(v.skip(j - 1) =~= seq![v[j - 1]] + v.skip(j as int));
            assert(insert_by_score(t, xv) == insert_by_score(v.take(j - 1), xv).push(v[j - 1]));
            assert(insert_by_score(v.take(j - 1), xv).push(v[j - 1]) + v.skip(j as int)
                =~= insert_by_score(v.take(j - 1), xv) + v.skip(j - 1));
        }
        j -= 1;
    }
    proof {
        if j == 0 {
            assert(v.take(0) =~= Seq::<(Seq<char>, int)>::empty());
        } else {
            assert(v.take(j as int).last() == v[j - 1]);
        }
    }
    r.insert(j, x);
    proof {
        assert(row_views(r@) =~= v.take(j as int).push(xv) + v.skip(j as int));
    }
}

/// Label suggestions for the typed input (see `spec_label_suggestions`).
pub fn label_suggestions(all_labels: &Vec<String>, current: &Vec<String>, input: &str) -> (r: Vec<
    String,
>)
    ensures
        views_of(r@) == spec_label_suggestions(views_of(all_labels@), views_of(current@), input@),
{
    if input.is_empty() {
        let r: Vec<String> = Vec::new();
        assert(views_of(r@) =~= Seq::<Seq<char>>::empty());
        return r;
    }
    let query = to_lowercase(input);
    let ghost av = views_of(all_labels@);
    let ghost cv = views_of(current@);
    let mut rows: Vec<(String, i64)> = Vec::new();
    let mut i: usize = 0;
    while i < all_labels.len()
        invariant
            i <= all_labels@.len(),
            av == views_of(all_labels@),
            cv == views_of(current@),
            query@ == lowercase(input@),
            row_views(rows@) == suggestion_rows(av.take(i as int), cv, query@),
        decreases all_labels@.len() - i,
    {
        let l = &all_labels[i];
        proof {
            assert(av.take(i + 1).drop_last() =~= av.take(i as int));
            assert(av.take(i + 1).last() == l@);
        }
        if !contains_text(current, l.as_str()) {
            match fuzzy_match(query.as_str(), l.as_str()) {
                Some(score) => {
                    let ghost before = rows@;
                    rows.push((l.clone(), score as i64));
                    assert(row_views(rows@) =~= row_views(before).push((l@, score as int)));
                },
                None => {},
            }
        }
        i += 1;
    }
    assert(av.take(av.len() as int) =~= av);
    let ghost ranked = row_views(rows@);
    let mut sorted: Vec<(String, i64)> = Vec::new();
    for x in it: rows
        invariant
            it.seq() == rows@,
            ranked == row_views(rows@),
            row_views(sorted@) == sort_by_score(ranked.take(it.index() as int)),
    {
        proof {
            assert(ranked.take(it.index() + 1).drop_last() =~= ranked.take(it.index() as int));
            assert(ranked.take(it.index() + 1).last() == (x.0@, x.1 as int));
        }
        insert_scored(&mut sorted, x);
    }
    assert(ranked.take(ranked.len() as int) =~= ranked);
    let ghost ordered = row_views(sorted@);
    let ghost kept = if ordered.len() <= MAX_LABEL_SUGGESTIONS {
        ordered
    } else {
        ordered.take(MAX_LABEL_SUGGESTIONS as int)
    };
    let mut out: Vec<String> = Vec::new();
    let mut k: usize = 0;
    while k < sorted.len() && k < MAX_LABEL_SUGGESTIONS
        invariant
            k <= sorted@.len(),
            k <= MAX_LABEL_SUGGESTIONS,
            ordered == row_views(sorted@),
            views_of(out@) == row_labels(ordered.take(k as int)),
        decreases sorted@.len() - k,
    {
        let ghost before = out@;
        out.push(sorted[k].0.clone());
        assert(views_of(out@) =~= views_of(before).push(ordered[k as int].0));
        assert(row_labels(ordered.take(k + 1)) =~= row_labels(ordered.take(k as int)).push(
            ordered[k as int].0,
        ));
        k += 1;
    }
    assert(ordered.take(k as int) =~= kept);
    out
}

/// Label rows the filter popup shows at once.
pub const LABEL_ROWS: usize = 10;

/// A label row of the filter popup.
#[derive(Debug, Clone, PartialEq, Eq)]
pub struct LabelRow {
    pub label: String,
    /// Tools with the label.
    pub count: usize,
    /// The cursor is on the row.
    pub cursor: bool,
    /// The label is one of the active filters.
    pub active: bool,
}

/// What the label filter popup lists.
#[derive(Debug, Clone, PartialEq, Eq)]
pub struct LabelFilterView {
    /// The first row, to clear the filters, while the list is scrolled to
    /// its top: whether the cursor is on it, and its text.
    pub clear_row: Option<(bool, String)>,
    /// The label rows in view.
    pub rows: Vec<LabelRow>,
    /// A search found no label.
    pub no_matches: bool,
    /// "Showing <first>-<last> of <total>", when the list is longer than
    /// the popup.
    pub scroll_info: Option<String>,
    /// The active filters, when there are any.
    pub active_summary: Option<String>,
}

/// First label in view: the list scrolls by rows, the first of which is
/// the clear row.
pub open spec fn first_label(scroll: nat) -> nat {
    if scroll == 0 {
        0
    } else {
        (scroll - 1) as nat
    }
}

/// Label rows in view, from `first_label`.
pub open spec fn rows_shown(len: nat, scroll: nat) -> nat {
    let start = first_label(scroll);
    if start + LABEL_ROWS <= len {
        LABEL_ROWS as nat
    } else {
        (len - start) as nat
    }
}

/// A label row as values: label, count, cursor, active.
pub open spec fn row_view(r: LabelRow) -> (Seq<char>, nat, bool, bool) {
    (r.label@, r.count as nat, r.cursor, r.active)
}

/// The label filter popup's contents: the clear row at the top; up to ten
/// labels from the scroll position on, each with its count, whether the
/// cursor (row `selected`, the clear row being row 0) is on it and whether
/// it is active; a note when a search matches nothing; the scroll position
/// when the list (with the clear row) is longer than ten; and the active
/// filters, named when three at most.
pub open spec fn label_filter_view_ok(
    v: LabelFilterView,
    labels: Seq<(Seq<char>, nat)>,
    selected: nat,
    scroll: nat,
    active: Seq<Seq<char>>,
    searching: bool,
) -> bool {
    let start = first_label(scroll);
    let total = labels.len() + 1;
    let clear_text = if active.len() > 0 {
        "(Clear "@ + decimal(active.len()) + " selected)"@
    } else {
        "(No filters active)"@
    };
    let last = if scroll + LABEL_ROWS < total {
        (scroll + LABEL_ROWS) as nat
    } else {
        total
    };
    &&& clear_view(v.clear_row) == if scroll == 0 {
        Some((selected == 0, clear_text))
    } else {
        None
    }
    &&& v.rows@.len() == rows_shown(labels.len(), scroll)
    &&& forall|k: int|
        0 <= k < v.rows@.len() ==> #[trigger] row_view(v.rows@[k]) == (
            labels[start + k].0,
            labels[start + k].1,
            selected == start + k + 1,
            active.contains(labels[start + k].0),
        )
    &&& v.no_matches == (labels.len() == 0 && searching)
    &&& opt_text(v.scroll_info) == if total > LABEL_ROWS {
        Some("Showing "@ + decimal(scroll + 1) + "-"@ + decimal(last) + " of "@ + decimal(total))
    } else {
        None
    }
    &&& opt_text(v.active_summary) == if active.len() == 0 {
        None
    } else if active.len() <= 3 {
        Some("Active: "@ + join_sep(active, ", "@))
    } else {
        Some("Active: "@ + decimal(active.len()) + " labels selected"@)
    }
}

/// An optional string as characters.
pub open spec fn opt_text(o: Option<String>) -> Option<Seq<char>> {
    match o {
        Some(s) => Some(s@),
        None => None,
    }
}

/// The clear row as values.
pub open spec fn clear_view(o: Option<(bool, String)>) -> Option<(bool, Seq<char>)> {
    match o {
        Some((c, s)) => Some((c, s@)),
        None => None,
    }
}

/// Labels with counts as values.
pub open spec fn counted_views(v: Seq<(String, usize)>) -> Seq<(Seq<char>, nat)> {
    v.map_values(|e: (String, usize)| (e.0@, e.1 as nat))
}

fn join_all(items: &Vec<String>) -> (r: String)
    ensures
        r@ == join_sep(views_of(items@), ", "@),
{
    let ghost vs = views_of(items@);
    let mut s = String::new();
    let mut i: usize = 0;
    assert(vs.take(0) =~= Seq::<Seq<char>>::empty());
    while i < items.len()
        invariant
            i <= items@.len(),
            vs == views_of(items@),
            s@ == join_sep(vs.take(i as int), ", "@),
        decreases items@.len() - i,
    {
        let ghost t = vs.take(i + 1);
        assert(t.drop_last() =~= vs.take(i as int));
        if i > 0 {
            s.append(", ");
        } else {
            assert(t =~= seq![items@[i as int]@]);
        }
        s.append(items[i].as_str());
        i += 1;
    }
    assert(vs.take(items@.len() as int) =~= vs);
    s
}

/// What the label filter popup lists (see `label_filter_view_ok`); the
/// scroll position stays within the list.
pub fn label_filter_view(
    labels: &Vec<(String, usize)>,
    selected: usize,
    scroll: usize,
    active: &Vec<String>,
    searching: bool,
) -> (r: LabelFilterView)
    requires
        scroll <= labels@.len() + 1,
        labels@.len() + LABEL_ROWS + 2 <= usize::MAX,
    ensures
        label_filter_view_ok(r, counted_views(labels@), selected as nat, scroll as nat, views_of(active@), searching),
{
    let ghost ls = counted_views(labels@);
    let ghost act = views_of(active@);
    let clear_row = if scroll == 0 {
        let text = if active.len() > 0 {
            let mut t = String::from_str("(Clear ");
            t.append(usize_to_string(active.len()).as_str());
            t.append(" selected)");
            t
        } else {
            String::from_str("(No filters active)")
        };
        Some((selected == 0, text))
    } else {
        None
    };
    let start: usize = if scroll == 0 {
        0
    } else {
        scroll - 1
    };
    let end: usize = if start + LABEL_ROWS < labels.len() {
        start + LABEL_ROWS
    } else {
        labels.len()
    };
    let mut rows: Vec<LabelRow> = Vec::new();
    let mut i: usize = start;
    while i < end
        invariant
            start <= i <= end <= labels@.len(),
            start == first_label(scroll as nat),
            ls == counted_views(labels@),
            act == views_of(active@),
            rows@.len() == i - start,
            forall|k: int|
                0 <= k < rows@.len() ==> #[trigger] row_view(rows@[k]) == (
                    ls[start + k].0,
                    ls[start + k].1,
                    selected == start + k + 1,
                    act.contains(ls[start + k].0),
                ),
        decreases end - i,
    {
        let cursor = selected > 0 && selected - 1 == i;
        let is_active = contains_text(active, labels[i].0.as_str());
        rows.push(LabelRow { label: labels[i].0.clone(), count: labels[i].1, cursor, active: is_active });
        i += 1;
    }
    let total = labels.len() + 1;
    let scroll_info = if total > LABEL_ROWS {
        let last = if scroll + LABEL_ROWS < total {
            scroll + LABEL_ROWS
        } else {
            total
        };
        let mut t = String::from_str("Showing ");
        t.append(usize_to_string(scroll + 1).as_str());
        t.append("-");
        t.append(usize_to_string(last).as_str());
        t.append(" of ");
        t.append(usize_to_string(total).as_str());
        Some(t)
    } else {
        None
    };
    let active_summary = if active.len() == 0 {
        None
    } else if active.len() <= 3 {
        let mut t = String::from_str("Active: ");
        t.append(join_all(active).as_str());
        Some(t)
    } else {
        let mut t = String::from_str("Active: ");
        t.append(usize_to_string(active.len()).as_str());
        t.append(" labels selected");
        Some(t)
    };
    LabelFilterView {
        clear_row,
        rows,
        no_matches: labels.len() == 0 && searching,
        scroll_info,
        active_summary,
    }
}

} // verus!

