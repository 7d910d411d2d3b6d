//! Version strings: their numeric parts, which of two is newer, and
//! whether one is a stable release.

use vstd::prelude::*;
use crate::text::{
    chars_contain, chars_of, char_is_ascii_digit, contains_seq, is_ascii_digit, lowercase,
    to_lowercase,
};

verus! {

/// Value of an ASCII digit.
pub open spec fn digit_value(c: char) -> int {
    c as int - '0' as int
}

/// Numeric parts found so far, and the value of the run of digits being read.
pub struct PartsAcc {
    pub parts: Seq<u32>,
    pub run: Option<int>,
}

/// The parts with the current run of digits added, when its value fits a `u32`.
pub open spec fn close_run(a: PartsAcc) -> Seq<u32> {
    match a.run {
        Some(v) => if v <= u32::MAX {
            a.parts.push(v as u32)
        } else {
            a.parts
        },
        None => a.parts,
    }
}

/// Reading the first `n` characters of `s`.
pub open spec fn parts_acc(s: Seq<char>, n: nat) -> PartsAcc
    decreases n,
{
    if n == 0 {
        PartsAcc { parts: seq![], run: None }
    } else {
        let a = parts_acc(s, (n - 1) as nat);
        let c = s[n - 1];
        if is_ascii_digit(c) {
            let before: int = match a.run {
                Some(v) => v,
                None => 0,
            };
            PartsAcc { parts: a.parts, run: Some(before * 10 + digit_value(c)) }
        } else {
            PartsAcc { parts: close_run(a), run: None }
        }
    }
}

/// The numbers of a version string: each maximal run of ASCII digits whose
/// value fits a `u32`, in order; everything else separates them.
pub open spec fn version_parts(s: Seq<char>) -> Seq<u32> {
    close_run(parts_acc(s, s.len()))
}

/// `a` is newer than `b`: at the first position where they differ `a` is
/// larger, or `b` is a proper prefix of `a`.
pub open spec fn parts_newer(a: Seq<u32>, b: Seq<u32>) -> bool
    decreases a.len(),
{
    if a.len() == 0 || b.len() == 0 {
        a.len() > b.len()
    } else if a[0] > b[0] {
        true
    } else if a[0] < b[0] {
        false
    } else {
        parts_newer(a.drop_first(), b.drop_first())
    }
}

/// Version `latest` is newer than version `current`.
pub open spec fn version_newer(latest: Seq<char>, current: Seq<char>) -> bool {
    parts_newer(version_parts(latest), version_parts(current))
}

/// Upper bound kept for a run of digits too large for a `u32`.
pub const RUN_CAP: u64 = 0x1_0000_0000;

/// The run value kept by the reader: the true value, or `RUN_CAP` once it
/// no longer fits a `u32`.
pub open spec fn capped(v: int) -> int {
    if v < RUN_CAP {
        v
    } else {
        RUN_CAP as int
    }
}

/// The numeric parts of a version string.
pub fn parse_version_parts(s: &str) -> (r: Vec<u32>)
    ensures
        r@ == version_parts(s@),
{
    let cs = chars_of(s);
    let mut parts: Vec<u32> = Vec::new();
    let mut run: Option<u64> = None;
    let mut i: usize = 0;
    while i < cs.len()
        invariant
            cs@ == s@,
            0 <= i <= cs@.len(),
            ({
                let a = parts_acc(s@, i as nat);
                &&& parts@ == a.parts
                &&& match run {
                    Some(v) => a.run is Some && v == capped(a.run->0) && a.run->0 >= 0,
                    None => a.run is None,
                }
            }),
        decreases cs@.len() - i,
    {
        let c = cs[i];
        if char_is_ascii_digit(c) {
            let d = (c as u32 - '0' as u32) as u64;
            let before: u64 = match run {
                Some(v) => v,
                None => 0,
            };
            let mut next = before * 10 + d;
            if next > RUN_CAP {
                next = RUN_CAP;
            }
            proof {
                let a = parts_acc(s@, i as nat);
                let b: int = match a.run {
                    Some(v) => v,
                    None => 0,
                };
                assert(d == digit_value(c));
                assert(0 <= d <= 9);
                if b >= RUN_CAP {
                    assert(b * 10 + d >= RUN_CAP) by (nonlinear_arith)
                        requires
                            b >= RUN_CAP,
                            d >= 0,
                    ;
                }
                assert(next == capped(b * 10 + d));
            }
            run = Some(next);
        } else {
            match run {
                Some(v) => {
                    if v <= u32::MAX as u64 {
                        parts.push(v as u32);
                    }
                },
                None => {},
            }
            run = None;
        }
        i += 1;
    }
    match run {
        Some(v) => {
            if v <= u32::MAX as u64 {
                parts.push(v as u32);
            }
        },
        None => {},
    }
    parts
}

/// Whether parts `a` are newer than parts `b`.
pub fn parts_are_newer(a: &Vec<u32>, b: &Vec<u32>) -> (r: bool)
    ensures
        r == parts_newer(a@, b@),
{
    let mut i: usize = 0;
    assert(a@.skip(0) =~= a@);
    assert(b@.skip(0) =~= b@);
    while i < a.len() && i < b.len()
        invariant
            0 <= i <= a@.len(),
            i <= b@.len(),
            parts_newer(a@, b@) == parts_newer(a@.skip(i as int), b@.skip(i as int)),
        decreases a@.len() - i,
    {
        assert(a@.skip(i as int).drop_first() =~= a@.skip(i + 1));
        assert(b@.skip(i as int).drop_first() =~= b@.skip(i + 1));
        if a[i] > b[i] {
            return true;
        }
        if a[i] < b[i] {
            return false;
        }
        i += 1;
    }
    a.len() > b.len()
}

/// Simple version comparison for semver-like strings: whether `latest` is
/// newer than `current`.
pub fn version_is_newer(latest: &str, current: &str) -> (r: bool)
    ensures
        r == version_newer(latest@, current@),
{
    let latest_parts = parse_version_parts(latest);
    let current_parts = parse_version_parts(current);
    parts_are_newer(&latest_parts, &current_parts)
}

/// No version is newer than itself.
pub proof fn law_parts_irreflexive(a: Seq<u32>)
    ensures
        !parts_newer(a, a),
    decreases a.len(),
{
    if a.len() > 0 {
        law_parts_irreflexive(a.drop_first());
    }
}

/// Of two versions at most one is newer than the other.
pub proof fn law_parts_asymmetric(a: Seq<u32>, b: Seq<u32>)
    ensures
        parts_newer(a, b) ==> !parts_newer(b, a),
    decreases a.len(),
{
    if a.len() > 0 && b.len() > 0 && a[0] == b[0] {
        law_parts_asymmetric(a.drop_first(), b.drop_first());
    }
}

/// Newer-than is transitive.
pub proof fn law_parts_transitive(a: Seq<u32>, b: Seq<u32>, c: Seq<u32>)
    requires
        parts_newer(a, b),
        parts_newer(b, c),
    ensures
        parts_newer(a, c),
    decreases a.len(),
{
    if a.len() > 0 && b.len() > 0 && c.len() > 0 && a[0] == b[0] && b[0] == c[0] {
        law_parts_transitive(a.drop_first(), b.drop_first(), c.drop_first());
    }
}

/// Of two versions with different parts, one is newer than the other.
pub proof fn law_parts_total(a: Seq<u32>, b: Seq<u32>)
    requires
        a != b,
    ensures
        parts_newer(a, b) || parts_newer(b, a),
    decreases a.len(),
{
    if a.len() > 0 && b.len() > 0 && a[0] == b[0] {
        if a.drop_first() == b.drop_first() {
            assert(a =~= seq![a[0]] + a.drop_first());
            assert(b =~= seq![b[0]] + b.drop_first());
        }
        law_parts_total(a.drop_first(), b.drop_first());
    } else if a.len() == 0 && b.len() == 0 {
        assert(a =~= b);
    }
}

/// `version_is_newer` is a strict order on version strings: irreflexive,
/// asymmetric and transitive, and it orders any two strings whose numeric
/// parts differ.
pub proof fn law_version_order(a: Seq<char>, b: Seq<char>, c: Seq<char>)
    ensures
        !version_newer(a, a),
        version_newer(a, b) ==> !version_newer(b, a),
        version_newer(a, b) && version_newer(b, c) ==> version_newer(a, c),
        version_parts(a) != version_parts(b) ==> version_newer(a, b) || version_newer(b, a),
{
    law_parts_irreflexive(version_parts(a));
    law_parts_asymmetric(version_parts(a), version_parts(b));
    if version_newer(a, b) && version_newer(b, c) {
        law_parts_transitive(version_parts(a), version_parts(b), version_parts(c));
    }
    if version_parts(a) != version_parts(b) {
        law_parts_total(version_parts(a), version_parts(b));
    }
}

/// A lowercased version string names a stable release: it holds none of
/// "alpha", "beta", "dev", "pre", holds "rc" only inside "src", and has no
/// 'a' or 'b' directly between a digit and a digit (as in "1.0a1").
pub open spec fn stable_lowercase(l: Seq<char>) -> bool {
    &&& !contains_seq(l, "alpha"@)
    &&& !contains_seq(l, "beta"@)
    &&& !contains_seq(l, "dev"@)
    &&& !contains_seq(l, "pre"@)
    &&& !(contains_seq(l, "rc"@) && !contains_seq(l, "src"@))
    &&& forall|i: int|
        0 <= i < l.len() - 1 && (l[i] == 'a' || l[i] == 'b') && is_ascii_digit(#[trigger] l[i + 1])
            ==> i == 0 || !is_ascii_digit(l[i - 1])
}

/// A version whose lowercase form holds "alpha", "beta", "dev" or "pre",
/// or "rc" outside "src", is never stable; one made only of digits and dots
/// always is.
pub proof fn law_prereleases_are_not_stable(v: Seq<char>)
    ensures
        contains_seq(lowercase(v), "alpha"@) ==> !stable_lowercase(lowercase(v)),
        contains_seq(lowercase(v), "beta"@) ==> !stable_lowercase(lowercase(v)),
        contains_seq(lowercase(v), "dev"@) ==> !stable_lowercase(lowercase(v)),
        contains_seq(lowercase(v), "pre"@) ==> !stable_lowercase(lowercase(v)),
        contains_seq(lowercase(v), "rc"@) && !contains_seq(lowercase(v), "src"@)
            ==> !stable_lowercase(lowercase(v)),
        (forall|i: int| 0 <= i < lowercase(v).len() ==> is_ascii_digit(#[trigger] lowercase(v)[i])
            || lowercase(v)[i] == '.') ==> stable_lowercase(lowercase(v)),
{
    let l = lowercase(v);
    reveal_strlit("alpha");
    reveal_strlit("beta");
    reveal_strlit("dev");
    reveal_strlit("pre");
    reveal_strlit("rc");
    if forall|i: int| 0 <= i < l.len() ==> is_ascii_digit(#[trigger] l[i]) || l[i] == '.' {
        lemma_digits_hold_no_letter(l, "alpha"@);
        lemma_digits_hold_no_letter(l, "beta"@);
        lemma_digits_hold_no_letter(l, "dev"@);
        lemma_digits_hold_no_letter(l, "pre"@);
        lemma_digits_hold_no_letter(l, "rc"@);
    }
}

/// Text of digits and dots holds no word that starts with a letter.
proof fn lemma_digits_hold_no_letter(l: Seq<char>, w: Seq<char>)
    requires
        forall|i: int| 0 <= i < l.len() ==> is_ascii_digit(#[trigger] l[i]) || l[i] == '.',
        w.len() > 0,
        !is_ascii_digit(w[0]),
        w[0] != '.',
    ensures
        !contains_seq(l, w),
{
    if contains_seq(l, w) {
        let i = choose|i: int| 0 <= i <= l.len() - w.len() && #[trigger] l.subrange(i, i + w.len()) == w;
        assert(l.subrange(i, i + w.len())[0] == l[i]);
    }
}

/// No version kept by `newer_stable_versions` is a pre-release.
pub proof fn law_newer_stable_are_releases(c: Seq<char>, current: Seq<char>)
    requires
        keep_version(c, current),
    ensures
        !contains_seq(lowercase(c), "pre"@),
        !contains_seq(lowercase(c), "alpha"@),
        !contains_seq(lowercase(c), "beta"@),
        !contains_seq(lowercase(c), "dev"@),
        version_newer(c, current),
{
    law_prereleases_are_not_stable(c);
}

/// Whether `v` is a stable release (not alpha, beta, rc, dev, ...).
pub fn is_stable_version(v: &str) -> (r: bool)
    ensures
        r == stable_lowercase(lowercase(v@)),
{
    let lower_s = to_lowercase(v);
    let lower = chars_of(lower_s.as_str());
    if chars_contain(&lower, &chars_of("alpha")) || chars_contain(&lower, &chars_of("beta"))
        || chars_contain(&lower, &chars_of("dev")) || chars_contain(&lower, &chars_of("pre")) {
        return false;
    }
    if chars_contain(&lower, &chars_of("rc")) && !chars_contain(&lower, &chars_of("src")) {
        return false;
    }
    let n = lower.len();
    let last = if n == 0 {
        0
    } else {
        n - 1
    };
    let mut i: usize = 0;
    while i < last
        invariant
            lower@ == lowercase(v@),
            n == lower@.len(),
            last == if n == 0 {
                0
            } else {
                n - 1
            },
            0 <= i <= last,
            forall|k: int|
                0 <= k < i && (lower@[k] == 'a' || lower@[k] == 'b') && is_ascii_digit(
                    #[trigger] lower@[k + 1],
                ) ==> k == 0 || !is_ascii_digit(lower@[k - 1]),
        decreases last - i,
    {
        if (lower[i] == 'a' || lower[i] == 'b') && char_is_ascii_digit(lower[i + 1]) {
            if i == 0 || !char_is_ascii_digit(lower[i - 1]) {
                i += 1;
                continue;
            }
            proof {
                assert(lower@ == lowercase(v@));
                assert(is_ascii_digit(lowercase(v@)[i + 1]));
            }
            return false;
        }
        i += 1;
    }
    true
}

/// `x` inserted into `r` after every entry that is not newer than it,
/// scanning from the end (a stable insertion).
pub open spec fn insert_sorted(r: Seq<Seq<char>>, x: Seq<char>) -> Seq<Seq<char>>
    decreases r.len(),
{
    if r.len() == 0 {
        seq![x]
    } else if version_newer(r.last(), x) {
        insert_sorted(r.drop_last(), x).push(r.last())
    } else {
        r.push(x)
    }
}

/// Stable sort of versions, oldest first.
pub open spec fn sort_versions(s: Seq<Seq<char>>) -> Seq<Seq<char>>
    decreases s.len(),
{
    if s.len() == 0 {
        s
    } else {
        insert_sorted(sort_versions(s.drop_last()), s.last())
    }
}

/// Candidate kept by `newer_stable_versions`.
pub open spec fn keep_version(c: Seq<char>, current: Seq<char>) -> bool {
    stable_lowercase(lowercase(c)) && version_newer(c, current)
}

/// The kept candidates, in their order.
pub open spec fn kept_versions(s: Seq<Seq<char>>, current: Seq<char>) -> Seq<Seq<char>>
    decreases s.len(),
{
    if s.len() == 0 {
        s
    } else if keep_version(s.last(), current) {
        kept_versions(s.drop_last(), current).push(s.last())
    } else {
        kept_versions(s.drop_last(), current)
    }
}

/// Characters of each string.
pub open spec fn string_views(v: Seq<String>) -> Seq<Seq<char>> {
    v.map_values(|s: String| s@)
}

/// No entry is newer than a later one.
pub open spec fn sorted_versions(r: Seq<Seq<char>>) -> bool {
    forall|i: int, j: int| 0 <= i < j < r.len() ==> !version_newer(#[trigger] r[i], #[trigger] r[j])
}

/// The stable versions newer than `current` among `candidates`, oldest
/// first; versions with the same numbers keep their order.
pub fn newer_stable_versions(candidates: Vec<String>, current: &str) -> (r: Vec<String>)
    ensures
        string_views(r@) == sort_versions(kept_versions(string_views(candidates@), current@)),
{
    let ghost cands = string_views(candidates@);
    let mut kept: Vec<String> = Vec::new();
    for c in it: candidates
        invariant
            it.seq() == candidates@,
            cands == string_views(candidates@),
            string_views(kept@) == kept_versions(cands.take(it.index() as int), current@),
    {
        proof {
            assert(cands.take(it.index() + 1).drop_last() =~= cands.take(it.index() as int));
            assert(cands.take(it.index() + 1).last() == c@);
        }
        if is_stable_version(c.as_str()) && version_is_newer(c.as_str(), current) {
            let ghost before = kept@;
            kept.push(c);
            assert(string_views(kept@) =~= string_views(before).push(c@));
        }
    }
    assert(cands.take(cands.len() as int) =~= cands);
    let ghost ks = string_views(kept@);
    let mut sorted: Vec<String> = Vec::new();
    for x in it: kept
        invariant
            it.seq() == kept@,
            ks == string_views(kept@),
            string_views(sorted@) == sort_versions(ks.take(it.index() as int)),
    {
        proof {
            assert(ks.take(it.index() + 1).drop_last() =~= ks.take(it.index() as int));
            assert(ks.take(it.index() + 1).last() == x@);
        }
        insert_version(&mut sorted, x);
    }
    assert(ks.take(ks.len() as int) =~= ks);
    sorted
}

/// Insert `x` into `r` as `insert_sorted` does.
fn insert_version(r: &mut Vec<String>, x: String)
    ensures
        string_views(final(r)@) == insert_sorted(string_views(old(r)@), x@),
{
    let ghost v = string_views(r@);
    let mut j = r.len();
    assert(v.take(j as int) =~= v);
    assert(v.skip(j as int) =~= Seq::<Seq<char>>::empty());
    assert(insert_sorted(v, x@) + Seq::<Seq<char>>::empty() =~= insert_sorted(v, x@));
    while j > 0 && version_is_newer(r[j - 1].as_str(), x.as_str())
        invariant
            j <= r@.len(),
            v == string_views(r@),
            insert_sorted(v, x@) == insert_sorted(v.take(j as int), x@) + v.skip(j as int),
            j < r@.len() ==> version_newer(v[j as int], x@),
        decreases j,
    {
        proof {
            let t = v.take(j as int);
            assert(t.drop_last() =~= v.take(j - 1));
            assert(t.last() == v[j - 1]);
            assert(v.skip(j - 1) =~= seq![v[j - 1]] + v.skip(j as int));
            assert(insert_sorted(t, x@) == insert_sorted(v.take(j - 1), x@).push(v[j - 1]));
            assert(insert_sorted(v.take(j - 1), x@).push(v[j - 1]) + v.skip(j as int)
                =~= insert_sorted(v.take(j - 1), x@) + v.skip(j - 1));
        }
        j -= 1;
    }
    proof {
        if j == 0 {
            assert(v.take(0) =~= Seq::<Seq<char>>::empty());
        } else {
            assert(!version_newer(v.take(j as int).last(), x@));
        }
    }
    r.insert(j, x);
    proof {
        assert(string_views(r@) =~= v.take(j as int).push(x@) + v.skip(j as int));
    }
}

/// `!version_newer` is transitive: "not newer" behaves as "at most".
proof fn lemma_not_newer_trans(a: Seq<char>, b: Seq<char>, c: Seq<char>)
    requires
        !version_newer(a, b),
        !version_newer(b, c),
    ensures
        !version_newer(a, c),
{
    law_version_order(a, b, c);
    law_version_order(b, a, c);
    law_version_order(c, a, b);
    law_version_order(b, c, a);
    if version_newer(a, c) {
        if version_parts(a) == version_parts(b) {
            assert(version_newer(b, c));
        } else {
            assert(version_newer(b, a));
            law_version_order(b, a, c);
            assert(version_newer(b, c));
        }
    }
}

proof fn lemma_insert_sorted(r: Seq<Seq<char>>, x: Seq<char>)
    requires
        sorted_versions(r),
    ensures
        sorted_versions(insert_sorted(r, x)),
        insert_sorted(r, x).to_multiset() == r.to_multiset().insert(x),
        forall|y: Seq<char>|
            (forall|k: int| 0 <= k < r.len() ==> !version_newer(#[trigger] r[k], y)) && !version_newer(x, y)
                ==> forall|k: int|
                0 <= k < insert_sorted(r, x).len() ==> !version_newer(
                    #[trigger] insert_sorted(r, x)[k],
                    y,
                ),
    decreases r.len(),
{
    broadcast use vstd::seq_lib::group_to_multiset_ensures;
    if r.len() == 0 {
        assert(seq![x] =~= Seq::<Seq<char>>::empty().push(x));
    } else if version_newer(r.last(), x) {
        let d = r.drop_last();
        assert(sorted_versions(d));
        lemma_insert_sorted(d, x);
        let l = r.last();
        law_version_order(l, x, l);
        assert forall|k: int| 0 <= k < d.len() implies !version_newer(#[trigger] d[k], l) by {
            assert(r[k] == d[k]);
        }
        assert(r =~= d.push(l));
        let ins = insert_sorted(d, x);
        assert forall|i: int, j: int|
            0 <= i < j < ins.push(l).len() implies !version_newer(
            #[trigger] ins.push(l)[i],
            #[trigger] ins.push(l)[j],
        ) by {
            if j == ins.len() {
                assert(ins.push(l)[j] == l);
                assert(ins.push(l)[i] == ins[i]);
            } else {
                assert(ins.push(l)[i] == ins[i]);
                assert(ins.push(l)[j] == ins[j]);
            }
        }
        assert forall|y: Seq<char>|
            (forall|k: int| 0 <= k < r.len() ==> !version_newer(#[trigger] r[k], y)) && !version_newer(x, y)
            implies forall|k: int|
            0 <= k < ins.push(l).len() ==> !version_newer(#[trigger] ins.push(l)[k], y) by {
            assert forall|k: int| 0 <= k < d.len() implies !version_newer(#[trigger] d[k], y) by {
                assert(r[k] == d[k]);
            }
            assert(r[r.len() - 1] == l);
            assert forall|k: int| 0 <= k < ins.push(l).len() implies !version_newer(
                #[trigger] ins.push(l)[k],
                y,
            ) by {
                if k < ins.len() {
                    assert(ins.push(l)[k] == ins[k]);
                }
            }
        }
    } else {
        let l = r.last();
        assert forall|k: int| 0 <= k < r.len() implies !version_newer(#[trigger] r[k], x) by {
            if k < r.len() - 1 {
                lemma_not_newer_trans(r[k], l, x);
            }
        }
        assert forall|i: int, j: int|
            0 <= i < j < r.push(x).len() implies !version_newer(
            #[trigger] r.push(x)[i],
            #[trigger] r.push(x)[j],
        ) by {
            assert(r.push(x)[i] == r[i]);
            if j < r.len() {
                assert(r.push(x)[j] == r[j]);
            }
        }
        assert forall|y: Seq<char>|
            (forall|k: int| 0 <= k < r.len() ==> !version_newer(#[trigger] r[k], y)) && !version_newer(x, y)
            implies forall|k: int|
            0 <= k < r.push(x).len() ==> !version_newer(#[trigger] r.push(x)[k], y) by {
            assert forall|k: int| 0 <= k < r.push(x).len() implies !version_newer(
                #[trigger] r.push(x)[k],
                y,
            ) by {
                if k < r.len() {
                    assert(r.push(x)[k] == r[k]);
                }
            }
        }
    }
}

/// The sort returns its input in order: nothing is newer than a later
/// entry, and the entries are those of the input, each as often.
pub proof fn law_sort_versions(s: Seq<Seq<char>>)
    ensures
        sorted_versions(sort_versions(s)),
        sort_versions(s).to_multiset() == s.to_multiset(),
    decreases s.len(),
{
    broadcast use vstd::seq_lib::group_to_multiset_ensures;
    if s.len() > 0 {
        law_sort_versions(s.drop_last());
        lemma_insert_sorted(sort_versions(s.drop_last()), s.last());
        assert(s =~= s.drop_last().push(s.last()));
    } else {
        assert(sorted_versions(s));
    }
}

} // verus!
