//! fzf-style fuzzy matching of a query against a target, with the matched
//! positions for highlighting.

use vstd::prelude::*;
use crate::text::{
    chars_eq, chars_of, chars_starts_with, char_is_alphanumeric, is_alphanumeric, is_prefix,
    lowercase, to_lowercase,
};

verus! {

/// State of the left-to-right scan of the target.
pub struct ScanState {
    /// Query characters matched so far.
    pub matched: nat,
    pub score: int,
    /// Position of the last match.
    pub prev: Option<int>,
    /// Bonus for the current run of consecutive matches.
    pub run_bonus: int,
    pub positions: Seq<int>,
}

/// A match at position `i` is at a word boundary: the start of the target
/// or after a character that is not alphanumeric.
pub open spec fn at_boundary(t: Seq<char>, i: int) -> bool {
    i == 0 || !is_alphanumeric(t[i - 1])
}

/// The scan after the first `n` target characters: each target character
/// that equals the next unmatched query character is matched, scoring 1,
/// plus a growing bonus (2, 4, 6, ...) while matches are consecutive, plus
/// 3 at a word boundary.
pub open spec fn scan(q: Seq<char>, t: Seq<char>, n: nat) -> ScanState
    decreases n,
{
    if n == 0 {
        ScanState { matched: 0, score: 0, prev: None, run_bonus: 0, positions: seq![] }
    } else {
        let s = scan(q, t, (n - 1) as nat);
        let i = n - 1;
        if s.matched < q.len() && t[i] == q[s.matched as int] {
            let run_bonus = match s.prev {
                Some(p) => if i == p + 1 {
                    s.run_bonus + 2
                } else {
                    0
                },
                None => s.run_bonus,
            };
            let consecutive: int = match s.prev {
                Some(p) => if i == p + 1 {
                    run_bonus
                } else {
                    0
                },
                None => 0,
            };
            let boundary: int = if at_boundary(t, i) {
                3
            } else {
                0
            };
            ScanState {
                matched: s.matched + 1,
                score: s.score + 1 + consecutive + boundary,
                prev: Some(i),
                run_bonus,
                positions: s.positions.push(i),
            }
        } else {
            s
        }
    }
}

/// Score and matched positions of query `q` (already lowercased) in target
/// `t`, or `None` when not every query character is matched. An empty
/// query matches with score 0; an exact match earns 100 more and a prefix
/// match 50 more.
pub open spec fn fuzzy_result(q: Seq<char>, t: Seq<char>) -> Option<(int, Seq<int>)> {
    if q.len() == 0 {
        Some((0, seq![]))
    } else {
        let s = scan(q, t, t.len());
        if s.matched == q.len() {
            Some((s.score + match_bonus(q, t), s.positions))
        } else {
            None
        }
    }
}

/// The score part of a result.
pub open spec fn result_score(r: Option<(int, Seq<int>)>) -> Option<int> {
    match r {
        Some((s, _)) => Some(s),
        None => None,
    }
}

/// The positions part of a result.
pub open spec fn result_positions(r: Option<(int, Seq<int>)>) -> Seq<int> {
    match r {
        Some((_, p)) => p,
        None => seq![],
    }
}

/// The bonus for an exact (100) or prefix (50) match.
pub open spec fn match_bonus(q: Seq<char>, t: Seq<char>) -> int {
    if q == t {
        100
    } else if is_prefix(q, t) {
        50
    } else {
        0
    }
}

/// The largest value the running `i32` score reaches while matching `q`
/// against `t`: the scan's score, plus the bonus when every query
/// character matched. The score only grows, so this is its last value.
pub open spec fn fuzzy_total(q: Seq<char>, t: Seq<char>) -> int {
    if q.len() == 0 {
        0
    } else {
        let s = scan(q, t, t.len());
        if s.matched == q.len() {
            s.score + match_bonus(q, t)
        } else {
            s.score
        }
    }
}

/// The running score of the match stays within `i32`; beyond that the
/// addition would overflow.
pub open spec fn fuzzy_fits(q: Seq<char>, t: Seq<char>) -> bool {
    fuzzy_total(q, t) <= i32::MAX
}

/// Positions as integers.
pub open spec fn int_positions(p: Seq<usize>) -> Seq<int> {
    p.map_values(|x: usize| x as int)
}

/// `e` places the characters of `q` at increasing positions of `t`.
pub open spec fn is_embedding(q: Seq<char>, t: Seq<char>, e: Seq<int>) -> bool {
    &&& e.len() == q.len()
    &&& forall|k: int| 0 <= k < e.len() ==> 0 <= #[trigger] e[k] < t.len() && t[e[k]] == q[k]
    &&& forall|j: int, k: int| 0 <= j < k < e.len() ==> #[trigger] e[j] < #[trigger] e[k]
}

/// `q` is a subsequence of `t`.
pub open spec fn is_subsequence(q: Seq<char>, t: Seq<char>) -> bool {
    exists|e: Seq<int>| is_embedding(q, t, e)
}

/// Invariants of the scan.
pub open spec fn scan_inv(q: Seq<char>, t: Seq<char>, n: nat, s: ScanState) -> bool {
    &&& s.matched <= q.len()
    &&& s.matched <= n
    &&& s.positions.len() == s.matched
    &&& forall|k: int|
        0 <= k < s.positions.len() ==> 0 <= #[trigger] s.positions[k] < n && t[s.positions[k]]
            == q[k]
    &&& forall|j: int, k: int|
        0 <= j < k < s.positions.len() ==> #[trigger] s.positions[j] < #[trigger] s.positions[k]
    &&& (s.matched == 0 <==> s.prev is None)
    &&& s.matched > 0 ==> s.prev == Some(s.positions.last())
    &&& 0 <= s.run_bonus <= 2 * s.matched
    &&& s.run_bonus <= s.score
    &&& 0 <= s.score <= s.matched * s.matched + 5 * s.matched
    &&& s.matched > 0 ==> s.score >= 1
}

proof fn lemma_scan_inv(q: Seq<char>, t: Seq<char>, n: nat)
    requires
        n <= t.len(),
    ensures
        scan_inv(q, t, n, scan(q, t, n)),
    decreases n,
{
    if n > 0 {
        lemma_scan_inv(q, t, (n - 1) as nat);
        let s = scan(q, t, (n - 1) as nat);
        let m = s.matched;
        assert((m + 1) * (m + 1) + 5 * (m + 1) == m * m + 5 * m + 2 * m + 6) by (nonlinear_arith);
        assert(m * m >= 0) by (nonlinear_arith);
    }
}

proof fn lemma_scan_matched_monotone(q: Seq<char>, t: Seq<char>, a: nat, b: nat)
    requires
        a <= b <= t.len(),
    ensures
        scan(q, t, a).matched <= scan(q, t, b).matched,
        scan(q, t, a).score <= scan(q, t, b).score,
    decreases b,
{
    if a < b {
        lemma_scan_matched_monotone(q, t, a, (b - 1) as nat);
        lemma_scan_inv(q, t, (b - 1) as nat);
    }
}

proof fn lemma_scan_complete(q: Seq<char>, t: Seq<char>, e: Seq<int>, n: nat)
    requires
        is_embedding(q, t, e),
        n <= t.len(),
    ensures
        forall|k: int| 0 <= k < e.len() && e[k] < n ==> scan(q, t, n).matched > k,
    decreases n,
{
    if n > 0 {
        lemma_scan_complete(q, t, e, (n - 1) as nat);
        let prev = scan(q, t, (n - 1) as nat);
        assert forall|k: int| 0 <= k < e.len() && e[k] < n implies scan(q, t, n).matched > k by {
            lemma_scan_matched_monotone(q, t, (n - 1) as nat, n);
            if e[k] < n - 1 {
            } else {
                if k > 0 {
                    assert(e[k - 1] < e[k]);
                }
                lemma_scan_inv(q, t, (n - 1) as nat);
            }
        }
    }
}

/// The scan of the whole target.
proof fn lemma_full_scan(q: Seq<char>, t: Seq<char>)
    ensures
        scan_inv(q, t, t.len(), scan(q, t, t.len())),
{
    lemma_scan_inv(q, t, t.len());
}

/// A query matches exactly when it is a subsequence of the target, and the
/// positions reported place the query's characters in the target, in order.
pub proof fn law_match_iff_subsequence(q: Seq<char>, t: Seq<char>)
    ensures
        fuzzy_result(q, t) is Some <==> is_subsequence(q, t),
        fuzzy_result(q, t) is Some ==> is_embedding(q, t, result_positions(fuzzy_result(q, t))),
{
    lemma_full_scan(q, t);
    let s = scan(q, t, t.len());
    if q.len() == 0 {
        assert(is_embedding(q, t, seq![]));
    } else {
        if s.matched == q.len() {
            assert(is_embedding(q, t, s.positions));
        }
        if is_subsequence(q, t) {
            let e = choose|e: Seq<int>| is_embedding(q, t, e);
            lemma_scan_complete(q, t, e, t.len());
            assert(e[q.len() - 1] < t.len());
        }
    }
}

/// Where the search for query character `k` starts: after the position of
/// character `k - 1`.
pub open spec fn search_start(e: Seq<int>, k: int) -> int {
    if k == 0 {
        0
    } else {
        e[k - 1] + 1
    }
}

/// Each position in `e` is the first one, after the previous position,
/// where the target holds that query character (greedy, leftmost).
pub open spec fn is_leftmost(q: Seq<char>, t: Seq<char>, e: Seq<int>) -> bool {
    forall|k: int, j: int|
        #![trigger e[k], t[j]]
        0 <= k < e.len() && search_start(e, k) <= j < e[k] ==> t[j] != q[k]
}

proof fn lemma_positions_len(q: Seq<char>, t: Seq<char>, n: nat)
    ensures
        scan(q, t, n).positions.len() == scan(q, t, n).matched,
    decreases n,
{
    if n > 0 {
        lemma_positions_len(q, t, (n - 1) as nat);
    }
}

#[verifier::spinoff_prover]
proof fn lemma_scan_leftmost(q: Seq<char>, t: Seq<char>, n: nat)
    requires
        n <= t.len(),
    ensures
        is_leftmost(q, t, scan(q, t, n).positions),
        scan(q, t, n).matched < q.len() ==> forall|j: int|
            search_start(scan(q, t, n).positions, scan(q, t, n).matched as int) <= j < n
                ==> #[trigger] t[j] != q[scan(q, t, n).matched as int],
    decreases n,
{
    if n > 0 {
        lemma_scan_leftmost(q, t, (n - 1) as nat);
        lemma_positions_len(q, t, (n - 1) as nat);
        let s = scan(q, t, (n - 1) as nat);
        let e = scan(q, t, n).positions;
        if s.matched < q.len() && t[n - 1] == q[s.matched as int] {
            assert(e == s.positions.push(n - 1));
            assert forall|k: int, j: int|
                #![trigger e[k], t[j]]
                0 <= k < e.len() && search_start(e, k) <= j < e[k] implies t[j] != q[k] by {
                if k > 0 {
                    assert(e[k - 1] == s.positions[k - 1]);
                }
                if k < s.positions.len() {
                    assert(e[k] == s.positions[k]);
                    assert(search_start(e, k) == search_start(s.positions, k));
                } else {
                    assert(search_start(e, k) == search_start(s.positions, s.matched as int));
                }
            }
        } else {
            assert(scan(q, t, n) == s);
        }
    }
}

/// The reported positions are the leftmost ones: each query character is
/// matched at its first occurrence after the previous match.
pub proof fn law_positions_leftmost(q: Seq<char>, t: Seq<char>)
    requires
        fuzzy_result(q, t) is Some,
    ensures
        is_leftmost(q, t, result_positions(fuzzy_result(q, t))),
{
    lemma_scan_leftmost(q, t, t.len());
}

/// An exact (case-insensitive) match scores above 100, and a proper prefix
/// match above 50.
pub proof fn law_exact_and_prefix_bonus(q: Seq<char>, t: Seq<char>)
    requires
        q.len() > 0,
        is_prefix(q, t),
    ensures
        fuzzy_result(q, t) is Some,
        q == t ==> result_score(fuzzy_result(q, t))->0 > 100,
        q != t ==> result_score(fuzzy_result(q, t))->0 > 50,
{
    let e = Seq::new(q.len(), |k: int| k);
    assert(forall|k: int| 0 <= k < q.len() ==> t[k] == t.subrange(0, q.len() as int)[k]);
    assert(is_embedding(q, t, e));
    law_match_iff_subsequence(q, t);
    lemma_full_scan(q, t);
    lemma_scan_matched_monotone(q, t, 1, t.len());
    assert(t[0] == t.subrange(0, q.len() as int)[0]);
    assert(scan(q, t, 0).matched == 0);
    assert(scan(q, t, 1).matched == 1);
}

/// Fuzzy match of character sequences already in lowercase. Where the
/// running `i32` score would overflow, no score is given (`None`).
pub fn fuzzy_match_chars(q: &Vec<char>, t: &Vec<char>) -> (r: Option<(i32, Vec<usize>)>)
    ensures
        fuzzy_fits(q@, t@) ==> match r {
            Some((score, pos)) => fuzzy_result(q@, t@) == Some((score as int, int_positions(pos@))),
            None => fuzzy_result(q@, t@) is None,
        },
        !fuzzy_fits(q@, t@) ==> r is None,
{
    if q.len() == 0 {
        let empty: Vec<usize> = Vec::new();
        assert(int_positions(empty@) =~= seq![]);
        return Some((0, empty));
    }
    let mut qi: usize = 0;
    let mut score: i64 = 0;
    let mut prev: Option<usize> = None;
    let mut run_bonus: i64 = 0;
    let mut positions: Vec<usize> = Vec::new();
    let mut i: usize = 0;
    while i < t.len()
        invariant
            q@.len() > 0,
            0 <= i <= t@.len(),
            score <= i32::MAX,
            ({
                let s = scan(q@, t@, i as nat);
                &&& qi == s.matched
                &&& score == s.score
                &&& run_bonus == s.run_bonus
                &&& int_positions(positions@) == s.positions
                &&& match prev {
                    Some(p) => s.prev == Some(p as int),
                    None => s.prev is None,
                }
            }),
        decreases t@.len() - i,
    {
        proof {
            lemma_scan_inv(q@, t@, i as nat);
            lemma_scan_inv(q@, t@, (i + 1) as nat);
        }
        let tc = t[i];
        if qi < q.len() && tc == q[qi] {
            positions.push(i);
            score += 1;
            match prev {
                Some(p) => {
                    if i == p + 1 {
                        run_bonus += 2;
                        score += run_bonus;
                    } else {
                        run_bonus = 0;
                    }
                },
                None => {},
            }
            let boundary = if i == 0 {
                true
            } else {
                !char_is_alphanumeric(t[i - 1])
            };
            if boundary {
                score += 3;
            }
            prev = Some(i);
            qi += 1;
            proof {
                assert(int_positions(positions@) =~= scan(q@, t@, i as nat).positions.push(
                    i as int,
                ));
            }
            if score > i32::MAX as i64 {
                proof {
                    lemma_scan_matched_monotone(q@, t@, (i + 1) as nat, t@.len());
                }
                return None;
            }
        }
        i += 1;
    }
    proof {
        lemma_scan_inv(q@, t@, t@.len());
    }
    if qi == q.len() {
        if chars_eq(q, t) {
            score += 100;
        } else if chars_starts_with(t, q) {
            score += 50;
        }
        if score > i32::MAX as i64 {
            return None;
        }
        Some((score as i32, positions))
    } else {
        None
    }
}

/// Fuzzy match of `query` against `target`, ignoring case (fzf-style):
/// `Some(score)` when every query character occurs in the target in order,
/// higher for better matches. Where the running score would overflow an
/// `i32`, which takes a very long query matched in a very long target,
/// `None`.
pub fn fuzzy_match(query: &str, target: &str) -> (r: Option<i32>)
    ensures
        fuzzy_fits(lowercase(query@), lowercase(target@)) ==> match r {
            Some(score) => result_score(fuzzy_result(lowercase(query@), lowercase(target@)))
                == Some(score as int),
            None => fuzzy_result(lowercase(query@), lowercase(target@)) is None,
        },
        !fuzzy_fits(lowercase(query@), lowercase(target@)) ==> r is None,
{
    let ql = to_lowercase(query);
    let tl = to_lowercase(target);
    let q = chars_of(ql.as_str());
    let t = chars_of(tl.as_str());
    match fuzzy_match_chars(&q, &t) {
        Some((score, _)) => Some(score),
        None => None,
    }
}

/// Like `fuzzy_match`, also returning the matched character positions in
/// the lowercased target, for highlighting.
pub fn fuzzy_match_positions(query: &str, target: &str) -> (r: Option<(i32, Vec<usize>)>)
    ensures
        fuzzy_fits(lowercase(query@), lowercase(target@)) ==> match r {
            Some((score, pos)) => fuzzy_result(lowercase(query@), lowercase(target@)) == Some(
                (score as int, int_positions(pos@)),
            ),
            None => fuzzy_result(lowercase(query@), lowercase(target@)) is None,
        },
        !fuzzy_fits(lowercase(query@), lowercase(target@)) ==> r is None,
{
    let ql = to_lowercase(query);
    let tl = to_lowercase(target);
    let q = chars_of(ql.as_str());
    let t = chars_of(tl.as_str());
    fuzzy_match_chars(&q, &t)
}

/// `fuzzy_match` gives the score part of `fuzzy_match_positions`.
pub proof fn law_score_agrees(q: Seq<char>, t: Seq<char>, s: i32, p: Seq<usize>)
    requires
        fuzzy_result(q, t) == Some((s as int, int_positions(p))),
    ensures
        result_score(fuzzy_result(q, t)) == Some(s as int),
{
}

} // verus!
