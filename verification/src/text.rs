//! String helpers shared by the library, and the std text functions whose
//! results the library names.

use vstd::prelude::*;
use vstd::string::{StrSliceExecFns, StringExecFns};

verus! {

/// Equality of two string slices, by their characters.
pub fn str_eq(a: &str, b: &str) -> (r: bool)
    ensures
        r == (a@ == b@),
{
    let x = a.to_owned();
    let y = b.to_owned();
    x == y
}

/// What `str::to_lowercase` returns for a string with these characters
/// (Unicode lowercase mapping).
pub uninterp spec fn lowercase(s: Seq<char>) -> Seq<char>;

/// Lowercase copy of a string slice.
///
/// Calls `str::to_lowercase`; its result is named `lowercase(s@)`.
#[verifier::external_body]
pub(crate) fn to_lowercase(s: &str) -> (r: String)
    ensures
        r@ == lowercase(s@),
{
    s.to_lowercase()
}

/// What `char::is_alphanumeric` answers for `c` (Unicode alphabetic or
/// numeric).
pub uninterp spec fn is_alphanumeric(c: char) -> bool;

/// Whether `c` is alphanumeric.
///
/// Calls `char::is_alphanumeric`; its result is named `is_alphanumeric(c)`.
#[verifier::external_body]
pub(crate) fn char_is_alphanumeric(c: char) -> (r: bool)
    ensures
        r == is_alphanumeric(c),
{
    c.is_alphanumeric()
}

/// The characters with the Unicode White_Space property, which
/// `char::is_whitespace` answers for: tab to carriage return, space, next
/// line, no-break space, ogham space mark, the spaces from en quad to hair
/// space, line and paragraph separators, narrow no-break space, medium
/// mathematical space and ideographic space.
pub open spec fn is_whitespace(c: char) -> bool {
    ||| '\u{9}' <= c <= '\u{d}'
    ||| c == ' '
    ||| c == '\u{85}'
    ||| c == '\u{a0}'
    ||| c == '\u{1680}'
    ||| '\u{2000}' <= c <= '\u{200a}'
    ||| c == '\u{2028}'
    ||| c == '\u{2029}'
    ||| c == '\u{202f}'
    ||| c == '\u{205f}'
    ||| c == '\u{3000}'
}

/// Whether `c` is whitespace, as `char::is_whitespace` answers.
pub(crate) fn char_is_whitespace(c: char) -> (r: bool)
    ensures
        r == is_whitespace(c),
{
    ('\u{9}' <= c && c <= '\u{d}') || c == ' ' || c == '\u{85}' || c == '\u{a0}' || c == '\u{1680}'
        || ('\u{2000}' <= c && c <= '\u{200a}') || c == '\u{2028}' || c == '\u{2029}' || c
        == '\u{202f}' || c == '\u{205f}' || c == '\u{3000}'
}

/// Whitespace-separated words read so far, and the word being read.
pub struct WordsAcc {
    pub done: Seq<Seq<char>>,
    pub cur: Option<Seq<char>>,
}

/// The words with the word being read added.
pub open spec fn close_word(a: WordsAcc) -> Seq<Seq<char>> {
    match a.cur {
        Some(w) => a.done.push(w),
        None => a.done,
    }
}

/// Reading the first `n` characters of `s` into words.
pub open spec fn words_acc(s: Seq<char>, n: nat) -> WordsAcc
    decreases n,
{
    if n == 0 {
        WordsAcc { done: seq![], cur: None }
    } else {
        let a = words_acc(s, (n - 1) as nat);
        let c = s[n - 1];
        if is_whitespace(c) {
            WordsAcc { done: close_word(a), cur: None }
        } else {
            let w = match a.cur {
                Some(w) => w,
                None => seq![],
            };
            WordsAcc { done: a.done, cur: Some(w.push(c)) }
        }
    }
}

/// The maximal runs of non-whitespace characters of `s`, in order (what
/// `str::split_whitespace` yields).
pub open spec fn words(s: Seq<char>) -> Seq<Seq<char>> {
    close_word(words_acc(s, s.len()))
}

/// Characters of each string.
pub open spec fn views_of(v: Seq<String>) -> Seq<Seq<char>> {
    v.map_values(|s: String| s@)
}

/// The whitespace-separated words of `s`.
pub fn split_words(s: &str) -> (r: Vec<String>)
    ensures
        views_of(r@) == words(s@),
{
    let cs = chars_of(s);
    let mut out: Vec<String> = Vec::new();
    let mut start: Option<usize> = None;
    let mut i: usize = 0;
    while i < cs.len()
        invariant
            cs@ == s@,
            0 <= i <= cs@.len(),
            ({
                let a = words_acc(s@, i as nat);
                &&& views_of(out@) == a.done
                &&& match start {
                    Some(b) => b < i && a.cur == Some(s@.subrange(b as int, i as int)),
                    None => a.cur is None,
                }
            }),
        decreases cs@.len() - i,
    {
        let c = cs[i];
        if char_is_whitespace(c) {
            if let Some(b) = start {
                let w = s.substring_char(b, i).to_owned();
                let ghost before = out@;
                out.push(w);
                assert(views_of(out@) =~= views_of(before).push(w@));
            }
            start = None;
        } else {
            proof {
                match start {
                    Some(b) => {
                        assert(s@.subrange(b as int, i + 1) =~= s@.subrange(b as int, i as int).push(c));
                    },
                    None => {
                        assert(s@.subrange(i as int, i + 1) =~= seq![].push(c));
                    },
                }
            }
            if start.is_none() {
                start = Some(i);
            }
        }
        i += 1;
    }
    if let Some(b) = start {
        let w = s.substring_char(b, cs.len()).to_owned();
        let ghost before = out@;
        out.push(w);
        assert(views_of(out@) =~= views_of(before).push(w@));
    }
    out
}

/// Lines read so far, and where the current line starts.
pub struct LinesAcc {
    pub done: Seq<Seq<char>>,
    pub start: int,
}

/// A line without the carriage return of a "\r\n" ending.
pub open spec fn strip_cr(line: Seq<char>) -> Seq<char> {
    if line.len() > 0 && line.last() == '\r' {
        line.drop_last()
    } else {
        line
    }
}

/// Reading the first `n` characters of `s` into lines.
pub open spec fn lines_acc(s: Seq<char>, n: nat) -> LinesAcc
    decreases n,
{
    if n == 0 {
        LinesAcc { done: seq![], start: 0 }
    } else {
        let a = lines_acc(s, (n - 1) as nat);
        if s[n - 1] == '\n' {
            LinesAcc { done: a.done.push(strip_cr(s.subrange(a.start, n - 1))), start: n as int }
        } else {
            a
        }
    }
}

/// The lines of `s` (what `str::lines` yields): split at "\n" or "\r\n",
/// without the endings; a final line ending adds no empty line.
pub open spec fn lines(s: Seq<char>) -> Seq<Seq<char>> {
    let a = lines_acc(s, s.len());
    if a.start < s.len() {
        a.done.push(s.subrange(a.start, s.len() as int))
    } else {
        a.done
    }
}

/// The lines of `s`.
pub fn split_lines(s: &str) -> (r: Vec<String>)
    ensures
        views_of(r@) == lines(s@),
{
    let cs = chars_of(s);
    let mut out: Vec<String> = Vec::new();
    let mut start: usize = 0;
    let mut i: usize = 0;
    while i < cs.len()
        invariant
            cs@ == s@,
            0 <= start <= i <= cs@.len(),
            ({
                let a = lines_acc(s@, i as nat);
                &&& views_of(out@) == a.done
                &&& start == a.start
            }),
        decreases cs@.len() - i,
    {
        if cs[i] == '\n' {
            let end = if i > start && cs[i - 1] == '\r' {
                i - 1
            } else {
                i
            };
            let line = s.substring_char(start, end).to_owned();
            proof {
                let piece = s@.subrange(start as int, i as int);
                if i > start && cs@[i - 1] == '\r' {
                    assert(piece.drop_last() =~= s@.subrange(start as int, end as int));
                } else {
                    assert(piece =~= s@.subrange(start as int, end as int));
                }
            }
            let ghost before = out@;
            out.push(line);
            assert(views_of(out@) =~= views_of(before).push(line@));
            start = i + 1;
        }
        i += 1;
    }
    if start < cs.len() {
        let line = s.substring_char(start, cs.len()).to_owned();
        let ghost before = out@;
        out.push(line);
        assert(views_of(out@) =~= views_of(before).push(line@));
    }
    out
}

/// `s` without leading copies of `c` (what `trim_start_matches(c)` gives).
pub open spec fn strip_leading(s: Seq<char>, c: char) -> Seq<char>
    decreases s.len(),
{
    if s.len() > 0 && s[0] == c {
        strip_leading(s.drop_first(), c)
    } else {
        s
    }
}

/// `s` without trailing copies of `c` (what `trim_end_matches(c)` gives).
pub open spec fn strip_trailing(s: Seq<char>, c: char) -> Seq<char>
    decreases s.len(),
{
    if s.len() > 0 && s.last() == c {
        strip_trailing(s.drop_last(), c)
    } else {
        s
    }
}

/// `s` without leading and trailing whitespace (what `trim` gives).
pub open spec fn trim(s: Seq<char>) -> Seq<char>
    decreases s.len(),
{
    if s.len() > 0 && is_whitespace(s[0]) {
        trim(s.drop_first())
    } else if s.len() > 0 && is_whitespace(s.last()) {
        trim(s.drop_last())
    } else {
        s
    }
}

/// Bounds of `s` once leading copies of `c` are removed from position `from`.
fn skip_leading(s: &Vec<char>, from: usize, c: char) -> (r: usize)
    requires
        from <= s@.len(),
    ensures
        from <= r <= s@.len(),
        strip_leading(s@.subrange(from as int, s@.len() as int), c) == s@.subrange(
            r as int,
            s@.len() as int,
        ),
{
    let mut i = from;
    while i < s.len() && s[i] == c
        invariant
            from <= i <= s@.len(),
            strip_leading(s@.subrange(from as int, s@.len() as int), c) == strip_leading(
                s@.subrange(i as int, s@.len() as int),
                c,
            ),
        decreases s@.len() - i,
    {
        assert(s@.subrange(i as int, s@.len() as int).drop_first() =~= s@.subrange(
            i + 1,
            s@.len() as int,
        ));
        i += 1;
    }
    i
}

/// `s` without leading copies of `c` and trailing copies of `d`.
pub fn strip_matches(s: &str, c: char, d: char) -> (r: String)
    ensures
        r@ == strip_trailing(strip_leading(s@, c), d),
{
    let cs = chars_of(s);
    let start = skip_leading(&cs, 0, c);
    assert(cs@.subrange(0, cs@.len() as int) =~= cs@);
    let mut end = cs.len();
    while end > start && cs[end - 1] == d
        invariant
            start <= end <= cs@.len(),
            strip_trailing(cs@.subrange(start as int, cs@.len() as int), d) == strip_trailing(
                cs@.subrange(start as int, end as int),
                d,
            ),
        decreases end,
    {
        assert(cs@.subrange(start as int, end as int).drop_last() =~= cs@.subrange(
            start as int,
            end - 1,
        ));
        end -= 1;
    }
    assert(cs@ == s@);
    s.substring_char(start, end).to_owned()
}

/// `s` without trailing copies of `d`.
pub fn strip_end(s: &str, d: char) -> (r: String)
    ensures
        r@ == strip_trailing(s@, d),
{
    let cs = chars_of(s);
    let mut end = cs.len();
    assert(cs@.subrange(0, cs@.len() as int) =~= cs@);
    while end > 0 && cs[end - 1] == d
        invariant
            cs@ == s@,
            end <= cs@.len(),
            strip_trailing(s@, d) == strip_trailing(cs@.subrange(0, end as int), d),
        decreases end,
    {
        assert(cs@.subrange(0, end as int).drop_last() =~= cs@.subrange(0, end - 1));
        end -= 1;
    }
    s.substring_char(0, end).to_owned()
}

/// `s` without leading and trailing whitespace.
pub fn trim_str(s: &str) -> (r: String)
    ensures
        r@ == trim(s@),
{
    let cs = chars_of(s);
    let mut start: usize = 0;
    let mut end = cs.len();
    assert(cs@.subrange(0, cs@.len() as int) =~= cs@);
    while start < end && (char_is_whitespace(cs[start]) || char_is_whitespace(cs[end - 1]))
        invariant
            cs@ == s@,
            start <= end <= cs@.len(),
            trim(s@) == trim(cs@.subrange(start as int, end as int)),
        decreases end - start,
    {
        let ghost piece = cs@.subrange(start as int, end as int);
        if char_is_whitespace(cs[start]) {
            assert(piece.drop_first() =~= cs@.subrange(start + 1, end as int));
            start += 1;
        } else {
            assert(piece.drop_last() =~= cs@.subrange(start as int, end - 1));
            end -= 1;
        }
    }
    s.substring_char(start, end).to_owned()
}

/// ASCII decimal digit.
pub open spec fn is_ascii_digit(c: char) -> bool {
    '0' <= c <= '9'
}

pub fn char_is_ascii_digit(c: char) -> (r: bool)
    ensures
        r == is_ascii_digit(c),
{
    '0' <= c && c <= '9'
}

/// Whether `p` is a prefix of `s`.
pub open spec fn is_prefix(p: Seq<char>, s: Seq<char>) -> bool {
    p.len() <= s.len() && s.subrange(0, p.len() as int) == p
}

/// Whether `p` occurs in `s` as a contiguous piece.
pub open spec fn contains_seq(s: Seq<char>, p: Seq<char>) -> bool {
    exists|i: int| 0 <= i <= s.len() - p.len() && #[trigger] s.subrange(i, i + p.len()) == p
}

/// Equality of two character vectors.
pub fn chars_eq(a: &Vec<char>, b: &Vec<char>) -> (r: bool)
    ensures
        r == (a@ == b@),
{
    if a.len() != b.len() {
        return false;
    }
    let mut i: usize = 0;
    while i < a.len()
        invariant
            a@.len() == b@.len(),
            0 <= i <= a@.len(),
            forall|k: int| 0 <= k < i ==> a@[k] == b@[k],
        decreases a@.len() - i,
    {
        if a[i] != b[i] {
            return false;
        }
        i += 1;
    }
    assert(a@ =~= b@);
    true
}

/// Whether the characters `p` start the characters `s` at position `at`.
pub fn chars_match_at(s: &Vec<char>, p: &Vec<char>, at: usize) -> (r: bool)
    requires
        at <= s@.len(),
    ensures
        r == (p@.len() <= s@.len() - at && s@.subrange(at as int, at + p@.len()) == p@),
{
    if p.len() > s.len() - at {
        return false;
    }
    let mut i: usize = 0;
    while i < p.len()
        invariant
            at <= s@.len(),
            p@.len() <= s@.len() - at,
            0 <= i <= p@.len(),
            forall|k: int| 0 <= k < i ==> s@[at + k] == p@[k],
        decreases p@.len() - i,
    {
        assert(at + i < s@.len());
        assert(s@.len() == s.len());
        if s[at + i] != p[i] {
            proof {
                assert(s@.subrange(at as int, at + p@.len())[i as int] != p@[i as int]);
            }
            return false;
        }
        i += 1;
    }
    assert(s@.subrange(at as int, at + p@.len()) =~= p@);
    true
}

/// Whether `p` is a prefix of `s`.
pub fn chars_starts_with(s: &Vec<char>, p: &Vec<char>) -> (r: bool)
    ensures
        r == is_prefix(p@, s@),
{
    chars_match_at(s, p, 0)
}

/// Whether `p` occurs in `s`.
pub fn chars_contain(s: &Vec<char>, p: &Vec<char>) -> (r: bool)
    ensures
        r == contains_seq(s@, p@),
{
    if p.len() > s.len() {
        return false;
    }
    let last = s.len() - p.len();
    let mut i: usize = 0;
    loop
        invariant
            p@.len() <= s@.len(),
            last == s@.len() - p@.len(),
            0 <= i <= last,
            forall|k: int| 0 <= k < i ==> #[trigger] s@.subrange(k, k + p@.len()) != p@,
        decreases last - i,
    {
        if chars_match_at(s, p, i) {
            return true;
        }
        if i == last {
            return false;
        }
        i += 1;
    }
}

/// The characters of a string slice.
pub fn chars_of(s: &str) -> (r: Vec<char>)
    ensures
        r@ == s@,
{
    let mut r: Vec<char> = Vec::new();
    for c in it: s.chars()
        invariant
            it.seq() == s@,
            r@ == it.seq().take(it.index() as int),
    {
        r.push(c);
    }
    r
}

/// The decimal digit character of `d` (for `d < 10`).
pub open spec fn digit_char(d: nat) -> char {
    seq!['0', '1', '2', '3', '4', '5', '6', '7', '8', '9'][d as int]
}

/// Decimal representation of `n`, without leading zeros.
pub open spec fn decimal(n: nat) -> Seq<char>
    decreases n,
{
    if n < 10 {
        seq![digit_char(n)]
    } else {
        decimal(n / 10).push(digit_char(n % 10))
    }
}

fn digit_str(d: usize) -> (r: &'static str)
    requires
        d < 10,
    ensures
        r@ == seq![digit_char(d as nat)],
{
    let digits = "0123456789";
    proof {
        reveal_strlit("0123456789");
    }
    let r = digits.substring_char(d, d + 1);
    assert(r@ =~= seq![digit_char(d as nat)]);
    r
}

/// Decimal rendering of a count, as `to_string` gives it.
pub fn usize_to_string(n: usize) -> (r: String)
    ensures
        r@ == decimal(n as nat),
    decreases n,
{
    if n < 10 {
        digit_str(n).to_owned()
    } else {
        let mut s = usize_to_string(n / 10);
        s.append(digit_str(n % 10));
        s
    }
}

/// Decimal rendering of a 64-bit count, as `to_string` gives it.
pub fn u64_to_string(n: u64) -> (r: String)
    ensures
        r@ == decimal(n as nat),
    decreases n,
{
    if n < 10 {
        digit_str(n as usize).to_owned()
    } else {
        let mut s = u64_to_string(n / 10);
        s.append(digit_str((n % 10) as usize));
        s
    }
}

} // verus!
