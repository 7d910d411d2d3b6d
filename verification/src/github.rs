//! Where a tool's README lives: GitHub repository paths from the URLs
//! that registries give, the raw README address, and the answers of the
//! GitHub API that these come from.

use vstd::prelude::*;
use crate::json::{as_text, get, json_get, json_str, parse_json, parsed_json, Json};
use crate::text::{chars_contain, chars_match_at, chars_of, contains_seq, is_prefix, lowercase, str_eq, to_lowercase};

verus! {

/// Whether `p` ends `s`.
pub open spec fn is_suffix(p: Seq<char>, s: Seq<char>) -> bool {
    p.len() <= s.len() && s.subrange(s.len() - p.len(), s.len() as int) == p
}

/// `s` without the prefix `p`, if it starts with it (`str::strip_prefix`).
pub open spec fn strip_prefix(s: Seq<char>, p: Seq<char>) -> Option<Seq<char>> {
    if is_prefix(p, s) {
        Some(s.skip(p.len() as int))
    } else {
        None
    }
}

/// `s` without leading copies of `p` (`trim_start_matches` with a
/// non-empty string).
pub open spec fn strip_prefix_all(s: Seq<char>, p: Seq<char>) -> Seq<char>
    decreases s.len(),
{
    if p.len() > 0 && is_prefix(p, s) {
        strip_prefix_all(s.skip(p.len() as int), p)
    } else {
        s
    }
}

/// `s` without trailing copies of `p` (`trim_end_matches` with a
/// non-empty string).
pub open spec fn strip_suffix_all(s: Seq<char>, p: Seq<char>) -> Seq<char>
    decreases s.len(),
{
    if p.len() > 0 && is_suffix(p, s) {
        strip_suffix_all(s.take(s.len() - p.len()), p)
    } else {
        s
    }
}

/// `s` with each occurrence of `p`, from left to right and not
/// overlapping, replaced by `r` (`str::replace` with a non-empty `p`).
pub open spec fn replace_all(s: Seq<char>, p: Seq<char>, r: Seq<char>) -> Seq<char>
    decreases s.len(),
{
    if p.len() == 0 || s.len() == 0 {
        s
    } else if is_prefix(p, s) {
        r + replace_all(s.skip(p.len() as int), p, r)
    } else {
        seq![s[0]] + replace_all(s.drop_first(), p, r)
    }
}

/// How often `c` occurs in `s`.
pub open spec fn count_char(s: Seq<char>, c: char) -> nat
    decreases s.len(),
{
    if s.len() == 0 {
        0
    } else {
        count_char(s.drop_last(), c) + if s.last() == c {
            1nat
        } else {
            0nat
        }
    }
}

/// `s` without the prefix `p` (see `strip_prefix`).
pub fn strip_prefix_str(s: &str, p: &str) -> (r: Option<String>)
    ensures
        match r {
            Some(t) => strip_prefix(s@, p@) == Some(t@),
            None => strip_prefix(s@, p@) is None,
        },
{
    let cs = chars_of(s);
    let ps = chars_of(p);
    if chars_match_at(&cs, &ps, 0) {
        assert(cs@.subrange(0, ps@.len() as int) == ps@);
        let t = s.substring_char(ps.len(), cs.len()).to_owned();
        assert(t@ =~= s@.skip(p@.len() as int));
        Some(t)
    } else {
        None
    }
}

/// `s` without leading copies of `p` (see `strip_prefix_all`).
pub fn strip_prefix_all_str(s: &str, p: &str) -> (r: String)
    ensures
        r@ == strip_prefix_all(s@, p@),
{
    let cs = chars_of(s);
    let ps = chars_of(p);
    if ps.len() == 0 {
        return s.to_owned();
    }
    let mut i: usize = 0;
    assert(s@.skip(0) =~= s@);
    while i < cs.len() && chars_match_at(&cs, &ps, i)
        invariant
            i <= cs@.len(),
            cs@ == s@,
            ps@ == p@,
            ps@.len() > 0,
            strip_prefix_all(s@, p@) == strip_prefix_all(s@.skip(i as int), p@),
        decreases cs@.len() - i,
    {
        proof {
            let t = s@.skip(i as int);
            assert(t.subrange(0, p@.len() as int) =~= s@.subrange(i as int, i + p@.len()));
            assert(t.skip(p@.len() as int) =~= s@.skip(i + p@.len()));
        }
        i += ps.len();
    }
    proof {
        let t = s@.skip(i as int);
        if i < cs@.len() {
            assert(t.len() >= 1);
            if is_prefix(p@, t) {
                assert(t.subrange(0, p@.len() as int) =~= s@.subrange(i as int, i + p@.len()));
            }
        } else {
            assert(t.len() == 0);
        }
    }
    let r = s.substring_char(i, cs.len()).to_owned();
    assert(r@ =~= s@.skip(i as int));
    r
}

/// `s` without trailing copies of `p` (see `strip_suffix_all`).
pub fn strip_suffix_all_str(s: &str, p: &str) -> (r: String)
    ensures
        r@ == strip_suffix_all(s@, p@),
{
    let cs = chars_of(s);
    let ps = chars_of(p);
    if ps.len() == 0 {
        return s.to_owned();
    }
    let mut end = cs.len();
    assert(s@.take(end as int) =~= s@);
    while end >= ps.len() && chars_match_at(&cs, &ps, end - ps.len())
        invariant
            end <= cs@.len(),
            cs@ == s@,
            ps@ == p@,
            ps@.len() > 0,
            strip_suffix_all(s@, p@) == strip_suffix_all(s@.take(end as int), p@),
        decreases end,
    {
        proof {
            let t = s@.take(end as int);
            assert(t.subrange(t.len() - p@.len(), t.len() as int) =~= s@.subrange(
                end - p@.len(),
                end as int,
            ));
            assert(t.take(t.len() - p@.len()) =~= s@.take(end - p@.len()));
        }
        end -= ps.len();
    }
    proof {
        let t = s@.take(end as int);
        if end >= p@.len() && is_suffix(p@, t) {
            assert(t.subrange(t.len() - p@.len(), t.len() as int) =~= s@.subrange(
                end - p@.len(),
                end as int,
            ));
        }
    }
    let r = s.substring_char(0, end).to_owned();
    assert(r@ =~= s@.take(end as int));
    r
}

/// `s` with each occurrence of `p` replaced by `r` (see `replace_all`).
pub fn replace_str(s: &str, p: &str, r: &str) -> (out: String)
    ensures
        out@ == replace_all(s@, p@, r@),
{
    let cs = chars_of(s);
    let ps = chars_of(p);
    if ps.len() == 0 {
        return s.to_owned();
    }
    let mut out = String::new();
    let mut i: usize = 0;
    assert(s@.skip(0) =~= s@);
    while i < cs.len()
        invariant
            i <= cs@.len(),
            cs@ == s@,
            ps@ == p@,
            ps@.len() > 0,
            out@ + replace_all(s@.skip(i as int), p@, r@) == replace_all(s@, p@, r@),
        decreases cs@.len() - i,
    {
        let ghost t = s@.skip(i as int);
        if chars_match_at(&cs, &ps, i) {
            proof {
                assert(t.subrange(0, p@.len() as int) =~= s@.subrange(i as int, i + p@.len()));
                assert(t.skip(p@.len() as int) =~= s@.skip(i + p@.len()));
                assert(out@ + r@ + replace_all(s@.skip(i + p@.len()), p@, r@) =~= out@
                    + replace_all(t, p@, r@));
            }
            out.append(r);
            i += ps.len();
        } else {
            proof {
                if is_prefix(p@, t) {
                    assert(t.subrange(0, p@.len() as int) =~= s@.subrange(i as int, i + p@.len()));
                }
                assert(t.drop_first() =~= s@.skip(i + 1));
                assert(out@ + seq![cs@[i as int]] + replace_all(s@.skip(i + 1), p@, r@) =~= out@
                    + replace_all(t, p@, r@));
            }
            let piece = s.substring_char(i, i + 1);
            assert(piece@ =~= seq![cs@[i as int]]);
            out.append(piece);
            i += 1;
        }
    }
    assert(s@.skip(cs@.len() as int) =~= Seq::<char>::empty());
    assert(out@ + Seq::<char>::empty() =~= out@);
    out
}

/// How often `c` occurs in `s`.
pub fn count_char_in(s: &str, c: char) -> (r: usize)
    ensures
        r == count_char(s@, c),
{
    let cs = chars_of(s);
    let mut n: usize = 0;
    let mut i: usize = 0;
    while i < cs.len()
        invariant
            i <= cs@.len(),
            cs@ == s@,
            n == count_char(s@.take(i as int), c),
            n <= i,
        decreases cs@.len() - i,
    {
        assert(s@.take(i + 1).drop_last() =~= s@.take(i as int));
        if cs[i] == c {
            n += 1;
        }
        i += 1;
    }
    assert(s@.take(cs@.len() as int) =~= s@);
    n
}

/// The "owner/repo" part of a GitHub URL: without the
/// "https://github.com/" (or "http://github.com/") prefix, trailing
/// slashes and trailing ".git"s. Other URLs keep all but those endings.
pub open spec fn spec_repo_path(url: Seq<char>) -> Seq<char> {
    let rest = match strip_prefix(url, "https://github.com/"@) {
        Some(t) => t,
        None => match strip_prefix(url, "http://github.com/"@) {
            Some(t) => t,
            None => url,
        },
    };
    strip_suffix_all(strip_suffix_all(rest, "/"@), ".git"@)
}

/// The repository path of a GitHub URL (see `spec_repo_path`).
pub fn github_repo_path(repo_url: &str) -> (r: String)
    ensures
        r@ == spec_repo_path(repo_url@),
{
    let rest = match strip_prefix_str(repo_url, "https://github.com/") {
        Some(t) => t,
        None => match strip_prefix_str(repo_url, "http://github.com/") {
            Some(t) => t,
            None => repo_url.to_owned(),
        },
    };
    let no_slash = strip_suffix_all_str(rest.as_str(), "/");
    strip_suffix_all_str(no_slash.as_str(), ".git")
}

/// The raw address of a README: "https://raw.githubusercontent.com/<repo>/<branch>/<file>".
pub fn raw_readme_url(repo_path: &str, branch: &str, readme_name: &str) -> (r: String)
    ensures
        r@ == "https://raw.githubusercontent.com/"@ + repo_path@ + "/"@ + branch@ + "/"@
            + readme_name@,
{
    let mut s = String::from_str("https://raw.githubusercontent.com/");
    s.append(repo_path);
    s.append("/");
    s.append(branch);
    s.append("/");
    s.append(readme_name);
    s
}

/// The address to try when a README is not at `url`: the same with
/// "README.md" written "readme.md".
pub fn lowercase_readme_url(url: &str) -> (r: String)
    ensures
        r@ == replace_all(url@, "README.md"@, "readme.md"@),
{
    replace_str(url, "README.md", "readme.md")
}

/// Whether a lowercased file name is a README name.
pub open spec fn is_readme_name(lower: Seq<char>) -> bool {
    lower == "readme.md"@ || lower == "readme.adoc"@ || lower == "readme.rst"@ || lower
        == "readme.txt"@ || lower == "readme"@
}

/// The first file of a directory listing whose name, lowercased, is a
/// README name.
pub open spec fn first_readme(files: Seq<Json>) -> Option<Seq<char>>
    decreases files.len(),
{
    if files.len() == 0 {
        None
    } else {
        match json_str(json_get(Some(files[0]), "name"@)) {
            Some(n) => if is_readme_name(lowercase(n)) {
                Some(n)
            } else {
                first_readme(files.drop_first())
            },
            None => first_readme(files.drop_first()),
        }
    }
}

/// The README file named in GitHub's listing of a repository's contents
/// (a JSON array of files), if any.
pub fn readme_filename_from(body: &[u8]) -> (r: Option<String>)
    ensures
        match r {
            Some(n) => (parsed_json(body@) matches Some(Json::Array(files)) && first_readme(files@)
                == Some(n@)),
            None => !(parsed_json(body@) matches Some(Json::Array(files)) && first_readme(files@)
                is Some),
        },
{
    let json = parse_json(body);
    match &json {
        Some(Json::Array(files)) => {
            let mut i: usize = 0;
            assert(files@.skip(0) =~= files@);
            assert(parsed_json(body@) == Some(Json::Array(*files)));
            while i < files.len()
                invariant
                    i <= files@.len(),
                    parsed_json(body@) == Some(Json::Array(*files)),
                    first_readme(files@) == first_readme(files@.skip(i as int)),
                decreases files@.len() - i,
            {
                proof {
                    assert(files@.skip(i as int)[0] == files@[i as int]);
                    assert(files@.skip(i as int).drop_first() =~= files@.skip(i + 1));
                }
                match as_text(get(Some(&files[i]), "name")) {
                    Some(name) => {
                        let lower = to_lowercase(name.as_str());
                        let l = lower.as_str();
                        if str_eq(l, "readme.md") || str_eq(l, "readme.adoc") || str_eq(l, "readme.rst")
                            || str_eq(l, "readme.txt") || str_eq(l, "readme") {
                            assert(json_str(json_get(Some(files@[i as int]), "name"@)) == Some(
                                name@,
                            ));
                            assert(is_readme_name(lowercase(name@)));
                            let ghost t = files@.skip(i as int);
                            assert(t.len() > 0 && t[0] == files@[i as int]);
                            assert(first_readme(t) == Some(name@));
                            assert(first_readme(files@) == Some(name@));
                            return Some(name.clone());
                        }
                    },
                    None => {},
                }
                i += 1;
            }
            None
        },
        _ => None,
    }
}

/// A string member of the top-level object of a JSON answer.
pub fn top_level_text(body: &[u8], key: &str) -> (r: Option<String>)
    ensures
        match r {
            Some(v) => json_str(json_get(parsed_json(body@), key@)) == Some(v@),
            None => json_str(json_get(parsed_json(body@), key@)) is None,
        },
{
    let json = parse_json(body);
    match as_text(get(json.as_ref(), key)) {
        Some(v) => Some(v.clone()),
        None => None,
    }
}

/// The repository path in the location that github.com redirects a moved
/// repository to: the path after "https://github.com/" without trailing
/// slashes, when it has exactly one '/' (owner/repo).
pub open spec fn spec_redirect_path(location: Seq<char>) -> Option<Seq<char>> {
    match strip_prefix(location, "https://github.com/"@) {
        Some(p) => {
            let clean = strip_suffix_all(p, "/"@);
            if count_char(clean, '/') == 1 {
                Some(clean)
            } else {
                None
            }
        },
        None => None,
    }
}

/// The repository path of a redirect (see `spec_redirect_path`).
pub fn redirect_repo_path(location: &str) -> (r: Option<String>)
    ensures
        match r {
            Some(p) => spec_redirect_path(location@) == Some(p@),
            None => spec_redirect_path(location@) is None,
        },
{
    match strip_prefix_str(location, "https://github.com/") {
        Some(p) => {
            let clean = strip_suffix_all_str(p.as_str(), "/");
            if count_char_in(clean.as_str(), '/') == 1 {
                Some(clean)
            } else {
                None
            }
        },
        None => None,
    }
}

/// A GitHub repository URL from crates.io's answer about a crate: its
/// `crate.repository`, when that names github.com.
pub open spec fn spec_crates_io_repo(j: Option<Json>) -> Option<Seq<char>> {
    match json_str(json_get(json_get(j, "crate"@), "repository"@)) {
        Some(r) => if contains_seq(r, "github.com"@) {
            Some(r)
        } else {
            None
        },
        None => None,
    }
}

/// The GitHub repository of a crate (see `spec_crates_io_repo`).
pub fn crates_io_repo_url_from(body: &[u8]) -> (r: Option<String>)
    ensures
        match r {
            Some(u) => spec_crates_io_repo(parsed_json(body@)) == Some(u@),
            None => spec_crates_io_repo(parsed_json(body@)) is None,
        },
{
    let json = parse_json(body);
    match as_text(get(get(json.as_ref(), "crate"), "repository")) {
        Some(r) => {
            if chars_contain(&chars_of(r.as_str()), &chars_of("github.com")) {
                Some(r.clone())
            } else {
                None
            }
        },
        None => None,
    }
}

/// An npm repository URL as a web address: without leading "git+" and
/// "git://", every ".git" removed, and "https://" put in front when it is
/// not there.
pub open spec fn spec_npm_web_url(u: Seq<char>) -> Seq<char> {
    let r = replace_all(strip_prefix_all(strip_prefix_all(u, "git+"@), "git://"@), ".git"@, seq![]);
    if is_prefix("https://"@, r) {
        r
    } else {
        "https://"@ + r
    }
}

/// A GitHub repository URL from npm's answer about a package: its
/// `repository.url`, when that names github.com, as a web address.
pub open spec fn spec_npm_repo(j: Option<Json>) -> Option<Seq<char>> {
    match json_str(json_get(json_get(j, "repository"@), "url"@)) {
        Some(u) => if contains_seq(u, "github.com"@) {
            Some(spec_npm_web_url(u))
        } else {
            None
        },
        None => None,
    }
}

/// The GitHub repository of an npm package (see `spec_npm_repo`).
pub fn npm_repo_url_from(body: &[u8]) -> (r: Option<String>)
    ensures
        match r {
            Some(u) => spec_npm_repo(parsed_json(body@)) == Some(u@),
            None => spec_npm_repo(parsed_json(body@)) is None,
        },
{
    let json = parse_json(body);
    match as_text(get(get(json.as_ref(), "repository"), "url")) {
        Some(u) => {
            if !chars_contain(&chars_of(u.as_str()), &chars_of("github.com")) {
                return None;
            }
            let a = strip_prefix_all_str(u.as_str(), "git+");
            let b = strip_prefix_all_str(a.as_str(), "git://");
            let c = replace_str(b.as_str(), ".git", "");
            proof {
                reveal_strlit("");
                assert(""@ =~= Seq::<char>::empty());
            }
            assert(c@ == replace_all(strip_prefix_all(strip_prefix_all(u@, "git+"@), "git://"@), ".git"@, seq![]));
            if chars_match_at(&chars_of(c.as_str()), &chars_of("https://"), 0) {
                Some(c)
            } else {
                let mut s = String::from_str("https://");
                s.append(c.as_str());
                Some(s)
            }
        },
        None => None,
    }
}

/// Where the README of a Discover result is looked for, given its URL.
#[derive(Debug, Clone, PartialEq, Eq)]
pub enum ReadmeSource {
    /// The URL is a GitHub repository.
    GitHub(String),
    /// Ask crates.io for the repository.
    CratesIo,
    /// Ask the npm registry for the repository.
    Npm,
    /// No README can be fetched; the page opens in the browser.
    Browser,
}

/// Where the README of a result with this URL is looked for: the URL
/// itself when it names github.com, else crates.io or npm when it names
/// their sites, else the browser.
pub open spec fn spec_readme_source(url: Seq<char>) -> ReadmeSourceView {
    if contains_seq(url, "github.com"@) {
        ReadmeSourceView::GitHub(url)
    } else if contains_seq(url, "crates.io"@) {
        ReadmeSourceView::CratesIo
    } else if contains_seq(url, "npmjs.com"@) {
        ReadmeSourceView::Npm
    } else {
        ReadmeSourceView::Browser
    }
}

/// A README source as values.
pub enum ReadmeSourceView {
    GitHub(Seq<char>),
    CratesIo,
    Npm,
    Browser,
}

/// A README source as values.
pub open spec fn readme_source_view(s: ReadmeSource) -> ReadmeSourceView {
    match s {
        ReadmeSource::GitHub(u) => ReadmeSourceView::GitHub(u@),
        ReadmeSource::CratesIo => ReadmeSourceView::CratesIo,
        ReadmeSource::Npm => ReadmeSourceView::Npm,
        ReadmeSource::Browser => ReadmeSourceView::Browser,
    }
}

/// Where the README of a result with this URL is looked for (see
/// `spec_readme_source`).
pub fn readme_source(url: &str) -> (r: ReadmeSource)
    ensures
        readme_source_view(r) == spec_readme_source(url@),
{
    let u = chars_of(url);
    if chars_contain(&u, &chars_of("github.com")) {
        ReadmeSource::GitHub(url.to_owned())
    } else if chars_contain(&u, &chars_of("crates.io")) {
        ReadmeSource::CratesIo
    } else if chars_contain(&u, &chars_of("npmjs.com")) {
        ReadmeSource::Npm
    } else {
        ReadmeSource::Browser
    }
}

/// Whether a repository URL that a registry gave names github.com, so
/// that its README can be fetched.
pub fn is_github_url(url: &str) -> (r: bool)
    ensures
        r == contains_seq(url@, "github.com"@),
{
    chars_contain(&chars_of(url), &chars_of("github.com"))
}

} // verus!

