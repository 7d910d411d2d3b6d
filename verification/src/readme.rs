//! README popup: scrolling, the link picker, and the links found in the
//! markdown.

use vstd::prelude::*;
use vstd::string::StrSliceExecFns;
use crate::mouse::{area_ok, Area};
use crate::text::{decimal, str_eq, usize_to_string};

verus! {

/// README popup with markdown content.
#[derive(Debug, Clone)]
pub struct ReadmePopup {
    pub tool_name: String,
    pub content: String,
    pub scroll_offset: u16,
    pub loading: bool,
    /// (text, url) pairs.
    pub links: Vec<(String, String)>,
    /// Whether the link picker is shown.
    pub show_links: bool,
    /// Selected link in the picker.
    pub selected_link: usize,
}

impl ReadmePopup {
    /// Keep the scroll position within the README as drawn: `lines` lines
    /// of which `visible` show at once; nothing else changes.
    pub fn clamp_scroll(&mut self, lines: u16, visible: u16)
        ensures
            final(self).scroll_offset == if old(self).scroll_offset as int <= lines - visible {
                old(self).scroll_offset as int
            } else if lines > visible {
                lines - visible
            } else {
                0
            },
            final(self).tool_name@ == old(self).tool_name@,
            final(self).content@ == old(self).content@,
            final(self).loading == old(self).loading,
            final(self).links@ == old(self).links@,
            final(self).show_links == old(self).show_links,
            final(self).selected_link == old(self).selected_link,
    {
        let max_scroll = lines.saturating_sub(visible);
        if self.scroll_offset > max_scroll {
            self.scroll_offset = max_scroll;
        }
    }

    /// Scroll up by `amount` lines, stopping at the top.
    pub fn scroll_up(&mut self, amount: u16)
        ensures
            final(self).scroll_offset == if old(self).scroll_offset >= amount {
                old(self).scroll_offset - amount
            } else {
                0
            },
            final(self).links@ == old(self).links@,
            final(self).show_links == old(self).show_links,
            final(self).selected_link == old(self).selected_link,
    {
        self.scroll_offset = self.scroll_offset.saturating_sub(amount);
    }

    /// Scroll down by `amount` lines, stopping at the largest offset.
    pub fn scroll_down(&mut self, amount: u16)
        ensures
            final(self).scroll_offset == if old(self).scroll_offset + amount <= u16::MAX {
                old(self).scroll_offset + amount
            } else {
                u16::MAX as int
            },
            final(self).links@ == old(self).links@,
            final(self).show_links == old(self).show_links,
            final(self).selected_link == old(self).selected_link,
    {
        self.scroll_offset = self.scroll_offset.saturating_add(amount);
    }

    /// Show or hide the link picker, starting on the first link; returns
    /// `false` (and changes nothing) when the README has no links.
    pub fn toggle_links(&mut self) -> (r: bool)
        ensures
            r == (old(self).links@.len() > 0),
            r ==> final(self).show_links == !old(self).show_links && final(self).selected_link
                == 0,
            !r ==> final(self).show_links == old(self).show_links && final(self).selected_link
                == old(self).selected_link,
            final(self).links@ == old(self).links@,
            final(self).scroll_offset == old(self).scroll_offset,
    {
        if !self.links.is_empty() {
            self.show_links = !self.show_links;
            self.selected_link = 0;
            true
        } else {
            false
        }
    }

    /// Select the next link in the picker, stopping at the last.
    pub fn select_next_link(&mut self)
        requires
            old(self).selected_link < usize::MAX,
        ensures
            final(self).selected_link == if old(self).show_links && old(self).links@.len() > 0 {
                if old(self).selected_link + 1 < old(self).links@.len() - 1 {
                    old(self).selected_link + 1
                } else {
                    old(self).links@.len() - 1
                }
            } else {
                old(self).selected_link as int
            },
            final(self).links@ == old(self).links@,
            final(self).show_links == old(self).show_links,
    {
        if self.show_links && !self.links.is_empty() {
            let n = self.selected_link + 1;
            let last = self.links.len() - 1;
            self.selected_link = if n < last {
                n
            } else {
                last
            };
        }
    }

    /// Select the previous link in the picker, stopping at the first.
    pub fn select_prev_link(&mut self)
        ensures
            final(self).selected_link == if old(self).show_links && old(self).selected_link > 0 {
                old(self).selected_link - 1
            } else {
                old(self).selected_link as int
            },
            final(self).links@ == old(self).links@,
            final(self).show_links == old(self).show_links,
    {
        if self.show_links && self.selected_link > 0 {
            self.selected_link -= 1;
        }
    }

    /// The URL to open for the selected link (when the picker is shown);
    /// the picker closes either way.
    pub fn take_selected_link(&mut self) -> (r: Option<String>)
        ensures
            (old(self).show_links && old(self).selected_link < old(self).links@.len()) ==> r
                is Some && r->0@ == old(self).links@[old(self).selected_link as int].1@,
            !(old(self).show_links && old(self).selected_link < old(self).links@.len()) ==> r
                is None,
            !final(self).show_links,
            final(self).links@ == old(self).links@,
            final(self).selected_link == old(self).selected_link,
    {
        let r = if self.show_links && self.selected_link < self.links.len() {
            Some(self.links[self.selected_link].1.clone())
        } else {
            None
        };
        self.show_links = false;
        r
    }
}

/// What the markdown-link pattern `\[([^\]]+)\]\(([^)]+)\)` captures in a
/// text, match by match: (link text, url).
pub uninterp spec fn markdown_link_captures(content: Seq<char>) -> Seq<(Seq<char>, Seq<char>)>;

/// What the bare-URL pattern `https?://[^\s\)\]<>]+` matches in a text,
/// match by match.
pub uninterp spec fn bare_url_matches(content: Seq<char>) -> Seq<Seq<char>>;

/// Characters of each pair of strings.
pub open spec fn pairs_view(v: Seq<(String, String)>) -> Seq<(Seq<char>, Seq<char>)> {
    v.map_values(|p: (String, String)| (p.0@, p.1@))
}

/// Characters of each string.
pub open spec fn strs_view(v: Seq<String>) -> Seq<Seq<char>> {
    v.map_values(|s: String| s@)
}

/// (text, url) of every markdown link in `content`.
///
/// Calls `regex::Regex::captures_iter` with the markdown-link pattern and
/// converts each capture's two groups to strings; its result is named
/// `markdown_link_captures(content@)`.
#[verifier::external_body]
fn find_markdown_links(content: &str) -> (r: Vec<(String, String)>)
    ensures
        pairs_view(r@) == markdown_link_captures(content@),
{
    let re = regex::Regex::new(r"\[([^\]]+)\]\(([^)]+)\)").unwrap();
    re.captures_iter(content).map(|cap| {
        let text = cap.get(1).map(|m| m.as_str()).unwrap_or("");
        let url = cap.get(2).map(|m| m.as_str()).unwrap_or("");
        (text.to_string(), url.to_string())
    }).collect()
}

/// Every bare URL in `content`.
///
/// Calls `regex::Regex::find_iter` with the bare-URL pattern and converts
/// each match to a string; its result is named `bare_url_matches(content@)`.
#[verifier::external_body]
fn find_bare_urls(content: &str) -> (r: Vec<String>)
    ensures
        strs_view(r@) == bare_url_matches(content@),
{
    let re = regex::Regex::new(r"https?://[^\s\)\]<>]+").unwrap();
    re.find_iter(content).map(|m| m.as_str().to_string()).collect()
}

/// Whether some link of `links` has this url.
pub open spec fn has_url(links: Seq<(Seq<char>, Seq<char>)>, url: Seq<char>) -> bool {
    exists|i: int| 0 <= i < links.len() && #[trigger] links[i].1 == url
}

/// The markdown links with a non-empty url, in order.
pub open spec fn nonempty_links(caps: Seq<(Seq<char>, Seq<char>)>) -> Seq<(Seq<char>, Seq<char>)>
    decreases caps.len(),
{
    if caps.len() == 0 {
        caps
    } else if caps.last().1.len() > 0 {
        nonempty_links(caps.drop_last()).push(caps.last())
    } else {
        nonempty_links(caps.drop_last())
    }
}

/// `links` followed by each bare URL (as its own text) that is not yet a
/// link url.
pub open spec fn add_bare_urls(links: Seq<(Seq<char>, Seq<char>)>, urls: Seq<Seq<char>>) -> Seq<
    (Seq<char>, Seq<char>),
>
    decreases urls.len(),
{
    if urls.len() == 0 {
        links
    } else {
        let prev = add_bare_urls(links, urls.drop_last());
        if has_url(prev, urls.last()) {
            prev
        } else {
            prev.push((urls.last(), urls.last()))
        }
    }
}

/// The links of a README: its markdown links with a url, then its bare
/// URLs that are not already listed.
pub open spec fn readme_links(content: Seq<char>) -> Seq<(Seq<char>, Seq<char>)> {
    add_bare_urls(nonempty_links(markdown_link_captures(content)), bare_url_matches(content))
}

/// Whether some link of `links` has this url.
fn links_have_url(links: &Vec<(String, String)>, url: &str) -> (r: bool)
    ensures
        r == has_url(pairs_view(links@), url@),
{
    let mut i: usize = 0;
    while i < links.len()
        invariant
            0 <= i <= links@.len(),
            forall|k: int| 0 <= k < i ==> links@[k].1@ != url@,
        decreases links@.len() - i,
    {
        if str_eq(links[i].1.as_str(), url) {
            assert(pairs_view(links@)[i as int].1 == url@);
            return true;
        }
        i += 1;
    }
    assert forall|k: int| 0 <= k < pairs_view(links@).len() implies #[trigger] pairs_view(
        links@,
    )[k].1 != url@ by {
        assert(pairs_view(links@)[k].1 == links@[k].1@);
    }
    false
}

/// Extract the links from markdown content: `[text](url)` links first,
/// then bare URLs not already among them.
pub fn extract_markdown_links(content: &str) -> (r: Vec<(String, String)>)
    ensures
        pairs_view(r@) == readme_links(content@),
{
    let caps = find_markdown_links(content);
    let ghost cv = pairs_view(caps@);
    let mut links: Vec<(String, String)> = Vec::new();
    for cap in it: caps
        invariant
            it.seq() == caps@,
            cv == pairs_view(caps@),
            pairs_view(links@) == nonempty_links(cv.take(it.index() as int)),
    {
        proof {
            assert(cv.take(it.index() + 1).drop_last() =~= cv.take(it.index() as int));
            assert(cv.take(it.index() + 1).last() == (cap.0@, cap.1@));
        }
        if !cap.1.as_str().is_empty() {
            let ghost before = links@;
            let ghost cv_item = (cap.0@, cap.1@);
            links.push(cap);
            assert(pairs_view(links@) =~= pairs_view(before).push(cv_item));
        }
    }
    assert(cv.take(cv.len() as int) =~= cv);
    let urls = find_bare_urls(content);
    let ghost uv = strs_view(urls@);
    let ghost start = pairs_view(links@);
    for url in it: urls
        invariant
            it.seq() == urls@,
            uv == strs_view(urls@),
            pairs_view(links@) == add_bare_urls(start, uv.take(it.index() as int)),
    {
        proof {
            assert(uv.take(it.index() + 1).drop_last() =~= uv.take(it.index() as int));
            assert(uv.take(it.index() + 1).last() == url@);
        }
        if !links_have_url(&links, url.as_str()) {
            let ghost before = links@;
            let text = url.clone();
            links.push((text, url));
            assert(pairs_view(links@) =~= pairs_view(before).push((url@, url@)));
        }
    }
    assert(uv.take(uv.len() as int) =~= uv);
    links
}

/// Adding bare URLs keeps the markdown links first and unchanged, and
/// afterwards every bare URL is listed.
pub proof fn law_bare_urls_listed(links: Seq<(Seq<char>, Seq<char>)>, urls: Seq<Seq<char>>)
    ensures
        forall|u: Seq<char>| has_url(links, u) ==> has_url(add_bare_urls(links, urls), u),
        forall|k: int|
            0 <= k < urls.len() ==> has_url(add_bare_urls(links, urls), #[trigger] urls[k]),
        add_bare_urls(links, urls).len() >= links.len(),
        add_bare_urls(links, urls).subrange(0, links.len() as int) == links,
    decreases urls.len(),
{
    if urls.len() == 0 {
        assert(links.subrange(0, links.len() as int) =~= links);
    } else {
        law_bare_urls_listed(links, urls.drop_last());
        let prev = add_bare_urls(links, urls.drop_last());
        let last = urls.last();
        assert forall|u: Seq<char>| has_url(links, u) implies has_url(add_bare_urls(links, urls), u) by {
            if !has_url(prev, last) {
                let i = choose|i: int| 0 <= i < prev.len() && #[trigger] prev[i].1 == u;
                assert(prev.push((last, last))[i].1 == u);
            }
        }
        assert forall|k: int| 0 <= k < urls.len() implies has_url(
            add_bare_urls(links, urls),
            #[trigger] urls[k],
        ) by {
            if k < urls.len() - 1 {
                assert(urls.drop_last()[k] == urls[k]);
                if !has_url(prev, last) {
                    let i = choose|i: int| 0 <= i < prev.len() && #[trigger] prev[i].1 == urls[k];
                    assert(prev.push((last, last))[i].1 == urls[k]);
                }
            } else {
                if !has_url(prev, last) {
                    assert(prev.push((last, last))[prev.len() as int].1 == last);
                }
            }
        }
        if !has_url(prev, last) {
            assert(prev.push((last, last)).subrange(0, links.len() as int) =~= prev.subrange(
                0,
                links.len() as int,
            ));
        }
    }
}

/// Links the picker shows at once.
pub const PICKER_ROWS: usize = 15;

/// Width in characters a link needs: its text, or its text, " → " and its
/// address when they differ.
pub open spec fn link_width(link: (Seq<char>, Seq<char>)) -> nat {
    if link.0 == link.1 {
        link.0.len()
    } else {
        link.0.len() + link.1.len() + 4
    }
}

/// The widest link, or 30 when there are none.
pub open spec fn widest_link(links: Seq<(Seq<char>, Seq<char>)>) -> nat
    decreases links.len(),
{
    if links.len() == 0 {
        30
    } else if links.len() == 1 {
        link_width(links[0])
    } else {
        let w = widest_link(links.drop_last());
        let l = link_width(links.last());
        if l > w {
            l
        } else {
            w
        }
    }
}

/// Links as values.
pub open spec fn link_views(links: Seq<(String, String)>) -> Seq<(Seq<char>, Seq<char>)> {
    links.map_values(|l: (String, String)| (l.0@, l.1@))
}

/// The smaller of two numbers.
pub open spec fn min_nat(a: int, b: int) -> int {
    if a < b {
        a
    } else {
        b
    }
}

/// `a - b`, or 0 when `b` is larger.
pub open spec fn sat_sub(a: int, b: int) -> int {
    if a > b {
        a - b
    } else {
        0
    }
}

/// Where the link picker is drawn over the README popup: at least forty
/// columns wide and as wide as the widest link (at most seventy) plus six,
/// as tall as the links it shows (fifteen at most) plus two, at least five;
/// within four cells of the popup's size, and centred in it.
pub open spec fn spec_picker_area(parent: Area, links: Seq<(Seq<char>, Seq<char>)>) -> Area {
    let visible = min_nat(links.len() as int, PICKER_ROWS as int);
    let height = if visible + 2 > 5 {
        visible + 2
    } else {
        5
    };
    let content = min_nat(widest_link(links) as int, 70) + 6;
    let width = min_nat(
        if content > 40 {
            content
        } else {
            40
        },
        sat_sub(parent.2 as int, 4),
    );
    let h = min_nat(height, sat_sub(parent.3 as int, 4));
    (
        (parent.0 + sat_sub(parent.2 as int, width) / 2) as u16,
        (parent.1 + sat_sub(parent.3 as int, h) / 2) as u16,
        width as u16,
        h as u16,
    )
}

fn display_width(text: &str, url: &str) -> (r: usize)
    requires
        text@.len() + url@.len() + 4 <= usize::MAX,
    ensures
        r == link_width((text@, url@)),
{
    if str_eq(text, url) {
        text.unicode_len()
    } else {
        text.unicode_len() + url.unicode_len() + 4
    }
}

/// Where the link picker is drawn (see `spec_picker_area`).
pub fn link_picker_area(parent: Area, links: &Vec<(String, String)>) -> (r: Area)
    requires
        area_ok(parent),
        forall|i: int| 0 <= i < links@.len() ==> (#[trigger] links@[i]).0@.len() + links@[i].1@.len() + 4 <= usize::MAX,
    ensures
        r == spec_picker_area(parent, link_views(links@)),
        area_ok(r),
{
    let ghost ls = link_views(links@);
    let mut widest: usize = 30;
    let mut i: usize = 0;
    while i < links.len()
        invariant
            i <= links@.len(),
            ls == link_views(links@),
            forall|k: int| 0 <= k < links@.len() ==> (#[trigger] links@[k]).0@.len() + links@[k].1@.len() + 4 <= usize::MAX,
            widest == widest_link(ls.take(i as int)),
        decreases links@.len() - i,
    {
        assert(ls.take(i + 1).drop_last() =~= ls.take(i as int));
        assert(ls.take(i + 1).last() == (links@[i as int].0@, links@[i as int].1@));
        let w = display_width(links[i].0.as_str(), links[i].1.as_str());
        if i == 0 {
            assert(ls.take(1) =~= seq![ls[0]]);
            widest = w;
        } else if w > widest {
            widest = w;
        }
        i += 1;
    }
    assert(ls.take(links@.len() as int) =~= ls);
    let visible: usize = if links.len() < PICKER_ROWS {
        links.len()
    } else {
        PICKER_ROWS
    };
    let height: usize = if visible + 2 > 5 {
        visible + 2
    } else {
        5
    };
    let content: usize = if widest < 70 {
        widest + 6
    } else {
        76
    };
    let room_w: usize = if parent.2 > 4 {
        (parent.2 - 4) as usize
    } else {
        0
    };
    let room_h: usize = if parent.3 > 4 {
        (parent.3 - 4) as usize
    } else {
        0
    };
    let wide: usize = if content > 40 {
        content
    } else {
        40
    };
    let width: usize = if wide < room_w {
        wide
    } else {
        room_w
    };
    let h: usize = if height < room_h {
        height
    } else {
        room_h
    };
    let width16 = width as u16;
    let h16 = h as u16;
    let dx: u16 = if parent.2 > width16 {
        (parent.2 - width16) / 2
    } else {
        0
    };
    let dy: u16 = if parent.3 > h16 {
        (parent.3 - h16) / 2
    } else {
        0
    };
    (parent.0 + dx, parent.1 + dy, width16, h16)
}

/// How a link is listed: its text, or its text, " → " and its address
/// when they differ.
pub open spec fn link_line(link: (Seq<char>, Seq<char>)) -> Seq<char> {
    if link.0 == link.1 {
        link.0
    } else {
        link.0 + " → "@ + link.1
    }
}

/// A listed link that fits `max_chars` characters: longer ones keep their
/// first `max_chars - 3` characters and end in "...".
pub open spec fn spec_link_display(link: (Seq<char>, Seq<char>), max_chars: nat) -> Seq<char> {
    let d = link_line(link);
    if d.len() > max_chars {
        d.take(sat_sub(max_chars as int, 3)) + "..."@
    } else {
        d
    }
}

/// How a link is listed in a picker of `width` columns, four of them
/// taken by the borders and padding (see `spec_link_display`).
pub fn link_display(text: &str, url: &str, width: u16) -> (r: String)
    ensures
        r@ == spec_link_display((text@, url@), sat_sub(width as int, 4) as nat),
{
    let mut d = text.to_owned();
    if !str_eq(text, url) {
        d.append(" → ");
        d.append(url);
    }
    let max_chars: usize = if width > 4 {
        (width - 4) as usize
    } else {
        0
    };
    let n = d.as_str().unicode_len();
    if n > max_chars {
        let keep = if max_chars > 3 {
            max_chars - 3
        } else {
            0
        };
        let mut out = d.as_str().substring_char(0, keep).to_owned();
        out.append("...");
        out
    } else {
        d
    }
}

/// The title of the README popup: " <tool> - README ".
pub fn readme_title(tool_name: &str) -> (r: String)
    ensures
        r@ == " "@ + tool_name@ + " - README "@,
{
    let mut t = String::from_str(" ");
    t.append(tool_name);
    t.append(" - README ");
    t
}

/// The link hint of the README popup, shown when it has links:
/// "links(<n>)".
pub fn links_hint(count: usize) -> (r: Option<String>)
    ensures
        count == 0 ==> r is None,
        count > 0 ==> r is Some && r->0@ == "links("@ + decimal(count as nat) + ")"@,
{
    if count == 0 {
        None
    } else {
        let mut t = String::from_str("links(");
        t.append(usize_to_string(count).as_str());
        t.append(")");
        Some(t)
    }
}

} // verus!

