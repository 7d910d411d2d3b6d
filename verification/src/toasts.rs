//! Notification toasts: their colour and icon, how their text wraps, and
//! how they stack down the right side of the screen.

use vstd::prelude::*;
use vstd::string::StringSliceAdditionalSpecFns;
use vstd::utf8::encode_utf8;
use crate::mouse::Area;
use crate::notification::NotificationLevel;
use crate::text::{split_words, views_of, words};
use crate::theme::{Palette, Rgb};

verus! {

/// The border colour and icon of a toast.
pub open spec fn spec_toast_style(level: NotificationLevel, p: Palette) -> (Rgb, Seq<char>) {
    match level {
        NotificationLevel::Info => (p.blue, "ℹ"@),
        NotificationLevel::Warning => (p.yellow, "⚠"@),
        NotificationLevel::Error => (p.red, "✗"@),
    }
}

/// The border colour and icon of a toast (see `spec_toast_style`).
pub fn toast_style(level: NotificationLevel, p: &Palette) -> (r: (Rgb, &'static str))
    ensures
        (r.0, r.1@) == spec_toast_style(level, *p),
{
    match level {
        NotificationLevel::Info => (p.blue, "ℹ"),
        NotificationLevel::Warning => (p.yellow, "⚠"),
        NotificationLevel::Error => (p.red, "✗"),
    }
}

/// Bytes of the UTF-8 form of a text.
pub open spec fn byte_len(s: Seq<char>) -> nat {
    encode_utf8(s).len()
}

/// Wrapping the first words: the finished lines and the line being
/// filled. A line starts with the icon and a space; a word that would make
/// it longer than `inner` bytes starts a new line, indented by two spaces.
pub open spec fn wrap_acc(ws: Seq<Seq<char>>, icon: Seq<char>, inner: nat) -> (Seq<Seq<char>>, Seq<char>)
    decreases ws.len(),
{
    if ws.len() == 0 {
        (seq![], icon + " "@)
    } else {
        let (done, cur) = wrap_acc(ws.drop_last(), icon, inner);
        let w = ws.last();
        if byte_len(cur) + byte_len(w) + 1 > inner {
            (done.push(cur), "  "@ + w)
        } else if cur.len() > 0 && cur.last() != ' ' {
            (done, cur.push(' ') + w)
        } else {
            (done, cur + w)
        }
    }
}

/// The lines of a toast: its text's words wrapped behind the icon (see
/// `wrap_acc`).
pub open spec fn spec_toast_lines(text: Seq<char>, icon: Seq<char>, inner: nat) -> Seq<Seq<char>> {
    let (done, cur) = wrap_acc(words(text), icon, inner);
    if cur.len() > 0 {
        done.push(cur)
    } else {
        done
    }
}

fn bytes_of(s: &String) -> (r: usize)
    ensures
        r == byte_len(s@),
{
    s.as_str().as_bytes().len()
}

/// The lines of a toast (see `spec_toast_lines`); `inner` is the width
/// inside its borders.
pub fn toast_lines(text: &str, icon: &str, inner: usize) -> (r: Vec<String>)
    requires
        inner <= u16::MAX,
    ensures
        views_of(r@) == spec_toast_lines(text@, icon@, inner as nat),
{
    let ws = split_words(text);
    let ghost wv = views_of(ws@);
    let mut done: Vec<String> = Vec::new();
    let mut cur = icon.to_owned();
    cur.append(" ");
    let mut i: usize = 0;
    assert(wv.take(0) =~= Seq::<Seq<char>>::empty());
    while i < ws.len()
        invariant
            i <= ws@.len(),
            inner <= u16::MAX,
            wv == views_of(ws@),
            wv == words(text@),
            (views_of(done@), cur@) == wrap_acc(wv.take(i as int), icon@, inner as nat),
        decreases ws@.len() - i,
    {
        assert(wv.take(i + 1).drop_last() =~= wv.take(i as int));
        assert(wv.take(i + 1).last() == ws@[i as int]@);
        let w = &ws[i];
        let cur_len = bytes_of(&cur);
        let w_len = bytes_of(w);
        let needed = cur_len.saturating_add(w_len).saturating_add(1);
        assert((needed > inner) == (byte_len(cur@) + byte_len(w@) + 1 > inner));
        if needed > inner {
            let ghost before = views_of(done@);
            let finished = cur;
            done.push(finished);
            assert(views_of(done@) =~= before.push(finished@));
            cur = String::from_str("  ");
            cur.append(w.as_str());
        } else {
            let cs = crate::text::chars_of(cur.as_str());
            let ghost old_cur = cur@;
            if cs.len() > 0 && cs[cs.len() - 1] != ' ' {
                cur.append(" ");
                proof {
                    reveal_strlit(" ");
                }
                assert(cur@ =~= old_cur.push(' '));
            }
            cur.append(w.as_str());
        }
        i += 1;
    }
    assert(wv.take(ws@.len() as int) =~= wv);
    if !cur.as_str().is_empty() {
        let ghost before = views_of(done@);
        let last = cur;
        done.push(last);
        assert(views_of(done@) =~= before.push(last@));
    }
    done
}

/// The width of the toasts on a screen `width` cells wide: sixty percent of
/// it, between forty and eighty cells, and at most four less than the
/// screen.
pub open spec fn spec_toast_width(width: nat) -> nat {
    let share = width * 60 / 100;
    let clamped = if share < 40 {
        40
    } else if share > 80 {
        80
    } else {
        share
    };
    let room = if width > 4 {
        (width - 4) as nat
    } else {
        0
    };
    if clamped < room {
        clamped
    } else {
        room
    }
}

/// The width of the toasts (see `spec_toast_width`).
pub fn toast_width(width: u16) -> (r: u16)
    requires
        width * 60 <= u16::MAX,
    ensures
        r == spec_toast_width(width as nat),
{
    let share = width * 60 / 100;
    let clamped = if share < 40 {
        40
    } else if share > 80 {
        80
    } else {
        share
    };
    let room = if width > 4 {
        width - 4
    } else {
        0
    };
    if clamped < room {
        clamped
    } else {
        room
    }
}

/// Where the toasts go on a screen `width` by `height`, each of them
/// `counts[i]` lines tall, from row `y` down: at the right edge, as tall as
/// their lines plus the borders (cut at the bottom of the screen), one
/// blank row apart; the first toast that does not fit, and those after it,
/// are not shown.
pub open spec fn toast_stack(counts: Seq<nat>, y: nat, width: nat, height: nat, toast_w: nat) -> Seq<Area>
    decreases counts.len(),
{
    if counts.len() == 0 {
        seq![]
    } else {
        let room = if height > y {
            (height - y) as nat
        } else {
            0
        };
        let h = if counts[0] + 2 < room {
            counts[0] + 2
        } else {
            room
        };
        if y + h > height {
            seq![]
        } else {
            let x = if width > toast_w + 2 {
                (width - toast_w - 2) as nat
            } else {
                0
            };
            seq![(x as u16, y as u16, toast_w as u16, h as u16)] + toast_stack(
                counts.drop_first(),
                y + h + 1,
                width,
                height,
                toast_w,
            )
        }
    }
}

/// Counts as natural numbers.
pub open spec fn nat_counts(v: Seq<usize>) -> Seq<nat> {
    v.map_values(|n: usize| n as nat)
}

/// Where the toasts go (see `toast_stack`, from row 1), for toasts of
/// `line_counts` lines on a screen of this size.
pub fn toast_areas(width: u16, height: u16, toast_w: u16, line_counts: &Vec<usize>) -> (r: Vec<Area>)
    requires
        height < u16::MAX,
        forall|i: int| 0 <= i < line_counts@.len() ==> #[trigger] line_counts@[i] + 2 <= u16::MAX,
    ensures
        r@ == toast_stack(nat_counts(line_counts@), 1, width as nat, height as nat, toast_w as nat),
{
    let ghost cs = nat_counts(line_counts@);
    let mut out: Vec<Area> = Vec::new();
    let mut y: u16 = 1;
    let mut i: usize = 0;
    assert(cs.skip(0) =~= cs);
    while i < line_counts.len()
        invariant
            i <= line_counts@.len(),
            height < u16::MAX,
            cs == nat_counts(line_counts@),
            forall|k: int| 0 <= k < line_counts@.len() ==> #[trigger] line_counts@[k] + 2 <= u16::MAX,
            y <= height + 1,
            out@ + toast_stack(cs.skip(i as int), y as nat, width as nat, height as nat, toast_w as nat)
                == toast_stack(cs, 1, width as nat, height as nat, toast_w as nat),
        decreases line_counts@.len() - i,
    {
        let ghost rest = cs.skip(i as int);
        assert(rest[0] == line_counts@[i as int]);
        assert(rest.drop_first() =~= cs.skip(i + 1));
        let room: u16 = if height > y {
            height - y
        } else {
            0
        };
        let lines = line_counts[i] as u16 + 2;
        let h: u16 = if lines < room {
            lines
        } else {
            room
        };
        if y as u32 + h as u32 > height as u32 {
            assert(toast_stack(rest, y as nat, width as nat, height as nat, toast_w as nat) =~= Seq::<Area>::empty());
            assert(out@ + Seq::<Area>::empty() =~= out@);
            return out;
        }
        let x: u16 = if width as u32 > toast_w as u32 + 2 {
            width - toast_w - 2
        } else {
            0
        };
        let ghost before = out@;
        out.push((x, y, toast_w, h));
        assert(before + toast_stack(rest, y as nat, width as nat, height as nat, toast_w as nat)
            =~= out@ + toast_stack(cs.skip(i + 1), (y + h + 1) as nat, width as nat, height as nat, toast_w as nat));
        y = y + h + 1;
        i += 1;
    }
    assert(toast_stack(cs.skip(i as int), y as nat, width as nat, height as nat, toast_w as nat) =~= Seq::<Area>::empty());
    assert(out@ + Seq::<Area>::empty() =~= out@);
    out
}

/// Toasts stay on the screen and do not overlap: each lies between the
/// starting row and the bottom of the screen, and each ends above the
/// next one.
pub proof fn law_toasts_fit(counts: Seq<nat>, y: nat, width: nat, height: nat, toast_w: nat)
    requires
        height < u16::MAX,
        width <= u16::MAX,
        toast_w <= u16::MAX,
        y <= height + 1,
    ensures
        ({
            let s = toast_stack(counts, y, width, height, toast_w);
            &&& forall|k: int| 0 <= k < s.len() ==> y <= (#[trigger] s[k]).1 && s[k].1 + s[k].3 <= height
            &&& forall|j: int, k: int|
                0 <= j < k < s.len() ==> (#[trigger] s[j]).1 + s[j].3 < (#[trigger] s[k]).1
        }),
    decreases counts.len(),
{
    if counts.len() > 0 {
        let room = if height > y {
            (height - y) as nat
        } else {
            0
        };
        let h = if counts[0] + 2 < room {
            counts[0] + 2
        } else {
            room
        };
        if y + h <= height {
            let ny = y + h + 1;
            law_toasts_fit(counts.drop_first(), ny, width, height, toast_w);
            let x = if width > toast_w + 2 {
                (width - toast_w - 2) as nat
            } else {
                0
            };
            let a: Area = (x as u16, y as u16, toast_w as u16, h as u16);
            let rest = toast_stack(counts.drop_first(), ny, width, height, toast_w);
            let st = toast_stack(counts, y, width, height, toast_w);
            assert(st == seq![a] + rest);
            assert(a.1 == y && a.3 == h);
            assert forall|k: int| 0 <= k < st.len() implies y <= (#[trigger] st[k]).1 && st[k].1
                + st[k].3 <= height by {
                if k > 0 {
                    assert(st[k] == rest[k - 1]);
                }
            }
            assert forall|j: int, k: int| 0 <= j < k < st.len() implies (#[trigger] st[j]).1
                + st[j].3 < (#[trigger] st[k]).1 by {
                assert(st[k] == rest[k - 1]);
                if j > 0 {
                    assert(st[j] == rest[j - 1]);
                }
            }
        }
    }
}

} // verus!

