//! The loading overlay: its progress bar, its size, and how the install
//! output in it is coloured and scrolled.

use vstd::prelude::*;
use crate::install::{OutputLine, OutputLineType};
use crate::pending::BackgroundOp;
use crate::text::{chars_contain, chars_of, contains_seq, decimal, lowercase, to_lowercase, usize_to_string};
use crate::theme::{Palette, Rgb};

verus! {

/// Cells of the progress bar.
pub const PROGRESS_BAR_WIDTH: usize = 30;

/// Filled cells of the progress bar at step `current` of `total`.
pub open spec fn filled_cells(current: nat, total: nat) -> nat {
    if total > 0 {
        current * (PROGRESS_BAR_WIDTH as nat) / total
    } else {
        0
    }
}

/// `n` copies of `c`.
pub open spec fn repeat_char(c: char, n: nat) -> Seq<char> {
    Seq::new(n, |i: int| c)
}

/// The progress bar: thirty cells, the done share of them full, and
/// "<current>/<total>".
pub open spec fn spec_progress_bar(current: nat, total: nat) -> Seq<char> {
    let filled = filled_cells(current, total);
    "["@ + repeat_char('█', filled) + repeat_char('░', (PROGRESS_BAR_WIDTH - filled) as nat) + "] "@
        + decimal(current) + "/"@ + decimal(total)
}

fn push_repeated(s: &mut String, piece: &str, c: char, n: usize)
    requires
        piece@ == seq![c],
    ensures
        final(s)@ == old(s)@ + repeat_char(c, n as nat),
{
    let mut i: usize = 0;
    while i < n
        invariant
            piece@ == seq![c],
            i <= n,
            s@ == old(s)@ + repeat_char(c, i as nat),
        decreases n - i,
    {
        s.append(piece);
        assert(s@ =~= old(s)@ + repeat_char(c, (i + 1) as nat));
        i += 1;
    }
}

/// The progress bar of the loading overlay (see `spec_progress_bar`); the
/// step is at most the number of steps.
pub fn progress_bar(current: usize, total: usize) -> (r: String)
    requires
        total == 0 || current <= total,
        current * PROGRESS_BAR_WIDTH <= usize::MAX,
    ensures
        r@ == spec_progress_bar(current as nat, total as nat),
{
    let filled = if total > 0 {
        current * PROGRESS_BAR_WIDTH / total
    } else {
        0
    };
    proof {
        if total > 0 {
            let c = current as int;
            let t = total as int;
            assert((c * 30) / t <= 30) by (nonlinear_arith)
                requires
                    0 <= c <= t,
                    t > 0,
            {
                assert(c * 30 <= t * 30);
                assert((t * 30) / t == 30);
            }
            assert(filled as int == (c * 30) / t);
        }
    }
    let mut s = String::from_str("[");
    proof {
        reveal_strlit("█");
        reveal_strlit("░");
        assert("█"@ =~= seq!['█']);
        assert("░"@ =~= seq!['░']);
    }
    push_repeated(&mut s, "█", '█', filled);
    push_repeated(&mut s, "░", '░', PROGRESS_BAR_WIDTH - filled);
    s.append("] ");
    s.append(usize_to_string(current).as_str());
    s.append("/");
    s.append(usize_to_string(total).as_str());
    s
}

/// The overlay is the larger one, with the install output in it, while an
/// install or update runs and has printed something.
pub open spec fn shows_output(op: Option<BackgroundOp>, output_lines: nat) -> bool {
    output_lines > 0 && (op matches Some(BackgroundOp::ExecuteInstall { .. }) || op matches Some(
        BackgroundOp::ExecuteUpdate { .. },
    ))
}

/// The share of the screen the overlay takes, in percent of width and
/// height: seventy by sixty with install output, fifty by thirty
/// otherwise.
pub fn overlay_size(op: &Option<BackgroundOp>, output_lines: usize) -> (r: (u16, u16))
    ensures
        r == (if shows_output(*op, output_lines as nat) {
            (70u16, 60u16)
        } else {
            (50u16, 30u16)
        }),
{
    let install = match op {
        Some(BackgroundOp::ExecuteInstall { .. }) => true,
        Some(BackgroundOp::ExecuteUpdate { .. }) => true,
        _ => false,
    };
    if install && output_lines > 0 {
        (70, 60)
    } else {
        (50, 30)
    }
}

/// The overlay's title: that of the running operation, "Working" when
/// none runs.
pub fn overlay_title(op: &Option<BackgroundOp>) -> (r: &'static str)
    ensures
        r@ == match *op {
            Some(BackgroundOp::CheckUpdates { .. }) => "Checking for Updates"@,
            Some(BackgroundOp::DiscoverSearch { .. }) => "Searching"@,
            Some(BackgroundOp::ExecuteInstall { .. }) => "Installing"@,
            Some(BackgroundOp::ExecuteUpdate { .. }) => "Updating"@,
            None => "Working"@,
        },
{
    match op {
        Some(o) => o.title(),
        None => "Working",
    }
}

/// Whether an output line, in lower case, looks like an error.
pub open spec fn looks_failed(line: Seq<char>) -> bool {
    let l = lowercase(line);
    ||| contains_seq(l, "error"@)
    ||| contains_seq(l, "failed"@)
    ||| contains_seq(l, "cannot"@)
    ||| contains_seq(l, "not found"@)
}

/// The colour of an output line: text for stdout, red for stderr lines
/// that look like errors and dim for other stderr (many tools report
/// progress there), blue for the TUI's own lines.
pub open spec fn spec_line_color(line: OutputLine, p: Palette) -> Rgb {
    match line.line_type {
        OutputLineType::Stdout => p.text,
        OutputLineType::Stderr => if looks_failed(line.content@) {
            p.red
        } else {
            p.subtext0
        },
        OutputLineType::Status => p.blue,
    }
}

/// The colour of an output line (see `spec_line_color`).
pub fn output_line_color(line: &OutputLine, p: &Palette) -> (r: Rgb)
    ensures
        r == spec_line_color(*line, *p),
{
    match line.line_type {
        OutputLineType::Stdout => p.text,
        OutputLineType::Status => p.blue,
        OutputLineType::Stderr => {
            let l = chars_of(to_lowercase(line.content.as_str()).as_str());
            if chars_contain(&l, &chars_of("error")) || chars_contain(&l, &chars_of("failed"))
                || chars_contain(&l, &chars_of("cannot")) || chars_contain(
                &l,
                &chars_of("not found"),
            ) {
                p.red
            } else {
                p.subtext0
            }
        },
    }
}

/// The first output line shown: the scroll position, at most as far as
/// the last `visible` lines.
pub fn output_scroll_offset(scroll: usize, len: usize, visible: usize) -> (r: usize)
    ensures
        r == if len > visible {
            if scroll < len - visible {
                scroll as int
            } else {
                len - visible
            }
        } else {
            0
        },
{
    let max_scroll = if len > visible {
        len - visible
    } else {
        0
    };
    if scroll < max_scroll {
        scroll
    } else {
        max_scroll
    }
}

/// The progress bar only fills up: it is empty at the first step, full at
/// the last, and never has fewer full cells at a later step.
pub proof fn law_progress_bar_fills(c1: nat, c2: nat, total: nat)
    requires
        c1 <= c2 <= total,
        total > 0,
    ensures
        filled_cells(0, total) == 0,
        filled_cells(total, total) == PROGRESS_BAR_WIDTH,
        filled_cells(c1, total) <= filled_cells(c2, total) <= PROGRESS_BAR_WIDTH,
{
    let t = total as int;
    vstd::arithmetic::mul::lemma_mul_inequality(c1 as int, c2 as int, 30);
    vstd::arithmetic::mul::lemma_mul_inequality(c2 as int, t, 30);
    vstd::arithmetic::div_mod::lemma_div_is_ordered(c1 as int * 30, c2 as int * 30, t);
    vstd::arithmetic::div_mod::lemma_div_is_ordered(c2 as int * 30, t * 30, t);
    vstd::arithmetic::div_mod::lemma_div_multiples_vanish(30, t);
    assert(t * 30 == 30 * t) by (nonlinear_arith);
    assert(0int * 30 == 0);
}

} // verus!

