//! Pieces of styled text, as the footer, dialogs and overlays are drawn
//! from: a text with a foreground colour, a background, bold, dim and
//! italic.

use vstd::prelude::*;
use crate::theme::Rgb;

verus! {

/// A piece of text and its style: a foreground colour (none for
/// the terminal's default), bold and dim.
#[derive(Debug, Clone)]
pub struct StyledText {
    pub text: String,
    pub color: Option<Rgb>,
    pub bold: bool,
    pub dim: bool,
    pub italic: bool,
    /// Background colour (none for the surrounding one).
    pub background: Option<Rgb>,
}

/// A piece of text as values: text, colour, bold, dim.
pub type SpanView = (Seq<char>, Option<Rgb>, bool, bool, bool, Option<Rgb>);

/// A piece of text as values.
pub open spec fn span_view(s: StyledText) -> SpanView {
    (s.text@, s.color, s.bold, s.dim, s.italic, s.background)
}

/// Pieces of text as values.
pub open spec fn spans_view(v: Seq<StyledText>) -> Seq<SpanView> {
    v.map_values(|s: StyledText| span_view(s))
}

/// Text in a colour.
pub open spec fn fg(text: Seq<char>, c: Rgb) -> SpanView {
    (text, Some(c), false, false, false, None)
}

/// Bold text in a colour.
pub open spec fn fg_bold(text: Seq<char>, c: Rgb) -> SpanView {
    (text, Some(c), true, false, false, None)
}

/// Dim text in a colour.
pub open spec fn fg_dim(text: Seq<char>, c: Rgb) -> SpanView {
    (text, Some(c), false, true, false, None)
}

/// Italic text in a colour.
pub open spec fn fg_italic(text: Seq<char>, c: Rgb) -> SpanView {
    (text, Some(c), false, false, true, None)
}

/// Bold text in a colour on a background colour.
pub open spec fn fg_on(text: Seq<char>, c: Rgb, bg: Rgb) -> SpanView {
    (text, Some(c), true, false, false, Some(bg))
}

/// Text in the default style.
pub open spec fn plain(text: Seq<char>) -> SpanView {
    (text, None, false, false, false, None)
}

pub(crate) fn styled(text: &str, c: Rgb) -> (r: StyledText)
    ensures
        span_view(r) == fg(text@, c),
{
    StyledText { text: text.to_owned(), color: Some(c), bold: false, dim: false, italic: false, background: None }
}

pub(crate) fn styled_owned(text: String, c: Rgb) -> (r: StyledText)
    ensures
        span_view(r) == fg(text@, c),
{
    StyledText { text, color: Some(c), bold: false, dim: false, italic: false, background: None }
}

pub(crate) fn bold(text: &str, c: Rgb) -> (r: StyledText)
    ensures
        span_view(r) == fg_bold(text@, c),
{
    StyledText { text: text.to_owned(), color: Some(c), bold: true, dim: false, italic: false, background: None }
}

pub(crate) fn dim_owned(text: String, c: Rgb) -> (r: StyledText)
    ensures
        span_view(r) == fg_dim(text@, c),
{
    StyledText { text, color: Some(c), bold: false, dim: true, italic: false, background: None }
}

pub(crate) fn italic(text: &str, c: Rgb) -> (r: StyledText)
    ensures
        span_view(r) == fg_italic(text@, c),
{
    StyledText { text: text.to_owned(), color: Some(c), bold: false, dim: false, italic: true, background: None }
}

pub(crate) fn italic_owned(text: String, c: Rgb) -> (r: StyledText)
    ensures
        span_view(r) == fg_italic(text@, c),
{
    StyledText { text, color: Some(c), bold: false, dim: false, italic: true, background: None }
}

pub(crate) fn on_background(text: &str, c: Rgb, bg: Rgb) -> (r: StyledText)
    ensures
        span_view(r) == fg_on(text@, c, bg),
{
    StyledText { text: text.to_owned(), color: Some(c), bold: true, dim: false, italic: false, background: Some(bg) }
}

pub(crate) fn unstyled(text: &str) -> (r: StyledText)
    ensures
        span_view(r) == plain(text@),
{
    StyledText { text: text.to_owned(), color: None, bold: false, dim: false, italic: false, background: None }
}

/// Appends the pieces of `more`.
pub(crate) fn extend(v: &mut Vec<StyledText>, more: Vec<StyledText>)
    ensures
        spans_view(final(v)@) == spans_view(old(v)@) + spans_view(more@),
{
    let mut more = more;
    let ghost a = v@;
    let ghost b = more@;
    v.append(&mut more);
    assert(v@ =~= a + b);
    assert(spans_view(a + b) =~= spans_view(a) + spans_view(b));
}

/// Appends one piece.
pub(crate) fn push(v: &mut Vec<StyledText>, s: StyledText)
    ensures
        spans_view(final(v)@) == spans_view(old(v)@).push(span_view(s)),
{
    let ghost a = v@;
    v.push(s);
    assert(spans_view(v@) =~= spans_view(a).push(span_view(s)));
}

} // verus!
