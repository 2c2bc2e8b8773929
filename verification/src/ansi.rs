//! The boundary to the outside ANSI parser and to the outside cell-buffer
//! type.  Parsing a text blob into a grid of styled cells is the parser's
//! job; this module only carries its output and records, per line, the raw
//! display width of each grapheme cluster, so that the verified sizing
//! logic in `width` can compute the minimal bounding grid.

use vstd::prelude::*;

verus! {

#[verifier::external_type_specification]
#[verifier::external_body]
pub struct ExText<'a>(ratatui::text::Text<'a>);

#[verifier::external_type_specification]
#[verifier::external_body]
pub struct ExBuffer(ratatui::buffer::Buffer);

/// Whether the outside ANSI parser accepts the given source text; parsing
/// is a function of the source alone.
pub uninterp spec fn ansi_ok(source: Seq<char>) -> bool;

/// The grid of raw grapheme-cluster display widths that parsing the given
/// source yields, one inner sequence per line; a function of the source
/// alone.
pub uninterp spec fn parsed_rows(source: Seq<char>) -> Seq<Seq<u8>>;

/// The width in cells of the area a buffer covers.
pub uninterp spec fn buffer_width(b: ratatui::buffer::Buffer) -> nat;

/// The height in cells of the area a buffer covers.
pub uninterp spec fn buffer_height(b: ratatui::buffer::Buffer) -> nat;

/// A buffer's area and styled cells, as a grid of encoded plain values: a
/// faithful image of everything the buffer holds.  The encoding is fixed
/// but not specified; contracts use it only to state that buffers are
/// equal, produced deterministically, or carried unchanged.
pub uninterp spec fn buffer_view(b: ratatui::buffer::Buffer) -> Seq<Seq<u64>>;

/// The image of a buffer of default cells covering the area of the given
/// dimensions; a function of the dimensions alone.
pub uninterp spec fn empty_grid(w: u16, h: u16) -> Seq<Seq<u64>>;

/// A parsed text's lines of styled cells, as a grid of encoded plain
/// values, under the same fixed but unspecified encoding.
pub uninterp spec fn text_view(t: ratatui::text::Text<'static>) -> Seq<Seq<u64>>;

/// The image of the styled text that parsing the given source yields; a
/// function of the source alone.
pub uninterp spec fn parsed_text_view(source: Seq<char>) -> Seq<Seq<u64>>;

/// The image of the buffer obtained by rendering a parsed text into an
/// empty buffer of the given dimensions; a function of the text and the
/// dimensions alone.
pub uninterp spec fn rendered_view(text: Seq<Seq<u64>>, w: u16, h: u16) -> Seq<Seq<u64>>;

/// A successfully parsed canvas: the styled text held for rendering, and
/// per line the raw display width of each of its grapheme clusters.
pub struct ParsedCanvas {
    pub text: ratatui::text::Text<'static>,
    pub row_widths: Vec<Vec<u8>>,
}

/// Relies on ansi_to_tui's IntoText::into_text to turn an ANSI text blob
/// into lines of styled cells, on ratatui's Line::styled_graphemes to hand
/// those lines out cluster by cluster, and on unicode_width to report each
/// cluster's raw display width.  All three depend on the source text alone.
#[verifier::external_body]
pub fn parse_ansi(source: &str) -> (r: Option<ParsedCanvas>)
    ensures
        r is Some <==> ansi_ok(source@),
        r matches Some(p) ==> crate::width::rows_view(p.row_widths@) == parsed_rows(source@)
            && text_view(p.text) == parsed_text_view(source@),
{
    let text = match ansi_to_tui::IntoText::into_text(&source) {
        Ok(t) => t,
        Err(_) => return None,
    };
    let row_widths = text
        .lines
        .iter()
        .map(|l| {
            l.styled_graphemes(ratatui::style::Style::default())
                .map(|g| unicode_width::UnicodeWidthStr::width(g.symbol) as u8)
                .collect()
        })
        .collect();
    Some(ParsedCanvas { text, row_widths })
}

/// Relies on ratatui's Buffer::empty: a buffer of default cells covering
/// exactly the area of the given dimensions.
#[verifier::external_body]
pub fn empty_buffer(w: u16, h: u16) -> (b: ratatui::buffer::Buffer)
    ensures
        buffer_width(b) == w,
        buffer_height(b) == h,
        buffer_view(b) == empty_grid(w, h),
{
    ratatui::buffer::Buffer::empty(ratatui::layout::Rect::new(0, 0, w, h))
}

/// Relies on ratatui's Buffer::empty and on Widget::render for Text:
/// rendering writes styled cells inside the buffer's area and leaves the
/// area itself unchanged.
#[verifier::external_body]
pub fn render_text_buffer(text: &ratatui::text::Text<'static>, w: u16, h: u16) -> (b:
    ratatui::buffer::Buffer)
    ensures
        buffer_width(b) == w,
        buffer_height(b) == h,
        buffer_view(b) == rendered_view(text_view(*text), w, h),
{
    let area = ratatui::layout::Rect::new(0, 0, w, h);
    let mut buf = ratatui::buffer::Buffer::empty(area);
    ratatui::widgets::Widget::render(text, area, &mut buf);
    buf
}

} // verus!
