//! Rounded borders drawn around a block of lines.

use vstd::prelude::*;
use crate::text::{
    clamp_usize, lemma_spans_width_concat, lemma_spans_width_single, line_of, line_views,
    line_width, push_char, repeat_char, repeated, span_of, spaces, spans_width,
    Line, LineView, Span, SpanView, Style,
};
use crate::width::unicode_str_width;

verus! {

/// `a + b`, or `usize::MAX` where the sum does not fit.
pub open spec fn sat_add(a: usize, b: usize) -> usize {
    if a + b <= usize::MAX {
        (a + b) as usize
    } else {
        usize::MAX
    }
}

/// The larger of two widths.
pub open spec fn max_usize(a: usize, b: usize) -> usize {
    if a >= b {
        a
    } else {
        b
    }
}

/// The inner width of a card drawn in `width` columns: four columns go to the
/// border and its padding, and the content is never wider than `max_inner_width`.
/// There is no card below 4 columns.
pub open spec fn card_inner_width_spec(width: u16, max_inner_width: usize) -> Option<usize> {
    if width < 4 {
        None
    } else {
        Some(if (width - 4) as usize <= max_inner_width { (width - 4) as usize } else { max_inner_width })
    }
}

/// The inner width of a card drawn in `width` columns, at most `max_inner_width`.
pub fn card_inner_width(width: u16, max_inner_width: usize) -> (r: Option<usize>)
    ensures
        r == card_inner_width_spec(width, max_inner_width),
        r matches Some(w) ==> w <= max_inner_width && w + 4 <= width,
{
    if width < 4 {
        return None;
    }
    let available = (width - 4) as usize;
    let inner_width = if available <= max_inner_width { available } else { max_inner_width };
    Some(inner_width)
}

/// The widest of `lines`, each width taken as `Line::width` counts it.
pub open spec fn max_line_width(lines: Seq<LineView>) -> usize
    decreases lines.len(),
{
    if lines.len() == 0 {
        0
    } else {
        max_usize(max_line_width(lines.drop_last()), clamp_usize(line_width(lines.last())))
    }
}

/// No line is wider than the widest.
pub proof fn lemma_max_line_width_bound(lines: Seq<LineView>, i: int)
    requires
        0 <= i < lines.len(),
    ensures
        clamp_usize(line_width(lines[i])) <= max_line_width(lines),
    decreases lines.len(),
{
    if i < lines.len() - 1 {
        lemma_max_line_width_bound(lines.drop_last(), i);
    }
}

/// The content width of a bordered block: the widest line, or the forced
/// width where that is larger.
pub open spec fn border_content_width(lines: Seq<LineView>, forced: Option<usize>) -> usize {
    match forced {
        Some(f) => max_usize(f, max_line_width(lines)),
        None => max_line_width(lines),
    }
}

/// The top edge of a border around content `content_width` wide.
pub open spec fn border_top(content_width: usize, style: Style) -> LineView {
    line_of(seq![span_of(seq!['╭'] + repeated('─', sat_add(content_width, 2) as nat) + seq!['╮'], style)])
}

/// The bottom edge of a border around content `content_width` wide.
pub open spec fn border_bottom(content_width: usize, style: Style) -> LineView {
    line_of(seq![span_of(seq!['╰'] + repeated('─', sat_add(content_width, 2) as nat) + seq!['╯'], style)])
}

/// The spaces that fill a line of width `used` out to `inner` columns, if any.
pub open spec fn row_padding(used: usize, inner: usize, style: Style) -> Seq<SpanView> {
    if used < inner {
        seq![span_of(repeated(' ', (inner - used) as nat), style)]
    } else {
        seq![]
    }
}

/// A line framed between the two side edges of a border whose inside is
/// `inner` columns wide; the line's own style is not kept.
pub open spec fn framed_row(line: LineView, inner: usize, style: Style) -> LineView {
    line_of(
        seq![span_of("│ "@, style)] + line.spans + row_padding(
            clamp_usize(line_width(line)),
            inner,
            style,
        ) + seq![span_of(" │"@, style)],
    )
}

/// The lines of `lines` inside a border: the top edge, each line framed, and the bottom edge.
pub open spec fn bordered(lines: Seq<LineView>, forced: Option<usize>, style: Style) -> Seq<
    LineView,
> {
    let cw = border_content_width(lines, forced);
    seq![border_top(cw, style)] + lines.map_values(|l: LineView| framed_row(l, cw, style)) + seq![
        border_bottom(cw, style),
    ]
}

/// The width of a framed row: both side edges and the inner width, for a line
/// that fits inside.
pub open spec fn framed_row_width(inner: usize) -> nat {
    unicode_str_width("│ "@) + inner as nat + unicode_str_width(" │"@)
}

/// `line` framed between the side edges of a border whose inside is `inner` columns wide.
pub fn frame_row(line: &Line, inner: usize, style: Style) -> (r: Line)
    ensures
        r@ == framed_row(line@, inner, style),
        line_width(line@) <= inner ==> line_width(r@) == framed_row_width(inner),
{
    let used = line.width();
    let mut spans: Vec<Span> = Vec::new();
    let left = Span::styled_str("│ ", style);
    let ghost lv = left@;
    spans.push(left);
    let mut i: usize = 0;
    while i < line.spans.len()
        invariant
            i <= line.spans@.len(),
            crate::text::span_views(spans@) =~= seq![lv] + line@.spans.take(i as int),
        decreases line.spans@.len() - i,
    {
        let ghost before = crate::text::span_views(spans@);
        let sp = line.spans[i].duplicate();
        spans.push(sp);
        assert(crate::text::span_views(spans@) =~= before.push(sp@));
        assert(line@.spans.take(i + 1) =~= line@.spans.take(i as int).push(line@.spans[i as int]));
        i = i + 1;
    }
    assert(line@.spans.take(i as int) =~= line@.spans);
    let ghost mid = crate::text::span_views(spans@);
    let ghost pad = row_padding(used, inner, style);
    if used < inner {
        let p = Span::styled(spaces(inner - used), style);
        spans.push(p);
        assert(crate::text::span_views(spans@) =~= mid + pad);
        proof {
            lemma_spans_width_single(p@);
        }
    } else {
        assert(crate::text::span_views(spans@) =~= mid + pad);
    }
    let right = Span::styled_str(" │", style);
    let ghost rv = right@;
    let ghost before = crate::text::span_views(spans@);
    spans.push(right);
    assert(crate::text::span_views(spans@) =~= before.push(rv));
    let r = Line::from_spans(spans);
    proof {
        let l = seq![lv];
        assert(r@.spans =~= l + line@.spans + pad + seq![rv]);
        if line_width(line@) <= inner {
            lemma_spans_width_single(lv);
            lemma_spans_width_single(rv);
            lemma_spans_width_concat(l, line@.spans);
            lemma_spans_width_concat(l + line@.spans, pad);
            lemma_spans_width_concat(l + line@.spans + pad, seq![rv]);
            if used >= inner {
                assert(pad =~= seq![]);
                assert(spans_width(pad) == 0);
            }
        }
    }
    r
}

/// A border edge: `left`, then `n` horizontal strokes, then `right`.
fn border_edge(left: char, n: usize, right: char, style: Style) -> (s: Span)
    ensures
        s@ == span_of(seq![left] + repeated('─', n as nat) + seq![right], style),
{
    let mut text = String::new();
    push_char(&mut text, left);
    let strokes = repeat_char('─', n);
    text.append(strokes.as_str());
    push_char(&mut text, right);
    assert(text@ =~= seq![left] + repeated('─', n as nat) + seq![right]);
    Span::styled(text, style)
}

/// The widest line of `lines`.
fn widest(lines: &Vec<Line>) -> (w: usize)
    ensures
        w == max_line_width(line_views(lines@)),
{
    let mut w: usize = 0;
    let mut i: usize = 0;
    while i < lines.len()
        invariant
            i <= lines@.len(),
            w == max_line_width(line_views(lines@).take(i as int)),
        decreases lines@.len() - i,
    {
        let lw = lines[i].width();
        assert(line_views(lines@).take(i + 1).drop_last() =~= line_views(lines@).take(i as int));
        if lw > w {
            w = lw;
        }
        i = i + 1;
    }
    assert(line_views(lines@).take(i as int) =~= line_views(lines@));
    w
}

/// `lines` inside a rounded border drawn in `border_style`. The inside is as
/// wide as the widest line, or as `forced_inner_width` where that is wider;
/// each line is padded with spaces to that width.
///
/// Every framed line that fits inside is exactly as wide as the two side edges
/// and the inside together, so the right edge lines up.
pub fn with_border_internal(lines: Vec<Line>, forced_inner_width: Option<usize>, border_style: Style) -> (r: Vec<Line>)
    ensures
        line_views(r@) == bordered(line_views(lines@), forced_inner_width, border_style),
        r@.len() == lines@.len() + 2,
        forall|i: int|
            0 <= i < lines@.len() && line_width(lines@[i]@) <= usize::MAX ==> #[trigger] line_width(
                r@[i + 1]@,
            ) == framed_row_width(border_content_width(line_views(lines@), forced_inner_width)),
{
    let max_line_width = widest(&lines);
    let content_width = match forced_inner_width {
        Some(f) => if f >= max_line_width { f } else { max_line_width },
        None => max_line_width,
    };
    let ghost cw = content_width;
    let ghost views = line_views(lines@);
    let ghost framed = views.map_values(|l: LineView| framed_row(l, cw, border_style));
    let border_inner_width = content_width.saturating_add(2);
    let mut out: Vec<Line> = Vec::new();
    out.push(Line::from_span(border_edge('╭', border_inner_width, '╮', border_style)));
    let mut i: usize = 0;
    while i < lines.len()
        invariant
            i <= lines@.len(),
            views == line_views(lines@),
            cw == content_width,
            framed == views.map_values(|l: LineView| framed_row(l, cw, border_style)),
            border_inner_width == sat_add(content_width, 2),
            line_views(out@) =~= seq![border_top(cw, border_style)] + framed.take(i as int),
            forall|j: int|
                0 <= j < i && line_width(lines@[j]@) <= cw ==> #[trigger] line_width(out@[j + 1]@)
                    == framed_row_width(cw),
        decreases lines@.len() - i,
    {
        let row = frame_row(&lines[i], content_width, border_style);
        let ghost before = line_views(out@);
        out.push(row);
        assert(line_views(out@) =~= before.push(row@));
        assert(framed.take(i + 1) =~= framed.take(i as int).push(framed[i as int]));
        i = i + 1;
    }
    assert(framed.take(i as int) =~= framed);
    let ghost before = line_views(out@);
    let bottom = Line::from_span(border_edge('╰', border_inner_width, '╯', border_style));
    let ghost old_out = out@;
    out.push(bottom);
    assert(line_views(out@) =~= before.push(bottom@));
    assert forall|i: int| 0 <= i < lines@.len() && line_width(lines@[i]@) <= usize::MAX implies line_width(
        out@[i + 1]@,
    ) == framed_row_width(cw) by {
        lemma_max_line_width_bound(views, i);
        assert(views[i] == lines@[i]@);
        assert(out@[i + 1] == old_out[i + 1]);
    }
    out
}

/// `lines` inside a dim border as wide as the widest line.
pub fn with_border(lines: Vec<Line>) -> (r: Vec<Line>)
    ensures
        line_views(r@) == bordered(line_views(lines@), None, Style::plain().dim_spec()),
        r@.len() == lines@.len() + 2,
        forall|i: int|
            0 <= i < lines@.len() && line_width(lines@[i]@) <= usize::MAX ==> #[trigger] line_width(
                r@[i + 1]@,
            ) == framed_row_width(border_content_width(line_views(lines@), None)),
{
    with_border_internal(lines, None, Style::new().dim())
}

/// `lines` inside a dim border whose inside is at least `inner_width` wide.
pub fn with_border_with_inner_width(lines: Vec<Line>, inner_width: usize) -> (r: Vec<Line>)
    ensures
        line_views(r@) == bordered(line_views(lines@), Some(inner_width), Style::plain().dim_spec()),
        r@.len() == lines@.len() + 2,
        forall|i: int|
            0 <= i < lines@.len() && line_width(lines@[i]@) <= usize::MAX ==> #[trigger] line_width(
                r@[i + 1]@,
            ) == framed_row_width(border_content_width(line_views(lines@), Some(inner_width))),
{
    with_border_internal(lines, Some(inner_width), Style::new().dim())
}

} // verus!
