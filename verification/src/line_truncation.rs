//! Cutting lines down to a display width, with or without a trailing ellipsis.

use vstd::prelude::*;
use crate::text::{
    chars_of, clamp_usize, line_of, line_width, span_of, span_views, span_width, Line,
    LineView, Span, SpanView, Style,
};
use crate::width::{char_display_width, unicode_char_width};

verus! {

/// The width that a character adds when a span is cut character by character:
/// its display width, or 0 for a control character.
pub open spec fn cut_char_width(c: char) -> nat {
    match unicode_char_width(c) {
        Some(w) => w as nat,
        None => 0,
    }
}

/// Where a cut of `s` stops when it starts at index `i` with `used` columns
/// already taken and may take `max` columns in all: the first index whose
/// character no longer fits.
pub open spec fn cut_end(s: Seq<char>, i: int, used: int, max: int) -> int
    decreases s.len() - i,
{
    if i < 0 || i >= s.len() {
        s.len() as int
    } else if used + cut_char_width(s[i]) > max {
        i
    } else {
        cut_end(s, i + 1, used + cut_char_width(s[i]), max)
    }
}

/// The spans that remain when `spans` are cut to `max` columns, `used` columns
/// being taken already: zero-width spans are always kept, spans that fit are
/// kept whole, and the first span that does not fit is cut by characters.
pub open spec fn cut_spans(spans: Seq<SpanView>, used: int, max: int) -> Seq<SpanView>
    decreases spans.len(),
{
    if spans.len() == 0 {
        seq![]
    } else {
        let sp = spans[0];
        let w = span_width(sp) as int;
        if w == 0 {
            seq![sp] + cut_spans(spans.drop_first(), used, max)
        } else if used >= max {
            seq![]
        } else if used + w <= max {
            seq![sp] + cut_spans(spans.drop_first(), used + w, max)
        } else {
            let end = cut_end(sp.content, 0, used, max);
            if end > 0 {
                seq![span_of(sp.content.take(end), sp.style)]
            } else {
                seq![]
            }
        }
    }
}

/// A line cut to at most `max` columns.
pub open spec fn truncated_line(l: LineView, max: nat) -> LineView {
    if max == 0 {
        line_of(seq![])
    } else {
        LineView { spans: cut_spans(l.spans, 0, max as int), style: l.style }
    }
}

/// The style the ellipsis takes: that of the last remaining span, or the plain style.
pub open spec fn ellipsis_style(spans: Seq<SpanView>) -> Style {
    if spans.len() == 0 {
        Style::plain()
    } else {
        spans.last().style
    }
}

/// A line left as it is where it fits in `max` columns, and otherwise cut to
/// `max - 1` columns and ended with an ellipsis. (Line widths are summed in a
/// `usize` that stops at `usize::MAX`.)
pub open spec fn ellipsized_line(l: LineView, max: nat) -> LineView {
    if max == 0 {
        line_of(seq![])
    } else if clamp_usize(line_width(l)) <= max {
        l
    } else {
        let t = truncated_line(l, (max - 1) as nat);
        LineView {
            spans: t.spans.push(span_of("…"@, ellipsis_style(t.spans))),
            style: t.style,
        }
    }
}

/// How far a cut of `s` goes: the characters are taken one by one while they fit.
fn cut_text_end(s: &Vec<char>, used: usize, max: usize) -> (end: usize)
    requires
        used <= max,
    ensures
        end as int == cut_end(s@, 0, used as int, max as int),
        end <= s@.len(),
{
    let mut i: usize = 0;
    let mut u: usize = used;
    while i < s.len()
        invariant
            i <= s@.len(),
            u <= max,
            cut_end(s@, 0, used as int, max as int) == cut_end(s@, i as int, u as int, max as int),
        decreases s@.len() - i,
    {
        let w = match char_display_width(s[i]) {
            Some(w) => w,
            None => 0,
        };
        if w > max - u {
            return i;
        }
        u = u + w;
        i = i + 1;
    }
    i
}

/// `line` cut to at most `max_width` columns: spans that fit are kept whole,
/// the first span that does not is cut by characters, and nothing follows it
/// but zero-width spans met before the budget ran out.
pub fn truncate_line_to_width(line: Line, max_width: usize) -> (r: Line)
    ensures
        r@ == truncated_line(line@, max_width as nat),
{
    if max_width == 0 {
        return Line::empty();
    }
    let ghost all = span_views(line.spans@);
    let n = line.spans.len();
    let mut out: Vec<Span> = Vec::new();
    let mut used: usize = 0;
    let mut i: usize = 0;
    let mut done = false;
    assert(all.skip(0) =~= all);
    assert(span_views(out@) + cut_spans(all, 0, max_width as int) =~= cut_spans(all, 0, max_width as int));
    while i < n && !done
        invariant
            n == line.spans@.len(),
            all == span_views(line.spans@),
            i <= n,
            used <= max_width,
            done ==> span_views(out@) == cut_spans(all, 0, max_width as int),
            !done ==> span_views(out@) + cut_spans(all.skip(i as int), used as int, max_width as int)
                == cut_spans(all, 0, max_width as int),
        decreases n - i + (if done { 0int } else { 1int }),
    {
        let ghost rest = all.skip(i as int);
        assert(rest.drop_first() =~= all.skip(i + 1));
        let span = &line.spans[i];
        let w = span.width();
        let ghost before = span_views(out@);
        if w == 0 {
            out.push(span.duplicate());
            assert(span_views(out@) =~= before + seq![rest[0]]);
            i = i + 1;
        } else if used >= max_width {
            done = true;
        } else if w <= max_width - used {
            out.push(span.duplicate());
            assert(span_views(out@) =~= before + seq![rest[0]]);
            used = used + w;
            i = i + 1;
        } else {
            let chars = chars_of(span.content.as_str());
            let end = cut_text_end(&chars, used, max_width);
            if end > 0 {
                let text = span.content.as_str().substring_char(0, end).to_owned();
                out.push(Span::styled(text, span.style));
                assert(span_views(out@) =~= before + seq![
                    span_of(rest[0].content.take(end as int), rest[0].style),
                ]);
            } else {
                assert(span_views(out@) =~= before + seq![]);
            }
            done = true;
        }
    }
    if !done {
        assert(all.skip(i as int) =~= seq![]);
        assert(span_views(out@) + seq![] =~= span_views(out@));
    }
    Line { spans: out, style: line.style }
}

/// `line` unchanged where it fits in `max_width` columns; otherwise cut to
/// `max_width - 1` columns and ended with an ellipsis in the style of the last
/// remaining span. A width of 0 leaves an empty line.
pub fn truncate_line_with_ellipsis_if_overflow(line: Line, max_width: usize) -> (r: Line)
    ensures
        r@ == ellipsized_line(line@, max_width as nat),
{
    if max_width == 0 {
        return Line::empty();
    }
    let width = line.width();
    if width <= max_width {
        return line;
    }
    let truncated = truncate_line_to_width(line, max_width - 1);
    let Line { mut spans, style } = truncated;
    let ghost before = span_views(spans@);
    let ellipsis = if spans.len() == 0 {
        Style::new()
    } else {
        spans[spans.len() - 1].style
    };
    spans.push(Span::styled_str("…", ellipsis));
    assert(span_views(spans@) =~= before.push(span_of("…"@, ellipsis_style(before))));
    Line { spans, style }
}


/// A line that fits in `max` columns is kept as it is.
pub proof fn law_fitting_line_is_kept(l: LineView, max: nat)
    requires
        max > 0,
        line_width(l) <= max,
    ensures
        ellipsized_line(l, max) == l,
{
}

/// A line that does not fit in `max` columns ends with an ellipsis, and
/// keeps its line style.
pub proof fn law_overflowing_line_ends_with_ellipsis(l: LineView, max: nat)
    requires
        max > 0,
        clamp_usize(line_width(l)) > max,
    ensures
        ellipsized_line(l, max).spans.len() > 0,
        ellipsized_line(l, max).spans.last().content == "…"@,
        max > 1 ==> ellipsized_line(l, max).style == l.style,
{
}

} // verus!
