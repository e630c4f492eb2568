//! The block-letter wordmark of the landing screen, shaded like brushed
//! metal, with a highlight that sweeps across it while it animates.

use vstd::prelude::*;
use crate::card::centered;
use crate::session_header::SessionHeaderHistoryCell;
use crate::text::{
    chars_of, line_of, line_views, push_char, span_of, span_views, Color, Line, LineView, Span,
    SpanView, Style,
};
use crate::width::{display_width, unicode_str_width};

verus! {

/// Half the width, in columns, of the highlight that sweeps the wordmark.
pub const LANDING_SWEEP_HALF_WIDTH: usize = 10;

/// How far beyond each edge of the wordmark the highlight travels.
pub const LANDING_SWEEP_MARGIN: usize = 8;

/// `c` has the Unicode White_Space property (what `char::is_whitespace` tests).
pub open spec fn is_white_space(c: char) -> bool {
    ||| ('\u{9}' <= c && c <= '\u{d}')
    ||| c == ' '
    ||| c == '\u{85}'
    ||| c == '\u{a0}'
    ||| c == '\u{1680}'
    ||| ('\u{2000}' <= c && c <= '\u{200a}')
    ||| c == '\u{2028}'
    ||| c == '\u{2029}'
    ||| c == '\u{202f}'
    ||| c == '\u{205f}'
    ||| c == '\u{3000}'
}

/// Whether `c` is white space.
pub fn char_is_white_space(c: char) -> (r: bool)
    ensures
        r == is_white_space(c),
{
    (c >= '\u{9}' && c <= '\u{d}') || c == ' ' || c == '\u{85}' || c == '\u{a0}' || c == '\u{1680}'
        || (c >= '\u{2000}' && c <= '\u{200a}') || c == '\u{2028}' || c == '\u{2029}' || c
        == '\u{202f}' || c == '\u{205f}' || c == '\u{3000}'
}

/// `s` without its trailing white space.
pub open spec fn trimmed_end(s: Seq<char>) -> Seq<char>
    decreases s.len(),
{
    if s.len() > 0 && is_white_space(s.last()) {
        trimmed_end(s.drop_last())
    } else {
        s
    }
}

/// `s` without its trailing white space.
pub fn trim_end(s: &str) -> (r: String)
    ensures
        r@ == trimmed_end(s@),
{
    let chars = chars_of(s);
    let mut k: usize = chars.len();
    assert(s@.take(chars@.len() as int) =~= s@);
    while k > 0 && char_is_white_space(chars[k - 1])
        invariant
            k <= chars@.len(),
            chars@ == s@,
            trimmed_end(s@) == trimmed_end(s@.take(k as int)),
        decreases k,
    {
        assert(s@.take(k as int).drop_last() =~= s@.take(k - 1));
        k = k - 1;
    }
    s.substring_char(0, k).to_owned()
}

/// `spans` with the trailing white space of the last spans removed: each
/// span from the end is trimmed, until one keeps some text.
pub open spec fn trim_tail(spans: Seq<SpanView>) -> Seq<SpanView>
    decreases spans.len(),
{
    if spans.len() == 0 {
        spans
    } else {
        let last = spans.last();
        let t = trimmed_end(last.content);
        let rest = spans.drop_last();
        let front = if t.len() > 0 {
            rest
        } else {
            trim_tail(rest)
        };
        front.push(span_of(t, last.style))
    }
}

/// Trimming from the end: where the spans from `k` on all trim to nothing,
/// the result is the trimmed front followed by those emptied spans.
proof fn lemma_trim_tail_split(spans: Seq<SpanView>, k: int)
    requires
        0 <= k <= spans.len(),
        forall|i: int| k <= i < spans.len() ==> trimmed_end(#[trigger] spans[i].content).len() == 0,
    ensures
        trim_tail(spans) == trim_tail(spans.take(k)) + spans.skip(k).map_values(
            |s: SpanView| span_of(trimmed_end(s.content), s.style),
        ),
    decreases spans.len() - k,
{
    if k == spans.len() {
        assert(spans.take(k) =~= spans);
        assert(spans.skip(k).map_values(|s: SpanView| span_of(trimmed_end(s.content), s.style))
            =~= seq![]);
        assert(trim_tail(spans.take(k)) + seq![] =~= trim_tail(spans.take(k)));
    } else {
        let d = spans.drop_last();
        lemma_trim_tail_split(d, k);
        assert(d.take(k) =~= spans.take(k));
        assert(spans.skip(k).map_values(|s: SpanView| span_of(trimmed_end(s.content), s.style))
            =~= d.skip(k).map_values(|s: SpanView| span_of(trimmed_end(s.content), s.style)).push(
            span_of(trimmed_end(spans.last().content), spans.last().style),
        ));
    }
}

/// `line` with the trailing white space of its last spans removed.
pub fn trim_line_tail(line: Line) -> (r: Line)
    ensures
        r@ == (LineView { spans: trim_tail(line@.spans), style: line@.style }),
{
    let Line { mut spans, style } = line;
    let ghost orig = span_views(spans@);
    let mut k: usize = spans.len();
    let mut done = false;
    while k > 0 && !done
        invariant
            k <= spans@.len(),
            orig.len() == spans@.len(),
            !done ==> forall|i: int| 0 <= i < k ==> #[trigger] span_views(spans@)[i] == orig[i],
            !done ==> forall|i: int|
                k <= i < orig.len() ==> trimmed_end(#[trigger] orig[i].content).len() == 0,
            !done ==> forall|i: int|
                k <= i < orig.len() ==> #[trigger] span_views(spans@)[i] == span_of(
                    trimmed_end(orig[i].content),
                    orig[i].style,
                ),
            done ==> span_views(spans@) == trim_tail(orig),
        decreases k + (if done { 0int } else { 1int }),
    {
        let ghost before = span_views(spans@);
        assert(before[k - 1] == orig[k - 1]);
        let trimmed = trim_end(spans[k - 1].content.as_str());
        let non_empty = trimmed.as_str().unicode_len() > 0;
        let st = spans[k - 1].style;
        let ns = Span::styled(trimmed, st);
        spans.set(k - 1, ns);
        assert(span_views(spans@) =~= before.update(k - 1, ns@));
        assert(ns@ == span_of(trimmed_end(orig[k - 1].content), orig[k - 1].style));
        if non_empty {
            proof {
                let kk = (k - 1) as int;
                lemma_trim_tail_split(orig, k as int);
                let front = orig.take(k as int);
                assert(front.drop_last() =~= orig.take(kk));
                assert(trim_tail(front) == orig.take(kk).push(ns@));
                assert(span_views(spans@) =~= orig.take(kk).push(ns@) + orig.skip(k as int).map_values(
                    |s: SpanView| span_of(trimmed_end(s.content), s.style),
                ));
            }
            done = true;
        } else {
            assert(trimmed_end(orig[k - 1].content).len() == 0);
            k = k - 1;
        }
    }
    if !done {
        proof {
            lemma_trim_tail_split(orig, 0);
            assert(orig.take(0) =~= seq![]);
            assert(span_views(spans@) =~= seq![] + orig.skip(0).map_values(
                |s: SpanView| span_of(trimmed_end(s.content), s.style),
            ));
        }
    }
    Line { spans, style }
}

/// The characters of each glyph of each row of a wordmark.
pub open spec fn wordmark_view(wm: Seq<Vec<&'static str>>) -> Seq<Seq<Seq<char>>> {
    wm.map_values(|row: Vec<&'static str>| row@.map_values(|g: &'static str| g@))
}

/// The number of characters in the first `n` glyphs of a row.
pub open spec fn chars_before(row: Seq<Seq<char>>, n: int) -> nat
    decreases n,
{
    if n <= 0 || n > row.len() {
        0
    } else {
        chars_before(row, n - 1) + row[n - 1].len()
    }
}

/// The total display width of the glyphs of a row.
pub open spec fn glyphs_width(row: Seq<Seq<char>>) -> nat
    decreases row.len(),
{
    if row.len() == 0 {
        0
    } else {
        glyphs_width(row.drop_last()) + unicode_str_width(row.last())
    }
}

/// The width of a wordmark: that of its first row, glyphs and the spacing between them.
pub open spec fn wordmark_width(wm: Seq<Seq<Seq<char>>>, spacing: Seq<char>) -> nat {
    if wm.len() == 0 {
        0
    } else {
        glyphs_width(wm[0]) + unicode_str_width(spacing) * (if wm[0].len() >= 1 {
            (wm[0].len() - 1) as nat
        } else {
            0
        })
    }
}

/// An upper bound on the column of any character of a row, and on a third of
/// the row's width.
pub open spec fn row_extent(row: Seq<Seq<char>>, spacing: Seq<char>) -> nat {
    chars_before(row, row.len() as int) + 3 * row.len() * spacing.len()
}

/// The wordmark is small enough for the column arithmetic to stay within
/// machine integers.
pub open spec fn wordmark_fits(wm: Seq<Seq<Seq<char>>>, spacing: Seq<char>) -> bool {
    forall|r: int|
        0 <= r < wm.len() ==> 255 * (3 * row_extent(#[trigger] wm[r], spacing) + 3 * wm.len() + 64)
            <= isize::MAX
}

/// The column the sweeping highlight is centred on in frame `phase`: it
/// travels from before the left edge to past the right edge over a period.
pub open spec fn sweep_center(wordmark_width: nat, phase: u8) -> int {
    ((phase as nat) * (wordmark_width + 36) / 20) as int - 18
}

/// The base shade of a row by its distance from the top or bottom edge:
/// brightest at the edges, darkest two rows in.
pub open spec fn band_tone(edge_distance: int) -> (u8, u8, u8) {
    if edge_distance == 0 {
        (202, 207, 212)
    } else if edge_distance == 1 {
        (194, 200, 205)
    } else if edge_distance == 2 {
        (186, 192, 198)
    } else {
        (194, 200, 205)
    }
}

/// `v` held to the range of a color channel.
pub open spec fn channel(v: int) -> u8 {
    if v < 0 {
        0
    } else if v > 255 {
        255
    } else {
        v as u8
    }
}

/// The color of the character `ch` at column `x` of row `r` of a wordmark
/// with `rows` rows, the highlight being centred on column `center`: the
/// row's base shade, darkened a step on a fixed diagonal pattern, brightened
/// near the highlight, with a warm notch where the highlight crosses a
/// darkened character.
pub open spec fn cell_color(r: int, rows: int, x: int, center: int, active: bool, ch: char) -> Color {
    let edge = if r < rows - r - 1 { r } else { rows - r - 1 };
    let (red, green, blue) = band_tone(edge);
    let brushed: int = if (x + r * 3) % 7 == 0 { -1 } else { 0 };
    let dist: int = if x - center < 0 { center - x } else { x - center };
    let sweep: int = if active { (if dist < 10 { 10 - dist } else { 0 }) * 20 / 10 } else { 0 };
    let lum = channel(red + brushed + sweep);
    let delta = lum - red;
    if active && dist <= 1 && brushed < 0 && ch != ' ' {
        Color::Rgb(lum, channel(lum - 8), channel(lum - 22))
    } else {
        Color::Rgb(lum, channel(green + delta), channel(blue + delta))
    }
}

/// The bold style in the color of a wordmark character.
pub open spec fn cell_style(r: int, rows: int, x: int, center: int, active: bool, ch: char) -> Style {
    Style::plain().fg_spec(cell_color(r, rows, x, center, active, ch)).bold_spec()
}

/// One span per character of `glyph`, whose first character is at column `x0`.
pub open spec fn glyph_spans(rows: int, r: int, glyph: Seq<char>, x0: int, center: int, active: bool) -> Seq<
    SpanView,
> {
    Seq::new(
        glyph.len(),
        |j: int| span_of(seq![glyph[j]], cell_style(r, rows, x0 + j, center, active, glyph[j])),
    )
}

/// The column where glyph `li` of a row starts.
pub open spec fn glyph_x(row: Seq<Seq<char>>, li: int, sw: nat) -> int {
    chars_before(row, li) + li * sw
}

/// The spans of glyph `li` of a row, after the spacing that separates it
/// from the glyph before.
pub open spec fn letter_spans(
    rows: int,
    r: int,
    row: Seq<Seq<char>>,
    li: int,
    spacing: Seq<char>,
    sw: nat,
    center: int,
    active: bool,
) -> Seq<SpanView> {
    (if li > 0 {
        seq![span_of(spacing, Style::plain())]
    } else {
        seq![]
    }) + glyph_spans(rows, r, row[li], glyph_x(row, li, sw), center, active)
}

/// The spans of the first `n` glyphs of a row.
pub open spec fn row_spans(
    rows: int,
    r: int,
    row: Seq<Seq<char>>,
    n: int,
    spacing: Seq<char>,
    sw: nat,
    center: int,
    active: bool,
) -> Seq<SpanView>
    decreases n,
{
    if n <= 0 {
        seq![]
    } else {
        row_spans(rows, r, row, n - 1, spacing, sw, center, active) + letter_spans(
            rows,
            r,
            row,
            n - 1,
            spacing,
            sw,
            center,
            active,
        )
    }
}

/// Row `r` of the wordmark as drawn: its characters in their colors, centred
/// in `width` columns, with the trailing white space removed.
pub open spec fn wordmark_row_line(
    wm: Seq<Seq<Seq<char>>>,
    r: int,
    spacing: Seq<char>,
    width: usize,
    phase: u8,
    active: bool,
) -> LineView {
    let sw = unicode_str_width(spacing);
    let center = sweep_center(wordmark_width(wm, spacing), phase);
    let l = centered(
        line_of(row_spans(wm.len() as int, r, wm[r], wm[r].len() as int, spacing, sw, center, active)),
        width,
    );
    LineView { spans: trim_tail(l.spans), style: l.style }
}

/// All rows of the wordmark as drawn.
pub open spec fn wordmark_lines(
    wm: Seq<Seq<Seq<char>>>,
    spacing: Seq<char>,
    width: usize,
    phase: u8,
    active: bool,
) -> Seq<LineView> {
    Seq::new(wm.len(), |r: int| wordmark_row_line(wm, r, spacing, width, phase, active))
}

/// `v` held to the range of a color channel.
fn to_channel(v: i16) -> (c: u8)
    ensures
        c == channel(v as int),
{
    if v < 0 {
        0
    } else if v > 255 {
        255
    } else {
        v as u8
    }
}

/// The base shade of a row at `edge_distance` rows from the nearest edge.
fn band(edge_distance: usize) -> (t: (u8, u8, u8))
    ensures
        t == band_tone(edge_distance as int),
{
    if edge_distance == 0 {
        (202, 207, 212)
    } else if edge_distance == 1 {
        (194, 200, 205)
    } else if edge_distance == 2 {
        (186, 192, 198)
    } else {
        (194, 200, 205)
    }
}

/// The color of a wordmark character; see `cell_color`.
fn wordmark_cell_color(r: usize, rows: usize, x: usize, center: isize, active: bool, ch: char) -> (c: Color)
    requires
        r < rows,
        x + 3 * rows + 64 <= isize::MAX,
        -18 <= center <= isize::MAX / 2,
    ensures
        c == cell_color(r as int, rows as int, x as int, center as int, active, ch),
{
    let edge_distance = if r < rows - r - 1 { r } else { rows - r - 1 };
    let (red, green, blue) = band(edge_distance);
    let brushed_tone: i16 = if (x + r * 3) % 7 == 0 { -1 } else { 0 };
    let diff: isize = x as isize - center;
    let sweep_distance: usize = if diff < 0 { (0 - diff) as usize } else { diff as usize };
    let sweep_tone: usize = if active {
        // At most 10 columns close, so the product cannot overflow.
        let closeness = LANDING_SWEEP_HALF_WIDTH.saturating_sub(sweep_distance);
        closeness * 20 / LANDING_SWEEP_HALF_WIDTH
    } else {
        0
    };
    let luminance = to_channel(red as i16 + brushed_tone + sweep_tone as i16);
    let luminance_delta: i16 = luminance as i16 - red as i16;
    let scan_crosses_notch = active && sweep_distance <= 1 && brushed_tone < 0 && ch != ' ';
    if scan_crosses_notch {
        Color::Rgb(luminance, luminance.saturating_sub(8), luminance.saturating_sub(22))
    } else {
        Color::Rgb(
            luminance,
            to_channel(green as i16 + luminance_delta),
            to_channel(blue as i16 + luminance_delta),
        )
    }
}


/// Column counts before glyph `i` never exceed those before a later glyph.
proof fn lemma_chars_before_mono(row: Seq<Seq<char>>, i: int, n: int)
    requires
        0 <= i <= n <= row.len(),
    ensures
        chars_before(row, i) <= chars_before(row, n),
    decreases n - i,
{
    if i < n {
        lemma_chars_before_mono(row, i, n - 1);
    }
}

/// The width of the first row of a wordmark: its glyphs and the spacing between them.
fn measure_wordmark(wordmark: &Vec<Vec<&'static str>>, letter_spacing: &str) -> (w: usize)
    requires
        wordmark_fits(wordmark_view(wordmark@), letter_spacing@),
    ensures
        w as nat == wordmark_width(wordmark_view(wordmark@), letter_spacing@),
        wordmark@.len() > 0 ==> w <= 3 * row_extent(wordmark_view(wordmark@)[0], letter_spacing@),
{
    let ghost wm = wordmark_view(wordmark@);
    if wordmark.len() == 0 {
        return 0;
    }
    let row = &wordmark[0];
    let ghost rv = wm[0];
    assert(rv == row@.map_values(|g: &'static str| g@));
    assert(255 * (3 * row_extent(rv, letter_spacing@) + 3 * wm.len() + 64) <= isize::MAX);
    proof {
        lemma_chars_before_mono(rv, 0, rv.len() as int);
    }
    let mut total: usize = 0;
    let mut i: usize = 0;
    while i < row.len()
        invariant
            rv == row@.map_values(|g: &'static str| g@),
            i <= row@.len(),
            total as nat == glyphs_width(rv.take(i as int)),
            total <= 3 * chars_before(rv, i as int),
            chars_before(rv, rv.len() as int) <= row_extent(rv, letter_spacing@),
            255 * (3 * row_extent(rv, letter_spacing@) + 3 * wm.len() + 64) <= isize::MAX,
        decreases row@.len() - i,
    {
        proof {
            lemma_chars_before_mono(rv, i + 1, rv.len() as int);
        }
        let gw = display_width(row[i]);
        assert(rv.take(i + 1).drop_last() =~= rv.take(i as int));
        total = total + gw;
        i = i + 1;
    }
    assert(rv.take(i as int) =~= rv);
    let sw = display_width(letter_spacing);
    let gaps: usize = if row.len() >= 1 { row.len() - 1 } else { 0 };
    proof {
        let n = rv.len();
        let sl = letter_spacing@.len();
        assert(sw * gaps <= 3 * n * sl) by (nonlinear_arith)
            requires
                sw <= 3 * sl,
                gaps <= n,
        ;
    }
    total + sw * gaps
}

/// The spans of row `r` of a wordmark: each glyph's characters in their
/// colors, glyphs separated by the spacing.
fn wordmark_row(
    wordmark: &Vec<Vec<&'static str>>,
    r: usize,
    letter_spacing: &str,
    sw: usize,
    center: isize,
    active: bool,
) -> (spans: Vec<Span>)
    requires
        r < wordmark@.len(),
        wordmark_fits(wordmark_view(wordmark@), letter_spacing@),
        sw as nat == unicode_str_width(letter_spacing@),
        sw <= 3 * letter_spacing@.len(),
        -18 <= center <= isize::MAX / 2,
    ensures
        span_views(spans@) == row_spans(
            wordmark@.len() as int,
            r as int,
            wordmark_view(wordmark@)[r as int],
            wordmark_view(wordmark@)[r as int].len() as int,
            letter_spacing@,
            sw as nat,
            center as int,
            active,
        ),
{
    let ghost wm = wordmark_view(wordmark@);
    let ghost rows = wordmark@.len() as int;
    let row = &wordmark[r];
    let ghost rv = wm[r as int];
    assert(rv == row@.map_values(|g: &'static str| g@));
    assert(255 * (3 * row_extent(rv, letter_spacing@) + 3 * wm.len() + 64) <= isize::MAX);
    let ghost ext = row_extent(rv, letter_spacing@);
    let n = row.len();
    let mut spans: Vec<Span> = Vec::new();
    let mut x: usize = 0;
    let mut li: usize = 0;
    while li < n
        invariant
            rv == row@.map_values(|g: &'static str| g@),
            n == row@.len(),
            r < wordmark@.len(),
            rows == wordmark@.len(),
            li <= n,
            ext == row_extent(rv, letter_spacing@),
            255 * (3 * ext + 3 * rows + 64) <= isize::MAX,
            sw <= 3 * letter_spacing@.len(),
            -18 <= center <= isize::MAX / 2,
            li == 0 ==> x == 0,
            li > 0 ==> x + sw == glyph_x(rv, li as int, sw as nat),
            span_views(spans@) == row_spans(rows, r as int, rv, li as int, letter_spacing@, sw as nat, center as int, active),
        decreases n - li,
    {
        let ghost before = span_views(spans@);
        proof {
            lemma_chars_before_mono(rv, li + 1, n as int);
            let cb = chars_before(rv, li as int);
            let cb1 = chars_before(rv, li + 1);
            let sl = letter_spacing@.len();
            assert(li * sw <= n * (3 * sl)) by (nonlinear_arith)
                requires
                    li <= n,
                    sw <= 3 * sl,
            ;
            assert((li + 1) * sw == li * sw + sw) by (nonlinear_arith);
            assert(n * (3 * sl) == 3 * n * sl) by (nonlinear_arith);
            assert(chars_before(rv, n as int) + 3 * n * sl == ext);
        }
        if li > 0 {
            let gap = Span::styled_str(letter_spacing, Style::new());
            let ghost gv = gap@;
            spans.push(gap);
            assert(span_views(spans@) =~= before.push(gv));
            x = x + sw;
        }
        let ghost prefix: Seq<SpanView> = if li > 0 {
            seq![span_of(letter_spacing@, Style::plain())]
        } else {
            seq![]
        };
        let ghost x0 = glyph_x(rv, li as int, sw as nat);
        proof {
            if li == 0 {
                assert(0 * (sw as int) == 0) by (nonlinear_arith);
                assert(chars_before(rv, 0) == 0);
            }
            assert(rv.len() == n);
            assert(rv[li as int] == row@[li as int]@);
            assert(chars_before(rv, li + 1) == chars_before(rv, li as int) + rv[li as int].len());
        }
        assert(x == x0);
        assert(span_views(spans@) =~= before + prefix);
        let glyph = chars_of(row[li]);
        let gl = glyph.len();
        let ghost gs = glyph_spans(rows, r as int, rv[li as int], x0, center as int, active);
        let mut j: usize = 0;
        while j < gl
            invariant
                li < rv.len(),
                glyph@ == rv[li as int],
                gl == glyph@.len(),
                j <= gl,
                r < rows,
                rows == wordmark@.len(),
                x == x0 + j,
                x0 + gl <= ext,
                255 * (3 * ext + 3 * rows + 64) <= isize::MAX,
                -18 <= center <= isize::MAX / 2,
                gs == glyph_spans(rows, r as int, rv[li as int], x0, center as int, active),
                span_views(spans@) =~= before + prefix + gs.take(j as int),
            decreases gl - j,
        {
            let ch = glyph[j];
            let color = wordmark_cell_color(r, wordmark.len(), x, center, active, ch);
            let mut text = String::new();
            push_char(&mut text, ch);
            assert(text@ =~= seq![ch]);
            let cell = Span::styled(text, Style::new().fg(color).bold());
            let ghost cv = cell@;
            let ghost mid = span_views(spans@);
            spans.push(cell);
            assert(span_views(spans@) =~= mid.push(cv));
            assert(gs.take(j + 1) =~= gs.take(j as int).push(gs[j as int]));
            x = x + 1;
            j = j + 1;
        }
        assert(gs.take(gl as int) =~= gs);
        assert(letter_spans(rows, r as int, rv, li as int, letter_spacing@, sw as nat, center as int, active) =~= prefix + gs);
        assert(span_views(spans@) =~= row_spans(rows, r as int, rv, li + 1, letter_spacing@, sw as nat, center as int, active));
        li = li + 1;
    }
    spans
}

impl SessionHeaderHistoryCell {
    /// The rows of a block-letter wordmark drawn `width` columns wide in frame
    /// `motion_phase` of the animation: each row's characters in their
    /// brushed-metal colors (with the sweeping highlight where
    /// `motion_active`), glyphs separated by `letter_spacing`, the row centred
    /// and its trailing white space removed.
    pub fn landing_wordmark_lines(
        wordmark: &Vec<Vec<&'static str>>,
        letter_spacing: &str,
        width: usize,
        motion_phase: u8,
        motion_active: bool,
    ) -> (r: Vec<Line>)
        requires
            wordmark_fits(wordmark_view(wordmark@), letter_spacing@),
        ensures
            line_views(r@) == wordmark_lines(
                wordmark_view(wordmark@),
                letter_spacing@,
                width,
                motion_phase,
                motion_active,
            ),
    {
        let ghost wm = wordmark_view(wordmark@);
        let mark_width = measure_wordmark(wordmark, letter_spacing);
        assert(wordmark@.len() > 0 ==> 255 * (3 * row_extent(wm[0], letter_spacing@) + 3 * wm.len() + 64)
            <= isize::MAX);
        assert(mark_width <= isize::MAX / 255);
        let sweep_travel = mark_width + 2 * (LANDING_SWEEP_HALF_WIDTH + LANDING_SWEEP_MARGIN);
        let sweep_period: usize = 20;
        proof {
            assert((motion_phase as usize) * sweep_travel <= 255 * sweep_travel) by (nonlinear_arith)
                requires
                    motion_phase <= 255,
            ;
        }
        let travelled = (motion_phase as usize) * sweep_travel;
        let center: isize = (travelled / sweep_period) as isize - 18;
        let sw = display_width(letter_spacing);
        let ghost target = wordmark_lines(wm, letter_spacing@, width, motion_phase, motion_active);
        let mut out: Vec<Line> = Vec::new();
        let mut r: usize = 0;
        while r < wordmark.len()
            invariant
                r <= wordmark@.len(),
                wm == wordmark_view(wordmark@),
                wordmark_fits(wm, letter_spacing@),
                sw as nat == unicode_str_width(letter_spacing@),
                sw <= 3 * letter_spacing@.len(),
                -18 <= center <= isize::MAX / 2,
                center as int == sweep_center(wordmark_width(wm, letter_spacing@), motion_phase),
                target == wordmark_lines(wm, letter_spacing@, width, motion_phase, motion_active),
                line_views(out@) =~= target.take(r as int),
            decreases wordmark@.len() - r,
        {
            let spans = wordmark_row(wordmark, r, letter_spacing, sw, center, motion_active);
            let line = Self::centered_line(Line::from_spans(spans), width);
            let line = trim_line_tail(line);
            let ghost before = line_views(out@);
            out.push(line);
            assert(line_views(out@) =~= before.push(line@));
            assert(target.take(r + 1) =~= target.take(r as int).push(target[r as int]));
            r = r + 1;
        }
        assert(target.take(r as int) =~= target);
        out
    }
}

/// Without the highlight, the spans of a row do not depend on where the
/// highlight would be.
proof fn lemma_still_row_spans(
    rows: int,
    r: int,
    row: Seq<Seq<char>>,
    n: int,
    spacing: Seq<char>,
    sw: nat,
    c1: int,
    c2: int,
)
    ensures
        row_spans(rows, r, row, n, spacing, sw, c1, false) == row_spans(rows, r, row, n, spacing, sw, c2, false),
    decreases n,
{
    if n > 0 {
        lemma_still_row_spans(rows, r, row, n - 1, spacing, sw, c1, c2);
        let x0 = glyph_x(row, n - 1, sw);
        assert(glyph_spans(rows, r, row[n - 1], x0, c1, false) =~= glyph_spans(rows, r, row[n - 1], x0, c2, false));
    }
}

/// A wordmark that does not animate looks the same in every frame: the
/// shading is tied to each character's column, not to time.
pub proof fn law_still_wordmark_is_steady(
    wm: Seq<Seq<Seq<char>>>,
    spacing: Seq<char>,
    width: usize,
    p1: u8,
    p2: u8,
)
    ensures
        wordmark_lines(wm, spacing, width, p1, false) == wordmark_lines(wm, spacing, width, p2, false),
{
    let sw = unicode_str_width(spacing);
    let c1 = sweep_center(wordmark_width(wm, spacing), p1);
    let c2 = sweep_center(wordmark_width(wm, spacing), p2);
    assert forall|r: int| 0 <= r < wm.len() implies wordmark_row_line(wm, r, spacing, width, p1, false)
        == wordmark_row_line(wm, r, spacing, width, p2, false) by {
        lemma_still_row_spans(wm.len() as int, r, wm[r], wm[r].len() as int, spacing, sw, c1, c2);
    }
    assert(wordmark_lines(wm, spacing, width, p1, false) =~= wordmark_lines(wm, spacing, width, p2, false));
}


/// The column of the last character of a row whose glyphs are separated by
/// `sw` columns of spacing.
pub open spec fn last_column(row: Seq<Seq<char>>, sw: nat) -> int {
    chars_before(row, row.len() as int) + (row.len() - 1) * sw - 1
}

/// The highlight centred on column `center` stays at least 10 columns away
/// from every character of the wordmark: it lies wholly before the first
/// column or wholly after the last column of every row.
pub open spec fn highlight_clear(wm: Seq<Seq<Seq<char>>>, sw: nat, center: int) -> bool {
    ||| center <= -10
    ||| forall|r: int| 0 <= r < wm.len() ==> center >= last_column(#[trigger] wm[r], sw) + 10
}

/// With the highlight 10 or more columns from every character of a row,
/// the first `n` glyphs of the row are drawn as they are without it.
proof fn lemma_clear_row_spans(
    rows: int,
    r: int,
    row: Seq<Seq<char>>,
    n: int,
    spacing: Seq<char>,
    sw: nat,
    center: int,
)
    requires
        0 <= n <= row.len(),
        center <= -10 || center >= last_column(row, sw) + 10,
    ensures
        row_spans(rows, r, row, n, spacing, sw, center, true) == row_spans(rows, r, row, n, spacing, sw, center, false),
    decreases n,
{
    if n > 0 {
        lemma_clear_row_spans(rows, r, row, n - 1, spacing, sw, center);
        let li = n - 1;
        let x0 = glyph_x(row, li, sw);
        let len = row.len() as int;
        lemma_chars_before_mono(row, n, len);
        assert(li * sw <= (len - 1) * sw) by (nonlinear_arith)
            requires
                li <= len - 1,
        ;
        assert(li * sw >= 0) by (nonlinear_arith)
            requires
                li >= 0,
        ;
        assert(chars_before(row, n) == chars_before(row, li) + row[li].len());
        assert(glyph_spans(rows, r, row[li], x0, center, true) =~= glyph_spans(rows, r, row[li], x0, center, false))
            by {
            assert forall|j: int| 0 <= j < row[li].len() implies cell_color(
                r,
                rows,
                x0 + j,
                center,
                true,
                #[trigger] row[li][j],
            ) == cell_color(r, rows, x0 + j, center, false, row[li][j]) by {
                assert(0 <= x0 + j <= last_column(row, sw));
            }
        }
    }
}

/// A frame whose highlight lies 10 or more columns away from every character
/// of the wordmark (before the sweep enters the mark, or after it has left)
/// draws the mark exactly as a still frame does.
pub proof fn law_clear_highlight_is_still(wm: Seq<Seq<Seq<char>>>, spacing: Seq<char>, width: usize, phase: u8)
    requires
        highlight_clear(
            wm,
            unicode_str_width(spacing),
            sweep_center(wordmark_width(wm, spacing), phase),
        ),
    ensures
        wordmark_lines(wm, spacing, width, phase, true) == wordmark_lines(wm, spacing, width, phase, false),
{
    let sw = unicode_str_width(spacing);
    let c = sweep_center(wordmark_width(wm, spacing), phase);
    assert forall|r: int| 0 <= r < wm.len() implies wordmark_row_line(wm, r, spacing, width, phase, true)
        == wordmark_row_line(wm, r, spacing, width, phase, false) by {
        lemma_clear_row_spans(wm.len() as int, r, wm[r], wm[r].len() as int, spacing, sw, c);
    }
    assert(wordmark_lines(wm, spacing, width, phase, true) =~= wordmark_lines(wm, spacing, width, phase, false));
}

/// The first frame of the sweep draws the still mark: the highlight starts
/// 18 columns before the mark, whatever its width.
pub proof fn law_first_frame_is_still(wm: Seq<Seq<Seq<char>>>, spacing: Seq<char>, width: usize)
    ensures
        wordmark_lines(wm, spacing, width, 0, true) == wordmark_lines(wm, spacing, width, 0, false),
{
    assert(sweep_center(wordmark_width(wm, spacing), 0) == -18);
    law_clear_highlight_is_still(wm, spacing, width, 0);
}

} // verus!
