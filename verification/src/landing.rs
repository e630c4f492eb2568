//! The session header as the landing screen: the wordmark, the plan and
//! mode index, the key hints, all inside a framed stage centred in the
//! terminal.

use vstd::prelude::*;
use crate::border::{framed_row, framed_row_width, frame_row, max_usize};
use crate::card::{card_lines, centered, padded, pad_right, push_span};
use crate::line_truncation::{ellipsized_line, truncate_line_with_ellipsis_if_overflow};
use crate::session_header::{opt_string_view, SessionHeaderHistoryCell, LANDING_MOTION_PERIOD};
use crate::text::{
    clamp_usize, line_of, line_views, line_width, push_char, repeat_char, repeated, span_of, span_views,
    spaces, text_line, Color, Line, LineView, Span, SpanView, Style,
};
use crate::width::{display_width, unicode_str_width};
use crate::wordmark::{
    chars_before, law_still_wordmark_is_steady, row_extent, wordmark_fits, wordmark_lines,
    wordmark_view,
};

verus! {

/// Frames at least this wide show the wide wordmark.
pub const LANDING_WIDE_MIN_WIDTH: usize = 52;

/// Frames at least this wide, and narrower than the wide minimum, show the medium wordmark.
pub const LANDING_MEDIUM_MIN_WIDTH: usize = 36;

/// The widest the inside of the landing frame gets.
pub const LANDING_FRAME_MAX_INNER_WIDTH: usize = 104;

/// The wide wordmark: eight rows of five glyphs.
pub open spec fn wide_wordmark() -> Seq<Seq<Seq<char>>> {
    seq![
        seq!["████████"@, "████████"@, "██████  "@, "████████"@, "██    ██"@],
        seq!["████████"@, "████████"@, "████████"@, "████████"@, "██    ██"@],
        seq!["██      "@, "██    ██"@, "██    ██"@, "██      "@, "  ████  "@],
        seq!["██      "@, "██    ██"@, "██    ██"@, "██████  "@, "   ██   "@],
        seq!["██      "@, "██    ██"@, "██    ██"@, "██████  "@, "   ██   "@],
        seq!["██      "@, "██    ██"@, "██    ██"@, "██      "@, "  ████  "@],
        seq!["████████"@, "████████"@, "████████"@, "████████"@, "██    ██"@],
        seq!["████████"@, "████████"@, "██████  "@, "████████"@, "██    ██"@],
    ]
}

/// The medium wordmark: seven rows of five glyphs.
pub open spec fn medium_wordmark() -> Seq<Seq<Seq<char>>> {
    seq![
        seq!["██████"@, "██████"@, "████  "@, "██████"@, "██  ██"@],
        seq!["██████"@, "██████"@, "██████"@, "██████"@, "██  ██"@],
        seq!["██    "@, "██  ██"@, "██  ██"@, "██    "@, " ████ "@],
        seq!["██    "@, "██  ██"@, "██  ██"@, "█████ "@, "  ██  "@],
        seq!["██    "@, "██  ██"@, "██  ██"@, "██    "@, " ████ "@],
        seq!["██████"@, "██████"@, "██████"@, "██████"@, "██  ██"@],
        seq!["██████"@, "██████"@, "████  "@, "██████"@, "██  ██"@],
    ]
}

/// Every row of a wordmark has `n` glyphs of at most `g` characters.
pub open spec fn wordmark_bounded(wm: Seq<Seq<Seq<char>>>, n: int, g: int) -> bool {
    forall|r: int, i: int|
        0 <= r < wm.len() && 0 <= i < n ==> wm[r].len() == n && (#[trigger] wm[r][i]).len() <= g
}

/// A wordmark with bounded rows and glyphs is small enough to draw.
proof fn lemma_bounded_wordmark_fits(wm: Seq<Seq<Seq<char>>>, spacing: Seq<char>)
    requires
        wm.len() <= 8,
        spacing.len() <= 2,
        wordmark_bounded(wm, 5, 8),
    ensures
        wordmark_fits(wm, spacing),
{
    assert forall|r: int| 0 <= r < wm.len() implies 255 * (3 * row_extent(#[trigger] wm[r], spacing)
        + 3 * wm.len() + 64) <= isize::MAX by {
        let row = wm[r];
        assert(wm[r][0].len() <= 8);
        assert(row.len() == 5);
        assert(row[0].len() <= 8 && row[1].len() <= 8 && row[2].len() <= 8 && row[3].len() <= 8
            && row[4].len() <= 8);
        reveal_with_fuel(chars_before, 6);
        assert(chars_before(row, 5) <= 40);
        assert(3 * 5 * spacing.len() <= 30);
    }
}

/// The rows of glyphs of a wordmark as a vector.
fn glyph_row(a: &'static str, b: &'static str, c: &'static str, d: &'static str, e: &'static str) -> (v: Vec<&'static str>)
    ensures
        v@.map_values(|g: &'static str| g@) == seq![a@, b@, c@, d@, e@],
{
    let mut v: Vec<&'static str> = Vec::new();
    v.push(a);
    v.push(b);
    v.push(c);
    v.push(d);
    v.push(e);
    assert(v@.map_values(|g: &'static str| g@) =~= seq![a@, b@, c@, d@, e@]);
    v
}

/// Appends a row of glyphs to a wordmark.
fn push_row(wm: &mut Vec<Vec<&'static str>>, row: Vec<&'static str>)
    ensures
        wordmark_view(final(wm)@) == wordmark_view(old(wm)@).push(row@.map_values(|g: &'static str| g@)),
{
    let ghost before = wordmark_view(wm@);
    let ghost rv = row@.map_values(|g: &'static str| g@);
    wm.push(row);
    assert(wordmark_view(wm@) =~= before.push(rv));
}

/// The wide wordmark.
pub fn landing_wordmark_wide() -> (wm: Vec<Vec<&'static str>>)
    ensures
        wordmark_view(wm@) == wide_wordmark(),
{
    let mut wm: Vec<Vec<&'static str>> = Vec::new();
    push_row(&mut wm, glyph_row("████████", "████████", "██████  ", "████████", "██    ██"));
    push_row(&mut wm, glyph_row("████████", "████████", "████████", "████████", "██    ██"));
    push_row(&mut wm, glyph_row("██      ", "██    ██", "██    ██", "██      ", "  ████  "));
    push_row(&mut wm, glyph_row("██      ", "██    ██", "██    ██", "██████  ", "   ██   "));
    push_row(&mut wm, glyph_row("██      ", "██    ██", "██    ██", "██████  ", "   ██   "));
    push_row(&mut wm, glyph_row("██      ", "██    ██", "██    ██", "██      ", "  ████  "));
    push_row(&mut wm, glyph_row("████████", "████████", "████████", "████████", "██    ██"));
    push_row(&mut wm, glyph_row("████████", "████████", "██████  ", "████████", "██    ██"));
    assert(wordmark_view(wm@) =~= wide_wordmark());
    wm
}

/// The medium wordmark.
pub fn landing_wordmark_medium() -> (wm: Vec<Vec<&'static str>>)
    ensures
        wordmark_view(wm@) == medium_wordmark(),
{
    let mut wm: Vec<Vec<&'static str>> = Vec::new();
    push_row(&mut wm, glyph_row("██████", "██████", "████  ", "██████", "██  ██"));
    push_row(&mut wm, glyph_row("██████", "██████", "██████", "██████", "██  ██"));
    push_row(&mut wm, glyph_row("██    ", "██  ██", "██  ██", "██    ", " ████ "));
    push_row(&mut wm, glyph_row("██    ", "██  ██", "██  ██", "█████ ", "  ██  "));
    push_row(&mut wm, glyph_row("██    ", "██  ██", "██  ██", "██    ", " ████ "));
    push_row(&mut wm, glyph_row("██████", "██████", "██████", "██████", "██  ██"));
    push_row(&mut wm, glyph_row("██████", "██████", "████  ", "██████", "██  ██"));
    assert(wordmark_view(wm@) =~= medium_wordmark());
    wm
}

/// Both wordmarks are small enough to draw with their letter spacing.
proof fn lemma_wordmarks_fit()
    ensures
        wordmark_fits(wide_wordmark(), "  "@),
        wordmark_fits(medium_wordmark(), " "@),
{
    reveal_strlit("████████");
    reveal_strlit("██████  ");
    reveal_strlit("██    ██");
    reveal_strlit("██      ");
    reveal_strlit("  ████  ");
    reveal_strlit("   ██   ");
    reveal_strlit("██████");
    reveal_strlit("████  ");
    reveal_strlit("██  ██");
    reveal_strlit("██    ");
    reveal_strlit(" ████ ");
    reveal_strlit("█████ ");
    reveal_strlit("  ██  ");
    reveal_strlit("  ");
    reveal_strlit(" ");
    assert(wordmark_bounded(wide_wordmark(), 5, 8));
    assert(wordmark_bounded(medium_wordmark(), 5, 8));
    lemma_bounded_wordmark_fits(wide_wordmark(), "  "@);
    lemma_bounded_wordmark_fits(medium_wordmark(), " "@);
}


/// The bright silver of the landing screen's text.
pub open spec fn silver_bright() -> Color {
    Color::Rgb(232, 236, 239)
}

/// The muted silver of the key hints.
pub open spec fn silver_muted() -> Color {
    Color::Rgb(126, 136, 145)
}

/// The dark gold of the markers and keys.
pub open spec fn dark_gold() -> Color {
    Color::Rgb(150, 125, 76)
}

/// The color of the frame.
pub open spec fn frame_color() -> Color {
    Color::Rgb(76, 86, 95)
}

/// The bold dark-gold style of markers and keys.
pub open spec fn gold_style() -> Style {
    Style::plain().fg_spec(dark_gold()).bold_spec()
}

/// The style of the frame.
pub open spec fn frame_style() -> Style {
    Style::plain().fg_spec(frame_color())
}

/// `a - b`, or 0 where `b` is larger.
pub open spec fn sat_sub(a: usize, b: usize) -> usize {
    if a >= b {
        (a - b) as usize
    } else {
        0
    }
}

/// The smaller of two widths.
pub open spec fn min_usize(a: usize, b: usize) -> usize {
    if a <= b {
        a
    } else {
        b
    }
}

/// The widths of the three forms of the key hints: all keys (40 columns),
/// commands and shortcuts (25), shortcuts only (11).
pub open spec fn wide_hints_width() -> usize {
    40
}

/// See `wide_hints_width`.
pub open spec fn compact_hints_width() -> usize {
    25
}

/// See `wide_hints_width`.
pub open spec fn short_hints_width() -> usize {
    11
}

/// The width the inside of the frame would like: four columns of gutter on
/// each side beyond the frame's own four, and no more than the maximum.
pub open spec fn preferred_inner_width(width: usize) -> usize {
    min_usize(sat_sub(width, 8), LANDING_FRAME_MAX_INNER_WIDTH)
}

/// The inner width of the landing frame in a terminal `width` columns wide:
/// the preferred width, widened to fit the widest form of the key hints that
/// the terminal has room for.
pub open spec fn frame_inner_width(width: usize) -> usize {
    let preferred = preferred_inner_width(width);
    let available = min_usize(sat_sub(width, 4), LANDING_FRAME_MAX_INNER_WIDTH);
    if available >= wide_hints_width() {
        max_usize(preferred, wide_hints_width())
    } else if available >= compact_hints_width() {
        max_usize(preferred, compact_hints_width())
    } else if available >= short_hints_width() {
        max_usize(preferred, short_hints_width())
    } else {
        preferred
    }
}

/// Whether the wordmark's highlight moves: when motion is enabled or a frame is held.
pub open spec fn motion_active(h: &SessionHeaderHistoryCell) -> bool {
    h.landing_motion_enabled() || h.landing_motion_phase_override() is Some
}

/// The wordmark part of the landing screen, followed by an empty line: the
/// wide or medium block letters where the frame is wide enough, and
/// otherwise the name in bright silver letters, spaced out where there is room.
pub open spec fn wordmark_section(h: &SessionHeaderHistoryCell, fi: usize, phase: u8) -> Seq<LineView> {
    if fi >= LANDING_WIDE_MIN_WIDTH {
        wordmark_lines(wide_wordmark(), "  "@, fi, phase, motion_active(h)).push(line_of(seq![]))
    } else if fi >= LANDING_MEDIUM_MIN_WIDTH {
        wordmark_lines(medium_wordmark(), " "@, fi, phase, motion_active(h)).push(line_of(seq![]))
    } else {
        let text = if fi >= 9 {
            "C O D E X"@
        } else {
            "CODEX"@
        };
        let styled = LineView { style: Style::plain().fg_spec(silver_bright()).bold_spec(), ..text_line(text) };
        seq![centered(ellipsized_line(styled, fi as nat), fi), line_of(seq![])]
    }
}

/// The entries of the index: the plan where one is shown, and the mode in "YOLO" mode.
pub open spec fn index_entries(h: &SessionHeaderHistoryCell) -> Seq<(Seq<char>, Seq<char>)> {
    (match h.landing_plan_view() {
        Some(p) => seq![("PLAN"@, p)],
        None => seq![],
    }) + (if h.yolo_mode() {
        seq![("MODE"@, "YOLO"@)]
    } else {
        seq![]
    })
}

/// The width of an index entry with value `v`: the label column and the value.
pub open spec fn index_entry_width(v: Seq<char>) -> usize {
    clamp_usize(12 + unicode_str_width(v))
}

/// The width of the widest index entry, 0 for none.
pub open spec fn index_width(entries: Seq<(Seq<char>, Seq<char>)>) -> usize
    decreases entries.len(),
{
    if entries.len() == 0 {
        0
    } else {
        max_usize(index_width(entries.drop_last()), index_entry_width(entries.last().1))
    }
}

/// An index row: the label in gold after a section sign, then the value in
/// silver, moved right by `pad` columns and cut with an ellipsis to `fi` columns.
pub open spec fn index_row(label: Seq<char>, value: Seq<char>, pad: usize, fi: usize) -> LineView {
    ellipsized_line(
        line_of(
            seq![
                span_of(repeated(' ', pad as nat), Style::plain()),
                span_of("§ "@ + padded(label, 4), gold_style()),
                span_of("      "@, Style::plain()),
                span_of(value, Style::plain().fg_spec(silver_bright())),
            ],
        ),
        fi as nat,
    )
}

/// The index rows, all moved right by the same amount so that the widest is
/// centred; there are none in frames narrower than 20 columns.
pub open spec fn index_rows(h: &SessionHeaderHistoryCell, fi: usize) -> Seq<LineView> {
    if fi >= 20 {
        let entries = index_entries(h);
        let pad = (sat_sub(fi, index_width(entries)) / 2) as usize;
        entries.map_values(|e: (Seq<char>, Seq<char>)| index_row(e.0, e.1, pad, fi))
    } else {
        seq![]
    }
}

/// The spans of the key hints that fit in a frame `fi` wide.
pub open spec fn hint_spans(fi: usize) -> Seq<SpanView> {
    let muted = Style::plain().fg_spec(silver_muted());
    if fi >= wide_hints_width() {
        seq![
            span_of("/"@, gold_style()),
            span_of(" commands"@, muted),
            span_of("      "@, Style::plain()),
            span_of("@"@, gold_style()),
            span_of(" files"@, muted),
            span_of("      "@, Style::plain()),
            span_of("?"@, gold_style()),
            span_of(" shortcuts"@, muted),
        ]
    } else if fi >= compact_hints_width() {
        seq![
            span_of("/"@, gold_style()),
            span_of(" commands"@, muted),
            span_of("    "@, Style::plain()),
            span_of("?"@, gold_style()),
            span_of(" shortcuts"@, muted),
        ]
    } else {
        seq![span_of("?"@, gold_style()), span_of(" shortcuts"@, muted)]
    }
}

/// The lines inside the landing frame: an empty line, the wordmark section,
/// the index rows, and the centred key hints between empty lines.
pub open spec fn landing_body(h: &SessionHeaderHistoryCell, fi: usize, phase: u8) -> Seq<LineView> {
    seq![line_of(seq![])] + wordmark_section(h, fi, phase) + index_rows(h, fi) + seq![
        line_of(seq![]),
        centered(ellipsized_line(line_of(hint_spans(fi)), fi as nat), fi),
        line_of(seq![]),
    ]
}

/// The marker set into the top edge of the frame.
pub open spec fn frame_marker() -> Seq<char> {
    "§ CODEX"@
}

/// The frame has room for the marker and the notched corners.
pub open spec fn frame_has_marker(fi: usize) -> bool {
    fi + 4 >= unicode_str_width(frame_marker()) + 11
}

/// The top edge of the landing frame: with the marker set in between two
/// notches where there is room, a plain rounded edge otherwise.
pub open spec fn landing_top(fi: usize) -> LineView {
    let fs = frame_style();
    let fw = (fi + 4) as usize;
    if frame_has_marker(fi) {
        let used = (2 + 2 + unicode_str_width(frame_marker()) + 1) as usize;
        line_of(
            seq![
                span_of("╭─"@, fs),
                span_of("┬ "@, fs),
                span_of(frame_marker(), gold_style()),
                span_of(" "@, fs),
                span_of(repeated('─', sat_sub(fw, (used + 2) as usize) as nat), fs),
                span_of("┬╮"@, fs),
            ],
        )
    } else {
        line_of(
            seq![
                span_of("╭─"@, fs),
                span_of(repeated('─', sat_sub((fi + 2) as usize, 1) as nat), fs),
                span_of("╮"@, fs),
            ],
        )
    }
}

/// The bottom edge of the landing frame, notched below the top's notches.
pub open spec fn landing_bottom(fi: usize) -> LineView {
    let fs = frame_style();
    let fw = (fi + 4) as usize;
    if frame_has_marker(fi) {
        line_of(
            seq![
                span_of("╰─┴"@, fs),
                span_of(repeated('─', sat_sub(fw, 6) as nat), fs),
                span_of("┴─╯"@, fs),
            ],
        )
    } else {
        line_of(seq![span_of(seq!['╰'] + repeated('─', (fi + 2) as nat) + seq!['╯'], fs)])
    }
}

/// The landing screen `width` columns wide in frame `phase`: the body framed
/// between the top and bottom edges, every line centred in the terminal;
/// nothing where the terminal has no room for a frame.
pub open spec fn landing_lines(h: &SessionHeaderHistoryCell, width: u16, phase: u8) -> Seq<LineView> {
    let w = width as usize;
    if w == 0 || preferred_inner_width(w) == 0 {
        seq![]
    } else {
        let fi = frame_inner_width(w);
        let framed = seq![landing_top(fi)] + landing_body(h, fi, phase).map_values(
            |l: LineView| framed_row(l, fi, frame_style()),
        ) + seq![landing_bottom(fi)];
        framed.map_values(|l: LineView| centered(l, w))
    }
}


/// The inner width of the landing frame in a terminal `width` columns wide.
fn landing_frame_inner_width(width: usize) -> (fi: usize)
    ensures
        fi == frame_inner_width(width),
        fi <= LANDING_FRAME_MAX_INNER_WIDTH,
{
    let narrowed = if width >= 8 { width - 8 } else { 0 };
    let preferred = if narrowed <= LANDING_FRAME_MAX_INNER_WIDTH { narrowed } else { LANDING_FRAME_MAX_INNER_WIDTH };
    let reduced = if width >= 4 { width - 4 } else { 0 };
    let available = if reduced <= LANDING_FRAME_MAX_INNER_WIDTH { reduced } else { LANDING_FRAME_MAX_INNER_WIDTH };
    proof {
        reveal_strlit("/ commands      @ files      ? shortcuts");
        reveal_strlit("/ commands    ? shortcuts");
        reveal_strlit("? shortcuts");
    }
    let wide_hints_width = display_width("/ commands      @ files      ? shortcuts");
    let compact_hints_width = display_width("/ commands    ? shortcuts");
    let short_hints_width = display_width("? shortcuts");
    if available >= wide_hints_width {
        if preferred >= wide_hints_width { preferred } else { wide_hints_width }
    } else if available >= compact_hints_width {
        if preferred >= compact_hints_width { preferred } else { compact_hints_width }
    } else if available >= short_hints_width {
        if preferred >= short_hints_width { preferred } else { short_hints_width }
    } else {
        preferred
    }
}

/// The spans of the key hints that fit in a frame `fi` wide.
fn landing_hint_spans(fi: usize) -> (spans: Vec<Span>)
    ensures
        span_views(spans@) == hint_spans(fi),
{
    let gold = Style::new().fg(Color::Rgb(150, 125, 76)).bold();
    let muted = Style::new().fg(Color::Rgb(126, 136, 145));
    let mut spans: Vec<Span> = Vec::new();
    if fi >= 40 {
        push_span(&mut spans, Span::styled_str("/", gold));
        push_span(&mut spans, Span::styled_str(" commands", muted));
        push_span(&mut spans, Span::styled_str("      ", Style::new()));
        push_span(&mut spans, Span::styled_str("@", gold));
        push_span(&mut spans, Span::styled_str(" files", muted));
        push_span(&mut spans, Span::styled_str("      ", Style::new()));
        push_span(&mut spans, Span::styled_str("?", gold));
        push_span(&mut spans, Span::styled_str(" shortcuts", muted));
    } else if fi >= 25 {
        push_span(&mut spans, Span::styled_str("/", gold));
        push_span(&mut spans, Span::styled_str(" commands", muted));
        push_span(&mut spans, Span::styled_str("    ", Style::new()));
        push_span(&mut spans, Span::styled_str("?", gold));
        push_span(&mut spans, Span::styled_str(" shortcuts", muted));
    } else {
        push_span(&mut spans, Span::styled_str("?", gold));
        push_span(&mut spans, Span::styled_str(" shortcuts", muted));
    }
    assert(span_views(spans@) =~= hint_spans(fi));
    spans
}

/// Appends the lines of `more` to `lines`.
fn append_lines(lines: &mut Vec<Line>, more: Vec<Line>)
    ensures
        line_views(final(lines)@) == line_views(old(lines)@) + line_views(more@),
{
    let ghost a = line_views(lines@);
    let ghost b = line_views(more@);
    let mut more = more;
    lines.append(&mut more);
    assert(line_views(lines@) =~= a + b);
}

/// Appends one line to `lines`.
fn push_line(lines: &mut Vec<Line>, l: Line)
    ensures
        final(lines)@ == old(lines)@.push(l),
        line_views(final(lines)@) == line_views(old(lines)@).push(l@),
{
    let ghost a = line_views(lines@);
    lines.push(l);
    assert(line_views(lines@) =~= a.push(l@));
}

/// The top edge of the landing frame around an inside `fi` wide.
fn landing_frame_top(fi: usize) -> (l: Line)
    requires
        fi <= LANDING_FRAME_MAX_INNER_WIDTH,
    ensures
        l@ == landing_top(fi),
{
    let fs = Style::new().fg(Color::Rgb(76, 86, 95));
    let frame_width = fi + 4;
    let border_inner_width = fi + 2;
    let marker = "§ CODEX";
    let marker_width = display_width(marker);
    proof {
        reveal_strlit("§ CODEX");
    }
    let mut top: Vec<Span> = Vec::new();
    push_span(&mut top, Span::styled_str("╭─", fs));
    if frame_width >= marker_width + 11 {
        push_span(&mut top, Span::styled_str("┬ ", fs));
        push_span(&mut top, Span::styled_str(marker, Style::new().fg(Color::Rgb(150, 125, 76)).bold()));
        push_span(&mut top, Span::styled_str(" ", fs));
        let used_width = 2 + 2 + marker_width + 1;
        let rule = if frame_width >= used_width + 2 { frame_width - (used_width + 2) } else { 0 };
        push_span(&mut top, Span::styled(repeat_char('─', rule), fs));
        push_span(&mut top, Span::styled_str("┬╮", fs));
    } else {
        let rule = if border_inner_width >= 1 { border_inner_width - 1 } else { 0 };
        push_span(&mut top, Span::styled(repeat_char('─', rule), fs));
        push_span(&mut top, Span::styled_str("╮", fs));
    }
    let l = Line::from_spans(top);
    assert(l@.spans =~= landing_top(fi).spans);
    l
}

/// The bottom edge of the landing frame around an inside `fi` wide.
fn landing_frame_bottom(fi: usize) -> (l: Line)
    requires
        fi <= LANDING_FRAME_MAX_INNER_WIDTH,
    ensures
        l@ == landing_bottom(fi),
{
    let fs = Style::new().fg(Color::Rgb(76, 86, 95));
    let frame_width = fi + 4;
    let border_inner_width = fi + 2;
    let marker_width = display_width("§ CODEX");
    proof {
        reveal_strlit("§ CODEX");
    }
    let mut bottom: Vec<Span> = Vec::new();
    if frame_width >= marker_width + 11 {
        push_span(&mut bottom, Span::styled_str("╰─┴", fs));
        let rule = if frame_width >= 6 { frame_width - 6 } else { 0 };
        push_span(&mut bottom, Span::styled(repeat_char('─', rule), fs));
        push_span(&mut bottom, Span::styled_str("┴─╯", fs));
    } else {
        let mut edge = String::new();
        push_char(&mut edge, '╰');
        let rule = repeat_char('─', border_inner_width);
        edge.append(rule.as_str());
        push_char(&mut edge, '╯');
        assert(edge@ =~= seq!['╰'] + repeated('─', border_inner_width as nat) + seq!['╯']);
        push_span(&mut bottom, Span::styled(edge, fs));
    }
    let l = Line::from_spans(bottom);
    assert(l@.spans =~= landing_bottom(fi).spans);
    l
}


/// The header as displayed `width` columns wide in frame `phase`.
pub open spec fn header_lines(h: &SessionHeaderHistoryCell, width: u16, phase: u8) -> Seq<LineView> {
    if h.landing_presentation() {
        landing_lines(h, width, phase)
    } else {
        card_lines(h, width)
    }
}

/// `phase` is a frame the header can be drawn in now: the held frame, frame 0
/// when nothing moves, and otherwise a frame of the period.
pub open spec fn current_phase(h: &SessionHeaderHistoryCell, phase: u8) -> bool {
    &&& (h.landing_motion_phase_override() matches Some(p) ==> phase == p)
    &&& (h.landing_motion_phase_override() is None ==> phase < LANDING_MOTION_PERIOD)
    &&& (h.landing_motion_phase_override() is None && !h.landing_motion_enabled() ==> phase == 0)
}

/// The characters of the labels and values of index entries.
pub open spec fn entries_view(v: Seq<(&'static str, String)>) -> Seq<(Seq<char>, Seq<char>)> {
    v.map_values(|e: (&'static str, String)| (e.0@, e.1@))
}

impl SessionHeaderHistoryCell {
    /// The entries of the index, in order.
    fn landing_index_entries(&self) -> (v: Vec<(&'static str, String)>)
        ensures
            entries_view(v@) == index_entries(self),
    {
        let mut v: Vec<(&'static str, String)> = Vec::new();
        match self.landing_plan() {
            Some(plan) => {
                v.push(("PLAN", plan.to_owned()));
            },
            None => {},
        }
        let ghost first = entries_view(v@);
        if self.yolo_mode() {
            v.push(("MODE", "YOLO".to_owned()));
            assert(entries_view(v@) =~= first.push(("MODE"@, "YOLO"@)));
        }
        assert(entries_view(v@) =~= index_entries(self));
        v
    }

    /// The index rows of the landing screen in a frame `fi` wide.
    fn landing_index_rows(&self, fi: usize) -> (rows: Vec<Line>)
        ensures
            line_views(rows@) == index_rows(self, fi),
    {
        let mut rows: Vec<Line> = Vec::new();
        if fi < 20 {
            assert(line_views(rows@) =~= seq![]);
            return rows;
        }
        let entries = self.landing_index_entries();
        let ghost ev = entries_view(entries@);
        let mut index_width: usize = 0;
        let mut i: usize = 0;
        while i < entries.len()
            invariant
                i <= entries@.len(),
                ev == entries_view(entries@),
                index_width == crate::landing::index_width(ev.take(i as int)),
            decreases entries@.len() - i,
        {
            let w = display_width(entries[i].1.as_str());
            let entry_width = if w <= usize::MAX - 12 { 12 + w } else { usize::MAX };
            assert(ev.take(i + 1).drop_last() =~= ev.take(i as int));
            if entry_width > index_width {
                index_width = entry_width;
            }
            i = i + 1;
        }
        assert(ev.take(i as int) =~= ev);
        let pad = (if fi >= index_width { fi - index_width } else { 0 }) / 2;
        let gold = Style::new().fg(Color::Rgb(150, 125, 76)).bold();
        let silver = Style::new().fg(Color::Rgb(232, 236, 239));
        let ghost target = ev.map_values(|e: (Seq<char>, Seq<char>)| index_row(e.0, e.1, pad, fi));
        let mut k: usize = 0;
        while k < entries.len()
            invariant
                k <= entries@.len(),
                ev == entries_view(entries@),
                target == ev.map_values(|e: (Seq<char>, Seq<char>)| index_row(e.0, e.1, pad, fi)),
                gold == gold_style(),
                silver == Style::plain().fg_spec(silver_bright()),
                line_views(rows@) =~= target.take(k as int),
            decreases entries@.len() - k,
        {
            let (label, value) = (entries[k].0, &entries[k].1);
            let mut marker = "§ ".to_owned();
            let padded_label = pad_right(label, 4);
            marker.append(padded_label.as_str());
            let mut spans: Vec<Span> = Vec::new();
            push_span(&mut spans, Span::raw(spaces(pad)));
            push_span(&mut spans, Span::styled(marker, gold));
            push_span(&mut spans, Span::styled_str("      ", Style::new()));
            push_span(&mut spans, Span::styled(value.clone(), silver));
            let line = Line::from_spans(spans);
            assert(ev[k as int].0 == label@ && ev[k as int].1 == value@);
            assert(line@.spans =~= seq![
                span_of(repeated(' ', pad as nat), Style::plain()),
                span_of("§ "@ + padded(label@, 4), gold_style()),
                span_of("      "@, Style::plain()),
                span_of(value@, Style::plain().fg_spec(silver_bright())),
            ]);
            let line = truncate_line_with_ellipsis_if_overflow(line, fi);
            assert(line@ == index_row(ev[k as int].0, ev[k as int].1, pad, fi));
            push_line(&mut rows, line);
            assert(target.take(k + 1) =~= target.take(k as int).push(target[k as int]));
            k = k + 1;
        }
        assert(target.take(k as int) =~= target);
        rows
    }

    /// The wordmark section of the landing screen in a frame `fi` wide, in frame `phase`.
    fn landing_wordmark_section(&self, fi: usize, phase: u8) -> (lines: Vec<Line>)
        ensures
            line_views(lines@) == wordmark_section(self, fi, phase),
    {
        let active = self.landing_motion_enabled() || self.landing_motion_phase_override().is_some();
        if fi >= LANDING_WIDE_MIN_WIDTH {
            let wm = landing_wordmark_wide();
            proof {
                lemma_wordmarks_fit();
            }
            let mut lines = Self::landing_wordmark_lines(&wm, "  ", fi, phase, active);
            push_line(&mut lines, Line::empty());
            lines
        } else if fi >= LANDING_MEDIUM_MIN_WIDTH {
            let wm = landing_wordmark_medium();
            proof {
                lemma_wordmarks_fit();
            }
            let mut lines = Self::landing_wordmark_lines(&wm, " ", fi, phase, active);
            push_line(&mut lines, Line::empty());
            lines
        } else {
            let text = if fi >= 9 { "C O D E X" } else { "CODEX" };
            let styled = Line::from_text(text).with_style(Style::new().fg(Color::Rgb(232, 236, 239)).bold());
            let wordmark = truncate_line_with_ellipsis_if_overflow(styled, fi);
            let mut lines: Vec<Line> = Vec::new();
            push_line(&mut lines, Self::centered_line(wordmark, fi));
            push_line(&mut lines, Line::empty());
            lines
        }
    }

    /// The lines inside the landing frame, `fi` wide, in frame `phase`.
    fn landing_body_lines(&self, fi: usize, phase: u8) -> (lines: Vec<Line>)
        ensures
            line_views(lines@) == landing_body(self, fi, phase),
    {
        let mut lines: Vec<Line> = Vec::new();
        push_line(&mut lines, Line::empty());
        append_lines(&mut lines, self.landing_wordmark_section(fi, phase));
        append_lines(&mut lines, self.landing_index_rows(fi));
        push_line(&mut lines, Line::empty());
        let hints = truncate_line_with_ellipsis_if_overflow(Line::from_spans(landing_hint_spans(fi)), fi);
        push_line(&mut lines, Self::centered_line(hints, fi));
        push_line(&mut lines, Line::empty());
        assert(line_views(lines@) =~= landing_body(self, fi, phase));
        lines
    }

    /// The landing screen `width` columns wide, drawn in animation frame
    /// `motion_phase`: the wordmark, the plan and mode index and the key hints
    /// inside a frame with the product marker in its top edge, every line
    /// centred in the terminal; nothing where the terminal is too narrow.
    ///
    /// Every row of the frame's body whose content fits inside the frame has
    /// its side edges in the same columns: it is as wide as both edges and the
    /// inside, moved right by the same gutter.
    pub fn landing_display_lines_at(&self, width: u16, motion_phase: u8) -> (r: Vec<Line>)
        ensures
            line_views(r@) == landing_lines(self, width, motion_phase),
            forall|i: int|
                #![trigger line_width(r@[i]@)]
                1 <= i < r@.len() - 1 && line_width(
                    landing_body(self, frame_inner_width(width as usize), motion_phase)[i - 1],
                ) <= frame_inner_width(width as usize) && framed_row_width(frame_inner_width(width as usize))
                    <= width ==> line_width(r@[i]@) == framed_row_width(frame_inner_width(width as usize)) + (
                width - framed_row_width(frame_inner_width(width as usize))) / 2,
    {
        let width = width as usize;
        let narrowed = if width >= 8 { width - 8 } else { 0 };
        let preferred = if narrowed <= LANDING_FRAME_MAX_INNER_WIDTH { narrowed } else { LANDING_FRAME_MAX_INNER_WIDTH };
        if width == 0 || preferred == 0 {
            let r: Vec<Line> = Vec::new();
            assert(line_views(r@) =~= seq![]);
            return r;
        }
        let fi = landing_frame_inner_width(width);
        let body = self.landing_body_lines(fi, motion_phase);
        let fs = Style::new().fg(Color::Rgb(76, 86, 95));
        let ghost bv = line_views(body@);
        let ghost framed = seq![landing_top(fi)] + bv.map_values(|l: LineView| framed_row(l, fi, frame_style()))
            + seq![landing_bottom(fi)];
        let ghost target = framed.map_values(|l: LineView| centered(l, width));
        assert(target == landing_lines(self, width as u16, motion_phase));
        let mut out: Vec<Line> = Vec::new();
        push_line(&mut out, Self::centered_line(landing_frame_top(fi), width));
        let mut i: usize = 0;
        while i < body.len()
            invariant
                i <= body@.len(),
                bv == line_views(body@),
                fs == frame_style(),
                framed == seq![landing_top(fi)] + bv.map_values(|l: LineView| framed_row(l, fi, frame_style()))
                    + seq![landing_bottom(fi)],
                target == framed.map_values(|l: LineView| centered(l, width)),
                line_views(out@) =~= target.take(i + 1),
                out@.len() == i + 1,
                forall|j: int|
                    #![trigger line_width(out@[j]@)]
                    1 <= j <= i && line_width(bv[j - 1]) <= fi && framed_row_width(fi) <= width ==> line_width(
                        out@[j]@,
                    ) == framed_row_width(fi) + (width - framed_row_width(fi)) / 2,
            decreases body@.len() - i,
        {
            let row = frame_row(&body[i], fi, fs);
            let ghost old_out = out@;
            let c = Self::centered_line(row, width);
            let ghost cv = c@;
            push_line(&mut out, c);
            assert(forall|j: int| 0 <= j < old_out.len() ==> out@[j] == old_out[j]);
            assert(bv[i as int] == body@[i as int]@);
            assert(target.take(i + 2) =~= target.take(i + 1).push(target[i + 1]));
            i = i + 1;
        }
        let ghost old_out = out@;
        push_line(&mut out, Self::centered_line(landing_frame_bottom(fi), width));
        assert(forall|j: int| 0 <= j < old_out.len() ==> out@[j] == old_out[j]);
        assert(line_views(out@) =~= target);
        assert(bv == landing_body(self, frame_inner_width(width), motion_phase));
        out
    }

    /// The landing screen `width` columns wide, in the animation frame for now.
    pub fn landing_display_lines(&self, width: u16) -> (r: Vec<Line>)
        ensures
            exists|phase: u8|
                #[trigger] current_phase(self, phase) && line_views(r@) == landing_lines(self, width, phase),
    {
        let phase = self.landing_motion_phase();
        let r = self.landing_display_lines_at(width, phase);
        assert(current_phase(self, phase));
        r
    }

    /// The header as displayed `width` columns wide in animation frame
    /// `motion_phase`: the landing screen where it is presented as one, the
    /// card otherwise.
    pub fn display_lines_at(&self, width: u16, motion_phase: u8) -> (r: Vec<Line>)
        ensures
            line_views(r@) == header_lines(self, width, motion_phase),
    {
        if self.landing_presentation() {
            return self.landing_display_lines_at(width, motion_phase);
        }
        self.card_display_lines(width)
    }

    /// The header as displayed `width` columns wide: the landing screen where
    /// it is presented as one, the card otherwise.
    pub fn display_lines(&self, width: u16) -> (r: Vec<Line>)
        ensures
            !self.landing_presentation() ==> line_views(r@) == card_lines(self, width),
            exists|phase: u8|
                #[trigger] current_phase(self, phase) && line_views(r@) == header_lines(self, width, phase),
    {
        let phase = self.landing_motion_phase();
        let r = self.display_lines_at(width, phase);
        assert(current_phase(self, phase));
        r
    }
}

/// There is no landing screen in 8 columns or fewer; in a wider terminal it
/// is the frame's body between the top and bottom edges.
pub proof fn law_landing_line_count(h: &SessionHeaderHistoryCell, width: u16, phase: u8)
    ensures
        width <= 8 ==> landing_lines(h, width, phase).len() == 0,
        width > 8 ==> landing_lines(h, width, phase).len() == landing_body(
            h,
            frame_inner_width(width as usize),
            phase,
        ).len() + 2,
{
}

/// The landing frame is never wider inside than its maximum, and it is wide
/// enough for the widest form of the key hints that the terminal has room
/// for beside the frame's edges.
pub proof fn law_frame_fits_hints(width: usize)
    ensures
        frame_inner_width(width) <= LANDING_FRAME_MAX_INNER_WIDTH,
        frame_inner_width(width) >= preferred_inner_width(width),
        sat_sub(width, 4) >= wide_hints_width() ==> frame_inner_width(width) >= wide_hints_width(),
        sat_sub(width, 4) >= compact_hints_width() ==> frame_inner_width(width) >= compact_hints_width(),
        sat_sub(width, 4) >= short_hints_width() ==> frame_inner_width(width) >= short_hints_width(),
        frame_inner_width(width) + 4 <= (if width >= 15 { width } else { 15 }),
{
}

/// The header drawn as a landing screen is the landing screen, and drawn as
/// a card is the card.
pub proof fn law_header_presentation(h: &SessionHeaderHistoryCell, width: u16, phase: u8)
    ensures
        h.landing_presentation() ==> header_lines(h, width, phase) == landing_lines(h, width, phase),
        !h.landing_presentation() ==> header_lines(h, width, phase) == card_lines(h, width),
{
}


/// A landing screen whose wordmark neither animates nor is held at a frame
/// is the same whatever frame it is drawn in.
pub proof fn law_still_landing_is_steady(h: &SessionHeaderHistoryCell, width: u16, p1: u8, p2: u8)
    requires
        !motion_active(h),
    ensures
        landing_lines(h, width, p1) == landing_lines(h, width, p2),
{
    let w = width as usize;
    let fi = frame_inner_width(w);
    law_still_wordmark_is_steady(wide_wordmark(), "  "@, fi, p1, p2);
    law_still_wordmark_is_steady(medium_wordmark(), " "@, fi, p1, p2);
    assert(wordmark_section(h, fi, p1) == wordmark_section(h, fi, p2));
    assert(landing_body(h, fi, p1) == landing_body(h, fi, p2));
}

/// Which line of the frame stands at `i`: the top edge first, the bottom
/// edge last, and the framed body rows between them.
pub open spec fn frame_line(body: Seq<LineView>, fi: usize, i: int) -> LineView {
    if i == 0 {
        landing_top(fi)
    } else if i == body.len() + 1 {
        landing_bottom(fi)
    } else {
        framed_row(body[i - 1], fi, frame_style())
    }
}

/// Every line of the landing screen is a line of the frame (the top edge,
/// a framed body row, or the bottom edge, in that order) moved right by
/// spaces so that it sits in the middle of the terminal: the same rule for
/// every line, the edges included, so nothing of the frame is left behind
/// at the terminal's left edge.
pub proof fn law_landing_lines_are_centred(h: &SessionHeaderHistoryCell, width: u16, phase: u8)
    requires
        width > 0,
        preferred_inner_width(width as usize) > 0,
    ensures
        ({
            let w = width as usize;
            let fi = frame_inner_width(w);
            let body = landing_body(h, fi, phase);
            let lines = landing_lines(h, width, phase);
            &&& lines.len() == body.len() + 2
            &&& forall|i: int|
                0 <= i < lines.len() ==> {
                    let x = frame_line(body, fi, i);
                    let lw = clamp_usize(line_width(x));
                    let pad = (if w >= lw { w - lw } else { 0int }) / 2;
                    &&& (#[trigger] lines[i]).style == x.style
                    &&& lines[i].spans == (if pad > 0 {
                        seq![span_of(repeated(' ', pad as nat), Style::plain())]
                    } else {
                        seq![]
                    }) + x.spans
                }
        }),
{
    let w = width as usize;
    let fi = frame_inner_width(w);
    let body = landing_body(h, fi, phase);
    let rows = body.map_values(|l: LineView| framed_row(l, fi, frame_style()));
    let framed = seq![landing_top(fi)] + rows + seq![landing_bottom(fi)];
    let lines = landing_lines(h, width, phase);
    assert(lines == framed.map_values(|l: LineView| centered(l, w)));
    assert forall|i: int| 0 <= i < lines.len() implies framed[i] == frame_line(body, fi, i) by {
        if 0 < i < body.len() + 1 {
            assert(framed[i] == rows[i - 1]);
        }
    }
    assert forall|i: int| 0 <= i < lines.len() implies #[trigger] lines[i] == centered(frame_line(body, fi, i), w) by {
        assert(lines[i] == centered(framed[i], w));
    }
}

} // verus!
