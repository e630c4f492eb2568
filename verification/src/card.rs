//! The session header as a small bordered card, and as plain text.

use vstd::prelude::*;
use crate::border::{
    border_content_width, bordered, card_inner_width, card_inner_width_spec, framed_row_width,
    with_border,
};
use crate::directory::shown_directory;
use crate::line_truncation::{ellipsized_line, truncate_line_with_ellipsis_if_overflow};
use crate::session_header::{reasoning_effort_label, reasoning_label_spec, SessionHeaderHistoryCell, SESSION_HEADER_MAX_INNER_WIDTH};
use crate::text::{
    clamp_usize, lemma_spans_width_concat, lemma_spans_width_single, line_of, line_views,
    line_width, repeated, span_of, span_views, spaces, text_line, Color, Line, LineView, Span,
    Style,
};
use crate::width::{display_width, is_printable_ascii};

verus! {

/// `l` with spaces put in front so that it sits in the middle of `width`
/// columns (any odd column going to the right); a line that is as wide as
/// `width`, or wider, is left as it is.
pub open spec fn centered(l: LineView, width: usize) -> LineView {
    let lw = clamp_usize(line_width(l));
    let pad = (if width >= lw { width - lw } else { 0int }) / 2;
    if pad > 0 {
        LineView {
            spans: seq![span_of(repeated(' ', pad as nat), Style::plain())] + l.spans,
            style: l.style,
        }
    } else {
        l
    }
}

/// `s` filled with spaces on the right to `w` characters, where it is shorter.
pub open spec fn padded(s: Seq<char>, w: nat) -> Seq<char> {
    if s.len() < w {
        s + repeated(' ', (w - s.len()) as nat)
    } else {
        s
    }
}

/// `s` filled with spaces on the right to `width` characters, where it is shorter.
pub fn pad_right(s: &str, width: usize) -> (r: String)
    ensures
        r@ == padded(s@, width as nat),
{
    let n = s.unicode_len();
    let mut r = s.to_owned();
    if n < width {
        let fill = spaces(width - n);
        r.append(fill.as_str());
    }
    r
}

/// The style that only dims.
pub open spec fn dim_style() -> Style {
    Style::plain().dim_spec()
}

/// The width of the labels in the card: wide enough for "permissions:" when
/// that row is shown, and for "directory:" otherwise.
pub open spec fn card_label_width(yolo: bool) -> nat {
    if yolo {
        12
    } else {
        10
    }
}

/// The card's title row: the prompt mark, the product name and the version.
pub open spec fn card_title_row(h: &SessionHeaderHistoryCell) -> LineView {
    line_of(
        seq![
            span_of(">_ "@, dim_style()),
            span_of("OpenAI Codex"@, Style::plain().bold_spec()),
            span_of(" "@, dim_style()),
            span_of("(v"@ + h.version_view() + ")"@, dim_style()),
        ],
    )
}

/// The card's model row: the model in its style, the reasoning effort, the
/// fast marker where shown, and the hint for changing the model.
pub open spec fn card_model_row(h: &SessionHeaderHistoryCell) -> LineView {
    let lw = card_label_width(h.yolo_mode());
    line_of(
        seq![
            span_of(padded("model:"@, lw) + " "@, dim_style()),
            span_of(h.model_view(), h.model_style()),
        ] + match reasoning_label_spec(h) {
            Some(r) => seq![span_of(" "@, Style::plain()), span_of(r, Style::plain())],
            None => seq![],
        } + (if h.show_fast_status() {
            seq![span_of("   "@, Style::plain()), span_of("fast"@, h.model_style().fg_spec(Color::Magenta))]
        } else {
            seq![]
        }) + seq![
            span_of("   "@, dim_style()),
            span_of("/model"@, Style::plain().fg_spec(Color::Cyan)),
            span_of(" to change"@, dim_style()),
        ],
    )
}

/// The widest the directory may be in a card whose inside is `inner` wide:
/// what is left beside its label and a space.
pub open spec fn card_directory_width(h: &SessionHeaderHistoryCell, inner: usize) -> usize {
    let prefix = card_label_width(h.yolo_mode()) + 1;
    if inner >= prefix {
        (inner - prefix) as usize
    } else {
        0
    }
}

/// The card's directory row.
pub open spec fn card_directory_row(h: &SessionHeaderHistoryCell, inner: usize) -> LineView {
    let lw = card_label_width(h.yolo_mode());
    line_of(
        seq![
            span_of(padded("directory:"@, lw) + " "@, dim_style()),
            span_of(shown_directory(&h.directory_view(), Some(card_directory_width(h, inner))), Style::plain()),
        ],
    )
}

/// The card's permissions row, shown in "YOLO" mode.
pub open spec fn card_permissions_row(h: &SessionHeaderHistoryCell) -> LineView {
    let lw = card_label_width(h.yolo_mode());
    line_of(
        seq![
            span_of(padded("permissions:"@, lw) + " "@, dim_style()),
            span_of("YOLO mode"@, Style::plain().fg_spec(Color::Magenta).bold_spec()),
        ],
    )
}

/// The rows inside the card, before they are cut to its inner width.
pub open spec fn card_rows(h: &SessionHeaderHistoryCell, inner: usize) -> Seq<LineView> {
    seq![card_title_row(h), line_of(seq![]), card_model_row(h), card_directory_row(h, inner)] + (if h.yolo_mode() {
        seq![card_permissions_row(h)]
    } else {
        seq![]
    })
}

/// The header drawn as a card in `width` columns: its rows, each cut with an
/// ellipsis to the card's inner width, inside a dim border; nothing where
/// `width` has no room for a card.
pub open spec fn card_lines(h: &SessionHeaderHistoryCell, width: u16) -> Seq<LineView> {
    match card_inner_width_spec(width, SESSION_HEADER_MAX_INNER_WIDTH) {
        None => seq![],
        Some(inner) => bordered(
            card_rows(h, inner).map_values(|l: LineView| ellipsized_line(l, inner as nat)),
            None,
            dim_style(),
        ),
    }
}

/// Every row of the card, once cut to the inner width, has a width that fits in a `usize`.
pub open spec fn card_rows_fit(h: &SessionHeaderHistoryCell, width: u16) -> bool {
    match card_inner_width_spec(width, SESSION_HEADER_MAX_INNER_WIDTH) {
        None => true,
        Some(inner) => forall|k: int|
            0 <= k < card_rows(h, inner).len() ==> line_width(
                #[trigger] ellipsized_line(card_rows(h, inner)[k], inner as nat),
            ) <= usize::MAX,
    }
}

/// The header as plain text: title, model with its reasoning effort,
/// directory in full, and the permission mode in "YOLO" mode.
pub open spec fn raw_rows(h: &SessionHeaderHistoryCell) -> Seq<LineView> {
    seq![
        text_line("OpenAI Codex (v"@ + h.version_view() + ")"@),
        text_line(
            "model: "@ + h.model_view() + match reasoning_label_spec(h) {
                Some(r) => " "@ + r,
                None => seq![],
            },
        ),
        text_line("directory: "@ + shown_directory(&h.directory_view(), None)),
    ] + (if h.yolo_mode() {
        seq![text_line("permissions: YOLO mode"@)]
    } else {
        seq![]
    })
}

/// Appends a span to `spans`.
pub(crate) fn push_span(spans: &mut Vec<Span>, s: Span)
    ensures
        span_views(final(spans)@) == span_views(old(spans)@).push(s@),
{
    let ghost before = span_views(spans@);
    spans.push(s);
    assert(span_views(spans@) =~= before.push(s@));
}

impl SessionHeaderHistoryCell {
    /// `line` moved right by spaces so that it sits in the middle of `width`
    /// columns; the result is no wider than `width` where `line` fits.
    pub fn centered_line(line: Line, width: usize) -> (r: Line)
        ensures
            r@ == centered(line@, width),
            line_width(line@) <= width ==> line_width(r@) == line_width(line@) + (width
                - line_width(line@)) / 2,
    {
        let lw = line.width();
        let padding = (if width >= lw { width - lw } else { 0 }) / 2;
        if padding > 0 {
            let Line { spans, style } = line;
            let pad = Span::raw(spaces(padding));
            let mut out: Vec<Span> = Vec::new();
            out.push(pad);
            let mut rest = spans;
            out.append(&mut rest);
            let r = Line { spans: out, style };
            proof {
                assert(span_views(r.spans@) =~= seq![pad@] + span_views(spans@));
                lemma_spans_width_concat(seq![pad@], span_views(spans@));
                lemma_spans_width_single(pad@);
            }
            r
        } else {
            line
        }
    }

    /// The header as a card `width` columns wide: a title row, an empty row,
    /// the model row, the directory row and, in "YOLO" mode, the permissions
    /// row, each cut with an ellipsis to the inner width, inside a dim border.
    ///
    /// The right edge lines up: every row between the top and bottom edges is
    /// as wide as every other (rows whose width fits in a `usize`).
    pub fn card_display_lines(&self, width: u16) -> (r: Vec<Line>)
        ensures
            line_views(r@) == card_lines(self, width),
            forall|i: int, j: int|
                #![trigger line_width(r@[i]@), line_width(r@[j]@)]
                card_rows_fit(self, width) && 1 <= i < r@.len() - 1 && 1 <= j < r@.len() - 1
                    ==> line_width(r@[i]@) == line_width(r@[j]@),
    {
        let inner_width = match card_inner_width(width, SESSION_HEADER_MAX_INNER_WIDTH) {
            Some(w) => w,
            None => {
                let r: Vec<Line> = Vec::new();
                assert(line_views(r@) =~= seq![]);
                return r;
            },
        };
        let dim = Style::new().dim();
        let plain = Style::new();
        let label_width: usize = if self.yolo_mode() { 12 } else { 10 };

        let mut title: Vec<Span> = Vec::new();
        push_span(&mut title, Span::styled_str(">_ ", dim));
        push_span(&mut title, Span::styled_str("OpenAI Codex", Style::new().bold()));
        push_span(&mut title, Span::styled_str(" ", dim));
        let mut version = "(v".to_owned();
        version.append(self.version());
        version.append(")");
        push_span(&mut title, Span::styled(version, dim));
        let title = Line::from_spans(title);
        assert(title@.spans =~= card_title_row(self).spans);

        let mut model_label = pad_right("model:", label_width);
        model_label.append(" ");
        let mut model: Vec<Span> = Vec::new();
        push_span(&mut model, Span::styled(model_label, dim));
        push_span(&mut model, Span::styled(self.model().to_owned(), self.model_style()));
        match self.reasoning_label() {
            Some(reasoning) => {
                push_span(&mut model, Span::styled_str(" ", plain));
                push_span(&mut model, Span::styled_str(reasoning, plain));
            },
            None => {},
        }
        if self.show_fast_status() {
            push_span(&mut model, Span::styled_str("   ", plain));
            push_span(&mut model, Span::styled_str("fast", self.model_style().fg(Color::Magenta)));
        }
        push_span(&mut model, Span::styled_str("   ", dim));
        push_span(&mut model, Span::styled_str("/model", plain.fg(Color::Cyan)));
        push_span(&mut model, Span::styled_str(" to change", dim));
        let model = Line::from_spans(model);
        assert(model@.spans =~= card_model_row(self).spans);

        let mut dir_prefix = pad_right("directory:", label_width);
        dir_prefix.append(" ");
        proof {
            reveal_strlit("directory:");
            reveal_strlit(" ");
            assert(is_printable_ascii(dir_prefix@));
        }
        let dir_prefix_width = display_width(dir_prefix.as_str());
        let dir_max_width = if inner_width >= dir_prefix_width { inner_width - dir_prefix_width } else { 0 };
        let dir = self.format_directory(Some(dir_max_width));
        let mut dir_spans: Vec<Span> = Vec::new();
        push_span(&mut dir_spans, Span::styled(dir_prefix, dim));
        push_span(&mut dir_spans, Span::styled(dir, plain));
        let directory = Line::from_spans(dir_spans);
        assert(directory@.spans =~= card_directory_row(self, inner_width).spans);

        let ghost rows = card_rows(self, inner_width);
        let ghost cut = rows.map_values(|l: LineView| ellipsized_line(l, inner_width as nat));
        let mut lines: Vec<Line> = Vec::new();
        lines.push(truncate_line_with_ellipsis_if_overflow(title, inner_width));
        lines.push(truncate_line_with_ellipsis_if_overflow(Line::empty(), inner_width));
        lines.push(truncate_line_with_ellipsis_if_overflow(model, inner_width));
        lines.push(truncate_line_with_ellipsis_if_overflow(directory, inner_width));
        if self.yolo_mode() {
            let mut permissions_label = pad_right("permissions:", label_width);
            permissions_label.append(" ");
            let mut perm: Vec<Span> = Vec::new();
            push_span(&mut perm, Span::styled(permissions_label, dim));
            push_span(&mut perm, Span::styled_str("YOLO mode", plain.fg(Color::Magenta).bold()));
            let perm = Line::from_spans(perm);
        assert(perm@.spans =~= card_permissions_row(self).spans);
            lines.push(truncate_line_with_ellipsis_if_overflow(perm, inner_width));
        }
        assert(line_views(lines@) =~= cut);
        let ghost lv = line_views(lines@);
        let ghost lines_seq = lines@;
        let r = with_border(lines);
        proof {
            let cw = border_content_width(lv, None);
            assert forall|i: int| card_rows_fit(self, width) && 1 <= i < r@.len() - 1 implies
                #[trigger] line_width(r@[i]@) == framed_row_width(cw) by {
                assert(lv[i - 1] == cut[i - 1]);
                assert(lv[i - 1] == lines_seq[i - 1]@);
                assert(line_width(lines_seq[i - 1]@) <= usize::MAX);
                assert(line_width(r@[(i - 1) + 1]@) == framed_row_width(cw));
            }
        }
        r
    }

    /// The header as plain text: the title with the version, the model with
    /// its reasoning effort, the directory in full and, in "YOLO" mode, the
    /// permission mode.
    pub fn raw_lines(&self) -> (r: Vec<Line>)
        ensures
            line_views(r@) == raw_rows(self),
    {
        let mut title = "OpenAI Codex (v".to_owned();
        title.append(self.version());
        title.append(")");
        let mut model = "model: ".to_owned();
        model.append(self.model());
        match self.reasoning_label() {
            Some(reasoning) => {
                model.append(" ");
                model.append(reasoning);
                assert(model@ =~= "model: "@ + self.model_view() + (" "@ + reasoning@));
            },
            None => {
                assert(model@ =~= "model: "@ + self.model_view() + Seq::<char>::empty());
            },
        }
        let mut directory = "directory: ".to_owned();
        let dir = self.format_directory(None);
        directory.append(dir.as_str());
        let mut lines: Vec<Line> = Vec::new();
        lines.push(Line::from_text(title.as_str()));
        lines.push(Line::from_text(model.as_str()));
        lines.push(Line::from_text(directory.as_str()));
        if self.yolo_mode() {
            lines.push(Line::from_text("permissions: YOLO mode"));
        }
        assert(line_views(lines@) =~= raw_rows(self));
        lines
    }
}


/// A card has its four rows (five in "YOLO" mode) between its top and bottom
/// edges, and there is no card in fewer than 4 columns.
pub proof fn law_card_line_count(h: &SessionHeaderHistoryCell, width: u16)
    ensures
        width < 4 ==> card_lines(h, width).len() == 0,
        width >= 4 ==> card_lines(h, width).len() == (if h.yolo_mode() { 7int } else { 6int }),
{
    if width >= 4 {
        let inner = card_inner_width_spec(width, SESSION_HEADER_MAX_INNER_WIDTH).unwrap();
        let rows = card_rows(h, inner);
        assert(rows.len() == (if h.yolo_mode() { 5int } else { 4int }));
    }
}

/// The plain text of a header has three lines, and a fourth in "YOLO" mode;
/// the directory in it is never shortened.
pub proof fn law_raw_rows(h: &SessionHeaderHistoryCell)
    ensures
        raw_rows(h).len() == (if h.yolo_mode() { 4int } else { 3int }),
        raw_rows(h)[2] == text_line("directory: "@ + crate::directory::formatted_directory(&h.directory_view())),
{
}

/// The model row of the card reads: the label, the model name in its style,
/// then, where a reasoning effort is set, a space and the effort's label,
/// whether or not the fast marker is shown; the fast marker, where shown,
/// comes after them, and the hint for changing the model closes the row.
/// The model row is the third row of the card.
pub proof fn law_card_model_row_order(h: &SessionHeaderHistoryCell, inner: usize)
    ensures
        ({
            let s = card_model_row(h).spans;
            let k: int = if h.reasoning_effort() is Some { 4 } else { 2 };
            &&& s[1] == span_of(h.model_view(), h.model_style())
            &&& (h.reasoning_effort() matches Some(e) ==> s[2] == span_of(" "@, Style::plain()) && s[3]
                == span_of(reasoning_effort_label(e), Style::plain()))
            &&& (h.show_fast_status() ==> s[k] == span_of("   "@, Style::plain()) && s[k + 1] == span_of(
                "fast"@,
                h.model_style().fg_spec(Color::Magenta),
            ))
            &&& s.len() == k + (if h.show_fast_status() { 2int } else { 0int }) + 3
            &&& s.last() == span_of(" to change"@, dim_style())
        }),
        card_rows(h, inner)[2] == card_model_row(h),
{
}

} // verus!
