//! Styled text: colors, styles, spans and lines, with their widths.
//!
//! A `Line` is a sequence of `Span`s; a span is a string with a `Style`. The
//! width of a line is the sum of the display widths of its spans.

use vstd::prelude::*;
use crate::width::{display_width, unicode_str_width};

verus! {

/// A terminal color.
#[derive(Clone, Copy, PartialEq, Eq, Debug, Structural)]
pub enum Color {
    Reset,
    Black,
    Red,
    Green,
    Yellow,
    Blue,
    Magenta,
    Cyan,
    Gray,
    DarkGray,
    LightRed,
    LightGreen,
    LightYellow,
    LightBlue,
    LightMagenta,
    LightCyan,
    White,
    Rgb(u8, u8, u8),
    Indexed(u8),
}

/// How a span is drawn: colors and text modifiers.
#[derive(Clone, Copy, PartialEq, Eq, Debug, Structural)]
pub struct Style {
    pub fg: Option<Color>,
    pub bg: Option<Color>,
    pub bold: bool,
    pub dim: bool,
    pub italic: bool,
    pub underlined: bool,
}

impl Style {
    /// The style that sets nothing.
    pub open spec fn plain() -> Style {
        Style { fg: None, bg: None, bold: false, dim: false, italic: false, underlined: false }
    }

    /// This style with the foreground color set to `color`.
    pub open spec fn fg_spec(self, color: Color) -> Style {
        Style { fg: Some(color), ..self }
    }

    /// This style, bold.
    pub open spec fn bold_spec(self) -> Style {
        Style { bold: true, ..self }
    }

    /// This style, dimmed.
    pub open spec fn dim_spec(self) -> Style {
        Style { dim: true, ..self }
    }

    /// The style that sets nothing.
    pub fn new() -> (s: Style)
        ensures
            s == Style::plain(),
    {
        Style { fg: None, bg: None, bold: false, dim: false, italic: false, underlined: false }
    }

    /// This style with the foreground color set to `color`.
    pub fn fg(self, color: Color) -> (s: Style)
        ensures
            s == self.fg_spec(color),
    {
        Style { fg: Some(color), ..self }
    }

    /// This style, bold.
    pub fn bold(self) -> (s: Style)
        ensures
            s == self.bold_spec(),
    {
        Style { bold: true, ..self }
    }

    /// This style, dimmed.
    pub fn dim(self) -> (s: Style)
        ensures
            s == self.dim_spec(),
    {
        Style { dim: true, ..self }
    }
}

/// The mathematical content of a span: its characters and its style.
pub struct SpanView {
    pub content: Seq<char>,
    pub style: Style,
}

/// A string drawn in one style.
#[derive(Debug)]
pub struct Span {
    pub content: String,
    pub style: Style,
}

impl View for Span {
    type V = SpanView;

    open spec fn view(&self) -> SpanView {
        SpanView { content: self.content@, style: self.style }
    }
}

/// The span view of a string in a style.
pub open spec fn span_of(content: Seq<char>, style: Style) -> SpanView {
    SpanView { content, style }
}

/// The display width of a span.
pub open spec fn span_width(s: SpanView) -> nat {
    unicode_str_width(s.content)
}

impl Span {
    /// A span with the plain style.
    pub fn raw(content: String) -> (s: Span)
        ensures
            s@ == span_of(content@, Style::plain()),
    {
        Span { content, style: Style::new() }
    }

    /// A span in the given style.
    pub fn styled(content: String, style: Style) -> (s: Span)
        ensures
            s@ == span_of(content@, style),
    {
        Span { content, style }
    }

    /// A span holding a copy of `content`, in the given style.
    pub fn styled_str(content: &str, style: Style) -> (s: Span)
        ensures
            s@ == span_of(content@, style),
    {
        Span { content: content.to_owned(), style }
    }

    /// A copy of this span.
    pub fn duplicate(&self) -> (s: Span)
        ensures
            s@ == self@,
    {
        Span { content: self.content.clone(), style: self.style }
    }

    /// The display width of this span.
    pub fn width(&self) -> (w: usize)
        ensures
            w as nat == span_width(self@),
    {
        display_width(self.content.as_str())
    }
}

/// The mathematical content of a line: its spans and the style of the line.
pub struct LineView {
    pub spans: Seq<SpanView>,
    pub style: Style,
}

/// A line of styled text.
#[derive(Debug)]
pub struct Line {
    pub spans: Vec<Span>,
    pub style: Style,
}

/// The views of a sequence of spans.
pub open spec fn span_views(s: Seq<Span>) -> Seq<SpanView> {
    s.map_values(|x: Span| x@)
}

/// The views of a sequence of lines.
pub open spec fn line_views(s: Seq<Line>) -> Seq<LineView> {
    s.map_values(|l: Line| l@)
}

impl View for Line {
    type V = LineView;

    open spec fn view(&self) -> LineView {
        LineView { spans: span_views(self.spans@), style: self.style }
    }
}

/// A line made of the given spans, in the plain line style.
pub open spec fn line_of(spans: Seq<SpanView>) -> LineView {
    LineView { spans, style: Style::plain() }
}

/// The sum of the display widths of `spans`.
pub open spec fn spans_width(spans: Seq<SpanView>) -> nat
    decreases spans.len(),
{
    if spans.len() == 0 {
        0
    } else {
        spans_width(spans.drop_last()) + span_width(spans.last())
    }
}

/// The display width of a line: the sum of the widths of its spans.
pub open spec fn line_width(l: LineView) -> nat {
    spans_width(l.spans)
}

/// `n`, or `usize::MAX` where `n` does not fit in a `usize`.
pub open spec fn clamp_usize(n: nat) -> usize {
    if n <= usize::MAX {
        n as usize
    } else {
        usize::MAX
    }
}

/// The width of a line joined from two runs of spans is the sum of their widths.
pub proof fn lemma_spans_width_concat(a: Seq<SpanView>, b: Seq<SpanView>)
    ensures
        spans_width(a + b) == spans_width(a) + spans_width(b),
    decreases b.len(),
{
    if b.len() == 0 {
        assert(a + b =~= a);
    } else {
        lemma_spans_width_concat(a, b.drop_last());
        assert((a + b).drop_last() =~= a + b.drop_last());
    }
}

/// The width of a single span run.
pub proof fn lemma_spans_width_single(s: SpanView)
    ensures
        spans_width(seq![s]) == span_width(s),
{
    assert(seq![s].drop_last() =~= Seq::<SpanView>::empty());
    assert(spans_width(Seq::<SpanView>::empty()) == 0);
}

/// The lines of a text as `str::lines` produces them: split at each `'\n'`,
/// a `'\r'` just before a `'\n'` dropped, and no line after a final `'\n'`.
pub open spec fn text_lines(s: Seq<char>) -> Seq<Seq<char>> {
    let (done, cur) = text_lines_acc(s);
    if cur.len() == 0 {
        done
    } else {
        done.push(cur)
    }
}

/// The completed lines of `s` and the text after its last `'\n'`.
pub open spec fn text_lines_acc(s: Seq<char>) -> (Seq<Seq<char>>, Seq<char>)
    decreases s.len(),
{
    if s.len() == 0 {
        (seq![], seq![])
    } else {
        let (done, cur) = text_lines_acc(s.drop_last());
        if s.last() == '\n' {
            (done.push(strip_carriage_return(cur)), seq![])
        } else {
            (done, cur.push(s.last()))
        }
    }
}

/// `l` without one trailing `'\r'`.
pub open spec fn strip_carriage_return(l: Seq<char>) -> Seq<char> {
    if l.len() > 0 && l.last() == '\r' {
        l.drop_last()
    } else {
        l
    }
}

/// The line that a text becomes: one plain span per line of the text.
pub open spec fn text_line(s: Seq<char>) -> LineView {
    line_of(text_lines(s).map_values(|l: Seq<char>| span_of(l, Style::plain())))
}

impl Line {
    /// The line with no spans.
    pub fn empty() -> (l: Line)
        ensures
            l@ == line_of(seq![]),
    {
        let l = Line { spans: Vec::new(), style: Style::new() };
        assert(l@.spans =~= seq![]);
        l
    }

    /// The line made of `spans`.
    pub fn from_spans(spans: Vec<Span>) -> (l: Line)
        ensures
            l@ == line_of(span_views(spans@)),
    {
        Line { spans, style: Style::new() }
    }

    /// The line made of one span.
    pub fn from_span(span: Span) -> (l: Line)
        ensures
            l@ == line_of(seq![span@]),
    {
        let mut spans = Vec::new();
        spans.push(span);
        let l = Line { spans, style: Style::new() };
        assert(l@.spans =~= seq![span@]);
        l
    }

    /// The line made of the lines of `text`, one plain span for each.
    pub fn from_text(text: &str) -> (l: Line)
        ensures
            l@ == text_line(text@),
    {
        let chars = chars_of(text);
        let n = chars.len();
        let mut spans: Vec<Span> = Vec::new();
        let mut cur = String::new();
        let mut i: usize = 0;
        while i < n
            invariant
                n == chars@.len(),
                chars@ == text@,
                i <= n,
                text_lines_acc(text@.take(i as int)).0.map_values(
                    |l: Seq<char>| span_of(l, Style::plain()),
                ) =~= span_views(spans@),
                text_lines_acc(text@.take(i as int)).1 == cur@,
            decreases n - i,
        {
            let c = chars[i];
            assert(text@.take(i + 1).drop_last() =~= text@.take(i as int));
            if c == '\n' {
                let ghost old_cur = cur@;
                let mut line = cur;
                let len = line.as_str().unicode_len();
                if len > 0 && line.as_str().get_char(len - 1) == '\r' {
                    line = line.as_str().substring_char(0, len - 1).to_owned();
                    assert(line@ =~= old_cur.drop_last());
                }
                let ghost before = span_views(spans@);
                spans.push(Span::raw(line));
                assert(span_views(spans@) =~= before.push(span_of(strip_carriage_return(old_cur), Style::plain())));
                cur = String::new();
            } else {
                push_char(&mut cur, c);
            }
            i = i + 1;
        }
        assert(text@.take(n as int) =~= text@);
        if cur.as_str().unicode_len() > 0 {
            let ghost before = span_views(spans@);
            let ghost last = cur@;
            spans.push(Span::raw(cur));
            assert(span_views(spans@) =~= before.push(span_of(last, Style::plain())));
        }
        let l = Line { spans, style: Style::new() };
        assert(l@.spans =~= text_lines(text@).map_values(|l: Seq<char>| span_of(l, Style::plain())));
        l
    }

    /// A copy of this line.
    pub fn duplicate(&self) -> (l: Line)
        ensures
            l@ == self@,
    {
        let mut spans: Vec<Span> = Vec::new();
        let mut i: usize = 0;
        while i < self.spans.len()
            invariant
                i <= self.spans@.len(),
                span_views(spans@) =~= span_views(self.spans@).take(i as int),
            decreases self.spans@.len() - i,
        {
            let ghost before = span_views(spans@);
            let sp = self.spans[i].duplicate();
            spans.push(sp);
            assert(span_views(spans@) =~= before.push(sp@));
            assert(span_views(self.spans@).take(i + 1) =~= span_views(self.spans@).take(
                i as int,
            ).push(self.spans@[i as int]@));
            i = i + 1;
        }
        assert(span_views(self.spans@).take(i as int) =~= span_views(self.spans@));
        Line { spans, style: self.style }
    }

    /// This line with its line style replaced by `style`.
    pub fn with_style(self, style: Style) -> (l: Line)
        ensures
            l@ == (LineView { style, ..self@ }),
    {
        Line { spans: self.spans, style }
    }

    /// The display width of this line, `usize::MAX` where the sum does not fit.
    pub fn width(&self) -> (w: usize)
        ensures
            w == clamp_usize(line_width(self@)),
    {
        let mut total: usize = 0;
        let mut i: usize = 0;
        while i < self.spans.len()
            invariant
                i <= self.spans@.len(),
                total == clamp_usize(spans_width(span_views(self.spans@).take(i as int))),
            decreases self.spans@.len() - i,
        {
            let w = self.spans[i].width();
            assert(span_views(self.spans@).take(i + 1).drop_last() =~= span_views(
                self.spans@,
            ).take(i as int));
            total = total.saturating_add(w);
            i = i + 1;
        }
        assert(span_views(self.spans@).take(i as int) =~= span_views(self.spans@));
        total
    }
}

/// Appends `c` to `s`: `String::push`.
///
/// Trusted: std documents that `push` appends the character to the end.
#[verifier::external_body]
pub(crate) fn push_char(s: &mut String, c: char)
    ensures
        final(s)@ == old(s)@.push(c),
{
    s.push(c)
}

/// The characters of `s`, in order.
pub fn chars_of(s: &str) -> (v: Vec<char>)
    ensures
        v@ == s@,
{
    let n = s.unicode_len();
    let mut v: Vec<char> = Vec::new();
    let mut i: usize = 0;
    while i < n
        invariant
            n == s@.len(),
            i <= n,
            v@ =~= s@.take(i as int),
        decreases n - i,
    {
        v.push(s.get_char(i));
        i = i + 1;
    }
    assert(s@.take(n as int) =~= s@);
    v
}

/// `n` copies of `c`.
pub open spec fn repeated(c: char, n: nat) -> Seq<char> {
    Seq::new(n, |_i: int| c)
}

/// A string of `n` copies of `c`.
pub fn repeat_char(c: char, n: usize) -> (s: String)
    ensures
        s@ == repeated(c, n as nat),
{
    let mut s = String::new();
    let mut i: usize = 0;
    while i < n
        invariant
            i <= n,
            s@ =~= repeated(c, i as nat),
        decreases n - i,
    {
        push_char(&mut s, c);
        i = i + 1;
    }
    s
}

/// A string of `n` spaces.
pub fn spaces(n: usize) -> (s: String)
    ensures
        s@ == repeated(' ', n as nat),
        unicode_str_width(s@) == n,
{
    let s = repeat_char(' ', n);
    let w = display_width(s.as_str());
    s
}


/// Text without line breaks gives the text itself after it as the line in progress.
proof fn lemma_text_lines_acc_no_newline(s: Seq<char>)
    requires
        forall|i: int| 0 <= i < s.len() ==> s[i] != '\n',
    ensures
        text_lines_acc(s) == (Seq::<Seq<char>>::empty(), s),
    decreases s.len(),
{
    if s.len() > 0 {
        lemma_text_lines_acc_no_newline(s.drop_last());
        assert(s.drop_last().push(s.last()) =~= s);
    }
}

/// A non-empty text without line breaks makes a line of one span: the text itself.
pub proof fn law_single_line_text(s: Seq<char>)
    requires
        s.len() > 0,
        forall|i: int| 0 <= i < s.len() ==> s[i] != '\n',
    ensures
        text_lines(s) == seq![s],
        text_line(s).spans == seq![span_of(s, Style::plain())],
{
    lemma_text_lines_acc_no_newline(s);
    assert(Seq::<Seq<char>>::empty().push(s) =~= seq![s]);
    assert(seq![s].map_values(|l: Seq<char>| span_of(l, Style::plain())) =~= seq![span_of(s, Style::plain())]);
}

} // verus!
