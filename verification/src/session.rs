//! The cell shown when a session starts: the header, a tip, and a notice
//! when the session runs another model than the one asked for.

use vstd::prelude::*;
use crate::directory::WorkingDirectory;
use crate::landing::{current_phase, header_lines};
use crate::permissions::{has_yolo_permissions, yolo_permissions, AskForApproval, PermissionProfile};
use crate::session_header::{
    opt_string_view, plan_display_name, MotionMode, PlanType, ReasoningEffort,
    SessionHeaderHistoryCell,
};
use crate::text::{line_of, line_views, span_of, span_views, text_line, Color, Line, LineView, Span, Style};
use crate::width::display_width;

verus! {

/// A tip shown under the header, written in Markdown.
#[derive(Debug)]
pub struct TooltipHistoryCell {
    pub tip: String,
    pub cwd: String,
}

/// `l` with `prefix` put in front of its spans, keeping its style.
pub open spec fn prefixed(l: LineView, prefix: Seq<char>) -> LineView {
    LineView { spans: seq![span_of(prefix, Style::plain())] + l.spans, style: l.style }
}

impl TooltipHistoryCell {
    /// A tip for a session in directory `cwd`.
    pub fn new(tip: String, cwd: &str) -> (c: TooltipHistoryCell)
        ensures
            c.tip@ == tip@,
            c.cwd@ == cwd@,
    {
        TooltipHistoryCell { tip, cwd: cwd.to_owned() }
    }

    /// The Markdown the tip is rendered from: a bold "Tip:" and the tip.
    pub fn markdown_source(&self) -> (s: String)
        ensures
            s@ == "**Tip:** "@ + self.tip@,
    {
        let mut s = "**Tip:** ".to_owned();
        s.append(self.tip.as_str());
        s
    }

    /// The width the tip is wrapped to in `width` columns: what the two-space
    /// indent leaves, and at least one column.
    pub fn wrap_width(width: u16) -> (w: usize)
        ensures
            w == (if (if width >= 1 { width as int } else { 1int }) - 2 >= 1 {
                (if width >= 1 { width as int } else { 1int }) - 2
            } else {
                1int
            }),
    {
        proof {
            reveal_strlit("  ");
        }
        let indent_width = display_width("  ");
        let w = if width >= 1 { width as usize } else { 1 };
        let wrapped = if w >= indent_width { w - indent_width } else { 0 };
        if wrapped >= 1 {
            wrapped
        } else {
            1
        }
    }

    /// The tip as displayed: the lines its Markdown renders to (at
    /// `wrap_width`), each indented by two spaces.
    pub fn display_lines(&self, rendered: Vec<Line>) -> (r: Vec<Line>)
        ensures
            line_views(r@) == line_views(rendered@).map_values(|l: LineView| prefixed(l, "  "@)),
    {
        let ghost target = line_views(rendered@).map_values(|l: LineView| prefixed(l, "  "@));
        let mut out: Vec<Line> = Vec::new();
        let mut i: usize = 0;
        while i < rendered.len()
            invariant
                i <= rendered@.len(),
                target == line_views(rendered@).map_values(|l: LineView| prefixed(l, "  "@)),
                line_views(out@) =~= target.take(i as int),
            decreases rendered@.len() - i,
        {
            let l = &rendered[i];
            let mut spans: Vec<Span> = Vec::new();
            spans.push(Span::styled_str("  ", Style::new()));
            let mut k: usize = 0;
            while k < l.spans.len()
                invariant
                    k <= l.spans@.len(),
                    span_views(spans@) =~= seq![span_of("  "@, Style::plain())] + span_views(l.spans@).take(k as int),
                decreases l.spans@.len() - k,
            {
                let ghost before = span_views(spans@);
                let sp = l.spans[k].duplicate();
                spans.push(sp);
                assert(span_views(spans@) =~= before.push(sp@));
                assert(span_views(l.spans@).take(k + 1) =~= span_views(l.spans@).take(k as int).push(
                    l.spans@[k as int]@,
                ));
                k = k + 1;
            }
            assert(span_views(l.spans@).take(k as int) =~= span_views(l.spans@));
            let line = Line { spans, style: l.style };
            let ghost before = line_views(out@);
            out.push(line);
            assert(line_views(out@) =~= before.push(line@));
            assert(target.take(i + 1) =~= target.take(i as int).push(target[i as int]));
            i = i + 1;
        }
        assert(target.take(i as int) =~= target);
        out
    }

    /// The tip as plain text.
    pub fn raw_lines(&self) -> (r: Vec<Line>)
        ensures
            line_views(r@) == seq![text_line("Tip: "@ + self.tip@)],
    {
        let mut text = "Tip: ".to_owned();
        text.append(self.tip.as_str());
        let mut r: Vec<Line> = Vec::new();
        r.push(Line::from_text(text.as_str()));
        assert(line_views(r@) =~= seq![text_line("Tip: "@ + self.tip@)]);
        r
    }
}

/// The cell shown when a session starts: the header, then, where present, a
/// tip and a notice that the session runs another model than requested.
#[derive(Debug)]
pub struct SessionInfoCell {
    pub header: SessionHeaderHistoryCell,
    pub tooltip: Option<TooltipHistoryCell>,
    pub model_change: Option<Vec<Line>>,
}

/// The lines of the parts of a cell one after another, an empty line
/// between parts, parts with no lines left out.
pub open spec fn joined_parts(parts: Seq<Seq<LineView>>) -> Seq<LineView>
    decreases parts.len(),
{
    if parts.len() == 0 {
        seq![]
    } else {
        let before = joined_parts(parts.drop_last());
        let last = parts.last();
        if last.len() == 0 {
            before
        } else if before.len() == 0 {
            last
        } else {
            before.push(line_of(seq![])) + last
        }
    }
}

/// The lines of the notice, if any.
pub open spec fn model_change_view(c: &SessionInfoCell) -> Seq<LineView> {
    match &c.model_change {
        Some(lines) => line_views(lines@),
        None => seq![],
    }
}

/// The cell as displayed in frame `phase`, the tip rendered to `rendered_tip`.
pub open spec fn session_display(c: &SessionInfoCell, width: u16, phase: u8, rendered_tip: Seq<LineView>) -> Seq<LineView> {
    joined_parts(
        seq![
            header_lines(&c.header, width, phase),
            match c.tooltip {
                Some(_) => rendered_tip.map_values(|l: LineView| crate::session::prefixed(l, "  "@)),
                None => seq![],
            },
            model_change_view(c),
        ],
    )
}

/// Appends `part` to the joined lines in `out`, with an empty line between
/// it and what came before.
fn join_part(out: &mut Vec<Line>, part: Vec<Line>)
    ensures
        line_views(final(out)@) == (if part@.len() == 0 {
            line_views(old(out)@)
        } else if old(out)@.len() == 0 {
            line_views(part@)
        } else {
            line_views(old(out)@).push(line_of(seq![])) + line_views(part@)
        }),
{
    if part.len() == 0 {
        return;
    }
    let ghost a = line_views(out@);
    let ghost b = line_views(part@);
    if out.len() > 0 {
        out.push(Line::empty());
    }
    let ghost a2 = line_views(out@);
    let mut part = part;
    out.append(&mut part);
    proof {
        assert(line_views(out@) =~= a2 + b);
        if a.len() == 0 {
            assert(a2 =~= seq![]);
            assert(line_views(out@) =~= b);
        } else {
            assert(a2 =~= a.push(line_of(seq![])));
        }
    }
}

/// A copy of `lines`.
fn copy_lines(lines: &Vec<Line>) -> (r: Vec<Line>)
    ensures
        line_views(r@) == line_views(lines@),
{
    let mut r: Vec<Line> = Vec::new();
    let mut i: usize = 0;
    while i < lines.len()
        invariant
            i <= lines@.len(),
            line_views(r@) =~= line_views(lines@).take(i as int),
        decreases lines@.len() - i,
    {
        let ghost before = line_views(r@);
        let l = lines[i].duplicate();
        r.push(l);
        assert(line_views(r@) =~= before.push(l@));
        assert(line_views(lines@).take(i + 1) =~= line_views(lines@).take(i as int).push(lines@[i as int]@));
        i = i + 1;
    }
    assert(line_views(lines@).take(i as int) =~= line_views(lines@));
    r
}

impl SessionInfoCell {
    /// The cell as displayed `width` columns wide in animation frame
    /// `motion_phase`; `rendered_tip` is what the tip's Markdown renders to.
    pub fn display_lines_at(&self, width: u16, motion_phase: u8, rendered_tip: Vec<Line>) -> (r: Vec<Line>)
        ensures
            line_views(r@) == session_display(self, width, motion_phase, line_views(rendered_tip@)),
    {
        let ghost parts = seq![
            header_lines(&self.header, width, motion_phase),
            match self.tooltip {
                Some(_) => line_views(rendered_tip@).map_values(|l: LineView| prefixed(l, "  "@)),
                None => seq![],
            },
            model_change_view(self),
        ];
        let mut out: Vec<Line> = Vec::new();
        assert(line_views(out@) =~= Seq::<LineView>::empty());
        join_part(&mut out, self.header.display_lines_at(width, motion_phase));
        assert(parts.take(1).drop_last() =~= parts.take(0));
        assert(parts.take(0) =~= Seq::<Seq<LineView>>::empty());
        assert(joined_parts(parts.take(0)) =~= Seq::<LineView>::empty());
        assert(parts.take(1).last() == parts[0]);
        assert(line_views(out@) =~= joined_parts(parts.take(1)));
        let tip = match &self.tooltip {
            Some(t) => t.display_lines(rendered_tip),
            None => Vec::new(),
        };
        assert(line_views(tip@) =~= parts[1]);
        join_part(&mut out, tip);
        assert(parts.take(2).drop_last() =~= parts.take(1));
        assert(line_views(out@) == joined_parts(parts.take(2)));
        let notice = match &self.model_change {
            Some(lines) => copy_lines(lines),
            None => Vec::new(),
        };
        assert(line_views(notice@) =~= parts[2]);
        join_part(&mut out, notice);
        assert(parts.take(3).drop_last() =~= parts.take(2));
        assert(parts.take(3) =~= parts);
        out
    }

    /// The cell as displayed `width` columns wide now; `rendered_tip` is what
    /// the tip's Markdown renders to.
    pub fn display_lines(&self, width: u16, rendered_tip: Vec<Line>) -> (r: Vec<Line>)
        ensures
            exists|phase: u8|
                #[trigger] current_phase(&self.header, phase) && line_views(r@) == session_display(
                    self,
                    width,
                    phase,
                    line_views(rendered_tip@),
                ),
    {
        let phase = self.header.landing_motion_phase();
        let r = self.display_lines_at(width, phase, rendered_tip);
        assert(current_phase(&self.header, phase));
        r
    }

    /// The cell as written to the transcript: the same as its display.
    pub fn transcript_lines(&self, width: u16, rendered_tip: Vec<Line>) -> (r: Vec<Line>)
        ensures
            exists|phase: u8|
                #[trigger] current_phase(&self.header, phase) && line_views(r@) == session_display(
                    self,
                    width,
                    phase,
                    line_views(rendered_tip@),
                ),
    {
        self.display_lines(width, rendered_tip)
    }

    /// The cell as plain text: the parts' plain text, joined like its display.
    pub fn raw_lines(&self) -> (r: Vec<Line>)
        ensures
            line_views(r@) == joined_parts(
                seq![
                    crate::card::raw_rows(&self.header),
                    match &self.tooltip {
                        Some(t) => seq![text_line("Tip: "@ + t.tip@)],
                        None => seq![],
                    },
                    model_change_view(self),
                ],
            ),
    {
        let ghost parts = seq![
            crate::card::raw_rows(&self.header),
            match &self.tooltip {
                Some(t) => seq![text_line("Tip: "@ + t.tip@)],
                None => seq![],
            },
            model_change_view(self),
        ];
        let mut out: Vec<Line> = Vec::new();
        assert(line_views(out@) =~= Seq::<LineView>::empty());
        join_part(&mut out, self.header.raw_lines());
        assert(parts.take(1).drop_last() =~= parts.take(0));
        assert(parts.take(0) =~= Seq::<Seq<LineView>>::empty());
        assert(joined_parts(parts.take(0)) =~= Seq::<LineView>::empty());
        assert(parts.take(1).last() == parts[0]);
        assert(line_views(out@) =~= joined_parts(parts.take(1)));
        let tip = match &self.tooltip {
            Some(t) => t.raw_lines(),
            None => Vec::new(),
        };
        assert(line_views(tip@) =~= parts[1]);
        join_part(&mut out, tip);
        assert(parts.take(2).drop_last() =~= parts.take(1));
        assert(line_views(out@) == joined_parts(parts.take(2)));
        let notice = match &self.model_change {
            Some(lines) => copy_lines(lines),
            None => Vec::new(),
        };
        assert(line_views(notice@) =~= parts[2]);
        join_part(&mut out, notice);
        assert(parts.take(3).drop_last() =~= parts.take(2));
        assert(parts.take(3) =~= parts);
        out
    }
}

/// The settings of a running session that the header shows.
#[derive(Debug)]
pub struct SessionSettings {
    /// The model the session runs.
    pub model: String,
    /// The name shown for that model.
    pub model_display_name: String,
    pub reasoning_effort: Option<ReasoningEffort>,
    pub approval_policy: AskForApproval,
    pub permission_profile: PermissionProfile,
}

/// The user's local interface preferences.
#[derive(Clone, Copy, PartialEq, Eq, Debug, Structural)]
pub struct LocalSettings {
    pub animations: bool,
    pub show_tooltips: bool,
}

/// The tip shown, if any: the given one, and otherwise the default tip.
pub open spec fn chosen_tip(tooltip_override: Option<String>, default_tip: Option<String>) -> Option<Seq<char>> {
    match tooltip_override {
        Some(t) => Some(t@),
        None => opt_string_view(&default_tip),
    }
}

/// The notice that the session runs `used` although `requested` was asked for.
pub open spec fn model_change_notice(requested: Seq<char>, used: Seq<char>) -> Seq<LineView> {
    seq![
        line_of(seq![span_of("model changed:"@, Style::plain().fg_spec(Color::Magenta).bold_spec())]),
        text_line("requested: "@ + requested),
        text_line("used: "@ + used),
    ]
}

/// The cell shown when a session starts. On the first event of a session
/// the header is the landing screen, animated where animations are enabled,
/// and nothing else is shown; later, the header is a card, followed by a tip
/// where tips are enabled and there is one (`tooltip_override`, or else
/// `default_tip`), and by a notice where the session runs another model than
/// `requested_model`.
pub fn new_session_info(
    directory: WorkingDirectory,
    version: &str,
    local_settings: &LocalSettings,
    requested_model: &str,
    session: &SessionSettings,
    is_first_event: bool,
    tooltip_override: Option<String>,
    default_tip: Option<String>,
    auth_plan: Option<PlanType>,
    show_fast_status: bool,
) -> (c: SessionInfoCell)
    ensures
        c.header.version_view() == version@,
        c.header.model_view() == session.model_display_name@,
        c.header.model_style() == Style::plain(),
        c.header.reasoning_effort() == session.reasoning_effort,
        c.header.show_fast_status() == show_fast_status,
        c.header.directory_view().same_as(&directory),
        c.header.yolo_mode() == yolo_permissions(session.approval_policy, session.permission_profile),
        c.header.landing_plan_view() == (match auth_plan {
            Some(p) => if p == PlanType::Unknown { None } else { Some(plan_display_name(p)) },
            None => None,
        }),
        c.header.landing_presentation() == is_first_event,
        c.header.landing_motion_enabled() == (is_first_event && local_settings.animations),
        c.header.landing_motion_phase_override() is None,
        (match &c.tooltip {
            Some(t) => Some(t.tip@),
            None => None,
        }) == (if !is_first_event && local_settings.show_tooltips {
            chosen_tip(tooltip_override, default_tip)
        } else {
            None
        }),
        c.tooltip matches Some(t) ==> t.cwd@ == directory.display_view(),
        !is_first_event && local_settings.show_tooltips && tooltip_override is Some ==> (c.tooltip matches Some(
            t,
        ) && t.tip@ == tooltip_override->0@),
        model_change_view(&c) == (if !is_first_event && requested_model@ != session.model@ {
            model_change_notice(requested_model@, session.model@)
        } else {
            seq![]
        }),
        c.model_change matches Some(lines) ==> lines@.len() > 0,
{
    let cwd = directory.display().to_owned();
    let mut header = SessionHeaderHistoryCell::new(
        session.model_display_name.clone(),
        session.reasoning_effort,
        show_fast_status,
        directory,
        version,
    ).with_yolo_mode(has_yolo_permissions(session.approval_policy, &session.permission_profile)).with_landing_plan(
        auth_plan,
    );
    if is_first_event {
        header = header.with_landing_presentation().with_landing_motion(
            MotionMode::from_animations_enabled(local_settings.animations),
        );
    }
    let mut tooltip: Option<TooltipHistoryCell> = None;
    let mut model_change: Option<Vec<Line>> = None;
    if !is_first_event {
        if local_settings.show_tooltips {
            let tip = match tooltip_override {
                Some(t) => Some(t),
                None => default_tip,
            };
            tooltip = match tip {
                Some(t) => Some(TooltipHistoryCell::new(t, cwd.as_str())),
                None => None,
            };
        }
        let requested = requested_model.to_owned();
        if !(requested == session.model) {
            let mut lines: Vec<Line> = Vec::new();
            lines.push(Line::from_span(Span::styled_str("model changed:", Style::new().fg(Color::Magenta).bold())));
            let mut requested_text = "requested: ".to_owned();
            requested_text.append(requested_model);
            lines.push(Line::from_text(requested_text.as_str()));
            let mut used_text = "used: ".to_owned();
            used_text.append(session.model.as_str());
            lines.push(Line::from_text(used_text.as_str()));
            assert(line_views(lines@) =~= model_change_notice(requested_model@, session.model@));
            model_change = Some(lines);
        }
    }
    SessionInfoCell { header, tooltip, model_change }
}


/// A cell with neither tip nor notice shows just its header.
pub proof fn law_header_only(c: &SessionInfoCell, width: u16, phase: u8, rendered_tip: Seq<LineView>)
    requires
        c.tooltip is None,
        c.model_change is None,
    ensures
        session_display(c, width, phase, rendered_tip) == header_lines(&c.header, width, phase),
{
    let h = header_lines(&c.header, width, phase);
    let e = Seq::<LineView>::empty();
    lemma_join_one(h);
    assert(seq![h, e].drop_last() =~= seq![h]);
    assert(joined_parts(seq![h, e]) == h);
    assert(seq![h, e, e].drop_last() =~= seq![h, e]);
    assert(joined_parts(seq![h, e, e]) == h);
    assert(model_change_view(c) =~= e);
    assert(seq![
        h,
        match c.tooltip {
            Some(_) => rendered_tip.map_values(|l: LineView| crate::session::prefixed(l, "  "@)),
            None => seq![],
        },
        model_change_view(c),
    ] =~= seq![h, e, e]);
}

/// Joining a single part gives that part.
proof fn lemma_join_one(a: Seq<LineView>)
    ensures
        joined_parts(seq![a]) == a,
{
    assert(seq![a].drop_last() =~= Seq::<Seq<LineView>>::empty());
    assert(joined_parts(Seq::<Seq<LineView>>::empty()) == Seq::<LineView>::empty());
}

/// Parts are joined with exactly one empty line between two non-empty parts,
/// and an empty part between them adds nothing.
pub proof fn law_join_two_parts(a: Seq<LineView>, b: Seq<LineView>)
    requires
        a.len() > 0,
        b.len() > 0,
    ensures
        joined_parts(seq![a, b]) == a.push(line_of(seq![])) + b,
        joined_parts(seq![a, Seq::<LineView>::empty(), b]) == a.push(line_of(seq![])) + b,
{
    lemma_join_one(a);
    assert(seq![a, b].drop_last() =~= seq![a]);
    let e = Seq::<LineView>::empty();
    assert(seq![a, e].drop_last() =~= seq![a]);
    assert(joined_parts(seq![a, e]) == a);
    assert(seq![a, e, b].drop_last() =~= seq![a, e]);
}

/// A tip given for this session wins over the default tip, whatever that is;
/// the default tip is shown only where no tip is given, and there is no tip
/// only where neither is.
pub proof fn law_given_tip_wins(tooltip_override: Option<String>, default_tip: Option<String>)
    ensures
        tooltip_override matches Some(t) ==> chosen_tip(tooltip_override, default_tip) == Some(t@),
        tooltip_override is None ==> chosen_tip(tooltip_override, default_tip) == opt_string_view(&default_tip),
        chosen_tip(tooltip_override, default_tip) is None <==> (tooltip_override is None && default_tip is None),
{
}

} // verus!
