//! The session header cell: its settings, how they are built up, and its
//! plain-text form.

use vstd::prelude::*;
use std::time::Duration;
use std::time::Instant;
use crate::directory::WorkingDirectory;
use crate::text::Style;

verus! {

/// The widest the inside of the session header card gets.
pub const SESSION_HEADER_MAX_INNER_WIDTH: usize = 56;

/// Number of frames in one sweep of the landing wordmark's highlight.
pub const LANDING_MOTION_PERIOD: u8 = 20;

/// Milliseconds between two frames of the landing animation.
pub const LANDING_MOTION_STEP_MILLIS: u128 = 320;

#[verifier::external_type_specification]
#[verifier::external_body]
pub struct ExInstant(Instant);

/// The current instant: `Instant::now`. Trusted; nothing is claimed of the result.
#[verifier::external_body]
fn instant_now() -> Instant {
    Instant::now()
}

/// The time since `origin`: `Instant::elapsed`. Trusted; nothing is claimed of the result.
#[verifier::external_body]
fn instant_elapsed(origin: &Instant) -> Duration {
    origin.elapsed()
}

/// Whole milliseconds in `d`: `Duration::as_millis`. Trusted; nothing is
/// claimed of the result, which the duration alone decides.
#[verifier::external_body]
fn duration_millis(d: &Duration) -> u128 {
    d.as_millis()
}

/// How much the model reasons before answering.
#[derive(Clone, Copy, PartialEq, Eq, Debug, Structural)]
pub enum ReasoningEffort {
    Minimal,
    Low,
    Medium,
    High,
    XHigh,
}

/// The label of a reasoning effort.
pub open spec fn reasoning_effort_label(e: ReasoningEffort) -> Seq<char> {
    match e {
        ReasoningEffort::Minimal => "minimal"@,
        ReasoningEffort::Low => "low"@,
        ReasoningEffort::Medium => "medium"@,
        ReasoningEffort::High => "high"@,
        ReasoningEffort::XHigh => "xhigh"@,
    }
}

impl ReasoningEffort {
    /// The label of this reasoning effort.
    pub fn as_str(&self) -> (s: &'static str)
        ensures
            s@ == reasoning_effort_label(*self),
    {
        match self {
            ReasoningEffort::Minimal => "minimal",
            ReasoningEffort::Low => "low",
            ReasoningEffort::Medium => "medium",
            ReasoningEffort::High => "high",
            ReasoningEffort::XHigh => "xhigh",
        }
    }
}

/// The subscription plan of the signed-in account.
#[derive(Clone, Copy, PartialEq, Eq, Debug, Structural)]
pub enum PlanType {
    Free,
    Go,
    Plus,
    Pro,
    Team,
    Business,
    Enterprise,
    Edu,
    Unknown,
}

/// The name shown for a known plan.
pub open spec fn plan_display_name(p: PlanType) -> Seq<char> {
    match p {
        PlanType::Free => "Free"@,
        PlanType::Go => "Go"@,
        PlanType::Plus => "Plus"@,
        PlanType::Pro => "Pro"@,
        PlanType::Team => "Team"@,
        PlanType::Business => "Business"@,
        PlanType::Enterprise => "Enterprise"@,
        PlanType::Edu => "Edu"@,
        PlanType::Unknown => "Unknown"@,
    }
}

impl PlanType {
    /// The name shown for this plan.
    pub fn display_name(&self) -> (s: String)
        ensures
            s@ == plan_display_name(*self),
    {
        let name = match self {
            PlanType::Free => "Free",
            PlanType::Go => "Go",
            PlanType::Plus => "Plus",
            PlanType::Pro => "Pro",
            PlanType::Team => "Team",
            PlanType::Business => "Business",
            PlanType::Enterprise => "Enterprise",
            PlanType::Edu => "Edu",
            PlanType::Unknown => "Unknown",
        };
        name.to_owned()
    }
}

/// Whether the interface animates.
#[derive(Clone, Copy, PartialEq, Eq, Debug, Structural)]
pub enum MotionMode {
    Animated,
    Static,
}

impl MotionMode {
    /// Animated where animations are enabled, static otherwise.
    pub fn from_animations_enabled(enabled: bool) -> (m: MotionMode)
        ensures
            m == (if enabled { MotionMode::Animated } else { MotionMode::Static }),
    {
        if enabled {
            MotionMode::Animated
        } else {
            MotionMode::Static
        }
    }
}

/// The header shown at the top of a session: the client version, the model
/// and its settings, the working directory and the permission mode, either as
/// a small card or as a full landing screen.
#[derive(Debug)]
pub struct SessionHeaderHistoryCell {
    version: String,
    model: String,
    model_style: Style,
    reasoning_effort: Option<ReasoningEffort>,
    show_fast_status: bool,
    directory: WorkingDirectory,
    yolo_mode: bool,
    landing_presentation: bool,
    landing_motion_enabled: bool,
    landing_motion_origin: Instant,
    landing_motion_phase_override: Option<u8>,
    landing_plan: Option<String>,
}

impl SessionHeaderHistoryCell {
    /// The characters of the client version.
    pub closed spec fn version_view(&self) -> Seq<char> {
        self.version@
    }

    /// The characters of the name shown for the model.
    pub closed spec fn model_view(&self) -> Seq<char> {
        self.model@
    }

    /// The working directory shown.
    pub closed spec fn directory_view(&self) -> WorkingDirectory {
        self.directory
    }

    /// The characters of the plan name shown on the landing screen, if any.
    pub closed spec fn landing_plan_view(&self) -> Option<Seq<char>> {
        opt_string_view(&self.landing_plan)
    }

    /// The instant the landing animation counts from.
    pub closed spec fn motion_origin_view(&self) -> Instant {
        self.landing_motion_origin
    }

    /// The style the model name is drawn in.
    pub closed spec fn spec_model_style(&self) -> Style {
        self.model_style
    }

    /// The style the model name is drawn in.
    #[verifier::when_used_as_spec(spec_model_style)]
    pub fn model_style(&self) -> (r: Style)
        ensures
            r == self.spec_model_style(),
    {
        self.model_style
    }

    /// The reasoning effort shown beside the model, if any.
    pub closed spec fn spec_reasoning_effort(&self) -> Option<ReasoningEffort> {
        self.reasoning_effort
    }

    /// The reasoning effort shown beside the model, if any.
    #[verifier::when_used_as_spec(spec_reasoning_effort)]
    pub fn reasoning_effort(&self) -> (r: Option<ReasoningEffort>)
        ensures
            r == self.spec_reasoning_effort(),
    {
        self.reasoning_effort
    }

    /// Whether the card marks the model as running fast.
    pub closed spec fn spec_show_fast_status(&self) -> bool {
        self.show_fast_status
    }

    /// Whether the card marks the model as running fast.
    #[verifier::when_used_as_spec(spec_show_fast_status)]
    pub fn show_fast_status(&self) -> (r: bool)
        ensures
            r == self.spec_show_fast_status(),
    {
        self.show_fast_status
    }

    /// Whether "YOLO" mode is shown.
    pub closed spec fn spec_yolo_mode(&self) -> bool {
        self.yolo_mode
    }

    /// Whether "YOLO" mode is shown.
    #[verifier::when_used_as_spec(spec_yolo_mode)]
    pub fn yolo_mode(&self) -> (r: bool)
        ensures
            r == self.spec_yolo_mode(),
    {
        self.yolo_mode
    }

    /// Whether the header is drawn as the landing screen.
    pub closed spec fn spec_landing_presentation(&self) -> bool {
        self.landing_presentation
    }

    /// Whether the header is drawn as the landing screen.
    #[verifier::when_used_as_spec(spec_landing_presentation)]
    pub fn landing_presentation(&self) -> (r: bool)
        ensures
            r == self.spec_landing_presentation(),
    {
        self.landing_presentation
    }

    /// Whether the landing wordmark animates.
    pub closed spec fn spec_landing_motion_enabled(&self) -> bool {
        self.landing_motion_enabled
    }

    /// Whether the landing wordmark animates.
    #[verifier::when_used_as_spec(spec_landing_motion_enabled)]
    pub fn landing_motion_enabled(&self) -> (r: bool)
        ensures
            r == self.spec_landing_motion_enabled(),
    {
        self.landing_motion_enabled
    }

    /// The animation frame the landing screen is held at, if any.
    pub closed spec fn spec_landing_motion_phase_override(&self) -> Option<u8> {
        self.landing_motion_phase_override
    }

    /// The animation frame the landing screen is held at, if any.
    #[verifier::when_used_as_spec(spec_landing_motion_phase_override)]
    pub fn landing_motion_phase_override(&self) -> (r: Option<u8>)
        ensures
            r == self.spec_landing_motion_phase_override(),
    {
        self.landing_motion_phase_override
    }

    /// The client version.
    pub fn version(&self) -> (s: &str)
        ensures
            s@ == self.version_view(),
    {
        self.version.as_str()
    }

    /// The name shown for the model.
    pub fn model(&self) -> (s: &str)
        ensures
            s@ == self.model_view(),
    {
        self.model.as_str()
    }

    /// The working directory shown.
    pub fn directory(&self) -> (d: &WorkingDirectory)
        ensures
            *d == self.directory_view(),
    {
        &self.directory
    }

    /// The plan name shown on the landing screen, if any.
    pub fn landing_plan(&self) -> (p: Option<&str>)
        ensures
            (match p {
                Some(s) => Some(s@),
                None => None,
            }) == self.landing_plan_view(),
    {
        match &self.landing_plan {
            Some(s) => Some(s.as_str()),
            None => None,
        }
    }
}

/// The settings a freshly built header has, besides the clock it animates from.
pub open spec fn fresh_header(
    h: &SessionHeaderHistoryCell,
    model: Seq<char>,
    model_style: Style,
    reasoning_effort: Option<ReasoningEffort>,
    show_fast_status: bool,
    directory: &WorkingDirectory,
    version: Seq<char>,
) -> bool {
    &&& h.version_view() == version
    &&& h.model_view() == model
    &&& h.model_style() == model_style
    &&& h.reasoning_effort() == reasoning_effort
    &&& h.show_fast_status() == show_fast_status
    &&& h.directory_view().same_as(directory)
    &&& !h.yolo_mode()
    &&& !h.landing_presentation()
    &&& !h.landing_motion_enabled()
    &&& h.landing_motion_phase_override() is None
    &&& h.landing_plan_view() is None
}

/// `a` and `b` hold the same fixed settings: version, model and its style,
/// reasoning effort, fast status, directory and animation clock.
pub open spec fn same_settings(a: &SessionHeaderHistoryCell, b: &SessionHeaderHistoryCell) -> bool {
    &&& a.version_view() == b.version_view()
    &&& a.model_view() == b.model_view()
    &&& a.model_style() == b.model_style()
    &&& a.reasoning_effort() == b.reasoning_effort()
    &&& a.show_fast_status() == b.show_fast_status()
    &&& a.directory_view().same_as(&b.directory_view())
    &&& a.motion_origin_view() == b.motion_origin_view()
}

/// The characters of an optional string.
pub open spec fn opt_string_view(s: &Option<String>) -> Option<Seq<char>> {
    match s {
        Some(s) => Some(s@),
        None => None,
    }
}

/// The label shown for the reasoning effort, if one is set.
pub open spec fn reasoning_label_spec(h: &SessionHeaderHistoryCell) -> Option<Seq<char>> {
    match h.reasoning_effort() {
        Some(e) => Some(reasoning_effort_label(e)),
        None => None,
    }
}

impl SessionHeaderHistoryCell {
    /// A held animation frame, if any, is a frame of the period: every header
    /// keeps this, since only `with_landing_motion_phase` holds a frame.
    #[verifier::type_invariant]
    closed spec fn held_frame_in_period(&self) -> bool {
        self.landing_motion_phase_override matches Some(p) ==> p < LANDING_MOTION_PERIOD
    }

    /// A header in the plain model style, shown as a card.
    pub fn new(
        model: String,
        reasoning_effort: Option<ReasoningEffort>,
        show_fast_status: bool,
        directory: WorkingDirectory,
        version: &str,
    ) -> (h: Self)
        ensures
            fresh_header(&h, model@, Style::plain(), reasoning_effort, show_fast_status, &directory, version@),
    {
        Self::new_with_style(model, Style::new(), reasoning_effort, show_fast_status, directory, version)
    }

    /// A header whose model name is drawn in `model_style`, shown as a card.
    /// `model` is the name shown for the model: the model catalog's display
    /// name for it, which the caller looks up (the catalog is not part of
    /// this library).
    pub fn new_with_style(
        model: String,
        model_style: Style,
        reasoning_effort: Option<ReasoningEffort>,
        show_fast_status: bool,
        directory: WorkingDirectory,
        version: &str,
    ) -> (h: Self)
        ensures
            fresh_header(&h, model@, model_style, reasoning_effort, show_fast_status, &directory, version@),
    {
        let ghost dir = directory;
        let h = Self {
            version: version.to_owned(),
            model,
            model_style,
            reasoning_effort,
            show_fast_status,
            directory,
            yolo_mode: false,
            landing_presentation: false,
            landing_motion_enabled: false,
            landing_motion_origin: instant_now(),
            landing_motion_phase_override: None,
            landing_plan: None,
        };
        assert(h.directory_view().same_as(&dir));
        h
    }

    /// This header with "YOLO" mode shown or not.
    pub fn with_yolo_mode(self, yolo_mode: bool) -> (h: Self)
        ensures
            same_settings(&h, &self),
            h.yolo_mode() == yolo_mode,
            h.landing_presentation() == self.landing_presentation(),
            h.landing_motion_enabled() == self.landing_motion_enabled(),
            h.landing_motion_phase_override() == self.landing_motion_phase_override(),
            h.landing_plan_view() == self.landing_plan_view(),
    {
        proof {
            use_type_invariant(&self);
        }
        let mut h = self;
        h.yolo_mode = yolo_mode;
        h
    }

    /// This header shown as the landing screen.
    pub fn with_landing_presentation(self) -> (h: Self)
        ensures
            same_settings(&h, &self),
            h.landing_presentation(),
            h.yolo_mode() == self.yolo_mode(),
            h.landing_motion_enabled() == self.landing_motion_enabled(),
            h.landing_motion_phase_override() == self.landing_motion_phase_override(),
            h.landing_plan_view() == self.landing_plan_view(),
    {
        proof {
            use_type_invariant(&self);
        }
        let mut h = self;
        h.landing_presentation = true;
        h
    }

    /// This header with the landing wordmark animated exactly when `motion_mode` is animated.
    pub fn with_landing_motion(self, motion_mode: MotionMode) -> (h: Self)
        ensures
            same_settings(&h, &self),
            h.landing_motion_enabled() == (motion_mode == MotionMode::Animated),
            h.yolo_mode() == self.yolo_mode(),
            h.landing_presentation() == self.landing_presentation(),
            h.landing_motion_phase_override() == self.landing_motion_phase_override(),
            h.landing_plan_view() == self.landing_plan_view(),
    {
        proof {
            use_type_invariant(&self);
        }
        let mut h = self;
        h.landing_motion_enabled = match motion_mode {
            MotionMode::Animated => true,
            MotionMode::Static => false,
        };
        h
    }

    /// This header showing the name of `plan` on the landing screen; an
    /// unknown plan, like none, shows nothing.
    pub fn with_landing_plan(self, plan: Option<PlanType>) -> (h: Self)
        ensures
            same_settings(&h, &self),
            h.landing_plan_view() == (match plan {
                Some(p) => if p == PlanType::Unknown { None } else { Some(plan_display_name(p)) },
                None => None,
            }),
            h.yolo_mode() == self.yolo_mode(),
            h.landing_presentation() == self.landing_presentation(),
            h.landing_motion_enabled() == self.landing_motion_enabled(),
            h.landing_motion_phase_override() == self.landing_motion_phase_override(),
    {
        proof {
            use_type_invariant(&self);
        }
        let mut h = self;
        h.landing_plan = match plan {
            Some(PlanType::Unknown) => None,
            Some(p) => Some(p.display_name()),
            None => None,
        };
        h
    }

    /// This header with the landing animation held at frame `phase`, taken
    /// modulo the animation period.
    pub fn with_landing_motion_phase(self, phase: u8) -> (h: Self)
        ensures
            same_settings(&h, &self),
            h.landing_motion_phase_override() == Some((phase % LANDING_MOTION_PERIOD) as u8),
            h.yolo_mode() == self.yolo_mode(),
            h.landing_presentation() == self.landing_presentation(),
            h.landing_motion_enabled() == self.landing_motion_enabled(),
            h.landing_plan_view() == self.landing_plan_view(),
    {
        proof {
            use_type_invariant(&self);
        }
        let mut h = self;
        h.landing_motion_phase_override = Some(phase % LANDING_MOTION_PERIOD);
        h
    }

    /// Shows this header as the landing screen or as a card.
    pub fn set_landing_presentation(&mut self, landing_presentation: bool)
        ensures
            same_settings(final(self), old(self)),
            final(self).landing_presentation() == landing_presentation,
            final(self).yolo_mode() == old(self).yolo_mode(),
            final(self).landing_motion_enabled() == old(self).landing_motion_enabled(),
            final(self).landing_motion_phase_override() == old(self).landing_motion_phase_override(),
            final(self).landing_plan_view() == old(self).landing_plan_view(),
    {
        proof {
            use_type_invariant(&*self);
        }
        self.landing_presentation = landing_presentation;
    }

    /// The label of the reasoning effort, if one is set.
    pub fn reasoning_label(&self) -> (r: Option<&'static str>)
        ensures
            (match r {
                Some(s) => Some(s@),
                None => None,
            }) == reasoning_label_spec(self),
    {
        match self.reasoning_effort() {
            Some(e) => Some(e.as_str()),
            None => None,
        }
    }

    /// The frame of the landing animation to draw now: the held frame if one
    /// is set, frame 0 when the landing screen does not animate, and otherwise
    /// the frame that the time since the header was made falls in.
    pub fn landing_motion_phase(&self) -> (phase: u8)
        ensures
            phase < LANDING_MOTION_PERIOD,
            self.landing_motion_phase_override() matches Some(p) ==> phase == p,
            self.landing_motion_phase_override() is None && !self.landing_motion_enabled() ==> phase == 0,
    {
        proof {
            use_type_invariant(self);
        }
        match self.landing_motion_phase_override() {
            Some(p) => p,
            None => {
                if self.landing_motion_enabled() {
                    let elapsed = instant_elapsed(&self.landing_motion_origin);
                    let millis = duration_millis(&elapsed);
                    motion_phase_at(millis)
                } else {
                    0
                }
            },
        }
    }
}

/// The animation frame that `elapsed_millis` milliseconds fall in.
pub open spec fn motion_phase_spec(elapsed_millis: u128) -> int {
    (elapsed_millis as int / LANDING_MOTION_STEP_MILLIS as int) % (LANDING_MOTION_PERIOD as int)
}

/// The animation frame that `elapsed_millis` milliseconds fall in; frames
/// advance every step and wrap around after a period.
pub fn motion_phase_at(elapsed_millis: u128) -> (phase: u8)
    ensures
        phase as int == motion_phase_spec(elapsed_millis),
        phase < LANDING_MOTION_PERIOD,
{
    ((elapsed_millis / LANDING_MOTION_STEP_MILLIS) % 20) as u8
}

} // verus!
