use session_cells::border::{card_inner_width, with_border, with_border_with_inner_width};
use session_cells::directory::{center_truncate_path, WorkingDirectory};
use session_cells::line_truncation::{truncate_line_to_width, truncate_line_with_ellipsis_if_overflow};
use session_cells::permissions::{
    has_yolo_permissions, is_yolo_mode, AskForApproval, ManagedFileSystemPermissions,
    NetworkSandboxPolicy, PermissionProfile, PermissionsConfig,
};
use session_cells::session::{
    new_session_info, LocalSettings, SessionSettings, TooltipHistoryCell,
};
use session_cells::landing::{landing_wordmark_medium, landing_wordmark_wide};
use session_cells::session_header::{
    motion_phase_at, MotionMode, PlanType, ReasoningEffort, SessionHeaderHistoryCell,
};
use session_cells::text::{Color, Line, Span, Style};

fn text(line: &Line) -> String {
    line.spans.iter().map(|s| s.content.as_str()).collect()
}

fn texts(lines: &[Line]) -> Vec<String> {
    lines.iter().map(text).collect()
}

fn dir(display: &str, rel: Option<&str>) -> WorkingDirectory {
    WorkingDirectory::new(display.to_string(), rel.map(|r| r.to_string()))
}

fn header(yolo: bool) -> SessionHeaderHistoryCell {
    SessionHeaderHistoryCell::new(
        "gpt-test".to_string(),
        Some(ReasoningEffort::High),
        false,
        dir("/home/u/project", Some("project")),
        "1.2.3",
    )
    .with_yolo_mode(yolo)
}

#[test]
fn card_inner_width_needs_four_columns() {
    assert_eq!(card_inner_width(3, 56), None);
    assert_eq!(card_inner_width(4, 56), Some(0));
    assert_eq!(card_inner_width(30, 56), Some(26));
    assert_eq!(card_inner_width(200, 56), Some(56));
}

#[test]
fn border_pads_every_row_to_the_widest() {
    let lines = vec![Line::from_text("ab"), Line::from_text("abcd")];
    let out = with_border(lines);
    assert_eq!(
        texts(&out),
        vec!["╭──────╮", "│ ab   │", "│ abcd │", "╰──────╯"]
    );
    assert!(out[0].spans[0].style.dim);
}

#[test]
fn border_with_forced_inner_width() {
    let out = with_border_with_inner_width(vec![Line::from_text("x")], 5);
    assert_eq!(texts(&out), vec!["╭───────╮", "│ x     │", "╰───────╯"]);
    let narrow = with_border_with_inner_width(vec![Line::from_text("wide text")], 2);
    assert_eq!(texts(&narrow)[1], "│ wide text │");
}

#[test]
fn yolo_needs_no_approvals_and_no_sandbox() {
    assert!(has_yolo_permissions(AskForApproval::Never, &PermissionProfile::Disabled));
    let open = PermissionProfile::Managed {
        file_system: ManagedFileSystemPermissions::Unrestricted,
        network: NetworkSandboxPolicy::Enabled,
    };
    assert!(has_yolo_permissions(AskForApproval::Never, &open));
    let closed = PermissionProfile::Managed {
        file_system: ManagedFileSystemPermissions::Restricted,
        network: NetworkSandboxPolicy::Enabled,
    };
    assert!(!has_yolo_permissions(AskForApproval::Never, &closed));
    assert!(!has_yolo_permissions(AskForApproval::OnRequest, &PermissionProfile::Disabled));
    let config = PermissionsConfig {
        approval_policy: AskForApproval::Never,
        permission_profile: open,
    };
    assert!(is_yolo_mode(&config));
}

#[test]
fn directory_relative_to_home() {
    assert_eq!(
        SessionHeaderHistoryCell::format_directory_inner(&dir("/home/u", Some("")), None),
        "~"
    );
    assert_eq!(
        SessionHeaderHistoryCell::format_directory_inner(&dir("/home/u/a/b", Some("a/b")), None),
        "~/a/b"
    );
    assert_eq!(
        SessionHeaderHistoryCell::format_directory_inner(&dir("/srv/x", None), None),
        "/srv/x"
    );
    assert_eq!(
        SessionHeaderHistoryCell::format_directory_inner(&dir("/srv/x", None), Some(0)),
        ""
    );
    assert_eq!(
        SessionHeaderHistoryCell::format_directory_inner(&dir("/srv/x", None), Some(6)),
        "/srv/x"
    );
}

#[test]
fn long_directory_is_shortened_in_the_middle() {
    let shown =
        SessionHeaderHistoryCell::format_directory_inner(&dir("/srv/abcdefghij", None), Some(8));
    assert_eq!(shown, "/sr…ghij");
    assert_eq!(center_truncate_path("abcdef", 3), "a…f");
    assert_eq!(center_truncate_path("abcdef", 6), "abcdef");
    assert_eq!(center_truncate_path("abcdef", 1), "…");
    assert_eq!(center_truncate_path("abcdef", 0), "");
}

#[test]
fn truncation_keeps_lines_that_fit() {
    let line = Line::from_text("hello");
    let same = truncate_line_with_ellipsis_if_overflow(line, 5);
    assert_eq!(text(&same), "hello");
    let cut = truncate_line_with_ellipsis_if_overflow(Line::from_text("hello world"), 5);
    assert_eq!(text(&cut), "hell…");
    let empty = truncate_line_with_ellipsis_if_overflow(Line::from_text("hello"), 0);
    assert!(empty.spans.is_empty());
}

#[test]
fn truncation_cuts_by_characters_and_keeps_zero_width_spans() {
    let line = Line::from_spans(vec![
        Span::raw("ab".to_string()),
        Span::raw("".to_string()),
        Span::styled("cdef".to_string(), Style::new().bold()),
    ]);
    let cut = truncate_line_to_width(line, 4);
    assert_eq!(texts(&[cut.duplicate()]), vec!["abcd"]);
    assert_eq!(cut.spans.len(), 3);
    assert!(cut.spans[2].style.bold);
    let styled = Line::from_spans(vec![Span::styled("abcdef".to_string(), Style::new().fg(Color::Red))]);
    let ellipsized = truncate_line_with_ellipsis_if_overflow(styled, 3);
    assert_eq!(text(&ellipsized), "ab…");
    assert_eq!(ellipsized.spans[1].style.fg, Some(Color::Red));
}

#[test]
fn wide_characters_are_not_split() {
    let cut = truncate_line_to_width(Line::from_text("日本語"), 3);
    assert_eq!(text(&cut), "日");
}

#[test]
fn text_lines_split_at_newlines() {
    let line = Line::from_text("a\r\nb\nc\n");
    assert_eq!(line.spans.len(), 3);
    assert_eq!(line.spans[0].content, "a");
    assert_eq!(line.spans[1].content, "b");
    assert_eq!(line.spans[2].content, "c");
    assert!(Line::from_text("").spans.is_empty());
    assert_eq!(Line::from_text("x\r").spans[0].content, "x\r");
}

#[test]
fn centered_line_pads_on_the_left() {
    let line = SessionHeaderHistoryCell::centered_line(Line::from_text("abc"), 10);
    assert_eq!(text(&line), "   abc");
    let wide = SessionHeaderHistoryCell::centered_line(Line::from_text("abcdef"), 4);
    assert_eq!(text(&wide), "abcdef");
}

#[test]
fn raw_lines_of_the_header() {
    assert_eq!(
        texts(&header(false).raw_lines()),
        vec![
            "OpenAI Codex (v1.2.3)",
            "model: gpt-test high",
            "directory: ~/project",
        ]
    );
    assert_eq!(texts(&header(true).raw_lines())[3], "permissions: YOLO mode");
}

#[test]
fn header_card_rows() {
    let lines = header(false).display_lines(80);
    let rule = "─".repeat(45);
    assert_eq!(
        texts(&lines),
        vec![
            format!("╭{rule}╮"),
            format!("│ {:<43} │", ">_ OpenAI Codex (v1.2.3)"),
            format!("│ {:<43} │", ""),
            "│ model:     gpt-test high   /model to change │".to_string(),
            format!("│ {:<43} │", "directory: ~/project"),
            format!("╰{rule}╯"),
        ]
    );
    assert!(header(true).display_lines(80).iter().any(|l| text(l).contains("permissions: YOLO mode")));
    assert!(header(false).display_lines(3).is_empty());
}

#[test]
fn header_card_truncates_to_the_terminal() {
    let lines = header(false).display_lines(20);
    for line in &lines {
        assert_eq!(line.width(), 20, "{:?}", text(line));
    }
    assert_eq!(text(&lines[3]), "│ model:     gpt-… │");
}

#[test]
fn fast_status_is_shown_in_magenta() {
    let h = SessionHeaderHistoryCell::new(
        "m".to_string(),
        None,
        true,
        dir("/x", None),
        "1",
    );
    let lines = h.display_lines(80);
    let fast = lines[3].spans.iter().find(|s| s.content == "fast").expect("fast marker");
    assert_eq!(fast.style.fg, Some(Color::Magenta));
}

#[test]
fn motion_phase_is_taken_modulo_the_period() {
    let h = header(false).with_landing_motion_phase(47);
    assert_eq!(h.landing_motion_phase_override(), Some(7));
    assert_eq!(h.landing_motion_phase(), 7);
    assert_eq!(motion_phase_at(0), 0);
    assert_eq!(motion_phase_at(319), 0);
    assert_eq!(motion_phase_at(320), 1);
    assert_eq!(motion_phase_at(320 * 21), 1);
    let still = header(false).with_landing_motion(MotionMode::Static);
    assert_eq!(still.landing_motion_phase(), 0);
}

#[test]
fn landing_screen_needs_room() {
    let h = header(false).with_landing_presentation();
    assert!(h.display_lines(0).is_empty());
    assert!(h.display_lines(8).is_empty());
    assert!(!h.display_lines(9).is_empty());
}

#[test]
fn landing_screen_frame_lines_up() {
    let h = header(true).with_landing_plan(Some(PlanType::Pro)).with_landing_presentation().with_landing_motion_phase(3);
    let lines = h.landing_display_lines_at(120, 3);
    let top = text(&lines[0]);
    assert!(top.contains("§ CODEX"), "{top}");
    assert!(top.trim_start().starts_with("╭─┬ § CODEX "));
    let bottom = text(lines.last().unwrap());
    assert!(bottom.trim_start().starts_with("╰─┴"));
    for line in &lines[1..lines.len() - 1] {
        let t = text(line);
        assert!(t.trim_start().starts_with("│ "), "{t}");
        assert!(t.ends_with(" │"), "{t}");
    }
    let all: Vec<String> = texts(&lines);
    assert!(all.iter().any(|t| t.contains("§ PLAN      Pro")));
    assert!(all.iter().any(|t| t.contains("§ MODE      YOLO")));
    assert!(all.iter().any(|t| t.contains("/ commands      @ files      ? shortcuts")));
    assert!(all.iter().any(|t| t.contains("████████")));
}

#[test]
fn landing_screen_narrow_uses_the_spaced_name() {
    let h = header(false).with_landing_presentation();
    let all = texts(&h.landing_display_lines_at(20, 0));
    assert!(all.iter().any(|t| t.contains("C O D E X")), "{all:?}");
    assert!(all.iter().any(|t| t.contains("? shortcuts")));
    assert!(!all.iter().any(|t| t.contains("/ commands")));
}

#[test]
fn landing_medium_wordmark() {
    let h = header(false).with_landing_presentation();
    let all = texts(&h.landing_display_lines_at(48, 0));
    assert!(all.iter().any(|t| t.contains("██████")), "{all:?}");
    assert!(!all.iter().any(|t| t.contains("████████")));
}

#[test]
fn wordmark_rows_are_trimmed_and_colored() {
    let wordmark = vec![vec!["██  ", "█ "], vec!["█   ", "██"]];
    let lines = SessionHeaderHistoryCell::landing_wordmark_lines(&wordmark, " ", 7, 0, false);
    assert_eq!(texts(&lines), vec!["██   █", "█    ██"]);
    let first = &lines[0].spans[0];
    assert_eq!(first.style.fg, Some(Color::Rgb(201, 206, 211)));
    assert!(first.style.bold);
    let second = &lines[0].spans[1];
    assert_eq!(second.style.fg, Some(Color::Rgb(202, 207, 212)));
}

#[test]
fn wordmark_highlight_brightens_near_the_sweep() {
    let wordmark = vec![vec!["████"]];
    let still = SessionHeaderHistoryCell::landing_wordmark_lines(&wordmark, " ", 4, 0, false);
    let moving = SessionHeaderHistoryCell::landing_wordmark_lines(&wordmark, " ", 4, 9, true);
    // Frame 9 of a 40-column travel puts the highlight centre on column 0.
    assert_eq!(still[0].spans[1].style.fg, Some(Color::Rgb(202, 207, 212)));
    assert_eq!(moving[0].spans[1].style.fg, Some(Color::Rgb(220, 225, 230)));
    // Column 0 is darkened by the diagonal pattern and sits under the highlight.
    assert_eq!(moving[0].spans[0].style.fg, Some(Color::Rgb(221, 213, 199)));
}

#[test]
fn tooltip_lines_are_indented() {
    let tip = TooltipHistoryCell::new("use /model".to_string(), "/x");
    assert_eq!(tip.markdown_source(), "**Tip:** use /model");
    assert_eq!(TooltipHistoryCell::wrap_width(0), 1);
    assert_eq!(TooltipHistoryCell::wrap_width(2), 1);
    assert_eq!(TooltipHistoryCell::wrap_width(80), 78);
    let shown = tip.display_lines(vec![Line::from_text("Tip: use /model")]);
    assert_eq!(texts(&shown), vec!["  Tip: use /model"]);
    assert_eq!(texts(&tip.raw_lines()), vec!["Tip: use /model"]);
}

fn settings(model: &str) -> SessionSettings {
    SessionSettings {
        model: model.to_string(),
        model_display_name: model.to_string(),
        reasoning_effort: None,
        approval_policy: AskForApproval::OnRequest,
        permission_profile: PermissionProfile::Disabled,
    }
}

#[test]
fn first_event_shows_only_the_landing_screen() {
    let local = LocalSettings { animations: true, show_tooltips: true };
    let cell = new_session_info(
        dir("/x", None),
        "1.0",
        &local,
        "other",
        &settings("m"),
        true,
        Some("tip".to_string()),
        None,
        Some(PlanType::Unknown),
        false,
    );
    assert!(cell.header.landing_presentation());
    assert!(cell.header.landing_motion_enabled());
    assert!(cell.header.landing_plan().is_none());
    assert!(cell.tooltip.is_none());
    assert!(cell.model_change.is_none());
}

#[test]
fn later_events_show_tip_and_model_change() {
    let local = LocalSettings { animations: false, show_tooltips: true };
    let cell = new_session_info(
        dir("/x", None),
        "1.0",
        &local,
        "requested-model",
        &settings("used-model"),
        false,
        None,
        Some("default tip".to_string()),
        Some(PlanType::Plus),
        false,
    );
    assert!(!cell.header.landing_presentation());
    assert_eq!(cell.header.landing_plan(), Some("Plus"));
    assert_eq!(cell.tooltip.as_ref().map(|t| t.tip.as_str()), Some("default tip"));
    let notice = cell.model_change.as_ref().expect("notice");
    assert_eq!(
        texts(notice),
        vec!["model changed:", "requested: requested-model", "used: used-model"]
    );
    let shown = cell.display_lines(80, vec![Line::from_text("Tip: default tip")]);
    let all = texts(&shown);
    assert_eq!(all.len(), 6 + 1 + 1 + 1 + 3);
    assert_eq!(all[6], "");
    assert_eq!(all[7], "  Tip: default tip");
    assert_eq!(all[8], "");
    assert_eq!(all[9], "model changed:");
    let raw = texts(&cell.raw_lines());
    assert_eq!(raw[0], "OpenAI Codex (v1.0)");
    assert_eq!(raw[4], "Tip: default tip");
}

#[test]
fn same_model_and_no_tips_show_only_the_header() {
    let local = LocalSettings { animations: false, show_tooltips: false };
    let cell = new_session_info(
        dir("/x", None),
        "1.0",
        &local,
        "m",
        &settings("m"),
        false,
        Some("tip".to_string()),
        None,
        None,
        false,
    );
    assert!(cell.tooltip.is_none());
    assert!(cell.model_change.is_none());
    assert_eq!(cell.display_lines(80, Vec::new()).len(), 6);
}


#[test]
fn working_directory_uses_the_platform_separator() {
    let d = WorkingDirectory::new("/home/u/a".to_string(), Some("a".to_string()));
    assert_eq!(d.separator(), std::path::MAIN_SEPARATOR);
    let shown = SessionHeaderHistoryCell::format_directory_inner(&d, None);
    assert_eq!(shown, format!("~{}a", std::path::MAIN_SEPARATOR));
}

#[test]
fn yolo_card_has_a_permissions_row() {
    let lines = header(true).display_lines(80);
    assert_eq!(lines.len(), 7);
    assert_eq!(header(false).display_lines(80).len(), 6);
    assert!(text(&lines[3]).starts_with("│ model:       gpt-test"));
    assert!(text(&lines[5]).starts_with("│ permissions: YOLO mode"));
    let width = lines[0].width();
    for line in &lines {
        assert_eq!(line.width(), width);
    }
}

#[test]
fn still_landing_screen_does_not_change_between_frames() {
    let h = header(false).with_landing_presentation();
    let a = texts(&h.landing_display_lines_at(120, 3));
    let b = texts(&h.landing_display_lines_at(120, 11));
    assert_eq!(a, b);
    let wordmark = vec![vec!["████", "██"]];
    let p = SessionHeaderHistoryCell::landing_wordmark_lines(&wordmark, " ", 10, 2, false);
    let q = SessionHeaderHistoryCell::landing_wordmark_lines(&wordmark, " ", 10, 15, false);
    for (x, y) in p[0].spans.iter().zip(q[0].spans.iter()) {
        assert_eq!(x.style, y.style);
        assert_eq!(x.content, y.content);
    }
}

#[test]
fn animated_landing_screen_moves_its_highlight() {
    let h = header(false).with_landing_presentation().with_landing_motion(MotionMode::Animated);
    let a = h.landing_display_lines_at(120, 3);
    let b = h.landing_display_lines_at(120, 11);
    let styles = |lines: &Vec<Line>| -> Vec<Style> {
        lines.iter().flat_map(|l| l.spans.iter().map(|s| s.style)).collect()
    };
    assert_ne!(styles(&a), styles(&b));
    assert_eq!(texts(&a), texts(&b));
}

#[test]
fn landing_frame_is_wide_enough_for_its_hints() {
    let h = header(false).with_landing_presentation();
    let all = texts(&h.landing_display_lines_at(30, 0));
    assert!(all.iter().any(|t| t.contains("/ commands    ? shortcuts")), "{all:?}");
    let rows = h.landing_display_lines_at(30, 0);
    let width = rows[1].width();
    assert_eq!(width, 29);
    for row in &rows[1..rows.len() - 1] {
        assert_eq!(row.width(), width, "{:?}", text(row));
    }
}

#[test]
fn transcript_matches_display() {
    let local = LocalSettings { animations: false, show_tooltips: false };
    let cell = new_session_info(
        dir("/x", None),
        "1.0",
        &local,
        "m",
        &settings("m"),
        false,
        None,
        None,
        None,
        false,
    );
    assert_eq!(
        texts(&cell.transcript_lines(60, Vec::new())),
        texts(&cell.display_lines(60, Vec::new()))
    );
}

fn styled_cells(lines: &[Line]) -> Vec<Vec<(String, Style)>> {
    lines
        .iter()
        .map(|l| l.spans.iter().map(|s| (s.content.clone(), s.style)).collect())
        .collect()
}

#[test]
fn sweep_frames_outside_the_mark_look_still() {
    for (wordmark, spacing) in [(landing_wordmark_wide(), "  "), (landing_wordmark_medium(), " ")] {
        for phase in [0u8, 1, 2, 18, 19] {
            let moving = SessionHeaderHistoryCell::landing_wordmark_lines(&wordmark, spacing, 60, phase, true);
            let still = SessionHeaderHistoryCell::landing_wordmark_lines(&wordmark, spacing, 60, phase, false);
            assert_eq!(styled_cells(&moving), styled_cells(&still), "phase {phase}");
        }
        let moving = SessionHeaderHistoryCell::landing_wordmark_lines(&wordmark, spacing, 60, 10, true);
        let still = SessionHeaderHistoryCell::landing_wordmark_lines(&wordmark, spacing, 60, 10, false);
        assert_ne!(styled_cells(&moving), styled_cells(&still));
    }
}
