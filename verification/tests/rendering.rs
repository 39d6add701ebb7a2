use codex_agents::draw::{DrawOp, Rect};
use codex_agents::frame::{render_list, render_transcript_loading_overlay};
use codex_agents::header::search_line;
use codex_agents::ids::ThreadId;
use codex_agents::paths::SessionPath;
use codex_agents::picker::{PickerState, PreviewLayout};
use codex_agents::render_card::{
    DenseSummaryInput, dense_summary_line, render_comfortable_session_lines,
    render_dense_session_lines,
};
use codex_agents::render_row::{
    Palette, dense_zebra_style, selected_session_style, selection_marker,
};
use codex_agents::render_session::render_expanded_session_details;
use codex_agents::row::Row;
use codex_agents::session::{
    ProviderFilter, SessionListDensity, SessionPickerAction, TranscriptPreviewLine,
    TranscriptPreviewSpeaker, TranscriptPreviewState,
};
use codex_agents::style::{Color, Line, Span, Style, line_width};
use codex_agents::time::{
    Timestamp, format_relative_time, format_relative_time_long, parse_timestamp_str,
};

fn timestamp(text: &str) -> Timestamp {
    parse_timestamp_str(text).expect("timestamp should parse")
}

fn before(instant: Timestamp, seconds: i64) -> Option<Timestamp> {
    Timestamp::from_unix(instant.unix_seconds() - seconds, 0)
}

fn path(text: &str) -> SessionPath {
    SessionPath::new(text)
}

fn empty_row(preview: &str) -> Row {
    Row {
        path: None,
        preview: preview.to_string(),
        thread_id: None,
        thread_name: None,
        created_at: None,
        updated_at: None,
        cwd: None,
        git_branch: None,
        dashboard_status: None,
    }
}

fn make_row(path_text: &str, ts: &str, preview: &str) -> Row {
    let at = timestamp(ts);
    Row {
        path: Some(path(path_text)),
        preview: preview.to_string(),
        thread_id: None,
        thread_name: None,
        created_at: Some(at),
        updated_at: Some(at),
        cwd: None,
        git_branch: None,
        dashboard_status: None,
    }
}

fn picker() -> PickerState {
    PickerState::new(
        ProviderFilter::MatchDefault(String::from("openai")),
        true,
        None,
        SessionPickerAction::Resume,
    )
}

fn text(line: &Line) -> String {
    line.spans.iter().map(|span| span.content.as_str()).collect()
}

/// The cells that draw operations leave on a screen, one line of text for each row.
fn screen(ops: &[DrawOp], width: u16, height: u16) -> String {
    let mut cells = vec![vec![String::from(" "); width as usize]; height as usize];
    for op in ops {
        match op {
            DrawOp::Clear { area } | DrawOp::Fill { area, .. } => {
                for y in area.y..area.y + area.height {
                    for x in area.x..area.x + area.width {
                        cells[y as usize][x as usize] = String::from(" ");
                    }
                }
            }
            DrawOp::Text { area, line } => {
                let mut x = area.x as usize;
                for ch in text(line).chars() {
                    let columns = unicode_width::UnicodeWidthChar::width(ch).unwrap_or(0);
                    if columns == 0 || x + columns > (area.x + area.width) as usize {
                        continue;
                    }
                    cells[area.y as usize][x] = ch.to_string();
                    x += columns;
                }
            }
            DrawOp::Composer { .. } => {}
        }
    }
    cells
        .iter()
        .map(|row| row.concat().trim_end().to_string())
        .collect::<Vec<_>>()
        .join("\n")
}

fn list_screen(state: &PickerState, width: u16, height: u16) -> String {
    let ops = render_list(state, Rect::new(0, 0, width, height));
    screen(&ops, width, height)
}

#[test]
fn relative_time_formats_zero_seconds_as_now() {
    let reference = timestamp("2026-05-02T12:00:00Z");

    assert_eq!(format_relative_time(reference, Some(reference)), "now");
    assert_eq!(format_relative_time(reference, before(reference, 1)), "1s ago");
}

#[test]
fn long_relative_time_uses_words() {
    let reference = timestamp("2026-05-02T12:00:00Z");

    assert_eq!(format_relative_time_long(reference, reference), "now");
    assert_eq!(
        format_relative_time_long(reference, before(reference, 20 * 60).expect("timestamp")),
        "20 minutes ago"
    );
    assert_eq!(
        format_relative_time_long(reference, before(reference, 60 * 60).expect("timestamp")),
        "1 hour ago"
    );
}

fn thread() -> ThreadId {
    ThreadId::from_string("019dabc1-0ef5-7431-b81c-03037f51f62c").expect("thread id")
}

#[test]
fn expanded_session_details_include_metadata() {
    let mut state = picker();
    state.relative_time_reference = parse_timestamp_str("2026-05-02T14:48:19Z");
    let mut row = empty_row("first message");
    row.path = Some(path("/tmp/a.jsonl"));
    row.thread_id = Some(thread());
    row.thread_name = Some(String::from("feat(tui): add raw scrollback mode"));
    row.created_at = parse_timestamp_str("2026-05-02T14:31:08Z");
    row.updated_at = parse_timestamp_str("2026-05-02T14:48:19Z");
    row.cwd = Some(path("/Users/felipe.coury/code/codex"));
    row.git_branch = Some(String::from("codex/raw-scrollback-mode"));

    let rendered = render_expanded_session_details(&row, &state, 120)
        .iter()
        .map(text)
        .collect::<Vec<_>>()
        .join("\n");
    let expected_directory = &row.cwd.as_ref().expect("cwd").label;

    assert!(rendered.contains(
        "Session:    feat(tui): add raw scrollback mode (019dabc1-0ef5-7431-b81c-03037f51f62c)"
    ));
    assert!(rendered.contains("Created:    17 minutes ago · 2026-05-02 14:31:08"));
    assert!(rendered.contains("Updated:    now · 2026-05-02 14:48:19"));
    assert!(rendered.contains(&format!("Directory:  {expected_directory}")));
    assert!(rendered.contains("Branch:     \u{e0a0} codex/raw-scrollback-mode"));
    assert!(rendered.contains("Conversation:"));
}

#[test]
fn resume_table_snapshot() {
    let mut state = picker();
    let now = timestamp("2026-04-28T16:30:00Z");
    let rows = [
        ("/tmp/a.jsonl", "Fix resume picker timestamps", 16 * 60, 42),
        ("/tmp/b.jsonl", "Investigate lazy pagination cap", 60 * 60, 35 * 60),
        ("/tmp/c.jsonl", "Explain the codebase", 2 * 60 * 60, 2 * 60 * 60),
    ]
    .map(|(row_path, preview, created, updated)| {
        let mut row = empty_row(preview);
        row.path = Some(path(row_path));
        row.created_at = before(now, created);
        row.updated_at = before(now, updated);
        row
    });
    state.all_rows = rows.to_vec();
    state.filtered_rows = rows.to_vec();
    state.relative_time_reference = Some(now);
    state.selected = 1;
    state.scroll_top = 0;
    state.update_viewport(12, 80);

    assert_eq!(
        list_screen(&state, 80, 12),
        [
            "  Fix resume picker timestamps",
            "  42s ago       ⌁ no cwd                         \u{e0a0} no branch",
            "",
            "❯ Investigate lazy pagination cap",
            "  35m ago       ⌁ no cwd                         \u{e0a0} no branch",
            "",
            "  Explain the codebase",
            "  2h ago        ⌁ no cwd                         \u{e0a0} no branch",
            "",
            "",
            "",
            "",
        ]
        .join("\n")
    );
}

#[test]
fn resume_search_error_snapshot() {
    let mut state = picker();
    state.inline_error =
        Some(String::from("Failed to read session metadata from /tmp/missing.jsonl"));

    let line = search_line(&state, 80);
    assert_eq!(text(&line), "Failed to read session metadata from /tmp/missing.jsonl");
    assert_eq!(line.spans[0].style, Style::fg(Color::Red));
}

#[test]
fn transcript_loading_overlay_snapshot() {
    let mut state = picker();
    state.pending_transcript_open = Some(ThreadId { bits: 1 });
    let mut first = empty_row("Find pending threads and emails");
    first.thread_id = Some(ThreadId { bits: 1 });
    let mut second = empty_row("Plan raw scrollback mode");
    second.thread_id = Some(ThreadId { bits: 2 });
    state.filtered_rows = vec![first, second];
    state.update_viewport(7, 80);

    let area = Rect::new(0, 0, 80, 7);
    let mut ops = render_list(&state, area);
    ops.append(&mut render_transcript_loading_overlay(state.palette, area));
    assert_eq!(
        screen(&ops, 80, 7),
        [
            "❯ Find pending threads and emails",
            "  -             ⌁ no cwd                         \u{e0a0} no branch",
            "",
            "  Plan raw scrollback mod     Loading transcript…",
            "  -             ⌁ no cwd                              branch",
            "",
            "",
        ]
        .join("\n")
    );
}

#[test]
fn search_line_renders_sort_and_filter_tabs() {
    let state = PickerState::new(
        ProviderFilter::MatchDefault(String::from("openai")),
        false,
        Some(path("/tmp/project")),
        SessionPickerAction::Resume,
    );

    assert_eq!(
        text(&search_line(&state, 100)),
        "Type to search            Filter: [Cwd] All    Status: [Active] Archived    Sort: [Updated] Created "
    );
}

#[test]
fn search_line_compacts_toolbar_on_narrow_width() {
    let state = PickerState::new(
        ProviderFilter::MatchDefault(String::from("openai")),
        false,
        Some(path("/tmp/project")),
        SessionPickerAction::Resume,
    );

    let line = text(&search_line(&state, 40));

    assert!(line.contains("Filter:[Cwd]"));
    assert!(line.contains("[Active]"));
    assert!(line.contains("Sort:[Updated]"));
    assert!(line.find("Filter:[Cwd]") < line.find("Sort:[Updated]"));
}

fn dense_snapshot_row() -> Row {
    let mut row = empty_row(
        "Propose session picker redesign with enough title text to exercise truncation",
    );
    row.path = Some(path("/tmp/a.jsonl"));
    row.thread_id = Some(thread());
    row.created_at = parse_timestamp_str("2026-04-28T16:30:00Z");
    row.updated_at = parse_timestamp_str("2026-04-28T17:45:00Z");
    row.cwd = Some(path("/Users/felipe.coury/code/codex.fcoury-session-picker/codex-rs"));
    row.git_branch = Some(String::from("fcoury/session-picker"));
    row
}

fn dense_screen(show_all: bool, filter_cwd: Option<SessionPath>, width: u16) -> String {
    let row = dense_snapshot_row();
    let mut state = PickerState::new(
        ProviderFilter::MatchDefault(String::from("openai")),
        show_all,
        filter_cwd,
        SessionPickerAction::Resume,
    );
    state.density = SessionListDensity::Dense;
    state.all_rows = vec![row.clone()];
    state.filtered_rows = vec![row];
    state.relative_time_reference = Some(timestamp("2026-04-28T18:00:00Z"));
    list_screen(&state, width, 3)
}

#[test]
fn dense_session_snapshot_omits_cwd_in_cwd_filter() {
    let cwd = path("/Users/felipe.coury/code/codex.fcoury-session-picker/codex-rs");
    assert_eq!(
        dense_screen(false, Some(cwd), 100),
        [
            "❯ 15m ago     Propose session picker redesign with enough title text to exercise truncation",
            "",
            "",
        ]
        .join("\n")
    );
}

#[test]
fn dense_session_snapshot_includes_cwd_in_all_filter() {
    assert_eq!(
        dense_screen(true, None, 120),
        [
            "❯ 15m ago     Propose session picker redesign with enough title text to exercise truncation",
            "",
            "",
        ]
        .join("\n")
    );
}

#[test]
fn dense_session_snapshot_auto_hides_cwd_when_narrow() {
    assert_eq!(
        dense_screen(true, None, 100),
        [
            "❯ 15m ago     Propose session picker redesign with enough title text to exercise truncation",
            "",
            "",
        ]
        .join("\n")
    );
}

#[test]
fn dense_session_snapshot_forces_cwd_when_narrow() {
    assert_eq!(
        dense_screen(true, None, 48),
        [
            "❯ 15m ago     Propose session picker redesig...",
            "",
            "",
        ]
        .join("\n")
    );
}

#[test]
fn dense_session_snapshot_drops_metadata_when_narrow() {
    assert_eq!(
        dense_screen(true, None, 48),
        [
            "❯ 15m ago     Propose session picker redesig...",
            "",
            "",
        ]
        .join("\n")
    );
}

#[test]
fn dense_session_line_prefers_thread_name_over_preview() {
    let mut row = dense_snapshot_row();
    row.preview = String::from("Raw conversation preview");
    row.thread_name = Some(String::from("Named session"));

    let mut state = picker();
    state.relative_time_reference = Some(timestamp("2026-04-28T18:00:00Z"));

    let rendered = render_dense_session_lines(&row, &state, false, false, false, 100)
        .iter()
        .map(text)
        .collect::<Vec<_>>()
        .join("\n");

    assert!(rendered.contains("Named session"));
    assert!(!rendered.contains("Raw conversation preview"));
}

/// A palette in which every color that depends on the terminal is told apart.
fn dark_palette() -> Palette {
    Palette {
        light: false,
        zebra_background: Some(Color::Rgb(14, 14, 14)),
        selected_background: Some(Color::Rgb(31, 31, 31)),
        overlay_background: Some(Color::Rgb(36, 36, 36)),
        light_title: Color::Green,
    }
}

#[test]
fn dense_selected_summary_line_uses_full_width_selection_style() {
    let palette = dark_palette();
    let line = dense_summary_line(DenseSummaryInput {
        palette,
        marker: selection_marker(palette, true, false),
        date: "15m ago",
        title: "Selected dense row",
        dashboard_status: None,
        is_dashboard: false,
        is_selected: true,
        is_zebra: false,
        width: 80,
    });

    assert_eq!(line_width(&line), 80);
    assert_eq!(line.style.fg, selected_session_style(palette).fg);
    assert_eq!(line.spans[0].content, "❯ ");
}

#[test]
fn dense_zebra_summary_line_uses_full_width_background() {
    let palette = dark_palette();
    let line = dense_summary_line(DenseSummaryInput {
        palette,
        marker: selection_marker(palette, false, false),
        date: "15m ago",
        title: "Zebra dense row",
        dashboard_status: None,
        is_dashboard: false,
        is_selected: false,
        is_zebra: true,
        width: 80,
    });

    assert_eq!(line_width(&line), 80);
    assert_eq!(line.style.bg, dense_zebra_style(palette).bg);
    assert_eq!(line.style.bg, Some(Color::Rgb(14, 14, 14)));
}

#[test]
fn comfortable_zebra_lines_use_full_width_background() {
    let mut state = picker();
    state.palette = dark_palette();
    state.relative_time_reference = Some(timestamp("2026-05-02T12:00:00Z"));
    let row = make_row("/tmp/a.jsonl", "2026-05-02T11:45:00Z", "Zebra comfortable row");

    let lines = render_comfortable_session_lines(&row, &state, false, false, true, 100);

    assert_eq!(lines.len(), 2);
    assert!(lines.iter().all(|line| line_width(line) == 100));
    assert!(lines.iter().all(|line| line.style.bg == dense_zebra_style(state.palette).bg));
}

#[test]
fn dense_session_snapshot_uses_no_blank_lines_between_rows() {
    let mut first = dense_snapshot_row();
    first.preview = String::from("First dense row");
    let mut second = dense_snapshot_row();
    second.preview = String::from("Second dense row");
    second.git_branch = Some(String::from("fcoury/other-branch"));
    let mut state = PickerState::new(
        ProviderFilter::MatchDefault(String::from("openai")),
        false,
        Some(path("/Users/felipe.coury/code/codex.fcoury-session-picker/codex-rs")),
        SessionPickerAction::Resume,
    );
    state.density = SessionListDensity::Dense;
    state.all_rows = vec![first.clone(), second.clone()];
    state.filtered_rows = vec![first, second];
    state.selected = 1;
    state.relative_time_reference = Some(timestamp("2026-04-28T18:00:00Z"));

    assert_eq!(
        list_screen(&state, 80, 2),
        [
            "  15m ago     First dense row",
            "❯ 15m ago     Second dense row",
        ]
        .join("\n")
    );
}

fn session_row() -> Row {
    let mut row = empty_row("Investigate picker expansion");
    row.path = Some(path("/tmp/a.jsonl"));
    row.thread_id = Some(thread());
    row.created_at = parse_timestamp_str("2026-04-28T16:30:00Z");
    row.updated_at = parse_timestamp_str("2026-04-28T17:45:00Z");
    row.cwd = Some(path("/tmp/codex"));
    row.git_branch = Some(String::from("fcoury/session-picker"));
    row
}

/// A line of a conversation that the front end laid out as it stands.
fn laid_out(content: &str) -> Vec<Line> {
    vec![Line::one(Span::from_text(content, Style::plain()))]
}

#[test]
fn expanded_session_snapshot() {
    let row = session_row();
    let mut state = picker();
    state.all_rows = vec![row.clone()];
    state.filtered_rows = vec![row];
    state.relative_time_reference = Some(timestamp("2026-04-28T18:00:00Z"));
    state.expanded_thread_id = Some(thread());
    state.transcript_previews.insert(
        thread().bits,
        TranscriptPreviewState::Loaded(vec![
            TranscriptPreviewLine {
                speaker: TranscriptPreviewSpeaker::User,
                text: String::from("Show me the recent transcript"),
            },
            TranscriptPreviewLine {
                speaker: TranscriptPreviewSpeaker::Assistant,
                text: String::from("Here are the *last* few lines."),
            },
        ]),
    );
    state.preview_layouts.insert(
        thread().bits,
        PreviewLayout {
            width: 90,
            content: vec![
                laid_out("Show me the recent transcript"),
                laid_out("Here are the last few lines."),
            ],
        },
    );

    assert_eq!(
        list_screen(&state, 90, 11),
        [
            "⌄ Investigate picker expansion",
            "  │ Session:    019dabc1-0ef5-7431-b81c-03037f51f62c",
            "  │ Created:    1 hour ago · 2026-04-28 16:30:00",
            "  │ Updated:    15 minutes ago · 2026-04-28 17:45:00",
            "  │ Directory:  /tmp/codex",
            "  │ Branch:     \u{e0a0} fcoury/session-picker",
            "  │",
            "  │ Conversation:",
            "  │ Show me the recent transcript",
            "  └ Here are the last few lines.",
            "",
        ]
        .join("\n")
    );
}

#[test]
fn narrow_session_snapshot() {
    let row = session_row();
    let mut state = picker();
    state.all_rows = vec![row.clone()];
    state.filtered_rows = vec![row];
    state.relative_time_reference = Some(timestamp("2026-04-28T18:00:00Z"));

    assert_eq!(
        list_screen(&state, 58, 6),
        [
            "❯ Investigate picker expansion",
            "  15m ago       ⌁ /tmp/codex",
            "  \u{e0a0} fcoury/session-picker",
            "",
            "",
            "",
        ]
        .join("\n")
    );
}

fn items(now: Timestamp, count: i64) -> Vec<Row> {
    (0..count)
        .map(|idx| {
            let mut row = empty_row(&format!("item-{idx}"));
            row.path = Some(path(&format!("/tmp/{idx}.jsonl")));
            row.created_at = before(now, idx * 60 * 60);
            row.updated_at = before(now, idx * 5 * 60);
            row
        })
        .collect()
}

#[test]
fn session_list_more_indicators_snapshot() {
    let mut state = picker();
    let now = timestamp("2026-04-28T16:30:00Z");
    state.all_rows = items(now, 5);
    state.filtered_rows = items(now, 5);
    state.relative_time_reference = Some(now);
    state.selected = 2;
    state.scroll_top = 1;
    state.update_viewport(6, 80);

    assert_eq!(
        list_screen(&state, 80, 6),
        [
            "↑ more",
            "❯ item-2",
            "  10m ago       ⌁ no cwd                         \u{e0a0} no branch",
            "",
            "  item-3",
            "↓ more",
        ]
        .join("\n")
    );
}

#[test]
fn density_toggle_clears_stale_more_indicator() {
    let mut state = picker();
    let now = timestamp("2026-04-28T16:30:00Z");
    state.all_rows = items(now, 4);
    state.filtered_rows = items(now, 4);
    state.relative_time_reference = Some(now);

    state.update_viewport(6, 80);
    assert!(list_screen(&state, 80, 6).contains("↓ more"));

    state.density = SessionListDensity::Dense;
    state.update_viewport(6, 80);
    assert!(!list_screen(&state, 80, 6).contains("↓ more"));
}
