use codex_agents::agents::{default_footer_hints, parse_group_command};
use codex_agents::bootstrap::{BootstrapAction, BootstrapEvent, bootstrap_for_agents};
use codex_agents::composer::{ComposerAttachments, ComposerEdit, Inventory};
use codex_agents::dashboard::{DashboardGroupMode, DashboardStatus};
use codex_agents::draw::{DrawOp, Rect};
use codex_agents::events::BackgroundEvent;
use codex_agents::frame::{render_list, render_picker_frame};
use codex_agents::header::filter_mode_label;
use codex_agents::history::{
    DashboardAppAction, DashboardAppEvent, HistoryBatch, HistoryBatchEntry, HistoryCursor,
    HistoryLookupResponse, HistoryRecord, batch_response, entry_response,
};
use codex_agents::ids::ThreadId;
use codex_agents::keyboard::KeyOutcome;
use codex_agents::keys::{
    KeyChordMatch, KeyCode, KeyEvent, KeyEventKind, KeyModifiers, KeymapContext, ListKeymap,
};
use codex_agents::launch::{
    PickerConfig, RawReasoningVisibility, SessionPickerLaunch, Workspace, fork_options,
    keymap_error, loader_options, local_picker_cwd_filter, open_picker, picker_cwd_filter,
    picker_provider_filter, raw_reasoning_visibility, resume_options,
};
use codex_agents::layout::{picker_areas, picker_bottom_height};
use codex_agents::loader::{
    LoaderAction, LoaderCall, LoaderInput, LoaderReply, Skill, SkillsListEntry, loader_call,
    loader_event, loader_step, new_loader_call, page_from_response, request_id, skills_for,
};
use codex_agents::metadata::cwd_column_width;
use codex_agents::paths::{SessionPath, is_same_path, paths_match};
use codex_agents::picker::{FrameDelay, PickerState, route_key_chord};
use codex_agents::preview::{PreviewLoad, transcript_preview, transcript_preview_lines_for_item};
use codex_agents::protocol::{
    AppServerEvent, ServerNotification, Thread, ThreadItem, ThreadItemsPage, ThreadListResponse,
    ThreadSortKey, ThreadStatus, TrustedFileLink, UserInput,
};
use codex_agents::render_row::{Backdrop, Palette, backdrop_blend};
use codex_agents::row::Row;
use codex_agents::run::{PasteBurst, Screen, TerminalEvent, TerminalOutcome};
use codex_agents::search::PickerPage;
use codex_agents::session::{
    DashboardResumeState, PageCursor, PageLoadMode, PickerLoadRequest, ProviderFilter,
    SessionFilterMode, SessionListDensity, SessionPickerAction, SessionPickerLaunchContext,
    SessionPickerViewMode, SessionSelection, SessionStatus, SessionTarget, SessionTranscriptState,
    ToolbarControl, TranscriptCells, TranscriptPreviewLine, TranscriptPreviewSpeaker,
};
use codex_agents::style::{Color, Line, Span, Style, line_width};
use codex_agents::time::{
    Timestamp, elapsed_seconds, format_relative_time, format_timestamp, parse_timestamp_str,
    plural_time,
};
use codex_agents::toolbar::sort_key_label;

fn page(
    rows: Vec<Row>,
    next_cursor: Option<&str>,
    num_scanned_files: usize,
    reached_scan_cap: bool,
) -> PickerPage {
    PickerPage {
        rows,
        dashboard_system_errors: Vec::new(),
        next_cursor: next_cursor.map(|cursor| PageCursor::AppServer(cursor.to_string())),
        num_scanned_files,
        reached_scan_cap,
    }
}

fn timestamp(text: &str) -> Timestamp {
    parse_timestamp_str(text).expect("timestamp should parse")
}

fn before(instant: Timestamp, seconds: i64) -> Option<Timestamp> {
    Timestamp::from_unix(instant.unix_seconds() - seconds, 0)
}

fn path(text: &str) -> SessionPath {
    SessionPath::new(text)
}

fn empty_row(preview: &str) -> Row {
    Row {
        path: None,
        preview: preview.to_string(),
        thread_id: None,
        thread_name: None,
        created_at: None,
        updated_at: None,
        cwd: None,
        git_branch: None,
        dashboard_status: None,
    }
}

fn make_row(path_text: &str, ts: &str, preview: &str) -> Row {
    let at = timestamp(ts);
    Row {
        path: Some(path(path_text)),
        preview: preview.to_string(),
        thread_id: None,
        thread_name: None,
        created_at: Some(at),
        updated_at: Some(at),
        cwd: None,
        git_branch: None,
        dashboard_status: None,
    }
}

fn picker() -> PickerState {
    PickerState::new(
        ProviderFilter::MatchDefault(String::from("openai")),
        true,
        None,
        SessionPickerAction::Resume,
    )
}

fn plain(code: KeyCode) -> KeyEvent {
    KeyEvent::new(code, KeyModifiers { shift: false, control: false, alt: false, other: 0 })
}

fn control(code: KeyCode) -> KeyEvent {
    KeyEvent::new(code, KeyModifiers { shift: false, control: true, alt: false, other: 0 })
}

fn text(line: &Line) -> String {
    line.spans.iter().map(|span| span.content.as_str()).collect()
}

/// The cells that draw operations leave on a screen, one line of text for each row.
fn screen(ops: &[DrawOp], width: u16, height: u16) -> String {
    let mut cells = vec![vec![String::from(" "); width as usize]; height as usize];
    for op in ops {
        match op {
            DrawOp::Clear { area } | DrawOp::Fill { area, .. } => {
                for y in area.y..area.y + area.height {
                    for x in area.x..area.x + area.width {
                        cells[y as usize][x as usize] = String::from(" ");
                    }
                }
            }
            DrawOp::Text { area, line } => {
                let mut x = area.x as usize;
                for ch in text(line).chars() {
                    let columns = unicode_width::UnicodeWidthChar::width(ch).unwrap_or(0);
                    if columns == 0 || x + columns > (area.x + area.width) as usize {
                        continue;
                    }
                    cells[area.y as usize][x] = ch.to_string();
                    x += columns;
                }
            }
            DrawOp::Composer { .. } => {}
        }
    }
    cells
        .iter()
        .map(|row| row.concat().trim_end().to_string())
        .collect::<Vec<_>>()
        .join("\n")
}

fn make_dashboard_row(
    id: u128,
    cwd: &str,
    ts: &str,
    preview: &str,
    status: DashboardStatus,
) -> Row {
    let mut row = make_row(&format!("/tmp/{}.jsonl", preview.replace(' ', "-")), ts, preview);
    row.thread_id = Some(ThreadId { bits: id });
    row.cwd = Some(path(cwd));
    row.dashboard_status = Some(status);
    row
}

fn dashboard_state(rows: Vec<Row>) -> PickerState {
    let mut state = picker();
    state.launch_context = SessionPickerLaunchContext::AgentsDashboard;
    state.initialize_dashboard_composer(&path("/work/invocation"));
    state.current_time = timestamp("2026-04-28T16:30:00Z");
    state.relative_time_reference = Some(timestamp("2026-04-28T16:30:00Z"));
    state.all_rows = rows;
    state.apply_filter();
    state
}

/// What the front end tells of a composer into which a draft was typed.
fn type_draft(state: &mut PickerState, draft: &str) {
    let composer = state.dashboard_composer.as_mut().expect("dashboard composer");
    composer.observe(draft.to_string(), false, false, false);
}

fn draft(state: &PickerState) -> &str {
    state.dashboard_composer.as_ref().expect("dashboard composer").text.as_str()
}

fn no_attachments() -> ComposerAttachments {
    ComposerAttachments {
        local_images: Vec::new(),
        remote_image_urls: Vec::new(),
        mention_bindings: Vec::new(),
    }
}

fn modifiers(shift: bool, control: bool, alt: bool) -> KeyModifiers {
    KeyModifiers { shift, control, alt, other: 0 }
}

#[test]
fn toggles_come_back() {
    for mode in [DashboardGroupMode::Project, DashboardGroupMode::Status] {
        assert_eq!(mode.toggle().toggle(), mode);
    }
    for density in [SessionListDensity::Comfortable, SessionListDensity::Dense] {
        assert_eq!(density.toggle().toggle(), density);
        assert_eq!(SessionListDensity::from(SessionPickerViewMode::from(density)), density);
    }
    let cwd = path("/work");
    for mode in [SessionFilterMode::Cwd, SessionFilterMode::All] {
        assert_eq!(mode.toggle(Some(&cwd)).toggle(Some(&cwd)), mode);
        assert_eq!(mode.toggle(None), SessionFilterMode::All);
    }
    assert_eq!(SessionFilterMode::from_show_all(false, Some(&cwd)), SessionFilterMode::Cwd);
    assert_eq!(SessionFilterMode::from_show_all(true, Some(&cwd)), SessionFilterMode::All);
    assert_eq!(SessionFilterMode::from_show_all(false, None), SessionFilterMode::All);
}

#[test]
fn toolbar_focus_goes_round() {
    let resume = SessionPickerAction::Resume;
    let mut control = ToolbarControl::Filter;
    let mut seen = Vec::new();
    for _ in 0..3 {
        seen.push(control);
        assert_eq!(control.next(resume).previous(resume), control);
        control = control.next(resume);
    }
    assert_eq!(
        seen,
        vec![ToolbarControl::Filter, ToolbarControl::Status, ToolbarControl::Sort]
    );
    assert_eq!(control, ToolbarControl::Filter);

    let fork = SessionPickerAction::Fork;
    assert_eq!(ToolbarControl::Filter.next(fork), ToolbarControl::Sort);
    assert_eq!(ToolbarControl::Sort.previous(fork), ToolbarControl::Filter);
}

#[test]
fn actions_have_titles_and_choices() {
    assert_eq!(SessionPickerAction::Resume.title(), "Resume a previous session");
    assert_eq!(SessionPickerAction::Fork.title(), "Fork a previous session");
    assert_eq!(SessionPickerAction::Resume.action_label(), "resume");
    assert_eq!(SessionPickerAction::Fork.action_label(), "fork");
    let chosen = SessionPickerAction::Fork.selection(Some(path("/tmp/a")), ThreadId { bits: 3 });
    assert!(matches!(
        chosen,
        SessionSelection::Fork(SessionTarget { thread_id, .. }) if thread_id == ThreadId { bits: 3 }
    ));
}

#[test]
fn targets_are_shown_by_path_or_thread() {
    let target = SessionTarget { path: Some(path("/tmp/a.jsonl")), thread_id: ThreadId { bits: 1 } };
    assert_eq!(target.display_label(), "/tmp/a.jsonl");
    let target = SessionTarget { path: None, thread_id: ThreadId { bits: 1 } };
    assert_eq!(target.display_label(), "thread 00000000-0000-0000-0000-000000000001");
}

#[test]
fn thread_ids_are_read_back() {
    let text = "019dabc1-0ef5-7431-b81c-03037f51f62c";
    let id = ThreadId::from_string(text).expect("thread id");
    assert_eq!(id.bits, 0x019dabc1_0ef5_7431_b81c_03037f51f62c);
    assert_eq!(id.text(), text);
    assert_eq!(ThreadId::from_string(&id.text()), Some(id));
    assert_eq!(ThreadId::from_string("019dabc10ef57431b81c03037f51f62c"), Some(id));
    assert_eq!(ThreadId::from_string("not a thread"), None);
}

#[test]
fn timestamps_are_read_and_shown() {
    let instant = timestamp("2026-05-02T16:31:08+02:00");
    assert_eq!(
        instant.unix_seconds(),
        timestamp("2026-05-02T14:31:08Z").unix_seconds()
    );
    assert_eq!(instant.unix_seconds(), 1777732268);
    assert_eq!(format_timestamp(instant), "2026-05-02 14:31:08");
    assert!(parse_timestamp_str("yesterday").is_none());
    assert!(Timestamp::from_unix(i64::MAX, 0).is_none());
    assert!(matches!(Timestamp::from_unix(0, 0), Some(at) if at.unix_seconds() == 0));
    assert_eq!(Timestamp::epoch().unix_seconds(), 0);
}

#[test]
fn relative_times_are_rounded_down() {
    let now = timestamp("2026-05-02T12:00:00Z");
    let at = |seconds: i64| format_relative_time(now, before(now, seconds));
    assert_eq!(at(59), "59s ago");
    assert_eq!(at(60), "1m ago");
    assert_eq!(at(60 * 60 - 1), "59m ago");
    assert_eq!(at(60 * 60), "1h ago");
    assert_eq!(at(24 * 60 * 60), "1d ago");
    assert_eq!(at(-5), "now");
    assert_eq!(format_relative_time(now, None), "-");
    assert_eq!(elapsed_seconds(now, before(now, 90).expect("timestamp")), 90);
    assert_eq!(elapsed_seconds(now, before(now, -90).expect("timestamp")), 0);
    assert_eq!(plural_time(1, "day"), "1 day ago");
    assert_eq!(plural_time(2, "day"), "2 days ago");
}

#[test]
fn searching_ignores_case() {
    let mut state = picker();
    state.all_rows = vec![empty_row("Fix the PICKER"), empty_row("ÄPFEL zählen")];
    state.set_query(String::from("picker"));
    assert_eq!(state.filtered_rows.len(), 1);
    state.set_query(String::from("äPFEL"));
    assert_eq!(state.filtered_rows[0].preview, "ÄPFEL zählen");
    state.set_query(String::from("pears"));
    assert!(state.filtered_rows.is_empty());
}

#[test]
fn wide_characters_take_two_columns() {
    let line = Line::two(
        Span::from_text("日本", Style::plain()),
        Span::from_text(" ok", Style::bold()),
    );
    assert_eq!(line_width(&line), 7);
}

#[test]
fn screens_are_shared_by_the_parts() {
    let areas = picker_areas(Rect::new(2, 3, 80, 24), 4);
    assert_eq!(areas.header, Rect::new(2, 3, 80, 1));
    assert_eq!(areas.search, Rect::new(2, 5, 80, 1));
    assert_eq!(areas.list, Rect::new(2, 7, 80, 16));
    assert_eq!(areas.bottom, Rect::new(2, 23, 80, 4));

    let lowest = picker_areas(Rect::new(0, 0, 80, 9), 4);
    assert_eq!(lowest.list, Rect::new(0, 4, 80, 1));
    assert_eq!(lowest.bottom, Rect::new(0, 5, 80, 4));

    let low = picker_areas(Rect::new(0, 0, 30, 3), 4);
    assert_eq!((low.bottom.x, low.bottom.width), (0, 30));

    assert_eq!(picker_bottom_height(None, 24), 4);
    assert_eq!(picker_bottom_height(Some(2), 24), 4);
    assert_eq!(picker_bottom_height(Some(9), 24), 9);
    assert_eq!(picker_bottom_height(Some(40), 24), 18);
    assert_eq!(picker_bottom_height(Some(40), 5), 4);
}

#[test]
fn new_picker_knows_neither_terminal_nor_pages() {
    let state = picker();
    assert_eq!(state.pagination.mode, PageLoadMode::StoreDefault);
    assert!(!state.palette.light);
    assert_eq!(state.palette.zebra_background, None);
    assert_eq!(state.palette.selected_background, None);
    assert_eq!(state.palette.overlay_background, None);
    assert_eq!(state.palette.light_title, Color::Green);
}

#[test]
fn low_screens_keep_the_parts_in_order() {
    for height in 0..14 {
        for bottom_height in [0, 1, 4, 7, 30] {
            let area = Rect::new(2, 3, 80, height);
            let areas = picker_areas(area, bottom_height);
            let mut at = area.y;
            for part in [areas.header, areas.search, areas.list, areas.bottom] {
                assert_eq!((part.x, part.width), (2, 80));
                assert!(at <= part.y, "{area:?} {bottom_height}: {areas:?}");
                at = part.y + part.height;
            }
            assert!(at <= area.y + area.height, "{area:?} {bottom_height}: {areas:?}");
        }
    }
}

#[test]
fn areas_end_with_the_screen() {
    assert_eq!(Rect::new(65530, 65535, 80, 4), Rect { x: 65530, y: 65535, width: 5, height: 0 });
    assert_eq!(Rect { x: 0, y: 65530, width: 1, height: 20 }.bottom(), 65535);
}

#[test]
fn the_frame_holds_title_search_list_and_footer() {
    let mut state = picker();
    state.all_rows = vec![make_row("/tmp/a.jsonl", "2026-05-02T11:59:00Z", "only session")];
    state.relative_time_reference = Some(timestamp("2026-05-02T12:00:00Z"));
    state.apply_filter();
    let areas = picker_areas(Rect::new(0, 0, 60, 12), picker_bottom_height(None, 12));
    let ops = render_picker_frame(&state, areas, 100);
    let shown = screen(&ops, 60, 12);
    let lines: Vec<&str> = shown.split('\n').collect();
    assert_eq!(lines[0], " Resume a previous session");
    assert!(lines[2].starts_with(" Type to search"));
    assert_eq!(lines[4], "  ❯ only session");
    assert!(lines[5].starts_with("    1m ago"));
    assert!(lines[8].ends_with(" 1 / 1 · 100% ─"));
    assert!(lines[9].contains("enter"));

    state.pending_transcript_open = Some(ThreadId { bits: 1 });
    let ops = render_picker_frame(&state, areas, 100);
    assert!(ops.iter().any(|op| matches!(
        op,
        DrawOp::Fill { style, .. } if style.bg == Some(Color::DarkGray)
    )));
    assert!(screen(&ops, 60, 12).contains("Loading transcript…"));
}

#[test]
fn empty_lists_say_why() {
    let mut state = picker();
    let said = |state: &PickerState| {
        let ops = render_list(state, Rect::new(0, 0, 60, 1));
        screen(&ops, 60, 1)
    };
    assert_eq!(said(&state), "No sessions yet");
    state.start_initial_load();
    assert_eq!(said(&state), "Loading sessions…");
    state.pagination.num_scanned_files = 3;
    assert_eq!(said(&state), "Loading older sessions…");
    state.query = String::from("x");
    state.pagination.pending = None;
    assert_eq!(said(&state), "No results for your search");
    state.pagination.reached_scan_cap = true;
    assert_eq!(said(&state), "Search scanned first 3 sessions; more may exist");
    state.pagination.reached_scan_cap = false;
    state.pagination.next_cursor = Some(PageCursor::AppServer(String::from("c")));
    state.pagination.start_load(9, None, PageLoadMode::StoreDefault);
    assert_eq!(said(&state), "Searching…");
    assert!(render_list(&state, Rect::new(0, 0, 60, 0)).is_empty());
}

#[test]
fn titles_depend_on_the_background() {
    let mut state = picker();
    state.palette.light = true;
    state.palette.light_title = Color::Indexed(22);
    let areas = picker_areas(Rect::new(0, 0, 60, 12), 4);
    let title = |state: &PickerState| match &render_picker_frame(state, areas, 0)[0] {
        DrawOp::Text { line, .. } => line.spans[0].style.fg,
        other => panic!("no title: {other:?}"),
    };
    assert_eq!(title(&state), Some(Color::Indexed(22)));
    state.palette.light = false;
    assert_eq!(title(&state), Some(Color::Cyan));
    state.launch_context = SessionPickerLaunchContext::AgentsDashboard;
    assert_eq!(title(&state), Some(Color::Magenta));
}

#[test]
fn backdrops_stand_out() {
    let blend = backdrop_blend(Backdrop::ZebraRow, true);
    assert_eq!((blend.overlay, blend.alpha), ((0, 0, 0), 40));
    let blend = backdrop_blend(Backdrop::ZebraRow, false);
    assert_eq!((blend.overlay, blend.alpha), ((255, 255, 255), 55));
    assert_eq!(backdrop_blend(Backdrop::SelectedRow, true).alpha, 120);
    assert_eq!(backdrop_blend(Backdrop::Overlay, true).alpha, 80);
    assert_eq!(backdrop_blend(Backdrop::Overlay, false).alpha, 140);
}

fn user(content: &[&str]) -> ThreadItem {
    ThreadItem::UserMessage {
        content: content.iter().map(|text| UserInput::Text(text.to_string())).collect(),
    }
}

fn agent(content: &str) -> ThreadItem {
    ThreadItem::AgentMessage { text: content.to_string(), trusted_file_links: Vec::new() }
}

fn spoken(lines: &[TranscriptPreviewLine]) -> Vec<String> {
    lines
        .iter()
        .map(|line| match line.speaker {
            TranscriptPreviewSpeaker::User => format!("u:{}", line.text),
            TranscriptPreviewSpeaker::Assistant => format!("a:{}", line.text),
        })
        .collect()
}

#[test]
fn items_become_lines() {
    assert_eq!(spoken(&transcript_preview_lines_for_item(&user(&["one", "two"]))), ["u:one two"]);
    assert_eq!(
        spoken(&transcript_preview_lines_for_item(&agent("  first \n\n\tsecond\r\n"))),
        ["a:first", "a:second"]
    );
    assert!(transcript_preview_lines_for_item(&ThreadItem::Other).is_empty());
    let linked = ThreadItem::AgentMessage {
        text: String::from("see chart  \n[open](link:1)"),
        trusted_file_links: vec![TrustedFileLink {
            placeholder: String::from("link:1"),
            markdown_label: String::from("chart"),
            markdown_destination_label: String::from("open"),
            display_label: String::from("Chart"),
            destination: String::from("/tmp/chart.html"),
        }],
    };
    assert_eq!(
        spoken(&transcript_preview_lines_for_item(&linked)),
        ["a:see Chart", "a:/tmp/chart.html"]
    );
}

#[test]
fn previews_read_no_more_than_they_show() {
    let items = |from: usize, to: usize| -> Vec<ThreadItem> {
        (from..to).rev().map(|at| agent(&format!("line {at}"))).collect()
    };
    let mut load = PreviewLoad::new(100);
    let next = load.take_page(ThreadItemsPage {
        data: items(6, 10),
        next_cursor: Some(String::from("older")),
    });
    assert_eq!(next.as_deref(), Some("older"));
    let next = load.take_page(ThreadItemsPage {
        data: items(0, 6),
        next_cursor: Some(String::from("oldest")),
    });
    assert_eq!(next, None);
    let paged = load.finish();

    let mut oldest_first = items(0, 10);
    oldest_first.reverse();
    assert_eq!(spoken(&paged), spoken(&transcript_preview(&oldest_first)));
    assert_eq!(spoken(&paged)[0], "a:line 4");
    assert_eq!(paged.len(), 6);
}

#[test]
fn preview_loading_ends() {
    let page = |cursor: Option<&str>| ThreadItemsPage {
        data: vec![ThreadItem::Other],
        next_cursor: cursor.map(String::from),
    };
    let mut load = PreviewLoad::new(100);
    assert_eq!(load.take_page(page(Some("a"))).as_deref(), Some("a"));
    assert_eq!(load.take_page(page(Some("a"))), None);

    let mut load = PreviewLoad::new(100);
    assert_eq!(load.take_page(page(None)), None);

    let mut load = PreviewLoad::new(2);
    assert_eq!(load.take_page(page(Some("a"))).as_deref(), Some("a"));
    assert_eq!(load.take_page(page(Some("b"))), None);
    assert!(load.finish().is_empty());
}

fn listed(bits: u128, child: bool, thread_status: ThreadStatus) -> Thread {
    Thread {
        id: ThreadId { bits }.text(),
        parent_thread_id: if child { Some(String::from("parent")) } else { None },
        preview: String::from("  hello  "),
        created_at: 10,
        updated_at: 20,
        status: thread_status,
        path: None,
        cwd: path("/work"),
        git_branch: Some(String::from("main")),
        name: None,
    }
}

#[test]
fn listings_become_pages() {
    let response = || ThreadListResponse {
        data: vec![
            listed(1, false, ThreadStatus::SystemError),
            listed(2, true, ThreadStatus::SystemError),
            Thread { id: String::from("?"), ..listed(3, false, ThreadStatus::Idle) },
            listed(4, false, ThreadStatus::Idle),
        ],
        next_cursor: Some(String::from("next")),
    };
    let page = page_from_response(response(), true);
    let ids = |page: &PickerPage| -> Vec<u128> {
        page.rows.iter().map(|row| row.thread_id.expect("thread").bits).collect()
    };
    assert_eq!(ids(&page), [1, 4]);
    assert_eq!(page.dashboard_system_errors, [ThreadId { bits: 1 }]);
    assert_eq!(page.rows[0].preview, "hello");
    assert_eq!(page.rows[0].dashboard_status, Some(DashboardStatus::NeedsInput));
    assert_eq!(page.num_scanned_files, 4);
    assert!(!page.reached_scan_cap);
    assert!(matches!(&page.next_cursor, Some(PageCursor::AppServer(cursor)) if cursor == "next"));

    let page = page_from_response(response(), false);
    assert_eq!(ids(&page), [1, 2, 4]);
    assert!(page.dashboard_system_errors.is_empty());
    assert_eq!(page.rows[0].dashboard_status, None);
}

#[test]
fn archive_requests_are_told_apart() {
    let call = || {
        new_loader_call(PickerLoadRequest::Archive { thread_id: ThreadId { bits: 5 } }, false)
    };
    let (first, second) = match (call(), call()) {
        (
            LoaderCall::Archive { request_id: first, thread_text, .. },
            LoaderCall::Archive { request_id: second, .. },
        ) => {
            assert_eq!(thread_text, "00000000-0000-0000-0000-000000000005");
            (first, second)
        }
        other => panic!("unexpected calls: {other:?}"),
    };
    assert_ne!(first, second);
    let id = first.strip_prefix("resume-picker-archive-").expect("prefix");
    assert_eq!(id.as_bytes()[14], b'4');
    assert!(ThreadId::from_string(id).is_some());

    match loader_call(PickerLoadRequest::Unarchive { thread_id: ThreadId { bits: 5 } }, false, 1) {
        LoaderCall::Unarchive { request_id, .. } => assert_eq!(
            request_id,
            "resume-picker-unarchive-00000000-0000-0000-0000-000000000001"
        ),
        other => panic!("unexpected call: {other:?}"),
    }
}

#[test]
fn the_loader_asks_for_what_the_picker_needs() {
    let mut state = picker();
    state.initial_page_mode = PageLoadMode::StateDbOnly;
    state.status = SessionStatus::Archived;
    state.start_initial_load();
    let request = state.requests.remove(0);
    match loader_step(LoaderInput::Request(Some(request)), true, false) {
        LoaderAction::Call(LoaderCall::ListThreads { params, request_token, search_token }) => {
            assert_eq!((request_token, search_token), (0, None));
            assert_eq!(params.limit, Some(25));
            assert_eq!(params.archived, Some(true));
            assert_eq!(params.model_providers, Some(vec![String::from("openai")]));
            assert_eq!(params.source_kinds.expect("kinds").len(), 4);
            assert!(params.use_state_db_only);
        }
        other => panic!("unexpected action: {other:?}"),
    }
    assert!(matches!(
        loader_step(LoaderInput::Request(None), false, false),
        LoaderAction::ShutDown
    ));
    assert!(matches!(
        loader_step(LoaderInput::Server(None), false, true),
        LoaderAction::ShutDown
    ));
    assert!(matches!(
        loader_step(LoaderInput::Server(Some(AppServerEvent::Lagged)), false, true),
        LoaderAction::Tell(BackgroundEvent::AppServer(AppServerEvent::Lagged))
    ));
    assert!(matches!(
        loader_step(LoaderInput::Reply(LoaderReply::CalledOff), false, false),
        LoaderAction::Nothing
    ));
}

#[test]
fn replies_become_events() {
    let failed = loader_event(
        LoaderReply::Threads {
            request_token: 4,
            search_token: Some(2),
            response: Err(String::from("gone")),
        },
        false,
    );
    assert!(matches!(
        failed,
        Some(BackgroundEvent::Page { request_token: 4, search_token: Some(2), page: Err(error) })
            if error == "gone"
    ));
    let restored = loader_event(
        LoaderReply::Unarchived {
            thread_id: ThreadId { bits: 8 },
            result: Ok(Some(path("/tmp/back.jsonl"))),
        },
        false,
    );
    assert!(matches!(
        restored,
        Some(BackgroundEvent::Unarchive { result: Ok(target), .. })
            if target.thread_id == ThreadId { bits: 8 }
                && target.display_label() == "/tmp/back.jsonl"
    ));
}

#[test]
fn inventories_hold_the_enabled_skills_of_the_project() {
    let entries = Some(vec![
        SkillsListEntry {
            cwd: path("/other"),
            skills: vec![Skill { handle: 1, enabled: true }],
        },
        SkillsListEntry {
            cwd: path("/work/"),
            skills: vec![
                Skill { handle: 2, enabled: true },
                Skill { handle: 3, enabled: false },
                Skill { handle: 4, enabled: true },
            ],
        },
    ]);
    assert_eq!(skills_for(&entries, &path("/work")), Some(vec![2, 4]));
    assert_eq!(skills_for(&entries, &path("/none")), None);
    assert_eq!(skills_for(&None, &path("/work")), None);
}

fn config() -> PickerConfig {
    PickerConfig {
        cwd: path("/work"),
        codex_home: path("/home/.codex"),
        model_provider_id: String::from("openai"),
        show_raw_agent_reasoning: false,
        tui_session_picker_view: SessionPickerViewMode::Dense,
        disable_paste_burst: true,
    }
}

#[test]
fn workspaces_decide_what_is_listed() {
    let config = config();
    let cwd = |remote: bool, given: Option<&SessionPath>| {
        picker_cwd_filter(&config.cwd, false, remote, given).map(|cwd| cwd.text)
    };
    assert_eq!(cwd(false, None).as_deref(), Some("/work"));
    assert_eq!(cwd(true, None), None);
    assert_eq!(cwd(true, Some(&path("/srv"))).as_deref(), Some("/srv"));
    assert!(picker_cwd_filter(&config.cwd, true, false, None).is_none());
    assert!(local_picker_cwd_filter(&Some(path("/srv")), true).is_none());
    assert!(local_picker_cwd_filter(&Some(path("/srv")), false).is_some());
    assert!(matches!(picker_provider_filter(&config, true), ProviderFilter::Any));
    assert!(matches!(
        picker_provider_filter(&config, false),
        ProviderFilter::MatchDefault(provider) if provider == "openai"
    ));
    assert_eq!(raw_reasoning_visibility(&config), RawReasoningVisibility::Hidden);
    assert_eq!(keymap_error("no such key"), "invalid keymap configuration: no such key");
}

#[test]
fn pickers_open_with_their_options() {
    let local = Workspace { remote: false, remote_cwd_override: None };
    let options = resume_options(&config(), &local, SessionPickerLaunch::startup(false, true));
    let mut state = open_picker(
        options,
        ListKeymap::defaults(),
        timestamp("2026-05-02T12:00:00Z"),
        Palette::unknown(),
    );
    assert!(state.frame_requested);
    assert_eq!(state.density, SessionListDensity::Dense);
    assert_eq!(state.filter_mode, SessionFilterMode::Cwd);
    assert!(state.dashboard_composer.is_none());
    match state.requests.remove(0) {
        PickerLoadRequest::Page(request) => {
            assert_eq!(request.mode, PageLoadMode::StateDbOnly);
            assert_eq!(request.cwd_filter.expect("cwd").text, "/work");
        }
        other => panic!("unexpected request: {other:?}"),
    }

    let remote = Workspace { remote: true, remote_cwd_override: Some(path("/srv")) };
    let options = fork_options(&config(), &remote, true);
    assert_eq!(options.initial_page_mode, PageLoadMode::StoreDefault);
    assert!(options.local_filter_cwd.is_none());
    assert!(!options.dashboard_history);
    let loader = loader_options(&config(), &remote, false, SessionPickerLaunchContext::Startup);
    assert!(loader.codex_home.is_none());
    assert!(!loader.show_dashboard_status);
}

#[test]
fn dashboards_come_back_after_a_lost_connection() {
    let row = make_dashboard_row(
        9,
        "/work/selected",
        "2026-04-28T16:20:00Z",
        "selected session",
        DashboardStatus::Working,
    );
    let other = make_dashboard_row(
        8,
        "/work/other",
        "2026-04-28T16:25:00Z",
        "other session",
        DashboardStatus::Working,
    );
    let mut state = dashboard_state(vec![other.clone(), row.clone()]);
    state.selected = 1;
    assert_eq!(state.filtered_rows[1].thread_id, row.thread_id);
    type_draft(&mut state, "preserved draft");
    state.toggle_dashboard_group_mode();
    let resume = state.dashboard_resume_state();

    let local = Workspace { remote: false, remote_cwd_override: None };
    let options = resume_options(&config(), &local, SessionPickerLaunch::dashboard(resume));
    let mut again = open_picker(
        options,
        ListKeymap::defaults(),
        timestamp("2026-04-28T16:30:00Z"),
        Palette::unknown(),
    );
    assert_eq!(draft(&again), "preserved draft");
    assert_eq!(again.dashboard_group_mode, DashboardGroupMode::Status);
    again.ingest_page(page(vec![other, row.clone()], None, 2, false));
    assert_eq!(again.filtered_rows[again.selected].thread_id, row.thread_id);
    assert!(again.dashboard_restore_thread_id.is_none());
}

#[test]
fn exit_is_confirmed_within_three_seconds() {
    let mut state = dashboard_state(Vec::new());
    assert!(state.handle_dashboard_exit_shortcut(10_000).is_none());
    assert_eq!(state.delayed_frames, vec![FrameDelay::Millis(3000)]);
    assert!(matches!(
        state.handle_dashboard_exit_shortcut(12_999),
        Some(SessionSelection::Exit)
    ));

    let mut state = dashboard_state(Vec::new());
    assert!(state.handle_dashboard_exit_shortcut(10_000).is_none());
    assert!(state.handle_dashboard_exit_shortcut(13_000).is_none());
    state.expire_dashboard_exit_confirmation(15_999);
    assert!(state.dashboard_exit_confirmation_expires_at.is_some());
    state.expire_dashboard_exit_confirmation(16_000);
    assert!(state.dashboard_exit_confirmation_expires_at.is_none());
    assert_eq!(default_footer_hints().len(), 3);
}

#[test]
fn history_is_looked_up_for_the_composer() {
    let mut state = dashboard_state(Vec::new());
    let thread_id = ThreadId { bits: 1 };
    let cursor = HistoryCursor { handle: 6 };
    let action = state.handle_dashboard_app_event(
        DashboardAppEvent::LookupMessageHistoryEntry { thread_id, offset: 3, log_id: 4 },
        true,
        true,
    );
    assert!(matches!(
        action,
        DashboardAppAction::LookUpEntry { offset: 3, log_id: 4, .. }
    ));
    let action = state.handle_dashboard_app_event(
        DashboardAppEvent::LookupMessageHistoryBatch { thread_id, cursor, log_id: 4 },
        true,
        false,
    );
    assert!(matches!(action, DashboardAppAction::Nothing));

    let response = batch_response(
        thread_id,
        cursor,
        4,
        Some(HistoryBatch {
            entries: vec![
                HistoryBatchEntry {
                    offset: 1,
                    entry: Some(HistoryRecord { text: String::from("first prompt") }),
                },
                HistoryBatchEntry { offset: 2, entry: None },
            ],
            next_older_cursor: None,
        }),
    );
    let action = state.handle_dashboard_app_event(response, true, true);
    match action {
        DashboardAppAction::TellComposer {
            response: HistoryLookupResponse::Batch { entries, log_id: 4, .. },
        } => {
            assert_eq!(entries[0].entry.as_deref(), Some("first prompt"));
            assert_eq!((entries[1].offset, entries[1].entry.is_none()), (2, true));
        }
        other => panic!("unexpected action: {other:?}"),
    }
    assert!(matches!(
        batch_response(thread_id, cursor, 4, None),
        DashboardAppEvent::ThreadHistoryEntryResponse {
            event: HistoryLookupResponse::BatchError { log_id: 4, .. },
            ..
        }
    ));
    assert!(matches!(
        entry_response(thread_id, 3, 4, None),
        DashboardAppEvent::ThreadHistoryEntryResponse {
            event: HistoryLookupResponse::Entry { offset: 3, entry: None, .. },
            ..
        }
    ));
    state.frame_requested = false;
    state.finish_history_response(false);
    assert!(!state.frame_requested);
    state.finish_history_response(true);
    assert!(state.frame_requested);
}

#[test]
fn files_are_searched_in_the_selected_project() {
    let mut state = dashboard_state(Vec::new());
    let action = state.handle_dashboard_app_event(
        DashboardAppEvent::StartFileSearch { query: String::from("main") },
        true,
        true,
    );
    assert!(matches!(
        action,
        DashboardAppAction::SearchFiles { cwd, query }
            if cwd.text == "/work/invocation" && query == "main"
    ));
    state.dashboard_composer = None;
    let action = state.handle_dashboard_app_event(
        DashboardAppEvent::FileSearchResult { query: String::from("main"), matches: 2 },
        true,
        true,
    );
    assert!(matches!(action, DashboardAppAction::Nothing));
}

#[test]
fn running_servers_are_used_or_refused() {
    let version = || String::from("1.2.3");
    assert!(matches!(
        bootstrap_for_agents(BootstrapEvent::Probed { app_server_version: None }),
        BootstrapAction::SetUp
    ));
    assert!(matches!(
        bootstrap_for_agents(BootstrapEvent::Probed { app_server_version: Some(version()) }),
        BootstrapAction::CheckBackend { app_server_version } if app_server_version == "1.2.3"
    ));
    assert!(matches!(
        bootstrap_for_agents(BootstrapEvent::BackendChecked {
            app_server_version: version(),
            managed: false,
        }),
        BootstrapAction::Refuse { message }
            if message == "app server is running but is not managed by codex app-server daemon"
    ));
    assert!(matches!(
        bootstrap_for_agents(BootstrapEvent::BackendChecked {
            app_server_version: version(),
            managed: true,
        }),
        BootstrapAction::CheckUpdater { .. }
    ));
}

#[test]
fn agents_bootstrap_reuses_running_daemon() {
    let BootstrapAction::CheckBackend { app_server_version } =
        bootstrap_for_agents(BootstrapEvent::Probed {
            app_server_version: Some(String::from("1.2.3")),
        })
    else {
        panic!("expected the backend to be checked");
    };
    let BootstrapAction::CheckUpdater { app_server_version } =
        bootstrap_for_agents(BootstrapEvent::BackendChecked { app_server_version, managed: true })
    else {
        panic!("expected the updater to be checked");
    };
    let action = bootstrap_for_agents(BootstrapEvent::UpdaterChecked {
        app_server_version,
        codex_bin: String::from("/tmp/codex"),
        auto_update_enabled: false,
    });
    assert!(matches!(
        action,
        BootstrapAction::Reuse { app_server_version, codex_bin, auto_update_enabled: false }
            if app_server_version == "1.2.3" && codex_bin == "/tmp/codex"
    ));
}

#[test]
fn released_keys_and_unfinished_chords_do_nothing() {
    let mut state = picker();
    let mut key = control(KeyCode::Char('c'));
    key.kind = KeyEventKind::Release;
    let outcome = state
        .handle_terminal_event(TerminalEvent::Key { key, matched: KeyChordMatch::PassThrough });
    assert!(matches!(outcome, TerminalOutcome::Nothing));
    key.kind = KeyEventKind::Press;
    let outcome =
        state.handle_terminal_event(TerminalEvent::Key { key, matched: KeyChordMatch::Pending });
    assert!(matches!(outcome, TerminalOutcome::Nothing));
    let outcome = state.handle_terminal_event(TerminalEvent::Key {
        key: plain(KeyCode::Char('x')),
        matched: KeyChordMatch::Completed(key),
    });
    assert!(matches!(
        outcome,
        TerminalOutcome::Key(KeyOutcome::Selected(SessionSelection::Exit))
    ));
    assert_eq!(route_key_chord(key, KeyChordMatch::Cancelled), None);
}

#[test]
fn a_transcript_takes_the_events() {
    let mut state = picker();
    state.overlay = Some(TranscriptCells { handle: 1 });
    assert_eq!(state.key_chord_context(), KeymapContext::Pager);
    let key = control(KeyCode::Char('c'));
    let outcome = state
        .handle_terminal_event(TerminalEvent::Key { key, matched: KeyChordMatch::PassThrough });
    assert!(matches!(outcome, TerminalOutcome::Overlay { key: Some(passed) } if passed == key));
    let outcome = state.handle_terminal_event(TerminalEvent::Paste(String::from("text")));
    assert!(matches!(outcome, TerminalOutcome::Overlay { key: None }));
    assert_eq!(state.query, "");
    state.handle_overlay_event(true);
    assert!(state.overlay.is_none());
    let outcome = state.handle_terminal_event(TerminalEvent::Paste(String::from(" a  b ")));
    assert!(matches!(outcome, TerminalOutcome::Nothing));
    assert_eq!(state.query, "a b");
}

#[test]
fn drawing_fills_the_list_and_opens_transcripts() {
    let mut state = picker();
    state.ingest_page(page(
        vec![make_row("/tmp/a.jsonl", "2026-05-02T12:00:00Z", "one")],
        Some("next"),
        1,
        false,
    ));
    state.requests.clear();
    let blank = Screen {
        width: 80,
        height: 24,
        composer_height: None,
        paste_burst: PasteBurst::Absent,
    };
    state.prepare_frame(blank);
    assert_eq!((state.view_rows, state.view_width), (Some(16), Some(76)));
    assert_eq!(state.requests.len(), 1);

    let thread_id = ThreadId { bits: 4 };
    state.pending_transcript_open = Some(thread_id);
    state
        .transcript_cells
        .insert(thread_id.bits, SessionTranscriptState::Loaded(TranscriptCells { handle: 2 }));
    state.finish_frame();
    assert_eq!(state.overlay, Some(TranscriptCells { handle: 2 }));
    state.prepare_frame(Screen { height: 3, ..blank });
    assert_eq!(state.view_rows, None);
}

#[test]
fn archived_sessions_leave_the_list() {
    let mut state = picker();
    let mut row = make_row("/tmp/a.jsonl", "2026-05-02T12:00:00Z", "one");
    row.thread_id = Some(ThreadId { bits: 4 });
    let kept = make_row("/tmp/b.jsonl", "2026-05-02T12:00:00Z", "two");
    state.ingest_page(page(vec![row, kept], None, 2, false));
    state.handle_key(control(KeyCode::Char('a')));
    assert!(matches!(
        state.requests.last(),
        Some(PickerLoadRequest::Archive { thread_id }) if thread_id.bits == 4
    ));
    state
        .handle_background_event(BackgroundEvent::Archive {
            thread_id: ThreadId { bits: 4 },
            result: Err(String::from("busy")),
        })
        .expect("archive event");
    assert_eq!(state.inline_error.as_deref(), Some("Failed to archive session: busy"));
    assert_eq!(state.filtered_rows.len(), 2);
    state
        .handle_background_event(BackgroundEvent::Archive {
            thread_id: ThreadId { bits: 4 },
            result: Ok(()),
        })
        .expect("archive event");
    assert_eq!(state.filtered_rows.len(), 1);
}

#[test]
fn archived_sessions_are_restored_before_they_open() {
    let mut state = picker();
    state.status = SessionStatus::Archived;
    let mut row = empty_row("one");
    row.thread_id = Some(ThreadId { bits: 4 });
    state.ingest_page(page(vec![row], None, 1, false));
    assert!(matches!(state.handle_key(plain(KeyCode::Enter)), KeyOutcome::Continue));
    assert!(matches!(state.requests.last(), Some(PickerLoadRequest::Unarchive { .. })));
    assert!(matches!(state.handle_key(plain(KeyCode::Enter)), KeyOutcome::Continue));
    let failed = state.handle_background_event(BackgroundEvent::Unarchive {
        thread_id: ThreadId { bits: 4 },
        result: Err(String::from("busy")),
    });
    assert!(matches!(failed, Ok(None)));
    assert_eq!(state.inline_error.as_deref(), Some("Failed to restore session: busy"));
    let opened = state.handle_background_event(BackgroundEvent::Unarchive {
        thread_id: ThreadId { bits: 4 },
        result: Ok(SessionTarget { path: None, thread_id: ThreadId { bits: 4 } }),
    });
    assert!(matches!(opened, Ok(Some(SessionSelection::Resume(_)))));
}

#[test]
fn pages_that_fail_end_the_picker_and_stale_ones_are_dropped() {
    let mut state = picker();
    state.start_initial_load();
    let stale = state.handle_background_event(BackgroundEvent::Page {
        request_token: 99,
        search_token: None,
        page: Err(String::from("late")),
    });
    assert!(matches!(stale, Ok(None)));
    assert!(state.pagination.is_loading());
    let failed = state.handle_background_event(BackgroundEvent::Page {
        request_token: 0,
        search_token: None,
        page: Err(String::from("gone")),
    });
    assert!(matches!(failed, Err(error) if error == "gone"));
}

#[test]
fn transcripts_that_fail_are_told() {
    let mut state = picker();
    let thread_id = ThreadId { bits: 4 };
    state.pending_transcript_open = Some(thread_id);
    state
        .handle_background_event(BackgroundEvent::Transcript {
            thread_id,
            transcript: Err(String::from("gone")),
        })
        .expect("transcript event");
    assert_eq!(state.inline_error.as_deref(), Some("Could not load transcript preview"));
    assert!(state.pending_transcript_open.is_none());
}

#[test]
fn images_are_pasted_into_the_composer() {
    let mut state = dashboard_state(Vec::new());
    state.handle_key(control(KeyCode::Char('v')));
    let edits = &state.dashboard_composer.as_ref().expect("composer").edits;
    assert!(matches!(edits.last(), Some(ComposerEdit::PasteImage)));
    state.finish_paste_image(Some(String::from("clipboard is empty")));
    assert_eq!(state.inline_error.as_deref(), Some("Failed to paste image: clipboard is empty"));
}

#[test]
fn inventories_reach_the_composer_of_their_project() {
    let mut state = dashboard_state(Vec::new());
    let told = |state: &mut PickerState, cwd: &str| {
        state
            .handle_background_event(BackgroundEvent::DashboardComposerInventory {
                cwd: path(cwd),
                inventory: Inventory {
                    skills: Some(vec![7]),
                    plugins: None,
                    connectors: Some(3),
                },
            })
            .expect("inventory event");
        let edits = &state.dashboard_composer.as_ref().expect("composer").edits;
        matches!(edits.last(), Some(ComposerEdit::SetInventory(_)))
    };
    assert!(!told(&mut state, "/work/elsewhere"));
    assert!(told(&mut state, "/work/invocation"));
}

#[test]
fn group_commands_are_read() {
    assert_eq!(parse_group_command(" /group project "), Some(DashboardGroupMode::Project));
    assert_eq!(parse_group_command("/group status"), Some(DashboardGroupMode::Status));
    assert_eq!(parse_group_command("/group"), None);
    assert_eq!(DashboardGroupMode::Status.label(), "status");
}

#[test]
fn new_threads_are_listed_once() {
    let mut state = dashboard_state(Vec::new());
    for _ in 0..2 {
        state.handle_app_server_event(AppServerEvent::Notification(
            ServerNotification::ThreadStarted {
                thread: listed(6, false, ThreadStatus::Active { active_flags: Vec::new() }),
            },
        ));
    }
    state.handle_app_server_event(AppServerEvent::Notification(
        ServerNotification::ThreadStarted { thread: listed(7, true, ThreadStatus::Idle) },
    ));
    assert_eq!(state.all_rows.len(), 1);
    assert_eq!(state.all_rows[0].dashboard_status, Some(DashboardStatus::Working));

    let lost = state.handle_app_server_event(AppServerEvent::Lagged);
    assert!(!lost);
    assert!(state.all_rows.is_empty());
    assert!(state.pagination.is_loading());
}

#[test]
fn selection_stays_in_the_list() {
    let mut state = picker();
    state.ingest_page(page(
        (0..4)
            .map(|at| {
                make_row(&format!("/tmp/{at}.jsonl"), "2026-05-02T12:00:00Z", &format!("row {at}"))
            })
            .collect(),
        None,
        4,
        false,
    ));
    for key in [
        plain(KeyCode::End),
        plain(KeyCode::Down),
        plain(KeyCode::PageDown),
        plain(KeyCode::Char('1')),
        plain(KeyCode::Backspace),
        plain(KeyCode::Char('z')),
        plain(KeyCode::Esc),
        plain(KeyCode::PageUp),
        plain(KeyCode::Up),
    ] {
        state.handle_key(key);
        assert!(state.filtered_rows.is_empty() || state.selected < state.filtered_rows.len());
        assert!(state.filtered_rows.is_empty() || state.scroll_top < state.filtered_rows.len());
    }
}

#[test]
fn paths_are_the_same_by_components() {
    assert!(is_same_path("/work/a/", "/work//a"));
    assert!(!is_same_path("/work/a", "/work/b"));
    let mut link = path("/link");
    let mut real = path("/real");
    assert!(!paths_match(&link, &real));
    link.canonical = Some(String::from("/real"));
    real.canonical = Some(String::from("/real"));
    assert!(paths_match(&link, &real));
}

#[test]
fn columns_keep_their_limits() {
    assert_eq!(cwd_column_width(20), 30);
    assert_eq!(cwd_column_width(400), 72);
    assert_eq!(filter_mode_label(SessionFilterMode::Cwd), "Cwd");
    assert_eq!(filter_mode_label(SessionFilterMode::All), "All");
    assert_eq!(sort_key_label(ThreadSortKey::CreatedAt), "Created");
    assert_eq!(sort_key_label(ThreadSortKey::RecencyAt), "Updated");
}

#[test]
fn shifted_letters_are_typed() {
    let mut state = picker();
    state.handle_key(KeyEvent::new(KeyCode::Char('Q'), modifiers(true, false, false)));
    assert_eq!(state.query, "Q");
    state.handle_key(KeyEvent::new(KeyCode::Char('x'), modifiers(false, false, true)));
    assert_eq!(state.query, "Q");
}

#[test]
fn sessions_without_a_thread_are_looked_up_or_refused() {
    let mut state = picker();
    let row = make_row("/tmp/a.jsonl", "2026-05-02T12:00:00Z", "one");
    state.ingest_page(page(vec![row], None, 1, false));
    let KeyOutcome::ResolveThread { path: asked } = state.handle_key(plain(KeyCode::Enter)) else {
        panic!("expected the thread to be looked up");
    };
    assert_eq!(asked.text, "/tmp/a.jsonl");
    let refused = state.finish_accept(asked.clone(), None);
    assert!(matches!(refused, KeyOutcome::Continue));
    assert_eq!(
        state.inline_error.as_deref(),
        Some("Failed to read session metadata from /tmp/a.jsonl")
    );
    let chosen = state.finish_accept(asked, Some(ThreadId { bits: 9 }));
    assert!(matches!(
        chosen,
        KeyOutcome::Selected(SessionSelection::Resume(target)) if target.thread_id.bits == 9
    ));

    let mut state = picker();
    state.ingest_page(page(vec![empty_row("nothing")], None, 1, false));
    assert!(matches!(state.handle_key(plain(KeyCode::Enter)), KeyOutcome::Continue));
    assert_eq!(
        state.inline_error.as_deref(),
        Some("Failed to read session metadata from selected session")
    );
}

#[test]
fn views_that_cannot_be_saved_are_told() {
    let mut state = picker();
    state.finish_persist_density(Some(String::from("disk full")));
    assert_eq!(
        state.inline_error.as_deref(),
        Some("Failed to save view mode: failed to write config.toml: disk full")
    );
    let mut state = picker();
    state.finish_persist_density(None);
    assert_eq!(state.inline_error, None);
}

#[test]
fn the_list_is_drawn_within_its_area() {
    let mut state = picker();
    state.ingest_page(page(
        (0..9)
            .map(|at| {
                make_row(&format!("/tmp/{at}.jsonl"), "2026-05-02T12:00:00Z", &format!("row {at}"))
            })
            .collect(),
        Some("next"),
        9,
        false,
    ));
    state.update_viewport(7, 20);
    state.handle_key(plain(KeyCode::End));
    let area = Rect::new(3, 5, 20, 7);
    let ops = render_list(&state, area);
    assert!(!ops.is_empty());
    for op in ops {
        let part = match op {
            DrawOp::Clear { area } | DrawOp::Fill { area, .. } => area,
            DrawOp::Text { area, .. } | DrawOp::Composer { area, .. } => area,
        };
        assert!(part.x >= 3 && part.x + part.width <= 23);
        assert!(part.y >= 5 && part.y + part.height <= 12);
    }
}

#[test]
fn a_session_opens_and_closes() {
    let mut state = picker();
    let mut row = empty_row("one");
    row.thread_id = Some(ThreadId { bits: 4 });
    state.ingest_page(page(vec![row], None, 1, false));
    state.requests.clear();
    for expanded in [Some(4), None, Some(4), None] {
        state.handle_key(control(KeyCode::Char('e')));
        assert_eq!(state.expanded_thread_id.map(|id| id.bits), expanded);
    }
    assert_eq!(state.requests.len(), 1);
}

#[test]
fn drafts_open_a_dashboard() {
    let state = DashboardResumeState::with_draft(Some(String::from("later")));
    assert_eq!(state.draft, "later");
    assert_eq!(state.group_mode, DashboardGroupMode::Project);
    assert!(state.selected_thread_id.is_none());
    assert_eq!(DashboardResumeState::with_draft(None).draft, "");
}

#[test]
fn the_composer_takes_its_keys() {
    let mut state = dashboard_state(Vec::new());
    assert!(!state.handle_dashboard_composer_key(plain(KeyCode::Enter)));
    assert!(state.handle_dashboard_composer_key(plain(KeyCode::Char('x'))));
    let edits = &state.dashboard_composer.as_ref().expect("composer").edits;
    assert!(matches!(
        edits.last(),
        Some(ComposerEdit::HandleKey(key)) if key.code == KeyCode::Char('x')
    ));
}

#[test]
fn lost_servers_end_the_dashboard_with_its_draft() {
    let mut state = dashboard_state(Vec::new());
    type_draft(&mut state, "unsent");
    let ended = state.handle_background_event(BackgroundEvent::AppServer(
        AppServerEvent::Disconnected { message: String::from("gone") },
    ));
    assert!(matches!(
        ended,
        Ok(Some(SessionSelection::ReconnectDashboard(resume))) if resume.draft == "unsent"
    ));
}

#[test]
fn control_c_exits_the_dashboard_on_a_second_press() {
    let press = |state: &mut PickerState, at: u64| {
        state.clock_millis = at;
        state.handle_key(control(KeyCode::Char('c')))
    };
    let mut state = dashboard_state(Vec::new());
    assert!(matches!(press(&mut state, 5_000), KeyOutcome::Continue));
    assert_eq!(state.delayed_frames, vec![FrameDelay::Millis(3000)]);
    let edits = &state.dashboard_composer.as_ref().expect("composer").edits;
    assert!(matches!(
        edits.last(),
        Some(ComposerEdit::SetFooterHints(hints))
            if hints[0] == (String::from("ctrl+c"), String::from("again to exit"))
    ));
    assert!(matches!(
        press(&mut state, 7_999),
        KeyOutcome::Selected(SessionSelection::Exit)
    ));

    let mut state = dashboard_state(Vec::new());
    assert!(matches!(press(&mut state, 5_000), KeyOutcome::Continue));
    assert!(matches!(press(&mut state, 8_000), KeyOutcome::Continue));
    assert!(matches!(
        press(&mut state, 8_001),
        KeyOutcome::Selected(SessionSelection::Exit)
    ));
}

#[test]
fn control_c_drops_a_draft_of_the_dashboard() {
    let mut state = dashboard_state(Vec::new());
    type_draft(&mut state, "unsent");
    let outcome = state.handle_key(control(KeyCode::Char('c')));
    assert!(matches!(outcome, KeyOutcome::Continue));
    assert_eq!(draft(&state), "");
    let dashboard = state.dashboard_composer.as_ref().expect("composer");
    assert!(dashboard.is_empty);
    assert!(matches!(
        dashboard.edits.last(),
        Some(ComposerEdit::SetText(text)) if text.is_empty()
    ));
    assert!(state.dashboard_exit_confirmation_expires_at.is_none());
}

#[test]
fn control_c_exits_elsewhere_at_once() {
    let mut state = picker();
    assert!(matches!(
        state.handle_key(control(KeyCode::Char('c'))),
        KeyOutcome::Selected(SessionSelection::Exit)
    ));
    let mut state = dashboard_state(Vec::new());
    state.pending_transcript_open = Some(ThreadId { bits: 4 });
    assert!(matches!(
        state.handle_key(control(KeyCode::Char('c'))),
        KeyOutcome::Selected(SessionSelection::Exit)
    ));
}

#[test]
fn frames_drop_an_exit_that_was_not_confirmed() {
    let screen = Screen {
        width: 80,
        height: 24,
        composer_height: Some(4),
        paste_burst: PasteBurst::Absent,
    };
    let mut state = dashboard_state(Vec::new());
    state.clock_millis = 5_000;
    state.handle_key(control(KeyCode::Char('c')));
    state.clock_millis = 7_999;
    state.prepare_frame(screen);
    assert_eq!(state.dashboard_exit_confirmation_expires_at, Some(8_000));
    state.handle_key(plain(KeyCode::Down));
    assert_eq!(state.dashboard_exit_confirmation_expires_at, Some(8_000));
    state.clock_millis = 8_000;
    state.prepare_frame(screen);
    assert_eq!(state.dashboard_exit_confirmation_expires_at, None);
    let edits = &state.dashboard_composer.as_ref().expect("composer").edits;
    assert!(matches!(
        edits.last(),
        Some(ComposerEdit::SetFooterHints(hints)) if hints.len() == 3
    ));
}

#[test]
fn leap_seconds_count() {
    let at = |seconds: i64, nanos: u32| Timestamp::from_unix(seconds, nanos).expect("instant");
    assert_eq!(elapsed_seconds(at(61, 0), at(59, 1_000_000_000)), 2);
    assert_eq!(elapsed_seconds(at(61, 0), at(59, 0)), 2);
    assert_eq!(elapsed_seconds(at(59, 1_900_000_000), at(59, 0)), 1);
    assert_eq!(elapsed_seconds(at(86_400 + 59, 1_000_000_000), at(61, 0)), 86_398);
}
