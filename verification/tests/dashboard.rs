use codex_agents::composer::{ComposerAttachments, ComposerEdit, InputResult};
use codex_agents::dashboard::{DashboardGroupMode, DashboardStatus};
use codex_agents::draw::{DrawOp, Rect};
use codex_agents::events::BackgroundEvent;
use codex_agents::frame::{render_list, render_picker_frame};
use codex_agents::ids::ThreadId;
use codex_agents::keyboard::KeyOutcome;
use codex_agents::keys::{KeyCode, KeyEvent, KeyModifiers};
use codex_agents::layout::{list_viewport_width, picker_areas, picker_bottom_height};
use codex_agents::paths::SessionPath;
use codex_agents::picker::{FrameDelay, PickerState};
use codex_agents::protocol::{AppServerEvent, ServerNotification, ThreadActiveFlag, ThreadStatus};
use codex_agents::render_card::render_comfortable_session_lines;
use codex_agents::render_row::{dashboard_row_text_style, dashboard_subtitle};
use codex_agents::row::Row;
use codex_agents::run::{PasteBurst, Screen, TerminalEvent, TerminalOutcome};
use codex_agents::search::PickerPage;
use codex_agents::session::{
    LocalImageAttachment, PickerLoadRequest, ProviderFilter, SessionListDensity,
    SessionPickerAction, SessionPickerLaunchContext, SessionSelection, SessionTarget, TextElement,
    TranscriptPreviewLine, TranscriptPreviewSpeaker, TranscriptPreviewState, UserMessage,
};
use codex_agents::style::{Color, Line, Style};
use codex_agents::time::{Timestamp, parse_timestamp_str};

fn timestamp(text: &str) -> Timestamp {
    parse_timestamp_str(text).expect("timestamp should parse")
}

fn path(text: &str) -> SessionPath {
    SessionPath::new(text)
}

fn make_row(path_text: &str, ts: &str, preview: &str) -> Row {
    let at = timestamp(ts);
    Row {
        path: Some(path(path_text)),
        preview: preview.to_string(),
        thread_id: None,
        thread_name: None,
        created_at: Some(at),
        updated_at: Some(at),
        cwd: None,
        git_branch: None,
        dashboard_status: None,
    }
}

fn picker() -> PickerState {
    PickerState::new(
        ProviderFilter::MatchDefault(String::from("openai")),
        true,
        None,
        SessionPickerAction::Resume,
    )
}

fn plain(code: KeyCode) -> KeyEvent {
    KeyEvent::new(code, KeyModifiers { shift: false, control: false, alt: false, other: 0 })
}

fn control(code: KeyCode) -> KeyEvent {
    KeyEvent::new(code, KeyModifiers { shift: false, control: true, alt: false, other: 0 })
}

fn text(line: &Line) -> String {
    line.spans.iter().map(|span| span.content.as_str()).collect()
}

/// The cells that draw operations leave on a screen, one line of text for each row.
fn screen(ops: &[DrawOp], width: u16, height: u16) -> String {
    let mut cells = vec![vec![String::from(" "); width as usize]; height as usize];
    for op in ops {
        match op {
            DrawOp::Clear { area } | DrawOp::Fill { area, .. } => {
                for y in area.y..area.y + area.height {
                    for x in area.x..area.x + area.width {
                        cells[y as usize][x as usize] = String::from(" ");
                    }
                }
            }
            DrawOp::Text { area, line } => {
                let mut x = area.x as usize;
                for ch in text(line).chars() {
                    let columns = unicode_width::UnicodeWidthChar::width(ch).unwrap_or(0);
                    if columns == 0 || x + columns > (area.x + area.width) as usize {
                        continue;
                    }
                    cells[area.y as usize][x] = ch.to_string();
                    x += columns;
                }
            }
            DrawOp::Composer { .. } => {}
        }
    }
    cells
        .iter()
        .map(|row| row.concat().trim_end().to_string())
        .collect::<Vec<_>>()
        .join("\n")
}

fn list_screen(state: &PickerState, width: u16, height: u16) -> String {
    let ops = render_list(state, Rect::new(0, 0, width, height));
    screen(&ops, width, height)
}

fn make_dashboard_row(
    id: u128,
    cwd: &str,
    ts: &str,
    preview: &str,
    status: DashboardStatus,
) -> Row {
    let mut row = make_row(&format!("/tmp/{}.jsonl", preview.replace(' ', "-")), ts, preview);
    row.thread_id = Some(ThreadId { bits: id });
    row.cwd = Some(path(cwd));
    row.dashboard_status = Some(status);
    row
}

fn dashboard_state(rows: Vec<Row>) -> PickerState {
    let mut state = picker();
    state.launch_context = SessionPickerLaunchContext::AgentsDashboard;
    state.initialize_dashboard_composer(&path("/work/invocation"));
    state.current_time = timestamp("2026-04-28T16:30:00Z");
    state.relative_time_reference = Some(timestamp("2026-04-28T16:30:00Z"));
    state.all_rows = rows;
    state.apply_filter();
    state
}

/// What the front end tells of a composer into which a draft was typed.
fn type_draft(state: &mut PickerState, draft: &str) {
    let composer = state.dashboard_composer.as_mut().expect("dashboard composer");
    composer.observe(draft.to_string(), false, false, false);
}

fn draft(state: &PickerState) -> &str {
    state.dashboard_composer.as_ref().expect("dashboard composer").text.as_str()
}

fn no_attachments() -> ComposerAttachments {
    ComposerAttachments {
        local_images: Vec::new(),
        remote_image_urls: Vec::new(),
        mention_bindings: Vec::new(),
    }
}

#[test]
fn maps_app_server_statuses_to_dashboard_statuses() {
    let statuses = [
        ThreadStatus::NotLoaded,
        ThreadStatus::Idle,
        ThreadStatus::SystemError,
        ThreadStatus::Active { active_flags: Vec::new() },
        ThreadStatus::Active { active_flags: vec![ThreadActiveFlag::WaitingOnApproval] },
        ThreadStatus::Active { active_flags: vec![ThreadActiveFlag::WaitingOnUserInput] },
    ];

    assert_eq!(
        statuses.map(|thread| codex_agents::dashboard::status(&thread)),
        [
            DashboardStatus::Done,
            DashboardStatus::Idle,
            DashboardStatus::NeedsInput,
            DashboardStatus::Working,
            DashboardStatus::NeedsInput,
            DashboardStatus::NeedsInput,
        ]
    );
}

#[test]
fn status_order_prioritizes_attention_then_activity() {
    assert_eq!(
        [
            DashboardStatus::NeedsInput,
            DashboardStatus::Working,
            DashboardStatus::Idle,
            DashboardStatus::Done,
        ]
        .map(DashboardStatus::label),
        ["Needs Input", "Working", "Idle", "Done"]
    );
}

#[test]
fn group_mode_toggles_between_project_and_status() {
    assert_eq!(DashboardGroupMode::Project.toggle(), DashboardGroupMode::Status);
    assert_eq!(DashboardGroupMode::Status.toggle(), DashboardGroupMode::Project);
}

#[test]
fn dashboard_grouping_orders_rows_and_preserves_selection() {
    let selected = make_dashboard_row(
        1,
        "/work/older-project",
        "2026-04-28T15:00:00Z",
        "waiting for approval",
        DashboardStatus::NeedsInput,
    );
    let selected_id = selected.thread_id;
    let rows = vec![
        make_dashboard_row(
            2,
            "/work/newer-project",
            "2026-04-28T16:20:00Z",
            "running tests",
            DashboardStatus::Working,
        ),
        selected,
        make_dashboard_row(
            3,
            "/work/newer-project",
            "2026-04-28T14:00:00Z",
            "finished refactor",
            DashboardStatus::Done,
        ),
    ];
    let mut state = dashboard_state(rows);
    state.selected = state
        .filtered_rows
        .iter()
        .position(|row| row.thread_id == selected_id)
        .expect("selected row");

    state.handle_key(control(KeyCode::Char('g')));

    assert_eq!(state.dashboard_group_mode, DashboardGroupMode::Status);
    assert_eq!(
        state
            .filtered_rows
            .iter()
            .map(|row| row.dashboard_status.unwrap_or(DashboardStatus::Done))
            .collect::<Vec<_>>(),
        vec![
            DashboardStatus::NeedsInput,
            DashboardStatus::Working,
            DashboardStatus::Done,
            DashboardStatus::Done,
        ]
    );
    assert_eq!(state.filtered_rows[state.selected].thread_id, selected_id);
}

#[test]
fn dashboard_group_slash_command_changes_mode() {
    let mut state = dashboard_state(Vec::new());
    type_draft(&mut state, "/group status");

    let outcome = state.handle_key(plain(KeyCode::Enter));

    assert!(matches!(outcome, KeyOutcome::Continue));
    assert_eq!(state.dashboard_group_mode, DashboardGroupMode::Status);
    assert!(state.dashboard_composer.as_ref().expect("dashboard composer").is_empty);
}

#[test]
fn dashboard_session_only_slash_command_explains_requirement() {
    let mut state = dashboard_state(Vec::new());
    type_draft(&mut state, "/status");

    let outcome = state.handle_key(plain(KeyCode::Enter));
    assert!(matches!(outcome, KeyOutcome::Continue));
    let edits = &state.dashboard_composer.as_ref().expect("dashboard composer").edits;
    assert!(matches!(
        edits.last(),
        Some(ComposerEdit::HandleKey(key)) if key.code == KeyCode::Enter
    ));

    let selection = state.finish_composer_key(
        InputResult::Command { name: String::from("status") },
        no_attachments(),
    );

    assert!(selection.is_none());
    assert_eq!(
        state.inline_error.as_deref(),
        Some("Open a session before running /status")
    );
}

#[test]
fn dashboard_mention_command_keeps_editing_in_composer() {
    let mut state = dashboard_state(Vec::new());
    type_draft(&mut state, "/mention");

    let outcome = state.handle_key(plain(KeyCode::Enter));

    assert!(matches!(outcome, KeyOutcome::Continue));
    assert_eq!(draft(&state), "@");
}

#[test]
fn dashboard_nonempty_enter_starts_in_selected_project_with_full_payload() {
    let image_path = "/tmp/dashboard-image.png";
    let rows = vec![make_dashboard_row(
        1,
        "/work/selected",
        "2026-04-28T16:20:00Z",
        "selected session",
        DashboardStatus::Idle,
    )];
    let mut state = dashboard_state(rows);
    type_draft(&mut state, "ship the dashboard[Image #1]");

    let outcome = state.handle_key(plain(KeyCode::Enter));
    assert!(matches!(outcome, KeyOutcome::Continue));
    let selection = state
        .finish_composer_key(
            InputResult::Submitted {
                text: String::from("ship the dashboard[Image #1]"),
                text_elements: vec![TextElement {
                    start: 18,
                    end: 28,
                    placeholder: Some(String::from("[Image #1]")),
                }],
            },
            ComposerAttachments {
                local_images: vec![LocalImageAttachment {
                    placeholder: String::from("[Image #1]"),
                    path: image_path.to_string(),
                }],
                remote_image_urls: Vec::new(),
                mention_bindings: Vec::new(),
            },
        )
        .expect("session selection");

    let SessionSelection::StartFreshIn { cwd, user_message } = selection else {
        panic!("expected selected-project fresh session");
    };
    assert_eq!(cwd.text, "/work/selected");
    assert_eq!(
        user_message,
        UserMessage {
            text: String::from("ship the dashboard[Image #1]"),
            local_images: vec![LocalImageAttachment {
                placeholder: String::from("[Image #1]"),
                path: image_path.to_string(),
            }],
            remote_image_urls: Vec::new(),
            text_elements: vec![TextElement {
                start: 18,
                end: 28,
                placeholder: Some(String::from("[Image #1]")),
            }],
            mention_bindings: Vec::new(),
        }
    );
}

#[test]
fn dashboard_paste_burst_flush_keeps_prompt_current_and_allows_submit() {
    let mut state = dashboard_state(vec![make_dashboard_row(
        1,
        "/work/selected",
        "2026-04-28T16:20:00Z",
        "selected session",
        DashboardStatus::Idle,
    )]);

    for (typed, character) in [("", '1'), ("", '2'), ("", '3')] {
        let outcome = state.handle_key(plain(KeyCode::Char(character)));
        assert!(matches!(outcome, KeyOutcome::Continue));
        let composer = state.dashboard_composer.as_mut().expect("dashboard composer");
        composer.observe(typed.to_string(), false, false, true);
        assert!(state.finish_composer_key(InputResult::Nothing, no_attachments()).is_none());
    }
    assert_eq!(state.delayed_frames, vec![FrameDelay::PasteFlush; 3]);

    type_draft(&mut state, "123");
    state.frame_requested = false;
    let outcome = state.handle_terminal_event(TerminalEvent::Draw(Screen {
        width: 80,
        height: 20,
        composer_height: Some(5),
        paste_burst: PasteBurst::Flushed,
    }));
    assert!(matches!(outcome, TerminalOutcome::Draw));
    assert!(state.frame_requested);
    assert_eq!(draft(&state), "123");

    let outcome = state.handle_key(plain(KeyCode::Enter));
    assert!(matches!(outcome, KeyOutcome::Continue));
    let selection = state
        .finish_composer_key(
            InputResult::Submitted { text: String::from("123"), text_elements: Vec::new() },
            no_attachments(),
        )
        .expect("session selection");
    let SessionSelection::StartFreshIn { cwd, user_message } = selection else {
        panic!("expected selected-project fresh session");
    };
    assert_eq!(
        (cwd.text.as_str(), user_message),
        (
            "/work/selected",
            UserMessage {
                text: String::from("123"),
                local_images: Vec::new(),
                remote_image_urls: Vec::new(),
                text_elements: Vec::new(),
                mention_bindings: Vec::new(),
            },
        )
    );
}

#[test]
fn dashboard_empty_enter_resumes_selected_session() {
    let row = make_dashboard_row(
        7,
        "/work/selected",
        "2026-04-28T16:20:00Z",
        "selected session",
        DashboardStatus::Idle,
    );
    let thread_id = row.thread_id.expect("thread id");
    let mut state = dashboard_state(vec![row]);

    let outcome = state.handle_key(plain(KeyCode::Enter));

    assert!(matches!(
        outcome,
        KeyOutcome::Selected(SessionSelection::ResumeInSessionCwd(SessionTarget {
            thread_id: selected_thread_id,
            ..
        })) if selected_thread_id == thread_id
    ));
}

#[test]
fn dashboard_empty_right_resumes_selected_session() {
    let row = make_dashboard_row(
        7,
        "/work/selected",
        "2026-04-28T16:20:00Z",
        "selected session",
        DashboardStatus::Idle,
    );
    let thread_id = row.thread_id.expect("thread id");
    let mut state = dashboard_state(vec![row]);

    let outcome = state.handle_key(plain(KeyCode::Right));

    assert!(matches!(
        outcome,
        KeyOutcome::Selected(SessionSelection::ResumeInSessionCwd(SessionTarget {
            thread_id: selected_thread_id,
            ..
        })) if selected_thread_id == thread_id
    ));
}

fn two_projects(first: &str, second: &str) -> Vec<Row> {
    vec![
        make_dashboard_row(
            1,
            "/work/first",
            "2026-04-28T16:20:00Z",
            first,
            DashboardStatus::Working,
        ),
        make_dashboard_row(
            2,
            "/work/second",
            "2026-04-28T16:10:00Z",
            second,
            DashboardStatus::Idle,
        ),
    ]
}

#[test]
fn dashboard_composer_popup_has_priority_over_row_navigation() {
    let mut state = dashboard_state(two_projects("first", "second"));
    let composer = state.dashboard_composer.as_mut().expect("dashboard composer");
    composer.observe(String::from("/"), false, true, false);
    assert!(composer.popup_active);

    state.handle_key(plain(KeyCode::Down));

    assert_eq!(state.selected, 0);
}

#[test]
fn dashboard_ctrl_navigation_changes_selection_with_a_draft() {
    let mut state = dashboard_state(two_projects("first", "second"));
    type_draft(&mut state, "draft");

    state.handle_key(control(KeyCode::Down));

    assert_eq!(state.selected, 1);
    assert_eq!(draft(&state), "draft");
}

#[test]
fn dashboard_search_filters_sessions_without_replacing_composer_draft() {
    let mut state = dashboard_state(two_projects("alpha task", "beta task"));
    type_draft(&mut state, "draft prompt");

    state.handle_key(control(KeyCode::Char('f')));
    for character in "beta".chars() {
        state.handle_key(plain(KeyCode::Char(character)));
    }

    assert_eq!(
        state.filtered_rows.iter().map(Row::display_preview).collect::<Vec<_>>(),
        vec!["beta task"]
    );
    assert_eq!(draft(&state), "draft prompt");
}

#[test]
fn dashboard_keeps_invocation_directory_as_empty_project_fallback() {
    let state = dashboard_state(Vec::new());

    assert_eq!(
        state
            .filtered_rows
            .iter()
            .map(|row| (
                row.cwd.as_ref().map(|cwd| cwd.text.as_str()),
                row.thread_id,
                row.display_preview(),
            ))
            .collect::<Vec<_>>(),
        vec![(Some("/work/invocation"), None, "Start a new agent")]
    );
}

#[test]
fn dashboard_lazily_requests_and_caches_visible_subtitles() {
    let mut state = picker();
    state.launch_context = SessionPickerLaunchContext::AgentsDashboard;
    state.all_rows = two_projects("first", "second");
    state.apply_filter();

    state.update_viewport(1, 80);
    state.update_viewport(1, 80);

    let requested = state
        .requests
        .iter()
        .filter_map(|request| match request {
            PickerLoadRequest::Preview { thread_id } => Some(*thread_id),
            _ => None,
        })
        .collect::<Vec<_>>();
    assert_eq!(requested, vec![state.filtered_rows[0].thread_id.expect("thread")]);

    let thread_id = requested[0];
    state.transcript_previews.insert(
        thread_id.bits,
        TranscriptPreviewState::Loaded(vec![TranscriptPreviewLine {
            speaker: TranscriptPreviewSpeaker::Assistant,
            text: String::from("Latest assistant update"),
        }]),
    );
    let subtitle = dashboard_subtitle(state.transcript_previews.get(&thread_id.bits))
        .expect("subtitle");
    assert_eq!(
        (subtitle.content.as_str(), subtitle.style),
        ("Latest assistant update", Style::dim())
    );
}

#[test]
fn dashboard_reloads_composer_inventory_when_selected_project_changes() {
    let mut state = picker();
    state.launch_context = SessionPickerLaunchContext::AgentsDashboard;
    state.all_rows = two_projects("first", "second");
    state.apply_filter();

    state.load_dashboard_composer_inventory();
    state.move_dashboard_selection(true);
    state.move_dashboard_selection(false);

    let requested = state
        .requests
        .iter()
        .filter_map(|request| match request {
            PickerLoadRequest::DashboardComposerInventory { cwd } => Some(cwd.text.as_str()),
            _ => None,
        })
        .collect::<Vec<_>>();
    assert_eq!(requested, vec!["/work/first", "/work/second", "/work/first"]);
}

fn notify(state: &mut PickerState, notification: ServerNotification) {
    state.handle_app_server_event(AppServerEvent::Notification(notification));
}

#[test]
fn dashboard_applies_live_status_name_and_archive_notifications() {
    let row = make_dashboard_row(
        9,
        "/work/project",
        "2026-04-28T16:00:00Z",
        "original preview",
        DashboardStatus::Idle,
    );
    let thread_id = row.thread_id.expect("thread id");
    let mut state = dashboard_state(vec![row]);

    notify(
        &mut state,
        ServerNotification::ThreadStatusChanged {
            thread_id: thread_id.text(),
            status: ThreadStatus::Active {
                active_flags: vec![ThreadActiveFlag::WaitingOnApproval],
            },
        },
    );
    notify(
        &mut state,
        ServerNotification::ThreadNameUpdated {
            thread_id: thread_id.text(),
            thread_name: Some(String::from("renamed session")),
        },
    );

    assert_eq!(
        (
            state.filtered_rows[0].dashboard_status,
            state.filtered_rows[0].thread_name.as_deref(),
        ),
        (Some(DashboardStatus::NeedsInput), Some("renamed session"))
    );

    notify(&mut state, ServerNotification::ThreadArchived { thread_id: thread_id.text() });

    assert_eq!(
        state.filtered_rows.iter().map(Row::display_preview).collect::<Vec<_>>(),
        vec!["Start a new agent"]
    );
}

#[test]
fn dashboard_system_error_uses_error_specific_subtitle() {
    let row = make_dashboard_row(
        9,
        "/work/selected",
        "2026-04-28T16:20:00Z",
        "selected session",
        DashboardStatus::Working,
    );
    let thread_id = row.thread_id.expect("thread id");
    let mut state = dashboard_state(vec![row]);

    notify(
        &mut state,
        ServerNotification::ThreadStatusChanged {
            thread_id: thread_id.text(),
            status: ThreadStatus::SystemError,
        },
    );

    assert_eq!(
        state.filtered_rows[0].dashboard_status,
        Some(DashboardStatus::NeedsInput)
    );
    let lines = render_comfortable_session_lines(
        &state.filtered_rows[0],
        &state,
        false,
        false,
        false,
        80,
    );
    assert_eq!(text(&lines[1]), "  Thread stopped because of a system error");
}

#[test]
fn dashboard_initial_page_system_error_uses_error_specific_subtitle() {
    let row = make_dashboard_row(
        9,
        "/work/selected",
        "2026-04-28T16:20:00Z",
        "selected session",
        DashboardStatus::NeedsInput,
    );
    let thread_id = row.thread_id.expect("thread id");
    let mut state = dashboard_state(Vec::new());

    state.ingest_page(PickerPage {
        rows: vec![row],
        dashboard_system_errors: vec![thread_id],
        next_cursor: None,
        num_scanned_files: 1,
        reached_scan_cap: false,
    });

    let lines = render_comfortable_session_lines(
        &state.filtered_rows[0],
        &state,
        false,
        false,
        false,
        80,
    );
    assert_eq!(text(&lines[1]), "  Thread stopped because of a system error");
}

#[test]
fn dashboard_status_change_invalidates_cached_subtitle() {
    let row = make_dashboard_row(
        9,
        "/work/project",
        "2026-04-28T16:00:00Z",
        "original preview",
        DashboardStatus::Working,
    );
    let thread_id = row.thread_id.expect("thread id");
    let mut state = dashboard_state(vec![row]);
    state.transcript_previews.insert(
        thread_id.bits,
        TranscriptPreviewState::Loaded(vec![TranscriptPreviewLine {
            speaker: TranscriptPreviewSpeaker::Assistant,
            text: String::from("stale assistant update"),
        }]),
    );

    notify(
        &mut state,
        ServerNotification::ThreadStatusChanged {
            thread_id: thread_id.text(),
            status: ThreadStatus::Idle,
        },
    );

    assert!(!state.transcript_previews.contains_key(&thread_id.bits));
}

#[test]
fn dashboard_disconnect_preserves_view_state_for_reconnect() {
    let row = make_dashboard_row(
        9,
        "/work/selected",
        "2026-04-28T16:20:00Z",
        "selected session",
        DashboardStatus::Working,
    );
    let selected_thread_id = row.thread_id;
    let mut state = dashboard_state(vec![row]);
    state.dashboard_group_mode = DashboardGroupMode::Status;
    type_draft(&mut state, "preserved draft");

    let selection = state
        .handle_background_event(BackgroundEvent::AppServer(AppServerEvent::Disconnected {
            message: String::from("daemon restarted"),
        }))
        .expect("disconnect handling");

    let Some(SessionSelection::ReconnectDashboard(resume_state)) = selection else {
        panic!("expected dashboard reconnect state");
    };
    assert_eq!(resume_state.draft, "preserved draft");
    assert_eq!(resume_state.group_mode, DashboardGroupMode::Status);
    assert_eq!(resume_state.selected_thread_id, selected_thread_id);
    assert_eq!(
        resume_state.selected_cwd.map(|cwd| cwd.text),
        Some(String::from("/work/selected"))
    );
    assert_eq!(
        state.inline_error.as_deref(),
        Some("Dashboard disconnected: daemon restarted")
    );
}

#[test]
fn agents_dashboard_project_grouping_snapshot() {
    let mut state = dashboard_state(vec![
        make_dashboard_row(
            1,
            "/Users/majd/Projects/claudex",
            "2026-04-28T16:29:18Z",
            "Build the agents dashboard",
            DashboardStatus::Working,
        ),
        make_dashboard_row(
            2,
            "/Users/majd/Projects/claudex",
            "2026-04-28T15:54:00Z",
            "Review daemon lifecycle",
            DashboardStatus::NeedsInput,
        ),
        make_dashboard_row(
            3,
            "/Users/majd/Projects/site",
            "2026-04-28T14:30:00Z",
            "Update landing page",
            DashboardStatus::Idle,
        ),
        make_dashboard_row(
            4,
            "/Users/majd/Projects/archive",
            "2026-04-27T11:00:00Z",
            "Old completed task",
            DashboardStatus::Done,
        ),
    ]);
    state.update_viewport(18, 92);

    assert_eq!(
        list_screen(&state, 92, 18),
        [
            "/Users/majd/Projects/claudex  ─",
            "❯ [Working]     Build the agents dashboard",
            "  Loading recent activity…",
            "  42s ago       \u{e0a0} no branch",
            "",
            "  [Needs Input] Review daemon lifecycle",
            "  Loading recent activity…",
            "  36m ago       \u{e0a0} no branch",
            "",
            "/Users/majd/Projects/site  ─",
            "  [Idle]        Update landing page",
            "  Loading recent activity…",
            "  2h ago        \u{e0a0} no branch",
            "",
            "/Users/majd/Projects/archive  ─",
            "  [Done]        Old completed task",
            "  Loading recent activity…",
            "↓ more",
        ]
        .join("\n")
    );
}

#[test]
fn agents_dashboard_scrolls_by_rendered_lines_snapshot() {
    let mut state = dashboard_state(vec![
        make_dashboard_row(
            1,
            "/Users/majd/Projects/claudex",
            "2026-04-28T16:29:18Z",
            "Build the agents dashboard",
            DashboardStatus::Working,
        ),
        make_dashboard_row(
            2,
            "/Users/majd/Projects/claudex",
            "2026-04-28T16:20:00Z",
            "Polish dashboard scrolling",
            DashboardStatus::Working,
        ),
        make_dashboard_row(
            3,
            "/Users/majd/Projects/claudex",
            "2026-04-28T16:10:00Z",
            "Add dashboard snapshots",
            DashboardStatus::Idle,
        ),
    ]);
    state.update_viewport(7, 92);
    state.move_dashboard_selection(true);

    assert_eq!(state.dashboard_scroll_offset, 2);
    assert_eq!(state.scroll_top, 0);
    assert_eq!(
        list_screen(&state, 92, 7),
        [
            "↑ more",
            "  Loading recent activity…",
            "  42s ago       \u{e0a0} no branch",
            "",
            "❯ [Working]     Polish dashboard scrolling",
            "  Loading recent activity…",
            "↓ more",
        ]
        .join("\n")
    );
}

#[test]
fn agents_dashboard_composer_snapshot() {
    let mut state = dashboard_state(vec![make_dashboard_row(
        1,
        "/Users/majd/Projects/claudex",
        "2026-04-28T16:29:18Z",
        "Build the agents dashboard",
        DashboardStatus::Working,
    )]);
    type_draft(&mut state, "Add project-aware session creation");
    state.update_viewport(12, 80);

    let bottom = picker_bottom_height(Some(5), 20);
    let areas = picker_areas(Rect::new(0, 0, 80, 20), bottom);
    let ops = render_picker_frame(&state, areas, 100);
    assert!(matches!(
        ops.last(),
        Some(DrawOp::Composer { area, focused: true })
            if *area == Rect::new(0, 15, 80, 5)
    ));
    assert_eq!(
        screen(&ops, 80, 20),
        [
            " Codex Agents",
            "",
            " Ctrl+F search sessions                                        Group: [project]",
            "",
            " /Users/majd/Projects/claudex  ─",
            " ❯ [Working]     Build the agents dashboard",
            "   Loading recent activity…",
            "   42s ago       \u{e0a0} no branch",
            "",
            " /work/invocation  ─",
            "                 Start a new agent",
            "   -             \u{e0a0} no branch",
            "",
            "",
            "",
            "",
            "",
            "",
            "",
            "",
        ]
        .join("\n")
    );
}

#[test]
fn agents_dashboard_status_grouping_narrow_snapshot() {
    let mut state = dashboard_state(vec![
        make_dashboard_row(
            1,
            "/a/very/long/project/path/that/will/not/fit",
            "2026-04-28T16:29:18Z",
            "Approve deployment to production",
            DashboardStatus::NeedsInput,
        ),
        make_dashboard_row(
            2,
            "/Users/majd/Projects/claudex",
            "2026-04-28T16:20:00Z",
            "Implement live status notifications",
            DashboardStatus::Working,
        ),
        make_dashboard_row(
            3,
            "/Users/majd/Projects/site",
            "2026-04-28T14:30:00Z",
            "Waiting for next prompt",
            DashboardStatus::Idle,
        ),
        make_dashboard_row(
            4,
            "/Users/majd/Projects/archive",
            "2026-04-27T11:00:00Z",
            "Finished cleanup",
            DashboardStatus::Done,
        ),
    ]);
    state.dashboard_group_mode = DashboardGroupMode::Status;
    state.sort_dashboard_rows();
    state.update_viewport(15, 48);

    assert_eq!(
        list_screen(&state, 48, 15),
        [
            "Needs Input  ─",
            "❯ [Needs Input] Approve deployment to production",
            "  Loading recent activity…",
            "  42s ago",
            "  ⌁ /a/very/long/project/path...  \u{e0a0} no branch",
            "",
            "Working  ─",
            "  [Working]     Implement live status notific...",
            "  Loading recent activity…",
            "  10m ago       ⌁ /Users/majd/Projects/claudex",
            "  \u{e0a0} no branch",
            "",
            "Idle  ─",
            "  [Idle]        Waiting for next prompt",
            "↓ more",
        ]
        .join("\n")
    );
}

#[test]
fn agents_dashboard_dense_columns_snapshot() {
    let mut state = dashboard_state(vec![
        make_dashboard_row(
            1,
            "/work/one",
            "2026-04-28T16:29:18Z",
            "Short title",
            DashboardStatus::NeedsInput,
        ),
        make_dashboard_row(
            2,
            "/work/two",
            "2026-04-28T16:20:00Z",
            "A much longer title that still begins in the same column",
            DashboardStatus::Working,
        ),
        make_dashboard_row(
            3,
            "/work/three",
            "2026-04-28T16:10:00Z",
            "Idle task",
            DashboardStatus::Idle,
        ),
        make_dashboard_row(
            4,
            "/work/four",
            "2026-04-28T16:00:00Z",
            "Completed task",
            DashboardStatus::Done,
        ),
    ]);
    state.density = SessionListDensity::Dense;
    state.update_viewport(12, 88);

    assert_eq!(
        list_screen(&state, 88, 12),
        [
            "/work/one  ─",
            "❯ 42s ago     [Needs Input] Short title",
            "/work/two  ─",
            "  10m ago     [Working]     A much longer title that still begins in the same column",
            "/work/three  ─",
            "  20m ago     [Idle]        Idle task",
            "/work/four  ─",
            "  30m ago     [Done]        Completed task",
            "/work/invocation  ─",
            "  -                         Start a new agent",
            "",
            "",
        ]
        .join("\n")
    );
}

#[test]
fn agents_dashboard_rows_use_status_colors_and_selection_contrast() {
    let statuses = [
        DashboardStatus::NeedsInput,
        DashboardStatus::Working,
        DashboardStatus::Idle,
        DashboardStatus::Done,
    ];
    let mut state = dashboard_state(
        statuses
            .into_iter()
            .enumerate()
            .map(|(index, row_status)| {
                make_dashboard_row(
                    index as u128 + 1,
                    &format!("/work/{index}"),
                    "2026-04-28T16:20:00Z",
                    &format!("task {index}"),
                    row_status,
                )
            })
            .collect(),
    );
    state.sort_dashboard_rows();

    let rendered = state
        .filtered_rows
        .iter()
        .filter(|row| row.dashboard_status.is_some())
        .enumerate()
        .map(|(index, row)| {
            render_comfortable_session_lines(row, &state, index == 0, false, false, 80).remove(0)
        })
        .collect::<Vec<_>>();

    assert_eq!(
        rendered
            .iter()
            .map(|line| (
                line.spans[..2]
                    .iter()
                    .map(|span| unicode_width::UnicodeWidthStr::width(span.content.as_str()))
                    .sum::<usize>(),
                line.spans[1].style.fg,
                line.spans[2].style.fg,
                line.spans[2].style.dim,
            ))
            .collect::<Vec<_>>(),
        vec![
            (16, Some(Color::Red), dashboard_row_text_style(state.palette, true).fg, false),
            (16, Some(Color::Cyan), None, true),
            (16, Some(Color::Green), None, true),
            (16, None, None, true),
        ]
    );
}

#[test]
fn agents_dashboard_empty_snapshot() {
    let mut state = dashboard_state(Vec::new());
    state.update_viewport(4, 48);

    assert_eq!(
        list_screen(&state, 48, 4),
        [
            "/work/invocation  ─",
            "❯               Start a new agent",
            "  -             \u{e0a0} no branch",
            "",
        ]
        .join("\n")
    );
}

#[test]
fn agents_dashboard_system_error_snapshot() {
    let row = make_dashboard_row(
        1,
        "/Users/majd/Projects/claudex",
        "2026-04-28T16:29:18Z",
        "Recover disconnected daemon",
        DashboardStatus::NeedsInput,
    );
    let thread_id = row.thread_id.expect("thread id");
    let mut state = dashboard_state(vec![row]);
    state.dashboard_system_errors.insert(thread_id.bits);
    state.update_viewport(6, 72);

    assert_eq!(
        list_screen(&state, 72, 6),
        [
            "/Users/majd/Projects/claudex  ─",
            "❯ [Needs Input] Recover disconnected daemon",
            "  Thread stopped because of a system error",
            "  42s ago       \u{e0a0} no branch",
            "",
            "↓ more",
        ]
        .join("\n")
    );
}

#[test]
fn list_viewport_width_matches_rendered_list_inset() {
    let dashboard = dashboard_state(Vec::new());
    let mut regular = dashboard_state(Vec::new());
    regular.launch_context = SessionPickerLaunchContext::Startup;

    assert_eq!(list_viewport_width(80, &regular), 76);
    assert_eq!(list_viewport_width(3, &regular), 0);
    assert_eq!(list_viewport_width(80, &dashboard), 78);
    assert_eq!(list_viewport_width(3, &dashboard), 1);
}
