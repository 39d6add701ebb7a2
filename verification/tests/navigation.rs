use codex_agents::events::BackgroundEvent;
use codex_agents::ids::ThreadId;
use codex_agents::keyboard::KeyOutcome;
use codex_agents::keys::{KeyBinding, KeyCode, KeyEvent, KeyModifiers};
use codex_agents::loader::{dashboard_thread_is_root, thread_visible_in_picker};
use codex_agents::paths::SessionPath;
use codex_agents::picker::{PickerState, SessionPickerViewPersistence};
use codex_agents::protocol::{Thread, ThreadStatus};
use codex_agents::row::{Row, row_from_app_server_thread};
use codex_agents::search::PickerPage;
use codex_agents::session::{
    PageCursor, PickerLoadRequest, ProviderFilter, SessionListDensity, SessionPickerAction,
    SessionPickerViewMode, SessionSelection, SessionTarget, SessionTranscriptState,
    TranscriptCells,
};
use codex_agents::time::{Timestamp, parse_timestamp_str};

fn page(
    rows: Vec<Row>,
    next_cursor: Option<&str>,
    num_scanned_files: usize,
    reached_scan_cap: bool,
) -> PickerPage {
    PickerPage {
        rows,
        dashboard_system_errors: Vec::new(),
        next_cursor: next_cursor.map(|cursor| PageCursor::AppServer(cursor.to_string())),
        num_scanned_files,
        reached_scan_cap,
    }
}

fn timestamp(text: &str) -> Timestamp {
    parse_timestamp_str(text).expect("timestamp should parse")
}

fn path(text: &str) -> SessionPath {
    SessionPath::new(text)
}

fn empty_row(preview: &str) -> Row {
    Row {
        path: None,
        preview: preview.to_string(),
        thread_id: None,
        thread_name: None,
        created_at: None,
        updated_at: None,
        cwd: None,
        git_branch: None,
        dashboard_status: None,
    }
}

fn make_row(path_text: &str, ts: &str, preview: &str) -> Row {
    let at = timestamp(ts);
    Row {
        path: Some(path(path_text)),
        preview: preview.to_string(),
        thread_id: None,
        thread_name: None,
        created_at: Some(at),
        updated_at: Some(at),
        cwd: None,
        git_branch: None,
        dashboard_status: None,
    }
}

fn picker() -> PickerState {
    PickerState::new(
        ProviderFilter::MatchDefault(String::from("openai")),
        true,
        None,
        SessionPickerAction::Resume,
    )
}

fn plain(code: KeyCode) -> KeyEvent {
    KeyEvent::new(code, KeyModifiers { shift: false, control: false, alt: false, other: 0 })
}

fn control(code: KeyCode) -> KeyEvent {
    KeyEvent::new(code, KeyModifiers { shift: false, control: true, alt: false, other: 0 })
}

fn thread_row(preview: &str, bits: u128) -> Row {
    let mut row = empty_row(preview);
    row.thread_id = Some(ThreadId { bits });
    row
}

/// Rows of consecutive days, all on one page.
fn paged(count: usize, month: &str) -> PickerState {
    let mut state = picker();
    let items = (0..count)
        .map(|idx| {
            make_row(
                &format!("/tmp/item-{idx}.jsonl"),
                &format!("2025-{month}-{:02}T00:00:00Z", idx + 1),
                &format!("item-{idx}"),
            )
        })
        .collect();
    state.reset_pagination();
    state.ingest_page(page(items, None, count, false));
    state.update_viewport(5, 80);
    state
}

#[test]
fn ctrl_o_toggles_density_without_typing_into_search() {
    let mut state = picker();
    state.query = String::from("pick");

    state.handle_key(control(KeyCode::Char('o')));

    assert_eq!(state.density, SessionListDensity::Dense);
    assert_eq!(state.query, "pick");
}

fn transcripts_asked(state: &PickerState) -> Vec<ThreadId> {
    state
        .requests
        .iter()
        .filter_map(|request| match request {
            PickerLoadRequest::Transcript { thread_id, .. } => Some(*thread_id),
            _ => None,
        })
        .collect()
}

#[test]
fn ctrl_t_requests_selected_session_transcript() {
    let thread_id = ThreadId { bits: 1 };
    let mut state = picker();
    state.filtered_rows = vec![thread_row("preview", 1)];

    state.handle_key(control(KeyCode::Char('t')));

    assert_eq!(state.density, SessionListDensity::Comfortable);
    assert_eq!(transcripts_asked(&state), vec![thread_id]);
    assert_eq!(state.pending_transcript_open, Some(thread_id));
    assert!(matches!(
        state.transcript_cells.get(&thread_id.bits),
        Some(SessionTranscriptState::Loading)
    ));
}

#[test]
fn transcript_loading_consumes_picker_input() {
    let mut state = picker();
    state.filtered_rows = vec![thread_row("one", 1), thread_row("two", 2)];
    state.pending_transcript_open = Some(ThreadId { bits: 3 });

    let outcome = state.handle_key(plain(KeyCode::Down));

    assert!(matches!(outcome, KeyOutcome::Continue));
    assert_eq!(state.selected, 0);
    assert_eq!(state.query, "");

    let outcome = state.handle_key(plain(KeyCode::Char('x')));

    assert!(matches!(outcome, KeyOutcome::Continue));
    assert_eq!(state.query, "");
}

#[test]
fn escape_cancels_transcript_loading_and_restores_picker_navigation() {
    let thread_id = ThreadId { bits: 1 };
    let mut state = picker();
    let mut first = make_row("/tmp/1.jsonl", "2026-05-02T12:00:00Z", "one");
    first.thread_id = Some(thread_id);
    state.filtered_rows = vec![
        first,
        make_row("/tmp/2.jsonl", "2026-05-02T12:00:00Z", "two"),
    ];

    state.handle_key(control(KeyCode::Char('t')));
    assert_eq!(state.pending_transcript_open, Some(thread_id));
    let asked = state
        .requests
        .iter()
        .find_map(|request| match request {
            PickerLoadRequest::Transcript { cancellation, .. } => Some(*cancellation),
            _ => None,
        })
        .expect("transcript request");

    state.handle_key(plain(KeyCode::Esc));

    assert_eq!(state.pending_transcript_open, None);
    assert!(!state.transcript_cells.contains_key(&thread_id.bits));
    assert!(state.requests.iter().any(|request| matches!(
        request,
        PickerLoadRequest::CancelTranscript { cancellation } if *cancellation == asked
    )));

    state.handle_key(plain(KeyCode::Down));
    assert_eq!(state.selected, 1);
}

#[test]
fn transcript_loading_still_allows_ctrl_c_exit() {
    let mut state = picker();
    state.pending_transcript_open = Some(ThreadId { bits: 1 });

    let outcome = state.handle_key(control(KeyCode::Char('c')));

    assert!(matches!(outcome, KeyOutcome::Selected(SessionSelection::Exit)));
}

#[test]
fn raw_ctrl_t_requests_selected_session_transcript() {
    let mut state = picker();
    state.filtered_rows = vec![thread_row("preview", 1)];

    state.handle_key(plain(KeyCode::Char('\u{0014}')));

    assert_eq!(transcripts_asked(&state), vec![ThreadId { bits: 1 }]);
}

#[test]
fn ctrl_t_on_row_without_thread_id_shows_inline_error() {
    let mut state = picker();
    let mut row = empty_row("preview");
    row.path = Some(path("/tmp/a.jsonl"));
    state.filtered_rows = vec![row];

    state.handle_key(control(KeyCode::Char('t')));

    assert_eq!(
        state.inline_error.as_deref(),
        Some("No transcript available for this session")
    );
}

#[test]
fn loaded_transcript_waits_for_loading_frame_before_opening_overlay() {
    let thread_id = ThreadId { bits: 1 };
    let mut state = picker();
    state.pending_transcript_open = Some(thread_id);

    state
        .handle_background_event(BackgroundEvent::Transcript {
            thread_id,
            transcript: Ok(TranscriptCells { handle: 5 }),
        })
        .expect("transcript event");

    assert!(state.overlay.is_none());
    assert_eq!(state.pending_transcript_open, Some(thread_id));
    assert!(matches!(
        state.transcript_cells.get(&thread_id.bits),
        Some(SessionTranscriptState::Loaded(_))
    ));

    assert!(state.note_transcript_loading_frame_drawn());
    state.open_pending_transcript_if_ready();

    assert_eq!(state.overlay, Some(TranscriptCells { handle: 5 }));
    assert_eq!(state.pending_transcript_open, None);
}

#[test]
fn cached_transcript_still_shows_loading_frame_before_opening_overlay() {
    let thread_id = ThreadId { bits: 1 };
    let mut state = picker();
    state.filtered_rows = vec![thread_row("preview", 1)];
    state.transcript_cells.insert(
        thread_id.bits,
        SessionTranscriptState::Loaded(TranscriptCells { handle: 5 }),
    );

    state.handle_key(control(KeyCode::Char('t')));

    assert!(state.overlay.is_none());
    assert_eq!(state.pending_transcript_open, Some(thread_id));

    assert!(state.note_transcript_loading_frame_drawn());
    state.open_pending_transcript_if_ready();

    assert_eq!(state.overlay, Some(TranscriptCells { handle: 5 }));
    assert_eq!(state.pending_transcript_open, None);
}

#[test]
fn ctrl_o_persists_density_preference() {
    let mut state = picker();
    state.view_persistence =
        Some(SessionPickerViewPersistence { codex_home: path("/tmp/codex-home") });

    let outcome = state.handle_key(control(KeyCode::Char('o')));

    assert_eq!(state.density, SessionListDensity::Dense);
    assert!(matches!(outcome, KeyOutcome::KeepDensity(SessionPickerViewMode::Dense)));
}

#[test]
fn ctrl_o_keeps_toggled_density_when_persistence_fails() {
    let mut state = picker();
    state.view_persistence =
        Some(SessionPickerViewPersistence { codex_home: path("/tmp/codex-home-file") });

    state.handle_key(control(KeyCode::Char('o')));
    state.finish_persist_density(Some(String::from("not a directory")));

    assert_eq!(state.density, SessionListDensity::Dense);
    assert!(
        state
            .inline_error
            .as_deref()
            .is_some_and(|error| error.contains("Failed to save view mode")),
        "expected persistence error, got {:?}",
        state.inline_error
    );
}

#[test]
fn raw_ctrl_o_toggles_density_without_typing_into_search() {
    let mut state = picker();
    state.query = String::from("pick");

    state.handle_key(plain(KeyCode::Char('\u{000f}')));

    assert_eq!(state.density, SessionListDensity::Dense);
    assert_eq!(state.query, "pick");
}

#[test]
fn space_appends_to_search_query() {
    let mut state = picker();
    state.query = String::from("resize");

    state.handle_key(plain(KeyCode::Char(' ')));
    state.handle_key(plain(KeyCode::Char('r')));

    assert_eq!(state.query, "resize r");
    assert_eq!(state.expanded_thread_id, None);
}

fn previews_asked(state: &PickerState) -> Vec<ThreadId> {
    state
        .requests
        .iter()
        .filter_map(|request| match request {
            PickerLoadRequest::Preview { thread_id } => Some(*thread_id),
            _ => None,
        })
        .collect()
}

#[test]
fn ctrl_e_toggles_selected_session_expansion() {
    let thread_id = ThreadId { bits: 1 };
    let mut state = picker();
    state.filtered_rows = vec![thread_row("preview", 1)];

    state.handle_key(control(KeyCode::Char('e')));

    assert_eq!(state.expanded_thread_id, Some(thread_id));
    assert_eq!(previews_asked(&state), vec![thread_id]);

    state.handle_key(control(KeyCode::Char('e')));

    assert_eq!(state.expanded_thread_id, None);
}

#[test]
fn raw_ctrl_e_toggles_selected_session_expansion() {
    let mut state = picker();
    state.filtered_rows = vec![thread_row("preview", 1)];

    state.handle_key(plain(KeyCode::Char('\u{0005}')));

    assert_eq!(state.expanded_thread_id, Some(ThreadId { bits: 1 }));
}

#[test]
fn page_navigation_uses_view_rows() {
    let mut state = paged(20, "01");

    assert_eq!(state.selected, 0);
    state.handle_key(plain(KeyCode::PageDown));
    assert_eq!(state.selected, 5);

    state.handle_key(plain(KeyCode::PageDown));
    assert_eq!(state.selected, 10);

    state.handle_key(plain(KeyCode::PageUp));
    assert_eq!(state.selected, 5);

    state.handle_key(plain(KeyCode::End));
    assert_eq!(state.selected, 19);

    state.handle_key(plain(KeyCode::Home));
    assert_eq!(state.selected, 0);
}

#[test]
fn page_and_jump_navigation_use_list_keymap() {
    let mut state = paged(20, "01");
    state.list_keymap.page_down = vec![KeyBinding::ctrl(KeyCode::Char('d'))];
    state.list_keymap.page_up = vec![KeyBinding::ctrl(KeyCode::Char('u'))];
    state.list_keymap.jump_bottom = vec![KeyBinding::ctrl(KeyCode::Char('y'))];
    state.list_keymap.jump_top = vec![KeyBinding::ctrl(KeyCode::Char('a'))];

    state.handle_key(plain(KeyCode::PageDown));
    assert_eq!(state.selected, 0);

    state.handle_key(control(KeyCode::Char('d')));
    assert_eq!(state.selected, 5);

    state.handle_key(control(KeyCode::Char('u')));
    assert_eq!(state.selected, 0);

    state.handle_key(control(KeyCode::Char('y')));
    assert_eq!(state.selected, 19);

    state.handle_key(control(KeyCode::Char('a')));
    assert_eq!(state.selected, 0);
}

#[test]
fn ctrl_c_exits_even_when_cancel_is_remapped_to_ctrl_c() {
    let mut state = picker();
    state.list_keymap.cancel = vec![KeyBinding::ctrl(KeyCode::Char('c'))];

    let outcome = state.handle_key(control(KeyCode::Char('c')));

    assert!(matches!(outcome, KeyOutcome::Selected(SessionSelection::Exit)));
}

#[test]
fn enter_on_row_without_resolvable_thread_id_shows_inline_error() {
    let mut state = picker();
    let mut row = empty_row("missing metadata");
    row.path = Some(path("/tmp/missing.jsonl"));
    state.all_rows = vec![row.clone()];
    state.filtered_rows = vec![row];

    let outcome = state.handle_key(plain(KeyCode::Enter));
    let KeyOutcome::ResolveThread { path } = outcome else {
        panic!("expected a thread to be looked for");
    };
    let outcome = state.finish_accept(path, None);

    assert!(matches!(outcome, KeyOutcome::Continue));
    assert_eq!(
        state.inline_error,
        Some(String::from("Failed to read session metadata from /tmp/missing.jsonl"))
    );
}

#[test]
fn enter_on_pathless_thread_uses_thread_id() {
    let mut state = picker();
    let row = thread_row("pathless thread", 77);
    state.all_rows = vec![row.clone()];
    state.filtered_rows = vec![row];

    let outcome = state.handle_key(plain(KeyCode::Enter));

    match outcome {
        KeyOutcome::Selected(SessionSelection::Resume(SessionTarget {
            path: None,
            thread_id: selected_thread_id,
        })) => assert_eq!(selected_thread_id, ThreadId { bits: 77 }),
        other => panic!("unexpected selection: {other:?}"),
    }
}

fn app_server_thread(thread_id: ThreadId) -> Thread {
    Thread {
        id: thread_id.text(),
        parent_thread_id: None,
        preview: String::from("remote thread"),
        created_at: 1,
        updated_at: 2,
        status: ThreadStatus::Idle,
        path: None,
        cwd: path("/tmp"),
        git_branch: None,
        name: Some(String::from("Named thread")),
    }
}

#[test]
fn app_server_row_keeps_pathless_threads() {
    let thread_id = ThreadId { bits: 77 };
    let thread = app_server_thread(thread_id);
    let mut child_thread = app_server_thread(thread_id);
    child_thread.parent_thread_id = Some(ThreadId { bits: 78 }.text());
    assert!(dashboard_thread_is_root(&thread));
    assert!(!dashboard_thread_is_root(&child_thread));
    assert!(thread_visible_in_picker(&child_thread, false));
    assert!(!thread_visible_in_picker(&child_thread, true));

    let row = row_from_app_server_thread(thread, false).expect("row should be preserved");

    assert!(row.path.is_none());
    assert_eq!(row.thread_id, Some(thread_id));
    assert_eq!(row.thread_name, Some(String::from("Named thread")));
}

#[test]
fn moving_to_last_card_scrolls_when_cards_exceed_viewport() {
    let mut state = paged(3, "02");

    state.handle_key(plain(KeyCode::Down));
    assert_eq!(state.scroll_top, 1);

    state.handle_key(plain(KeyCode::Down));

    assert_eq!(state.selected, 2);
    assert_eq!(state.scroll_top, 2);
}

#[test]
fn up_from_bottom_keeps_viewport_stable_when_card_remains_visible() {
    let mut state = paged(10, "02");

    state.selected = state.filtered_rows.len().saturating_sub(1);
    state.ensure_selected_visible();

    let initial_top = state.scroll_top;
    assert_eq!(initial_top, state.filtered_rows.len().saturating_sub(1));

    state.handle_key(plain(KeyCode::Up));

    assert_eq!(state.scroll_top, initial_top.saturating_sub(1));
    assert_eq!(state.selected, state.filtered_rows.len().saturating_sub(2));
}

#[test]
fn up_scrolls_only_after_crossing_top_edge() {
    let mut state = paged(10, "02");
    state.selected = 8;
    state.scroll_top = 8;

    state.handle_key(plain(KeyCode::Up));

    assert_eq!(state.selected, 7);
    assert_eq!(state.scroll_top, 7);
}

#[test]
fn list_reports_more_rows_above_and_below() {
    let mut state = paged(5, "02");

    assert!(!state.has_more_above());
    assert!(state.has_more_below(5));

    state.scroll_top = 2;

    assert!(state.has_more_above());
    assert!(state.has_more_below(5));
}

#[test]
fn row_display_preview_prefers_thread_name() {
    let mut row = empty_row("first message");
    row.path = Some(path("/tmp/a.jsonl"));
    row.thread_name = Some(String::from("My session"));

    assert_eq!(row.display_preview(), "My session");
}

#[test]
fn row_search_matches_metadata_fields() {
    let thread_id =
        ThreadId::from_string("019dabc1-0ef5-7431-b81c-03037f51f62c").expect("thread id");
    let mut row = empty_row("first message");
    row.path = Some(path("/tmp/a.jsonl"));
    row.thread_id = Some(thread_id);
    row.thread_name = Some(String::from("My session"));
    row.cwd = Some(path("/tmp/codex-session-picker"));
    row.git_branch = Some(String::from("fcoury/session-picker"));

    assert!(row.matches_query("session-picker"));
    assert!(row.matches_query("fcoury"));
    assert!(row.matches_query(&thread_id.text()[..8]));
}
