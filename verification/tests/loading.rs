use codex_agents::draw::{DrawOp, Rect};
use codex_agents::events::BackgroundEvent;
use codex_agents::frame::render_list;
use codex_agents::header::search_line;
use codex_agents::ids::ThreadId;
use codex_agents::keyboard::KeyOutcome;
use codex_agents::keys::{KeyCode, KeyEvent, KeyModifiers};
use codex_agents::launch::{local_picker_cwd_filter, picker_cwd_filter};
use codex_agents::loader::{resume_source_kinds, thread_list_params};
use codex_agents::paths::SessionPath;
use codex_agents::picker::PickerState;
use codex_agents::progress::{ScrollProgress, picker_footer_percent, picker_footer_progress_label};
use codex_agents::protocol::{ThreadListCwdFilter, ThreadSortKey, ThreadSourceKind};
use codex_agents::row::Row;
use codex_agents::search::PickerPage;
use codex_agents::session::{
    PageCursor, PageLoadMode, PageLoadRequest, PickerLoadRequest, ProviderFilter,
    SessionListDensity, SessionPickerAction, SessionSelection, SessionStatus, SessionTarget,
};
use codex_agents::style::Line;
use codex_agents::time::{Timestamp, parse_timestamp_str};

fn page(
    rows: Vec<Row>,
    next_cursor: Option<&str>,
    num_scanned_files: usize,
    reached_scan_cap: bool,
) -> PickerPage {
    PickerPage {
        rows,
        dashboard_system_errors: Vec::new(),
        next_cursor: next_cursor.map(|cursor| PageCursor::AppServer(cursor.to_string())),
        num_scanned_files,
        reached_scan_cap,
    }
}

fn timestamp(text: &str) -> Timestamp {
    parse_timestamp_str(text).expect("timestamp should parse")
}

fn path(text: &str) -> SessionPath {
    SessionPath::new(text)
}

fn empty_row(preview: &str) -> Row {
    Row {
        path: None,
        preview: preview.to_string(),
        thread_id: None,
        thread_name: None,
        created_at: None,
        updated_at: None,
        cwd: None,
        git_branch: None,
        dashboard_status: None,
    }
}

fn make_row(path_text: &str, ts: &str, preview: &str) -> Row {
    let at = timestamp(ts);
    Row {
        path: Some(path(path_text)),
        preview: preview.to_string(),
        thread_id: None,
        thread_name: None,
        created_at: Some(at),
        updated_at: Some(at),
        cwd: None,
        git_branch: None,
        dashboard_status: None,
    }
}

fn picker() -> PickerState {
    PickerState::new(
        ProviderFilter::MatchDefault(String::from("openai")),
        true,
        None,
        SessionPickerAction::Resume,
    )
}

fn plain(code: KeyCode) -> KeyEvent {
    KeyEvent::new(code, KeyModifiers { shift: false, control: false, alt: false, other: 0 })
}

fn control(code: KeyCode) -> KeyEvent {
    KeyEvent::new(code, KeyModifiers { shift: false, control: true, alt: false, other: 0 })
}

fn text(line: &Line) -> String {
    line.spans.iter().map(|span| span.content.as_str()).collect()
}

/// The cells that draw operations leave on a screen, one line of text for each row.
fn screen(ops: &[DrawOp], width: u16, height: u16) -> String {
    let mut cells = vec![vec![String::from(" "); width as usize]; height as usize];
    for op in ops {
        match op {
            DrawOp::Clear { area } | DrawOp::Fill { area, .. } => {
                for y in area.y..area.y + area.height {
                    for x in area.x..area.x + area.width {
                        cells[y as usize][x as usize] = String::from(" ");
                    }
                }
            }
            DrawOp::Text { area, line } => {
                let mut x = area.x as usize;
                for ch in text(line).chars() {
                    let columns = unicode_width::UnicodeWidthChar::width(ch).unwrap_or(0);
                    if columns == 0 || x + columns > (area.x + area.width) as usize {
                        continue;
                    }
                    cells[area.y as usize][x] = ch.to_string();
                    x += columns;
                }
            }
            DrawOp::Composer { .. } => {}
        }
    }
    cells
        .iter()
        .map(|row| row.concat().trim_end().to_string())
        .collect::<Vec<_>>()
        .join("\n")
}

fn list_screen(state: &PickerState, width: u16, height: u16) -> String {
    let ops = render_list(state, Rect::new(0, 0, width, height));
    screen(&ops, width, height)
}

/// The share of a list that is scrolled past, as it is shown.
fn shown_percent(progress: ScrollProgress) -> u8 {
    match progress {
        ScrollProgress::Percent(percent) => percent,
        ScrollProgress::Share { skipped, max } => {
            ((skipped as f32 / max as f32) * 100.0).round() as u8
        }
    }
}

fn progress_label(state: &PickerState, list_height: u16, width: u16) -> String {
    let percent = shown_percent(picker_footer_percent(state, list_height));
    picker_footer_progress_label(state, percent, width)
}

fn page_requests(state: &PickerState) -> Vec<&PageLoadRequest> {
    state
        .requests
        .iter()
        .filter_map(|request| match request {
            PickerLoadRequest::Page(request) => Some(request),
            _ => None,
        })
        .collect()
}

/// Hands a page in as the answer to a request.
fn deliver_page(
    state: &mut PickerState,
    request_token: usize,
    search_token: Option<usize>,
    page: PickerPage,
) {
    state
        .handle_background_event(BackgroundEvent::Page {
            request_token,
            search_token,
            page: Ok(page),
        })
        .expect("page event");
}

fn local_db_first_state() -> PickerState {
    let mut state = picker();
    state.initial_page_mode = PageLoadMode::StateDbOnly;
    state
}

fn ok_page(rows: Vec<Row>, next_cursor: Option<&str>) -> PickerPage {
    let count = rows.len();
    page(rows, next_cursor, count, false)
}

#[test]
fn local_db_first_treats_empty_later_page_as_end_of_db_listing() {
    let mut state = local_db_first_state();
    state.start_initial_load();
    let (token, search) = asked(&state, 0);
    deliver_page(
        &mut state,
        token,
        search,
        ok_page(
            vec![make_row("/tmp/indexed.jsonl", "2025-01-03T00:00:00Z", "indexed metadata")],
            Some("db-cursor"),
        ),
    );

    state.maybe_load_more_for_scroll();
    assert_eq!(page_requests(&state)[1].mode, PageLoadMode::StateDbOnly);
    let (token, search) = asked(&state, 1);
    deliver_page(&mut state, token, search, ok_page(Vec::new(), None));

    assert_eq!(page_requests(&state).len(), 2);
    assert_eq!(state.all_rows[0].preview, "indexed metadata");
    assert!(state.pagination.next_cursor.is_none());
}

/// The tokens of a request.
fn asked(state: &PickerState, index: usize) -> (usize, Option<usize>) {
    let request = page_requests(state)[index];
    (request.request_token, request.search_token)
}

#[test]
fn local_db_first_falls_back_when_initial_db_page_is_empty() {
    let mut state = local_db_first_state();
    state.start_initial_load();
    let (token, search) = asked(&state, 0);
    deliver_page(&mut state, token, search, ok_page(Vec::new(), None));

    assert_eq!(page_requests(&state)[1].mode, PageLoadMode::StoreDefault);
    assert!(page_requests(&state)[1].cursor.is_none());
    state.relative_time_reference = Some(timestamp("2025-01-04T00:00:00Z"));
    state.update_viewport(12, 80);
    assert_eq!(list_screen(&state, 80, 12).trim_end(), "Loading sessions…");

    let (token, search) = asked(&state, 1);
    deliver_page(
        &mut state,
        token,
        search,
        ok_page(
            vec![
                make_row("/tmp/first.jsonl", "2025-01-03T00:00:00Z", "first store result"),
                make_row("/tmp/repaired.jsonl", "2025-01-03T00:00:00Z", "repaired store result"),
                make_row("/tmp/third.jsonl", "2025-01-03T00:00:00Z", "third store result"),
            ],
            None,
        ),
    );

    assert_eq!(
        state.all_rows.iter().map(|row| row.preview.as_str()).collect::<Vec<_>>(),
        vec!["first store result", "repaired store result", "third store result"]
    );
    assert_eq!(state.pagination.num_scanned_files, 3);
    assert_eq!(
        list_screen(&state, 80, 12),
        [
            "❯ first store result",
            "  1d ago        ⌁ no cwd                         \u{e0a0} no branch",
            "",
            "  repaired store result",
            "  1d ago        ⌁ no cwd                         \u{e0a0} no branch",
            "",
            "  third store result",
            "  1d ago        ⌁ no cwd                         \u{e0a0} no branch",
            "",
            "",
            "",
            "",
        ]
        .join("\n")
    );
}

#[test]
fn local_db_first_accepts_db_thread_id_without_rollout_validation() {
    let mut state = local_db_first_state();
    state.start_initial_load();
    let thread_id = ThreadId { bits: 41 };
    let mut row = make_row(
        "/tmp/missing-rollout.jsonl",
        "2025-01-01T00:00:00Z",
        "indexed metadata",
    );
    row.thread_id = Some(thread_id);
    let (token, search) = asked(&state, 0);
    deliver_page(&mut state, token, search, ok_page(vec![row], None));

    let outcome = state.handle_key(plain(KeyCode::Enter));
    assert!(matches!(
        outcome,
        KeyOutcome::Selected(SessionSelection::Resume(SessionTarget {
            thread_id: selected_thread_id,
            ..
        })) if selected_thread_id == thread_id
    ));
}

#[test]
fn local_picker_thread_list_params_include_cwd_filter() {
    let cwd_filter = picker_cwd_filter(&path("/tmp/project"), false, false, None);
    let params = thread_list_params(
        Some(String::from("cursor-1")),
        cwd_filter.as_ref(),
        SessionStatus::Active,
        ProviderFilter::MatchDefault(String::from("openai")),
        ThreadSortKey::UpdatedAt,
        false,
        true,
    );

    assert!(matches!(
        params.cwd,
        Some(ThreadListCwdFilter::One(cwd)) if cwd == "/tmp/project"
    ));
    assert!(params.use_state_db_only);
}

#[test]
fn remote_thread_list_params_omit_provider_filter() {
    let params = thread_list_params(
        Some(String::from("cursor-1")),
        Some(&path("repo/on/server")),
        SessionStatus::Active,
        ProviderFilter::Any,
        ThreadSortKey::UpdatedAt,
        false,
        false,
    );

    assert_eq!(params.cursor, Some(String::from("cursor-1")));
    assert_eq!(params.model_providers, None);
    assert_eq!(
        params.source_kinds,
        Some(vec![ThreadSourceKind::Cli, ThreadSourceKind::VsCode])
    );
    assert!(matches!(
        params.cwd,
        Some(ThreadListCwdFilter::One(cwd)) if cwd == "repo/on/server"
    ));
}

#[test]
fn remote_thread_list_params_can_include_non_interactive_sources() {
    let params = thread_list_params(
        Some(String::from("cursor-1")),
        None,
        SessionStatus::Active,
        ProviderFilter::Any,
        ThreadSortKey::UpdatedAt,
        true,
        false,
    );

    assert_eq!(params.cursor, Some(String::from("cursor-1")));
    assert_eq!(params.model_providers, None);
    let source_kinds = resume_source_kinds(true);
    assert_eq!(params.source_kinds, Some(source_kinds));
}

#[test]
fn remote_picker_sends_cwd_filter_without_local_post_filtering() {
    let remote_cwd = Some(path("/srv/link-project"));
    let mut state = PickerState::new(
        ProviderFilter::Any,
        false,
        remote_cwd.clone(),
        SessionPickerAction::Resume,
    );
    state.local_filter_cwd = local_picker_cwd_filter(&remote_cwd, true);

    state.start_initial_load();

    let requests = page_requests(&state);
    assert_eq!(requests.len(), 1);
    assert_eq!(
        requests[0].cwd_filter.as_ref().map(|cwd| cwd.text.as_str()),
        Some("/srv/link-project")
    );
    assert_eq!(requests[0].mode, PageLoadMode::StoreDefault);

    let mut row = empty_row("remote session");
    row.thread_id = Some(ThreadId { bits: 1 });
    row.cwd = Some(path("/srv/real-project"));
    assert!(state.row_matches_filter(&row));
}

#[test]
fn remote_picker_does_not_filter_rows_by_local_cwd() {
    let state = PickerState::new(ProviderFilter::Any, false, None, SessionPickerAction::Resume);
    let mut row = empty_row("remote session");
    row.thread_id = Some(ThreadId { bits: 1 });
    row.cwd = Some(path("/srv/remote-project"));

    assert!(state.row_matches_filter(&row));
}

#[test]
fn pageless_scrolling_deduplicates_and_keeps_order() {
    let mut state = picker();

    state.reset_pagination();
    state.ingest_page(page(
        vec![
            make_row("/tmp/a.jsonl", "2025-01-03T00:00:00Z", "third"),
            make_row("/tmp/b.jsonl", "2025-01-02T00:00:00Z", "second"),
        ],
        Some("2025-01-02T00:00:00Z"),
        2,
        false,
    ));

    state.ingest_page(page(
        vec![
            make_row("/tmp/a.jsonl", "2025-01-03T00:00:00Z", "duplicate"),
            make_row("/tmp/c.jsonl", "2025-01-01T00:00:00Z", "first"),
        ],
        Some("2025-01-01T00:00:00Z"),
        2,
        false,
    ));

    state.ingest_page(page(
        vec![make_row("/tmp/d.jsonl", "2024-12-31T23:00:00Z", "very old")],
        None,
        1,
        false,
    ));

    let previews: Vec<_> = state.filtered_rows.iter().map(|row| row.preview.as_str()).collect();
    assert_eq!(previews, vec!["third", "second", "first", "very old"]);

    let unique_paths = state
        .filtered_rows
        .iter()
        .map(|row| row.path.as_ref().map(|path| path.text.clone()))
        .collect::<std::collections::HashSet<_>>();
    assert_eq!(unique_paths.len(), 4);
}

#[test]
fn ensure_minimum_rows_prefetches_when_underfilled() {
    let mut state = picker();
    state.reset_pagination();
    state.ingest_page(page(
        vec![
            make_row("/tmp/a.jsonl", "2025-01-01T00:00:00Z", "one"),
            make_row("/tmp/b.jsonl", "2025-01-02T00:00:00Z", "two"),
        ],
        Some("2025-01-03T00:00:00Z"),
        2,
        false,
    ));

    assert!(page_requests(&state).is_empty());
    state.ensure_minimum_rows_for_view(10);
    let requests = page_requests(&state);
    assert_eq!(requests.len(), 1);
    assert!(requests[0].search_token.is_none());
}

#[test]
fn ensure_minimum_rows_does_not_prefetch_when_comfortable_cards_fill_view() {
    let mut state = picker();
    state.reset_pagination();
    state.ingest_page(page(
        vec![
            make_row("/tmp/a.jsonl", "2025-01-01T00:00:00Z", "one"),
            make_row("/tmp/b.jsonl", "2025-01-02T00:00:00Z", "two"),
            make_row("/tmp/c.jsonl", "2025-01-03T00:00:00Z", "three"),
            make_row("/tmp/d.jsonl", "2025-01-04T00:00:00Z", "four"),
        ],
        Some("2025-01-05T00:00:00Z"),
        4,
        false,
    ));
    state.update_viewport(6, 80);

    state.ensure_minimum_rows_for_view(6);

    assert!(page_requests(&state).is_empty());
}

#[test]
fn ensure_minimum_rows_still_prefetches_when_dense_rows_underfill_view() {
    let mut state = picker();
    state.density = SessionListDensity::Dense;
    state.reset_pagination();
    state.ingest_page(page(
        vec![
            make_row("/tmp/a.jsonl", "2025-01-01T00:00:00Z", "one"),
            make_row("/tmp/b.jsonl", "2025-01-02T00:00:00Z", "two"),
        ],
        Some("2025-01-03T00:00:00Z"),
        2,
        false,
    ));
    state.update_viewport(10, 80);

    state.ensure_minimum_rows_for_view(10);

    let requests = page_requests(&state);
    assert_eq!(requests.len(), 1);
    assert!(requests[0].search_token.is_none());
}

#[test]
fn toggle_sort_key_reloads_with_new_sort() {
    let mut state = picker();

    state.start_initial_load();
    assert_eq!(page_requests(&state).len(), 1);
    assert_eq!(page_requests(&state)[0].sort_key, ThreadSortKey::UpdatedAt);

    state.handle_key(plain(KeyCode::Tab));
    state.handle_key(plain(KeyCode::Tab));
    state.handle_key(control(KeyCode::Char('l')));

    assert_eq!(page_requests(&state).len(), 2);
    assert_eq!(page_requests(&state)[1].sort_key, ThreadSortKey::CreatedAt);
}

fn cwd_asked(state: &PickerState, index: usize) -> Option<&str> {
    page_requests(state)[index].cwd_filter.as_ref().map(|cwd| cwd.text.as_str())
}

#[test]
fn default_filter_focus_arrows_reload_with_new_filter() {
    let mut state = PickerState::new(
        ProviderFilter::MatchDefault(String::from("openai")),
        false,
        Some(path("/tmp/project")),
        SessionPickerAction::Resume,
    );

    state.start_initial_load();
    assert_eq!(page_requests(&state).len(), 1);
    assert_eq!(cwd_asked(&state, 0), Some("/tmp/project"));

    state.handle_key(plain(KeyCode::Right));

    assert_eq!(page_requests(&state).len(), 2);
    assert_eq!(cwd_asked(&state, 1), None);
}

#[test]
fn all_filter_can_switch_back_to_cwd_when_cwd_candidate_exists() {
    let mut state = PickerState::new(
        ProviderFilter::MatchDefault(String::from("openai")),
        true,
        Some(path("/tmp/project")),
        SessionPickerAction::Resume,
    );

    state.start_initial_load();
    assert_eq!(page_requests(&state).len(), 1);
    assert_eq!(cwd_asked(&state, 0), None);

    state.handle_key(plain(KeyCode::Right));

    assert_eq!(page_requests(&state).len(), 2);
    assert_eq!(cwd_asked(&state, 1), Some("/tmp/project"));
}

#[test]
fn status_changes_when_directory_filter_is_unavailable() {
    let mut state =
        PickerState::new(ProviderFilter::Any, false, None, SessionPickerAction::Resume);

    assert_eq!(text(&search_line(&state, 80)).matches("Cwd").count(), 0);

    state.start_initial_load();
    state.handle_key(plain(KeyCode::Right));
    state.handle_key(plain(KeyCode::Tab));
    state.handle_key(plain(KeyCode::Right));

    let requests = page_requests(&state);
    assert_eq!(requests.len(), 2);
    assert_eq!(requests[0].status, SessionStatus::Active);
    assert_eq!(cwd_asked(&state, 0), None);
    assert_eq!(requests[1].status, SessionStatus::Archived);
    assert_eq!(cwd_asked(&state, 1), None);
}

#[test]
fn end_jumps_to_last_known_row_and_starts_loading_more() {
    let mut state = picker();

    let items = (0..10)
        .map(|idx| {
            make_row(
                &format!("/tmp/{idx}.jsonl"),
                "2026-05-02T12:00:00Z",
                &format!("row {idx}"),
            )
        })
        .collect();
    state.reset_pagination();
    state.ingest_page(page(items, Some("cursor-1"), 10, false));
    state.update_viewport(5, 80);

    state.handle_key(plain(KeyCode::End));

    assert_eq!(state.selected, 9);
    assert!(state.pagination.is_loading());
    assert_eq!(page_requests(&state).len(), 1);
    assert_eq!(progress_label(&state, 5, 80), " 10 / 10… · 100% ");
}

#[test]
fn set_query_loads_until_match_and_respects_scan_cap() {
    let mut state = picker();
    state.reset_pagination();
    state.ingest_page(page(
        vec![make_row("/tmp/start.jsonl", "2025-01-01T00:00:00Z", "alpha")],
        Some("2025-01-02T00:00:00Z"),
        1,
        false,
    ));
    state.requests.clear();

    state.set_query("target".to_string());
    assert_eq!(page_requests(&state).len(), 1);
    let first = asked(&state, 0);

    deliver_page(
        &mut state,
        first.0,
        first.1,
        page(
            vec![make_row("/tmp/beta.jsonl", "2025-01-02T00:00:00Z", "beta")],
            Some("2025-01-03T00:00:00Z"),
            5,
            false,
        ),
    );

    assert_eq!(page_requests(&state).len(), 2);
    let second = asked(&state, 1);
    assert!(state.search_state.is_active());
    assert!(state.filtered_rows.is_empty());

    deliver_page(
        &mut state,
        second.0,
        second.1,
        page(
            vec![make_row("/tmp/match.jsonl", "2025-01-03T00:00:00Z", "target log")],
            Some("2025-01-04T00:00:00Z"),
            7,
            false,
        ),
    );

    assert!(!state.filtered_rows.is_empty());
    assert!(!state.search_state.is_active());

    state.requests.clear();
    state.set_query("missing".to_string());
    assert_eq!(page_requests(&state).len(), 1);
    let active = asked(&state, 0);

    deliver_page(&mut state, second.0, second.1, page(Vec::new(), None, 0, false));
    assert_eq!(page_requests(&state).len(), 1);

    deliver_page(&mut state, active.0, active.1, page(Vec::new(), None, 3, true));

    assert!(state.filtered_rows.is_empty());
    assert!(!state.search_state.is_active());
    assert!(state.pagination.reached_scan_cap);
}

#[test]
fn paste_appends_to_existing_query() {
    let mut state = picker();
    state.query = String::from("resize");

    state.handle_paste(String::from("results"));

    assert_eq!(state.query, "resize results");
}

#[test]
fn whitespace_only_paste_is_ignored() {
    let mut state = picker();
    state.query = String::from("resize");

    state.handle_paste(String::from("  \n\t  "));

    assert_eq!(state.query, "resize");
}

#[test]
fn paste_uses_existing_search_loading_path() {
    let mut state = picker();
    state.reset_pagination();
    state.ingest_page(page(
        vec![make_row("/tmp/start.jsonl", "2025-01-01T00:00:00Z", "alpha")],
        Some("2025-01-02T00:00:00Z"),
        1,
        false,
    ));
    state.requests.clear();

    state.handle_paste(String::from("target"));

    assert_eq!(state.query, "target");
    assert_eq!(page_requests(&state).len(), 1);
    assert!(page_requests(&state)[0].search_token.is_some());
}

#[test]
fn esc_with_empty_query_starts_fresh() {
    let mut state = picker();

    let outcome = state.handle_key(plain(KeyCode::Esc));

    assert!(matches!(outcome, KeyOutcome::Selected(SessionSelection::StartFresh)));
}

#[test]
fn esc_with_query_clears_search_and_preserves_selected_result() {
    let mut state = picker();
    state.reset_pagination();
    state.ingest_page(page(
        vec![
            make_row("/tmp/alpha.jsonl", "2025-01-03T00:00:00Z", "alpha"),
            make_row("/tmp/beta.jsonl", "2025-01-02T00:00:00Z", "beta"),
        ],
        None,
        2,
        false,
    ));
    state.set_query(String::from("beta"));

    let outcome = state.handle_key(plain(KeyCode::Esc));

    assert!(matches!(outcome, KeyOutcome::Continue));
    assert!(state.query.is_empty());
    assert_eq!(state.filtered_rows.len(), 2);
    assert_eq!(
        state.filtered_rows[state.selected].path.as_ref().map(|path| path.text.as_str()),
        Some("/tmp/beta.jsonl")
    );
}
