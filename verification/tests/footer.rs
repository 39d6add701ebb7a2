use codex_agents::draw::{DrawOp, Rect};
use codex_agents::frame::render_picker_footer;
use codex_agents::hints::footer_hint_lines;
use codex_agents::ids::ThreadId;
use codex_agents::keys::{KeyBinding, KeyCode};
use codex_agents::metadata::render_footer_lines;
use codex_agents::paths::SessionPath;
use codex_agents::picker::PickerState;
use codex_agents::progress::{ScrollProgress, picker_footer_percent, picker_footer_progress_label};
use codex_agents::protocol::ThreadSortKey;
use codex_agents::row::Row;
use codex_agents::session::{
    PageCursor, PageLoadMode, ProviderFilter, SessionListDensity, SessionPickerAction,
    SessionPickerLaunchContext,
};
use codex_agents::style::{Line, line_width};
use codex_agents::time::{Timestamp, parse_timestamp_str};

fn timestamp(text: &str) -> Timestamp {
    parse_timestamp_str(text).expect("timestamp should parse")
}

fn path(text: &str) -> SessionPath {
    SessionPath::new(text)
}

fn make_row(path_text: &str, ts: &str, preview: &str) -> Row {
    let at = timestamp(ts);
    Row {
        path: Some(path(path_text)),
        preview: preview.to_string(),
        thread_id: None,
        thread_name: None,
        created_at: Some(at),
        updated_at: Some(at),
        cwd: None,
        git_branch: None,
        dashboard_status: None,
    }
}

fn picker() -> PickerState {
    PickerState::new(
        ProviderFilter::MatchDefault(String::from("openai")),
        true,
        None,
        SessionPickerAction::Resume,
    )
}

fn text(line: &Line) -> String {
    line.spans.iter().map(|span| span.content.as_str()).collect()
}

/// The cells that draw operations leave on a screen, one line of text for each row.
fn screen(ops: &[DrawOp], width: u16, height: u16) -> String {
    let mut cells = vec![vec![String::from(" "); width as usize]; height as usize];
    for op in ops {
        match op {
            DrawOp::Clear { area } | DrawOp::Fill { area, .. } => {
                for y in area.y..area.y + area.height {
                    for x in area.x..area.x + area.width {
                        cells[y as usize][x as usize] = String::from(" ");
                    }
                }
            }
            DrawOp::Text { area, line } => {
                let mut x = area.x as usize;
                for ch in text(line).chars() {
                    let columns = unicode_width::UnicodeWidthChar::width(ch).unwrap_or(0);
                    if columns == 0 || x + columns > (area.x + area.width) as usize {
                        continue;
                    }
                    cells[area.y as usize][x] = ch.to_string();
                    x += columns;
                }
            }
            DrawOp::Composer { .. } => {}
        }
    }
    cells
        .iter()
        .map(|row| row.concat().trim_end().to_string())
        .collect::<Vec<_>>()
        .join("\n")
}

/// The share of a list that is scrolled past, as it is shown.
fn shown_percent(progress: ScrollProgress) -> u8 {
    match progress {
        ScrollProgress::Percent(percent) => percent,
        ScrollProgress::Share { skipped, max } => {
            ((skipped as f32 / max as f32) * 100.0).round() as u8
        }
    }
}

fn progress_label(state: &PickerState, list_height: u16, width: u16) -> String {
    let percent = shown_percent(picker_footer_percent(state, list_height));
    picker_footer_progress_label(state, percent, width)
}

fn footer_lines_text(state: &PickerState, width: u16) -> String {
    footer_hint_lines(state, width).iter().map(text).collect::<Vec<_>>().join("\n")
}

fn footer_screen(state: &PickerState, width: u16, list_height: u16) -> String {
    let percent = shown_percent(picker_footer_percent(state, list_height));
    let ops = render_picker_footer(state, Rect::new(0, 0, width, 4), percent);
    screen(&ops, width, 4)
}

fn ten_rows() -> Vec<Row> {
    (0..10)
        .map(|idx| {
            make_row(
                &format!("/tmp/{idx}.jsonl"),
                "2026-05-02T12:00:00Z",
                &format!("row {idx}"),
            )
        })
        .collect()
}

fn metadata(
    sort_key: ThreadSortKey,
    created: &str,
    updated: &str,
    branch: Option<&str>,
    cwd: &str,
    show_cwd: bool,
    width: u16,
) -> Vec<String> {
    render_footer_lines(
        sort_key,
        created,
        updated,
        &branch.map(String::from),
        Some(cwd),
        show_cwd,
        width,
    )
    .iter()
    .map(text)
    .collect()
}

fn assert_metadata_order(line: &str, first: &str, second: &str) {
    let first_index = line.find(first).expect("first metadata item");
    let second_index = line.find(second).expect("second metadata item");
    assert!(first_index < second_index);
}

#[test]
fn footer_prioritizes_active_sort_timestamp() {
    let updated = metadata(
        ThreadSortKey::UpdatedAt,
        "5h ago",
        "3h ago",
        Some("main"),
        "tmp/codex",
        true,
        80,
    );
    let created = metadata(
        ThreadSortKey::CreatedAt,
        "5h ago",
        "3h ago",
        Some("main"),
        "tmp/codex",
        true,
        80,
    );

    assert_eq!(updated.len(), 1);
    assert_eq!(created.len(), 1);
    assert!(updated[0].starts_with("  3h ago"));
    assert!(created[0].starts_with("  5h ago"));
    assert!(!updated[0].contains("created 5h ago"));
    assert!(!created[0].contains("updated 3h ago"));
    assert_metadata_order(&updated[0], "⌁ tmp/codex", "\u{e0a0} main");
    assert_metadata_order(&created[0], "⌁ tmp/codex", "\u{e0a0} main");
}

#[test]
fn footer_marks_missing_branch() {
    let footer =
        metadata(ThreadSortKey::UpdatedAt, "5h ago", "3h ago", None, "/tmp/codex", true, 80);

    assert_eq!(footer.len(), 1);
    assert!(footer[0].contains("⌁ /tmp/codex"));
    assert!(footer[0].contains("\u{e0a0} no branch"));
    assert_metadata_order(&footer[0], "⌁ /tmp/codex", "\u{e0a0} no branch");
}

#[test]
fn footer_branch_expands_when_line_has_room() {
    let branch = "etraut/animations-false-improvements";
    let footer = metadata(
        ThreadSortKey::UpdatedAt,
        "5h ago",
        "4h ago",
        Some(branch),
        "~/code/codex.etraut-animations-false-improvements/codex-rs",
        true,
        140,
    );

    assert_eq!(footer.len(), 1);
    assert!(footer[0].contains(branch));
}

#[test]
fn footer_cwd_truncates_to_responsive_column() {
    let cwd = "~/code/codex.owner-extremely-long-worktree-name-that-needs-truncating/codex-rs";
    let footer = metadata(
        ThreadSortKey::UpdatedAt,
        "5h ago",
        "4h ago",
        Some("owner/branch"),
        cwd,
        true,
        80,
    );

    assert_eq!(footer.len(), 1);
    assert!(!footer[0].contains(cwd));
    assert!(footer[0].contains("⌁ ~/code/codex."));
    assert!(footer[0].contains("..."));
    assert!(footer[0].contains("\u{e0a0} owner/branch"));
}

#[test]
fn footer_omits_cwd_when_hidden() {
    let footer = metadata(
        ThreadSortKey::UpdatedAt,
        "5h ago",
        "4h ago",
        Some("owner/branch"),
        "~/code/codex.owner-worktree/codex-rs",
        false,
        80,
    );

    assert_eq!(footer.len(), 1);
    assert!(footer[0].contains("4h ago"));
    assert!(footer[0].contains("\u{e0a0} owner/branch"));
    assert!(!footer[0].contains("⌁"));
    assert!(!footer[0].contains("~/code"));
}

#[test]
fn hint_line_switches_esc_label_for_search_mode() {
    let mut state = picker();

    assert!(footer_lines_text(&state, 220).contains("esc start new"));

    state.query = String::from("picker");

    assert!(footer_lines_text(&state, 220).contains("esc clear search"));
}

#[test]
fn hint_line_labels_cancel_keys_as_exit_for_existing_session_resume_picker() {
    let mut state = picker();
    state.launch_context =
        SessionPickerLaunchContext::ExistingSession { current_thread_id: None };

    let wide = footer_lines_text(&state, 220);
    assert!(wide.contains("esc exit"));
    assert!(wide.contains("ctrl+c exit"));

    let compact = footer_lines_text(&state, 119);
    assert!(compact.contains("esc exit"));
    assert!(compact.contains("ctrl+c exit"));

    state.query = String::from("picker");

    assert!(footer_lines_text(&state, 220).contains("esc clear search"));
}

#[test]
fn hint_line_switches_density_label() {
    let mut state = picker();

    assert!(footer_lines_text(&state, 220).contains("ctrl+o dense view"));
    assert!(footer_lines_text(&state, 220).contains("ctrl+t transcript"));
    assert!(footer_lines_text(&state, 220).contains("ctrl+e expand"));
    state.list_keymap.move_left = vec![KeyBinding::ctrl(KeyCode::Char('h'))];
    state.list_keymap.move_right = vec![KeyBinding::ctrl(KeyCode::Char('l'))];
    let remapped_footer = footer_lines_text(&state, 220);
    assert!(
        remapped_footer.contains("ctrl + h/ctrl + l change option"),
        "{remapped_footer}"
    );
    state.list_keymap.move_left.clear();
    state.list_keymap.move_right.clear();
    assert!(!footer_lines_text(&state, 220).contains("change option"));

    state.density = SessionListDensity::Dense;

    assert!(footer_lines_text(&state, 220).contains("ctrl+o comfortable view"));
}

#[test]
fn hint_line_compacts_on_narrow_width() {
    let state = picker();

    let rendered = footer_lines_text(&state, 119);

    assert!(rendered.contains("esc new"));
    assert!(rendered.contains("tab focus"));
    assert!(rendered.contains("←/→ option"));
    assert!(rendered.contains("ctrl+o dense"));
    assert!(rendered.contains("ctrl+t preview"));
    assert!(rendered.contains("ctrl+e exp"));
    assert!(!rendered.contains("focus sort/filter"));
}

#[test]
fn hint_line_snapshot_uses_distributed_wide_footer() {
    let state = picker();

    assert_eq!(
        footer_screen(&state, 220, 20),
        [
            "───────────────────────────────────────────────────────────────────────────────────────────────────────────────────────────────────────────────────────────────────────────────────────────────────────────── 0 / 0 · 100% ─",
            " enter resume   esc start new   ctrl+c quit   tab focus sort/filter   ←/→ change option",
            " ctrl+o dense view   ctrl+t transcript   ctrl+e expand   ↑/↓ browse",
            "",
        ]
        .join("\n")
    );
}

#[test]
fn hint_line_snapshot_uses_compact_footer() {
    let mut state = picker();
    state.query = String::from("picker");
    state.density = SessionListDensity::Dense;

    assert_eq!(
        footer_screen(&state, 96, 20),
        [
            "───────────────────────────────────────────────────────────────────────────────── 0 / 0 · 100% ─",
            " enter resume   esc clear   ctrl+c quit   tab focus   ←/→ option",
            " ctrl+o comfy   ctrl+t preview   ctrl+e exp   ↑/↓ browse",
            "",
        ]
        .join("\n")
    );
}

#[test]
fn hint_line_prioritizes_keybinds_when_very_narrow() {
    let mut state = picker();
    state.density = SessionListDensity::Dense;

    let width = 38;
    let lines = footer_hint_lines(&state, width);
    let rendered = lines.iter().map(text).collect::<Vec<_>>().join("\n");

    assert!(lines.iter().all(|line| line_width(line) <= width as usize));
    assert!(rendered.contains("enter"));
    assert!(rendered.contains("esc"));
    assert!(rendered.contains("ctrl+c"));
    assert!(rendered.contains("ctrl+o"));
    assert!(rendered.contains("ctrl+t"));
    assert!(rendered.contains("ctrl+e"));
    assert!(rendered.contains("↑/↓"));
}

#[test]
fn hint_line_shows_loading_transcript_mode() {
    let mut state = picker();
    state.pending_transcript_open = Some(ThreadId { bits: 1 });

    let rendered = footer_lines_text(&state, 80);

    assert!(rendered.contains("loading transcript"));
    assert!(rendered.contains("ctrl+c quit"));
    assert!(!rendered.contains("enter"));
}

#[test]
fn picker_footer_percent_reports_scroll_progress() {
    let mut state = picker();
    state.filtered_rows = ten_rows();

    state.scroll_top = 0;
    assert_eq!(shown_percent(picker_footer_percent(&state, 6)), 0);

    state.scroll_top = state.filtered_rows.len() - 1;
    assert_eq!(shown_percent(picker_footer_percent(&state, 6)), 100);
}

#[test]
fn picker_footer_progress_label_shows_position_total_and_percent() {
    let mut state = picker();
    state.filtered_rows = ten_rows();
    state.selected = 2;

    let label = progress_label(&state, 6, 80);

    assert_eq!(label, " 3 / 10 · 0% ");
    assert!(!label.contains('-'));
}

#[test]
fn picker_footer_progress_label_uses_known_count_when_more_pages_exist() {
    let mut state = picker();
    state.filtered_rows = ten_rows();
    state.selected = 2;
    state.pagination.next_cursor = Some(PageCursor::AppServer(String::from("cursor-1")));

    assert_eq!(progress_label(&state, 6, 80), " 3 / 10 · 0% ");
}

#[test]
fn picker_footer_progress_label_freezes_percent_while_loading() {
    let mut state = picker();
    state.filtered_rows = ten_rows();
    state.selected = 9;
    state.scroll_top = 9;
    state.pagination.next_cursor = Some(PageCursor::AppServer(String::from("cursor-1")));
    state.pagination.start_load(1, None, PageLoadMode::StoreDefault);
    state.frozen_footer_percent = Some(ScrollProgress::Percent(37));

    assert_eq!(progress_label(&state, 6, 80), " 10 / 10… · 37% ");
}

#[test]
fn picker_footer_percent_is_complete_when_not_scrollable() {
    let mut state = picker();

    assert_eq!(shown_percent(picker_footer_percent(&state, 20)), 100);

    state.filtered_rows = vec![make_row("/tmp/1.jsonl", "2026-05-02T12:00:00Z", "single row")];
    assert_eq!(shown_percent(picker_footer_percent(&state, 20)), 100);
}
