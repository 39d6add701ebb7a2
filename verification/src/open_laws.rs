//! What the picker promises of how it is opened, and of what the dashboard's composer asks for.

use vstd::prelude::*;
use crate::bootstrap::{follows, BootstrapAction, BootstrapEvent};
use crate::history::{
    app_event_handled, is_batch_response, is_entry_response, DashboardAppAction,
    DashboardAppEvent, HistoryBatch, HistoryCursor, HistoryLookupResponse, HistoryRecord,
};
use crate::ids::ThreadId;
use crate::keys::ListKeymap;
use crate::launch::{
    are_loader_options, configured, cwd_of, dashboard_opened, fork_run_options, is_opened,
    local_cwd, resume_run_options, LoaderOptions, PickerConfig, SessionPickerLaunch,
    SessionPickerRunOptions, Workspace,
};
use crate::loading::reloaded;
use crate::paging_laws::lemma_reload_asks_for_the_first_page;
use crate::picker::{is_new, PickerState};
use crate::render_row::Palette;
use crate::session::{PickerLoadRequest, ProviderFilter, SessionPickerLaunchContext};
use crate::time::Timestamp;

verus! {

/// A picker that resumes lists the sessions of the configured provider and directory, reads the
/// database first, and is shown in the density that the configuration keeps. In a remote workspace
/// it lists those of any provider, in the directory that is given for it, from the store, and
/// compares no directories itself.
pub proof fn lemma_resuming_follows_the_configuration(
    config: PickerConfig,
    workspace: Workspace,
    launch: SessionPickerLaunch,
)
    ensures
        ({
            let options = resume_run_options(config, workspace, launch);
            &&& options.action is Resume
            &&& options.show_all == launch.show_all
            &&& options.launch_context == launch.context
            &&& options.dashboard_resume_state == launch.dashboard_resume_state
            &&& !workspace.remote ==> options.filter_cwd == Some(config.cwd)
            &&& !workspace.remote ==> options.local_filter_cwd == Some(config.cwd)
            &&& !workspace.remote ==> options.initial_page_mode is StateDbOnly
            &&& !workspace.remote ==> options.provider_filter == ProviderFilter::MatchDefault(
                config.model_provider_id,
            )
            &&& workspace.remote ==> options.filter_cwd == workspace.remote_cwd_override
            &&& workspace.remote ==> options.local_filter_cwd is None
            &&& workspace.remote ==> options.initial_page_mode is StoreDefault
            &&& workspace.remote ==> options.provider_filter is Any
            &&& launch.context is AgentsDashboard ==> options.dashboard_fallback_cwd == Some(
                config.cwd,
            )
            &&& !(launch.context is AgentsDashboard) ==> options.dashboard_fallback_cwd is None
            &&& config.tui_session_picker_view is Dense ==> options.initial_density is Dense
            &&& config.tui_session_picker_view is Comfortable ==> options.initial_density
                is Comfortable
            &&& options.view_persistence is Some
            &&& options.view_persistence->0.codex_home == config.codex_home
            &&& options.dashboard_disable_paste_burst == config.disable_paste_burst
        }),
{
}

/// A picker that forks lists what one that resumes does, and opens no dashboard.
pub proof fn lemma_forking_lists_what_resuming_lists(
    config: PickerConfig,
    workspace: Workspace,
    launch: SessionPickerLaunch,
)
    ensures
        ({
            let fork = fork_run_options(config, workspace, launch.show_all);
            let resume = resume_run_options(config, workspace, launch);
            &&& fork.action is Fork
            &&& fork.show_all == resume.show_all
            &&& fork.filter_cwd == resume.filter_cwd
            &&& fork.local_filter_cwd == resume.local_filter_cwd
            &&& fork.provider_filter == resume.provider_filter
            &&& fork.initial_page_mode == resume.initial_page_mode
            &&& fork.initial_density == resume.initial_density
            &&& fork.view_persistence == resume.view_persistence
            &&& fork.launch_context is Startup
            &&& fork.dashboard_fallback_cwd is None
            &&& fork.dashboard_resume_state is None
        }),
{
}

/// The directory that is listed: all of them where that is asked for, else that of the
/// configuration or, in a remote workspace, the one that is given there.
pub proof fn lemma_listed_directory(
    config_cwd: crate::paths::SessionPath,
    show_all: bool,
    remote: bool,
    given: Option<crate::paths::SessionPath>,
)
    ensures
        show_all ==> cwd_of(config_cwd, show_all, remote, given) is None,
        !show_all && !remote ==> cwd_of(config_cwd, show_all, remote, given) == Some(config_cwd),
        !show_all && remote ==> cwd_of(config_cwd, show_all, remote, given) == given,
        remote ==> local_cwd(given, remote) is None,
        !remote ==> local_cwd(given, remote) == given,
{
}

/// The loader lists sessions without a terminal only on demand, shows states only on the dashboard,
/// shows raw reasoning only where the configuration does, and reads no files of a remote workspace.
pub proof fn lemma_loader_follows_the_configuration(
    options: LoaderOptions,
    config: PickerConfig,
    workspace: Workspace,
    include_non_interactive: bool,
    context: SessionPickerLaunchContext,
)
    requires
        are_loader_options(options, config, workspace, include_non_interactive, context),
    ensures
        options.include_non_interactive <==> include_non_interactive,
        options.show_dashboard_status <==> context is AgentsDashboard,
        config.show_raw_agent_reasoning <==> options.raw_reasoning_visibility is Visible,
        workspace.remote ==> options.codex_home is None,
        !workspace.remote ==> options.codex_home == Some(config.codex_home),
{
}

/// A picker that was opened lists nothing yet and waits for its first page, which is asked for with
/// the options that it was opened with: filtered by directory unless all sessions are asked for or
/// there is no directory, of the active sessions, by their last update.
pub proof fn lemma_opened_picker_asks_for_its_first_page(
    state: PickerState,
    options: SessionPickerRunOptions,
    list_keymap: ListKeymap,
    now: Timestamp,
    palette: Palette,
)
    requires
        is_opened(state, options, list_keymap, now, palette),
    ensures
        state.all_rows@.len() == 0,
        state.filtered_rows@.len() == 0,
        state.query@.len() == 0,
        state.selected == 0,
        state.action == options.action,
        state.launch_context == options.launch_context,
        state.density == options.initial_density,
        state.list_keymap == list_keymap,
        state.palette == palette,
        state.current_time == now,
        state.filter_cwd == options.filter_cwd,
        state.local_filter_cwd == options.local_filter_cwd,
        state.status is Active,
        state.sort_key is UpdatedAt,
        state.archive_state is Idle,
        state.overlay is None,
        state.inline_error is None,
        state.frame_requested,
        options.show_all || options.filter_cwd is None <==> state.filter_mode is All,
        state.requests@.len() == 1,
        state.requests@[0] matches PickerLoadRequest::Page(request) && {
            &&& request.cursor is None
            &&& state.pagination.pending is Some
            &&& request.request_token == state.pagination.pending->0.request_token
            &&& request.search_token is None
            &&& request.mode == options.initial_page_mode
            &&& options.show_all ==> request.cwd_filter is None
            &&& !options.show_all ==> request.cwd_filter == options.filter_cwd
            &&& request.status is Active
            &&& request.provider_filter == options.provider_filter
            &&& request.sort_key is UpdatedAt
        },
{
    let (fresh, set, ready, loaded) = choose|
        fresh: PickerState,
        set: PickerState,
        ready: PickerState,
        loaded: PickerState,
    |
        #![trigger configured(fresh, set, options, list_keymap, now, palette), dashboard_opened(set, ready, options), reloaded(ready, loaded)]
        {
            &&& is_new(
                fresh,
                options.provider_filter,
                options.show_all,
                options.filter_cwd,
                options.action,
            )
            &&& configured(fresh, set, options, list_keymap, now, palette)
            &&& dashboard_opened(set, ready, options)
            &&& reloaded(ready, loaded)
            &&& state == PickerState { frame_requested: true, ..loaded }
        };
    lemma_opening_dashboard_keeps(set, ready, options);
    lemma_reload_asks_for_the_first_page(ready, loaded);
}

proof fn lemma_opening_dashboard_keeps(
    before: PickerState,
    after: PickerState,
    options: SessionPickerRunOptions,
)
    requires
        dashboard_opened(before, after, options),
    ensures
        after == (PickerState {
            dashboard_composer: after.dashboard_composer,
            dashboard_fallback_cwd: after.dashboard_fallback_cwd,
            dashboard_group_mode: after.dashboard_group_mode,
            dashboard_restore_thread_id: after.dashboard_restore_thread_id,
            dashboard_restore_cwd: after.dashboard_restore_cwd,
            ..before
        }),
{
}

/// Files are searched in the directory of the selected row or, without one, in the one that the
/// dashboard was opened in, and for what the composer asks; nothing is searched without a file
/// search or a composer. What was found goes to the composer.
pub proof fn lemma_files_are_searched_in_the_selected_project(
    before: PickerState,
    after: PickerState,
    query: String,
    has_file_search: bool,
    has_history: bool,
    action: DashboardAppAction,
)
    requires
        app_event_handled(
            before,
            after,
            DashboardAppEvent::StartFileSearch { query },
            has_file_search,
            has_history,
            action,
        ),
    ensures
        before.dashboard_composer is None || !has_file_search ==> action is Nothing,
        before.dashboard_composer is Some && has_file_search ==> {
            &&& action matches DashboardAppAction::SearchFiles { cwd, query: asked }
            &&& asked == query
            &&& before.selected < before.filtered_rows@.len()
                && before.filtered_rows@[before.selected as int].cwd is Some ==> cwd
                == before.filtered_rows@[before.selected as int].cwd->0
            &&& before.filtered_rows@.len() == 0 && before.dashboard_fallback_cwd is Some ==> cwd
                == before.dashboard_fallback_cwd->0
        },
        after == before,
{
}

/// A look into the history is for the prompt or the batch that was asked for, and its response
/// reaches the composer as it came; without a history nothing is looked up or told.
pub proof fn lemma_history_is_looked_up_as_asked(
    before: PickerState,
    after: PickerState,
    event: DashboardAppEvent,
    has_file_search: bool,
    has_history: bool,
    action: DashboardAppAction,
)
    requires
        app_event_handled(before, after, event, has_file_search, has_history, action),
        before.dashboard_composer is Some,
    ensures
        event matches DashboardAppEvent::LookupMessageHistoryEntry { thread_id, offset, log_id }
            ==> if has_history {
            action matches DashboardAppAction::LookUpEntry {
                thread_id: thread,
                offset: place,
                log_id: log,
            } && thread == thread_id && place == offset && log == log_id
        } else {
            action is Nothing
        },
        event matches DashboardAppEvent::LookupMessageHistoryBatch { thread_id, cursor, log_id }
            ==> if has_history {
            action matches DashboardAppAction::LookUpBatch {
                thread_id: thread,
                cursor: place,
                log_id: log,
            } && thread == thread_id && place == cursor && log == log_id
        } else {
            action is Nothing
        },
        event matches DashboardAppEvent::ThreadHistoryEntryResponse { event: came, .. } ==> if
            has_history {
            action matches DashboardAppAction::TellComposer { response } && response == came
        } else {
            action is Nothing
        },
        event matches DashboardAppEvent::FileSearchResult { query, matches } ==> (
        action matches DashboardAppAction::ShowFiles { query: asked, matches: found } && asked
            == query && found == matches && after.frame_requested),
        after.filtered_rows == before.filtered_rows,
        after.selected == before.selected,
{
}

/// A prompt that was found is told at its place, and one that was not as missing.
pub proof fn lemma_prompt_is_told_at_its_place(
    response: DashboardAppEvent,
    thread_id: ThreadId,
    offset: usize,
    log_id: u64,
    found: Option<HistoryRecord>,
)
    requires
        is_entry_response(response, thread_id, offset, log_id, found),
    ensures
        response matches DashboardAppEvent::ThreadHistoryEntryResponse {
            thread_id: thread,
            event: HistoryLookupResponse::Entry { offset: place, log_id: log, entry },
        } && {
            &&& thread == thread_id
            &&& place == offset
            &&& log == log_id
            &&& found is None ==> entry is None
            &&& found matches Some(record) ==> entry == Some(record.text)
        },
{
}

/// A batch of prompts is told in its order, each prompt at its place, with where to go on; one that
/// failed is told as failed.
pub proof fn lemma_batch_is_told_in_order(
    response: DashboardAppEvent,
    thread_id: ThreadId,
    cursor: HistoryCursor,
    log_id: u64,
    found: Option<HistoryBatch>,
    i: int,
)
    requires
        is_batch_response(response, thread_id, cursor, log_id, found),
    ensures
        found is None ==> (response matches DashboardAppEvent::ThreadHistoryEntryResponse {
            thread_id: thread,
            event: HistoryLookupResponse::BatchError { cursor: place, log_id: log },
        } && thread == thread_id && place == cursor && log == log_id),
        found matches Some(batch) ==> (
        response matches DashboardAppEvent::ThreadHistoryEntryResponse {
            thread_id: thread,
            event: HistoryLookupResponse::Batch {
                cursor: place,
                log_id: log,
                entries,
                next_older_cursor,
            },
        } && {
            &&& thread == thread_id
            &&& place == cursor
            &&& log == log_id
            &&& next_older_cursor == batch.next_older_cursor
            &&& entries@.len() == batch.entries@.len()
            &&& 0 <= i < batch.entries@.len() ==> entries@[i].offset == batch.entries@[i].offset
                && (batch.entries@[i].entry is None ==> entries@[i].entry is None) && (
            batch.entries@[i].entry matches Some(record) ==> entries@[i].entry == Some(
                record.text,
            ))
        }),
{
}

/// A server that runs is used where the daemon manages it, under the version that it answered with,
/// and refused where it does not.
pub proof fn lemma_running_server_is_used_or_refused(
    event: BootstrapEvent,
    action: BootstrapAction,
)
    requires
        follows(action, event),
    ensures
        event matches BootstrapEvent::Probed { app_server_version: Some(version) } ==> (
        action matches BootstrapAction::CheckBackend { app_server_version }
            && app_server_version == version),
        event matches BootstrapEvent::Probed { app_server_version: None } ==> action is SetUp,
        event matches BootstrapEvent::BackendChecked { app_server_version: version, managed } ==> if
            managed {
            action matches BootstrapAction::CheckUpdater { app_server_version }
                && app_server_version == version
        } else {
            action is Refuse
        },
        event matches BootstrapEvent::UpdaterChecked {
            app_server_version: version,
            codex_bin: bin,
            auto_update_enabled: updates,
        } ==> (action matches BootstrapAction::Reuse {
            app_server_version,
            codex_bin,
            auto_update_enabled,
        } && app_server_version == version && codex_bin == bin && auto_update_enabled == updates),
{
}

/// The dashboard lists the interactive sessions of every directory and opens with what it held; a
/// picker at the start or over a session lists what it is asked for, and knows the session that it
/// lies over.
pub proof fn lemma_launches_list_what_they_are_for(
    resume: crate::session::DashboardResumeState,
    show_all: bool,
    include_non_interactive: bool,
    current: Option<ThreadId>,
)
    ensures
        SessionPickerLaunch::of_dashboard(resume).show_all,
        !SessionPickerLaunch::of_dashboard(resume).include_non_interactive,
        SessionPickerLaunch::of_dashboard(resume).context is AgentsDashboard,
        SessionPickerLaunch::of_dashboard(resume).dashboard_resume_state == Some(resume),
        SessionPickerLaunch::of_startup(show_all, include_non_interactive).show_all == show_all,
        SessionPickerLaunch::of_startup(
            show_all,
            include_non_interactive,
        ).include_non_interactive == include_non_interactive,
        SessionPickerLaunch::of_startup(show_all, include_non_interactive).context is Startup,
        SessionPickerLaunch::of_existing_session(
            show_all,
            include_non_interactive,
            current,
        ).show_all == show_all,
        SessionPickerLaunch::of_existing_session(
            show_all,
            include_non_interactive,
            current,
        ).include_non_interactive == include_non_interactive,
        SessionPickerLaunch::of_existing_session(
            show_all,
            include_non_interactive,
            current,
        ).context matches SessionPickerLaunchContext::ExistingSession { current_thread_id }
            && current_thread_id == current,
{
}

/// A chosen session is named by its path or, without one, by its thread.
pub proof fn lemma_target_is_named_by_its_path(target: crate::session::SessionTarget)
    ensures
        target.path is Some ==> target.label() == target.path->0.text@,
        target.path is None ==> target.label() == "thread "@ + crate::ids::uuid_text(
            target.thread_id.bits,
        ),
{
}

/// The chords in force are those of what takes the keys: the transcript over the picker, a draft in
/// the composer, or the list.
pub proof fn lemma_chords_are_those_of_what_takes_the_keys(state: PickerState)
    ensures
        state.overlay is Some ==> state.chord_context() is Pager,
        state.overlay is None && state.dashboard_composer is None ==> state.chord_context() is List,
        state.overlay is None && state.dashboard_search_active ==> state.chord_context() is List,
        state.overlay is None && !state.dashboard_search_active && state.dashboard_composer is Some
            && !state.dashboard_composer->0.is_empty ==> state.chord_context() is Composer,
        state.overlay is None && state.dashboard_composer is Some
            && state.dashboard_composer->0.is_empty && !state.dashboard_composer->0.popup_active
            ==> state.chord_context() is List,
{
}

/// Plain text is a character without control or alt; a control character has control held.
pub proof fn lemma_text_keys_have_no_control(key: crate::keys::KeyEvent, ch: char)
    ensures
        crate::keys::is_plain_text(key) <==> key.code is Char && !key.modifiers.control
            && !key.modifiers.alt,
        crate::keys::is_control_char(key, ch) <==> key.code == crate::keys::KeyCode::Char(ch)
            && key.modifiers.control,
        crate::composer::is_paste_image(key) <==> (key.code == crate::keys::KeyCode::Char('v')
            || key.code == crate::keys::KeyCode::Char('V')) && (key.modifiers.control
            || key.modifiers.alt) && key.kind is Press,
{
}

/// Where nothing is configured the keys that are named for it move, page, jump, accept and cancel.
pub proof fn lemma_default_keys(keymap: ListKeymap, key: crate::keys::KeyEvent)
    requires
        keymap.is_default(),
        key.modifiers == crate::keys::no_modifiers(),
        key.kind is Press,
    ensures
        crate::keys::pressed(keymap.move_up@, key) <==> key.code is Up,
        crate::keys::pressed(keymap.move_down@, key) <==> key.code is Down,
        crate::keys::pressed(keymap.move_left@, key) <==> key.code is Left,
        crate::keys::pressed(keymap.move_right@, key) <==> key.code is Right,
        crate::keys::pressed(keymap.page_up@, key) <==> key.code is PageUp,
        crate::keys::pressed(keymap.page_down@, key) <==> key.code is PageDown,
        crate::keys::pressed(keymap.jump_top@, key) <==> key.code is Home,
        crate::keys::pressed(keymap.jump_bottom@, key) <==> key.code is End,
        crate::keys::pressed(keymap.accept@, key) <==> key.code is Enter,
        crate::keys::pressed(keymap.cancel@, key) <==> key.code is Esc,
{
    assert(keymap.move_up@[0].presses(key) <==> key.code is Up);
    assert(keymap.move_down@[0].presses(key) <==> key.code is Down);
    assert(keymap.move_left@[0].presses(key) <==> key.code is Left);
    assert(keymap.move_right@[0].presses(key) <==> key.code is Right);
    assert(keymap.page_up@[0].presses(key) <==> key.code is PageUp);
    assert(keymap.page_down@[0].presses(key) <==> key.code is PageDown);
    assert(keymap.jump_top@[0].presses(key) <==> key.code is Home);
    assert(keymap.jump_bottom@[0].presses(key) <==> key.code is End);
    assert(keymap.accept@[0].presses(key) <==> key.code is Enter);
    assert(keymap.cancel@[0].presses(key) <==> key.code is Esc);
}

} // verus!
