//! How a picker is opened: what it lists, where it begins, and what its loader reads.

use vstd::prelude::*;
use vstd::string::StringExecFns;
use crate::agents::{composer_given, dashboard_restored};
use crate::ids::ThreadId;
use crate::keys::ListKeymap;
use crate::loading::reloaded;
use crate::paths::{clone_optional_path, SessionPath};
use crate::picker::{is_new, PickerState, SessionPickerViewPersistence};
use crate::render_row::Palette;
use crate::session::{
    DashboardResumeState, PageLoadMode, ProviderFilter, SessionListDensity, SessionPickerAction,
    SessionPickerLaunchContext, SessionPickerViewMode,
};
use crate::time::Timestamp;

verus! {

/// The part of the configuration that a picker reads.
#[derive(Debug)]
pub struct PickerConfig {
    pub cwd: SessionPath,
    pub codex_home: SessionPath,
    pub model_provider_id: String,
    pub show_raw_agent_reasoning: bool,
    pub tui_session_picker_view: SessionPickerViewMode,
    pub disable_paste_burst: bool,
}

/// Where the app server works.
#[derive(Debug)]
pub struct Workspace {
    pub remote: bool,
    /// The directory that sessions are opened in there, where it is given.
    pub remote_cwd_override: Option<SessionPath>,
}

#[derive(Clone, Copy, Debug, PartialEq, Eq, Structural)]
pub enum RawReasoningVisibility {
    Visible,
    Hidden,
}

pub fn raw_reasoning_visibility(config: &PickerConfig) -> (r: RawReasoningVisibility)
    ensures
        r == (if config.show_raw_agent_reasoning {
            RawReasoningVisibility::Visible
        } else {
            RawReasoningVisibility::Hidden
        }),
{
    if config.show_raw_agent_reasoning {
        RawReasoningVisibility::Visible
    } else {
        RawReasoningVisibility::Hidden
    }
}

/// The directory that rows are compared with here: none in a remote workspace.
pub open spec fn local_cwd(cwd_filter: Option<SessionPath>, remote: bool) -> Option<SessionPath> {
    if remote {
        None
    } else {
        cwd_filter
    }
}

pub fn local_picker_cwd_filter(
    cwd_filter: &Option<SessionPath>,
    uses_remote_workspace: bool,
) -> (r: Option<SessionPath>)
    ensures
        r == local_cwd(*cwd_filter, uses_remote_workspace),
{
    if uses_remote_workspace {
        None
    } else {
        clone_optional_path(cwd_filter)
    }
}

/// The sessions of the configured provider; in a remote workspace, those of any.
pub open spec fn provider_of(config: PickerConfig, remote: bool) -> ProviderFilter {
    if remote {
        ProviderFilter::Any
    } else {
        ProviderFilter::MatchDefault(config.model_provider_id)
    }
}

pub fn picker_provider_filter(config: &PickerConfig, uses_remote_workspace: bool) -> (r:
    ProviderFilter)
    ensures
        r == provider_of(*config, uses_remote_workspace),
{
    if uses_remote_workspace {
        ProviderFilter::Any
    } else {
        ProviderFilter::MatchDefault(config.model_provider_id.clone())
    }
}

/// The directory whose sessions are listed: none where all are; in a remote workspace, the one that
/// is given for it.
pub open spec fn cwd_of(
    config_cwd: SessionPath,
    show_all: bool,
    remote: bool,
    remote_cwd_override: Option<SessionPath>,
) -> Option<SessionPath> {
    if show_all {
        None
    } else if remote {
        remote_cwd_override
    } else {
        Some(config_cwd)
    }
}

pub open spec fn optional_path(path: Option<&SessionPath>) -> Option<SessionPath> {
    match path {
        Some(path) => Some(*path),
        None => None,
    }
}

pub fn picker_cwd_filter(
    config_cwd: &SessionPath,
    show_all: bool,
    uses_remote_workspace: bool,
    remote_cwd_override: Option<&SessionPath>,
) -> (r: Option<SessionPath>)
    ensures
        r == cwd_of(
            *config_cwd,
            show_all,
            uses_remote_workspace,
            optional_path(remote_cwd_override),
        ),
{
    if show_all {
        None
    } else if uses_remote_workspace {
        match remote_cwd_override {
            Some(cwd) => Some(cwd.clone()),
            None => None,
        }
    } else {
        Some(config_cwd.clone())
    }
}

/// What a keymap that cannot be used is answered.
pub fn keymap_error(error: &str) -> (r: String)
    ensures
        r@ == "invalid keymap configuration: "@ + error@,
{
    let mut message = "invalid keymap configuration: ".to_owned();
    message.append(error);
    message
}

/// What a picker is opened for.
#[derive(Debug)]
pub struct SessionPickerLaunch {
    pub show_all: bool,
    pub include_non_interactive: bool,
    pub context: SessionPickerLaunchContext,
    pub dashboard_resume_state: Option<DashboardResumeState>,
}

impl SessionPickerLaunch {
    pub open spec fn of_startup(show_all: bool, include_non_interactive: bool) -> Self {
        SessionPickerLaunch {
            show_all,
            include_non_interactive,
            context: SessionPickerLaunchContext::Startup,
            dashboard_resume_state: None,
        }
    }

    pub open spec fn of_dashboard(resume_state: DashboardResumeState) -> Self {
        SessionPickerLaunch {
            show_all: true,
            include_non_interactive: false,
            context: SessionPickerLaunchContext::AgentsDashboard,
            dashboard_resume_state: Some(resume_state),
        }
    }

    pub open spec fn of_existing_session(
        show_all: bool,
        include_non_interactive: bool,
        current_thread_id: Option<ThreadId>,
    ) -> Self {
        SessionPickerLaunch {
            show_all,
            include_non_interactive,
            context: SessionPickerLaunchContext::ExistingSession { current_thread_id },
            dashboard_resume_state: None,
        }
    }

    /// A picker at the start of the program.
    pub fn startup(show_all: bool, include_non_interactive: bool) -> (r: SessionPickerLaunch)
        ensures
            r == SessionPickerLaunch::of_startup(show_all, include_non_interactive),
    {
        SessionPickerLaunch {
            show_all,
            include_non_interactive,
            context: SessionPickerLaunchContext::Startup,
            dashboard_resume_state: None,
        }
    }

    /// The agents dashboard, which lists the interactive sessions of every directory.
    pub fn dashboard(resume_state: DashboardResumeState) -> (r: SessionPickerLaunch)
        ensures
            r == SessionPickerLaunch::of_dashboard(resume_state),
    {
        SessionPickerLaunch {
            show_all: true,
            include_non_interactive: false,
            context: SessionPickerLaunchContext::AgentsDashboard,
            dashboard_resume_state: Some(resume_state),
        }
    }

    /// A picker over a session.
    pub fn existing_session(
        show_all: bool,
        include_non_interactive: bool,
        current_thread_id: Option<ThreadId>,
    ) -> (r: SessionPickerLaunch)
        ensures
            r == SessionPickerLaunch::of_existing_session(
                show_all,
                include_non_interactive,
                current_thread_id,
            ),
    {
        SessionPickerLaunch {
            show_all,
            include_non_interactive,
            context: SessionPickerLaunchContext::ExistingSession { current_thread_id },
            dashboard_resume_state: None,
        }
    }
}

/// How a picker runs.
#[derive(Debug)]
pub struct SessionPickerRunOptions {
    pub show_all: bool,
    pub filter_cwd: Option<SessionPath>,
    pub local_filter_cwd: Option<SessionPath>,
    pub action: SessionPickerAction,
    pub launch_context: SessionPickerLaunchContext,
    pub provider_filter: ProviderFilter,
    pub initial_density: SessionListDensity,
    pub view_persistence: Option<SessionPickerViewPersistence>,
    pub initial_page_mode: PageLoadMode,
    pub dashboard_fallback_cwd: Option<SessionPath>,
    pub dashboard_disable_paste_burst: bool,
    /// The history of prompts is at hand.
    pub dashboard_history: bool,
    pub dashboard_resume_state: Option<DashboardResumeState>,
}

/// How a loader runs.
#[derive(Debug)]
pub struct LoaderOptions {
    pub include_non_interactive: bool,
    pub raw_reasoning_visibility: RawReasoningVisibility,
    /// Where inline visualizations lie; none in a remote workspace.
    pub codex_home: Option<SessionPath>,
    pub show_dashboard_status: bool,
}

/// The listing that is read first: in a remote workspace the store's, else the database's.
pub open spec fn first_mode(remote: bool) -> PageLoadMode {
    if remote {
        PageLoadMode::StoreDefault
    } else {
        PageLoadMode::StateDbOnly
    }
}

/// The filter of the workspace's own directory.
pub open spec fn workspace_cwd(config: PickerConfig, workspace: Workspace) -> Option<SessionPath> {
    cwd_of(config.cwd, false, workspace.remote, workspace.remote_cwd_override)
}

/// The options of a picker that resumes sessions.
pub open spec fn resume_run_options(
    config: PickerConfig,
    workspace: Workspace,
    launch: SessionPickerLaunch,
) -> SessionPickerRunOptions {
    SessionPickerRunOptions {
        show_all: launch.show_all,
        filter_cwd: workspace_cwd(config, workspace),
        local_filter_cwd: local_cwd(workspace_cwd(config, workspace), workspace.remote),
        action: SessionPickerAction::Resume,
        launch_context: launch.context,
        provider_filter: provider_of(config, workspace.remote),
        initial_density: SessionListDensity::of_view_mode(config.tui_session_picker_view),
        view_persistence: Some(SessionPickerViewPersistence { codex_home: config.codex_home }),
        initial_page_mode: first_mode(workspace.remote),
        dashboard_fallback_cwd: if launch.context is AgentsDashboard {
            Some(config.cwd)
        } else {
            None
        },
        dashboard_disable_paste_burst: config.disable_paste_burst,
        dashboard_history: true,
        dashboard_resume_state: launch.dashboard_resume_state,
    }
}

/// The options of a picker that forks sessions.
pub open spec fn fork_run_options(
    config: PickerConfig,
    workspace: Workspace,
    show_all: bool,
) -> SessionPickerRunOptions {
    SessionPickerRunOptions {
        show_all,
        filter_cwd: workspace_cwd(config, workspace),
        local_filter_cwd: local_cwd(workspace_cwd(config, workspace), workspace.remote),
        action: SessionPickerAction::Fork,
        launch_context: SessionPickerLaunchContext::Startup,
        provider_filter: provider_of(config, workspace.remote),
        initial_density: SessionListDensity::of_view_mode(config.tui_session_picker_view),
        view_persistence: Some(SessionPickerViewPersistence { codex_home: config.codex_home }),
        initial_page_mode: first_mode(workspace.remote),
        dashboard_fallback_cwd: None,
        dashboard_disable_paste_burst: false,
        dashboard_history: false,
        dashboard_resume_state: None,
    }
}

fn first_page_mode(remote: bool) -> (r: PageLoadMode)
    ensures
        r == first_mode(remote),
{
    if remote {
        PageLoadMode::StoreDefault
    } else {
        PageLoadMode::StateDbOnly
    }
}

pub fn resume_options(
    config: &PickerConfig,
    workspace: &Workspace,
    launch: SessionPickerLaunch,
) -> (r: SessionPickerRunOptions)
    ensures
        r == resume_run_options(*config, *workspace, launch),
{
    let filter_cwd = picker_cwd_filter(
        &config.cwd,
        false,
        workspace.remote,
        workspace.remote_cwd_override.as_ref(),
    );
    let local_filter_cwd = local_picker_cwd_filter(&filter_cwd, workspace.remote);
    SessionPickerRunOptions {
        show_all: launch.show_all,
        filter_cwd,
        local_filter_cwd,
        action: SessionPickerAction::Resume,
        launch_context: launch.context,
        provider_filter: picker_provider_filter(config, workspace.remote),
        initial_density: SessionListDensity::from(config.tui_session_picker_view),
        view_persistence: Some(
            SessionPickerViewPersistence { codex_home: config.codex_home.clone() },
        ),
        initial_page_mode: first_page_mode(workspace.remote),
        dashboard_fallback_cwd: match launch.context {
            SessionPickerLaunchContext::AgentsDashboard => Some(config.cwd.clone()),
            _ => None,
        },
        dashboard_disable_paste_burst: config.disable_paste_burst,
        dashboard_history: true,
        dashboard_resume_state: launch.dashboard_resume_state,
    }
}

pub fn fork_options(config: &PickerConfig, workspace: &Workspace, show_all: bool) -> (r:
    SessionPickerRunOptions)
    ensures
        r == fork_run_options(*config, *workspace, show_all),
{
    let filter_cwd = picker_cwd_filter(
        &config.cwd,
        false,
        workspace.remote,
        workspace.remote_cwd_override.as_ref(),
    );
    let local_filter_cwd = local_picker_cwd_filter(&filter_cwd, workspace.remote);
    SessionPickerRunOptions {
        show_all,
        filter_cwd,
        local_filter_cwd,
        action: SessionPickerAction::Fork,
        launch_context: SessionPickerLaunchContext::Startup,
        provider_filter: picker_provider_filter(config, workspace.remote),
        initial_density: SessionListDensity::from(config.tui_session_picker_view),
        view_persistence: Some(
            SessionPickerViewPersistence { codex_home: config.codex_home.clone() },
        ),
        initial_page_mode: first_page_mode(workspace.remote),
        dashboard_fallback_cwd: None,
        dashboard_disable_paste_burst: false,
        dashboard_history: false,
        dashboard_resume_state: None,
    }
}

/// `options` are those of the loader of a picker.
pub open spec fn are_loader_options(
    options: LoaderOptions,
    config: PickerConfig,
    workspace: Workspace,
    include_non_interactive: bool,
    context: SessionPickerLaunchContext,
) -> bool {
    &&& options.include_non_interactive == include_non_interactive
    &&& options.raw_reasoning_visibility == (if config.show_raw_agent_reasoning {
        RawReasoningVisibility::Visible
    } else {
        RawReasoningVisibility::Hidden
    })
    &&& options.codex_home == (if workspace.remote {
        None
    } else {
        Some(config.codex_home)
    })
    &&& options.show_dashboard_status == (context is AgentsDashboard)
}

/// How the loader of a picker runs.
pub fn loader_options(
    config: &PickerConfig,
    workspace: &Workspace,
    include_non_interactive: bool,
    context: SessionPickerLaunchContext,
) -> (r: LoaderOptions)
    ensures
        are_loader_options(r, *config, *workspace, include_non_interactive, context),
{
    LoaderOptions {
        include_non_interactive,
        raw_reasoning_visibility: raw_reasoning_visibility(config),
        codex_home: if workspace.remote {
            None
        } else {
            Some(config.codex_home.clone())
        },
        show_dashboard_status: context == SessionPickerLaunchContext::AgentsDashboard,
    }
}

/// `set` is the new picker `fresh` with the options of a run.
pub open spec fn configured(
    fresh: PickerState,
    set: PickerState,
    options: SessionPickerRunOptions,
    list_keymap: ListKeymap,
    now: Timestamp,
    palette: Palette,
) -> bool {
    set == PickerState {
        current_time: now,
        palette,
        local_filter_cwd: options.local_filter_cwd,
        density: options.initial_density,
        view_persistence: options.view_persistence,
        list_keymap,
        launch_context: options.launch_context,
        initial_page_mode: options.initial_page_mode,
        ..fresh
    }
}

/// `after` is `before` with the composer of a dashboard, and with what one kept over a lost
/// connection.
pub open spec fn dashboard_opened(
    before: PickerState,
    after: PickerState,
    options: SessionPickerRunOptions,
) -> bool {
    match options.dashboard_fallback_cwd {
        None => after == before,
        Some(cwd) => match options.dashboard_resume_state {
            None => composer_given(before, after, cwd),
            Some(resume) => exists|given: PickerState| #[trigger]
                composer_given(before, given, cwd) && dashboard_restored(given, after, resume),
        },
    }
}

/// `state` is a picker that was opened with some options and waits for its first page.
pub open spec fn is_opened(
    state: PickerState,
    options: SessionPickerRunOptions,
    list_keymap: ListKeymap,
    now: Timestamp,
    palette: Palette,
) -> bool {
    exists|fresh: PickerState, set: PickerState, ready: PickerState, loaded: PickerState|
        #![trigger configured(fresh, set, options, list_keymap, now, palette), dashboard_opened(set, ready, options), reloaded(ready, loaded)]
        {
            &&& is_new(
                fresh,
                options.provider_filter,
                options.show_all,
                options.filter_cwd,
                options.action,
            )
            &&& configured(fresh, set, options, list_keymap, now, palette)
            &&& dashboard_opened(set, ready, options)
            &&& reloaded(ready, loaded)
            &&& state == PickerState { frame_requested: true, ..loaded }
        }
}

/// Opens a picker: it asks for its first page and a frame.
pub fn open_picker(
    options: SessionPickerRunOptions,
    list_keymap: ListKeymap,
    now: Timestamp,
    palette: Palette,
) -> (r: PickerState)
    ensures
        is_opened(r, options, list_keymap, now, palette),
{
    let mut state = PickerState::new(
        options.provider_filter,
        options.show_all,
        options.filter_cwd,
        options.action,
    );
    let ghost fresh = state;
    state.current_time = now;
    state.palette = palette;
    state.local_filter_cwd = options.local_filter_cwd;
    state.density = options.initial_density;
    state.view_persistence = options.view_persistence;
    state.list_keymap = list_keymap;
    state.launch_context = options.launch_context;
    state.initial_page_mode = options.initial_page_mode;
    let ghost set = state;
    if let Some(cwd) = &options.dashboard_fallback_cwd {
        state.initialize_dashboard_composer(cwd);
        if let Some(resume) = &options.dashboard_resume_state {
            let ghost given = state;
            state.restore_dashboard(resume);
            proof {
                assert(composer_given(set, given, *cwd));
            }
        }
    }
    let ghost ready = state;
    state.start_initial_load();
    let ghost loaded = state;
    state.request_frame();
    proof {
        assert(configured(fresh, set, options, list_keymap, now, palette));
        assert(dashboard_opened(set, ready, options));
        assert(reloaded(ready, loaded));
    }
    state
}

} // verus!
