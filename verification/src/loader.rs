//! The loader: what is asked of the app server for the picker's requests, and what its replies
//! tell the picker.

use vstd::prelude::*;
use vstd::string::StringExecFns;
use crate::composer::Inventory;
use crate::events::BackgroundEvent;
use crate::ids::{are_random_bits, random_bits, thread_id_of, uuid_of, uuid_text, ThreadId};
use crate::loading::PAGE_SIZE;
use crate::paths::{is_same_path, same_path, SessionPath};
use crate::protocol::{
    AppServerEvent, Thread, ThreadListCwdFilter, ThreadListParams, ThreadListResponse,
    ThreadSortKey, ThreadSourceKind, ThreadStatus,
};
use crate::row::{is_row_of, row_from_app_server_thread, Row};
use crate::search::PickerPage;
use crate::session::{
    PageCursor, PageLoadMode, PickerLoadRequest, ProviderFilter, SessionStatus, SessionTarget,
    TranscriptCells, TranscriptPreviewLine,
};

verus! {

/// No other thread started this one.
pub open spec fn is_root(thread: Thread) -> bool {
    thread.parent_thread_id is None
}

pub fn dashboard_thread_is_root(thread: &Thread) -> (r: bool)
    ensures
        r == is_root(*thread),
{
    thread.parent_thread_id.is_none()
}

/// The dashboard lists no thread that another one started.
pub open spec fn is_listed(thread: Thread, show_dashboard_status: bool) -> bool {
    !show_dashboard_status || is_root(thread)
}

pub fn thread_visible_in_picker(thread: &Thread, show_dashboard_status: bool) -> (r: bool)
    ensures
        r == is_listed(*thread, show_dashboard_status),
{
    !show_dashboard_status || dashboard_thread_is_root(thread)
}

/// A thread that has a row.
pub open spec fn has_row(thread: Thread, show_dashboard_status: bool) -> bool {
    is_listed(thread, show_dashboard_status) && thread_id_of(thread.id@) is Some
}

/// The threads that have rows, in their order.
pub open spec fn threads_with_rows(threads: Seq<Thread>, show_dashboard_status: bool) -> Seq<Thread> {
    threads.filter(|thread: Thread| has_row(thread, show_dashboard_status))
}

/// `rows` are the rows of `threads`, one for each.
pub open spec fn are_rows_of(
    rows: Seq<Row>,
    threads: Seq<Thread>,
    show_dashboard_status: bool,
) -> bool {
    &&& rows.len() == threads.len()
    &&& forall|i: int|
        0 <= i < rows.len() ==> is_row_of(
            #[trigger] rows[i],
            threads[i],
            thread_id_of(threads[i].id@)->0,
            show_dashboard_status,
        )
}

/// A thread that the dashboard shows as stopped by a system error.
pub open spec fn is_broken(thread: Thread, show_dashboard_status: bool) -> bool {
    show_dashboard_status && is_root(thread) && thread.status is SystemError && thread_id_of(
        thread.id@,
    ) is Some
}

/// The threads that were stopped by a system error.
pub open spec fn broken_threads(threads: Seq<Thread>, show_dashboard_status: bool) -> Seq<ThreadId> {
    threads.filter(|thread: Thread| is_broken(thread, show_dashboard_status)).map_values(
        |thread: Thread| thread_id_of(thread.id@)->0,
    )
}

/// The cursor of the next page.
pub open spec fn is_cursor(cursor: Option<PageCursor>, next: Option<String>) -> bool {
    match next {
        Some(text) => cursor == Some(PageCursor::AppServer(text)),
        None => cursor is None,
    }
}

/// The identifier of a thread that was stopped by a system error.
fn broken_thread(thread: &Thread, show_dashboard_status: bool) -> (r: Option<ThreadId>)
    ensures
        r == (if is_broken(*thread, show_dashboard_status) {
            thread_id_of(thread.id@)
        } else {
            None
        }),
{
    if !show_dashboard_status || !dashboard_thread_is_root(thread) {
        return None;
    }
    match thread.status {
        ThreadStatus::SystemError => ThreadId::from_string(thread.id.as_str()),
        _ => None,
    }
}

proof fn lemma_threads_taken(threads: Seq<Thread>, show_dashboard_status: bool, at: int)
    requires
        0 <= at < threads.len(),
    ensures
        threads_with_rows(threads.take(at + 1), show_dashboard_status) == (if has_row(
            threads[at],
            show_dashboard_status,
        ) {
            threads_with_rows(threads.take(at), show_dashboard_status).push(threads[at])
        } else {
            threads_with_rows(threads.take(at), show_dashboard_status)
        }),
        broken_threads(threads.take(at + 1), show_dashboard_status) == (if is_broken(
            threads[at],
            show_dashboard_status,
        ) {
            broken_threads(threads.take(at), show_dashboard_status).push(
                thread_id_of(threads[at].id@)->0,
            )
        } else {
            broken_threads(threads.take(at), show_dashboard_status)
        }),
{
    reveal(Seq::filter);
    let some = threads.take(at);
    let more = threads.take(at + 1);
    assert(more.drop_last() =~= some);
    assert(more.last() == threads[at]);
    let broken = |thread: Thread| is_broken(thread, show_dashboard_status);
    let id = |thread: Thread| thread_id_of(thread.id@)->0;
    assert(broken_threads(more, show_dashboard_status) =~= if is_broken(
        threads[at],
        show_dashboard_status,
    ) {
        some.filter(broken).map_values(id).push(id(threads[at]))
    } else {
        some.filter(broken).map_values(id)
    });
}

/// The page that a listing of the app server gives: the rows of the threads that are shown, in
/// their order, and the threads that were stopped by a system error.
pub fn page_from_response(response: ThreadListResponse, show_dashboard_status: bool) -> (r:
    PickerPage)
    ensures
        are_rows_of(
            r.rows@,
            threads_with_rows(response.data@, show_dashboard_status),
            show_dashboard_status,
        ),
        r.dashboard_system_errors@ == broken_threads(response.data@, show_dashboard_status),
        is_cursor(r.next_cursor, response.next_cursor),
        r.num_scanned_files == response.data@.len(),
        !r.reached_scan_cap,
{
    let num_scanned_files: usize = response.data.len();
    let mut rows: Vec<Row> = Vec::new();
    let mut dashboard_system_errors: Vec<ThreadId> = Vec::new();
    let mut threads = response.data;
    let ghost all = threads@;
    let mut i: usize = 0;
    proof {
        reveal(Seq::filter);
        assert(all.take(0) =~= Seq::<Thread>::empty());
        assert(all.skip(0) =~= all);
        assert(broken_threads(all.take(0), show_dashboard_status) =~= Seq::<ThreadId>::empty());
    }
    while threads.len() > 0
        invariant
            i <= all.len(),
            threads@ == all.skip(i as int),
            are_rows_of(
                rows@,
                threads_with_rows(all.take(i as int), show_dashboard_status),
                show_dashboard_status,
            ),
            dashboard_system_errors@ == broken_threads(all.take(i as int), show_dashboard_status),
            all.len() <= usize::MAX,
        decreases threads.len(),
    {
        let thread = threads.remove(0);
        proof {
            assert(all.skip(i as int).remove(0) =~= all.skip(i + 1));
            assert(thread == all[i as int]);
            lemma_threads_taken(all, show_dashboard_status, i as int);
        }
        if let Some(thread_id) = broken_thread(&thread, show_dashboard_status) {
            dashboard_system_errors.push(thread_id);
        }
        if thread_visible_in_picker(&thread, show_dashboard_status) {
            if let Some(row) = row_from_app_server_thread(thread, show_dashboard_status) {
                rows.push(row);
            }
        }
        i += 1;
    }
    proof {
        assert(all.take(i as int) =~= all);
    }
    PickerPage {
        rows,
        dashboard_system_errors,
        next_cursor: match response.next_cursor {
            Some(cursor) => Some(PageCursor::AppServer(cursor)),
            None => None,
        },
        num_scanned_files,
        reached_scan_cap: false,
    }
}

/// The kinds of sessions that are listed: those of a user at a terminal or an editor, and on
/// demand those without one.
pub open spec fn source_kinds(include_non_interactive: bool) -> Seq<ThreadSourceKind> {
    if include_non_interactive {
        seq![
            ThreadSourceKind::Cli,
            ThreadSourceKind::VsCode,
            ThreadSourceKind::Exec,
            ThreadSourceKind::AppServer,
        ]
    } else {
        seq![ThreadSourceKind::Cli, ThreadSourceKind::VsCode]
    }
}

pub fn resume_source_kinds(include_non_interactive: bool) -> (r: Vec<ThreadSourceKind>)
    ensures
        r@ == source_kinds(include_non_interactive),
{
    if include_non_interactive {
        vec![
            ThreadSourceKind::Cli,
            ThreadSourceKind::VsCode,
            ThreadSourceKind::Exec,
            ThreadSourceKind::AppServer,
        ]
    } else {
        vec![ThreadSourceKind::Cli, ThreadSourceKind::VsCode]
    }
}

/// `params` asks for a page of the listing.
pub open spec fn asks_for_page(
    params: ThreadListParams,
    cursor: Option<String>,
    cwd: Option<Seq<char>>,
    status: SessionStatus,
    provider_filter: ProviderFilter,
    sort_key: ThreadSortKey,
    include_non_interactive: bool,
    use_state_db_only: bool,
) -> bool {
    &&& params.cursor == cursor
    &&& params.limit == Some(25u32)
    &&& params.sort_key == Some(sort_key)
    &&& params.sort_direction is None
    &&& match provider_filter {
        ProviderFilter::Any => params.model_providers is None,
        ProviderFilter::MatchDefault(provider) => params.model_providers is Some
            && params.model_providers->0@ == seq![provider],
    }
    &&& params.source_kinds is Some
    &&& params.source_kinds->0@ == source_kinds(include_non_interactive)
    &&& params.archived == Some(status is Archived)
    &&& params.section_id is None
    &&& params.parent_thread_id is None
    &&& params.ancestor_thread_id is None
    &&& match cwd {
        None => params.cwd is None,
        Some(path) => params.cwd is Some && params.cwd->0 is One && params.cwd->0->One_0@ == path,
    }
    &&& params.use_state_db_only == use_state_db_only
    &&& params.search_term is None
}

pub open spec fn path_text(path: Option<SessionPath>) -> Option<Seq<char>> {
    match path {
        Some(path) => Some(path.text@),
        None => None,
    }
}

pub fn thread_list_params(
    cursor: Option<String>,
    cwd_filter: Option<&SessionPath>,
    status: SessionStatus,
    provider_filter: ProviderFilter,
    sort_key: ThreadSortKey,
    include_non_interactive: bool,
    use_state_db_only: bool,
) -> (r: ThreadListParams)
    ensures
        asks_for_page(
            r,
            cursor,
            match cwd_filter {
                Some(path) => Some(path.text@),
                None => None,
            },
            status,
            provider_filter,
            sort_key,
            include_non_interactive,
            use_state_db_only,
        ),
{
    let model_providers = match provider_filter {
        ProviderFilter::Any => None,
        ProviderFilter::MatchDefault(default_provider) => {
            let providers = vec![default_provider];
            assert(providers@ =~= seq![default_provider]);
            Some(providers)
        },
    };
    ThreadListParams {
        cursor,
        limit: Some(PAGE_SIZE as u32),
        sort_key: Some(sort_key),
        sort_direction: None,
        model_providers,
        source_kinds: Some(resume_source_kinds(include_non_interactive)),
        archived: Some(status == SessionStatus::Archived),
        section_id: None,
        parent_thread_id: None,
        ancestor_thread_id: None,
        cwd: match cwd_filter {
            Some(cwd) => Some(ThreadListCwdFilter::One(cwd.text.clone())),
            None => None,
        },
        use_state_db_only,
        search_term: None,
    }
}

/// The identifier of a request: a name with a UUID behind it.
pub fn request_id(name: &str, bits: u128) -> (r: String)
    ensures
        r@ == name@ + uuid_text(bits),
{
    let mut id = name.to_owned();
    id.append(uuid_of(bits).as_str());
    id
}

/// What the app server is asked.
#[derive(Debug)]
pub enum LoaderCall {
    ListThreads { params: ThreadListParams, request_token: usize, search_token: Option<usize> },
    ReadPreview { thread_id: ThreadId },
    /// The reading stops where it is called off under its number.
    ReadTranscript { thread_id: ThreadId, cancellation: u64 },
    CallOff { cancellation: u64 },
    Archive { request_id: String, thread_text: String, thread_id: ThreadId },
    Unarchive { request_id: String, thread_text: String, thread_id: ThreadId },
    ReadInventory { cwd: SessionPath },
}

/// The cursor that a request holds.
pub open spec fn cursor_text(cursor: Option<PageCursor>) -> Option<String> {
    match cursor {
        Some(PageCursor::AppServer(text)) => Some(text),
        None => None,
    }
}

/// `call` is what `request` needs. Requests that change something carry an identifier made of
/// `bits`.
pub open spec fn is_call_for(
    call: LoaderCall,
    request: PickerLoadRequest,
    include_non_interactive: bool,
    bits: u128,
) -> bool {
    match request {
        PickerLoadRequest::Page(request) => {
            &&& call is ListThreads
            &&& call->ListThreads_request_token == request.request_token
            &&& call->ListThreads_search_token == request.search_token
            &&& asks_for_page(
                call->params,
                cursor_text(request.cursor),
                path_text(request.cwd_filter),
                request.status,
                request.provider_filter,
                request.sort_key,
                include_non_interactive,
                request.mode is StateDbOnly,
            )
        },
        PickerLoadRequest::Preview { thread_id } => call == LoaderCall::ReadPreview { thread_id },
        PickerLoadRequest::Transcript { thread_id, cancellation } => call
            == LoaderCall::ReadTranscript { thread_id, cancellation },
        PickerLoadRequest::CancelTranscript { cancellation } => call == LoaderCall::CallOff {
            cancellation,
        },
        PickerLoadRequest::Archive { thread_id } => {
            &&& call is Archive
            &&& call->Archive_request_id@ == "resume-picker-archive-"@ + uuid_text(bits)
            &&& call->Archive_thread_text@ == uuid_text(thread_id.bits)
            &&& call->Archive_thread_id == thread_id
        },
        PickerLoadRequest::Unarchive { thread_id } => {
            &&& call is Unarchive
            &&& call->Unarchive_request_id@ == "resume-picker-unarchive-"@ + uuid_text(bits)
            &&& call->Unarchive_thread_text@ == uuid_text(thread_id.bits)
            &&& call->Unarchive_thread_id == thread_id
        },
        PickerLoadRequest::DashboardComposerInventory { cwd } => call == LoaderCall::ReadInventory {
            cwd,
        },
    }
}

/// What the app server is asked for a request, where an identifier is made of `bits`.
pub fn loader_call(request: PickerLoadRequest, include_non_interactive: bool, bits: u128) -> (r:
    LoaderCall)
    ensures
        is_call_for(r, request, include_non_interactive, bits),
{
    match request {
        PickerLoadRequest::Page(request) => {
            let cursor = match request.cursor {
                Some(PageCursor::AppServer(cursor)) => Some(cursor),
                None => None,
            };
            let use_state_db_only = request.mode == PageLoadMode::StateDbOnly;
            LoaderCall::ListThreads {
                params: thread_list_params(
                    cursor,
                    request.cwd_filter.as_ref(),
                    request.status,
                    request.provider_filter,
                    request.sort_key,
                    include_non_interactive,
                    use_state_db_only,
                ),
                request_token: request.request_token,
                search_token: request.search_token,
            }
        },
        PickerLoadRequest::Preview { thread_id } => LoaderCall::ReadPreview { thread_id },
        PickerLoadRequest::Transcript { thread_id, cancellation } => LoaderCall::ReadTranscript {
            thread_id,
            cancellation,
        },
        PickerLoadRequest::CancelTranscript { cancellation } => LoaderCall::CallOff {
            cancellation,
        },
        PickerLoadRequest::Archive { thread_id } => LoaderCall::Archive {
            request_id: request_id("resume-picker-archive-", bits),
            thread_text: thread_id.text(),
            thread_id,
        },
        PickerLoadRequest::Unarchive { thread_id } => LoaderCall::Unarchive {
            request_id: request_id("resume-picker-unarchive-", bits),
            thread_text: thread_id.text(),
            thread_id,
        },
        PickerLoadRequest::DashboardComposerInventory { cwd } => LoaderCall::ReadInventory { cwd },
    }
}

/// What the app server is asked for a request, with a new identifier.
pub fn new_loader_call(request: PickerLoadRequest, include_non_interactive: bool) -> (r: LoaderCall)
    ensures
        exists|bits: u128|
            #![trigger is_call_for(r, request, include_non_interactive, bits)]
            are_random_bits(bits) && is_call_for(r, request, include_non_interactive, bits),
{
    let bits: u128 = random_bits();
    let call = loader_call(request, include_non_interactive, bits);
    assert(is_call_for(call, request, include_non_interactive, bits));
    call
}

/// A skill of a project; the skill itself is kept by number.
#[derive(Clone, Copy, Debug, PartialEq, Eq, Structural)]
pub struct Skill {
    pub handle: u64,
    pub enabled: bool,
}

/// The skills of the project in a directory.
#[derive(Debug)]
pub struct SkillsListEntry {
    pub cwd: SessionPath,
    pub skills: Vec<Skill>,
}

/// The first entry from `at` on whose directory is `cwd`.
pub open spec fn entry_for(entries: Seq<SkillsListEntry>, cwd: Seq<char>, at: int) -> int
    decreases entries.len() - at,
{
    if at >= entries.len() || same_path(entries[at].cwd.text@, cwd) {
        at
    } else {
        entry_for(entries, cwd, at + 1)
    }
}

/// The skills that are enabled, in their order.
pub open spec fn enabled(skills: Seq<Skill>) -> Seq<u64> {
    skills.filter(|skill: Skill| skill.enabled).map_values(|skill: Skill| skill.handle)
}

fn take_enabled(skills: &Vec<Skill>) -> (r: Vec<u64>)
    ensures
        r@ == enabled(skills@),
{
    let mut handles: Vec<u64> = Vec::new();
    let mut i: usize = 0;
    proof {
        reveal(Seq::filter);
        assert(skills@.take(0) =~= Seq::<Skill>::empty());
        assert(handles@ =~= enabled(skills@.take(0)));
    }
    while i < skills.len()
        invariant
            i <= skills.len(),
            handles@ == enabled(skills@.take(i as int)),
        decreases skills.len() - i,
    {
        let skill = skills[i];
        let ghost before = handles@;
        if skill.enabled {
            handles.push(skill.handle);
        }
        proof {
            reveal(Seq::filter);
            assert(skills@.take(i + 1).drop_last() =~= skills@.take(i as int));
            assert(skills@.take(i + 1).last() == skill);
            assert(handles@ =~= enabled(skills@.take(i + 1)));
        }
        i += 1;
    }
    proof {
        assert(skills@.take(i as int) =~= skills@);
    }
    handles
}

/// `skills` are the enabled skills of the project in `cwd`; there are none where they could not be
/// loaded or the project is not among the entries.
pub open spec fn are_skills_for(
    skills: Option<Vec<u64>>,
    entries: Option<Vec<SkillsListEntry>>,
    cwd: Seq<char>,
) -> bool {
    match entries {
        None => skills is None,
        Some(entries) => {
            let at = entry_for(entries@, cwd, 0);
            if at < entries@.len() {
                skills is Some && skills->0@ == enabled(entries@[at].skills@)
            } else {
                skills is None
            }
        },
    }
}

pub fn skills_for(loaded: &Option<Vec<SkillsListEntry>>, cwd: &SessionPath) -> (r: Option<Vec<u64>>)
    ensures
        are_skills_for(r, *loaded, cwd.text@),
{
    match loaded {
        None => None,
        Some(entries) => {
            let mut i: usize = 0;
            while i < entries.len() && !is_same_path(
                entries[i].cwd.text.as_str(),
                cwd.text.as_str(),
            )
                invariant
                    i <= entries.len(),
                    entry_for(entries@, cwd.text@, 0) == entry_for(entries@, cwd.text@, i as int),
                decreases entries.len() - i,
            {
                i += 1;
            }
            if i < entries.len() {
                Some(take_enabled(&entries[i].skills))
            } else {
                None
            }
        },
    }
}

/// What came back from the app server.
#[derive(Debug)]
pub enum LoaderReply {
    Threads {
        request_token: usize,
        search_token: Option<usize>,
        response: Result<ThreadListResponse, String>,
    },
    Preview { thread_id: ThreadId, preview: Result<Vec<TranscriptPreviewLine>, String> },
    Transcript { thread_id: ThreadId, transcript: Result<TranscriptCells, String> },
    /// The reading of a transcript was called off.
    CalledOff,
    Archived { thread_id: ThreadId, result: Result<(), String> },
    /// The path under which the thread is found again.
    Unarchived { thread_id: ThreadId, result: Result<Option<SessionPath>, String> },
    Inventory {
        cwd: SessionPath,
        skills: Option<Vec<SkillsListEntry>>,
        plugins: Option<u64>,
        connectors: Option<u64>,
    },
}

/// `event` tells the picker of `reply`.
pub open spec fn tells_of(
    event: Option<BackgroundEvent>,
    reply: LoaderReply,
    show_dashboard_status: bool,
) -> bool {
    match reply {
        LoaderReply::Threads { request_token, search_token, response } => {
            &&& event is Some
            &&& event->0 is Page
            &&& event->0->request_token == request_token
            &&& event->0->search_token == search_token
            &&& match response {
                Err(error) => event->0->page == Err::<PickerPage, String>(error),
                Ok(response) => {
                    let page = event->0->page->Ok_0;
                    &&& event->0->page is Ok
                    &&& are_rows_of(
                        page.rows@,
                        threads_with_rows(response.data@, show_dashboard_status),
                        show_dashboard_status,
                    )
                    &&& page.dashboard_system_errors@ == broken_threads(
                        response.data@,
                        show_dashboard_status,
                    )
                    &&& is_cursor(page.next_cursor, response.next_cursor)
                    &&& page.num_scanned_files == response.data@.len()
                    &&& !page.reached_scan_cap
                },
            }
        },
        LoaderReply::Preview { thread_id, preview } => event == Some(
            BackgroundEvent::Preview { thread_id, preview },
        ),
        LoaderReply::Transcript { thread_id, transcript } => event == Some(
            BackgroundEvent::Transcript { thread_id, transcript },
        ),
        LoaderReply::CalledOff => event is None,
        LoaderReply::Archived { thread_id, result } => event == Some(
            BackgroundEvent::Archive { thread_id, result },
        ),
        LoaderReply::Unarchived { thread_id, result } => event == Some(
            BackgroundEvent::Unarchive {
                thread_id,
                result: match result {
                    Ok(path) => Ok(SessionTarget { path, thread_id }),
                    Err(error) => Err(error),
                },
            },
        ),
        LoaderReply::Inventory { cwd, skills, plugins, connectors } => {
            &&& event is Some
            &&& event->0 is DashboardComposerInventory
            &&& event->0->cwd == cwd
            &&& event->0->inventory.plugins == plugins
            &&& event->0->inventory.connectors == connectors
            &&& are_skills_for(event->0->inventory.skills, skills, cwd.text@)
        },
    }
}

/// What the picker is told of a reply.
pub fn loader_event(reply: LoaderReply, show_dashboard_status: bool) -> (r: Option<BackgroundEvent>)
    ensures
        tells_of(r, reply, show_dashboard_status),
{
    match reply {
        LoaderReply::Threads { request_token, search_token, response } => {
            let page = match response {
                Ok(response) => Ok(page_from_response(response, show_dashboard_status)),
                Err(error) => Err(error),
            };
            Some(BackgroundEvent::Page { request_token, search_token, page })
        },
        LoaderReply::Preview { thread_id, preview } => Some(
            BackgroundEvent::Preview { thread_id, preview },
        ),
        LoaderReply::Transcript { thread_id, transcript } => Some(
            BackgroundEvent::Transcript { thread_id, transcript },
        ),
        LoaderReply::CalledOff => None,
        LoaderReply::Archived { thread_id, result } => Some(
            BackgroundEvent::Archive { thread_id, result },
        ),
        LoaderReply::Unarchived { thread_id, result } => {
            let result = match result {
                Ok(path) => Ok(SessionTarget { path, thread_id }),
                Err(error) => Err(error),
            };
            Some(BackgroundEvent::Unarchive { thread_id, result })
        },
        LoaderReply::Inventory { cwd, skills, plugins, connectors } => {
            let skills = skills_for(&skills, &cwd);
            Some(
                BackgroundEvent::DashboardComposerInventory {
                    cwd,
                    inventory: Inventory { skills, plugins, connectors },
                },
            )
        },
    }
}

/// What the loader hears of next.
#[derive(Debug)]
pub enum LoaderInput {
    /// A request of the picker; none where it is gone.
    Request(Option<PickerLoadRequest>),
    /// An event of the app server; none where it is gone.
    Server(Option<AppServerEvent>),
    Reply(LoaderReply),
}

/// What the loader does next.
#[derive(Debug)]
pub enum LoaderAction {
    Call(LoaderCall),
    Tell(BackgroundEvent),
    Nothing,
    ShutDown,
}

/// `action` is what the loader does on `input`.
pub open spec fn is_step_on(
    action: LoaderAction,
    input: LoaderInput,
    include_non_interactive: bool,
    show_dashboard_status: bool,
) -> bool {
    match input {
        LoaderInput::Request(None) | LoaderInput::Server(None) => action is ShutDown,
        LoaderInput::Request(Some(request)) => action is Call && exists|bits: u128|
            #![trigger is_call_for(action->Call_0, request, include_non_interactive, bits)]
            are_random_bits(bits) && is_call_for(
                action->Call_0,
                request,
                include_non_interactive,
                bits,
            ),
        LoaderInput::Server(Some(event)) => action == LoaderAction::Tell(
            BackgroundEvent::AppServer(event),
        ),
        LoaderInput::Reply(reply) => match action {
            LoaderAction::Tell(event) => tells_of(Some(event), reply, show_dashboard_status),
            LoaderAction::Nothing => tells_of(None, reply, show_dashboard_status),
            _ => false,
        },
    }
}

/// The loader goes on until the picker or the app server is gone.
pub fn loader_step(
    input: LoaderInput,
    include_non_interactive: bool,
    show_dashboard_status: bool,
) -> (r: LoaderAction)
    ensures
        is_step_on(r, input, include_non_interactive, show_dashboard_status),
{
    match input {
        LoaderInput::Request(Some(request)) => LoaderAction::Call(
            new_loader_call(request, include_non_interactive),
        ),
        LoaderInput::Server(Some(event)) => LoaderAction::Tell(BackgroundEvent::AppServer(event)),
        LoaderInput::Reply(reply) => match loader_event(reply, show_dashboard_status) {
            Some(event) => LoaderAction::Tell(event),
            None => LoaderAction::Nothing,
        },
        _ => LoaderAction::ShutDown,
    }
}

} // verus!
