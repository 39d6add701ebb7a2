//! What the picker promises of the pages that it loads: what is asked for, and what becomes of what
//! comes.

use vstd::prelude::*;
use crate::agents::inventory_asked;
use crate::distinct_rows::{first_rows, is_first, lemma_page_keeps_order, same_session};
use crate::events::{either_token, page_followed, page_handled, BackgroundEvent};
use crate::filter::refiltered;
use crate::loader::{
    is_step_on, threads_with_rows, LoaderAction, LoaderCall, LoaderInput, LoaderReply,
};
use crate::loading::{
    minimum_rows_asked, next_page_asked, reloaded, scroll_page_asked,
};
use crate::pagination::PaginationState;
use crate::picker::PickerState;
use crate::protocol::{Thread, ThreadListCwdFilter, ThreadListResponse, ThreadSourceKind};
use crate::row::{key_in, Row};
use crate::search::{
    is_other_search, page_down_completed, page_ingested, page_merged, search_begun,
    search_continued, PickerPage,
};
use crate::session::{
    LoadTrigger, PageCursor, PageLoadMode, PickerLoadRequest, ProviderFilter, SearchState,
    SessionStatus,
};

verus! {

/// The next page is asked for where the last one ended: the request carries the cursor that the
/// pagination holds, under the token that is then waited for, and with the filter, the status, the
/// provider and the order that are set. Where nothing follows, or a page is awaited already,
/// nothing is asked for. The rows stay as they are.
pub proof fn lemma_next_page_follows_the_last(
    before: PickerState,
    after: PickerState,
    trigger: LoadTrigger,
)
    requires
        next_page_asked(before, after, trigger),
    ensures
        before.pagination.pending is None && before.pagination.next_cursor is Some ==> {
            &&& after.requests@.len() == before.requests@.len() + 1
            &&& after.requests@.take(before.requests@.len() as int) == before.requests@
            &&& after.requests@.last() matches PickerLoadRequest::Page(request)
            &&& request.cursor == before.pagination.next_cursor
            &&& after.pagination.pending is Some
            &&& request.request_token == after.pagination.pending->0.request_token
            &&& request.request_token == before.next_request_token
            &&& after.next_request_token != before.next_request_token
            &&& request.search_token == after.pagination.pending->0.search_token
            &&& request.search_token == (match trigger {
                LoadTrigger::Scroll => None,
                LoadTrigger::Search { token } => Some(token),
            })
            &&& request.mode == before.pagination.mode
            &&& before.filter_mode is All ==> request.cwd_filter is None
            &&& before.filter_mode is Cwd ==> request.cwd_filter == before.filter_cwd
            &&& request.status == before.status
            &&& request.provider_filter == before.provider_filter
            &&& request.sort_key == before.sort_key
        },
        before.pagination.pending is Some || before.pagination.next_cursor is None
            ==> after.requests@ == before.requests@ && after.pagination == before.pagination,
        after.pagination.next_cursor == before.pagination.next_cursor,
        after.all_rows == before.all_rows,
        after.filtered_rows == before.filtered_rows,
        after.seen_rows == before.seen_rows,
        after.selected == before.selected,
{
    if before.pagination.pending is None && before.pagination.next_cursor is Some {
        assert(after.requests@.take(before.requests@.len() as int) =~= before.requests@);
    }
}

/// Loading anew drops what is loaded and asks for the first page: one without a cursor, under the
/// token that is then waited for, and with the filter, the status, the provider and the order that
/// are set. A query is searched for again.
pub proof fn lemma_reload_asks_for_the_first_page(before: PickerState, after: PickerState)
    requires
        reloaded(before, after),
    ensures
        after.all_rows@.len() == 0,
        after.filtered_rows@.len() == 0,
        after.seen_rows@.len() == 0,
        after.selected == 0,
        after.query == before.query,
        after.pagination.next_cursor is None,
        after.requests@.len() == before.requests@.len() + 1,
        after.requests@.take(before.requests@.len() as int) == before.requests@,
        after.requests@.last() matches PickerLoadRequest::Page(request) && {
            &&& request.cursor is None
            &&& after.pagination.pending is Some
            &&& request.request_token == after.pagination.pending->0.request_token
            &&& request.request_token == before.next_request_token
            &&& after.next_request_token != before.next_request_token
            &&& request.search_token == after.pagination.pending->0.search_token
            &&& request.mode == before.initial_page_mode
            &&& before.filter_mode is All ==> request.cwd_filter is None
            &&& before.filter_mode is Cwd ==> request.cwd_filter == before.filter_cwd
            &&& request.status == before.status
            &&& request.provider_filter == before.provider_filter
            &&& request.sort_key == before.sort_key
            &&& before.query@.len() == 0 ==> request.search_token is None
                && after.search_state is Idle
            &&& before.query@.len() > 0 ==> request.search_token is Some && after.search_state == (
            SearchState::Active { token: request.search_token->0 })
        },
{
    assert(after.requests@.take(before.requests@.len() as int) =~= before.requests@);
}

/// A page is asked for on the way down as soon as at most five rows follow the selected one, and
/// not before.
pub proof fn lemma_page_is_asked_for_near_the_end(before: PickerState, after: PickerState)
    requires
        scroll_page_asked(before, after),
        before.selected < before.filtered_rows@.len(),
        before.pagination.pending is None,
        before.pagination.next_cursor is Some,
    ensures
        before.filtered_rows@.len() - before.selected - 1 <= 5 ==> {
            &&& after.requests@.len() == before.requests@.len() + 1
            &&& after.requests@.last() matches PickerLoadRequest::Page(request)
            &&& request.cursor == before.pagination.next_cursor
            &&& request.search_token is None
        },
        before.filtered_rows@.len() - before.selected - 1 > 5 ==> after.requests@
            == before.requests@,
{
    if before.filtered_rows@.len() - before.selected - 1 <= 5 {
        lemma_next_page_follows_the_last(before, after, LoadTrigger::Scroll);
    }
}

/// Nothing is asked for on the way down, nor to fill the view, while a page is awaited or where
/// nothing follows.
pub proof fn lemma_one_page_at_a_time(before: PickerState, after: PickerState, height: int)
    requires
        scroll_page_asked(before, after) || minimum_rows_asked(before, after, height),
        before.pagination.pending is Some || before.pagination.next_cursor is None,
    ensures
        after.requests@ == before.requests@,
        after.pagination == before.pagination,
{
}

/// An empty list asks for rows as long as there are any, with the cursor where the last page ended.
pub proof fn lemma_empty_view_asks_for_rows(before: PickerState, after: PickerState, height: int)
    requires
        minimum_rows_asked(before, after, height),
        height > 0,
        before.filtered_rows@.len() == 0,
        before.pagination.pending is None,
        before.pagination.next_cursor is Some,
    ensures
        after.requests@.len() == before.requests@.len() + 1,
        after.requests@.last() matches PickerLoadRequest::Page(request) && request.cursor
            == before.pagination.next_cursor,
        after.pagination.pending is Some,
{
    let trigger = match before.search_state {
        SearchState::Active { token } => LoadTrigger::Search { token },
        SearchState::Idle => LoadTrigger::Scroll,
    };
    lemma_next_page_follows_the_last(before, after, trigger);
}

/// The listing that the app server is asked for is the one that the picker wants: behind the
/// request's cursor, in its order, of its archive status, provider and directory, 25 sessions at a
/// time.
pub proof fn lemma_listing_is_what_was_requested(
    action: LoaderAction,
    request: PickerLoadRequest,
    include_non_interactive: bool,
    show_dashboard_status: bool,
)
    requires
        is_step_on(
            action,
            LoaderInput::Request(Some(request)),
            include_non_interactive,
            show_dashboard_status,
        ),
        request is Page,
    ensures
        action matches LoaderAction::Call(
            LoaderCall::ListThreads { params, request_token, search_token },
        ) && {
            let page = request->Page_0;
            &&& request_token == page.request_token
            &&& search_token == page.search_token
            &&& page.cursor is None ==> params.cursor is None
            &&& page.cursor matches Some(PageCursor::AppServer(text)) ==> params.cursor == Some(
                text,
            )
            &&& params.limit == Some(25u32)
            &&& params.sort_key == Some(page.sort_key)
            &&& params.archived == Some(page.status == SessionStatus::Archived)
            &&& page.provider_filter is Any ==> params.model_providers is None
            &&& page.provider_filter matches ProviderFilter::MatchDefault(provider)
                ==> params.model_providers is Some && params.model_providers->0@.len() == 1
                && params.model_providers->0@[0] == provider
            &&& page.cwd_filter is None ==> params.cwd is None
            &&& page.cwd_filter matches Some(cwd) ==> (params.cwd matches Some(
                ThreadListCwdFilter::One(text),
            ) && text@ == cwd.text@)
            &&& params.use_state_db_only == (page.mode == PageLoadMode::StateDbOnly)
            &&& params.search_term is None
            &&& params.sort_direction is None
            &&& params.parent_thread_id is None
            &&& params.ancestor_thread_id is None
            &&& params.section_id is None
            &&& params.source_kinds is Some
            &&& params.source_kinds->0@.contains(ThreadSourceKind::Cli)
            &&& params.source_kinds->0@.contains(ThreadSourceKind::VsCode)
            &&& params.source_kinds->0@.contains(ThreadSourceKind::Exec)
                == include_non_interactive
            &&& params.source_kinds->0@.contains(ThreadSourceKind::AppServer)
                == include_non_interactive
        },
{
    let kinds = action->Call_0->params.source_kinds->0@;
    assert(kinds[0] == ThreadSourceKind::Cli);
    assert(kinds[1] == ThreadSourceKind::VsCode);
    if include_non_interactive {
        assert(kinds[2] == ThreadSourceKind::Exec);
        assert(kinds[3] == ThreadSourceKind::AppServer);
    }
}

/// Other requests reach the app server for the thread, or the directory, that they are about.
pub proof fn lemma_calls_are_about_their_threads(
    action: LoaderAction,
    request: PickerLoadRequest,
    include_non_interactive: bool,
    show_dashboard_status: bool,
)
    requires
        is_step_on(
            action,
            LoaderInput::Request(Some(request)),
            include_non_interactive,
            show_dashboard_status,
        ),
    ensures
        action is Call,
        request matches PickerLoadRequest::Preview { thread_id: wanted } ==> (
        action->Call_0 matches LoaderCall::ReadPreview { thread_id } && thread_id == wanted),
        request matches PickerLoadRequest::Transcript { thread_id: wanted, cancellation: number }
            ==> (action->Call_0 matches LoaderCall::ReadTranscript { thread_id, cancellation }
            && thread_id == wanted && cancellation == number),
        request matches PickerLoadRequest::CancelTranscript { cancellation: number } ==> (
        action->Call_0 matches LoaderCall::CallOff { cancellation } && cancellation == number),
        request matches PickerLoadRequest::Archive { thread_id: wanted } ==> (
        action->Call_0 matches LoaderCall::Archive { thread_id, thread_text, .. } && thread_id
            == wanted && thread_text@ == crate::ids::uuid_text(wanted.bits)),
        request matches PickerLoadRequest::Unarchive { thread_id: wanted } ==> (
        action->Call_0 matches LoaderCall::Unarchive { thread_id, thread_text, .. } && thread_id
            == wanted && thread_text@ == crate::ids::uuid_text(wanted.bits)),
        request matches PickerLoadRequest::DashboardComposerInventory { cwd: wanted } ==> (
        action->Call_0 matches LoaderCall::ReadInventory { cwd } && cwd == wanted),
{
}

/// From one page to the next: where a page was taken in and the next one is asked for, the app
/// server is asked for what follows the cursor that came with the page.
pub proof fn lemma_pages_follow_one_another(
    before: PickerState,
    taken: PickerState,
    asked: PickerState,
    page: PickerPage,
    trigger: LoadTrigger,
    action: LoaderAction,
    include_non_interactive: bool,
    show_dashboard_status: bool,
)
    requires
        before.pagination.pending is None,
        page_ingested(before, taken, page),
        next_page_asked(taken, asked, trigger),
        is_step_on(
            action,
            LoaderInput::Request(Some(asked.requests@.last())),
            include_non_interactive,
            show_dashboard_status,
        ),
        page.next_cursor is Some,
    ensures
        asked.requests@.len() == taken.requests@.len() + 1,
        page.next_cursor matches Some(PageCursor::AppServer(text)) && (
        action matches LoaderAction::Call(LoaderCall::ListThreads { params, .. }) && params.cursor
            == Some(text)),
{
    lemma_next_page_follows_the_last(taken, asked, trigger);
    lemma_listing_is_what_was_requested(
        action,
        asked.requests@.last(),
        include_non_interactive,
        show_dashboard_status,
    );
}

/// Behind the page that reaches the oldest session nothing more is asked for.
pub proof fn lemma_last_page_ends_the_listing(
    before: PickerState,
    taken: PickerState,
    asked: PickerState,
    page: PickerPage,
    trigger: LoadTrigger,
)
    requires
        page_ingested(before, taken, page),
        next_page_asked(taken, asked, trigger),
        page.next_cursor is None,
    ensures
        asked.requests@ == taken.requests@,
{
}

proof fn lemma_first_rows(rows: Seq<Row>, seen: Seq<crate::row::SeenRowKey>, count: nat, at: int)
    requires
        count <= rows.len(),
        0 <= at < count,
        is_first(seen, rows, at),
    ensures
        first_rows(seen, rows, count).contains(rows[at]),
    decreases count,
{
    let before = first_rows(seen, rows, (count - 1) as nat);
    let all = first_rows(seen, rows, count);
    if at < count - 1 {
        lemma_first_rows(rows, seen, (count - 1) as nat, at);
        let i = choose|i: int| 0 <= i < before.len() && before[i] == rows[at];
        assert(all[i] == rows[at]);
    } else {
        assert(all[before.len() as int] == rows[at]);
    }
}

proof fn lemma_first_rows_are_of_page(
    rows: Seq<Row>,
    seen: Seq<crate::row::SeenRowKey>,
    count: nat,
    row: Row,
)
    requires
        count <= rows.len(),
        first_rows(seen, rows, count).contains(row),
    ensures
        rows.contains(row),
        row.key() is Some ==> !key_in(seen, row.key()->0),
    decreases count,
{
    if count > 0 {
        let before = first_rows(seen, rows, (count - 1) as nat);
        let all = first_rows(seen, rows, count);
        let i = choose|i: int| 0 <= i < all.len() && all[i] == row;
        if i < before.len() {
            assert(before[i] == row);
            lemma_first_rows_are_of_page(rows, seen, (count - 1) as nat, row);
        } else {
            assert(rows[count - 1] == row);
        }
    }
}

/// A page is taken in behind what is loaded, which stays as it is. Each of its sessions that was
/// not seen before is added, unless an earlier row of the page is of the same session; nothing else
/// is. Where the next page begins is what the page says.
pub proof fn lemma_page_is_added(
    before: PickerState,
    after: PickerState,
    page: PickerPage,
    at: int,
    row: Row,
)
    requires
        page_ingested(before, after, page),
        0 <= at < page.rows@.len(),
    ensures
        before.all_rows@.len() <= after.all_rows@.len(),
        after.all_rows@.take(before.all_rows@.len() as int) == before.all_rows@,
        page.rows@[at].path is None && page.rows@[at].thread_id is None
            ==> after.all_rows@.contains(page.rows@[at]),
        page.rows@[at].key() is Some && !key_in(before.seen_rows@, page.rows@[at].key()->0) && (
        forall|i: int| 0 <= i < at ==> !same_session(#[trigger] page.rows@[i], page.rows@[at]))
            ==> after.all_rows@.contains(page.rows@[at]),
        after.all_rows@.contains(row) ==> before.all_rows@.contains(row) || (page.rows@.contains(
            row,
        ) && (row.key() is Some ==> !key_in(before.seen_rows@, row.key()->0))),
        after.pagination.next_cursor == page.next_cursor,
        after.pagination.reached_scan_cap == (before.pagination.reached_scan_cap
            || page.reached_scan_cap),
        after.requests@ == before.requests@,
{
    let merged = choose|merged: PickerState|
        #![trigger refiltered(merged, after)]
        page_merged(before, merged, page) && refiltered(merged, after);
    let all = before.all_rows@;
    let seen = before.seen_rows@;
    let rows = page.rows@;
    lemma_page_keeps_order(all, seen, rows, rows.len());
    let added = first_rows(seen, rows, rows.len());
    assert(after.all_rows@ == all + added);
    assert(after.all_rows@.take(all.len() as int) =~= all);
    if is_first(seen, rows, at) {
        lemma_first_rows(rows, seen, rows.len(), at);
        let i = choose|i: int| 0 <= i < added.len() && added[i] == rows[at];
        assert(after.all_rows@[all.len() + i] == rows[at]);
    }
    if after.all_rows@.contains(row) {
        let i = choose|i: int| 0 <= i < after.all_rows@.len() && after.all_rows@[i] == row;
        if i < all.len() {
            assert(all[i] == row);
        } else {
            assert(added[i - all.len()] == row);
            lemma_first_rows_are_of_page(rows, seen, rows.len(), row);
        }
    }
}

/// What the app server lists becomes rows one for one: each thread that can be shown has a row with
/// its path, name, branch, directory and times, in the order of the listing. The dashboard leaves
/// out threads that another one started. The next page begins where the listing says.
pub proof fn lemma_listing_becomes_a_page(
    action: LoaderAction,
    request_token: usize,
    search_token: Option<usize>,
    response: ThreadListResponse,
    include_non_interactive: bool,
    show_dashboard_status: bool,
    at: int,
)
    requires
        is_step_on(
            action,
            LoaderInput::Reply(
                LoaderReply::Threads { request_token, search_token, response: Ok(response) },
            ),
            include_non_interactive,
            show_dashboard_status,
        ),
        0 <= at < response.data@.len(),
    ensures
        action matches LoaderAction::Tell(
            BackgroundEvent::Page { request_token: told, search_token: searched, page: Ok(page) },
        ) && {
            let thread = response.data@[at];
            &&& told == request_token
            &&& searched == search_token
            &&& page.num_scanned_files == response.data@.len()
            &&& !page.reached_scan_cap
            &&& response.next_cursor is None ==> page.next_cursor is None
            &&& response.next_cursor matches Some(text) ==> page.next_cursor == Some(
                PageCursor::AppServer(text),
            )
            &&& page.rows@.len() <= response.data@.len()
            &&& crate::ids::uuid_bits(thread.id@) is Some && (!show_dashboard_status
                || thread.parent_thread_id is None) ==> exists|i: int|
                0 <= i < page.rows@.len() && is_row_for(
                    #[trigger] page.rows@[i],
                    thread,
                    show_dashboard_status,
                )
        },
{
    let page = action->Tell_0->page->Ok_0;
    let shown = threads_with_rows(response.data@, show_dashboard_status);
    let keeps = |thread: Thread| crate::loader::has_row(thread, show_dashboard_status);
    let thread = response.data@[at];
    response.data@.lemma_filter_len(keeps);
    assert(shown == response.data@.filter(keeps));
    if keeps(thread) {
        response.data@.lemma_filter_contains(keeps, at);
        let i = choose|i: int| 0 <= i < shown.len() && shown[i] == thread;
        assert(is_row_for(page.rows@[i], thread, show_dashboard_status));
    }
}

/// `row` shows `thread`: it has the thread's identifier, path, name, branch and directory, the
/// seconds of its times, its preview where that says anything and, on the dashboard, a status.
pub open spec fn is_row_for(row: Row, thread: Thread, show_dashboard_status: bool) -> bool {
    &&& row.thread_id is Some
    &&& crate::ids::uuid_bits(thread.id@) == Some(row.thread_id->0.bits)
    &&& row.path == thread.path
    &&& row.thread_name == thread.name
    &&& row.git_branch == thread.git_branch
    &&& row.cwd == Some(thread.cwd)
    &&& row.created_at is Some ==> row.created_at->0.seconds() == thread.created_at
    &&& row.updated_at is Some ==> row.updated_at->0.seconds() == thread.updated_at
    &&& -8_334_601_228_800 <= thread.created_at <= 8_210_266_876_799 ==> row.created_at is Some
    &&& -8_334_601_228_800 <= thread.updated_at <= 8_210_266_876_799 ==> row.updated_at is Some
    &&& show_dashboard_status ==> row.dashboard_status == Some(
        crate::dashboard::status_of(thread.status),
    )
    &&& !show_dashboard_status ==> row.dashboard_status is None
    &&& thread.preview@.len() > 0 && !crate::text::is_space(thread.preview@[0])
        && !crate::text::is_space(thread.preview@.last()) ==> row.preview@ == thread.preview@
    &&& thread.preview@.len() == 0 ==> row.preview@ == "(no message yet)"@
}

/// Every row of a page is that of a thread that was listed, and rows stand in the order of their
/// threads.
pub proof fn lemma_page_keeps_listing_order(
    action: LoaderAction,
    request_token: usize,
    search_token: Option<usize>,
    response: ThreadListResponse,
    include_non_interactive: bool,
    show_dashboard_status: bool,
) -> (places: Seq<int>)
    requires
        is_step_on(
            action,
            LoaderInput::Reply(
                LoaderReply::Threads { request_token, search_token, response: Ok(response) },
            ),
            include_non_interactive,
            show_dashboard_status,
        ),
    ensures
        action matches LoaderAction::Tell(BackgroundEvent::Page { page: Ok(page), .. }) && {
            &&& places.len() == page.rows@.len()
            &&& forall|i: int|
                0 <= i < places.len() ==> 0 <= #[trigger] places[i] < response.data@.len()
                    && is_row_for(page.rows@[i], response.data@[places[i]], show_dashboard_status)
                    && (show_dashboard_status ==> response.data@[places[i]].parent_thread_id
                    is None)
            &&& forall|i: int, j: int| 0 <= i < j < places.len() ==> places[i] < places[j]
        },
{
    let keeps = |thread: Thread| crate::loader::has_row(thread, show_dashboard_status);
    let shown = threads_with_rows(response.data@, show_dashboard_status);
    let page = action->Tell_0->page->Ok_0;
    let places = lemma_thread_places(response.data@, keeps);
    assert(shown == response.data@.filter(keeps));
    assert forall|i: int| 0 <= i < places.len() implies 0 <= #[trigger] places[i]
        < response.data@.len() && is_row_for(
        page.rows@[i],
        response.data@[places[i]],
        show_dashboard_status,
    ) && (show_dashboard_status ==> response.data@[places[i]].parent_thread_id is None) by {
        assert(page.rows@[i].thread_id is Some);
        assert(shown[i] == response.data@[places[i]]);
        assert(keeps(response.data@[places[i]]));
    }
    places
}

proof fn lemma_thread_places(threads: Seq<Thread>, kept: spec_fn(Thread) -> bool) -> (places:
    Seq<int>)
    ensures
        places.len() == threads.filter(kept).len(),
        forall|i: int|
            0 <= i < places.len() ==> 0 <= #[trigger] places[i] < threads.len()
                && threads[places[i]] == threads.filter(kept)[i] && kept(threads[places[i]]),
        forall|i: int, j: int| 0 <= i < j < places.len() ==> places[i] < places[j],
    decreases threads.len(),
{
    reveal(Seq::filter);
    if threads.len() == 0 {
        Seq::empty()
    } else {
        let less = threads.drop_last();
        let places = lemma_thread_places(less, kept);
        if kept(threads.last()) {
            let more = places.push(threads.len() - 1);
            assert forall|i: int| 0 <= i < more.len() implies 0 <= #[trigger] more[i]
                < threads.len() && threads[more[i]] == threads.filter(kept)[i] && kept(
                threads[more[i]],
            ) by {
                if i < places.len() {
                    assert(more[i] == places[i]);
                }
            }
            assert forall|i: int, j: int| 0 <= i < j < more.len() implies more[i] < more[j] by {
                assert(more[i] == places[i]);
                if j < places.len() {
                    assert(more[j] == places[j]);
                }
            }
            more
        } else {
            places
        }
    }
}

/// A listing that failed is told as a failed page.
pub proof fn lemma_failed_listing_is_told(
    action: LoaderAction,
    request_token: usize,
    search_token: Option<usize>,
    error: String,
    include_non_interactive: bool,
    show_dashboard_status: bool,
)
    requires
        is_step_on(
            action,
            LoaderInput::Reply(
                LoaderReply::Threads { request_token, search_token, response: Err(error) },
            ),
            include_non_interactive,
            show_dashboard_status,
        ),
    ensures
        action == LoaderAction::Tell(
            BackgroundEvent::Page { request_token, search_token, page: Err(error) },
        ),
{
}

/// A new query that finds nothing among the loaded sessions is searched for further: the page behind
/// the last one is asked for in the name of the search. One that finds something, or has nothing
/// left to load, asks for nothing.
pub proof fn lemma_search_reads_on(found: PickerState, after: PickerState)
    requires
        search_begun(found, after),
        found.query@.len() > 0,
        found.pagination.pending is None,
    ensures
        found.filtered_rows@.len() == 0 && !found.pagination.reached_scan_cap
            && found.pagination.next_cursor is Some ==> {
            &&& after.requests@.len() == found.requests@.len() + 1
            &&& after.requests@.last() matches PickerLoadRequest::Page(request)
            &&& request.cursor == found.pagination.next_cursor
            &&& request.search_token is Some
            &&& after.search_state == (SearchState::Active { token: request.search_token->0 })
            &&& after.next_search_token != found.next_search_token
        },
        found.filtered_rows@.len() > 0 || found.pagination.reached_scan_cap
            || found.pagination.next_cursor is None ==> after.requests@ == found.requests@
            && after.search_state is Idle,
        after.filtered_rows == found.filtered_rows,
        after.query == found.query,
{
    if found.filtered_rows@.len() == 0 && !found.pagination.reached_scan_cap
        && found.pagination.next_cursor is Some {
        let token = found.next_search_token;
        lemma_next_page_follows_the_last(
            PickerState {
                next_search_token: crate::loading::token_after(token),
                search_state: SearchState::Active { token },
                ..found
            },
            after,
            LoadTrigger::Search { token },
        );
    }
}

/// A search goes on from page to page under its own token until something is found or nothing is
/// left to load.
pub proof fn lemma_search_goes_on(before: PickerState, after: PickerState, token: usize)
    requires
        search_continued(before, after),
        before.search_state == (SearchState::Active { token }),
        before.pagination.pending is None,
    ensures
        before.filtered_rows@.len() == 0 && !before.pagination.reached_scan_cap
            && before.pagination.next_cursor is Some ==> {
            &&& after.requests@.len() == before.requests@.len() + 1
            &&& after.requests@.last() matches PickerLoadRequest::Page(request)
            &&& request.cursor == before.pagination.next_cursor
            &&& request.search_token == Some(token)
            &&& after.search_state == before.search_state
        },
        before.filtered_rows@.len() > 0 || before.pagination.reached_scan_cap
            || before.pagination.next_cursor is None ==> after.requests@ == before.requests@
            && after.search_state is Idle,
{
    if before.filtered_rows@.len() == 0 && !before.pagination.reached_scan_cap
        && before.pagination.next_cursor is Some {
        lemma_next_page_follows_the_last(before, after, LoadTrigger::Search { token });
    }
}

/// A page that is waited for in the name of a search and brings nothing to show has the search go
/// on behind it; one that brings something ends the search.
pub proof fn lemma_searched_page_is_followed(
    before: PickerState,
    after: PickerState,
    request_token: usize,
    token: usize,
    page: PickerPage,
    outcome: Result<(), String>,
)
    requires
        page_handled(before, after, request_token, Some(token), Ok(page), outcome),
        before.pagination.pending is Some,
        before.pagination.pending->0.request_token == request_token,
        before.pagination.pending->0.search_token == Some(token),
        before.pagination.pending->0.mode is StoreDefault || page.rows@.len() > 0,
        before.search_state == (SearchState::Active { token }),
        before.pending_page_down_target is None,
    ensures
        outcome is Ok,
        after.filtered_rows@.len() == 0 && !before.pagination.reached_scan_cap
            && !page.reached_scan_cap && page.next_cursor is Some ==> {
            &&& after.search_state == before.search_state
            &&& after.requests@.last() matches PickerLoadRequest::Page(request)
            &&& request.cursor == page.next_cursor
            &&& request.search_token == Some(token)
        },
        after.filtered_rows@.len() > 0 || page.next_cursor is None ==> after.search_state is Idle
            && after.pagination.pending is None,
{
    let waited = PickerState {
        pagination: PaginationState { pending: None, ..before.pagination },
        ..before
    };
    let completed = either_token(before.pagination.pending->0.search_token, Some(token));
    let ingested = choose|ingested: PickerState|
        #![trigger page_ingested(waited, ingested, page)]
        page_ingested(waited, ingested, page) && page_followed(ingested, after, completed);
    let (informed, jumped) = choose|informed: PickerState, jumped: PickerState|
        #![trigger inventory_asked(ingested, informed), page_down_completed(informed, jumped)]
        inventory_asked(ingested, informed) && page_down_completed(informed, jumped) && if
            is_other_search(jumped, completed) {
            after == jumped
        } else {
            search_continued(jumped, after)
        };
    lemma_ingested_state(waited, ingested, page);
    lemma_inventory_keeps_search(ingested, informed);
    assert(jumped == informed);
    lemma_search_goes_on(jumped, after, token);
    lemma_search_keeps_list(jumped, after);
}

proof fn lemma_search_keeps_list(before: PickerState, after: PickerState)
    requires
        search_continued(before, after),
    ensures
        after.filtered_rows == before.filtered_rows,
        before.pagination.pending is None && after.search_state is Idle && before.search_state
            is Active ==> after.pagination == before.pagination,
{
}

proof fn lemma_ingested_state(before: PickerState, after: PickerState, page: PickerPage)
    requires
        page_ingested(before, after, page),
    ensures
        after.search_state == before.search_state,
        after.pending_page_down_target == before.pending_page_down_target,
        after.pagination.pending == before.pagination.pending,
        after.pagination.mode == before.pagination.mode,
        after.pagination.next_cursor == page.next_cursor,
        after.pagination.reached_scan_cap == (before.pagination.reached_scan_cap
            || page.reached_scan_cap),
{
}

proof fn lemma_inventory_keeps_search(before: PickerState, after: PickerState)
    requires
        inventory_asked(before, after),
    ensures
        after.search_state == before.search_state,
        after.pending_page_down_target == before.pending_page_down_target,
        after.pagination == before.pagination,
        after.filtered_rows == before.filtered_rows,
        after.all_rows == before.all_rows,
{
}

/// A page that comes for the first listing of the database and holds nothing, or failed, has the
/// listing of the store asked for in its place, from its beginning.
pub proof fn lemma_empty_database_falls_back_to_store(
    before: PickerState,
    after: PickerState,
    request_token: usize,
    search_token: Option<usize>,
    page: Result<PickerPage, String>,
    outcome: Result<(), String>,
)
    requires
        page_handled(before, after, request_token, search_token, page, outcome),
        before.pagination.pending is Some,
        before.pagination.pending->0.request_token == request_token,
        before.pagination.pending->0.mode is StateDbOnly,
        before.all_rows@.len() == 0,
        page is Err || page->Ok_0.rows@.len() == 0,
    ensures
        outcome is Ok,
        after.requests@.len() == before.requests@.len() + 1,
        after.requests@.last() matches PickerLoadRequest::Page(request) && request.cursor is None
            && request.mode is StoreDefault && after.pagination.pending is Some
            && request.request_token == after.pagination.pending->0.request_token && (
        before.pagination.pending->0.search_token is Some ==> request.search_token
            == before.pagination.pending->0.search_token) && (
        before.pagination.pending->0.search_token is None ==> request.search_token
            == search_token),
        after.all_rows == before.all_rows,
        after.query == before.query,
{
}

/// A page that failed is told as it failed, and leaves what is loaded as it is; the wait is over.
pub proof fn lemma_failed_page_is_told(
    before: PickerState,
    after: PickerState,
    request_token: usize,
    search_token: Option<usize>,
    error: String,
    outcome: Result<(), String>,
)
    requires
        page_handled(before, after, request_token, search_token, Err(error), outcome),
        before.pagination.pending is Some,
        before.pagination.pending->0.request_token == request_token,
        before.pagination.pending->0.mode is StoreDefault || before.all_rows@.len() > 0,
    ensures
        outcome == Err::<(), String>(error),
        after.pagination.pending is None,
        after.pagination.next_cursor == before.pagination.next_cursor,
        after.all_rows == before.all_rows,
        after.filtered_rows == before.filtered_rows,
        after.requests == before.requests,
{
}

/// A page adds what was scanned for it to what was, and the threads that it shows as failed to those
/// that are known to have.
pub proof fn lemma_page_is_counted(
    before: PickerState,
    after: PickerState,
    page: PickerPage,
    thread_id: crate::ids::ThreadId,
)
    requires
        page_ingested(before, after, page),
        before.pagination.num_scanned_files + page.num_scanned_files <= usize::MAX,
    ensures
        after.pagination.num_scanned_files == before.pagination.num_scanned_files
            + page.num_scanned_files,
        after.dashboard_system_errors@.contains(thread_id.bits) <==> (
        before.dashboard_system_errors@.contains(thread_id.bits)
            || page.dashboard_system_errors@.contains(thread_id)),
        after.query == before.query,
        after.filter_mode == before.filter_mode,
        after.sort_key == before.sort_key,
{
    let ids = page.dashboard_system_errors@;
    if ids.contains(thread_id) {
        let i = choose|i: int| 0 <= i < ids.len() && ids[i] == thread_id;
        assert(ids[i].bits == thread_id.bits);
    }
    if crate::search::id_bits(ids).contains(thread_id.bits) {
        let i = choose|i: int| 0 <= i < ids.len() && (#[trigger] ids[i]).bits == thread_id.bits;
        assert(ids[i] == thread_id);
    }
}

/// While a page is loading the footer tells the progress of the moment at which it was asked for.
pub proof fn lemma_progress_is_kept_while_loading(
    before: PickerState,
    after: PickerState,
    trigger: LoadTrigger,
    rows: u16,
    height: int,
)
    requires
        next_page_asked(before, after, trigger),
        before.pagination.pending is None,
        before.pagination.next_cursor is Some,
        before.view_rows == Some(rows as usize),
    ensures
        crate::progress::footer_progress(after, height) == crate::progress::scroll_progress(
            before,
            rows as int,
        ),
{
}

/// A page that was asked for by another search than the one that goes on neither ends that nor asks
/// for more in its name.
pub proof fn lemma_page_of_another_search_leaves_the_search(
    before: PickerState,
    after: PickerState,
    request_token: usize,
    page: PickerPage,
    token: usize,
    outcome: Result<(), String>,
)
    requires
        page_handled(before, after, request_token, None, Ok(page), outcome),
        before.pagination.pending is Some,
        before.pagination.pending->0.request_token == request_token,
        before.pagination.pending->0.search_token is Some,
        before.pagination.pending->0.mode is StoreDefault,
        before.search_state == (SearchState::Active { token }),
        before.pagination.pending->0.search_token != Some(token),
        before.pending_page_down_target is None,
    ensures
        after.search_state == before.search_state,
        after.pagination.pending is None,
        after.pagination.next_cursor == page.next_cursor,
{
    let waited = PickerState {
        pagination: PaginationState { pending: None, ..before.pagination },
        ..before
    };
    let completed = either_token(before.pagination.pending->0.search_token, None);
    let ingested = choose|ingested: PickerState|
        #![trigger page_ingested(waited, ingested, page)]
        page_ingested(waited, ingested, page) && page_followed(ingested, after, completed);
    let (informed, jumped) = choose|informed: PickerState, jumped: PickerState|
        #![trigger inventory_asked(ingested, informed), page_down_completed(informed, jumped)]
        inventory_asked(ingested, informed) && page_down_completed(informed, jumped) && if
            is_other_search(jumped, completed) {
            after == jumped
        } else {
            search_continued(jumped, after)
        };
    lemma_ingested_state(waited, ingested, page);
    lemma_inventory_keeps_search(ingested, informed);
}

/// A page that comes as it is waited for is taken in: the wait is over and the rows that it brings
/// are loaded behind those that were.
pub proof fn lemma_awaited_page_is_taken_in(
    before: PickerState,
    after: PickerState,
    request_token: usize,
    search_token: Option<usize>,
    page: PickerPage,
    outcome: Result<Option<crate::session::SessionSelection>, String>,
    row: Row,
)
    requires
        crate::events::background_handled(
            before,
            after,
            BackgroundEvent::Page { request_token, search_token, page: Ok(page) },
            outcome,
        ),
        before.pagination.pending is Some,
        before.pagination.pending->0.request_token == request_token,
        before.pagination.pending->0.mode is StoreDefault || before.all_rows@.len() > 0
            || page.rows@.len() > 0,
    ensures
        outcome == Ok::<Option<crate::session::SessionSelection>, String>(None),
        after.pagination.next_cursor == page.next_cursor,
        before.all_rows@.len() <= after.all_rows@.len(),
        after.all_rows@.take(before.all_rows@.len() as int) == before.all_rows@,
        page.rows@.len() == 1 && page.rows@[0] == row && row.key() is Some && !key_in(
            before.seen_rows@,
            row.key()->0,
        ) ==> after.all_rows@ == before.all_rows@.push(row),
{
    assert(page_handled(before, after, request_token, search_token, Ok(page), Ok(())));
    let waited = PickerState {
        pagination: PaginationState { pending: None, ..before.pagination },
        ..before
    };
    let completed = either_token(before.pagination.pending->0.search_token, search_token);
    let ingested = choose|ingested: PickerState|
        #![trigger page_ingested(waited, ingested, page)]
        page_ingested(waited, ingested, page) && page_followed(ingested, after, completed);
    lemma_page_keeps_order(waited.all_rows@, waited.seen_rows@, page.rows@, page.rows@.len());
    let added = first_rows(waited.seen_rows@, page.rows@, page.rows@.len());
    lemma_followed_page_keeps_rows(ingested, after, completed);
    assert(after.all_rows@ == before.all_rows@ + added);
    assert(after.all_rows@.take(before.all_rows@.len() as int) =~= before.all_rows@);
    if page.rows@.len() == 1 {
        reveal_with_fuel(first_rows, 2);
        assert(before.all_rows@ + Seq::empty().push(row) =~= before.all_rows@.push(row));
    }
}

proof fn lemma_followed_page_keeps_rows(
    ingested: PickerState,
    after: PickerState,
    completed: Option<usize>,
)
    requires
        page_followed(ingested, after, completed),
    ensures
        after.all_rows == ingested.all_rows,
        after.pagination.next_cursor == ingested.pagination.next_cursor,
{
    let (informed, jumped) = choose|informed: PickerState, jumped: PickerState|
        #![trigger inventory_asked(ingested, informed), page_down_completed(informed, jumped)]
        inventory_asked(ingested, informed) && page_down_completed(informed, jumped) && if
            is_other_search(jumped, completed) {
            after == jumped
        } else {
            search_continued(jumped, after)
        };
    lemma_inventory_keeps_search(ingested, informed);
    lemma_jump_keeps_rows(informed, jumped);
    if !is_other_search(jumped, completed) {
        lemma_continued_search_keeps_rows(jumped, after);
    }
}

proof fn lemma_jump_keeps_rows(before: PickerState, after: PickerState)
    requires
        page_down_completed(before, after),
    ensures
        after.all_rows == before.all_rows,
        after.pagination.next_cursor == before.pagination.next_cursor,
{
}

proof fn lemma_continued_search_keeps_rows(before: PickerState, after: PickerState)
    requires
        search_continued(before, after),
    ensures
        after.all_rows == before.all_rows,
        after.pagination.next_cursor == before.pagination.next_cursor,
{
}

/// The dashboard is told of each thread that it lists and that was stopped by a system error, and of
/// no other; another picker is told of none.
pub proof fn lemma_failed_threads_are_told(
    action: LoaderAction,
    request_token: usize,
    search_token: Option<usize>,
    response: ThreadListResponse,
    include_non_interactive: bool,
    show_dashboard_status: bool,
    at: int,
)
    requires
        is_step_on(
            action,
            LoaderInput::Reply(
                LoaderReply::Threads { request_token, search_token, response: Ok(response) },
            ),
            include_non_interactive,
            show_dashboard_status,
        ),
        0 <= at < response.data@.len(),
    ensures
        action matches LoaderAction::Tell(BackgroundEvent::Page { page: Ok(page), .. }) && {
            let thread = response.data@[at];
            &&& !show_dashboard_status ==> page.dashboard_system_errors@.len() == 0
            &&& show_dashboard_status && thread.parent_thread_id is None && thread.status
                is SystemError && crate::ids::uuid_bits(thread.id@) is Some
                ==> page.dashboard_system_errors@.contains(
                crate::ids::ThreadId { bits: crate::ids::uuid_bits(thread.id@)->0 },
            )
        },
{
    let page = action->Tell_0->page->Ok_0;
    let threads = response.data@;
    let broken = |thread: Thread| crate::loader::is_broken(thread, show_dashboard_status);
    let some = threads.filter(broken);
    let told = page.dashboard_system_errors@;
    assert(told =~= some.map_values(
        |thread: Thread| crate::ids::thread_id_of(thread.id@)->0,
    ));
    if !show_dashboard_status && some.len() > 0 {
        threads.lemma_filter_pred(broken, 0);
    }
    if broken(threads[at]) {
        threads.lemma_filter_contains(broken, at);
        let i = choose|i: int| 0 <= i < some.len() && some[i] == threads[at];
        assert(told[i] == crate::ids::thread_id_of(threads[at].id@)->0);
    }
}

/// Rows are asked for to fill the view exactly where what is loaded is lower than it: in the name of
/// the search that goes on, if one does.
pub proof fn lemma_view_is_filled(before: PickerState, after: PickerState, height: int)
    requires
        minimum_rows_asked(before, after, height),
        before.filtered_rows@.len() > 0,
        before.pagination.pending is None,
        before.pagination.next_cursor is Some,
        height > 0,
        crate::scroll::height_between(before, 0, before.filtered_rows@.len() - 1) <= usize::MAX,
    ensures
        crate::scroll::height_between(before, 0, before.filtered_rows@.len() - 1)
            >= crate::scroll::content_rows_of(before, height) ==> after == before,
        crate::scroll::height_between(before, 0, before.filtered_rows@.len() - 1)
            < crate::scroll::content_rows_of(before, height) ==> {
            &&& after.requests@.len() == before.requests@.len() + 1
            &&& after.requests@.last() matches PickerLoadRequest::Page(request)
            &&& request.cursor == before.pagination.next_cursor
            &&& before.search_state is Idle ==> request.search_token is None
            &&& before.search_state matches SearchState::Active { token } ==> request.search_token
                == Some(token)
        },
{
    let trigger = match before.search_state {
        SearchState::Active { token } => LoadTrigger::Search { token },
        SearchState::Idle => LoadTrigger::Scroll,
    };
    if crate::scroll::height_between(before, 0, before.filtered_rows@.len() - 1)
        < crate::scroll::content_rows_of(before, height) {
        lemma_next_page_follows_the_last(before, after, trigger);
    }
}

} // verus!
