//! What the list promises: which sessions stand in it, and in which order.

use vstd::prelude::*;
use crate::dashboard::{DashboardGroupMode, DashboardStatus};
use crate::distinct_rows::same_session;
use crate::filter::{
    arranged, by_path, by_thread, first_of, is_listing, is_shown, lemma_first_from, needs_fallback,
    passes_filter, refiltered, selected_key,
};
use crate::laws::{lemma_filtering_is_current, lemma_list_is_what_was_asked_for};
use crate::order::{lemma_order_text, order_text};
use crate::paths::{
    components, lemma_order_components, lemma_order_optional_path, order_components, path_matches,
    pieces, SessionPath,
};
use crate::picker::PickerState;
use crate::row::{row_has_text, Row};
use crate::sort::{
    lemma_rows_sorted, order_rows, project_of, project_recency, recency_around, rows_sorted,
};
use crate::text::{first_index, lemma_first_index, lowercase_of, occurs_at, occurs_in};

verus! {

/// The seconds of a session's last activity: those of its last update or, where it has none, of
/// its start; zero where neither is known.
pub proof fn lemma_recency_is_last_activity(row: Row)
    ensures
        row.updated_at is Some ==> row.recency() == row.updated_at->0.seconds(),
        row.updated_at is None && row.created_at is Some ==> row.recency()
            == row.created_at->0.seconds(),
        row.updated_at is None && row.created_at is None ==> row.recency() == 0,
{
}

proof fn lemma_project_recency(rows: Seq<Row>, project: Seq<Seq<char>>)
    ensures
        forall|j: int|
            0 <= j < rows.len() && (#[trigger] rows[j]).cwd is Some && components(
                rows[j].cwd->0.text@,
            ) == project ==> project_recency(rows, project) is Some && rows[j].recency()
                <= project_recency(rows, project)->0,
        project_recency(rows, project) is Some ==> exists|j: int|
            0 <= j < rows.len() && (#[trigger] rows[j]).cwd is Some && components(
                rows[j].cwd->0.text@,
            ) == project && rows[j].recency() == project_recency(rows, project)->0,
    decreases rows.len(),
{
    if rows.len() > 0 {
        let less = rows.drop_last();
        lemma_project_recency(less, project);
        assert forall|j: int|
            0 <= j < rows.len() && (#[trigger] rows[j]).cwd is Some && components(
                rows[j].cwd->0.text@,
            ) == project implies project_recency(rows, project) is Some && rows[j].recency()
            <= project_recency(rows, project)->0 by {
            if j < less.len() {
                assert(less[j] == rows[j]);
            }
        }
        if project_recency(rows, project) is Some {
            let last = rows.last();
            if last.cwd is Some && project_of(last) == project && last.recency()
                == project_recency(rows, project)->0 {
                assert(rows[rows.len() - 1] == last);
            } else {
                let j = choose|j: int|
                    0 <= j < less.len() && (#[trigger] less[j]).cwd is Some && components(
                        less[j].cwd->0.text@,
                    ) == project && less[j].recency() == project_recency(less, project)->0;
                assert(rows[j] == less[j]);
            }
        }
    }
}

/// A project is as recent as the latest of its sessions: no session in the same directory is
/// later, and one is as late.
pub proof fn lemma_project_is_as_recent_as_its_latest_session(rows: Seq<Row>, i: int)
    requires
        0 <= i < rows.len(),
        rows[i].cwd is Some,
    ensures
        forall|j: int|
            0 <= j < rows.len() && (#[trigger] rows[j]).cwd is Some && components(
                rows[j].cwd->0.text@,
            ) == components(rows[i].cwd->0.text@) ==> rows[j].recency() <= recency_around(
                rows,
                rows[i],
            ),
        exists|j: int|
            0 <= j < rows.len() && (#[trigger] rows[j]).cwd is Some && components(
                rows[j].cwd->0.text@,
            ) == components(rows[i].cwd->0.text@) && rows[j].recency() == recency_around(
                rows,
                rows[i],
            ),
{
    lemma_project_recency(rows, components(rows[i].cwd->0.text@));
    assert(rows[i].cwd is Some);
}

/// Where a row of `rows` stands in the sorted rows, and the other way round.
proof fn lemma_sorted_place(mode: DashboardGroupMode, rows: Seq<Row>, row: Row)
    ensures
        rows_sorted(mode, rows).contains(row) == rows.contains(row),
        rows_sorted(mode, rows).len() == rows.len(),
{
    broadcast use vstd::seq_lib::group_to_multiset_ensures;

    lemma_rows_sorted(mode, rows, row);
    assert(rows.to_multiset().count(row) > 0 <==> rows.contains(row));
    assert(rows_sorted(mode, rows).to_multiset().count(row) > 0 <==> rows_sorted(
        mode,
        rows,
    ).contains(row));
}

/// Sorting by project puts the session with the latest activity first: of all sessions that have a
/// directory, the first in the sorted list is at least as recent as every other.
pub proof fn lemma_latest_session_leads(rows: Seq<Row>, first: int, other: int)
    requires
        0 <= first < rows.len(),
        0 <= other < rows.len(),
        rows_sorted(DashboardGroupMode::Project, rows)[first].cwd is Some,
        rows_sorted(DashboardGroupMode::Project, rows)[other].cwd is Some,
        forall|i: int|
            0 <= i < first ==> (#[trigger] rows_sorted(
                DashboardGroupMode::Project,
                rows,
            )[i]).cwd is None,
    ensures
        rows_sorted(DashboardGroupMode::Project, rows).len() == rows.len(),
        rows_sorted(DashboardGroupMode::Project, rows)[other].recency() <= rows_sorted(
            DashboardGroupMode::Project,
            rows,
        )[first].recency(),
{
    let mode = DashboardGroupMode::Project;
    let sorted = rows_sorted(mode, rows);
    lemma_rows_sorted(mode, rows, sorted[first]);
    lemma_sorted_place(mode, rows, sorted[first]);
    lemma_sorted_place(mode, rows, sorted[other]);
    assert(sorted.contains(sorted[first]));
    assert(sorted.contains(sorted[other]));
    let at = choose|at: int| 0 <= at < rows.len() && rows[at] == sorted[first];
    let to = choose|to: int| 0 <= to < rows.len() && rows[to] == sorted[other];
    lemma_project_is_as_recent_as_its_latest_session(rows, at);
    lemma_project_is_as_recent_as_its_latest_session(rows, to);
    let latest = choose|j: int|
        0 <= j < rows.len() && (#[trigger] rows[j]).cwd is Some && components(
            rows[j].cwd->0.text@,
        ) == components(rows[at].cwd->0.text@) && rows[j].recency() == recency_around(
            rows,
            rows[at],
        );
    lemma_sorted_place(mode, rows, rows[latest]);
    assert(rows.contains(rows[latest]));
    let place = choose|place: int| 0 <= place < sorted.len() && sorted[place] == rows[latest];
    assert(first <= place);
    if first < place {
        assert(order_rows(mode, rows, sorted[first], sorted[place]) <= 0);
        lemma_order_components(
            components(sorted[first].cwd->0.text@),
            components(sorted[place].cwd->0.text@),
            components(sorted[place].cwd->0.text@),
        );
    }
    assert(sorted[first].recency() == recency_around(rows, rows[at]));
    assert(first <= other);
    if first < other {
        assert(order_rows(mode, rows, sorted[first], sorted[other]) <= 0);
        assert(recency_around(rows, sorted[other]) <= recency_around(rows, sorted[first]));
    }
    assert(rows[to].recency() <= recency_around(rows, rows[to]));
}

/// Sorting by project keeps the sessions of a directory together: what stands between two of them
/// belongs to it too.
pub proof fn lemma_projects_stand_together(rows: Seq<Row>, i: int, j: int, k: int)
    requires
        0 <= i < j < k < rows.len(),
        rows_sorted(DashboardGroupMode::Project, rows)[i].cwd is Some,
        rows_sorted(DashboardGroupMode::Project, rows)[k].cwd is Some,
        components(rows_sorted(DashboardGroupMode::Project, rows)[i].cwd->0.text@) == components(
            rows_sorted(DashboardGroupMode::Project, rows)[k].cwd->0.text@,
        ),
    ensures
        rows_sorted(DashboardGroupMode::Project, rows)[j].cwd is Some,
        components(rows_sorted(DashboardGroupMode::Project, rows)[j].cwd->0.text@) == components(
            rows_sorted(DashboardGroupMode::Project, rows)[i].cwd->0.text@,
        ),
{
    let mode = DashboardGroupMode::Project;
    let sorted = rows_sorted(mode, rows);
    lemma_rows_sorted(mode, rows, sorted[i]);
    let (a, b, c) = (sorted[i], sorted[j], sorted[k]);
    assert(order_rows(mode, rows, a, b) <= 0);
    assert(order_rows(mode, rows, b, c) <= 0);
    assert(recency_around(rows, a) == recency_around(rows, c));
    lemma_order_optional_path(a.cwd, b.cwd, c.cwd);
    lemma_order_optional_path(b.cwd, c.cwd, a.cwd);
    lemma_order_components(
        components(a.cwd->0.text@),
        components(c.cwd->0.text@),
        components(a.cwd->0.text@),
    );
    if b.cwd is Some {
        lemma_order_components(
            components(a.cwd->0.text@),
            components(b.cwd->0.text@),
            components(c.cwd->0.text@),
        );
        lemma_order_components(
            components(b.cwd->0.text@),
            components(c.cwd->0.text@),
            components(a.cwd->0.text@),
        );
    }
}

/// Projects stand in the order of their latest sessions: a project that begins above another has a
/// session that is at least as recent as all of the other's.
pub proof fn lemma_projects_stand_by_latest_session(rows: Seq<Row>, i: int, j: int)
    requires
        0 <= i < j < rows.len(),
        rows_sorted(DashboardGroupMode::Project, rows)[i].cwd is Some,
        rows_sorted(DashboardGroupMode::Project, rows)[j].cwd is Some,
    ensures
        exists|k: int|
            0 <= k < rows.len() && (#[trigger] rows_sorted(
                DashboardGroupMode::Project,
                rows,
            )[k]).cwd is Some && components(
                rows_sorted(DashboardGroupMode::Project, rows)[k].cwd->0.text@,
            ) == components(rows_sorted(DashboardGroupMode::Project, rows)[i].cwd->0.text@)
                && rows_sorted(DashboardGroupMode::Project, rows)[j].recency() <= rows_sorted(
                DashboardGroupMode::Project,
                rows,
            )[k].recency(),
{
    let mode = DashboardGroupMode::Project;
    let sorted = rows_sorted(mode, rows);
    lemma_rows_sorted(mode, rows, sorted[i]);
    lemma_sorted_place(mode, rows, sorted[i]);
    lemma_sorted_place(mode, rows, sorted[j]);
    assert(sorted.contains(sorted[i]));
    assert(sorted.contains(sorted[j]));
    let at = choose|at: int| 0 <= at < rows.len() && rows[at] == sorted[i];
    let to = choose|to: int| 0 <= to < rows.len() && rows[to] == sorted[j];
    lemma_project_is_as_recent_as_its_latest_session(rows, at);
    lemma_project_is_as_recent_as_its_latest_session(rows, to);
    let latest = choose|l: int|
        0 <= l < rows.len() && (#[trigger] rows[l]).cwd is Some && components(
            rows[l].cwd->0.text@,
        ) == components(rows[at].cwd->0.text@) && rows[l].recency() == recency_around(
            rows,
            rows[at],
        );
    lemma_sorted_place(mode, rows, rows[latest]);
    assert(rows.contains(rows[latest]));
    let k = choose|k: int| 0 <= k < sorted.len() && sorted[k] == rows[latest];
    assert(order_rows(mode, rows, sorted[i], sorted[j]) <= 0);
    assert(rows[to].recency() <= recency_around(rows, rows[to]));
    assert(sorted[k].cwd is Some);
}

/// Within a directory the latest session comes first.
pub proof fn lemma_project_lists_latest_first(rows: Seq<Row>, i: int, j: int)
    requires
        0 <= i < j < rows.len(),
        rows_sorted(DashboardGroupMode::Project, rows)[i].cwd is Some,
        rows_sorted(DashboardGroupMode::Project, rows)[j].cwd is Some,
        components(rows_sorted(DashboardGroupMode::Project, rows)[i].cwd->0.text@) == components(
            rows_sorted(DashboardGroupMode::Project, rows)[j].cwd->0.text@,
        ),
    ensures
        rows_sorted(DashboardGroupMode::Project, rows)[j].recency() <= rows_sorted(
            DashboardGroupMode::Project,
            rows,
        )[i].recency(),
{
    let mode = DashboardGroupMode::Project;
    let sorted = rows_sorted(mode, rows);
    lemma_rows_sorted(mode, rows, sorted[i]);
    assert(order_rows(mode, rows, sorted[i], sorted[j]) <= 0);
    lemma_order_components(
        components(sorted[i].cwd->0.text@),
        components(sorted[j].cwd->0.text@),
        components(sorted[i].cwd->0.text@),
    );
}

/// Sorting by status puts what needs attention first: input that is waited for, then work that goes
/// on, then idle sessions, then those that are done or of which nothing is known. Of one status the
/// latest session comes first.
pub proof fn lemma_attention_comes_first(rows: Seq<Row>, i: int, j: int)
    requires
        0 <= i < j < rows.len(),
    ensures
        ({
            let above = rows_sorted(DashboardGroupMode::Status, rows)[i];
            let below = rows_sorted(DashboardGroupMode::Status, rows)[j];
            &&& below.dashboard_status == Some(DashboardStatus::NeedsInput)
                ==> above.dashboard_status == Some(DashboardStatus::NeedsInput)
            &&& below.dashboard_status == Some(DashboardStatus::Working)
                ==> above.dashboard_status == Some(DashboardStatus::NeedsInput)
                || above.dashboard_status == Some(DashboardStatus::Working)
            &&& below.dashboard_status == Some(DashboardStatus::Idle)
                ==> above.dashboard_status is Some && !(above.dashboard_status->0 is Done)
            &&& above.dashboard_status == below.dashboard_status ==> below.recency()
                <= above.recency()
        }),
{
    let mode = DashboardGroupMode::Status;
    let sorted = rows_sorted(mode, rows);
    lemma_rows_sorted(mode, rows, sorted[i]);
    assert(order_rows(mode, rows, sorted[i], sorted[j]) <= 0);
}

/// What the dashboard lists by project after filtering: the latest session of all with a directory
/// leads, and every directory's sessions stand together.
pub proof fn lemma_dashboard_by_project(before: PickerState, after: PickerState, i: int, j: int)
    requires
        refiltered(before, after),
        before.launch_context is AgentsDashboard,
        before.dashboard_group_mode is Project,
        0 <= i < j < after.filtered_rows@.len(),
        after.filtered_rows@[i].cwd is Some,
        after.filtered_rows@[j].cwd is Some,
    ensures
        (forall|k: int| 0 <= k < i ==> (#[trigger] after.filtered_rows@[k]).cwd is None)
            ==> after.filtered_rows@[j].recency() <= after.filtered_rows@[i].recency(),
        components(after.filtered_rows@[i].cwd->0.text@) == components(
            after.filtered_rows@[j].cwd->0.text@,
        ) ==> after.filtered_rows@[j].recency() <= after.filtered_rows@[i].recency() && forall|
            k: int,
        |
            i < k < j ==> (#[trigger] after.filtered_rows@[k]).cwd is Some && components(
                after.filtered_rows@[k].cwd->0.text@,
            ) == components(after.filtered_rows@[i].cwd->0.text@),
{
    let list = choose|list: Seq<Row>| #[trigger]
        is_listing(before, list) && after.filtered_rows@ == arranged(before, list);
    lemma_rows_sorted(before.dashboard_group_mode, list, list[0]);
    if forall|k: int| 0 <= k < i ==> (#[trigger] after.filtered_rows@[k]).cwd is None {
        lemma_latest_session_leads(list, i, j);
    }
    if components(after.filtered_rows@[i].cwd->0.text@) == components(
        after.filtered_rows@[j].cwd->0.text@,
    ) {
        lemma_project_lists_latest_first(list, i, j);
        assert forall|k: int| i < k < j implies (#[trigger] after.filtered_rows@[k]).cwd is Some
            && components(after.filtered_rows@[k].cwd->0.text@) == components(
            after.filtered_rows@[i].cwd->0.text@,
        ) by {
            lemma_projects_stand_together(list, i, k, j);
        }
    }
}

/// What the dashboard lists by status after filtering: what needs attention stands first.
pub proof fn lemma_dashboard_by_status(before: PickerState, after: PickerState, i: int, j: int)
    requires
        refiltered(before, after),
        before.launch_context is AgentsDashboard,
        before.dashboard_group_mode is Status,
        0 <= i < j < after.filtered_rows@.len(),
    ensures
        after.filtered_rows@[j].dashboard_status == Some(DashboardStatus::NeedsInput)
            ==> after.filtered_rows@[i].dashboard_status == Some(DashboardStatus::NeedsInput),
        after.filtered_rows@[j].dashboard_status == Some(DashboardStatus::Working) ==> (
        after.filtered_rows@[i].dashboard_status == Some(DashboardStatus::NeedsInput)
            || after.filtered_rows@[i].dashboard_status == Some(DashboardStatus::Working)),
        after.filtered_rows@[j].dashboard_status == Some(DashboardStatus::Idle)
            ==> after.filtered_rows@[i].dashboard_status is Some && !(
        after.filtered_rows@[i].dashboard_status->0 is Done),
        after.filtered_rows@[j].dashboard_status == after.filtered_rows@[i].dashboard_status
            ==> after.filtered_rows@[j].recency() <= after.filtered_rows@[i].recency(),
{
    let list = choose|list: Seq<Row>| #[trigger]
        is_listing(before, list) && after.filtered_rows@ == arranged(before, list);
    lemma_rows_sorted(before.dashboard_group_mode, list, list[0]);
    lemma_attention_comes_first(list, i, j);
}

/// Everything that is loaded and to be shown is listed, and a listed session is loaded and to be
/// shown.
pub proof fn lemma_listed(before: PickerState, after: PickerState, row: Row)
    requires
        refiltered(before, after),
    ensures
        before.all_rows@.contains(row) && is_shown(before)(row) ==> after.filtered_rows@.contains(
            row,
        ),
        after.filtered_rows@.contains(row) && (row.path is Some || row.thread_id is Some)
            ==> before.all_rows@.contains(row) && is_shown(before)(row),
        after.filtered_rows@.contains(row) && !before.is_dashboard() ==> before.all_rows@.contains(
            row,
        ) && is_shown(before)(row),
{
    lemma_filtering_is_current(before, after);
    lemma_list_is_what_was_asked_for(after, row);
    assert(is_shown(before) =~= is_shown(after));
}

/// With the directory filter on, a session of the directory passes, one elsewhere does not, and one
/// without a directory does not. Directories are the same where their normalized forms are or,
/// where one of these is not known, where the paths themselves are. Without the filter, and without
/// a directory to filter by, every session passes.
pub proof fn lemma_filter_keeps_the_directory(state: PickerState, row: Row)
    ensures
        state.filter_mode is All ==> passes_filter(state, row),
        state.local_filter_cwd is None ==> passes_filter(state, row),
        state.filter_mode is Cwd && state.local_filter_cwd is Some && row.cwd is None
            ==> !passes_filter(state, row),
        state.filter_mode is Cwd && state.local_filter_cwd is Some && row.cwd is Some ==> {
            let own = row.cwd->0;
            let wanted = state.local_filter_cwd->0;
            &&& own.text@ == wanted.text@ && own.canonical == wanted.canonical ==> passes_filter(
                state,
                row,
            )
            &&& own.canonical is Some && wanted.canonical is Some && own.canonical->0@
                == wanted.canonical->0@ ==> passes_filter(state, row)
            &&& own.canonical is Some && wanted.canonical is Some && components(
                own.canonical->0@,
            ) != components(wanted.canonical->0@) ==> !passes_filter(state, row)
            &&& (own.canonical is None || wanted.canonical is None) && components(own.text@)
                == components(wanted.text@) ==> passes_filter(state, row)
            &&& (own.canonical is None || wanted.canonical is None) && components(own.text@)
                != components(wanted.text@) ==> !passes_filter(state, row)
        },
{
}

/// With the directory filter on and nothing searched for, a loaded session of that directory is
/// listed, and a listed session is of that directory. The filter never adds a session that is not
/// loaded.
pub proof fn lemma_list_holds_the_directory(before: PickerState, after: PickerState, row: Row)
    requires
        refiltered(before, after),
        before.filter_mode is Cwd,
        before.local_filter_cwd is Some,
        row.path is Some || row.thread_id is Some,
    ensures
        before.query@.len() == 0 && before.all_rows@.contains(row) && row.cwd is Some
            && row.cwd->0.text@ == before.local_filter_cwd->0.text@ && row.cwd->0.canonical
            == before.local_filter_cwd->0.canonical ==> after.filtered_rows@.contains(row),
        after.filtered_rows@.contains(row) ==> before.all_rows@.contains(row) && row.cwd is Some,
        after.filtered_rows@.contains(row) && (row.cwd->0.canonical is None
            || before.local_filter_cwd->0.canonical is None) ==> components(row.cwd->0.text@)
            == components(before.local_filter_cwd->0.text@),
        after.filtered_rows@.contains(row) && row.cwd->0.canonical is Some
            && before.local_filter_cwd->0.canonical is Some ==> components(
            row.cwd->0.canonical->0@,
        ) == components(before.local_filter_cwd->0.canonical->0@),
{
    lemma_listed(before, after, row);
    lemma_filter_keeps_the_directory(before, row);
}

/// With no directory filter and nothing searched for, everything that is loaded is listed; outside
/// the dashboard it is the whole list, in the order in which it came.
pub proof fn lemma_unfiltered_list_is_whole(before: PickerState, after: PickerState, row: Row)
    requires
        refiltered(before, after),
        before.filter_mode is All || before.local_filter_cwd is None,
        before.query@.len() == 0,
    ensures
        before.all_rows@.contains(row) ==> after.filtered_rows@.contains(row),
        !(before.launch_context is AgentsDashboard) ==> after.filtered_rows@ == before.all_rows@,
{
    lemma_listed(before, after, row);
    lemma_filter_all(before.all_rows@, is_shown(before));
}

proof fn lemma_filter_all(rows: Seq<Row>, kept: spec_fn(Row) -> bool)
    requires
        forall|i: int| 0 <= i < rows.len() ==> kept(#[trigger] rows[i]),
    ensures
        rows.filter(kept) == rows,
    decreases rows.len(),
{
    reveal(Seq::filter);
    if rows.len() > 0 {
        assert forall|i: int| 0 <= i < rows.drop_last().len() implies kept(
            #[trigger] rows.drop_last()[i],
        ) by {
            assert(kept(rows[i]));
        }
        lemma_filter_all(rows.drop_last(), kept);
        assert(kept(rows[rows.len() - 1]));
        assert(rows.drop_last().push(rows.last()) =~= rows);
    }
    assert(rows.filter(kept) =~= rows);
}

/// A session is found by what the list shows of it (its name or, without one, its preview), and by
/// its preview, its identifier, its branch and its directory; it is found by nothing else. Letter
/// case does not matter: everything is compared in lower case.
pub proof fn lemma_session_is_found_by_its_texts(row: Row, query: Seq<char>)
    ensures
        occurs_in(lowercase_of(row.title()), query) ==> row_has_text(row, query),
        occurs_in(lowercase_of(row.preview@), query) ==> row_has_text(row, query),
        row.thread_name is Some && occurs_in(lowercase_of(row.thread_name->0@), query)
            ==> row_has_text(row, query),
        row.thread_id is Some && occurs_in(
            lowercase_of(crate::ids::uuid_text(row.thread_id->0.bits)),
            query,
        ) ==> row_has_text(row, query),
        row.git_branch is Some && occurs_in(lowercase_of(row.git_branch->0@), query)
            ==> row_has_text(row, query),
        row.cwd is Some && occurs_in(lowercase_of(row.cwd->0.text@), query) ==> row_has_text(
            row,
            query,
        ),
        !occurs_in(lowercase_of(row.preview@), query) && (row.thread_name is None || !occurs_in(
            lowercase_of(row.thread_name->0@),
            query,
        )) && (row.thread_id is None || !occurs_in(
            lowercase_of(crate::ids::uuid_text(row.thread_id->0.bits)),
            query,
        )) && (row.git_branch is None || !occurs_in(lowercase_of(row.git_branch->0@), query)) && (
        row.cwd is None || !occurs_in(lowercase_of(row.cwd->0.text@), query)) ==> !row_has_text(
            row,
            query,
        ),
{
}

/// A text stands in another exactly where characters before it and behind it make it the other.
pub proof fn lemma_text_stands_in_text(text: Seq<char>, needle: Seq<char>)
    ensures
        occurs_in(text, needle) <==> exists|front: Seq<char>, back: Seq<char>|
            text == #[trigger] (front + needle + back),
        occurs_in(text, text),
        occurs_in(text, Seq::empty()),
{
    if occurs_in(text, needle) {
        let at = choose|at: int| occurs_at(text, needle, at);
        let front = text.take(at);
        let back = text.skip(at + needle.len());
        assert(text =~= front + needle + back);
    }
    if exists|front: Seq<char>, back: Seq<char>| text == #[trigger] (front + needle + back) {
        let (front, back) = choose|front: Seq<char>, back: Seq<char>|
            text == #[trigger] (front + needle + back);
        assert(text.subrange(front.len() as int, front.len() as int + needle.len()) =~= needle);
        assert(occurs_at(text, needle, front.len() as int));
    }
    assert(text.subrange(0, 0int + text.len()) =~= text);
    assert(occurs_at(text, text, 0));
    assert(text.subrange(0, 0) =~= Seq::<char>::empty());
    assert(occurs_at(text, Seq::empty(), 0));
}

/// A longer query finds no more: what holds it also holds each text that stands in it.
pub proof fn lemma_longer_query_narrows(row: Row, query: Seq<char>, part: Seq<char>)
    requires
        occurs_in(query, part),
        row_has_text(row, query),
    ensures
        row_has_text(row, part),
{
    assert forall|text: Seq<char>| #[trigger] occurs_in(text, query) implies occurs_in(
        text,
        part,
    ) by {
        let at = choose|at: int| occurs_at(text, query, at);
        let inner = choose|inner: int| occurs_at(query, part, inner);
        assert(text.subrange(at + inner, at + inner + part.len()) =~= query.subrange(
            inner,
            inner + part.len(),
        ));
        assert(occurs_at(text, part, at + inner));
    }
}

/// A search lists the loaded sessions whose title, identifier, branch or directory holds the query,
/// as far as the directory filter lets them pass; it lists no session that holds it nowhere.
pub proof fn lemma_search_lists_what_holds_the_query(
    before: PickerState,
    after: PickerState,
    row: Row,
)
    requires
        refiltered(before, after),
        before.query@.len() > 0,
        row.path is Some || row.thread_id is Some,
    ensures
        ({
            let query = lowercase_of(before.query@);
            let loaded = before.all_rows@.contains(row) && (before.filter_mode is All
                || before.local_filter_cwd is None || (row.cwd is Some && row.cwd->0.text@
                == before.local_filter_cwd->0.text@ && row.cwd->0.canonical
                == before.local_filter_cwd->0.canonical));
            &&& loaded && occurs_in(lowercase_of(row.title()), query)
                ==> after.filtered_rows@.contains(row)
            &&& loaded && occurs_in(lowercase_of(row.preview@), query)
                ==> after.filtered_rows@.contains(row)
            &&& loaded && row.thread_id is Some && occurs_in(
                lowercase_of(crate::ids::uuid_text(row.thread_id->0.bits)),
                query,
            ) ==> after.filtered_rows@.contains(row)
            &&& loaded && row.git_branch is Some && occurs_in(
                lowercase_of(row.git_branch->0@),
                query,
            ) ==> after.filtered_rows@.contains(row)
            &&& loaded && row.cwd is Some && occurs_in(lowercase_of(row.cwd->0.text@), query)
                ==> after.filtered_rows@.contains(row)
            &&& after.filtered_rows@.contains(row) ==> occurs_in(
                lowercase_of(row.preview@),
                query,
            ) || (row.thread_name is Some && occurs_in(lowercase_of(row.thread_name->0@), query))
                || (row.thread_id is Some && occurs_in(
                lowercase_of(crate::ids::uuid_text(row.thread_id->0.bits)),
                query,
            )) || (row.git_branch is Some && occurs_in(lowercase_of(row.git_branch->0@), query))
                || (row.cwd is Some && occurs_in(lowercase_of(row.cwd->0.text@), query))
        }),
{
    lemma_listed(before, after, row);
    lemma_filter_keeps_the_directory(before, row);
    lemma_session_is_found_by_its_texts(row, lowercase_of(before.query@));
}

/// Two queries that are the same in lower case find the same sessions.
pub proof fn lemma_search_ignores_case(a: PickerState, b: PickerState, row: Row)
    requires
        a.query@.len() > 0,
        b.query@.len() > 0,
        lowercase_of(a.query@) == lowercase_of(b.query@),
        a.filter_mode == b.filter_mode,
        a.local_filter_cwd == b.local_filter_cwd,
    ensures
        is_shown(a)(row) == is_shown(b)(row),
{
}

/// The list shows a session by its name or, where it has none, by how it began.
pub proof fn lemma_title_is_name_or_preview(row: Row)
    ensures
        row.thread_name is Some ==> row.title() == row.thread_name->0@,
        row.thread_name is None ==> row.title() == row.preview@,
{
}

/// Two rows are told apart by their paths where both have one, and by their threads where neither
/// has: other rows are never the same session.
pub proof fn lemma_sessions_are_told_apart(a: Row, b: Row)
    ensures
        a.path is Some && b.path is Some ==> (same_session(a, b) <==> components(a.path->0.text@)
            == components(b.path->0.text@)),
        a.path is None && b.path is None && a.thread_id is Some && b.thread_id is Some ==> (
        same_session(a, b) <==> a.thread_id->0.bits == b.thread_id->0.bits),
        a.path is Some && b.path is None ==> !same_session(a, b),
        a.path is None && b.path is Some ==> !same_session(a, b),
        a.path is None && a.thread_id is None ==> !same_session(a, b),
        b.path is None && b.thread_id is None ==> !same_session(a, b),
{
}

proof fn lemma_filter_places(rows: Seq<Row>, kept: spec_fn(Row) -> bool) -> (places: Seq<int>)
    ensures
        places.len() == rows.filter(kept).len(),
        forall|i: int|
            0 <= i < places.len() ==> 0 <= #[trigger] places[i] < rows.len()
                && rows[places[i]] == rows.filter(kept)[i],
        forall|i: int, j: int| 0 <= i < j < places.len() ==> places[i] < places[j],
    decreases rows.len(),
{
    reveal(Seq::filter);
    if rows.len() == 0 {
        Seq::empty()
    } else {
        let less = rows.drop_last();
        let places = lemma_filter_places(less, kept);
        if kept(rows.last()) {
            let more = places.push(rows.len() - 1);
            assert forall|i: int| 0 <= i < more.len() implies 0 <= #[trigger] more[i] < rows.len()
                && rows[more[i]] == rows.filter(kept)[i] by {
                if i < places.len() {
                    assert(more[i] == places[i]);
                }
            }
            assert forall|i: int, j: int| 0 <= i < j < more.len() implies more[i] < more[j] by {
                assert(more[i] == places[i]);
                if j < places.len() {
                    assert(more[j] == places[j]);
                }
            }
            more
        } else {
            assert forall|i: int| 0 <= i < places.len() implies 0 <= #[trigger] places[i]
                < rows.len() && rows[places[i]] == rows.filter(kept)[i] by {}
            places
        }
    }
}

/// Outside the dashboard the list keeps the order in which the sessions were loaded: its rows stand
/// in the loaded rows one behind the other.
pub proof fn lemma_list_keeps_loading_order(before: PickerState, after: PickerState) -> (places:
    Seq<int>)
    requires
        refiltered(before, after),
        !(before.launch_context is AgentsDashboard),
    ensures
        places.len() == after.filtered_rows@.len(),
        forall|i: int|
            0 <= i < places.len() ==> 0 <= #[trigger] places[i] < before.all_rows@.len()
                && before.all_rows@[places[i]] == after.filtered_rows@[i],
        forall|i: int, j: int| 0 <= i < j < places.len() ==> places[i] < places[j],
{
    lemma_filter_places(before.all_rows@, is_shown(before))
}

/// A slash parts two components, and slashes side by side part no more than one; a component `.` is
/// dropped unless it opens a relative path. A name without a slash is one component.
pub proof fn lemma_path_is_its_components(name: Seq<char>, rest: Seq<char>, opening: bool)
    requires
        forall|i: int| 0 <= i < name.len() ==> name[i] != '/',
    ensures
        name.len() > 0 && (opening || name != seq!['.']) ==> pieces(name, opening) == seq![name]
            && pieces(name + seq!['/'] + rest, opening) == seq![name] + pieces(rest, false),
        pieces(seq!['/'] + rest, opening) == pieces(rest, false),
        pieces(seq!['.', '/'] + rest, false) == pieces(rest, false),
        components(seq!['/'] + rest) == seq![seq!['/']] + pieces(rest, false),
        name.len() > 0 ==> components(name + seq!['/'] + rest) == seq![name] + pieces(rest, false),
{
    let whole = name + seq!['/'] + rest;
    lemma_first_index(name, '/');
    lemma_first_index(whole, '/');
    assert(first_index(name, '/') == name.len());
    assert(name.take(name.len() as int) =~= name);
    assert(whole[name.len() as int] == '/');
    assert forall|i: int| 0 <= i < name.len() implies whole[i] != '/' by {
        assert(whole[i] == name[i]);
    }
    assert(first_index(whole, '/') == name.len());
    assert(whole.take(name.len() as int) =~= name);
    assert(whole.skip(name.len() as int + 1) =~= rest);
    let slashed = seq!['/'] + rest;
    lemma_first_index(slashed, '/');
    assert(slashed[0] == '/');
    assert(first_index(slashed, '/') == 0);
    assert(slashed.skip(1) =~= rest);
    assert(slashed.take(0).len() == 0);
    assert(pieces(slashed, opening) =~= pieces(rest, false));
    let dotted = seq!['.', '/'] + rest;
    lemma_first_index(dotted, '/');
    assert(dotted[0] == '.' && dotted[1] == '/');
    assert(first_index(dotted, '/') == 1);
    assert(dotted.skip(2) =~= rest);
    assert(dotted.take(1) =~= seq!['.']);
    assert(pieces(dotted, false) =~= pieces(rest, false));
    if name.len() > 0 {
        assert(whole[0] == name[0]);
    }
}

/// A text comes before another where it begins it, or where its character at the first place at
/// which they differ is the smaller.
pub proof fn lemma_texts_stand_by_first_difference(a: Seq<char>, b: Seq<char>, at: int)
    requires
        0 <= at <= a.len(),
        at <= b.len(),
        a.take(at) == b.take(at),
    ensures
        at == a.len() && at < b.len() ==> order_text(a, b) == -1,
        at < a.len() && at == b.len() ==> order_text(a, b) == 1,
        at < a.len() && at < b.len() && (a[at] as int) < (b[at] as int) ==> order_text(a, b) == -1,
        at < a.len() && at < b.len() && (a[at] as int) > (b[at] as int) ==> order_text(a, b) == 1,
        a == b ==> order_text(a, b) == 0,
    decreases at,
{
    lemma_order_text(a, a, a);
    if at > 0 {
        assert(a.take(at)[0] == a[0] && b.take(at)[0] == b[0]);
        assert(a.skip(1).take(at - 1) =~= a.take(at).skip(1));
        assert(b.skip(1).take(at - 1) =~= b.take(at).skip(1));
        lemma_texts_stand_by_first_difference(a.skip(1), b.skip(1), at - 1);
        if at < a.len() {
            assert(a.skip(1)[at - 1] == a[at]);
        }
        if at < b.len() {
            assert(b.skip(1)[at - 1] == b[at]);
        }
    }
}

/// Sessions of one group with the same time stand in the order of their identifiers' texts; those
/// without one come first.
pub proof fn lemma_same_times_stand_by_identifier(rows: Seq<Row>, i: int, j: int)
    requires
        0 <= i < j < rows.len(),
        rows_sorted(DashboardGroupMode::Status, rows)[i].dashboard_status == rows_sorted(
            DashboardGroupMode::Status,
            rows,
        )[j].dashboard_status,
        rows_sorted(DashboardGroupMode::Status, rows)[i].recency() == rows_sorted(
            DashboardGroupMode::Status,
            rows,
        )[j].recency(),
    ensures
        rows_sorted(DashboardGroupMode::Status, rows)[j].thread_id is None ==> rows_sorted(
            DashboardGroupMode::Status,
            rows,
        )[i].thread_id is None,
        rows_sorted(DashboardGroupMode::Status, rows)[i].thread_id is Some && rows_sorted(
            DashboardGroupMode::Status,
            rows,
        )[j].thread_id is Some ==> order_text(
            crate::ids::uuid_text(
                rows_sorted(DashboardGroupMode::Status, rows)[i].thread_id->0.bits,
            ),
            crate::ids::uuid_text(
                rows_sorted(DashboardGroupMode::Status, rows)[j].thread_id->0.bits,
            ),
        ) <= 0,
{
    let mode = DashboardGroupMode::Status;
    let sorted = rows_sorted(mode, rows);
    lemma_rows_sorted(mode, rows, sorted[i]);
    assert(order_rows(mode, rows, sorted[i], sorted[j]) <= 0);
}

/// Within a directory, sessions with the same time stand in the order of their identifiers' texts.
pub proof fn lemma_same_times_in_a_project_stand_by_identifier(rows: Seq<Row>, i: int, j: int)
    requires
        0 <= i < j < rows.len(),
        rows_sorted(DashboardGroupMode::Project, rows)[i].cwd is Some,
        rows_sorted(DashboardGroupMode::Project, rows)[i].cwd == rows_sorted(
            DashboardGroupMode::Project,
            rows,
        )[j].cwd,
        rows_sorted(DashboardGroupMode::Project, rows)[i].recency() == rows_sorted(
            DashboardGroupMode::Project,
            rows,
        )[j].recency(),
        rows_sorted(DashboardGroupMode::Project, rows)[i].thread_id is Some,
    ensures
        rows_sorted(DashboardGroupMode::Project, rows)[j].thread_id is Some,
        order_text(
            crate::ids::uuid_text(
                rows_sorted(DashboardGroupMode::Project, rows)[i].thread_id->0.bits,
            ),
            crate::ids::uuid_text(
                rows_sorted(DashboardGroupMode::Project, rows)[j].thread_id->0.bits,
            ),
        ) <= 0,
{
    let mode = DashboardGroupMode::Project;
    let sorted = rows_sorted(mode, rows);
    lemma_rows_sorted(mode, rows, sorted[i]);
    assert(order_rows(mode, rows, sorted[i], sorted[j]) <= 0);
    lemma_order_optional_path(sorted[i].cwd, sorted[j].cwd, sorted[i].cwd);
}

/// Paths stand component by component: one that begins another comes before it, and at the first
/// component at which they differ the smaller text comes first, behind the root, `.` and `..`.
pub proof fn lemma_paths_stand_by_first_difference(
    a: Seq<Seq<char>>,
    b: Seq<Seq<char>>,
    at: int,
)
    requires
        0 <= at <= a.len(),
        at <= b.len(),
        a.take(at) == b.take(at),
    ensures
        at == a.len() && at < b.len() ==> order_components(a, b) == -1,
        at < a.len() && at < b.len() && a[at] != b[at] && a[at] == seq!['/'] ==> order_components(
            a,
            b,
        ) == -1,
        at < a.len() && at < b.len() && a[at].len() > 2 && b[at].len() > 2 && a[at] != b[at]
            ==> order_components(a, b) == order_text(a[at], b[at]),
        at < a.len() && at < b.len() && a[at] == seq!['.', '.'] && b[at].len() > 2
            ==> order_components(a, b) == -1,
        a == b ==> order_components(a, b) == 0,
    decreases at,
{
    lemma_order_components(a, a, a);
    if at > 0 {
        assert(a.take(at)[0] == a[0] && b.take(at)[0] == b[0]);
        lemma_order_text(a[0], a[0], a[0]);
        assert(a.skip(1).take(at - 1) =~= a.take(at).skip(1));
        assert(b.skip(1).take(at - 1) =~= b.take(at).skip(1));
        lemma_paths_stand_by_first_difference(a.skip(1), b.skip(1), at - 1);
        if at < a.len() {
            assert(a.skip(1)[at - 1] == a[at]);
        }
        if at < b.len() {
            assert(b.skip(1)[at - 1] == b[at]);
        }
    } else if a.len() > 0 && b.len() > 0 {
        lemma_order_text(a[0], b[0], a[0]);
    }
}

/// Directories whose latest sessions are equally recent stand in the order of their paths, behind
/// the sessions without a directory that are as recent.
pub proof fn lemma_equally_recent_projects_stand_by_path(rows: Seq<Row>, i: int, j: int)
    requires
        0 <= i < j < rows.len(),
        rows_sorted(DashboardGroupMode::Project, rows)[i].cwd is Some,
        recency_around(rows, rows_sorted(DashboardGroupMode::Project, rows)[i]) == recency_around(
            rows,
            rows_sorted(DashboardGroupMode::Project, rows)[j],
        ),
    ensures
        rows_sorted(DashboardGroupMode::Project, rows)[j].cwd is Some,
        order_components(
            components(rows_sorted(DashboardGroupMode::Project, rows)[i].cwd->0.text@),
            components(rows_sorted(DashboardGroupMode::Project, rows)[j].cwd->0.text@),
        ) <= 0,
{
    let mode = DashboardGroupMode::Project;
    let sorted = rows_sorted(mode, rows);
    lemma_rows_sorted(mode, rows, sorted[i]);
    assert(order_rows(mode, rows, sorted[i], sorted[j]) <= 0);
}

/// The dashboard always lists the directory that it was opened in while nothing is searched for: a
/// row that starts a new agent stands for it where no listed session is of it. That row is of no
/// session. Elsewhere, and in a search, there is no such row.
pub proof fn lemma_dashboard_lists_its_own_directory(
    before: PickerState,
    after: PickerState,
    cwd: SessionPath,
    row: Row,
)
    requires
        refiltered(before, after),
        before.dashboard_fallback_cwd == Some(cwd),
    ensures
        before.launch_context is AgentsDashboard && before.query@.len() == 0 ==> exists|i: int|
            0 <= i < after.filtered_rows@.len() && (#[trigger] after.filtered_rows@[i]).cwd is Some
                && path_matches(after.filtered_rows@[i].cwd->0, cwd),
        after.filtered_rows@.contains(row) && !before.all_rows@.contains(row) ==> {
            &&& before.launch_context is AgentsDashboard
            &&& before.query@.len() == 0
            &&& row.thread_id is None
            &&& row.path is None
            &&& row.cwd == Some(cwd)
            &&& row.title() == "Start a new agent"@
        },
        after.filtered_rows@.contains(row) && !before.all_rows@.contains(row) ==> forall|
            other: Row,
        |
            #![trigger before.all_rows@.contains(other)]
            before.all_rows@.contains(other) && is_shown(before)(other) && other.cwd is Some
                ==> !path_matches(other.cwd->0, cwd),
{
    let list = choose|list: Seq<Row>| #[trigger]
        is_listing(before, list) && after.filtered_rows@ == arranged(before, list);
    let kept = before.all_rows@.filter(is_shown(before));
    let wanted = by_path(cwd);
    lemma_first_from(kept, wanted, 0);
    lemma_filtering_is_current(before, after);
    assert(is_shown(before) =~= is_shown(after));
    if before.is_dashboard() && before.query@.len() == 0 {
        let at = if needs_fallback(before) {
            list.len() - 1
        } else {
            first_of(kept, wanted)->0
        };
        let found = list[at];
        assert(found.cwd is Some && path_matches(found.cwd->0, cwd)) by {
            if needs_fallback(before) {
                lemma_path_matches_itself(cwd);
            } else {
                assert(wanted(kept[at]));
            }
        }
        lemma_sorted_place(before.dashboard_group_mode, list, found);
        assert(list.contains(found));
        let i = choose|i: int| 0 <= i < after.filtered_rows@.len() && after.filtered_rows@[i] == found;
        assert(after.filtered_rows@[i].cwd is Some);
    }
    lemma_list_is_what_was_asked_for(after, row);
    if after.filtered_rows@.contains(row) && !before.all_rows@.contains(row) {
        assert forall|other: Row|
            #![trigger before.all_rows@.contains(other)]
            before.all_rows@.contains(other) && is_shown(before)(other) && other.cwd
                is Some implies !path_matches(other.cwd->0, cwd) by {
            let k = choose|k: int| 0 <= k < before.all_rows@.len() && before.all_rows@[k] == other;
            before.all_rows@.lemma_filter_contains(is_shown(before), k);
            let m = choose|m: int| 0 <= m < kept.len() && kept[m] == other;
            assert(!wanted(kept[m]));
        }
    }
}

proof fn lemma_path_matches_itself(cwd: SessionPath)
    ensures
        path_matches(cwd, cwd),
{
}

/// A path matches itself, and matching goes both ways.
pub proof fn lemma_paths_match_both_ways(a: SessionPath, b: SessionPath)
    ensures
        path_matches(a, a),
        path_matches(a, b) == path_matches(b, a),
        a.text@ == b.text@ && a.canonical is None ==> path_matches(a, b),
{
}

/// Filtering changes what is listed and selected, and nothing of what is loaded, asked for or
/// searched.
pub proof fn lemma_filtering_changes_the_list_alone(before: PickerState, after: PickerState)
    requires
        refiltered(before, after),
    ensures
        after.all_rows == before.all_rows,
        after.seen_rows == before.seen_rows,
        after.query == before.query,
        after.filter_mode == before.filter_mode,
        after.local_filter_cwd == before.local_filter_cwd,
        after.filter_cwd == before.filter_cwd,
        after.pagination == before.pagination,
        after.requests == before.requests,
        after.search_state == before.search_state,
        after.sort_key == before.sort_key,
        after.status == before.status,
        after.dashboard_group_mode == before.dashboard_group_mode,
        after.inline_error == before.inline_error,
        after.expanded_thread_id == before.expanded_thread_id,
        after.frame_requested,
{
}

/// The selection stays within the list: in its place where nothing else decides, on the last row
/// where the list became shorter.
pub proof fn lemma_selection_stays_in_place(before: PickerState, after: PickerState)
    requires
        refiltered(before, after),
        before.selected >= before.filtered_rows@.len()
            || before.filtered_rows@[before.selected as int].path is None
            && before.filtered_rows@[before.selected as int].thread_id is None,
        before.dashboard_restore_thread_id is None,
        before.dashboard_restore_cwd is None,
    ensures
        before.selected < after.filtered_rows@.len() ==> after.selected == before.selected,
        before.selected >= after.filtered_rows@.len() && after.filtered_rows@.len() > 0
            ==> after.selected == after.filtered_rows@.len() - 1,
        after.filtered_rows@.len() == 0 ==> after.selected == 0,
{
    assert(after.filtered_rows@.len() == after.filtered_rows.len());
}

/// The directory to come back to is selected where the session to come back to is not listed and
/// none is selected yet; both are still looked for then.
pub proof fn lemma_directory_is_selected_again(
    before: PickerState,
    after: PickerState,
    cwd: SessionPath,
    row: Row,
)
    requires
        refiltered(before, after),
        before.dashboard_restore_cwd == Some(cwd),
        selected_key(before) is None,
        before.dashboard_restore_thread_id matches Some(thread_id) ==> forall|i: int|
            0 <= i < after.filtered_rows@.len() ==> (#[trigger] after.filtered_rows@[i]).thread_id
                != before.dashboard_restore_thread_id,
        after.filtered_rows@.contains(row),
        row.cwd is Some,
        path_matches(row.cwd->0, cwd),
    ensures
        after.selected < after.filtered_rows@.len(),
        after.filtered_rows@[after.selected as int].cwd is Some,
        path_matches(after.filtered_rows@[after.selected as int].cwd->0, cwd),
        after.dashboard_restore_thread_id == before.dashboard_restore_thread_id,
        after.dashboard_restore_cwd == before.dashboard_restore_cwd,
{
    let rows = after.filtered_rows@;
    lemma_first_from(rows, by_path(cwd), 0);
    if let Some(thread_id) = before.dashboard_restore_thread_id {
        lemma_first_from(rows, by_thread(thread_id), 0);
    }
    let i = choose|i: int| 0 <= i < rows.len() && rows[i] == row;
    assert(by_path(cwd)(rows[i]));
    assert(rows.len() == after.filtered_rows.len());
}

} // verus!
