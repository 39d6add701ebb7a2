//! The order of the dashboard's rows.

use vstd::prelude::*;
use crate::dashboard::{DashboardGroupMode, DashboardStatus};
use crate::ids::optional_id_text;
use crate::order::{
    chained, compare_int, compare_text, lemma_order_text, order_by, order_int, order_optional_text,
};
use crate::paths::{
    compare_optional_path, components, lemma_order_optional_path, order_optional_path,
    path_components,
};
use crate::row::Row;
use crate::text::texts_view;

verus! {

/// The components of a row's directory; none where it has no directory.
pub open spec fn project_of(row: Row) -> Seq<Seq<char>> {
    match row.cwd {
        Some(cwd) => components(cwd.text@),
        None => components(""@),
    }
}

/// The time of the last activity in a project, if one of `rows` belongs to it.
pub open spec fn project_recency(rows: Seq<Row>, project: Seq<Seq<char>>) -> Option<int>
    decreases rows.len(),
{
    if rows.len() == 0 {
        None
    } else {
        let before = project_recency(rows.drop_last(), project);
        let row = rows.last();
        if row.cwd is Some && project_of(row) == project {
            match before {
                Some(recency) => Some(
                    if row.recency() > recency {
                        row.recency()
                    } else {
                        recency
                    },
                ),
                None => Some(row.recency()),
            }
        } else {
            before
        }
    }
}

/// The time of the last activity in the project of `row`.
pub open spec fn recency_around(rows: Seq<Row>, row: Row) -> int {
    match project_recency(rows, project_of(row)) {
        Some(recency) => recency,
        None => 0,
    }
}

/// A row without a state counts as done.
pub open spec fn rank_of(row: Row) -> int {
    match row.dashboard_status {
        Some(status) => status.rank(),
        None => DashboardStatus::Done.rank(),
    }
}

/// By project: the project with the latest activity first, then by directory. By status: what
/// needs attention first.
pub open spec fn order_groups(mode: DashboardGroupMode, rows: Seq<Row>, a: Row, b: Row) -> int {
    match mode {
        DashboardGroupMode::Project => order_by(
            order_int(recency_around(rows, b), recency_around(rows, a)),
            order_optional_path(a.cwd, b.cwd),
        ),
        DashboardGroupMode::Status => order_int(rank_of(a), rank_of(b)),
    }
}

/// The order of two of `rows`: by group, then the latest first, then by identifier.
pub open spec fn order_rows(mode: DashboardGroupMode, rows: Seq<Row>, a: Row, b: Row) -> int {
    order_by(
        order_groups(mode, rows, a, b),
        order_by(
            order_int(b.recency(), a.recency()),
            order_optional_text(optional_id_text(a.thread_id), optional_id_text(b.thread_id)),
        ),
    )
}

pub proof fn lemma_order_rows(mode: DashboardGroupMode, rows: Seq<Row>, a: Row, b: Row, c: Row)
    ensures
        order_rows(mode, rows, a, a) == 0,
        order_rows(mode, rows, b, a) == -order_rows(mode, rows, a, b),
        chained(
            order_rows(mode, rows, a, b),
            order_rows(mode, rows, b, c),
            order_rows(mode, rows, a, c),
        ),
{
    lemma_order_optional_path(a.cwd, b.cwd, c.cwd);
    let id = |row: Row| optional_id_text(row.thread_id)->0;
    lemma_order_text(id(a), id(b), id(c));
    lemma_order_text(id(b), id(c), id(a));
    lemma_order_text(id(a), id(c), id(b));
}

/// `row` put into the sorted `sorted`, behind everything that does not order after it.
pub open spec fn row_inserted(
    mode: DashboardGroupMode,
    rows: Seq<Row>,
    sorted: Seq<Row>,
    row: Row,
) -> Seq<Row>
    decreases sorted.len(),
{
    if sorted.len() > 0 && order_rows(mode, rows, sorted.last(), row) > 0 {
        row_inserted(mode, rows, sorted.drop_last(), row).push(sorted.last())
    } else {
        sorted.push(row)
    }
}

/// The first `count` of `rows`, sorted among themselves.
pub open spec fn rows_sorted_to(mode: DashboardGroupMode, rows: Seq<Row>, count: nat) -> Seq<Row>
    decreases count,
{
    if count == 0 {
        Seq::empty()
    } else {
        row_inserted(
            mode,
            rows,
            rows_sorted_to(mode, rows, (count - 1) as nat),
            rows[count - 1],
        )
    }
}

/// `rows` in the order of the dashboard; rows that tie stay as they were.
pub open spec fn rows_sorted(mode: DashboardGroupMode, rows: Seq<Row>) -> Seq<Row> {
    rows_sorted_to(mode, rows, rows.len())
}

/// No row orders after one behind it.
pub open spec fn is_sorted(mode: DashboardGroupMode, rows: Seq<Row>, sorted: Seq<Row>) -> bool {
    forall|i: int, j: int|
        0 <= i < j < sorted.len() ==> order_rows(
            mode,
            rows,
            #[trigger] sorted[i],
            #[trigger] sorted[j],
        ) <= 0
}

/// The rows that tie with `row`, in their order.
pub open spec fn ties(
    mode: DashboardGroupMode,
    rows: Seq<Row>,
    list: Seq<Row>,
    row: Row,
) -> Seq<Row>
    decreases list.len(),
{
    if list.len() == 0 {
        Seq::empty()
    } else if order_rows(mode, rows, list.last(), row) == 0 {
        ties(mode, rows, list.drop_last(), row).push(list.last())
    } else {
        ties(mode, rows, list.drop_last(), row)
    }
}

proof fn lemma_row_inserted(mode: DashboardGroupMode, rows: Seq<Row>, sorted: Seq<Row>, row: Row)
    requires
        is_sorted(mode, rows, sorted),
    ensures
        is_sorted(mode, rows, row_inserted(mode, rows, sorted, row)),
        row_inserted(mode, rows, sorted, row).to_multiset() == sorted.push(row).to_multiset(),
        row_inserted(mode, rows, sorted, row).len() == sorted.len() + 1,
        forall|i: int|
            0 <= i <= sorted.len() ==> (#[trigger] row_inserted(mode, rows, sorted, row)[i] == row
                || exists|j: int|
                0 <= j < sorted.len() && row_inserted(mode, rows, sorted, row)[i]
                    == #[trigger] sorted[j]),
    decreases sorted.len(),
{
    broadcast use vstd::seq_lib::group_to_multiset_ensures;

    let result = row_inserted(mode, rows, sorted, row);
    if sorted.len() > 0 && order_rows(mode, rows, sorted.last(), row) > 0 {
        let front = sorted.drop_last();
        lemma_row_inserted(mode, rows, front, row);
        let inner = row_inserted(mode, rows, front, row);
        assert(result =~= inner.push(sorted.last()));
        assert(sorted =~= front.push(sorted.last()));
        assert forall|i: int, j: int| 0 <= i < j < result.len() implies order_rows(
            mode,
            rows,
            #[trigger] result[i],
            #[trigger] result[j],
        ) <= 0 by {
            if j < inner.len() {
                assert(result[i] == inner[i] && result[j] == inner[j]);
            } else {
                assert(result[j] == sorted.last());
                lemma_order_rows(mode, rows, sorted.last(), row, row);
                assert(result[i] == inner[i]);
                if inner[i] != row {
                    let k = choose|k: int| 0 <= k < front.len() && inner[i] == #[trigger] front[k];
                    assert(front[k] == sorted[k]);
                    assert(order_rows(mode, rows, sorted[k], sorted[sorted.len() - 1]) <= 0);
                }
            }
        }
        assert forall|i: int| 0 <= i <= sorted.len() implies (#[trigger] result[i] == row
            || exists|j: int| 0 <= j < sorted.len() && result[i] == #[trigger] sorted[j]) by {
            if i < inner.len() {
                assert(result[i] == inner[i]);
                if inner[i] != row {
                    let k = choose|k: int| 0 <= k < front.len() && inner[i] == #[trigger] front[k];
                    assert(result[i] == sorted[k]);
                }
            } else {
                assert(result[i] == sorted[sorted.len() - 1]);
            }
        }
        assert(sorted.push(row).to_multiset() =~= result.to_multiset());
    } else {
        assert(result =~= sorted.push(row));
        assert forall|i: int, j: int| 0 <= i < j < result.len() implies order_rows(
            mode,
            rows,
            #[trigger] result[i],
            #[trigger] result[j],
        ) <= 0 by {
            if j < sorted.len() {
                assert(result[i] == sorted[i] && result[j] == sorted[j]);
            } else {
                let last = sorted[sorted.len() - 1];
                assert(result[i] == sorted[i]);
                if i < sorted.len() - 1 {
                    assert(order_rows(mode, rows, sorted[i], last) <= 0);
                    lemma_order_rows(mode, rows, sorted[i], last, row);
                }
            }
        }
        assert forall|i: int| 0 <= i <= sorted.len() implies (#[trigger] result[i] == row
            || exists|j: int| 0 <= j < sorted.len() && result[i] == #[trigger] sorted[j]) by {
            if i < sorted.len() {
                assert(result[i] == sorted[i]);
            }
        }
    }
}

proof fn lemma_ties_of_inserted(
    mode: DashboardGroupMode,
    rows: Seq<Row>,
    sorted: Seq<Row>,
    row: Row,
    with: Row,
)
    ensures
        ties(mode, rows, row_inserted(mode, rows, sorted, row), with) == ties(
            mode,
            rows,
            sorted.push(row),
            with,
        ),
    decreases sorted.len(),
{
    if sorted.len() > 0 && order_rows(mode, rows, sorted.last(), row) > 0 {
        let front = sorted.drop_last();
        let last = sorted.last();
        let inner = row_inserted(mode, rows, front, row);
        lemma_ties_of_inserted(mode, rows, front, row, with);
        assert(inner.push(last).drop_last() =~= inner);
        assert(front.push(row).drop_last() =~= front);
        assert(sorted.push(row).drop_last() =~= sorted);
        lemma_order_rows(mode, rows, last, with, row);
        lemma_order_rows(mode, rows, row, with, row);
        assert(sorted.push(row).last() == row);
        assert(inner.push(last).last() == last);
        assert(front.push(row).last() == row);
        let tied = ties(mode, rows, front, with);
        if order_rows(mode, rows, last, with) == 0 {
            assert(order_rows(mode, rows, row, with) != 0);
            assert(ties(mode, rows, sorted, with) == tied.push(last));
            assert(ties(mode, rows, inner, with) == tied);
        } else {
            assert(ties(mode, rows, sorted, with) == tied);
        }
    } else {
        assert(row_inserted(mode, rows, sorted, row) =~= sorted.push(row));
    }
}

proof fn lemma_rows_sorted_to(mode: DashboardGroupMode, rows: Seq<Row>, count: nat, with: Row)
    requires
        count <= rows.len(),
    ensures
        is_sorted(mode, rows, rows_sorted_to(mode, rows, count)),
        rows_sorted_to(mode, rows, count).len() == count,
        rows_sorted_to(mode, rows, count).to_multiset() == rows.take(count as int).to_multiset(),
        ties(mode, rows, rows_sorted_to(mode, rows, count), with) == ties(
            mode,
            rows,
            rows.take(count as int),
            with,
        ),
    decreases count,
{
    broadcast use vstd::seq_lib::group_to_multiset_ensures;

    if count == 0 {
        assert(rows.take(0) =~= Seq::<Row>::empty());
    } else {
        let less = (count - 1) as nat;
        let sorted = rows_sorted_to(mode, rows, less);
        let row = rows[count - 1];
        lemma_rows_sorted_to(mode, rows, less, with);
        lemma_row_inserted(mode, rows, sorted, row);
        lemma_ties_of_inserted(mode, rows, sorted, row, with);
        assert(rows.take(count as int) =~= rows.take(less as int).push(row));
        assert(sorted.push(row).drop_last() =~= sorted);
        assert(rows.take(less as int).push(row).drop_last() =~= rows.take(less as int));
    }
}

/// Sorting keeps the rows and puts each before those that order after it; of rows that tie, the
/// one that stood first stays first.
pub proof fn lemma_rows_sorted(mode: DashboardGroupMode, rows: Seq<Row>, with: Row)
    ensures
        rows_sorted(mode, rows).len() == rows.len(),
        rows_sorted(mode, rows).to_multiset() == rows.to_multiset(),
        is_sorted(mode, rows, rows_sorted(mode, rows)),
        ties(mode, rows, rows_sorted(mode, rows), with) == ties(mode, rows, rows, with),
{
    lemma_rows_sorted_to(mode, rows, rows.len(), with);
    assert(rows.take(rows.len() as int) =~= rows);
}

/// The components of each row's directory.
fn projects_of(rows: &Vec<Row>) -> (r: Vec<Vec<String>>)
    ensures
        r@.len() == rows@.len(),
        forall|i: int| 0 <= i < rows@.len() ==> texts_view(#[trigger] r@[i]@) == project_of(rows@[i]),
{
    let mut r: Vec<Vec<String>> = Vec::new();
    let mut i: usize = 0;
    while i < rows.len()
        invariant
            i <= rows.len(),
            r@.len() == i,
            forall|j: int| 0 <= j < i ==> texts_view(#[trigger] r@[j]@) == project_of(rows@[j]),
        decreases rows.len() - i,
    {
        let parts = match &rows[i].cwd {
            Some(cwd) => path_components(cwd.text.as_str()),
            None => path_components(""),
        };
        r.push(parts);
        i += 1;
    }
    r
}

fn same_texts(a: &Vec<String>, b: &Vec<String>) -> (r: bool)
    ensures
        r == (texts_view(a@) == texts_view(b@)),
{
    if a.len() != b.len() {
        assert(texts_view(a@).len() != texts_view(b@).len());
        return false;
    }
    let mut i: usize = 0;
    while i < a.len()
        invariant
            i <= a.len(),
            a.len() == b.len(),
            forall|j: int| 0 <= j < i ==> #[trigger] a@[j]@ == b@[j]@,
        decreases a.len() - i,
    {
        if a[i] != b[i] {
            assert(texts_view(a@)[i as int] != texts_view(b@)[i as int]);
            return false;
        }
        i += 1;
    }
    proof {
        assert(texts_view(a@) =~= texts_view(b@));
    }
    true
}

/// The time of the last activity in the project of row `at`.
fn recency_around_row(rows: &Vec<Row>, projects: &Vec<Vec<String>>, at: usize) -> (r: i64)
    requires
        at < rows@.len(),
        projects@.len() == rows@.len(),
        forall|i: int|
            0 <= i < rows@.len() ==> texts_view(#[trigger] projects@[i]@) == project_of(rows@[i]),
    ensures
        r == recency_around(rows@, rows@[at as int]),
{
    let mut found: Option<i64> = None;
    let ghost project = project_of(rows@[at as int]);
    let mut i: usize = 0;
    while i < rows.len()
        invariant
            i <= rows.len(),
            at < rows@.len(),
            projects@.len() == rows@.len(),
            project == project_of(rows@[at as int]),
            forall|j: int|
                0 <= j < rows@.len() ==> texts_view(#[trigger] projects@[j]@) == project_of(
                    rows@[j],
                ),
            match found {
                Some(recency) => project_recency(rows@.take(i as int), project) == Some(
                    recency as int,
                ),
                None => project_recency(rows@.take(i as int), project) is None,
            },
        decreases rows.len() - i,
    {
        proof {
            let part = rows@.take(i + 1);
            assert(part.drop_last() =~= rows@.take(i as int));
            assert(part.last() == rows@[i as int]);
            assert(texts_view(projects@[at as int]@) == project);
            assert(texts_view(projects@[i as int]@) == project_of(rows@[i as int]));
        }
        if rows[i].cwd.is_some() && same_texts(&projects[i], &projects[at]) {
            let recency: i64 = rows[i].recency_timestamp();
            match found {
                Some(before) => {
                    if recency > before {
                        found = Some(recency);
                    }
                },
                None => {
                    found = Some(recency);
                },
            }
        }
        i += 1;
    }
    proof {
        assert(rows@.take(rows@.len() as int) =~= rows@);
    }
    match found {
        Some(recency) => recency,
        None => 0,
    }
}

/// A row with the time of the last activity in its project.
struct Placed {
    row: Row,
    project: i64,
}

fn place_of(row: &Row) -> (r: i64)
    ensures
        r == rank_of(*row),
{
    match row.dashboard_status {
        Some(status) => status.place(),
        None => DashboardStatus::Done.place(),
    }
}

fn compare_ids(a: &Row, b: &Row) -> (r: i8)
    ensures
        r == order_optional_text(optional_id_text(a.thread_id), optional_id_text(b.thread_id)),
{
    match (a.thread_id, b.thread_id) {
        (None, None) => 0,
        (None, Some(_)) => -1,
        (Some(_), None) => 1,
        (Some(left), Some(right)) => compare_text(left.text().as_str(), right.text().as_str()),
    }
}

fn compare_placed(
    mode: DashboardGroupMode,
    a: &Placed,
    b: &Placed,
    Ghost(rows): Ghost<Seq<Row>>,
) -> (r: i8)
    requires
        a.project == recency_around(rows, a.row),
        b.project == recency_around(rows, b.row),
    ensures
        r == order_rows(mode, rows, a.row, b.row),
{
    let group: i8 = match mode {
        DashboardGroupMode::Project => {
            let by_project: i8 = compare_int(b.project, a.project);
            if by_project != 0 {
                by_project
            } else {
                compare_optional_path(&a.row.cwd, &b.row.cwd)
            }
        },
        DashboardGroupMode::Status => compare_int(place_of(&a.row), place_of(&b.row)),
    };
    if group != 0 {
        return group;
    }
    let by_time: i8 = compare_int(b.row.recency_timestamp(), a.row.recency_timestamp());
    if by_time != 0 {
        return by_time;
    }
    compare_ids(&a.row, &b.row)
}

spec fn placed_rows(placed: Seq<Placed>) -> Seq<Row> {
    Seq::new(placed.len(), |i: int| placed[i].row)
}

spec fn well_placed(placed: Seq<Placed>, rows: Seq<Row>) -> bool {
    forall|i: int|
        0 <= i < placed.len() ==> (#[trigger] placed[i]).project == recency_around(
            rows,
            placed[i].row,
        )
}

fn insert_placed(
    mode: DashboardGroupMode,
    sorted: &mut Vec<Placed>,
    placed: Placed,
    Ghost(rows): Ghost<Seq<Row>>,
)
    requires
        well_placed(old(sorted)@, rows),
        placed.project == recency_around(rows, placed.row),
    ensures
        well_placed(final(sorted)@, rows),
        placed_rows(final(sorted)@) == row_inserted(
            mode,
            rows,
            placed_rows(old(sorted)@),
            placed.row,
        ),
{
    let ghost before = placed_rows(sorted@);
    let mut at: usize = sorted.len();
    let ghost mut behind: Seq<Row> = Seq::empty();
    let mut done = false;
    proof {
        assert(before.take(at as int) =~= before);
        assert(row_inserted(mode, rows, before, placed.row) + behind =~= row_inserted(
            mode,
            rows,
            before,
            placed.row,
        ));
    }
    while at > 0 && !done
        invariant
            at <= sorted@.len(),
            before == placed_rows(sorted@),
            well_placed(sorted@, rows),
            placed.project == recency_around(rows, placed.row),
            behind == before.skip(at as int),
            row_inserted(mode, rows, before, placed.row) == row_inserted(
                mode,
                rows,
                before.take(at as int),
                placed.row,
            ) + behind,
            done ==> at > 0 && order_rows(mode, rows, before[at - 1], placed.row) <= 0,
        decreases at + (if done { 0int } else { 1int }),
    {
        let order: i8 = compare_placed(mode, &sorted[at - 1], &placed, Ghost(rows));
        if order > 0 {
            proof {
                let head = before.take(at as int);
                assert(head.last() == before[at - 1]);
                assert(head.drop_last() =~= before.take(at - 1));
                let inner = row_inserted(mode, rows, before.take(at - 1), placed.row);
                assert(inner.push(before[at - 1]) + behind =~= inner + before.skip(at - 1));
                behind = before.skip(at - 1);
            }
            at -= 1;
        } else {
            done = true;
        }
    }
    proof {
        let head = before.take(at as int);
        if at > 0 {
            assert(head.last() == before[at - 1]);
        }
        assert(row_inserted(mode, rows, head, placed.row) == head.push(placed.row));
        assert(before.insert(at as int, placed.row) =~= head.push(placed.row) + behind);
    }
    let ghost added = placed;
    sorted.insert(at, placed);
    proof {
        assert(placed_rows(sorted@) =~= before.insert(at as int, added.row));
    }
}

/// `rows` in the order of the dashboard.
pub fn sort_rows(mode: DashboardGroupMode, rows: &Vec<Row>) -> (r: Vec<Row>)
    ensures
        r@ == rows_sorted(mode, rows@),
{
    let projects = projects_of(rows);
    let mut sorted: Vec<Placed> = Vec::new();
    let mut i: usize = 0;
    proof {
        assert(placed_rows(sorted@) =~= rows_sorted_to(mode, rows@, 0));
    }
    while i < rows.len()
        invariant
            i <= rows.len(),
            projects@.len() == rows@.len(),
            forall|j: int|
                0 <= j < rows@.len() ==> texts_view(#[trigger] projects@[j]@) == project_of(
                    rows@[j],
                ),
            well_placed(sorted@, rows@),
            placed_rows(sorted@) == rows_sorted_to(mode, rows@, i as nat),
        decreases rows.len() - i,
    {
        let project: i64 = recency_around_row(rows, &projects, i);
        let placed = Placed { row: rows[i].clone(), project };
        insert_placed(mode, &mut sorted, placed, Ghost(rows@));
        i += 1;
    }
    let mut r: Vec<Row> = Vec::new();
    let mut k: usize = 0;
    while k < sorted.len()
        invariant
            k <= sorted.len(),
            r@ == placed_rows(sorted@).take(k as int),
        decreases sorted.len() - k,
    {
        r.push(sorted[k].row.clone());
        proof {
            assert(placed_rows(sorted@).take(k + 1) =~= placed_rows(sorted@).take(k as int).push(
                sorted@[k as int].row,
            ));
        }
        k += 1;
    }
    proof {
        assert(placed_rows(sorted@).take(sorted@.len() as int) =~= placed_rows(sorted@));
    }
    r
}

} // verus!
