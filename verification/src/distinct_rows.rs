//! No session is listed twice, and pages keep the order in which they come.

use vstd::prelude::*;
use crate::archive::not_thread;
use crate::filter::refiltered;
use crate::ids::ThreadId;
use crate::live_rows::{not_key, row_added, thread_forgotten, updated_row, RowUpdate};
use crate::loading::reloaded;
use crate::picker::PickerState;
use crate::row::{key_in, same_key, Row, SeenRowKey};
use crate::search::{merged_to, page_ingested, page_merged, PickerPage};
use crate::time::Timestamp;

verus! {

/// Two rows are of one session.
pub open spec fn same_session(a: Row, b: Row) -> bool {
    a.key() is Some && b.key() is Some && same_key(a.key()->0, b.key()->0)
}

/// No two rows are of one session.
pub open spec fn are_distinct(rows: Seq<Row>) -> bool {
    forall|i: int, j: int|
        0 <= i < j < rows.len() ==> !same_session(#[trigger] rows[i], #[trigger] rows[j])
}

/// The sessions of all rows are known.
pub open spec fn are_known(rows: Seq<Row>, seen: Seq<SeenRowKey>) -> bool {
    forall|i: int|
        0 <= i < rows.len() && (#[trigger] rows[i]).key() is Some ==> key_in(seen, rows[i].key()->0)
}

/// The loaded rows are of different sessions, all of them known.
pub open spec fn rows_are_distinct(state: PickerState) -> bool {
    are_distinct(state.all_rows@) && are_known(state.all_rows@, state.seen_rows@)
}

proof fn lemma_key_known(seen: Seq<SeenRowKey>, a: SeenRowKey, b: SeenRowKey)
    requires
        same_key(a, b),
    ensures
        key_in(seen, a) == key_in(seen, b),
{
    if key_in(seen, a) {
        let i = choose|i: int| 0 <= i < seen.len() && same_key(#[trigger] seen[i], a);
        assert(same_key(seen[i], b));
    }
    if key_in(seen, b) {
        let i = choose|i: int| 0 <= i < seen.len() && same_key(#[trigger] seen[i], b);
        assert(same_key(seen[i], a));
    }
}

proof fn lemma_key_pushed(seen: Seq<SeenRowKey>, key: SeenRowKey, other: SeenRowKey)
    ensures
        key_in(seen.push(key), other) == (key_in(seen, other) || same_key(key, other)),
{
    let more = seen.push(key);
    if key_in(seen, other) {
        let i = choose|i: int| 0 <= i < seen.len() && same_key(#[trigger] seen[i], other);
        assert(same_key(more[i], other));
    }
    if same_key(key, other) {
        assert(same_key(more[seen.len() as int], other));
    }
    if key_in(more, other) {
        let i = choose|i: int| 0 <= i < more.len() && same_key(#[trigger] more[i], other);
        if i < seen.len() {
            assert(same_key(seen[i], other));
        }
    }
}

/// A row whose session is not known is added without breaking anything.
proof fn lemma_row_pushed(rows: Seq<Row>, seen: Seq<SeenRowKey>, row: Row)
    requires
        are_distinct(rows),
        are_known(rows, seen),
        row.key() is Some ==> !key_in(seen, row.key()->0),
    ensures
        are_distinct(rows.push(row)),
        are_known(
            rows.push(row),
            match row.key() {
                Some(key) => seen.push(key),
                None => seen,
            },
        ),
{
    let more = rows.push(row);
    let known = match row.key() {
        Some(key) => seen.push(key),
        None => seen,
    };
    assert forall|i: int, j: int| 0 <= i < j < more.len() implies !same_session(
        #[trigger] more[i],
        #[trigger] more[j],
    ) by {
        if j == rows.len() && same_session(rows[i], row) {
            lemma_key_known(seen, rows[i].key()->0, row.key()->0);
        }
    }
    assert forall|i: int| 0 <= i < more.len() && (#[trigger] more[i]).key() is Some implies key_in(
        known,
        more[i].key()->0,
    ) by {
        if let Some(key) = row.key() {
            lemma_key_pushed(seen, key, more[i].key()->0);
        }
        if i < rows.len() {
            assert(key_in(seen, rows[i].key()->0));
        }
    }
}

proof fn lemma_merged_is_distinct(
    all: Seq<Row>,
    seen: Seq<SeenRowKey>,
    rows: Seq<Row>,
    count: nat,
)
    requires
        count <= rows.len(),
        are_distinct(all),
        are_known(all, seen),
    ensures
        are_distinct(merged_to(all, seen, rows, count).0),
        are_known(merged_to(all, seen, rows, count).0, merged_to(all, seen, rows, count).1),
    decreases count,
{
    if count > 0 {
        lemma_merged_is_distinct(all, seen, rows, (count - 1) as nat);
        let (some, known) = merged_to(all, seen, rows, (count - 1) as nat);
        let row = rows[count - 1];
        if row.key() is None || !key_in(known, row.key()->0) {
            lemma_row_pushed(some, known, row);
        }
    }
}

/// A page adds no session that is listed already, nor one twice.
pub proof fn lemma_page_keeps_rows_distinct(
    before: PickerState,
    after: PickerState,
    page: PickerPage,
)
    requires
        rows_are_distinct(before),
        page_ingested(before, after, page),
    ensures
        rows_are_distinct(after),
{
    let merged = choose|merged: PickerState|
        #![trigger refiltered(merged, after)]
        page_merged(before, merged, page) && refiltered(merged, after);
    lemma_merged_is_distinct(before.all_rows@, before.seen_rows@, page.rows@, page.rows@.len());
}

/// Row `at` of a page is the first of its session: it is not known before the page, and no row
/// above it is of its session.
pub open spec fn is_first(seen: Seq<SeenRowKey>, rows: Seq<Row>, at: int) -> bool {
    rows[at].key() is Some ==> {
        &&& !key_in(seen, rows[at].key()->0)
        &&& forall|i: int| 0 <= i < at ==> !same_session(#[trigger] rows[i], rows[at])
    }
}

/// The first rows of their sessions among the first `count` rows, in their order.
pub open spec fn first_rows(seen: Seq<SeenRowKey>, rows: Seq<Row>, count: nat) -> Seq<Row>
    decreases count,
{
    if count == 0 {
        Seq::empty()
    } else {
        let before = first_rows(seen, rows, (count - 1) as nat);
        if is_first(seen, rows, count - 1) {
            before.push(rows[count - 1])
        } else {
            before
        }
    }
}

/// The sessions that are known after some rows: those known before, and those of the rows.
proof fn lemma_known_after(
    all: Seq<Row>,
    seen: Seq<SeenRowKey>,
    rows: Seq<Row>,
    count: nat,
    key: SeenRowKey,
)
    requires
        count <= rows.len(),
    ensures
        key_in(merged_to(all, seen, rows, count).1, key) <==> key_in(seen, key) || exists|i: int|
            0 <= i < count && (#[trigger] rows[i]).key() is Some && same_key(rows[i].key()->0, key),
    decreases count,
{
    if count > 0 {
        let last = count - 1;
        lemma_known_after(all, seen, rows, last as nat, key);
        let known = merged_to(all, seen, rows, last as nat).1;
        if let Some(new) = rows[last].key() {
            if key_in(known, new) {
                if same_key(new, key) {
                    lemma_key_known(known, new, key);
                }
            } else {
                lemma_key_pushed(known, new, key);
            }
        }
        if exists|i: int|
            0 <= i < count && (#[trigger] rows[i]).key() is Some && same_key(
                rows[i].key()->0,
                key,
            ) {
            let i = choose|i: int|
                0 <= i < count && (#[trigger] rows[i]).key() is Some && same_key(
                    rows[i].key()->0,
                    key,
                );
            if i < last {
                assert(rows[i].key() is Some && same_key(rows[i].key()->0, key));
            }
        }
    }
}

/// A page adds the first rows of the sessions that are not listed yet behind what is loaded, in
/// their order.
pub proof fn lemma_page_keeps_order(
    all: Seq<Row>,
    seen: Seq<SeenRowKey>,
    rows: Seq<Row>,
    count: nat,
)
    requires
        count <= rows.len(),
    ensures
        merged_to(all, seen, rows, count).0 == all + first_rows(seen, rows, count),
    decreases count,
{
    if count == 0 {
        assert(all + Seq::<Row>::empty() =~= all);
    } else {
        let last = count - 1;
        lemma_page_keeps_order(all, seen, rows, last as nat);
        let row = rows[last];
        if let Some(key) = row.key() {
            lemma_known_after(all, seen, rows, last as nat, key);
        }
        let before = first_rows(seen, rows, last as nat);
        assert((all + before).push(row) =~= all + before.push(row));
    }
}

/// A change of a row leaves its session the same.
pub proof fn lemma_update_keeps_session(row: Row, update: RowUpdate, now: Timestamp)
    ensures
        updated_row(row, update, now).key() == row.key(),
{
}

/// A change of a row keeps the sessions apart.
pub proof fn lemma_update_keeps_rows_distinct(
    rows: Seq<Row>,
    seen: Seq<SeenRowKey>,
    at: int,
    update: RowUpdate,
    now: Timestamp,
)
    requires
        0 <= at < rows.len(),
        are_distinct(rows),
        are_known(rows, seen),
    ensures
        are_distinct(rows.update(at, updated_row(rows[at], update, now))),
        are_known(rows.update(at, updated_row(rows[at], update, now)), seen),
{
    let changed = rows.update(at, updated_row(rows[at], update, now));
    assert forall|i: int| 0 <= i < rows.len() implies (#[trigger] changed[i]).key()
        == rows[i].key() by {}
    assert forall|i: int, j: int| 0 <= i < j < changed.len() implies !same_session(
        #[trigger] changed[i],
        #[trigger] changed[j],
    ) by {
        assert(!same_session(rows[i], rows[j]));
    }
    assert forall|i: int| 0 <= i < changed.len() && (#[trigger] changed[i]).key() is Some implies key_in(
        seen,
        changed[i].key()->0,
    ) by {
        assert(rows[i].key() is Some);
    }
}

proof fn lemma_filter_is_distinct(rows: Seq<Row>, kept: spec_fn(Row) -> bool)
    requires
        are_distinct(rows),
    ensures
        are_distinct(rows.filter(kept)),
    decreases rows.len(),
{
    reveal(Seq::filter);
    broadcast use vstd::seq_lib::group_filter_ensures;

    if rows.len() > 0 {
        let less = rows.drop_last();
        assert forall|i: int, j: int| 0 <= i < j < less.len() implies !same_session(
            #[trigger] less[i],
            #[trigger] less[j],
        ) by {
            assert(!same_session(rows[i], rows[j]));
        }
        lemma_filter_is_distinct(less, kept);
        if kept(rows.last()) {
            let some = less.filter(kept);
            let more = some.push(rows.last());
            assert(rows.filter(kept) =~= more);
            assert forall|i: int, j: int| 0 <= i < j < more.len() implies !same_session(
                #[trigger] more[i],
                #[trigger] more[j],
            ) by {
                if j == some.len() {
                    lemma_filtered_from(less, kept, i);
                    let at = choose|at: int| 0 <= at < less.len() && less[at] == some[i];
                    assert(!same_session(rows[at], rows[rows.len() - 1]));
                }
            }
        }
    }
}

proof fn lemma_filtered_from(rows: Seq<Row>, kept: spec_fn(Row) -> bool, i: int)
    requires
        0 <= i < rows.filter(kept).len(),
    ensures
        kept(rows.filter(kept)[i]),
        exists|at: int| 0 <= at < rows.len() && #[trigger] rows[at] == rows.filter(kept)[i],
    decreases rows.len(),
{
    reveal(Seq::filter);
    if rows.len() > 0 {
        let less = rows.drop_last();
        if i < less.filter(kept).len() {
            lemma_filtered_from(less, kept, i);
            let at = choose|at: int| 0 <= at < less.len() && #[trigger] less[at] == less.filter(kept)[i];
            assert(rows[at] == rows.filter(kept)[i]);
        } else {
            assert(rows[rows.len() - 1] == rows.filter(kept)[i]);
        }
    }
}

/// A session that is taken from the list and forgotten can be listed again, and the others stay
/// apart.
pub proof fn lemma_removal_keeps_rows_distinct(
    before: PickerState,
    after: PickerState,
    thread_id: ThreadId,
)
    requires
        rows_are_distinct(before),
        thread_forgotten(before, after, thread_id),
    ensures
        rows_are_distinct(after),
        !key_in(after.seen_rows@, SeenRowKey::Thread(thread_id)),
{
    let kept = not_thread(thread_id);
    let rows = before.all_rows@;
    let seen = before.seen_rows@;
    let forgotten = SeenRowKey::Thread(thread_id);
    lemma_filter_is_distinct(rows, kept);
    broadcast use vstd::seq_lib::group_filter_ensures;

    assert forall|i: int| 0 <= i < after.all_rows@.len() && (#[trigger] after.all_rows@[i]).key() is Some implies key_in(
        after.seen_rows@,
        after.all_rows@[i].key()->0,
    ) by {
        lemma_filtered_from(rows, kept, i);
        let at = choose|at: int| 0 <= at < rows.len() && #[trigger] rows[at] == after.all_rows@[i];
        let key = rows[at].key()->0;
        let k = choose|k: int| 0 <= k < seen.len() && same_key(#[trigger] seen[k], key);
        assert(!same_key(seen[k], forgotten));
        seen.lemma_filter_contains(not_key(forgotten), k);
        let left = seen.filter(not_key(forgotten));
        let m = choose|m: int| 0 <= m < left.len() && left[m] == seen[k];
        assert(same_key(left[m], key));
    }
    if key_in(after.seen_rows@, forgotten) {
        let left = seen.filter(not_key(forgotten));
        let m = choose|m: int| 0 <= m < left.len() && same_key(#[trigger] left[m], forgotten);
        seen.lemma_filter_pred(not_key(forgotten), m);
    }
}

/// An archived session leaves the others apart.
pub proof fn lemma_archived_rows_are_distinct(
    rows: Seq<Row>,
    seen: Seq<SeenRowKey>,
    thread_id: ThreadId,
)
    requires
        are_distinct(rows),
        are_known(rows, seen),
    ensures
        are_distinct(rows.filter(not_thread(thread_id))),
        are_known(rows.filter(not_thread(thread_id)), seen),
{
    let kept = not_thread(thread_id);
    lemma_filter_is_distinct(rows, kept);
    assert forall|i: int| 0 <= i < rows.filter(kept).len() && (#[trigger] rows.filter(kept)[i]).key() is Some implies key_in(
        seen,
        rows.filter(kept)[i].key()->0,
    ) by {
        lemma_filtered_from(rows, kept, i);
        let at = choose|at: int| 0 <= at < rows.len() && #[trigger] rows[at] == rows.filter(kept)[i];
        assert(key_in(seen, rows[at].key()->0));
    }
}

/// A thread that starts is listed once.
pub proof fn lemma_added_row_is_distinct(before: PickerState, after: PickerState, row: Row)
    requires
        rows_are_distinct(before),
        row_added(before, after, row),
    ensures
        rows_are_distinct(after),
{
    if !(row.key() is Some && key_in(before.seen_rows@, row.key()->0)) {
        lemma_row_pushed(before.all_rows@, before.seen_rows@, row);
    }
}

/// Nothing is listed where the listing begins anew.
pub proof fn lemma_reloaded_rows_are_distinct(before: PickerState, after: PickerState)
    requires
        reloaded(before, after),
    ensures
        rows_are_distinct(after),
{
}

} // verus!
