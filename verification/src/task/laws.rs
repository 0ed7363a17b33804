//! What holds of the registry and of the durable table, whatever tasks they
//! hold.

use vstd::math::{max, min};
use vstd::prelude::*;
use crate::sequences::lemma_filter_members;
use super::info::{TaskRecord, DEFAULT_MAX_RETRIES, MAX_PROGRESS};
use super::order::{
    lemma_sort_by_created, lemma_sort_unique, sort_by_created, sorted_by_created,
};
use super::retention::unexpired;
use super::row::{opt_json_reading, opt_json_text, reads_as, row_of};
use super::state::{
    cancellation, completion, created_persistent_record, failure, progress_change, retry,
    status_change, RegistryState,
};
use super::status::{lemma_status_name_round_trip, TaskStatus};
use super::store::{
    is_pending_persistent, is_stranded, lemma_saved_all_unique, recovered, requeue, saved_all,
    selected, set_error_fields, set_result_fields, set_retry_fields, set_status_fields,
};
use super::table::{
    has_id, lemma_filter_unique, lemma_lookup_at, lemma_update_where_id, lemma_upsert, lookup,
    not_id, unique_ids, update_where_id, upsert, without_id,
};

verus! {

/// The lifecycle keeps a record well formed. Status updates, progress
/// reports, completion, failure and cancellation do so from any well-formed
/// record, a retry from one that can be retried.
pub proof fn law_record_stays_well_formed(
    r: TaskRecord,
    status: TaskStatus,
    pct: u8,
    message: Option<Seq<char>>,
    result: Option<serde_json::Value>,
    error: Seq<char>,
    now: i64,
)
    requires
        r.wf(),
    ensures
        r.with_progress(pct, message, now).wf(),
        r.completed(result, now).wf(),
        r.failed(error, now).wf(),
        r.cancelled(now).wf(),
        r.can_retry() ==> r.retried(now).wf(),
        r.with_status(status, now).wf(),
        r.with_status(status, now).status == status,
        r.with_status(status, now).completed_at.is_some() <==> status.is_terminal(),
{
}

/// A progress report stores the percentage held to the range from 0 to 100,
/// replaces the message and leaves the status as it was.
pub proof fn law_progress_is_clamped(
    state: RegistryState,
    id: Seq<char>,
    pct: u8,
    message: Option<Seq<char>>,
    now: i64,
)
    requires
        state.wf(),
        state.task(id).is_some(),
    ensures
        ({
            let after = state.progressed(id, pct, message, now).task(id);
            &&& after.is_some()
            &&& after.unwrap().progress as int == min(max(pct as int, 0), 100)
            &&& after.unwrap().message == message
            &&& after.unwrap().status == state.task(id).unwrap().status
        }),
{
    lemma_update_where_id(state.tasks, id, progress_change(pct, message, now));
}

/// Completion always leaves the task completed at 100 percent with the
/// given result and a completion time, whatever its progress and status
/// were.
pub proof fn law_complete_is_total(
    state: RegistryState,
    id: Seq<char>,
    result: Option<serde_json::Value>,
    now: i64,
)
    requires
        state.wf(),
        state.task(id).is_some(),
    ensures
        ({
            let after = state.completed(id, result, now).task(id);
            &&& after.is_some()
            &&& after.unwrap().status == TaskStatus::Completed
            &&& after.unwrap().progress == MAX_PROGRESS
            &&& after.unwrap().result == result
            &&& after.unwrap().completed_at.is_some()
        }),
{
    lemma_update_where_id(state.tasks, id, completion(result, now));
}

/// Failure always leaves the task failed with the given error and a
/// completion time.
pub proof fn law_fail_is_total(state: RegistryState, id: Seq<char>, error: Seq<char>, now: i64)
    requires
        state.wf(),
        state.task(id).is_some(),
    ensures
        ({
            let after = state.failed(id, error, now).task(id);
            &&& after.is_some()
            &&& after.unwrap().status == TaskStatus::Failed
            &&& after.unwrap().error == Some(error)
            &&& after.unwrap().completed_at.is_some()
        }),
{
    lemma_update_where_id(state.tasks, id, failure(error, now));
}

/// A status update sets the status of a known task, whatever it was, and
/// keeps its record well formed: the task has a completion time exactly
/// when the new status is an ended one. Every other task stays as it is.
pub proof fn law_status_update_is_total(
    state: RegistryState,
    id: Seq<char>,
    other: Seq<char>,
    status: TaskStatus,
    now: i64,
)
    requires
        state.wf(),
        state.task(id).is_some(),
        state.task(id).unwrap().wf(),
    ensures
        ({
            let before = state.task(id).unwrap();
            let after = state.status_updated(id, status, now).task(id);
            &&& after.is_some()
            &&& after.unwrap().status == status
            &&& after.unwrap().wf()
            &&& after.unwrap().completed_at.is_some() <==> status.is_terminal()
            &&& after.unwrap().updated_at == now
            &&& after.unwrap() == (TaskRecord {
                status,
                updated_at: now,
                completed_at: after.unwrap().completed_at,
                ..before
            })
        }),
        other != id ==> state.status_updated(id, status, now).task(other) == state.task(other),
{
    lemma_update_where_id(state.tasks, id, status_change(status, now));
}

/// A cancellation applies exactly to a known task that waits or runs. It
/// then leaves the task cancelled, completed and changed at `now`, with
/// every other field as it was, and the time of the last change does not
/// go back where the clock did not. To a task that has ended, and to an
/// unknown identifier, it does nothing, and it never touches another task.
pub proof fn law_cancel_applies_iff_active(
    state: RegistryState,
    id: Seq<char>,
    other: Seq<char>,
    now: i64,
)
    requires
        state.wf(),
    ensures
        state.can_cancel(id) <==> (state.task(id).is_some() && (state.task(id).unwrap().status
            == TaskStatus::Pending || state.task(id).unwrap().status == TaskStatus::Running)),
        state.can_cancel(id) ==> ({
            let before = state.task(id).unwrap();
            let after = state.cancelled(id, now).task(id);
            &&& after.is_some()
            &&& after.unwrap().status == TaskStatus::Cancelled
            &&& after.unwrap().completed_at == Some(now)
            &&& after.unwrap() == (TaskRecord {
                status: TaskStatus::Cancelled,
                updated_at: now,
                completed_at: Some(now),
                ..before
            })
            &&& now >= before.updated_at ==> after.unwrap().updated_at >= before.updated_at
        }),
        !state.can_cancel(id) ==> state.cancelled(id, now) == state,
        other != id ==> state.cancelled(id, now).task(other) == state.task(other),
{
    lemma_update_where_id(state.tasks, id, cancellation(now));
}

/// A retry applies exactly to a known task that failed and has retries
/// left. It then counts one retry more, never beyond the bound, and leaves
/// the task waiting without error, progress or completion time. Otherwise it
/// does nothing.
pub proof fn law_retry_applies_iff_failed_with_retries_left(
    state: RegistryState,
    id: Seq<char>,
    now: i64,
)
    requires
        state.wf(),
    ensures
        state.can_retry(id) <==> (state.task(id).is_some() && state.task(id).unwrap().status
            == TaskStatus::Failed && state.task(id).unwrap().retry_count < state.task(
            id,
        ).unwrap().max_retries),
        state.can_retry(id) ==> ({
            let before = state.task(id).unwrap();
            let after = state.retried(id, now).task(id);
            &&& after.is_some()
            &&& after.unwrap().retry_count == before.retry_count + 1
            &&& after.unwrap().retry_count <= after.unwrap().max_retries
            &&& after.unwrap().status == TaskStatus::Pending
            &&& after.unwrap().error.is_none()
            &&& after.unwrap().progress == 0
            &&& after.unwrap().completed_at.is_none()
        }),
        !state.can_retry(id) ==> state.retried(id, now) == state,
{
    lemma_update_where_id(state.tasks, id, retry(now));
}

/// A cleanup drops from memory exactly the tasks whose completion time lies
/// before `now - max_age_ms`. A task without a completion time stays,
/// however old it is.
pub proof fn law_cleanup_drops_exactly_the_expired(state: RegistryState, max_age_ms: i64, now: i64)
    requires
        state.wf(),
    ensures
        forall|r: TaskRecord|
            state.cleaned(max_age_ms, now).tasks.contains(r) <==> (state.tasks.contains(r) && !(
            r.completed_at.is_some() && r.completed_at.unwrap() < now - max_age_ms)),
        forall|r: TaskRecord|
            state.tasks.contains(r) && r.completed_at.is_none() ==> state.cleaned(
                max_age_ms,
                now,
            ).tasks.contains(r),
        state.cleaned(max_age_ms, now).wf(),
{
    lemma_filter_members(state.tasks, unexpired(now - max_age_ms, false));
    lemma_filter_unique(state.tasks, unexpired(now - max_age_ms, false));
    if state.store.is_some() {
        lemma_filter_unique(state.store.unwrap(), unexpired(now - max_age_ms, true));
    }
}

/// Recovery converts every running row. After it no row of the table is
/// in state `Running`. A row that was running waits, changed at `now`,
/// and is the same in every other field; a row of any other status is
/// unchanged; no row is added or dropped, and the rows keep their order.
pub proof fn law_recovery_converts_every_running_row(rows: Seq<TaskRecord>, now: i64)
    ensures
        recovered(rows, now).len() == rows.len(),
        forall|i: int|
            0 <= i < rows.len() ==> (#[trigger] recovered(rows, now)[i]).status
                != TaskStatus::Running,
        forall|i: int|
            0 <= i < rows.len() && rows[i].status == TaskStatus::Running ==> #[trigger] recovered(
                rows,
                now,
            )[i] == (TaskRecord { status: TaskStatus::Pending, updated_at: now, ..rows[i] }),
        forall|i: int|
            0 <= i < rows.len() && rows[i].status != TaskStatus::Running ==> #[trigger] recovered(
                rows,
                now,
            )[i] == rows[i],
        recovered(rows, now).filter(is_stranded()).len() == 0,
{
    law_recovery_is_idempotent(rows, now, now);
}

/// Recovery twice is recovery once: after the first pass no row is
/// stranded, so a second pass, at whatever time, changes nothing.
pub proof fn law_recovery_is_idempotent(rows: Seq<TaskRecord>, first: i64, second: i64)
    ensures
        recovered(recovered(rows, first), second) == recovered(rows, first),
        recovered(rows, first).filter(is_stranded()).len() == 0,
{
    let once = recovered(rows, first);
    assert(recovered(once, second) =~= once);
    lemma_filter_members(once, is_stranded());
    if once.filter(is_stranded()).len() > 0 {
        let r = once.filter(is_stranded())[0];
        assert(once.filter(is_stranded()).contains(r));
        assert(once.contains(r) && is_stranded()(r));
        let i = choose|i: int| 0 <= i < once.len() && once[i] == r;
        assert(once[i] == requeue(first)(rows[i]));
    }
}

/// Recovery keeps identifiers distinct and changes no row but the stranded
/// ones.
pub proof fn lemma_recovered(rows: Seq<TaskRecord>, now: i64)
    requires
        unique_ids(rows),
    ensures
        unique_ids(recovered(rows, now)),
        forall|i: int|
            0 <= i < rows.len() && !is_stranded()(rows[i]) ==> recovered(rows, now)[i] == rows[i],
{
    let out = recovered(rows, now);
    assert forall|i: int, j: int| 0 <= i < j < out.len() implies out[i].id != out[j].id by {
        assert(rows[i].id != rows[j].id);
    }
}

/// Putting the tasks of a list with distinct identifiers into memory makes
/// each of them the task of its identifier.
pub proof fn lemma_saved_all_lookup(tasks: Seq<TaskRecord>, list: Seq<TaskRecord>, r: TaskRecord)
    requires
        unique_ids(tasks),
        unique_ids(list),
        list.contains(r),
    ensures
        lookup(saved_all(tasks, list), r.id) == Some(r),
    decreases list.len(),
{
    let front = list.drop_last();
    lemma_saved_all_unique(tasks, front);
    lemma_upsert(saved_all(tasks, front), list.last());
    if list.last() != r {
        let i = choose|i: int| 0 <= i < list.len() && list[i] == r;
        assert(front[i] == r);
        assert(front.contains(r));
        assert(list[i].id != list[list.len() - 1].id);
        lemma_saved_all_lookup(tasks, front, r);
    }
}

/// What recovery puts back into an empty registry: a persistent row of the
/// table that waits or runs is in memory afterwards, waiting, and changed
/// only where it was stranded.
pub proof fn lemma_loaded_task(rows: Seq<TaskRecord>, r: TaskRecord, now: i64)
    requires
        unique_ids(rows),
        rows.contains(r),
        r.persistent,
        r.status.is_active(),
    ensures
        ({
            let restarted = RegistryState { tasks: Seq::empty(), store: Some(rows) };
            &&& restarted.loadable(now).contains(requeue(now)(r))
            &&& restarted.loaded(now).task(r.id) == Some(requeue(now)(r))
            &&& restarted.loaded(now).wf()
        }),
{
    let back = requeue(now)(r);
    let once = recovered(rows, now);
    lemma_recovered(rows, now);
    let k = choose|k: int| 0 <= k < rows.len() && rows[k] == r;
    assert(once[k] == back);
    assert(once.contains(back));
    let pending = once.filter(is_pending_persistent());
    lemma_filter_members(once, is_pending_persistent());
    lemma_filter_unique(once, is_pending_persistent());
    assert(pending.contains(back));
    lemma_sort_by_created(pending);
    lemma_sort_unique(pending);
    let list = sort_by_created(pending);
    assert(list.contains(back));
    let empty = Seq::<TaskRecord>::empty();
    lemma_saved_all_lookup(empty, list, back);
    lemma_saved_all_unique(empty, list);
}

/// A persistent task survives a restart. It is created and saved to the
/// durable table; the process stops, and memory is lost; the next process
/// recovers from the table. Then the registry holds the task again, the
/// same in every field: identifier, type, status, progress, retry count,
/// retry bound and input among them.
pub proof fn law_persistent_task_survives_restart(
    state: RegistryState,
    id: Seq<char>,
    task_type: Seq<char>,
    input: serde_json::Value,
    max_retries: u8,
    created_at: i64,
    restarted_at: i64,
)
    requires
        state.wf(),
        state.store.is_some(),
    ensures
        ({
            let task = created_persistent_record(id, task_type, Some(input), max_retries, created_at);
            let stopped = state.created_persistent_with_input(
                id,
                task_type,
                input,
                max_retries,
                created_at,
            );
            let restarted = RegistryState { tasks: Seq::empty(), store: stopped.store };
            &&& restarted.loadable(restarted_at).contains(task)
            &&& restarted.loaded(restarted_at).task(id) == Some(task)
            &&& restarted.loaded(restarted_at).wf()
        }),
{
    let task = created_persistent_record(id, task_type, Some(input), max_retries, created_at);
    let rows = upsert(state.store.unwrap(), task);
    lemma_upsert(state.store.unwrap(), task);
    assert(rows[rows.len() - 1] == task);
    lemma_loaded_task(rows, task, restarted_at);
}

/// A persistent task survives a restart through the rows on disk. The
/// tasks of the table are written as rows; the process stops; the next
/// process reads the rows, builds its table from them and recovers. Then
/// the registry holds each persistent task that waited or ran: waiting,
/// with its identifier, type, progress, retry count and retry bound, its
/// message, error and times of creation, and with each payload as
/// `serde_json` reads the text that it wrote. A task that waited is the
/// same in its status and its time of change too.
pub proof fn law_persistent_task_survives_stored_rows(
    written: Seq<TaskRecord>,
    read: Seq<TaskRecord>,
    i: int,
    restarted_at: i64,
)
    requires
        unique_ids(written),
        read.len() == written.len(),
        forall|j: int| 0 <= j < written.len() ==> reads_as(row_of(written[j]), #[trigger] read[j]),
        0 <= i < written.len(),
        written[i].persistent,
        written[i].status.is_active(),
    ensures
        ({
            let task = written[i];
            let table = saved_all(Seq::empty(), read);
            let restarted = RegistryState { tasks: Seq::empty(), store: Some(table) };
            let back = restarted.loaded(restarted_at).task(task.id);
            &&& back.is_some()
            &&& back.unwrap().id == task.id
            &&& back.unwrap().task_type == task.task_type
            &&& back.unwrap().status == TaskStatus::Pending
            &&& task.status == TaskStatus::Pending ==> back.unwrap().status == task.status
                && back.unwrap().updated_at == task.updated_at
            &&& back.unwrap().progress == task.progress
            &&& back.unwrap().retry_count == task.retry_count
            &&& back.unwrap().max_retries == task.max_retries
            &&& back.unwrap().retry_delay_ms == task.retry_delay_ms
            &&& back.unwrap().message == task.message
            &&& back.unwrap().error == task.error
            &&& back.unwrap().persistent
            &&& back.unwrap().created_at == task.created_at
            &&& back.unwrap().completed_at == task.completed_at
            &&& opt_json_text(back.unwrap().input) == opt_json_reading(opt_json_text(task.input))
            &&& opt_json_text(back.unwrap().result) == opt_json_reading(opt_json_text(task.result))
        }),
{
    let empty = Seq::<TaskRecord>::empty();
    assert forall|a: int, b: int| 0 <= a < b < read.len() implies read[a].id != read[b].id by {
        assert(reads_as(row_of(written[a]), read[a]));
        assert(reads_as(row_of(written[b]), read[b]));
        assert(written[a].id != written[b].id);
    }
    assert(reads_as(row_of(written[i]), read[i]));
    lemma_status_name_round_trip(written[i].status);
    assert(read.contains(read[i]));
    lemma_saved_all_unique(empty, read);
    lemma_saved_all_lookup(empty, read, read[i]);
    let table = saved_all(empty, read);
    assert(has_id(table, read[i].id));
    let k = choose|k: int| 0 <= k < table.len() && table[k].id == read[i].id;
    lemma_lookup_at(table, k);
    assert(table.contains(read[i]));
    lemma_loaded_task(table, read[i], restarted_at);
}

/// Every record of the sequence is persistent.
pub open spec fn all_persistent(rows: Seq<TaskRecord>) -> bool {
    forall|i: int| 0 <= i < rows.len() ==> (#[trigger] rows[i]).persistent
}

/// Every record of the sequence is well formed.
pub open spec fn all_well_formed(tasks: Seq<TaskRecord>) -> bool {
    forall|i: int| 0 <= i < tasks.len() ==> (#[trigger] tasks[i]).wf()
}

/// The table of the registry holds persistent tasks only.
pub open spec fn stores_persistent_only(state: RegistryState) -> bool {
    match state.store {
        Some(rows) => all_persistent(rows),
        None => true,
    }
}

/// Putting a record in keeps what holds of every record, where it holds of
/// the new one.
proof fn lemma_upsert_keeps(s: Seq<TaskRecord>, r: TaskRecord, holds: spec_fn(TaskRecord) -> bool)
    requires
        forall|i: int| 0 <= i < s.len() ==> holds(#[trigger] s[i]),
        holds(r),
    ensures
        forall|i: int| 0 <= i < upsert(s, r).len() ==> holds(#[trigger] upsert(s, r)[i]),
{
    let rest = without_id(s, r.id);
    lemma_filter_members(s, not_id(r.id));
    assert forall|i: int| 0 <= i < upsert(s, r).len() implies holds(#[trigger] upsert(s, r)[i]) by {
        if i < rest.len() {
            assert(rest.contains(rest[i]));
            assert(s.filter(not_id(r.id)).contains(rest[i]));
            assert(s.contains(rest[i]));
            let k = choose|k: int| 0 <= k < s.len() && s[k] == rest[i];
            assert(holds(s[k]));
        }
    }
}

/// A filter keeps what holds of every record.
proof fn lemma_filter_keeps(
    s: Seq<TaskRecord>,
    test: spec_fn(TaskRecord) -> bool,
    holds: spec_fn(TaskRecord) -> bool,
)
    requires
        forall|i: int| 0 <= i < s.len() ==> holds(#[trigger] s[i]),
    ensures
        forall|i: int| 0 <= i < s.filter(test).len() ==> holds(#[trigger] s.filter(test)[i]),
{
    lemma_filter_members(s, test);
    assert forall|i: int| 0 <= i < s.filter(test).len() implies holds(
        #[trigger] s.filter(test)[i],
    ) by {
        assert(s.filter(test).contains(s.filter(test)[i]));
        assert(s.contains(s.filter(test)[i]));
        let k = choose|k: int| 0 <= k < s.len() && s[k] == s.filter(test)[i];
        assert(holds(s[k]));
    }
}

/// A task that is kept in memory only never reaches the durable table:
/// where the table holds persistent tasks only, it still does after any
/// operation of the registry.
pub proof fn law_table_holds_persistent_tasks_only(
    state: RegistryState,
    id: Seq<char>,
    task_type: Seq<char>,
    input: serde_json::Value,
    max_retries: u8,
    status: TaskStatus,
    pct: u8,
    message: Option<Seq<char>>,
    result: Option<serde_json::Value>,
    error: Seq<char>,
    task: TaskRecord,
    max_age_ms: i64,
    now: i64,
)
    requires
        state.wf(),
        stores_persistent_only(state),
    ensures
        stores_persistent_only(state.created(id, task_type, now)),
        stores_persistent_only(state.created_persistent(id, task_type, now)),
        stores_persistent_only(
            state.created_persistent_with_input(id, task_type, input, max_retries, now),
        ),
        stores_persistent_only(state.added(task)),
        stores_persistent_only(state.status_updated(id, status, now)),
        stores_persistent_only(state.progressed(id, pct, message, now)),
        stores_persistent_only(state.completed(id, result, now)),
        stores_persistent_only(state.failed(id, error, now)),
        stores_persistent_only(state.cancelled(id, now)),
        stores_persistent_only(state.retried(id, now)),
        stores_persistent_only(state.removed(id)),
        stores_persistent_only(state.cleaned(max_age_ms, now)),
        stores_persistent_only(state.loaded(now)),
{
    if state.store.is_some() {
        let rows = state.store.unwrap();
        let holds = |r: TaskRecord| r.persistent;
        lemma_upsert_keeps(
            rows,
            created_persistent_record(id, task_type, None, DEFAULT_MAX_RETRIES, now),
            holds,
        );
        lemma_upsert_keeps(
            rows,
            created_persistent_record(id, task_type, Some(input), max_retries, now),
            holds,
        );
        lemma_filter_keeps(rows, not_id(id), holds);
        lemma_filter_keeps(rows, unexpired(now - max_age_ms, true), holds);
        assert(all_persistent(recovered(rows, now))) by {
            assert forall|i: int| 0 <= i < rows.len() implies (#[trigger] recovered(
                rows,
                now,
            )[i]).persistent by {
                assert(rows[i].persistent);
            }
        }
        assert forall|change: spec_fn(TaskRecord) -> TaskRecord|
            (forall|r: TaskRecord| (#[trigger] change(r)).persistent == r.persistent)
                implies all_persistent(#[trigger] update_where_id(rows, id, change)) by {
            assert forall|i: int| 0 <= i < rows.len() implies (#[trigger] update_where_id(
                rows,
                id,
                change,
            )[i]).persistent by {
                assert(rows[i].persistent);
            }
        }
    }
}

/// The registry keeps its records well formed: where every task in memory
/// is well formed, every task still is after a task was created, had its
/// status set, reported progress, completed, failed, was cancelled, retried
/// or removed, and after a cleanup.
pub proof fn law_registry_keeps_records_well_formed(
    state: RegistryState,
    id: Seq<char>,
    status: TaskStatus,
    task_type: Seq<char>,
    input: serde_json::Value,
    max_retries: u8,
    pct: u8,
    message: Option<Seq<char>>,
    result: Option<serde_json::Value>,
    error: Seq<char>,
    max_age_ms: i64,
    now: i64,
)
    requires
        state.wf(),
        all_well_formed(state.tasks),
    ensures
        all_well_formed(state.created(id, task_type, now).tasks),
        all_well_formed(state.created_persistent(id, task_type, now).tasks),
        all_well_formed(
            state.created_persistent_with_input(id, task_type, input, max_retries, now).tasks,
        ),
        all_well_formed(state.progressed(id, pct, message, now).tasks),
        all_well_formed(state.completed(id, result, now).tasks),
        all_well_formed(state.failed(id, error, now).tasks),
        all_well_formed(state.cancelled(id, now).tasks),
        all_well_formed(state.retried(id, now).tasks),
        all_well_formed(state.removed(id).tasks),
        all_well_formed(state.cleaned(max_age_ms, now).tasks),
        all_well_formed(state.status_updated(id, status, now).tasks),
{
    let tasks = state.tasks;
    let holds = |r: TaskRecord| r.wf();
    lemma_upsert_keeps(tasks, TaskRecord::created(id, task_type, now), holds);
    lemma_upsert_keeps(
        tasks,
        created_persistent_record(id, task_type, None, DEFAULT_MAX_RETRIES, now),
        holds,
    );
    lemma_upsert_keeps(
        tasks,
        created_persistent_record(id, task_type, Some(input), max_retries, now),
        holds,
    );
    lemma_filter_keeps(tasks, not_id(id), holds);
    lemma_filter_keeps(tasks, unexpired(now - max_age_ms, false), holds);
    assert forall|i: int| 0 <= i < tasks.len() implies (#[trigger] state.progressed(
        id,
        pct,
        message,
        now,
    ).tasks[i]).wf() by {
        assert(tasks[i].wf());
    }
    assert forall|i: int| 0 <= i < tasks.len() implies (#[trigger] state.completed(
        id,
        result,
        now,
    ).tasks[i]).wf() by {
        assert(tasks[i].wf());
    }
    assert forall|i: int| 0 <= i < tasks.len() implies (#[trigger] state.failed(
        id,
        error,
        now,
    ).tasks[i]).wf() by {
        assert(tasks[i].wf());
    }
    if state.can_cancel(id) {
        let k = choose|k: int| 0 <= k < tasks.len() && tasks[k].id == id;
        lemma_lookup_at(tasks, k);
        assert forall|i: int| 0 <= i < tasks.len() implies (#[trigger] state.cancelled(
            id,
            now,
        ).tasks[i]).wf() by {
            assert(tasks[i].wf());
        }
    }
    assert forall|i: int| 0 <= i < tasks.len() implies (#[trigger] state.status_updated(
        id,
        status,
        now,
    ).tasks[i]).wf() by {
        assert(tasks[i].wf());
    }
    if state.can_retry(id) {
        assert forall|i: int| 0 <= i < tasks.len() implies (#[trigger] state.retried(
            id,
            now,
        ).tasks[i]).wf() by {
            assert(tasks[i].wf());
            if tasks[i].id == id {
                lemma_lookup_at(tasks, i);
            }
        }
    }
}

/// Whether the table is in step with memory on the task `id`: where a
/// change of the task is written to the table, the table holds the task as
/// memory does.
pub open spec fn in_step(state: RegistryState, id: Seq<char>) -> bool {
    state.mirrors(id) ==> lookup(state.store.unwrap(), id) == state.task(id)
}

/// The table follows memory. A persistent task is in step from its
/// creation on, and every operation on a task keeps each task in step that
/// was in step before.
pub proof fn law_table_follows_memory(
    state: RegistryState,
    id: Seq<char>,
    other: Seq<char>,
    task_type: Seq<char>,
    input: serde_json::Value,
    max_retries: u8,
    status: TaskStatus,
    pct: u8,
    message: Option<Seq<char>>,
    result: Option<serde_json::Value>,
    error: Seq<char>,
    now: i64,
)
    requires
        state.wf(),
        in_step(state, other),
    ensures
        in_step(state.created_persistent(id, task_type, now), id),
        in_step(state.created_persistent_with_input(id, task_type, input, max_retries, now), id),
        in_step(state.status_updated(id, status, now), other),
        in_step(state.progressed(id, pct, message, now), other),
        in_step(state.completed(id, result, now), other),
        in_step(state.failed(id, error, now), other),
        in_step(state.cancelled(id, now), other),
        in_step(state.retried(id, now), other),
{
    lemma_upsert(
        state.tasks,
        created_persistent_record(id, task_type, None, DEFAULT_MAX_RETRIES, now),
    );
    lemma_upsert(
        state.tasks,
        created_persistent_record(id, task_type, Some(input), max_retries, now),
    );
    lemma_update_where_id(state.tasks, id, status_change(status, now));
    lemma_update_where_id(state.tasks, id, progress_change(pct, message, now));
    lemma_update_where_id(state.tasks, id, completion(result, now));
    lemma_update_where_id(state.tasks, id, failure(error, now));
    lemma_update_where_id(state.tasks, id, cancellation(now));
    lemma_update_where_id(state.tasks, id, retry(now));
    if state.store.is_some() {
        let rows = state.store.unwrap();
        lemma_upsert(
            rows,
            created_persistent_record(id, task_type, None, DEFAULT_MAX_RETRIES, now),
        );
        lemma_upsert(rows, created_persistent_record(id, task_type, Some(input), max_retries, now));
        if state.task(id).is_some() {
            let r = state.task(id).unwrap();
            lemma_update_where_id(
                rows,
                id,
                set_status_fields(
                    status,
                    r.progress,
                    r.message,
                    now,
                    r.with_status(status, now).completed_at,
                ),
            );
            lemma_update_where_id(
                rows,
                id,
                set_status_fields(
                    r.status,
                    r.with_progress(pct, message, now).progress,
                    message,
                    now,
                    r.completed_at,
                ),
            );
            lemma_update_where_id(rows, id, set_result_fields(result, now, now));
            lemma_update_where_id(rows, id, set_error_fields(error, now, now));
            lemma_update_where_id(
                rows,
                id,
                set_status_fields(TaskStatus::Cancelled, r.progress, r.message, now, Some(now)),
            );
            lemma_update_where_id(rows, id, set_retry_fields(r.retried(now).retry_count, now));
        }
    }
}

/// A listing of the table holds exactly the rows that pass the test, each
/// as often as the table does, and the oldest comes first.
pub proof fn law_listing_is_oldest_first(rows: Seq<TaskRecord>, test: spec_fn(TaskRecord) -> bool)
    ensures
        sorted_by_created(selected(rows, test)),
        selected(rows, test).to_multiset() == rows.filter(test).to_multiset(),
        forall|r: TaskRecord| selected(rows, test).contains(r) <==> (rows.contains(r) && test(r)),
{
    lemma_sort_by_created(rows.filter(test));
    lemma_filter_members(rows, test);
}

/// A task that has ended for good stays as it is under cancellation and
/// retry: neither applies to a completed or cancelled task, nor to a
/// failed one whose retries are used up.
pub proof fn law_ended_tasks_stay_ended(state: RegistryState, id: Seq<char>, now: i64)
    requires
        state.wf(),
        state.task(id).is_some(),
        ({
            let r = state.task(id).unwrap();
            ||| r.status == TaskStatus::Completed
            ||| r.status == TaskStatus::Cancelled
            ||| (r.status == TaskStatus::Failed && r.retry_count >= r.max_retries)
        }),
    ensures
        !state.can_cancel(id),
        !state.can_retry(id),
        state.cancelled(id, now) == state,
        state.retried(id, now) == state,
{
}

/// In memory and in the table, an identifier names at most one task, and
/// every operation of the registry keeps it so.
pub proof fn law_one_record_for_each_identifier(
    state: RegistryState,
    id: Seq<char>,
    task_type: Seq<char>,
    input: serde_json::Value,
    max_retries: u8,
    status: TaskStatus,
    pct: u8,
    message: Option<Seq<char>>,
    result: Option<serde_json::Value>,
    error: Seq<char>,
    task: TaskRecord,
    max_age_ms: i64,
    now: i64,
)
    requires
        state.wf(),
    ensures
        state.created(id, task_type, now).wf(),
        state.created_persistent(id, task_type, now).wf(),
        state.created_persistent_with_input(id, task_type, input, max_retries, now).wf(),
        state.added(task).wf(),
        state.status_updated(id, status, now).wf(),
        state.progressed(id, pct, message, now).wf(),
        state.completed(id, result, now).wf(),
        state.failed(id, error, now).wf(),
        state.cancelled(id, now).wf(),
        state.retried(id, now).wf(),
        state.removed(id).wf(),
        state.cleaned(max_age_ms, now).wf(),
        state.loaded(now).wf(),
{
    let tasks = state.tasks;
    let plain = created_persistent_record(id, task_type, None, DEFAULT_MAX_RETRIES, now);
    let with_input = created_persistent_record(id, task_type, Some(input), max_retries, now);
    lemma_upsert(tasks, TaskRecord::created(id, task_type, now));
    lemma_upsert(tasks, plain);
    lemma_upsert(tasks, with_input);
    lemma_upsert(tasks, task);
    lemma_update_where_id(tasks, id, status_change(status, now));
    lemma_update_where_id(tasks, id, progress_change(pct, message, now));
    lemma_update_where_id(tasks, id, completion(result, now));
    lemma_update_where_id(tasks, id, failure(error, now));
    lemma_update_where_id(tasks, id, cancellation(now));
    lemma_update_where_id(tasks, id, retry(now));
    lemma_filter_unique(tasks, not_id(id));
    lemma_filter_unique(tasks, unexpired(now - max_age_ms, false));
    lemma_saved_all_unique(tasks, state.loadable(now));
    if state.store.is_some() {
        let rows = state.store.unwrap();
        lemma_upsert(rows, plain);
        lemma_upsert(rows, with_input);
        lemma_filter_unique(rows, not_id(id));
        lemma_filter_unique(rows, unexpired(now - max_age_ms, true));
        lemma_recovered(rows, now);
        if state.task(id).is_some() {
            let r = state.task(id).unwrap();
            lemma_update_where_id(
                rows,
                id,
                set_status_fields(
                    status,
                    r.progress,
                    r.message,
                    now,
                    r.with_status(status, now).completed_at,
                ),
            );
            lemma_update_where_id(
                rows,
                id,
                set_status_fields(
                    r.status,
                    r.with_progress(pct, message, now).progress,
                    message,
                    now,
                    r.completed_at,
                ),
            );
            lemma_update_where_id(rows, id, set_result_fields(result, now, now));
            lemma_update_where_id(rows, id, set_error_fields(error, now, now));
            lemma_update_where_id(
                rows,
                id,
                set_status_fields(TaskStatus::Cancelled, r.progress, r.message, now, Some(now)),
            );
            lemma_update_where_id(rows, id, set_retry_fields(r.retried(now).retry_count, now));
        }
    }
}

} // verus!
