//! The command surface of the registry: what a user interface asks for, and
//! the plans of the three routines that it can start.

use vstd::prelude::*;
use vstd::string::StringExecFns;
use crate::dto::{CloneRepositoryTaskDto, ImportFilesTaskDto, IndexRepositoryTaskDto};
use crate::ident::is_uuid_v4_text;
use crate::text::{decimal, decimal_text, joined};
use super::events::{
    entries, number_entry, number_field, text_entry, text_field, PayloadEntry, PayloadField,
};
use super::info::{TaskHandle, TaskInfo, TaskRecord};
use super::manager::TaskManager;
use super::status::TaskStatus;
use super::store::has_type;
use super::table::records;

verus! {

/// The age, in milliseconds, beyond which a cleanup without an age drops
/// tasks: one hour.
pub const DEFAULT_CLEANUP_AGE_MS: i64 = 3600000;

/// The age that a cleanup goes by.
pub open spec fn cleanup_age(max_age_ms: Option<i64>) -> i64 {
    match max_age_ms {
        Some(age) => age,
        None => DEFAULT_CLEANUP_AGE_MS,
    }
}

/// The branch that is cloned where the caller names none.
pub open spec fn default_branch() -> Seq<char> {
    "main"@
}

/// The task of `task_id`, or the message that there is none.
pub fn get_task(task_id: String, task_manager: &TaskManager) -> (found: Result<TaskInfo, String>)
    requires
        task_manager@.wf(),
    ensures
        match found {
            Ok(t) => task_manager@.task(task_id@) == Some(t@),
            Err(e) => task_manager@.task(task_id@).is_none() && e@ == "Task not found: "@ + task_id@,
        },
{
    match task_manager.get_task(task_id.as_str()) {
        Some(task) => Ok(task),
        None => Err(joined("Task not found: ", task_id.as_str())),
    }
}

/// The tasks of type `task_type`, or all tasks where no type is given.
pub fn list_tasks(task_type: Option<String>, task_manager: &TaskManager) -> (tasks: Vec<TaskInfo>)
    ensures
        records(tasks@) == match task_type {
            Some(t) => task_manager@.tasks.filter(has_type(t@)),
            None => task_manager@.tasks,
        },
{
    match task_type {
        Some(t) => task_manager.list_tasks_by_type(t.as_str()),
        None => task_manager.list_tasks(),
    }
}

/// Cancels the task of `task_id`. Where the cancellation does not apply,
/// the message that it cannot be cancelled comes back and nothing changes.
pub fn cancel_task(task_id: String, task_manager: &mut TaskManager) -> (done: Result<bool, String>)
    requires
        old(task_manager)@.wf(),
    ensures
        exists|now: i64| final(task_manager)@ == old(task_manager)@.cancelled(task_id@, now),
        match done {
            Ok(yes) => yes && old(task_manager)@.can_cancel(task_id@),
            Err(e) => !old(task_manager)@.can_cancel(task_id@) && final(task_manager)@ == old(
                task_manager,
            )@ && e@ == "Cannot cancel task: "@ + task_id@,
        },
        final(task_manager)@.wf(),
{
    if task_manager.cancel(task_id.as_str()) {
        Ok(true)
    } else {
        Err(joined("Cannot cancel task: ", task_id.as_str()))
    }
}

/// Drops the tasks that completed more than `max_age_ms` ago, or more than
/// [`DEFAULT_CLEANUP_AGE_MS`] ago where no age is given.
pub fn cleanup_tasks(max_age_ms: Option<i64>, task_manager: &mut TaskManager) -> (done: Result<
    (),
    String,
>)
    requires
        old(task_manager)@.wf(),
    ensures
        done.is_ok(),
        exists|now: i64|
            final(task_manager)@ == old(task_manager)@.cleaned(cleanup_age(max_age_ms), now),
        final(task_manager)@.wf(),
{
    let age = match max_age_ms {
        Some(age) => age,
        None => DEFAULT_CLEANUP_AGE_MS,
    };
    task_manager.cleanup_completed(age);
    proof {
        let now = choose|now: i64| task_manager@ == old(task_manager)@.cleaned(age, now);
        assert(task_manager@ == old(task_manager)@.cleaned(cleanup_age(max_age_ms), now));
    }
    Ok(())
}

/// One progress report of a routine and the pause that follows it.
#[derive(Debug)]
pub struct ProgressStep {
    pub progress: u8,
    pub message: String,
    pub pause_ms: u64,
}

/// What a [`ProgressStep`] holds.
pub struct StepRecord {
    pub progress: u8,
    pub message: Seq<char>,
    pub pause_ms: u64,
}

impl View for ProgressStep {
    type V = StepRecord;

    open spec fn view(&self) -> StepRecord {
        StepRecord { progress: self.progress, message: self.message@, pause_ms: self.pause_ms }
    }
}

/// The steps of a vector, in its order.
pub open spec fn step_records(steps: Seq<ProgressStep>) -> Seq<StepRecord> {
    steps.map_values(|s: ProgressStep| s@)
}

/// A started task: the handle for the caller, the reports that the
/// routine makes, in turn, between `set_running` and `complete`, and the
/// result that it completes with.
#[derive(Debug)]
pub struct TaskPlan {
    pub handle: TaskHandle,
    pub steps: Vec<ProgressStep>,
    pub result: Vec<PayloadField>,
}

/// The result of the routine that clones `url` at `branch`.
pub open spec fn clone_result(url: Seq<char>, branch: Seq<char>) -> Seq<PayloadEntry> {
    seq![
        text_entry("url"@, url),
        text_entry("branch"@, branch),
        text_entry("status"@, "cloned"@),
    ]
}

/// The result of the routine that indexes the repository
/// `repository_id`.
pub open spec fn index_result(repository_id: Seq<char>) -> Seq<PayloadEntry> {
    seq![text_entry("repositoryId"@, repository_id), text_entry("status"@, "indexed"@)]
}

/// The result of the routine that imports `total` files.
pub open spec fn import_result(total: nat) -> Seq<PayloadEntry> {
    seq![number_entry("imported"@, total as u64), text_entry("status"@, "completed"@)]
}

/// What a routine tells the user interface when it has completed: the
/// identifier and the type of its task.
pub open spec fn completion_notice(handle: TaskHandle) -> Seq<PayloadEntry> {
    seq![text_entry("taskId"@, handle.task_id@), text_entry("taskType"@, handle.task_type@)]
}

/// The branch that `dto` asks for, or `main`.
pub open spec fn branch_of(dto: CloneRepositoryTaskDto) -> Seq<char> {
    match dto.branch {
        Some(b) => b@,
        None => default_branch(),
    }
}

/// What a routine tells the user interface when it has completed.
pub fn routine_completed(handle: &TaskHandle) -> (fields: Vec<PayloadField>)
    ensures
        entries(fields@) == completion_notice(*handle),
{
    let mut fields: Vec<PayloadField> = Vec::new();
    fields.push(text_field("taskId", handle.task_id.as_str()));
    fields.push(text_field("taskType", handle.task_type.as_str()));
    assert(entries(fields@) =~= completion_notice(*handle));
    fields
}

/// The reports of the routine that clones a repository.
pub open spec fn clone_steps() -> Seq<StepRecord> {
    seq![
        StepRecord { progress: 10, message: "Preparing to clone..."@, pause_ms: 0 },
        StepRecord { progress: 30, message: "Cloning repository..."@, pause_ms: 100 },
        StepRecord { progress: 60, message: "Processing files..."@, pause_ms: 100 },
        StepRecord { progress: 90, message: "Finalizing..."@, pause_ms: 0 },
    ]
}

/// The reports of the routine that indexes a repository.
pub open spec fn index_steps() -> Seq<StepRecord> {
    seq![
        StepRecord { progress: 10, message: "Scanning files..."@, pause_ms: 100 },
        StepRecord { progress: 30, message: "Parsing AST..."@, pause_ms: 100 },
        StepRecord { progress: 60, message: "Building index..."@, pause_ms: 100 },
        StepRecord { progress: 80, message: "Generating embeddings..."@, pause_ms: 100 },
    ]
}

/// The pause after each imported file, in milliseconds.
pub const IMPORT_PAUSE_MS: u64 = 50;

/// The percentage reached when `done` of `total` files are imported.
pub open spec fn import_percent(done: nat, total: nat) -> nat
    recommends
        0 < total,
{
    done * 100 / total
}

/// The report after file number `done` of `total`, with the path `path`.
pub open spec fn import_step(path: Seq<char>, done: nat, total: nat) -> StepRecord {
    StepRecord {
        progress: import_percent(done, total) as u8,
        message: "Importing "@ + path + " ("@ + decimal_text(done) + "/"@ + decimal_text(total)
            + ")"@,
        pause_ms: IMPORT_PAUSE_MS,
    }
}

/// Whether `plan` is the start of a task of type `task_type` in
/// `after`, a registry that was `before`: the task is new and pending, and
/// the handle names it.
pub open spec fn starts(
    before: super::state::RegistryState,
    after: super::state::RegistryState,
    handle: TaskHandle,
    task_type: Seq<char>,
) -> bool {
    &&& handle.task_type@ == task_type
    &&& handle.status == TaskStatus::Pending
    &&& exists|now: i64|
        after == before.created(handle.task_id@, task_type, now) && after.task(handle.task_id@)
            == Some(TaskRecord::created(handle.task_id@, task_type, now))
}

/// Creates a task of type `task_type` and hands back its handle.
pub fn start_task(task_manager: &mut TaskManager, task_type: &str) -> (handle: TaskHandle)
    requires
        old(task_manager)@.wf(),
    ensures
        starts(old(task_manager)@, final(task_manager)@, handle, task_type@),
        is_uuid_v4_text(handle.task_id@),
        final(task_manager)@.wf(),
{
    let task = task_manager.create_task(task_type);
    proof {
        let (id, now) = choose|id: Seq<char>, now: i64|
            task_manager@ == old(task_manager)@.created(id, task_type@, now) && task@
                == TaskRecord::created(id, task_type@, now);
        super::table::lemma_upsert(old(task_manager)@.tasks, task@);
        assert(task_manager@ == old(task_manager)@.created(task.id@, task_type@, now));
    }
    TaskHandle { task_id: task.id, task_type: task.task_type, status: TaskStatus::Pending }
}

/// The percentage reached when `done` of `total` files are imported.
pub fn import_progress(done: usize, total: usize) -> (pct: u8)
    requires
        0 < done <= total,
    ensures
        pct == import_percent(done as nat, total as nat),
        pct <= 100,
{
    let scaled: u128 = (done as u128) * 100;
    let pct: u128 = scaled / (total as u128);
    assert(pct <= 100) by (nonlinear_arith)
        requires
            0 < done <= total,
            scaled == done * 100,
            pct == scaled / (total as u128),
    ;
    pct as u8
}

/// One report of a routine.
fn step(progress: u8, message: &str, pause_ms: u64) -> (s: ProgressStep)
    ensures
        s@ == (StepRecord { progress, message: message@, pause_ms }),
{
    ProgressStep { progress, message: message.to_owned(), pause_ms }
}

/// Starts the routine that clones a repository: creates its task and plans
/// its reports.
pub fn clone_repository_task(task_manager: &mut TaskManager, dto: &CloneRepositoryTaskDto) -> (plan:
    TaskPlan)
    requires
        old(task_manager)@.wf(),
    ensures
        starts(old(task_manager)@, final(task_manager)@, plan.handle, "clone_repository"@),
        is_uuid_v4_text(plan.handle.task_id@),
        step_records(plan.steps@) == clone_steps(),
        entries(plan.result@) == clone_result(dto.url@, branch_of(*dto)),
        final(task_manager)@.wf(),
{
    let handle = start_task(task_manager, "clone_repository");
    let mut steps: Vec<ProgressStep> = Vec::new();
    steps.push(step(10, "Preparing to clone...", 0));
    steps.push(step(30, "Cloning repository...", 100));
    steps.push(step(60, "Processing files...", 100));
    steps.push(step(90, "Finalizing...", 0));
    assert(step_records(steps@) =~= clone_steps());
    let branch = clone_branch(dto);
    let mut result: Vec<PayloadField> = Vec::new();
    result.push(text_field("url", dto.url.as_str()));
    result.push(text_field("branch", branch.as_str()));
    result.push(text_field("status", "cloned"));
    assert(entries(result@) =~= clone_result(dto.url@, branch_of(*dto)));
    TaskPlan { handle, steps, result }
}

/// The branch that a clone checks out: the one the caller names, or
/// `main`.
pub fn clone_branch(dto: &CloneRepositoryTaskDto) -> (branch: String)
    ensures
        branch@ == branch_of(*dto),
{
    match &dto.branch {
        Some(b) => b.clone(),
        None => "main".to_owned(),
    }
}

/// Starts the routine that indexes a repository: creates its task and plans
/// its reports.
pub fn index_repository_task(task_manager: &mut TaskManager, dto: &IndexRepositoryTaskDto) -> (plan:
    TaskPlan)
    requires
        old(task_manager)@.wf(),
    ensures
        starts(old(task_manager)@, final(task_manager)@, plan.handle, "index_repository"@),
        is_uuid_v4_text(plan.handle.task_id@),
        step_records(plan.steps@) == index_steps(),
        entries(plan.result@) == index_result(dto.repository_id@),
        final(task_manager)@.wf(),
{
    let handle = start_task(task_manager, "index_repository");
    let mut steps: Vec<ProgressStep> = Vec::new();
    steps.push(step(10, "Scanning files...", 100));
    steps.push(step(30, "Parsing AST...", 100));
    steps.push(step(60, "Building index...", 100));
    steps.push(step(80, "Generating embeddings...", 100));
    assert(step_records(steps@) =~= index_steps());
    let mut result: Vec<PayloadField> = Vec::new();
    result.push(text_field("repositoryId", dto.repository_id.as_str()));
    result.push(text_field("status", "indexed"));
    assert(entries(result@) =~= index_result(dto.repository_id@));
    TaskPlan { handle, steps, result }
}

/// Starts the routine that imports files: creates its task and plans one
/// report for each path, with the share of the files that are then done.
pub fn import_files_task(
    task_manager: &mut TaskManager,
    dto: &ImportFilesTaskDto,
) -> (plan: TaskPlan)
    requires
        old(task_manager)@.wf(),
    ensures
        starts(old(task_manager)@, final(task_manager)@, plan.handle, "import_files"@),
        is_uuid_v4_text(plan.handle.task_id@),
        plan.steps.len() == dto.paths.len(),
        forall|i: int|
            0 <= i < plan.steps.len() ==> (#[trigger] plan.steps[i])@ == import_step(
                dto.paths[i]@,
                (i + 1) as nat,
                dto.paths.len() as nat,
            ),
        entries(plan.result@) == import_result(dto.paths.len() as nat),
        final(task_manager)@.wf(),
{
    let handle = start_task(task_manager, "import_files");
    let total = dto.paths.len();
    let mut steps: Vec<ProgressStep> = Vec::new();
    let mut i: usize = 0;
    while i < total
        invariant
            i <= total,
            total == dto.paths.len(),
            steps.len() == i,
            forall|j: int|
                0 <= j < i ==> (#[trigger] steps[j])@ == import_step(
                    dto.paths[j]@,
                    (j + 1) as nat,
                    total as nat,
                ),
        decreases total - i,
    {
        let progress = import_progress(i + 1, total);
        let mut message = joined("Importing ", dto.paths[i].as_str());
        message.append(" (");
        message.append(decimal(i + 1).as_str());
        message.append("/");
        message.append(decimal(total).as_str());
        message.append(")");
        steps.push(ProgressStep { progress, message, pause_ms: IMPORT_PAUSE_MS });
        i = i + 1;
    }
    let mut result: Vec<PayloadField> = Vec::new();
    result.push(number_field("imported", total as u64));
    result.push(text_field("status", "completed"));
    assert(entries(result@) =~= import_result(total as nat));
    TaskPlan { handle, steps, result }
}

} // verus!
