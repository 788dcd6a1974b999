//! Scraping tasks: ownership, quotas by tier, and the state shown for a task.
use vstd::prelude::*;
use crate::enums::ProductEdition;

verus! {

/// Engine kind named in a task's schedule.
#[derive(Clone, Copy, Debug, PartialEq, Eq, Structural)]
pub enum ScheduleType {
    Fast,
    Browser,
}

/// When and how a task runs.
pub struct ScheduleData {
    pub cron: String,
    pub proxy_id: i32,
    pub ty: ScheduleType,
}

/// A task's metadata. Its rule is an opaque document kept elsewhere.
pub struct ScraperTask {
    pub id: i64,
    pub user_id: i64,
    pub name: String,
    pub data: Option<ScheduleData>,
    /// Soft deletion; a deleted task counts as completed.
    pub deleted: bool,
}

/// Why a task operation was refused.
#[derive(Clone, Copy, Debug, PartialEq, Eq, Structural)]
pub enum TaskError {
    /// No task has the id.
    NotFound,
    /// The task belongs to another user.
    Forbidden,
    /// More tasks in one batch than a batch may hold.
    BatchTooLarge,
    /// The user's quota of tasks is reached; says what the user can do.
    LimitReached(LimitNotice),
}

/// What a user who reached the quota is told.
#[derive(Clone, Copy, Debug, PartialEq, Eq, Structural)]
pub enum LimitNotice {
    /// Anonymous users get one task: sign in for more.
    SignInRequired,
    /// The free tier's quota: upgrade for more.
    UpgradeRequired,
    /// The quota of a paid tier is reached.
    QuotaReached,
}

/// The state a task is shown in.
#[derive(Clone, Copy, Debug, PartialEq, Eq, Structural)]
pub enum TaskState {
    /// Not scheduled yet.
    Pending,
    /// Scheduled and not deleted.
    Running,
    /// Deleted.
    Completed,
}

/// Most tasks one batch may add.
pub const MAX_BATCH: usize = 10;

/// Most active tasks a user of tier `edition` may have (`None`: not signed in).
pub open spec fn spec_task_limit(edition: Option<ProductEdition>) -> u64 {
    match edition {
        None => 1,
        Some(ProductEdition::L0) => 3,
        Some(ProductEdition::L1) => 10,
        Some(ProductEdition::L2) => 50,
        Some(ProductEdition::L3) => 200,
    }
}

/// Most active tasks a user of tier `edition` may have (`None`: not signed in).
pub fn task_limit(edition: Option<ProductEdition>) -> (r: u64)
    ensures
        r == spec_task_limit(edition),
{
    match edition {
        None => 1,
        Some(ProductEdition::L0) => 3,
        Some(ProductEdition::L1) => 10,
        Some(ProductEdition::L2) => 50,
        Some(ProductEdition::L3) => 200,
    }
}

pub open spec fn limit_notice(edition: Option<ProductEdition>) -> LimitNotice {
    match edition {
        None => LimitNotice::SignInRequired,
        Some(ProductEdition::L0) => LimitNotice::UpgradeRequired,
        _ => LimitNotice::QuotaReached,
    }
}

/// Whether a user with `current_count` active tasks may add one more.
pub fn check_task_limit(current_count: u64, user_edition: Option<ProductEdition>) -> (r: Result<
    (),
    TaskError,
>)
    ensures
        r.is_ok() <==> current_count < spec_task_limit(user_edition),
        r.is_err() ==> r == Err::<(), TaskError>(
            TaskError::LimitReached(limit_notice(user_edition)),
        ),
{
    if current_count >= task_limit(user_edition) {
        let notice = match user_edition {
            None => LimitNotice::SignInRequired,
            Some(ProductEdition::L0) => LimitNotice::UpgradeRequired,
            _ => LimitNotice::QuotaReached,
        };
        return Err(TaskError::LimitReached(notice));
    }
    Ok(())
}

/// Whether a signed-in user of tier `edition` with `current_count` active
/// tasks may add `batch_len` more at once.
pub fn check_batch_limit(current_count: u64, batch_len: usize, edition: ProductEdition) -> (r:
    Result<(), TaskError>)
    ensures
        batch_len > MAX_BATCH ==> r == Err::<(), TaskError>(TaskError::BatchTooLarge),
        batch_len <= MAX_BATCH ==> (r.is_ok() <==> current_count + batch_len <= spec_task_limit(
            Some(edition),
        )),
        batch_len <= MAX_BATCH && r.is_err() ==> r == Err::<(), TaskError>(
            TaskError::LimitReached(
                if edition == ProductEdition::L0 {
                    LimitNotice::UpgradeRequired
                } else {
                    LimitNotice::QuotaReached
                },
            ),
        ),
{
    if batch_len > MAX_BATCH {
        return Err(TaskError::BatchTooLarge);
    }
    let limit = task_limit(Some(edition));
    if current_count > limit || batch_len as u64 > limit - current_count {
        let notice = match edition {
            ProductEdition::L0 => LimitNotice::UpgradeRequired,
            _ => LimitNotice::QuotaReached,
        };
        return Err(TaskError::LimitReached(notice));
    }
    Ok(())
}

/// No two tasks share an id.
pub open spec fn task_ids_unique(tasks: Seq<ScraperTask>) -> bool {
    forall|a: int, b: int| 0 <= a < b < tasks.len() ==> tasks[a].id != tasks[b].id
}

/// Some task has id `id` and belongs to someone other than `uid`.
pub open spec fn owned_by_other(tasks: Seq<ScraperTask>, id: i64, uid: i64) -> bool {
    exists|k: int| 0 <= k < tasks.len() && #[trigger] tasks[k].id == id && tasks[k].user_id != uid
}

/// Position of the task `id` in `tasks` when it belongs to `uid`.
pub fn find_check_task(tasks: &Vec<ScraperTask>, id: i64, uid: i64) -> (r: Result<usize, TaskError>)
    requires
        task_ids_unique(tasks@),
    ensures
        (r == Err::<usize, TaskError>(TaskError::Forbidden)) <==> owned_by_other(tasks@, id, uid),
        (r == Err::<usize, TaskError>(TaskError::NotFound)) <==> forall|k: int|
            0 <= k < tasks@.len() ==> #[trigger] tasks@[k].id != id,
        r matches Ok(i) ==> i < tasks@.len() && tasks@[i as int].id == id && tasks@[i as int].user_id
            == uid,
        r.is_ok() || r == Err::<usize, TaskError>(TaskError::NotFound) || r == Err::<
            usize,
            TaskError,
        >(TaskError::Forbidden),
{
    let mut i: usize = 0;
    while i < tasks.len()
        invariant
            task_ids_unique(tasks@),
            i <= tasks@.len(),
            forall|k: int| 0 <= k < i ==> #[trigger] tasks@[k].id != id,
        decreases tasks@.len() - i,
    {
        if tasks[i].id == id {
            if tasks[i].user_id != uid {
                return Err(TaskError::Forbidden);
            }
            proof {
                assert forall|k: int| 0 <= k < tasks@.len() && #[trigger] tasks@[k].id == id implies tasks@[k].user_id == uid by {
                    if k != i {
                        if k < i {
                            assert(tasks@[k].id != tasks@[i as int].id);
                        } else {
                            assert(tasks@[i as int].id != tasks@[k].id);
                        }
                    }
                }
            }
            return Ok(i);
        }
        i = i + 1;
    }
    Err(TaskError::NotFound)
}

/// Soft-deletes task `id` on behalf of `uid`, who must own it: it succeeds
/// exactly when the task exists and is not someone else's.
pub fn delete_task(tasks: &mut Vec<ScraperTask>, id: i64, uid: i64) -> (r: Result<usize, TaskError>)
    requires
        task_ids_unique(old(tasks)@),
    ensures
        (r == Err::<usize, TaskError>(TaskError::Forbidden)) <==> owned_by_other(old(tasks)@, id, uid),
        final(tasks)@.len() == old(tasks)@.len(),
        (r == Err::<usize, TaskError>(TaskError::NotFound)) <==> forall|k: int|
            0 <= k < old(tasks)@.len() ==> #[trigger] old(tasks)@[k].id != id,
        r.is_err() ==> final(tasks)@ == old(tasks)@,
        r matches Ok(i) ==> i < old(tasks)@.len() && old(tasks)@[i as int].id == id && old(tasks)@[i as int].user_id == uid && final(tasks)@ == old(tasks)@.update(
            i as int,
            ScraperTask { deleted: true, ..old(tasks)@[i as int] },
        ),
        r.is_ok() || r == Err::<usize, TaskError>(TaskError::NotFound) || r == Err::<
            usize,
            TaskError,
        >(TaskError::Forbidden),
{
    let i = find_check_task(tasks, id, uid)?;
    tasks[i].deleted = true;
    assert(tasks@ =~= old(tasks)@.update(i as int, ScraperTask { deleted: true, ..old(tasks)@[i as int] }));
    Ok(i)
}

/// Replaces the schedule of task `id` on behalf of `uid`, who must own it: it
/// succeeds exactly when the task exists and is not someone else's.
pub fn update_task_schedule(
    tasks: &mut Vec<ScraperTask>,
    id: i64,
    uid: i64,
    data: Option<ScheduleData>,
) -> (r: Result<usize, TaskError>)
    requires
        task_ids_unique(old(tasks)@),
    ensures
        (r == Err::<usize, TaskError>(TaskError::Forbidden)) <==> owned_by_other(old(tasks)@, id, uid),
        final(tasks)@.len() == old(tasks)@.len(),
        (r == Err::<usize, TaskError>(TaskError::NotFound)) <==> forall|k: int|
            0 <= k < old(tasks)@.len() ==> #[trigger] old(tasks)@[k].id != id,
        r.is_err() ==> final(tasks)@ == old(tasks)@,
        r matches Ok(i) ==> i < old(tasks)@.len() && old(tasks)@[i as int].id == id && old(tasks)@[i as int].user_id == uid && final(tasks)@ == old(tasks)@.update(
            i as int,
            ScraperTask { data, ..old(tasks)@[i as int] },
        ),
        r.is_ok() || r == Err::<usize, TaskError>(TaskError::NotFound) || r == Err::<
            usize,
            TaskError,
        >(TaskError::Forbidden),
{
    let i = find_check_task(tasks, id, uid)?;
    tasks[i].data = data;
    assert(tasks@ =~= old(tasks)@.update(i as int, ScraperTask { data, ..old(tasks)@[i as int] }));
    Ok(i)
}

pub open spec fn spec_task_state(deleted: bool, scheduled: bool) -> TaskState {
    if deleted {
        TaskState::Completed
    } else if scheduled {
        TaskState::Running
    } else {
        TaskState::Pending
    }
}

impl ScraperTask {
    /// The state the task is shown in.
    pub fn state(&self) -> (r: TaskState)
        ensures
            r == spec_task_state(self.deleted, self.data.is_some()),
    {
        if self.deleted {
            TaskState::Completed
        } else if self.data.is_some() {
            TaskState::Running
        } else {
            TaskState::Pending
        }
    }
}

impl TaskState {
    /// The state's name: `"pending"`, `"running"` or `"completed"`.
    pub fn as_str(&self) -> (r: &'static str)
        ensures
            r@ == match self {
                TaskState::Pending => "pending"@,
                TaskState::Running => "running"@,
                TaskState::Completed => "completed"@,
            },
    {
        match self {
            TaskState::Pending => "pending",
            TaskState::Running => "running",
            TaskState::Completed => "completed",
        }
    }

    /// The state named `name`, if any.
    pub fn parse(name: &String) -> (r: Option<TaskState>)
        ensures
            r == if name@ == "pending"@ {
                Some(TaskState::Pending)
            } else if name@ == "running"@ {
                Some(TaskState::Running)
            } else if name@ == "completed"@ {
                Some(TaskState::Completed)
            } else {
                None::<TaskState>
            },
    {
        if *name == String::from_str("pending") {
            Some(TaskState::Pending)
        } else if *name == String::from_str("running") {
            Some(TaskState::Running)
        } else if *name == String::from_str("completed") {
            Some(TaskState::Completed)
        } else {
            None
        }
    }
}

} // verus!
