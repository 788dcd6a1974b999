//! Counts of tasks by state, for a user's dashboard and for administrators.
use vstd::prelude::*;
use crate::task::ScraperTask;

verus! {

/// A way of sorting tasks for counting.
#[derive(Clone, Copy, Debug, PartialEq, Eq, Structural)]
pub enum TaskCategory {
    /// Every task.
    All,
    /// No schedule yet (deleted or not).
    Unscheduled,
    /// Scheduled and not deleted.
    Scheduled,
    /// Deleted.
    Deleted,
}

pub open spec fn in_category(t: ScraperTask, c: TaskCategory) -> bool {
    match c {
        TaskCategory::All => true,
        TaskCategory::Unscheduled => t.data.is_none(),
        TaskCategory::Scheduled => t.data.is_some() && !t.deleted,
        TaskCategory::Deleted => t.deleted,
    }
}

/// Number of tasks in `tasks` of category `c`, counting only those of
/// `owner` when it is given.
pub open spec fn count_tasks(tasks: Seq<ScraperTask>, owner: Option<i64>, c: TaskCategory) -> nat
    decreases tasks.len(),
{
    if tasks.len() == 0 {
        0
    } else {
        let t = tasks.last();
        count_tasks(tasks.drop_last(), owner, c) + if in_category(t, c) && (owner matches Some(
            u,
        ) ==> t.user_id == u) {
            1nat
        } else {
            0nat
        }
    }
}

proof fn lemma_count_bound(tasks: Seq<ScraperTask>, owner: Option<i64>, c: TaskCategory)
    ensures
        count_tasks(tasks, owner, c) <= tasks.len(),
    decreases tasks.len(),
{
    if tasks.len() > 0 {
        lemma_count_bound(tasks.drop_last(), owner, c);
    }
}

/// A user's tasks by state.
pub struct TaskStatistics {
    pub total: i64,
    pub undeployed: i64,
    pub scheduled: i64,
    pub completed: i64,
}

/// How often a user's tasks ran, and failed.
pub struct InstanceStatistics {
    pub total_count: i64,
    pub failed_count: i64,
}

/// All tasks by state, for administrators. Failed runs are not tracked yet and
/// count zero.
pub struct TaskStatisticsResp {
    pub pending: i64,
    pub running: i64,
    pub completed: i64,
    pub failed: i64,
}

/// Sizes of the whole service, for administrators.
pub struct StatisticsOverviewResp {
    pub user_count: i64,
    pub task_count: i64,
    pub template_count: i64,
}

/// Counts of all, unscheduled, scheduled and deleted tasks of `owner`.
fn count_categories(tasks: &Vec<ScraperTask>, owner: Option<i64>) -> (r: (i64, i64, i64, i64))
    requires
        tasks@.len() <= i64::MAX,
    ensures
        r.0 == count_tasks(tasks@, owner, TaskCategory::All),
        r.1 == count_tasks(tasks@, owner, TaskCategory::Unscheduled),
        r.2 == count_tasks(tasks@, owner, TaskCategory::Scheduled),
        r.3 == count_tasks(tasks@, owner, TaskCategory::Deleted),
{
    let mut all: i64 = 0;
    let mut unscheduled: i64 = 0;
    let mut scheduled: i64 = 0;
    let mut deleted: i64 = 0;
    let mut i: usize = 0;
    while i < tasks.len()
        invariant
            i <= tasks@.len() <= i64::MAX,
            all == count_tasks(tasks@.subrange(0, i as int), owner, TaskCategory::All),
            unscheduled == count_tasks(
                tasks@.subrange(0, i as int),
                owner,
                TaskCategory::Unscheduled,
            ),
            scheduled == count_tasks(tasks@.subrange(0, i as int), owner, TaskCategory::Scheduled),
            deleted == count_tasks(tasks@.subrange(0, i as int), owner, TaskCategory::Deleted),
        decreases tasks@.len() - i,
    {
        let ghost prefix = tasks@.subrange(0, i as int);
        proof {
            lemma_count_bound(prefix, owner, TaskCategory::All);
            lemma_count_bound(prefix, owner, TaskCategory::Unscheduled);
            lemma_count_bound(prefix, owner, TaskCategory::Scheduled);
            lemma_count_bound(prefix, owner, TaskCategory::Deleted);
            assert(tasks@.subrange(0, i + 1).drop_last() =~= prefix);
        }
        let t = &tasks[i];
        let mine = match owner {
            Some(u) => t.user_id == u,
            None => true,
        };
        if mine {
            all = all + 1;
            if t.data.is_none() {
                unscheduled = unscheduled + 1;
            }
            if t.data.is_some() && !t.deleted {
                scheduled = scheduled + 1;
            }
            if t.deleted {
                deleted = deleted + 1;
            }
        }
        i = i + 1;
    }
    assert(tasks@.subrange(0, tasks@.len() as int) =~= tasks@);
    (all, unscheduled, scheduled, deleted)
}

/// Numbers of accounts, tasks and templates.
pub fn statistics_overview(user_count: usize, task_count: usize, template_count: usize) -> (r:
    StatisticsOverviewResp)
    requires
        user_count <= i64::MAX,
        task_count <= i64::MAX,
        template_count <= i64::MAX,
    ensures
        r.user_count == user_count,
        r.task_count == task_count,
        r.template_count == template_count,
{
    StatisticsOverviewResp {
        user_count: user_count as i64,
        task_count: task_count as i64,
        template_count: template_count as i64,
    }
}

/// The tasks of `user_id` by state.
pub fn task_statistics(tasks: &Vec<ScraperTask>, user_id: i64) -> (r: TaskStatistics)
    requires
        tasks@.len() <= i64::MAX,
    ensures
        r.total == count_tasks(tasks@, Some(user_id), TaskCategory::All),
        r.undeployed == count_tasks(tasks@, Some(user_id), TaskCategory::Unscheduled),
        r.scheduled == count_tasks(tasks@, Some(user_id), TaskCategory::Scheduled),
        r.completed == count_tasks(tasks@, Some(user_id), TaskCategory::Deleted),
{
    let (total, undeployed, scheduled, completed) = count_categories(tasks, Some(user_id));
    TaskStatistics { total, undeployed, scheduled, completed }
}

/// All tasks by state.
pub fn admin_task_statistics(tasks: &Vec<ScraperTask>) -> (r: TaskStatisticsResp)
    requires
        tasks@.len() <= i64::MAX,
    ensures
        r.pending == count_tasks(tasks@, None, TaskCategory::Unscheduled),
        r.running == count_tasks(tasks@, None, TaskCategory::Scheduled),
        r.completed == count_tasks(tasks@, None, TaskCategory::Deleted),
        r.failed == 0,
{
    let (_all, pending, running, completed) = count_categories(tasks, None);
    TaskStatisticsResp { pending, running, completed, failed: 0 }
}

} // verus!
