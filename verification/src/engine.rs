//! The lifecycle engine: the task and goal state machines, the unblocking
//! cascade and the goal rollup, as pure functions over snapshots.
//!
//! Every decision the engine makes is a function from plain values to plain
//! values; the store orchestration around these functions fetches snapshots
//! and issues the guarded writes they call for.

use vstd::prelude::*;

use crate::errors::EngineError;
use crate::models::{clone_goal, clone_string_vec, clone_task, Contract, Goal, GoalV, Metrics, Outcome, Task, TaskMetrics, TaskV};
use crate::state::{GoalState, TaskState};

verus! {

/// Whether some task in the snapshot has the given id and is completed.
pub open spec fn blocker_done(ts: Seq<TaskV>, b: Seq<char>) -> bool {
    exists|i: int|
        0 <= i < ts.len() && ts[i].id == b && ts[i].state == TaskState::Completed
}

/// Whether every one of the given blocker ids resolves to a completed task
/// in the snapshot.
pub open spec fn all_blockers_done(ts: Seq<TaskV>, bs: Seq<Seq<char>>) -> bool {
    forall|j: int| 0 <= j < bs.len() ==> blocker_done(ts, bs[j])
}

/// Whether the task at index `i` of the snapshot must move from `Blocked` to
/// `Pending` once `done_id` has completed: it is blocked, it waits on
/// `done_id`, and every one of its blockers is now completed.
pub open spec fn should_unblock(ts: Seq<TaskV>, i: int, done_id: Seq<char>) -> bool {
    &&& ts[i].state == TaskState::Blocked
    &&& ts[i].blockers().contains(done_id)
    &&& all_blockers_done(ts, ts[i].blockers())
}

/// The ids of the tasks among the first `n` of the snapshot that
/// `should_unblock`, in snapshot order.
pub open spec fn unblocked_ids_upto(ts: Seq<TaskV>, done_id: Seq<char>, n: int) -> Seq<Seq<char>>
    decreases n,
{
    if n <= 0 {
        Seq::empty()
    } else if should_unblock(ts, n - 1, done_id) {
        unblocked_ids_upto(ts, done_id, n - 1).push(ts[n - 1].id)
    } else {
        unblocked_ids_upto(ts, done_id, n - 1)
    }
}

/// Whether every task of the snapshot is completed.
pub open spec fn all_completed(ts: Seq<TaskV>) -> bool {
    forall|i: int| 0 <= i < ts.len() ==> ts[i].state == TaskState::Completed
}

/// Whether some task of the snapshot is failed.
pub open spec fn any_failed(ts: Seq<TaskV>) -> bool {
    exists|i: int| 0 <= i < ts.len() && ts[i].state == TaskState::Failed
}

/// Build a contract from the optional fields of a creation or edit request.
/// The contract counts as supplied when at least one field was given; the
/// unsupplied fields are stored as empty strings.
pub fn build_contract(
    receives: Option<String>,
    produces: Option<String>,
    verify: Option<String>,
) -> (r: Option<Contract>)
    ensures
        match r {
            Some(c) => {
                &&& receives is Some || produces is Some || verify is Some
                &&& c@.receives == (if receives is Some { receives->Some_0@ } else { Seq::<char>::empty() })
                &&& c@.produces == (if produces is Some { produces->Some_0@ } else { Seq::<char>::empty() })
                &&& c@.verify == (if verify is Some { verify->Some_0@ } else { Seq::<char>::empty() })
            },
            None => receives is None && produces is None && verify is None,
        },
{
    if receives.is_some() || produces.is_some() || verify.is_some() {
        let r = match receives {
            Some(s) => s,
            None => String::new(),
        };
        let p = match produces {
            Some(s) => s,
            None => String::new(),
        };
        let v = match verify {
            Some(s) => s,
            None => String::new(),
        };
        Some(Contract { receives: r, produces: p, verify: v })
    } else {
        None
    }
}

/// Build a fresh task. A task created with a non-empty `blocked_by` starts
/// `Blocked`; one created with an empty or absent `blocked_by` starts
/// `Pending`. An empty `blocked_by` list is normalized to absent.
pub fn new_task(
    id: String,
    goal_id: String,
    description: String,
    contract: Option<Contract>,
    blocked_by: Option<Vec<String>>,
    now: i64,
) -> (r: Task)
    ensures
        r@.id == id@,
        r@.goal_id == goal_id@,
        r@.description == description@,
        r@.contract == (match contract {
            Some(c) => Some(c@),
            None => None::<crate::models::ContractV>,
        }),
        r@.blockers() == (match blocked_by {
            Some(v) => v.deep_view(),
            None => Seq::<Seq<char>>::empty(),
        }),
        r@.state == (if (blocked_by matches Some(v) && v@.len() > 0) {
            TaskState::Blocked
        } else {
            TaskState::Pending
        }),
        r@.created_at == now as int,
        r@.updated_at == now as int,
        r@.result is None,
        r@.completed_at is None,
        r@.tokens == 0 && r@.elapsed_ms == 0 && r@.retry_count == 0,
        r@.wf(),
{
    let blocked_by = match blocked_by {
        Some(v) => {
            if v.len() == 0 {
                None
            } else {
                Some(v)
            }
        },
        None => None,
    };
    let state = if blocked_by.is_some() {
        TaskState::Blocked
    } else {
        TaskState::Pending
    };
    Task {
        id,
        goal_id,
        description,
        contract,
        state,
        blocked_by,
        result: None,
        created_at: now,
        updated_at: now,
        completed_at: None,
        metrics: TaskMetrics::new(),
    }
}

/// Whether a task may be started: its contract must be set and its state must
/// be exactly `Pending`. The three refusals are distinguished: a missing
/// contract is reported before anything else, a blocked task names its
/// blockers, and any other state is named as-is.
pub fn check_startable(t: &Task) -> (r: Result<(), EngineError>)
    ensures
        r is Ok <==> (t@.has_contract() && t@.state == TaskState::Pending),
        !t@.has_contract() ==> (r matches Err(e) && e is NeedsContract),
        t@.has_contract() && t@.state == TaskState::Blocked ==> (r matches Err(e)
            && (e matches EngineError::Blocked { blockers } && blockers.deep_view()
            == t@.blockers())),
        t@.has_contract() && t@.state != TaskState::Pending && t@.state != TaskState::Blocked
            ==> (r matches Err(e) && (e matches EngineError::InvalidState { current } && current
            == t@.state)),
{
    if t.contract.is_none() {
        return Err(EngineError::NeedsContract);
    }
    if matches!(t.state, TaskState::Blocked) {
        let blockers = match &t.blocked_by {
            Some(v) => clone_string_vec(v),
            None => Vec::new(),
        };
        assert(blockers.deep_view() =~= t@.blockers());
        return Err(EngineError::Blocked { blockers });
    }
    if !matches!(t.state, TaskState::Pending) {
        return Err(EngineError::InvalidState { current: t.state });
    }
    Ok(())
}

/// The started form of a task: `Pending` becomes `InProgress` and the update
/// stamp moves; everything else is kept.
pub fn apply_start(t: &Task, now: i64) -> (r: Task)
    requires
        t@.state == TaskState::Pending,
    ensures
        r@ == (TaskV { state: TaskState::InProgress, updated_at: now as int, ..t@ }),
{
    let mut r = clone_task(t);
    r.state = TaskState::InProgress;
    r.updated_at = now;
    r
}

/// Whether a task may be completed: its state must be exactly `InProgress`.
pub fn check_completable(t: &Task) -> (r: Result<(), EngineError>)
    ensures
        r is Ok <==> t@.state == TaskState::InProgress,
        r matches Err(e) ==> (e matches EngineError::InvalidState { current } && current
            == t@.state),
{
    if matches!(t.state, TaskState::InProgress) {
        Ok(())
    } else {
        Err(EngineError::InvalidState { current: t.state })
    }
}

/// The completed form of a task: the state becomes `Completed`, the outcome
/// and the completion stamp are recorded, and the token and elapsed counters
/// are set to the reported values.
pub fn apply_complete(
    t: &Task,
    summary: String,
    artifacts: Vec<String>,
    tokens: i64,
    elapsed_ms: i64,
    now: i64,
) -> (r: Task)
    requires
        t@.state == TaskState::InProgress,
    ensures
        r@ == (TaskV {
            state: TaskState::Completed,
            result: Some(crate::models::OutcomeV {
                summary: summary@,
                artifacts: artifacts.deep_view(),
            }),
            completed_at: Some(now as int),
            updated_at: now as int,
            tokens: tokens as int,
            elapsed_ms: elapsed_ms as int,
            ..t@
        }),
        t@.wf() ==> r@.wf(),
{
    let mut r = clone_task(t);
    r.state = TaskState::Completed;
    r.result = Some(Outcome { summary, artifacts });
    r.completed_at = Some(now);
    r.updated_at = now;
    r.metrics.tokens = tokens;
    r.metrics.elapsed_ms = elapsed_ms;
    r
}

/// Whether a task may be failed: its state must be `InProgress` or `Verifying`.
pub fn check_failable(t: &Task) -> (r: Result<(), EngineError>)
    ensures
        r is Ok <==> (t@.state == TaskState::InProgress || t@.state == TaskState::Verifying),
        r matches Err(e) ==> (e matches EngineError::InvalidState { current } && current
            == t@.state),
{
    if matches!(t.state, TaskState::InProgress) || matches!(t.state, TaskState::Verifying) {
        Ok(())
    } else {
        Err(EngineError::InvalidState { current: t.state })
    }
}

/// The failed form of a task.
pub fn apply_fail(t: &Task, now: i64) -> (r: Task)
    requires
        t@.state == TaskState::InProgress || t@.state == TaskState::Verifying,
    ensures
        r@ == (TaskV { state: TaskState::Failed, updated_at: now as int, ..t@ }),
        t@.wf() ==> r@.wf(),
{
    let mut r = clone_task(t);
    r.state = TaskState::Failed;
    r.updated_at = now;
    r
}

/// Whether a task may be retried: its state must be exactly `Failed`.
pub fn check_retryable(t: &Task) -> (r: Result<(), EngineError>)
    ensures
        r is Ok <==> t@.state == TaskState::Failed,
        r matches Err(e) ==> (e matches EngineError::InvalidState { current } && current
            == t@.state),
{
    if matches!(t.state, TaskState::Failed) {
        Ok(())
    } else {
        Err(EngineError::InvalidState { current: t.state })
    }
}

/// The retried form of a task: `Failed` moves back to `InProgress` and the
/// retry counter grows by exactly one.
pub fn apply_retry(t: &Task, now: i64) -> (r: Task)
    requires
        t@.state == TaskState::Failed,
        t@.retry_count < i64::MAX,
    ensures
        r@ == (TaskV {
            state: TaskState::InProgress,
            updated_at: now as int,
            retry_count: t@.retry_count + 1,
            ..t@
        }),
        t@.wf() ==> r@.wf(),
{
    let mut r = clone_task(t);
    r.state = TaskState::InProgress;
    r.updated_at = now;
    r.metrics.retry_count = r.metrics.retry_count + 1;
    r
}

/// Whether every id in `bs` names a completed task of the snapshot.
pub fn all_blockers_completed(tasks: &Vec<Task>, bs: &Vec<String>) -> (r: bool)
    ensures
        r == all_blockers_done(tasks.deep_view(), bs.deep_view()),
{
    let ghost tsv = tasks.deep_view();
    let ghost bsv = bs.deep_view();
    let mut j: usize = 0;
    while j < bs.len()
        invariant
            j <= bs.len(),
            tsv == tasks.deep_view(),
            bsv == bs.deep_view(),
            forall|k: int| 0 <= k < j ==> blocker_done(tsv, bsv[k]),
        decreases bs.len() - j,
    {
        let mut found = false;
        let mut i: usize = 0;
        while i < tasks.len()
            invariant
                i <= tasks.len(),
                j < bs.len(),
                tsv == tasks.deep_view(),
                bsv == bs.deep_view(),
                found ==> blocker_done(tsv, bsv[j as int]),
                !found ==> forall|k: int|
                    0 <= k < i ==> !(tsv[k].id == bsv[j as int] && tsv[k].state
                        == TaskState::Completed),
            decreases tasks.len() - i,
        {
            proof {
                assert(tsv[i as int] == tasks@[i as int]@);
                assert(bsv[j as int] == bs@[j as int]@);
            }
            if !found {
                let same = crate::strutil::str_eq(tasks[i].id.as_str(), bs[j].as_str());
                if same && matches!(tasks[i].state, TaskState::Completed) {
                    found = true;
                    assert(blocker_done(tsv, bsv[j as int])) by {
                        assert(tsv[i as int].id == bsv[j as int] && tsv[i as int].state
                            == TaskState::Completed);
                    }
                }
            }
            i += 1;
        }
        proof {
            assert(bsv[j as int] == bs@[j as int]@);
        }
        if !found {
            assert(!blocker_done(tsv, bsv[j as int]));
            return false;
        }
        j += 1;
    }
    true
}

/// One unblocking pass over a snapshot in which `done_id` has just completed:
/// every blocked task waiting on `done_id` whose blockers are now all
/// completed moves to `Pending`; everything else is kept as it is. Returns
/// the updated snapshot and the ids of the unblocked tasks, in snapshot order.
pub fn unblock_pass(tasks: &Vec<Task>, done_id: &str, now: i64) -> (r: (Vec<Task>, Vec<String>))
    ensures
        r.0@.len() == tasks@.len(),
        forall|i: int|
            0 <= i < tasks@.len() ==> r.0@[i]@ == (if should_unblock(
                tasks.deep_view(),
                i,
                done_id@,
            ) {
                TaskV {
                    state: TaskState::Pending,
                    updated_at: now as int,
                    ..tasks.deep_view()[i]
                }
            } else {
                tasks.deep_view()[i]
            }),
        r.1.deep_view() == unblocked_ids_upto(tasks.deep_view(), done_id@, tasks@.len() as int),
{
    let ghost tsv = tasks.deep_view();
    let mut out: Vec<Task> = Vec::new();
    let mut unblocked: Vec<String> = Vec::new();
    let mut i: usize = 0;
    while i < tasks.len()
        invariant
            i <= tasks.len(),
            tsv == tasks.deep_view(),
            out@.len() == i,
            forall|k: int|
                0 <= k < i ==> out@[k]@ == (if should_unblock(tsv, k, done_id@) {
                    TaskV { state: TaskState::Pending, updated_at: now as int, ..tsv[k] }
                } else {
                    tsv[k]
                }),
            unblocked.deep_view() =~= unblocked_ids_upto(tsv, done_id@, i as int),
        decreases tasks.len() - i,
    {
        let t = &tasks[i];
        proof {
            assert(tsv[i as int] == tasks@[i as int]@);
        }
        let mut unblock = false;
        if matches!(t.state, TaskState::Blocked) {
            if let Some(bs) = &t.blocked_by {
                assert(tsv[i as int].blockers() == bs.deep_view());
                let mut waits_on_done = false;
                let mut j: usize = 0;
                while j < bs.len()
                    invariant
                        j <= bs.len(),
                        i < tasks.len(),
                        tsv == tasks.deep_view(),
                        bs.deep_view() == tsv[i as int].blockers(),
                        waits_on_done ==> tsv[i as int].blockers().contains(done_id@),
                        !waits_on_done ==> forall|k: int|
                            0 <= k < j ==> tsv[i as int].blockers()[k] != done_id@,
                    decreases bs.len() - j,
                {
                    proof {
                        assert(bs.deep_view()[j as int] == bs@[j as int]@);
                    }
                    if crate::strutil::str_eq(bs[j].as_str(), done_id) {
                        waits_on_done = true;
                        assert(tsv[i as int].blockers().contains(done_id@)) by {
                            assert(tsv[i as int].blockers()[j as int] == done_id@);
                        }
                    }
                    j += 1;
                }
                if waits_on_done {
                    if all_blockers_completed(tasks, bs) {
                        unblock = true;
                    }
                }
                proof {
                    if !waits_on_done {
                        assert(!tsv[i as int].blockers().contains(done_id@));
                    }
                }
            } else {
                assert(tsv[i as int].blockers() =~= Seq::<Seq<char>>::empty());
                assert(!tsv[i as int].blockers().contains(done_id@));
            }
        }
        assert(unblock == should_unblock(tsv, i as int, done_id@));
        if unblock {
            let mut u = clone_task(t);
            u.state = TaskState::Pending;
            u.updated_at = now;
            let uid = u.id.clone();
            assert(uid@ == tsv[i as int].id);
            unblocked.push(uid);
            out.push(u);
            assert(unblocked.deep_view() =~= unblocked_ids_upto(tsv, done_id@, i as int + 1));
        } else {
            out.push(clone_task(t));
            assert(unblocked.deep_view() =~= unblocked_ids_upto(tsv, done_id@, i as int + 1));
        }
        i += 1;
    }
    proof {
        assert(unblocked.deep_view() =~= unblocked_ids_upto(tsv, done_id@, tasks@.len() as int));
    }
    (out, unblocked)
}

/// Whether every task of the snapshot is completed.
pub fn snapshot_all_completed(tasks: &Vec<Task>) -> (r: bool)
    ensures
        r == all_completed(tasks.deep_view()),
{
    let ghost tsv = tasks.deep_view();
    let mut i: usize = 0;
    while i < tasks.len()
        invariant
            i <= tasks.len(),
            tsv == tasks.deep_view(),
            forall|k: int| 0 <= k < i ==> tsv[k].state == TaskState::Completed,
        decreases tasks.len() - i,
    {
        if !matches!(tasks[i].state, TaskState::Completed) {
            assert(tsv[i as int].state != TaskState::Completed);
            return false;
        }
        i += 1;
    }
    true
}

/// Whether some task of the snapshot is failed.
pub fn snapshot_any_failed(tasks: &Vec<Task>) -> (r: bool)
    ensures
        r == any_failed(tasks.deep_view()),
{
    let ghost tsv = tasks.deep_view();
    let mut i: usize = 0;
    while i < tasks.len()
        invariant
            i <= tasks.len(),
            tsv == tasks.deep_view(),
            forall|k: int| 0 <= k < i ==> tsv[k].state != TaskState::Failed,
        decreases tasks.len() - i,
    {
        if matches!(tasks[i].state, TaskState::Failed) {
            assert(tsv[i as int].state == TaskState::Failed);
            return true;
        }
        i += 1;
    }
    false
}

/// Build a fresh goal: created `Pending`, with no parent and no tasks yet.
pub fn new_goal(id: String, description: String, now: i64) -> (r: Goal)
    ensures
        r@ == (GoalV {
            id: id@,
            parent_id: None,
            description: description@,
            state: GoalState::Pending,
            created_at: now as int,
            updated_at: now as int,
            completed_at: None,
        }),
        r@.wf(),
{
    Goal {
        id,
        parent_id: None,
        description,
        state: GoalState::Pending,
        created_at: now,
        updated_at: now,
        completed_at: None,
    }
}

/// The form of a goal after a task was created under it: the update stamp
/// moves, and a goal still `Pending` becomes `InProgress`.
pub fn goal_on_task_created(g: &Goal, now: i64) -> (r: Goal)
    ensures
        r@ == (GoalV {
            state: if g@.state == GoalState::Pending {
                GoalState::InProgress
            } else {
                g@.state
            },
            updated_at: now as int,
            ..g@
        }),
        g@.wf() ==> r@.wf(),
{
    let mut r = clone_goal(g);
    r.updated_at = now;
    if matches!(r.state, GoalState::Pending) {
        r.state = GoalState::InProgress;
    }
    r
}

/// The rolled-up form of a goal given a snapshot of its tasks, evaluated
/// after a task completion. The all-completed check short-circuits before
/// the any-failed check; a rollup that changes nothing leaves the goal
/// exactly as it is, so re-running it is a no-op.
pub fn rollup_goal(g: &Goal, tasks: &Vec<Task>, now: i64) -> (r: Goal)
    ensures
        all_completed(tasks.deep_view()) && g@.state == GoalState::Completed ==> r@ == g@,
        all_completed(tasks.deep_view()) && g@.state != GoalState::Completed ==> r@ == (GoalV {
            state: GoalState::Completed,
            completed_at: Some(now as int),
            updated_at: now as int,
            ..g@
        }),
        !all_completed(tasks.deep_view()) && any_failed(tasks.deep_view()) && g@.state
            == GoalState::Failed ==> r@ == g@,
        !all_completed(tasks.deep_view()) && any_failed(tasks.deep_view()) && g@.state
            != GoalState::Failed ==> r@ == (GoalV {
            state: GoalState::Failed,
            completed_at: None,
            updated_at: now as int,
            ..g@
        }),
        !all_completed(tasks.deep_view()) && !any_failed(tasks.deep_view()) ==> r@ == g@,
        g@.wf() ==> r@.wf(),
{
    if snapshot_all_completed(tasks) {
        if matches!(g.state, GoalState::Completed) {
            clone_goal(g)
        } else {
            let mut r = clone_goal(g);
            r.state = GoalState::Completed;
            r.completed_at = Some(now);
            r.updated_at = now;
            r
        }
    } else if snapshot_any_failed(tasks) {
        if matches!(g.state, GoalState::Failed) {
            clone_goal(g)
        } else {
            let mut r = clone_goal(g);
            r.state = GoalState::Failed;
            r.completed_at = None;
            r.updated_at = now;
            r
        }
    } else {
        clone_goal(g)
    }
}

/// `x` clipped to the value range of `i64`.
pub open spec fn sat_i64(x: int) -> int {
    if x > i64::MAX {
        i64::MAX as int
    } else if x < i64::MIN {
        i64::MIN as int
    } else {
        x
    }
}

/// The saturating sum of `f` over the first `n` tasks of the snapshot.
pub open spec fn sat_sum_upto(ts: Seq<TaskV>, f: spec_fn(TaskV) -> int, n: int) -> int
    decreases n,
{
    if n <= 0 {
        0
    } else {
        sat_i64(sat_sum_upto(ts, f, n - 1) + f(ts[n - 1]))
    }
}

/// How many of the first `n` tasks of the snapshot satisfy `p`.
pub open spec fn count_upto(ts: Seq<TaskV>, p: spec_fn(TaskV) -> bool, n: int) -> int
    decreases n,
{
    if n <= 0 {
        0
    } else {
        count_upto(ts, p, n - 1) + (if p(ts[n - 1]) {
            1int
        } else {
            0int
        })
    }
}

/// A count over `n` elements lies between 0 and `n`.
pub proof fn lemma_count_bounds(ts: Seq<TaskV>, p: spec_fn(TaskV) -> bool, n: int)
    requires
        n >= 0,
    ensures
        0 <= count_upto(ts, p, n) <= n,
    decreases n,
{
    if n > 0 {
        lemma_count_bounds(ts, p, n - 1);
    }
}

/// A saturating sum stays within the value range of `i64`.
pub proof fn lemma_sat_sum_bounds(ts: Seq<TaskV>, f: spec_fn(TaskV) -> int, n: int)
    requires
        n >= 0,
    ensures
        i64::MIN <= sat_sum_upto(ts, f, n) <= i64::MAX,
    decreases n,
{
    if n > 0 {
        lemma_sat_sum_bounds(ts, f, n - 1);
    }
}

/// Saturating addition on `i64`.
fn sat_add_i64(a: i64, b: i64) -> (r: i64)
    ensures
        r as int == sat_i64(a as int + b as int),
{
    match a.checked_add(b) {
        Some(v) => v,
        None => if b >= 0 {
            i64::MAX
        } else {
            i64::MIN
        },
    }
}

/// The spec-level token count of a task.
pub open spec fn tokens_of() -> spec_fn(TaskV) -> int {
    |t: TaskV| t.tokens
}

/// The spec-level elapsed-time count of a task.
pub open spec fn elapsed_of() -> spec_fn(TaskV) -> int {
    |t: TaskV| t.elapsed_ms
}

/// Whether a task is completed, as a predicate value.
pub open spec fn is_completed() -> spec_fn(TaskV) -> bool {
    |t: TaskV| t.state == TaskState::Completed
}

/// Whether a task is failed, as a predicate value.
pub open spec fn is_failed() -> spec_fn(TaskV) -> bool {
    |t: TaskV| t.state == TaskState::Failed
}

/// The derived rollup counters of a goal, recomputed from its task
/// snapshot: task counts by state, and the saturating sums of the token and
/// elapsed-time counters. The prompt and completion token counters are not
/// tracked per task and stay zero.
pub fn compute_goal_metrics(tasks: &Vec<Task>) -> (r: Metrics)
    requires
        tasks@.len() <= i64::MAX,
    ensures
        r.total_tokens as int == sat_sum_upto(tasks.deep_view(), tokens_of(), tasks@.len() as int),
        r.elapsed_ms as int == sat_sum_upto(tasks.deep_view(), elapsed_of(), tasks@.len() as int),
        r.task_count == tasks@.len(),
        r.tasks_completed as int == count_upto(
            tasks.deep_view(),
            is_completed(),
            tasks@.len() as int,
        ),
        r.tasks_failed as int == count_upto(tasks.deep_view(), is_failed(), tasks@.len() as int),
        r.prompt_tokens == 0 && r.completion_tokens == 0,
{
    let ghost tsv = tasks.deep_view();
    let mut total_tokens: i64 = 0;
    let mut elapsed_ms: i64 = 0;
    let mut completed: i64 = 0;
    let mut failed: i64 = 0;
    let mut i: usize = 0;
    while i < tasks.len()
        invariant
            i <= tasks.len(),
            tasks@.len() <= i64::MAX,
            tsv == tasks.deep_view(),
            total_tokens as int == sat_sum_upto(tsv, tokens_of(), i as int),
            elapsed_ms as int == sat_sum_upto(tsv, elapsed_of(), i as int),
            completed as int == count_upto(tsv, is_completed(), i as int),
            failed as int == count_upto(tsv, is_failed(), i as int),
        decreases tasks.len() - i,
    {
        proof {
            assert(tsv[i as int] == tasks@[i as int]@);
            lemma_count_bounds(tsv, is_completed(), i as int);
            lemma_count_bounds(tsv, is_failed(), i as int);
        }
        total_tokens = sat_add_i64(total_tokens, tasks[i].metrics.tokens);
        elapsed_ms = sat_add_i64(elapsed_ms, tasks[i].metrics.elapsed_ms);
        if matches!(tasks[i].state, TaskState::Completed) {
            completed = completed + 1;
        }
        if matches!(tasks[i].state, TaskState::Failed) {
            failed = failed + 1;
        }
        i += 1;
    }
    Metrics {
        total_tokens,
        prompt_tokens: 0,
        completion_tokens: 0,
        elapsed_ms,
        task_count: tasks.len() as i64,
        tasks_completed: completed,
        tasks_failed: failed,
    }
}

/// The tasks of the snapshot that are ready to be worked on, in snapshot
/// order: `Pending`, with a contract set.
pub open spec fn ready_upto(ts: Seq<TaskV>, n: int) -> Seq<TaskV>
    decreases n,
{
    if n <= 0 {
        Seq::empty()
    } else if ts[n - 1].state == TaskState::Pending && ts[n - 1].contract is Some {
        ready_upto(ts, n - 1).push(ts[n - 1])
    } else {
        ready_upto(ts, n - 1)
    }
}

/// Filter a snapshot down to the tasks ready to start: `Pending` state and
/// a contract set.
pub fn ready_tasks_of(tasks: &Vec<Task>) -> (r: Vec<Task>)
    ensures
        r.deep_view() == ready_upto(tasks.deep_view(), tasks@.len() as int),
{
    let ghost tsv = tasks.deep_view();
    let mut r: Vec<Task> = Vec::new();
    let mut i: usize = 0;
    while i < tasks.len()
        invariant
            i <= tasks.len(),
            tsv == tasks.deep_view(),
            r.deep_view() =~= ready_upto(tsv, i as int),
        decreases tasks.len() - i,
    {
        proof {
            assert(tsv[i as int] == tasks@[i as int]@);
        }
        if matches!(tasks[i].state, TaskState::Pending) && tasks[i].contract.is_some() {
            r.push(clone_task(&tasks[i]));
        }
        assert(r.deep_view() =~= ready_upto(tsv, i as int + 1));
        i += 1;
    }
    proof {
        assert(r.deep_view() =~= ready_upto(tsv, tasks@.len() as int));
    }
    r
}

/// What is wrong with a proposed `blocked_by` list.
pub enum BlockerProblem {
    /// The id names no task of the goal.
    Missing { id: String },
    /// The id occurs more than once in the list.
    Duplicate { id: String },
}

/// Validate a proposed `blocked_by` list against the tasks of the goal:
/// every id must name a task of the goal, and no id may repeat.
pub fn validate_blocked_by(ids: &Vec<String>, tasks: &Vec<Task>) -> (r: Result<
    (),
    BlockerProblem,
>)
    ensures
        r is Ok <==> ((forall|k: int|
            0 <= k < ids@.len() ==> crate::order::has_task_id(
                tasks.deep_view(),
                #[trigger] ids.deep_view()[k],
            )) && (forall|k1: int, k2: int|
            0 <= k1 < k2 < ids@.len() ==> ids.deep_view()[k1] != ids.deep_view()[k2])),
        r matches Err(BlockerProblem::Missing { id }) ==> !crate::order::has_task_id(
            tasks.deep_view(),
            id@,
        ) && ids.deep_view().contains(id@),
        r matches Err(BlockerProblem::Duplicate { id }) ==> exists|k1: int, k2: int|
            0 <= k1 < k2 < ids@.len() && #[trigger] ids.deep_view()[k1]
                == #[trigger] ids.deep_view()[k2] && ids.deep_view()[k1] == id@,
{
    let ghost idv = ids.deep_view();
    let ghost tsv = tasks.deep_view();
    let mut k: usize = 0;
    while k < ids.len()
        invariant
            k <= ids.len(),
            idv == ids.deep_view(),
            tsv == tasks.deep_view(),
            forall|q: int| 0 <= q < k ==> crate::order::has_task_id(tsv, #[trigger] idv[q]),
            forall|q1: int, q2: int| 0 <= q1 < q2 < k ==> idv[q1] != idv[q2],
        decreases ids.len() - k,
    {
        proof {
            assert(idv[k as int] == ids@[k as int]@);
        }
        let mut j: usize = 0;
        while j < k
            invariant
                j <= k < ids.len(),
                idv == ids.deep_view(),
                forall|q: int| 0 <= q < j ==> idv[q] != idv[k as int],
            decreases k - j,
        {
            proof {
                assert(idv[j as int] == ids@[j as int]@);
            }
            if crate::strutil::str_eq(ids[j].as_str(), ids[k].as_str()) {
                assert(idv[j as int] == idv[k as int]);
                return Err(BlockerProblem::Duplicate { id: ids[k].clone() });
            }
            j += 1;
        }
        let mut found = false;
        let mut t: usize = 0;
        while t < tasks.len()
            invariant
                t <= tasks.len(),
                k < ids.len(),
                idv == ids.deep_view(),
                tsv == tasks.deep_view(),
                found ==> crate::order::has_task_id(tsv, idv[k as int]),
                !found ==> forall|q: int| 0 <= q < t ==> tsv[q].id != idv[k as int],
            decreases tasks.len() - t,
        {
            proof {
                assert(tsv[t as int] == tasks@[t as int]@);
            }
            if crate::strutil::str_eq(tasks[t].id.as_str(), ids[k].as_str()) {
                found = true;
                assert(crate::order::has_task_id(tsv, idv[k as int])) by {
                    assert(tsv[t as int].id == idv[k as int]);
                }
            }
            t += 1;
        }
        if !found {
            assert(!crate::order::has_task_id(tsv, idv[k as int]));
            assert(idv.contains(idv[k as int]));
            return Err(BlockerProblem::Missing { id: ids[k].clone() });
        }
        k += 1;
    }
    Ok(())
}

/// Merge an edit of contract fields into an existing (possibly absent)
/// contract: each supplied field replaces its counterpart, each absent field
/// keeps the existing value, or an empty string when no contract existed.
pub fn merge_contract(
    existing: Option<&Contract>,
    receives: Option<String>,
    produces: Option<String>,
    verify: Option<String>,
) -> (r: Contract)
    ensures
        r@.receives == (match receives {
            Some(s) => s@,
            None => match existing {
                Some(c) => c@.receives,
                None => Seq::<char>::empty(),
            },
        }),
        r@.produces == (match produces {
            Some(s) => s@,
            None => match existing {
                Some(c) => c@.produces,
                None => Seq::<char>::empty(),
            },
        }),
        r@.verify == (match verify {
            Some(s) => s@,
            None => match existing {
                Some(c) => c@.verify,
                None => Seq::<char>::empty(),
            },
        }),
{
    let r = match receives {
        Some(s) => s,
        None => match existing {
            Some(c) => c.receives.clone(),
            None => String::new(),
        },
    };
    let p = match produces {
        Some(s) => s,
        None => match existing {
            Some(c) => c.produces.clone(),
            None => String::new(),
        },
    };
    let v = match verify {
        Some(s) => s,
        None => match existing {
            Some(c) => c.verify.clone(),
            None => String::new(),
        },
    };
    Contract { receives: r, produces: p, verify: v }
}

/// Completing the sole blocker of a blocked task unblocks it: when task `i`
/// is `Blocked` on exactly the id `done`, and that id now resolves to a
/// completed task, the unblocking pass moves task `i` to `Pending`.
pub proof fn lemma_sole_blocker_unblocks(ts: Seq<TaskV>, i: int, done: Seq<char>)
    requires
        0 <= i < ts.len(),
        ts[i].state == TaskState::Blocked,
        ts[i].blockers() =~= seq![done],
        blocker_done(ts, done),
    ensures
        should_unblock(ts, i, done),
{
    assert(ts[i].blockers()[0] == done);
    assert(ts[i].blockers().contains(done));
    assert forall|j: int| 0 <= j < ts[i].blockers().len() implies blocker_done(
        ts,
        ts[i].blockers()[j],
    ) by {
        assert(ts[i].blockers()[j] == done);
    }
}

/// A blocked task with an incomplete blocker stays blocked: when some
/// blocker of task `i` does not resolve to a completed task, the unblocking
/// pass leaves task `i` as it is.
pub proof fn lemma_incomplete_blocker_keeps_blocked(
    ts: Seq<TaskV>,
    i: int,
    done: Seq<char>,
    other: Seq<char>,
)
    requires
        0 <= i < ts.len(),
        ts[i].blockers().contains(other),
        !blocker_done(ts, other),
    ensures
        !should_unblock(ts, i, done),
{
    let j = choose|j: int| 0 <= j < ts[i].blockers().len() && ts[i].blockers()[j] == other;
    assert(!all_blockers_done(ts, ts[i].blockers())) by {
        assert(!blocker_done(ts, ts[i].blockers()[j]));
    }
}

/// Re-running the cascade against a fully completed snapshot is a no-op: no
/// task is blocked, so nothing is unblocked.
pub proof fn lemma_cascade_idempotent_on_completed(ts: Seq<TaskV>, done: Seq<char>, n: int)
    requires
        all_completed(ts),
        0 <= n <= ts.len(),
    ensures
        unblocked_ids_upto(ts, done, n) =~= Seq::<Seq<char>>::empty(),
        forall|i: int| 0 <= i < ts.len() ==> !should_unblock(ts, i, done),
    decreases n,
{
    assert forall|i: int| 0 <= i < ts.len() implies !should_unblock(ts, i, done) by {
        assert(ts[i].state == TaskState::Completed);
    }
    if n > 0 {
        lemma_cascade_idempotent_on_completed(ts, done, n - 1);
    }
}


/// Every task the ready filter keeps is `Pending` with a contract set.
pub proof fn lemma_ready_upto_elems(ts: Seq<TaskV>, n: int)
    ensures
        forall|k: int|
            0 <= k < ready_upto(ts, n).len() ==> ((#[trigger] ready_upto(ts, n)[k]).state
                == TaskState::Pending && ready_upto(ts, n)[k].contract is Some),
    decreases n,
{
    if n > 0 {
        lemma_ready_upto_elems(ts, n - 1);
        assert forall|k: int|
            0 <= k < ready_upto(ts, n).len() implies ((#[trigger] ready_upto(ts, n)[k]).state
            == TaskState::Pending && ready_upto(ts, n)[k].contract is Some) by {
            if k < ready_upto(ts, n - 1).len() {
                assert(ready_upto(ts, n)[k] == ready_upto(ts, n - 1)[k]);
            }
        }
    }
}


/// A task the cascade unblocks is named in the unblocked list: when task `i`
/// must move to `Pending`, its id occurs in the cascade's report.
pub proof fn lemma_unblocked_id_is_reported(ts: Seq<TaskV>, done: Seq<char>, i: int, n: int)
    requires
        0 <= i < n <= ts.len(),
        should_unblock(ts, i, done),
    ensures
        unblocked_ids_upto(ts, done, n).contains(ts[i].id),
    decreases n,
{
    if i == n - 1 {
        let ids = unblocked_ids_upto(ts, done, n);
        assert(ids[ids.len() - 1] == ts[i].id);
    } else {
        lemma_unblocked_id_is_reported(ts, done, i, n - 1);
        let pre = unblocked_ids_upto(ts, done, n - 1);
        let j = choose|j: int| 0 <= j < pre.len() && pre[j] == ts[i].id;
        assert(unblocked_ids_upto(ts, done, n)[j] == ts[i].id);
    }
}

/// The goals eligible for removal among the first `n` of the snapshot, in
/// snapshot order: every goal when `force` is set, else the completed ones.
pub open spec fn removable_upto(gs: Seq<GoalV>, force: bool, n: int) -> Seq<GoalV>
    decreases n,
{
    if n <= 0 {
        Seq::empty()
    } else if force || gs[n - 1].state == GoalState::Completed {
        removable_upto(gs, force, n - 1).push(gs[n - 1])
    } else {
        removable_upto(gs, force, n - 1)
    }
}

/// Filter a goal snapshot down to the removable ones: every goal when
/// `force` is set, else the completed ones, in snapshot order.
pub fn removable_goals(goals: &Vec<Goal>, force: bool) -> (r: Vec<Goal>)
    ensures
        r.deep_view() == removable_upto(goals.deep_view(), force, goals@.len() as int),
{
    let ghost gsv = goals.deep_view();
    let mut r: Vec<Goal> = Vec::new();
    let mut i: usize = 0;
    while i < goals.len()
        invariant
            i <= goals.len(),
            gsv == goals.deep_view(),
            r.deep_view() =~= removable_upto(gsv, force, i as int),
        decreases goals.len() - i,
    {
        proof {
            assert(gsv[i as int] == goals@[i as int]@);
        }
        if force || matches!(goals[i].state, GoalState::Completed) {
            r.push(clone_goal(&goals[i]));
        }
        assert(r.deep_view() =~= removable_upto(gsv, force, i as int + 1));
        i += 1;
    }
    proof {
        assert(r.deep_view() =~= removable_upto(gsv, force, goals@.len() as int));
    }
    r
}

/// Every goal the removal filter keeps without `force` is completed.
pub proof fn lemma_removable_upto_completed(gs: Seq<GoalV>, n: int)
    ensures
        forall|k: int|
            0 <= k < removable_upto(gs, false, n).len() ==> (#[trigger] removable_upto(
                gs,
                false,
                n,
            )[k]).state == GoalState::Completed,
    decreases n,
{
    if n > 0 {
        lemma_removable_upto_completed(gs, n - 1);
        assert forall|k: int|
            0 <= k < removable_upto(gs, false, n).len() implies (#[trigger] removable_upto(
            gs,
            false,
            n,
        )[k]).state == GoalState::Completed by {
            if k < removable_upto(gs, false, n - 1).len() {
                assert(removable_upto(gs, false, n)[k] == removable_upto(gs, false, n - 1)[k]);
            }
        }
    }
}

} // verus!
