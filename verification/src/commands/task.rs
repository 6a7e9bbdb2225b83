//! Creating, listing and driving tasks through their lifecycle.

use vstd::prelude::*;

use crate::clock::now_millis;
use crate::db::Database;
use crate::engine::{
    apply_complete, apply_fail, apply_retry, apply_start, build_contract, check_completable,
    check_failable, check_retryable, check_startable, new_task, rollup_goal,
    snapshot_all_completed, snapshot_any_failed, unblock_pass, BlockerProblem,
};
use crate::errors::{EngineError, EntityKind};
use crate::id::generate_id;
use crate::models::{Goal, Task};
use crate::similar::suggest_similar;
use crate::state::TaskState;

verus! {

/// The ids of every goal in the store.
fn goal_ids(db: &mut Database) -> (r: Result<Vec<String>, EngineError>)
    ensures
        (r matches Err(e) ==> e is Storage),
{
    let goals = match db.list_goals() {
        Ok(v) => v,
        Err(e) => {
            return Err(e);
        },
    };
    let mut ids: Vec<String> = Vec::new();
    let mut i: usize = 0;
    while i < goals.len()
        decreases goals.len() - i,
    {
        ids.push(goals[i].id.clone());
        i += 1;
    }
    Ok(ids)
}

/// The ids of every task across all goals in the store.
fn all_task_ids(db: &mut Database) -> (r: Result<Vec<String>, EngineError>)
    ensures
        (r matches Err(e) ==> e is Storage),
{
    let goals = match db.list_goals() {
        Ok(v) => v,
        Err(e) => {
            return Err(e);
        },
    };
    let mut ids: Vec<String> = Vec::new();
    let mut i: usize = 0;
    while i < goals.len()
        decreases goals.len() - i,
    {
        let tasks = match db.list_tasks(goals[i].id.as_str()) {
            Ok(v) => v,
            Err(e) => {
                return Err(e);
            },
        };
        let mut j: usize = 0;
        while j < tasks.len()
            decreases tasks.len() - j,
        {
            ids.push(tasks[j].id.clone());
            j += 1;
        }
        i += 1;
    }
    Ok(ids)
}

/// A task-not-found error, enriched with the closest known task id.
fn task_not_found(db: &mut Database, task_id: &str) -> (r: EngineError)
    ensures
        r is Storage || (r matches EngineError::NotFound { kind, id, suggestion } && kind
            == EntityKind::Task && id@ == task_id@),
{
    match all_task_ids(db) {
        Ok(ids) => {
            let suggestion = suggest_similar(task_id, &ids);
            EngineError::NotFound { kind: EntityKind::Task, id: task_id.to_owned(), suggestion }
        },
        Err(e) => e,
    }
}

/// Create a task under a goal. The `blocked_by` ids must name distinct
/// existing tasks of the same goal; a task with (non-empty) blockers starts
/// `Blocked`, any other starts `Pending`. The owning goal's update stamp
/// moves, and a goal still `Pending` becomes `InProgress`.
pub fn create(
    db: &mut Database,
    goal_id: &str,
    description: String,
    receives: Option<String>,
    produces: Option<String>,
    verify: Option<String>,
    blocked_by: Option<Vec<String>>,
) -> (r: Result<Task, EngineError>)
    ensures
        (r matches Ok(t) ==> {
            &&& t@.goal_id == goal_id@
            &&& t@.description == description@
            &&& t@.state == (if (blocked_by matches Some(v) && v@.len() > 0) {
                TaskState::Blocked
            } else {
                TaskState::Pending
            })
            &&& t@.blockers() == (match blocked_by {
                Some(v) => v.deep_view(),
                None => Seq::<Seq<char>>::empty(),
            })
            &&& (t@.has_contract() <==> ((receives is Some) || (produces is Some) || (verify
                is Some)))
            &&& t@.result is None
            &&& t@.completed_at is None
            &&& t@.tokens == 0 && t@.elapsed_ms == 0 && t@.retry_count == 0
            &&& t@.created_at == t@.updated_at
            &&& t@.wf()
        }),
        // a repeated blocker id is rejected before anything is written
        (blocked_by matches Some(v) && (exists|k1: int, k2: int|
            0 <= k1 < k2 < v@.len() && #[trigger] v.deep_view()[k1] == #[trigger] v.deep_view()[k2]))
            ==> !(r is Ok),
        (r matches Err(EngineError::NotFound { kind, id, suggestion }) ==> kind
            == EntityKind::Goal && id@ == goal_id@),
        // a rejected blocker list is reported with one of its own ids
        (r matches Err(EngineError::Validation { bad_id, suggestion }) ==> (blocked_by matches
            Some(v) && v.deep_view().contains(bad_id@))),
{
    let goal = match db.get_goal(goal_id) {
        Ok(Some(g)) => g,
        Ok(None) => {
            let err = match goal_ids(db) {
                Ok(ids) => {
                    let suggestion = suggest_similar(goal_id, &ids);
                    EngineError::NotFound {
                        kind: EntityKind::Goal,
                        id: goal_id.to_owned(),
                        suggestion,
                    }
                },
                Err(e) => e,
            };
            return Err(err);
        },
        Err(e) => {
            return Err(e);
        },
    };
    if let Some(ids) = &blocked_by {
        if ids.len() as u64 > i64::MAX as u64 {
            // a list beyond the store's index range cannot be held
            return Err(EngineError::Storage);
        }
        let tasks = match db.list_tasks(goal_id) {
            Ok(v) => v,
            Err(e) => {
                return Err(e);
            },
        };
        match crate::engine::validate_blocked_by(ids, &tasks) {
            Ok(()) => {},
            Err(BlockerProblem::Missing { id }) => {
                let mut existing: Vec<String> = Vec::new();
                let mut i: usize = 0;
                while i < tasks.len()
                    decreases tasks.len() - i,
                {
                    existing.push(tasks[i].id.clone());
                    i += 1;
                }
                let suggestion = suggest_similar(id.as_str(), &existing);
                return Err(EngineError::Validation { bad_id: id, suggestion });
            },
            Err(BlockerProblem::Duplicate { id }) => {
                return Err(EngineError::Validation { bad_id: id, suggestion: None });
            },
        }
    }
    let contract = build_contract(receives, produces, verify);
    let id = generate_id();
    let now = now_millis();
    let task = new_task(id, goal_id.to_owned(), description, contract, blocked_by, now);
    match db.create_task(&task) {
        Ok(()) => {},
        Err(e) => {
            return Err(e);
        },
    }
    let updated_goal = crate::engine::goal_on_task_created(&goal, now);
    match db.update_goal(&updated_goal) {
        Ok(()) => {},
        Err(e) => {
            return Err(e);
        },
    }
    Ok(task)
}

/// The goal and its tasks, in creation order.
pub fn list(db: &mut Database, goal_id: &str) -> (r: Result<(Goal, Vec<Task>), EngineError>)
    ensures
        (r matches Ok(p) ==> p.0@.id == goal_id@ && forall|k: int|
            0 <= k < p.1@.len() ==> (#[trigger] p.1@[k])@.goal_id == goal_id@),
{
    let goal = match db.get_goal(goal_id) {
        Ok(Some(g)) => g,
        Ok(None) => {
            return Err(
                EngineError::NotFound {
                    kind: EntityKind::Goal,
                    id: goal_id.to_owned(),
                    suggestion: None,
                },
            );
        },
        Err(e) => {
            return Err(e);
        },
    };
    let tasks = match db.list_tasks(goal_id) {
        Ok(v) => v,
        Err(e) => {
            return Err(e);
        },
    };
    Ok((goal, tasks))
}

/// Start a task from an already-fetched snapshot, as a racing invocation
/// would: the snapshot must show a startable task, and the guarded update
/// then decides who wins. A lost race is a `Conflict`, distinct from any
/// state error.
pub fn start_from_snapshot(db: &mut Database, t: &Task) -> (r: Result<Task, EngineError>)
    ensures
        // on success only the state (now `InProgress`) and the update stamp
        // of the snapshot change
        (r matches Ok(u) ==> t@.has_contract() && t@.state == TaskState::Pending && u@ == (
        crate::models::TaskV { state: TaskState::InProgress, updated_at: u@.updated_at, ..t@ })),
        !t@.has_contract() ==> (r matches Err(e) && e is NeedsContract),
        t@.has_contract() && t@.state == TaskState::Blocked ==> (r matches Err(e)
            && (e matches EngineError::Blocked { blockers } && blockers.deep_view()
            == t@.blockers())),
        t@.has_contract() && t@.state != TaskState::Pending && t@.state != TaskState::Blocked
            ==> (r matches Err(e) && (e matches EngineError::InvalidState { current } && current
            == t@.state)),
        !(t@.has_contract() && t@.state == TaskState::Pending) ==> !(r is Ok) && !(r matches Err(
            e,
        ) && e is Conflict),
        (r matches Err(e2) ==> !(e2 is NotFound)),
{
    match check_startable(t) {
        Ok(()) => {},
        Err(e) => {
            return Err(e);
        },
    }
    let now = now_millis();
    let won = match db.transition_task_state(
        t.id.as_str(),
        &TaskState::Pending,
        &TaskState::InProgress,
        now,
    ) {
        Ok(b) => b,
        Err(e) => {
            return Err(e);
        },
    };
    if !won {
        return Err(EngineError::Conflict);
    }
    Ok(apply_start(t, now))
}

/// Start a task: its contract must be set and its state must be exactly
/// `Pending`; the transition itself is one guarded update.
pub fn start(db: &mut Database, task_id: &str) -> (r: Result<Task, EngineError>)
    ensures
        (r matches Ok(u) ==> u@.state == TaskState::InProgress && u@.has_contract() && u@.id
            == task_id@),
        (r matches Err(EngineError::NotFound { kind, id, suggestion }) ==> kind
            == EntityKind::Task && id@ == task_id@),
{
    let t = match db.get_task(task_id) {
        Ok(Some(t)) => t,
        Ok(None) => {
            let err = task_not_found(db, task_id);
            return Err(err);
        },
        Err(e) => {
            return Err(e);
        },
    };
    start_from_snapshot(db, &t)
}

/// What a completion changed: the completed task, the ids of the tasks it
/// unblocked (in creation order), and the goal after its rollup.
pub struct CompleteResult {
    pub task: Task,
    pub unblocked: Vec<String>,
    pub goal: Goal,
}

/// Complete a task: it must be `InProgress`; the transition, the result
/// summary and the counters go through one guarded update. Afterwards every
/// blocked task whose blockers are now all completed is moved to `Pending`,
/// and the goal is rolled up: all tasks completed marks it `Completed`
/// (checked first), else any failed task marks it `Failed`. A rollup or an
/// unblocking that changes nothing writes nothing, so re-running the
/// cascade is idempotent.
pub fn complete(
    db: &mut Database,
    task_id: &str,
    result_summary: String,
    artifacts: Option<Vec<String>>,
    tokens: Option<i64>,
    elapsed: Option<i64>,
) -> (r: Result<CompleteResult, EngineError>)
    ensures
        (r matches Ok(o) ==> {
            &&& o.task@.state == TaskState::Completed
            &&& (o.task@.result matches Some(out) && out.summary == result_summary@
                && out.artifacts == (match artifacts {
                Some(v) => v.deep_view(),
                None => Seq::<Seq<char>>::empty(),
            }))
            &&& o.task@.completed_at is Some
            &&& o.task@.id == task_id@
            &&& o.task@.tokens == (match tokens {
                Some(v) => v as int,
                None => 0,
            })
            &&& o.task@.elapsed_ms == (match elapsed {
                Some(v) => v as int,
                None => 0,
            })
        }),
        (r matches Err(EngineError::NotFound { kind, id, suggestion }) ==> (kind
            == EntityKind::Task && id@ == task_id@) || kind == EntityKind::Goal),
{
    let t = match db.get_task(task_id) {
        Ok(Some(t)) => t,
        Ok(None) => {
            let err = task_not_found(db, task_id);
            return Err(err);
        },
        Err(e) => {
            return Err(e);
        },
    };
    match check_completable(&t) {
        Ok(()) => {},
        Err(e) => {
            return Err(e);
        },
    }
    let artifacts_list = match artifacts {
        Some(v) => v,
        None => Vec::new(),
    };
    if artifacts_list.len() as u64 > i64::MAX as u64 {
        // a list beyond the store's index range cannot be held
        return Err(EngineError::Storage);
    }
    let tokens_v = match tokens {
        Some(v) => v,
        None => 0,
    };
    let elapsed_v = match elapsed {
        Some(v) => v,
        None => 0,
    };
    let now = now_millis();
    let won = match db.complete_task(
        task_id,
        result_summary.as_str(),
        &artifacts_list,
        tokens_v,
        elapsed_v,
        now,
        now,
    ) {
        Ok(b) => b,
        Err(e) => {
            return Err(e);
        },
    };
    if !won {
        return Err(EngineError::Conflict);
    }
    let completed = apply_complete(&t, result_summary, artifacts_list, tokens_v, elapsed_v, now);

    let goal = match db.get_goal(t.goal_id.as_str()) {
        Ok(Some(g)) => g,
        Ok(None) => {
            return Err(
                EngineError::NotFound {
                    kind: EntityKind::Goal,
                    id: t.goal_id.clone(),
                    suggestion: None,
                },
            );
        },
        Err(e) => {
            return Err(e);
        },
    };
    let all_tasks = match db.list_tasks(t.goal_id.as_str()) {
        Ok(v) => v,
        Err(e) => {
            return Err(e);
        },
    };
    let (_, unblocked) = unblock_pass(&all_tasks, task_id, now);
    let mut u: usize = 0;
    while u < unblocked.len()
        decreases unblocked.len() - u,
    {
        match db.transition_task_state(
            unblocked[u].as_str(),
            &TaskState::Blocked,
            &TaskState::Pending,
            now,
        ) {
            // a `false` result means another invocation already unblocked it
            Ok(_) => {},
            Err(e) => {
                return Err(e);
            },
        }
        u += 1;
    }
    let refreshed = match db.list_tasks(t.goal_id.as_str()) {
        Ok(v) => v,
        Err(e) => {
            return Err(e);
        },
    };
    let all_c = snapshot_all_completed(&refreshed);
    let any_f = snapshot_any_failed(&refreshed);
    let changed = (all_c && !matches!(goal.state, crate::state::GoalState::Completed)) || (!all_c
        && any_f && !matches!(goal.state, crate::state::GoalState::Failed));
    let rolled = rollup_goal(&goal, &refreshed, now);
    if changed {
        match db.update_goal(&rolled) {
            Ok(()) => {},
            Err(e) => {
                return Err(e);
            },
        }
    }
    Ok(CompleteResult { task: completed, unblocked, goal: rolled })
}

/// Fail a task: it must be `InProgress` or `Verifying`; the transition is
/// one guarded update.
pub fn fail(db: &mut Database, task_id: &str) -> (r: Result<Task, EngineError>)
    ensures
        (r matches Ok(u) ==> u@.state == TaskState::Failed && u@.id == task_id@),
        (r matches Err(EngineError::NotFound { kind, id, suggestion }) ==> kind
            == EntityKind::Task && id@ == task_id@),
{
    let t = match db.get_task(task_id) {
        Ok(Some(t)) => t,
        Ok(None) => {
            let err = task_not_found(db, task_id);
            return Err(err);
        },
        Err(e) => {
            return Err(e);
        },
    };
    match check_failable(&t) {
        Ok(()) => {},
        Err(e) => {
            return Err(e);
        },
    }
    let now = now_millis();
    let won = match db.transition_task_state_from_any(
        task_id,
        &TaskState::InProgress,
        &TaskState::Verifying,
        &TaskState::Failed,
        now,
    ) {
        Ok(b) => b,
        Err(e) => {
            return Err(e);
        },
    };
    if !won {
        return Err(EngineError::Conflict);
    }
    Ok(apply_fail(&t, now))
}

/// Retry a failed task from an already-fetched snapshot, as a racing
/// invocation would: the snapshot must show a `Failed` task, and the
/// guarded update — which increments the stored retry counter in the same
/// atomic statement — decides who wins. A lost race is a `Conflict`,
/// distinct from any state error. A counter already at the `i64` limit is
/// refused as a storage fault.
pub fn retry_from_snapshot(db: &mut Database, t: &Task) -> (r: Result<Task, EngineError>)
    ensures
        // on success the snapshot moves back to `InProgress` with its retry
        // counter grown by exactly one; only those and the update stamp change
        (r matches Ok(u) ==> t@.state == TaskState::Failed && u@ == (crate::models::TaskV {
            state: TaskState::InProgress,
            updated_at: u@.updated_at,
            retry_count: t@.retry_count + 1,
            ..t@
        })),
        t@.state != TaskState::Failed ==> (r matches Err(e) && (e matches
            EngineError::InvalidState { current } && current == t@.state)),
        (r matches Err(e2) ==> !(e2 is NotFound)),
{
    match check_retryable(t) {
        Ok(()) => {},
        Err(e) => {
            return Err(e);
        },
    }
    if t.metrics.retry_count == i64::MAX {
        return Err(EngineError::Storage);
    }
    let now = now_millis();
    let won = match db.retry_task(t.id.as_str(), now) {
        Ok(b) => b,
        Err(e) => {
            return Err(e);
        },
    };
    if !won {
        return Err(EngineError::Conflict);
    }
    Ok(apply_retry(t, now))
}

/// Retry a failed task: it must be exactly `Failed`; the guarded update
/// moves it back to `InProgress` and increments the retry counter by one
/// atomically. The returned task is the applied form of the fetched
/// snapshot, so its counter is the snapshot's plus one.
pub fn retry(db: &mut Database, task_id: &str) -> (r: Result<Task, EngineError>)
    ensures
        (r matches Ok(u) ==> u@.state == TaskState::InProgress && u@.id == task_id@),
        (r matches Err(EngineError::NotFound { kind, id, suggestion }) ==> kind
            == EntityKind::Task && id@ == task_id@),
{
    let t = match db.get_task(task_id) {
        Ok(Some(t)) => t,
        Ok(None) => {
            let err = task_not_found(db, task_id);
            return Err(err);
        },
        Err(e) => {
            return Err(e);
        },
    };
    retry_from_snapshot(db, &t)
}

} // verus!