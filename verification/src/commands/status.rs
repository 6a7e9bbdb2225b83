//! Compact status views: one task, one goal with its tasks and derived
//! metrics, or every goal with its derived metrics.

use vstd::prelude::*;

use crate::db::Database;
use crate::errors::{EngineError, EntityKind};
use crate::models::{Goal, Metrics, Task};

verus! {

/// What a status query resolved to.
pub enum StatusResult {
    Task(Task),
    Goal { goal: Goal, tasks: Vec<Task>, metrics: Metrics },
    All(Vec<(Goal, Metrics)>),
}

/// Status of one task by id.
fn status_task(db: &mut Database, task_id: &str) -> (r: Result<StatusResult, EngineError>)
    ensures
        (r matches Ok(s) ==> s matches StatusResult::Task(t) && t@.id == task_id@),
{
    match db.get_task(task_id) {
        Ok(Some(t)) => Ok(StatusResult::Task(t)),
        Ok(None) => Err(
            EngineError::NotFound { kind: EntityKind::Task, id: task_id.to_owned(), suggestion: None },
        ),
        Err(e) => Err(e),
    }
}

/// Status of one goal by id: the goal, its tasks in creation order, and its
/// derived metrics.
fn status_goal(db: &mut Database, goal_id: &str) -> (r: Result<StatusResult, EngineError>)
    ensures
        (r matches Ok(s) ==> s matches StatusResult::Goal { goal, .. } && goal@.id == goal_id@),
{
    let goal = match db.get_goal(goal_id) {
        Ok(Some(g)) => g,
        Ok(None) => {
            return Err(
                EngineError::NotFound {
                    kind: EntityKind::Goal,
                    id: goal_id.to_owned(),
                    suggestion: None,
                },
            );
        },
        Err(e) => {
            return Err(e);
        },
    };
    let tasks = match db.list_tasks(goal_id) {
        Ok(v) => v,
        Err(e) => {
            return Err(e);
        },
    };
    let metrics = match db.compute_goal_metrics(goal_id) {
        Ok(m) => m,
        Err(e) => {
            return Err(e);
        },
    };
    Ok(StatusResult::Goal { goal, tasks, metrics })
}

/// Status of every goal, newest first, each with its derived metrics.
fn status_all(db: &mut Database) -> (r: Result<StatusResult, EngineError>)
    ensures
        (r matches Ok(s) ==> s is All),
{
    let goals = match db.list_goals() {
        Ok(v) => v,
        Err(e) => {
            return Err(e);
        },
    };
    let mut out: Vec<(Goal, Metrics)> = Vec::new();
    let mut i: usize = 0;
    while i < goals.len()
        decreases goals.len() - i,
    {
        let metrics = match db.compute_goal_metrics(goals[i].id.as_str()) {
            Ok(m) => m,
            Err(e) => {
                return Err(e);
            },
        };
        let g = crate::models::clone_goal(&goals[i]);
        out.push((g, metrics));
        i += 1;
    }
    Ok(StatusResult::All(out))
}

/// Dispatch a status query: a task id wins over a goal id; with neither,
/// every goal is summarized.
pub fn run(
    db: &mut Database,
    goal_id: Option<String>,
    task_id: Option<String>,
) -> (r: Result<StatusResult, EngineError>)
    ensures
        (r matches Ok(s) ==> match task_id {
            Some(tid) => s matches StatusResult::Task(t) && t@.id == tid@,
            None => match goal_id {
                Some(gid) => s matches StatusResult::Goal { goal, .. } && goal@.id == gid@,
                None => s is All,
            },
        }),
{
    if let Some(tid) = task_id {
        return status_task(db, tid.as_str());
    }
    if let Some(gid) = goal_id {
        return status_goal(db, gid.as_str());
    }
    status_all(db)
}

} // verus!
