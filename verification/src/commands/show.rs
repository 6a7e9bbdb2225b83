//! Resolving a bare id to a goal or a task, with full detail.

use vstd::prelude::*;

use crate::db::Database;
use crate::errors::{EngineError, EntityKind};
use crate::models::{Goal, Metrics, Task};
use crate::similar::suggest_similar;

verus! {

/// Full detail of either a goal or a task.
pub enum ShowResult {
    Goal { goal: Goal, tasks: Vec<Task>, metrics: Metrics },
    Task(Task),
}

/// The ids of every goal and of every task, goals first.
fn collect_all_ids(db: &mut Database) -> (r: Result<Vec<String>, EngineError>) {
    let goals = match db.list_goals() {
        Ok(v) => v,
        Err(e) => {
            return Err(e);
        },
    };
    let mut ids: Vec<String> = Vec::new();
    let mut i: usize = 0;
    while i < goals.len()
        decreases goals.len() - i,
    {
        ids.push(goals[i].id.clone());
        i += 1;
    }
    let mut g: usize = 0;
    while g < goals.len()
        decreases goals.len() - g,
    {
        let tasks = match db.list_tasks(goals[g].id.as_str()) {
            Ok(v) => v,
            Err(e) => {
                return Err(e);
            },
        };
        let mut j: usize = 0;
        while j < tasks.len()
            decreases tasks.len() - j,
        {
            ids.push(tasks[j].id.clone());
            j += 1;
        }
        g += 1;
    }
    Ok(ids)
}

/// Resolve a bare id: a task lookup is tried first, then a goal lookup, and
/// a failed resolution is enriched with the closest known id. The id is
/// never silently resolved to a near match.
pub fn run(db: &mut Database, id: &str) -> (r: Result<ShowResult, EngineError>)
    ensures
        (r matches Ok(s) ==> match s {
            ShowResult::Task(t) => t@.id == id@,
            ShowResult::Goal { goal, .. } => goal@.id == id@,
        }),
{
    match db.get_task(id) {
        Ok(Some(t)) => {
            return Ok(ShowResult::Task(t));
        },
        Ok(None) => {},
        Err(e) => {
            return Err(e);
        },
    }
    match db.get_goal(id) {
        Ok(Some(goal)) => {
            let tasks = match db.list_tasks(id) {
                Ok(v) => v,
                Err(e) => {
                    return Err(e);
                },
            };
            let metrics = match db.compute_goal_metrics(id) {
                Ok(m) => m,
                Err(e) => {
                    return Err(e);
                },
            };
            return Ok(ShowResult::Goal { goal, tasks, metrics });
        },
        Ok(None) => {},
        Err(e) => {
            return Err(e);
        },
    }
    let err = match collect_all_ids(db) {
        Ok(ids) => {
            let suggestion = suggest_similar(id, &ids);
            EngineError::NotFound { kind: EntityKind::Either, id: id.to_owned(), suggestion }
        },
        Err(e) => e,
    };
    Err(err)
}

} // verus!
