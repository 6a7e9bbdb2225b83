//! Editing goals and tasks after creation.

use vstd::prelude::*;

use crate::clock::now_millis;
use crate::db::Database;
use crate::engine::{merge_contract, BlockerProblem};
use crate::errors::{EngineError, EntityKind};
use crate::models::{Goal, Task};
use crate::similar::suggest_similar;

verus! {

/// Replace a goal's description.
pub fn goal(db: &mut Database, goal_id: &str, description: String) -> (r: Result<
    Goal,
    EngineError,
>)
    ensures
        (r matches Ok(g) ==> g@.id == goal_id@ && g@.description == description@),
{
    let g = match db.get_goal(goal_id) {
        Ok(Some(g)) => g,
        Ok(None) => {
            return Err(
                EngineError::NotFound {
                    kind: EntityKind::Goal,
                    id: goal_id.to_owned(),
                    suggestion: None,
                },
            );
        },
        Err(e) => {
            return Err(e);
        },
    };
    let now = now_millis();
    let mut updated = crate::models::clone_goal(&g);
    updated.description = description;
    updated.updated_at = now;
    match db.update_goal(&updated) {
        Ok(()) => Ok(updated),
        Err(e) => Err(e),
    }
}

/// Edit a task: replace its description, merge new contract fields into the
/// existing contract (a contract counts as set once any field was ever
/// supplied), and replace its `blocked_by` list after validating it. The
/// lifecycle state is never changed by an edit.
pub fn task(
    db: &mut Database,
    task_id: &str,
    description: Option<String>,
    receives: Option<String>,
    produces: Option<String>,
    verify: Option<String>,
    blocked_by: Option<Vec<String>>,
) -> (r: Result<Task, EngineError>)
    ensures
        (r matches Ok(t) ==> {
            &&& t@.id == task_id@
            &&& (description matches Some(d) ==> t@.description == d@)
            &&& (((receives is Some) || (produces is Some) || (verify is Some))
                ==> t@.has_contract())
        }),
        // a repeated blocker id is rejected before anything is written
        (blocked_by matches Some(v) && (exists|k1: int, k2: int|
            0 <= k1 < k2 < v@.len() && #[trigger] v.deep_view()[k1] == #[trigger] v.deep_view()[k2]))
            ==> !(r is Ok),
        // a rejected blocker list is reported with one of its own ids
        (r matches Err(EngineError::Validation { bad_id, suggestion }) ==> (blocked_by matches
            Some(v2) && v2.deep_view().contains(bad_id@))),
{
    let t = match db.get_task(task_id) {
        Ok(Some(t)) => t,
        Ok(None) => {
            return Err(
                EngineError::NotFound {
                    kind: EntityKind::Task,
                    id: task_id.to_owned(),
                    suggestion: None,
                },
            );
        },
        Err(e) => {
            return Err(e);
        },
    };
    let mut updated = crate::models::clone_task(&t);
    if let Some(d) = description {
        updated.description = d;
    }
    if receives.is_some() || produces.is_some() || verify.is_some() {
        let merged = merge_contract(t.contract.as_ref(), receives, produces, verify);
        updated.contract = Some(merged);
    }
    if let Some(ids) = blocked_by {
        if ids.len() as u64 > i64::MAX as u64 {
            // a list beyond the store's index range cannot be held
            return Err(EngineError::Storage);
        }
        let tasks = match db.list_tasks(t.goal_id.as_str()) {
            Ok(v) => v,
            Err(e) => {
                return Err(e);
            },
        };
        match crate::engine::validate_blocked_by(&ids, &tasks) {
            Ok(()) => {},
            Err(BlockerProblem::Missing { id }) => {
                let mut existing: Vec<String> = Vec::new();
                let mut i: usize = 0;
                while i < tasks.len()
                    decreases tasks.len() - i,
                {
                    existing.push(tasks[i].id.clone());
                    i += 1;
                }
                let suggestion = suggest_similar(id.as_str(), &existing);
                return Err(EngineError::Validation { bad_id: id, suggestion });
            },
            Err(BlockerProblem::Duplicate { id }) => {
                return Err(EngineError::Validation { bad_id: id, suggestion: None });
            },
        }
        updated.blocked_by = if ids.len() == 0 {
            None
        } else {
            Some(ids)
        };
    }
    match db.update_task_fields(&updated) {
        Ok(()) => Ok(updated),
        Err(e) => Err(e),
    }
}

} // verus!
