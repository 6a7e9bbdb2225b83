//! Listing the tasks of a goal that are ready to be worked on.

use vstd::prelude::*;

use crate::db::Database;
use crate::engine::ready_tasks_of;
use crate::errors::{EngineError, EntityKind};
use crate::models::{Goal, Task};
use crate::state::TaskState;

verus! {

/// The goal and its ready tasks: `Pending`, with a contract set, in
/// creation order.
pub fn run(db: &mut Database, goal_id: &str) -> (r: Result<(Goal, Vec<Task>), EngineError>)
    ensures
        (r matches Ok(p) ==> p.0@.id == goal_id@ && forall|k: int|
            0 <= k < p.1@.len() ==> ((#[trigger] p.1@[k])@.state == TaskState::Pending
                && p.1@[k]@.has_contract())),
{
    let goal = match db.get_goal(goal_id) {
        Ok(Some(g)) => g,
        Ok(None) => {
            return Err(
                EngineError::NotFound {
                    kind: EntityKind::Goal,
                    id: goal_id.to_owned(),
                    suggestion: None,
                },
            );
        },
        Err(e) => {
            return Err(e);
        },
    };
    let tasks = match db.list_tasks(goal_id) {
        Ok(v) => v,
        Err(e) => {
            return Err(e);
        },
    };
    let ready = ready_tasks_of(&tasks);
    proof {
        crate::engine::lemma_ready_upto_elems(tasks.deep_view(), tasks@.len() as int);
        assert forall|k: int|
            0 <= k < ready@.len() implies ((#[trigger] ready@[k])@.state == TaskState::Pending
            && ready@[k]@.has_contract()) by {
            assert(ready.deep_view()[k] == ready@[k]@);
        }
    }
    Ok((goal, ready))
}

} // verus!
