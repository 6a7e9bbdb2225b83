//! The full listing: every goal with its tasks in dependency order.

use vstd::prelude::*;

use crate::db::Database;
use crate::errors::EngineError;
use crate::models::{Goal, Metrics, Task};
use crate::order::topo_sort;

verus! {

/// One goal with its tasks in dependency order and its derived metrics.
pub struct GoalWithTasks {
    pub goal: Goal,
    pub tasks: Vec<Task>,
    pub metrics: Metrics,
}

/// Every goal, newest first, each with its tasks topologically ordered by
/// their in-goal `blocked_by` edges (ties broken by creation order) and its
/// derived metrics. Within each entry no task id repeats.
pub fn run(db: &mut Database) -> (r: Result<Vec<GoalWithTasks>, EngineError>)
    ensures
        (r matches Ok(v) ==> forall|g: int, i: int, j: int|
            #![trigger v@[g].tasks@[i], v@[g].tasks@[j]]
            0 <= g < v@.len() && 0 <= i < j < v@[g].tasks@.len() ==> v@[g].tasks@[i]@.id
                != v@[g].tasks@[j]@.id),
{
    let goals = match db.list_goals() {
        Ok(v) => v,
        Err(e) => {
            return Err(e);
        },
    };
    let mut out: Vec<GoalWithTasks> = Vec::new();
    let mut i: usize = 0;
    while i < goals.len()
        invariant
            i <= goals.len(),
            forall|g: int, a: int, b: int|
                #![trigger out@[g].tasks@[a], out@[g].tasks@[b]]
                0 <= g < out@.len() && 0 <= a < b < out@[g].tasks@.len() ==> out@[g].tasks@[a]@.id
                    != out@[g].tasks@[b]@.id,
        decreases goals.len() - i,
    {
        let gid = goals[i].id.clone();
        let tasks = match db.list_tasks(gid.as_str()) {
            Ok(v) => v,
            Err(e) => {
                return Err(e);
            },
        };
        let ordered = topo_sort(&tasks);
        let metrics = match db.compute_goal_metrics(gid.as_str()) {
            Ok(m) => m,
            Err(e) => {
                return Err(e);
            },
        };
        let g = crate::models::clone_goal(&goals[i]);
        proof {
            assert forall|a: int, b: int|
                0 <= a < b < ordered@.len() implies ordered@[a]@.id != ordered@[b]@.id by {
                assert(ordered.deep_view()[a].id != ordered.deep_view()[b].id);
                assert(ordered.deep_view()[a] == ordered@[a]@);
                assert(ordered.deep_view()[b] == ordered@[b]@);
            }
        }
        out.push(GoalWithTasks { goal: g, tasks: ordered, metrics });
        i += 1;
    }
    Ok(out)
}

} // verus!
