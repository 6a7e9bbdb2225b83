//! Bulk removal of goals and their tasks.

use vstd::prelude::*;

use crate::db::Database;
use crate::engine::removable_goals;
use crate::errors::EngineError;
use crate::models::Goal;
use crate::state::GoalState;

verus! {

/// The goals eligible for removal: the completed ones, or every goal when
/// `force` is set, newest first.
pub fn candidates(db: &mut Database, force: bool) -> (r: Result<Vec<Goal>, EngineError>)
    ensures
        (r matches Ok(gs) ==> !force ==> forall|k: int|
            0 <= k < gs@.len() ==> (#[trigger] gs@[k])@.state == GoalState::Completed),
{
    let goals = match db.list_goals() {
        Ok(v) => v,
        Err(e) => {
            return Err(e);
        },
    };
    let out = removable_goals(&goals, force);
    proof {
        if !force {
            crate::engine::lemma_removable_upto_completed(goals.deep_view(), goals@.len() as int);
            assert forall|k: int|
                0 <= k < out@.len() implies (#[trigger] out@[k])@.state
                == GoalState::Completed by {
                assert(out.deep_view()[k] == out@[k]@);
            }
        }
    }
    Ok(out)
}

/// Remove one goal and everything under it. Returns how many entities were
/// removed.
pub fn remove(db: &mut Database, goal_id: &str) -> (r: Result<usize, EngineError>) {
    db.delete_goal(goal_id)
}

} // verus!
