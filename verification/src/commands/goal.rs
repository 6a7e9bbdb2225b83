//! Creating and listing goals.

use vstd::prelude::*;

use crate::clock::now_millis;
use crate::db::Database;
use crate::engine::new_goal;
use crate::errors::EngineError;
use crate::id::generate_id;
use crate::models::Goal;
use crate::state::GoalState;

verus! {

/// Create a goal with the given description. The fresh goal starts
/// `Pending`, carries a generated id, and is stored before it is returned.
pub fn create(db: &mut Database, description: String) -> (r: Result<Goal, EngineError>)
    ensures
        (r matches Ok(g) ==> {
            &&& g@.description == description@
            &&& g@.state == GoalState::Pending
            &&& g@.parent_id is None
            &&& g@.completed_at is None
            &&& g@.id.len() == crate::id::id_len()
            &&& g@.created_at == g@.updated_at
            &&& g@.wf()
        }),
{
    let id = generate_id();
    let now = now_millis();
    let g = new_goal(id, description, now);
    match db.create_goal(&g) {
        Ok(()) => Ok(g),
        Err(e) => Err(e),
    }
}

/// All goals, newest first.
pub fn list(db: &mut Database) -> (r: Result<Vec<Goal>, EngineError>)
    ensures
        (r matches Ok(gs) ==> forall|i: int, j: int|
            0 <= i < j < gs@.len() ==> gs@[i]@.created_at >= gs@[j]@.created_at),
{
    db.list_goals()
}

} // verus!
