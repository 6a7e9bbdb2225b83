//! Lifecycle states for tasks and goals, with their stored textual names.

use vstd::prelude::*;

use crate::strutil::str_eq;

verus! {

/// The lifecycle state of a task.
///
/// `Verifying` is reachable only through external extension; within this
/// library it occurs solely as an allowed source state for failing a task.
#[derive(Debug, Clone, Copy, PartialEq, Eq, Structural)]
pub enum TaskState {
    Pending,
    Blocked,
    InProgress,
    Verifying,
    Completed,
    Failed,
}

/// The lifecycle state of a goal.
#[derive(Debug, Clone, Copy, PartialEq, Eq, Structural)]
pub enum GoalState {
    Pending,
    InProgress,
    Completed,
    Failed,
}

impl TaskState {
    /// The stored (and serialized) name of this state.
    pub fn as_str(&self) -> (r: &'static str)
        ensures
            r@ == self.name(),
    {
        proof {
            reveal_strlit("pending");
            reveal_strlit("blocked");
            reveal_strlit("in_progress");
            reveal_strlit("verifying");
            reveal_strlit("completed");
            reveal_strlit("failed");
        }
        match self {
            TaskState::Pending => "pending",
            TaskState::Blocked => "blocked",
            TaskState::InProgress => "in_progress",
            TaskState::Verifying => "verifying",
            TaskState::Completed => "completed",
            TaskState::Failed => "failed",
        }
    }

    /// The state whose stored name is `s`, if any.
    pub fn from_str(s: &str) -> (r: Option<TaskState>)
        ensures
            match r {
                Some(st) => s@ == st.name(),
                None => forall|st: TaskState| s@ != st.name(),
            },
    {
        proof {
            reveal_strlit("pending");
            reveal_strlit("blocked");
            reveal_strlit("in_progress");
            reveal_strlit("verifying");
            reveal_strlit("completed");
            reveal_strlit("failed");
        }
        if str_eq(s, "pending") {
            Some(TaskState::Pending)
        } else if str_eq(s, "blocked") {
            Some(TaskState::Blocked)
        } else if str_eq(s, "in_progress") {
            Some(TaskState::InProgress)
        } else if str_eq(s, "verifying") {
            Some(TaskState::Verifying)
        } else if str_eq(s, "completed") {
            Some(TaskState::Completed)
        } else if str_eq(s, "failed") {
            Some(TaskState::Failed)
        } else {
            assert forall|st: TaskState| s@ != st.name() by {
                match st {
                    TaskState::Pending => assert(s@ != "pending"@),
                    TaskState::Blocked => assert(s@ != "blocked"@),
                    TaskState::InProgress => assert(s@ != "in_progress"@),
                    TaskState::Verifying => assert(s@ != "verifying"@),
                    TaskState::Completed => assert(s@ != "completed"@),
                    TaskState::Failed => assert(s@ != "failed"@),
                }
            }
            None
        }
    }

    /// The stored name of this state, as a character sequence.
    pub open spec fn name(self) -> Seq<char> {
        match self {
            TaskState::Pending => "pending"@,
            TaskState::Blocked => "blocked"@,
            TaskState::InProgress => "in_progress"@,
            TaskState::Verifying => "verifying"@,
            TaskState::Completed => "completed"@,
            TaskState::Failed => "failed"@,
        }
    }
}

impl GoalState {
    /// The stored (and serialized) name of this state.
    pub fn as_str(&self) -> (r: &'static str)
        ensures
            r@ == self.name(),
    {
        proof {
            reveal_strlit("pending");
            reveal_strlit("in_progress");
            reveal_strlit("completed");
            reveal_strlit("failed");
        }
        match self {
            GoalState::Pending => "pending",
            GoalState::InProgress => "in_progress",
            GoalState::Completed => "completed",
            GoalState::Failed => "failed",
        }
    }

    /// The state whose stored name is `s`, if any.
    pub fn from_str(s: &str) -> (r: Option<GoalState>)
        ensures
            match r {
                Some(st) => s@ == st.name(),
                None => forall|st: GoalState| s@ != st.name(),
            },
    {
        proof {
            reveal_strlit("pending");
            reveal_strlit("in_progress");
            reveal_strlit("completed");
            reveal_strlit("failed");
        }
        if str_eq(s, "pending") {
            Some(GoalState::Pending)
        } else if str_eq(s, "in_progress") {
            Some(GoalState::InProgress)
        } else if str_eq(s, "completed") {
            Some(GoalState::Completed)
        } else if str_eq(s, "failed") {
            Some(GoalState::Failed)
        } else {
            assert forall|st: GoalState| s@ != st.name() by {
                match st {
                    GoalState::Pending => assert(s@ != "pending"@),
                    GoalState::InProgress => assert(s@ != "in_progress"@),
                    GoalState::Completed => assert(s@ != "completed"@),
                    GoalState::Failed => assert(s@ != "failed"@),
                }
            }
            None
        }
    }

    /// The stored name of this state, as a character sequence.
    pub open spec fn name(self) -> Seq<char> {
        match self {
            GoalState::Pending => "pending"@,
            GoalState::InProgress => "in_progress"@,
            GoalState::Completed => "completed"@,
            GoalState::Failed => "failed"@,
        }
    }
}

/// Distinct task states have distinct stored names, so `from_str` inverts `as_str`.
pub proof fn lemma_task_state_names_distinct(a: TaskState, b: TaskState)
    ensures
        a.name() == b.name() ==> a == b,
{
    reveal_strlit("pending");
    reveal_strlit("blocked");
    reveal_strlit("in_progress");
    reveal_strlit("verifying");
    reveal_strlit("completed");
    reveal_strlit("failed");
    assert("pending"@[0] == 'p');
    assert("blocked"@[0] == 'b');
    assert("in_progress"@[0] == 'i');
    assert("verifying"@[0] == 'v');
    assert("completed"@[0] == 'c');
    assert("failed"@[0] == 'f');
}

/// Distinct goal states have distinct stored names, so `from_str` inverts `as_str`.
pub proof fn lemma_goal_state_names_distinct(a: GoalState, b: GoalState)
    ensures
        a.name() == b.name() ==> a == b,
{
    reveal_strlit("pending");
    reveal_strlit("in_progress");
    reveal_strlit("completed");
    reveal_strlit("failed");
    assert("pending"@[0] == 'p');
    assert("in_progress"@[0] == 'i');
    assert("completed"@[0] == 'c');
    assert("failed"@[0] == 'f');
}

} // verus!
