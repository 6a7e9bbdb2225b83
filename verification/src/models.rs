//! The entity model: goals, tasks, contracts, outcomes and metric counters.
//!
//! Each executable type has a mathematical view (`TaskV`, `GoalV`, ...) made
//! of sequences and integers; every contract in the library speaks over these
//! views. Timestamps are kept as milliseconds since the Unix epoch; rendering
//! them in a textual date-time format is the presentation layer's concern.

use vstd::prelude::*;

use crate::state::{GoalState, TaskState};

verus! {

/// A task's declared interface: what it receives, what it produces, and how
/// the produced work is verified. All three are free text; a task is
/// contract-less until a contract is explicitly supplied.
pub struct Contract {
    pub receives: String,
    pub produces: String,
    pub verify: String,
}

/// The recorded outcome of a completed task.
pub struct Outcome {
    pub summary: String,
    pub artifacts: Vec<String>,
}

/// Per-task counters. `retry_count` only ever increases, by exactly one per
/// retry transition.
pub struct TaskMetrics {
    pub tokens: i64,
    pub elapsed_ms: i64,
    pub retry_count: i64,
}

/// Goal-level rollup counters, always recomputed from the goal's task set.
pub struct Metrics {
    pub total_tokens: i64,
    pub prompt_tokens: i64,
    pub completion_tokens: i64,
    pub elapsed_ms: i64,
    pub task_count: i64,
    pub tasks_completed: i64,
    pub tasks_failed: i64,
}

/// A unit of work under a goal.
pub struct Task {
    pub id: String,
    pub goal_id: String,
    pub description: String,
    pub contract: Option<Contract>,
    pub state: TaskState,
    pub blocked_by: Option<Vec<String>>,
    pub result: Option<Outcome>,
    pub created_at: i64,
    pub updated_at: i64,
    pub completed_at: Option<i64>,
    pub metrics: TaskMetrics,
}

/// A top-level unit of work containing tasks. Rollup metrics are derived
/// from the task set on demand and are not stored on the goal.
pub struct Goal {
    pub id: String,
    pub parent_id: Option<String>,
    pub description: String,
    pub state: GoalState,
    pub created_at: i64,
    pub updated_at: i64,
    pub completed_at: Option<i64>,
}

/// Mathematical view of a `Contract`.
pub ghost struct ContractV {
    pub receives: Seq<char>,
    pub produces: Seq<char>,
    pub verify: Seq<char>,
}

/// Mathematical view of an `Outcome`.
pub ghost struct OutcomeV {
    pub summary: Seq<char>,
    pub artifacts: Seq<Seq<char>>,
}

/// Mathematical view of a `Task`, with the metric counters flattened in.
pub ghost struct TaskV {
    pub id: Seq<char>,
    pub goal_id: Seq<char>,
    pub description: Seq<char>,
    pub contract: Option<ContractV>,
    pub state: TaskState,
    pub blocked_by: Option<Seq<Seq<char>>>,
    pub result: Option<OutcomeV>,
    pub created_at: int,
    pub updated_at: int,
    pub completed_at: Option<int>,
    pub tokens: int,
    pub elapsed_ms: int,
    pub retry_count: int,
}

/// Mathematical view of a `Goal`.
pub ghost struct GoalV {
    pub id: Seq<char>,
    pub parent_id: Option<Seq<char>>,
    pub description: Seq<char>,
    pub state: GoalState,
    pub created_at: int,
    pub updated_at: int,
    pub completed_at: Option<int>,
}

impl View for Contract {
    type V = ContractV;

    open spec fn view(&self) -> ContractV {
        ContractV { receives: self.receives@, produces: self.produces@, verify: self.verify@ }
    }
}

impl View for Outcome {
    type V = OutcomeV;

    open spec fn view(&self) -> OutcomeV {
        OutcomeV { summary: self.summary@, artifacts: self.artifacts.deep_view() }
    }
}

impl DeepView for Contract {
    type V = ContractV;

    open spec fn deep_view(&self) -> ContractV {
        self.view()
    }
}

impl DeepView for Outcome {
    type V = OutcomeV;

    open spec fn deep_view(&self) -> OutcomeV {
        self.view()
    }
}

impl DeepView for Task {
    type V = TaskV;

    open spec fn deep_view(&self) -> TaskV {
        self.view()
    }
}

impl DeepView for Goal {
    type V = GoalV;

    open spec fn deep_view(&self) -> GoalV {
        self.view()
    }
}

impl View for Task {
    type V = TaskV;

    open spec fn view(&self) -> TaskV {
        TaskV {
            id: self.id@,
            goal_id: self.goal_id@,
            description: self.description@,
            contract: match self.contract {
                Some(c) => Some(c@),
                None => None,
            },
            state: self.state,
            blocked_by: match self.blocked_by {
                Some(v) => Some(v.deep_view()),
                None => None,
            },
            result: match self.result {
                Some(o) => Some(o@),
                None => None,
            },
            created_at: self.created_at as int,
            updated_at: self.updated_at as int,
            completed_at: match self.completed_at {
                Some(ts) => Some(ts as int),
                None => None,
            },
            tokens: self.metrics.tokens as int,
            elapsed_ms: self.metrics.elapsed_ms as int,
            retry_count: self.metrics.retry_count as int,
        }
    }
}

impl View for Goal {
    type V = GoalV;

    open spec fn view(&self) -> GoalV {
        GoalV {
            id: self.id@,
            parent_id: match self.parent_id {
                Some(ref p) => Some(p@),
                None => None,
            },
            description: self.description@,
            state: self.state,
            created_at: self.created_at as int,
            updated_at: self.updated_at as int,
            completed_at: match self.completed_at {
                Some(ts) => Some(ts as int),
                None => None,
            },
        }
    }
}

impl TaskV {
    /// Internal coherence of a task record: a result is present exactly on a
    /// completed task, a completion stamp likewise, and the retry counter is
    /// never negative.
    pub open spec fn wf(self) -> bool {
        &&& (self.result is Some <==> self.state == TaskState::Completed)
        &&& (self.completed_at is Some <==> self.state == TaskState::Completed)
        &&& self.retry_count >= 0
        &&& (self.blocked_by matches Some(v) ==> v.len() > 0)
    }

    /// Whether the task's contract has been set.
    pub open spec fn has_contract(self) -> bool {
        self.contract is Some
    }

    /// The task's dependency edges: the blocker ids, or empty when absent.
    pub open spec fn blockers(self) -> Seq<Seq<char>> {
        match self.blocked_by {
            Some(v) => v,
            None => Seq::empty(),
        }
    }
}

impl GoalV {
    /// Internal coherence of a goal record: a completion stamp is present
    /// exactly on a completed goal.
    pub open spec fn wf(self) -> bool {
        self.completed_at is Some <==> self.state == GoalState::Completed
    }
}

impl TaskMetrics {
    /// All counters start at zero.
    pub fn new() -> (r: TaskMetrics)
        ensures
            r.tokens == 0 && r.elapsed_ms == 0 && r.retry_count == 0,
    {
        TaskMetrics { tokens: 0, elapsed_ms: 0, retry_count: 0 }
    }
}

impl Default for TaskMetrics {
    fn default() -> (r: TaskMetrics)
        ensures
            r.tokens == 0 && r.elapsed_ms == 0 && r.retry_count == 0,
    {
        TaskMetrics::new()
    }
}

impl Metrics {
    /// The all-zero rollup, for stating what `new` and `default` return.
    pub open spec fn zero() -> Metrics {
        Metrics {
            total_tokens: 0,
            prompt_tokens: 0,
            completion_tokens: 0,
            elapsed_ms: 0,
            task_count: 0,
            tasks_completed: 0,
            tasks_failed: 0,
        }
    }

    /// All counters start at zero.
    pub fn new() -> (r: Metrics)
        ensures
            r == Metrics::zero(),
    {
        Metrics {
            total_tokens: 0,
            prompt_tokens: 0,
            completion_tokens: 0,
            elapsed_ms: 0,
            task_count: 0,
            tasks_completed: 0,
            tasks_failed: 0,
        }
    }
}

impl Default for Metrics {
    fn default() -> (r: Metrics)
        ensures
            r == Metrics::zero(),
    {
        Metrics::new()
    }
}

/// Clone a vector of strings, element for element.
pub fn clone_string_vec(v: &Vec<String>) -> (r: Vec<String>)
    ensures
        r.deep_view() =~= v.deep_view(),
{
    let mut r: Vec<String> = Vec::new();
    let mut i: usize = 0;
    while i < v.len()
        invariant
            i <= v.len(),
            r@.len() == i,
            forall|j: int| 0 <= j < i ==> r@[j] == v@[j],
        decreases v.len() - i,
    {
        r.push(v[i].clone());
        i += 1;
    }
    assert forall|j: int| 0 <= j < v@.len() implies r.deep_view()[j] == v.deep_view()[j] by {
        assert(r@[j] == v@[j]);
    }
    assert(r.deep_view() =~= v.deep_view());
    r
}

/// Clone a contract, field for field.
pub fn clone_contract(c: &Contract) -> (r: Contract)
    ensures
        r@ == c@,
{
    Contract {
        receives: c.receives.clone(),
        produces: c.produces.clone(),
        verify: c.verify.clone(),
    }
}

/// Clone an outcome, field for field.
pub fn clone_outcome(o: &Outcome) -> (r: Outcome)
    ensures
        r@ == o@,
{
    let r = Outcome { summary: o.summary.clone(), artifacts: clone_string_vec(&o.artifacts) };
    assert(r@.artifacts =~= o@.artifacts);
    r
}

/// Clone a task, field for field.
pub fn clone_task(t: &Task) -> (r: Task)
    ensures
        r@ == t@,
{
    let contract = match &t.contract {
        Some(c) => Some(clone_contract(c)),
        None => None,
    };
    let blocked_by = match &t.blocked_by {
        Some(v) => Some(clone_string_vec(v)),
        None => None,
    };
    let result = match &t.result {
        Some(o) => Some(clone_outcome(o)),
        None => None,
    };
    Task {
        id: t.id.clone(),
        goal_id: t.goal_id.clone(),
        description: t.description.clone(),
        contract,
        state: t.state,
        blocked_by,
        result,
        created_at: t.created_at,
        updated_at: t.updated_at,
        completed_at: t.completed_at,
        metrics: TaskMetrics {
            tokens: t.metrics.tokens,
            elapsed_ms: t.metrics.elapsed_ms,
            retry_count: t.metrics.retry_count,
        },
    }
}

/// Clone a goal, field for field.
pub fn clone_goal(g: &Goal) -> (r: Goal)
    ensures
        r@ == g@,
{
    let parent_id = match &g.parent_id {
        Some(p) => Some(p.clone()),
        None => None,
    };
    Goal {
        id: g.id.clone(),
        parent_id,
        description: g.description.clone(),
        state: g.state,
        created_at: g.created_at,
        updated_at: g.updated_at,
        completed_at: g.completed_at,
    }
}

} // verus!
