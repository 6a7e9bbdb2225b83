//! The entity store: durable state for goals and tasks in an embedded
//! SQLite database, reached through a small set of trusted wrappers.
//!
//! The database file is shared between independent processes, so nothing
//! read from it is assumed stable across two calls: every wrapper states
//! only what holds of the single statement it runs. Lifecycle transitions go
//! through the guarded (compare-and-swap) updates, whose `WHERE` clause
//! checks the expected prior state inside one atomic SQL statement; a `false`
//! result means another process moved the entity first.
//!
//! Rows travel as tuples of plain values; turning them into entities and
//! back is verified code (`task_from_parts`, `task_to_parts`, ...).

use vstd::prelude::*;

use crate::errors::EngineError;
use crate::models::{clone_string_vec, Contract, Goal, Outcome, Task, TaskMetrics};
use crate::state::{GoalState, TaskState};

verus! {

#[verifier::external_type_specification]
#[verifier::external_body]
pub struct ExConnection(rusqlite::Connection);

/// A handle on one project's store.
pub struct Database {
    conn: rusqlite::Connection,
}

/// A goal row: id, parent id, description, state name, created, updated,
/// completed.
pub type GoalRow = (String, Option<String>, String, String, i64, i64, Option<i64>);

/// A task row: id, goal id, description, the three contract fields, state
/// name, result summary, created, updated, completed, tokens, elapsed,
/// retries.
pub type TaskRow = (
    String,
    String,
    String,
    Option<String>,
    Option<String>,
    Option<String>,
    String,
    Option<String>,
    i64,
    i64,
    Option<i64>,
    i64,
    i64,
    i64,
);

impl Database {
    /// Relies on rusqlite::Connection::open: opens (or creates) the SQLite
    /// database file at `path`; `":memory:"` opens a transient in-memory store.
    #[verifier::external_body]
    pub fn open(path: &str) -> (r: Result<Database, EngineError>)
        ensures
            (r matches Err(e) ==> e is Storage),
    {
        match rusqlite::Connection::open(path) {
            Ok(conn) => Ok(Database { conn }),
            Err(_) => Err(EngineError::Storage),
        }
    }

    /// Relies on rusqlite::Connection::execute_batch: creates the tables and
    /// the index if they do not exist yet.
    #[verifier::external_body]
    pub fn init_schema(&mut self) -> (r: Result<(), EngineError>)
        ensures
            (r matches Err(e) ==> e is Storage),
    {
        let sql = "CREATE TABLE IF NOT EXISTS goals (id TEXT PRIMARY KEY, parent_id TEXT, description TEXT NOT NULL, state TEXT NOT NULL, created_at INTEGER NOT NULL, updated_at INTEGER NOT NULL, completed_at INTEGER);
            CREATE TABLE IF NOT EXISTS tasks (id TEXT PRIMARY KEY, goal_id TEXT NOT NULL, description TEXT NOT NULL, contract_receives TEXT, contract_produces TEXT, contract_verify TEXT, state TEXT NOT NULL, result_summary TEXT, created_at INTEGER NOT NULL, updated_at INTEGER NOT NULL, completed_at INTEGER, tokens INTEGER NOT NULL DEFAULT 0, elapsed_ms INTEGER NOT NULL DEFAULT 0, retry_count INTEGER NOT NULL DEFAULT 0, FOREIGN KEY(goal_id) REFERENCES goals(id));
            CREATE TABLE IF NOT EXISTS task_blockers (task_id TEXT NOT NULL, idx INTEGER NOT NULL, blocker_id TEXT NOT NULL);
            CREATE TABLE IF NOT EXISTS task_artifacts (task_id TEXT NOT NULL, idx INTEGER NOT NULL, artifact TEXT NOT NULL);
            CREATE INDEX IF NOT EXISTS idx_tasks_goal_id ON tasks(goal_id);";
        self.conn.execute_batch(sql).map_err(|_| EngineError::Storage)
    }

    /// Relies on rusqlite::Connection::execute: inserts one goal row; the
    /// primary key refuses a duplicate id.
    #[verifier::external_body]
    fn sql_insert_goal(&mut self, g: &GoalRow) -> (r: Result<(), EngineError>)
        ensures
            (r matches Err(e) ==> e is Storage),
    {
        let sql = "INSERT INTO goals (id, parent_id, description, state, created_at, updated_at, completed_at) VALUES (?1, ?2, ?3, ?4, ?5, ?6, ?7)";
        match self.conn.execute(sql, (&g.0, &g.1, &g.2, &g.3, &g.4, &g.5, &g.6)) {
            Ok(_) => Ok(()),
            Err(_) => Err(EngineError::Storage),
        }
    }

    /// Relies on rusqlite::Connection::query_row: fetches the goal row whose
    /// primary key equals `id`, so a returned row carries that id.
    #[verifier::external_body]
    fn sql_get_goal(&mut self, id: &str) -> (r: Result<Option<GoalRow>, EngineError>)
        ensures
            (r matches Ok(Some(row)) ==> row.0@ == id@),
            (r matches Err(e) ==> e is Storage),
    {
        let sql = "SELECT id, parent_id, description, state, created_at, updated_at, completed_at FROM goals WHERE id = ?1";
        match self.conn.query_row(sql, (id,), |row| GoalRow::try_from(row)) {
            Ok(g) => Ok(Some(g)),
            Err(rusqlite::Error::QueryReturnedNoRows) => Ok(None),
            Err(_) => Err(EngineError::Storage),
        }
    }

    /// Relies on rusqlite::Statement::query_map with `ORDER BY created_at
    /// DESC, rowid DESC`: returns all goal rows, newest creation stamp first.
    #[verifier::external_body]
    fn sql_list_goals(&mut self) -> (r: Result<Vec<GoalRow>, EngineError>)
        ensures
            (r matches Ok(rows) ==> forall|i: int, j: int|
                0 <= i < j < rows@.len() ==> rows@[i].4 >= rows@[j].4),
            (r matches Err(e) ==> e is Storage),
    {
        let sql = "SELECT id, parent_id, description, state, created_at, updated_at, completed_at FROM goals ORDER BY created_at DESC, rowid DESC";
        let run = || -> rusqlite::Result<Vec<GoalRow>> {
            let mut stmt = self.conn.prepare(sql)?;
            let rows = stmt.query_map((), |row| GoalRow::try_from(row))?;
            rows.collect()
        };
        run().map_err(|_| EngineError::Storage)
    }

    /// Relies on rusqlite::Connection::execute: rewrites the goal row whose
    /// primary key equals the given id.
    #[verifier::external_body]
    fn sql_update_goal(&mut self, g: &GoalRow) -> (r: Result<(), EngineError>)
        ensures
            (r matches Err(e) ==> e is Storage),
    {
        let sql = "UPDATE goals SET parent_id = ?2, description = ?3, state = ?4, created_at = ?5, updated_at = ?6, completed_at = ?7 WHERE id = ?1";
        match self.conn.execute(sql, (&g.0, &g.1, &g.2, &g.3, &g.4, &g.5, &g.6)) {
            Ok(_) => Ok(()),
            Err(_) => Err(EngineError::Storage),
        }
    }

    /// Relies on rusqlite::Connection::execute: inserts one task row; the
    /// primary key refuses a duplicate id.
    #[verifier::external_body]
    fn sql_insert_task(&mut self, t: &TaskRow) -> (r: Result<(), EngineError>)
        ensures
            (r matches Err(e) ==> e is Storage),
    {
        let sql = "INSERT INTO tasks (id, goal_id, description, contract_receives, contract_produces, contract_verify, state, result_summary, created_at, updated_at, completed_at, tokens, elapsed_ms, retry_count) VALUES (?1, ?2, ?3, ?4, ?5, ?6, ?7, ?8, ?9, ?10, ?11, ?12, ?13, ?14)";
        let p = (
            &t.0, &t.1, &t.2, &t.3, &t.4, &t.5, &t.6, &t.7, &t.8, &t.9, &t.10, &t.11, &t.12, &t.13,
        );
        match self.conn.execute(sql, p) {
            Ok(_) => Ok(()),
            Err(_) => Err(EngineError::Storage),
        }
    }

    /// Relies on rusqlite::Connection::query_row: fetches the task row whose
    /// primary key equals `id`, so a returned row carries that id.
    #[verifier::external_body]
    fn sql_get_task(&mut self, id: &str) -> (r: Result<Option<TaskRow>, EngineError>)
        ensures
            (r matches Ok(Some(row)) ==> row.0@ == id@),
            (r matches Err(e) ==> e is Storage),
    {
        let sql = "SELECT id, goal_id, description, contract_receives, contract_produces, contract_verify, state, result_summary, created_at, updated_at, completed_at, tokens, elapsed_ms, retry_count FROM tasks WHERE id = ?1";
        match self.conn.query_row(sql, (id,), |row| TaskRow::try_from(row)) {
            Ok(t) => Ok(Some(t)),
            Err(rusqlite::Error::QueryReturnedNoRows) => Ok(None),
            Err(_) => Err(EngineError::Storage),
        }
    }

    /// Relies on rusqlite::Statement::query_map with `WHERE goal_id = ?` and
    /// `ORDER BY created_at, rowid`: returns the tasks of that goal in
    /// creation order.
    #[verifier::external_body]
    fn sql_list_tasks(&mut self, goal_id: &str) -> (r: Result<Vec<TaskRow>, EngineError>)
        ensures
            (r matches Ok(rows) ==> forall|i: int|
                0 <= i < rows@.len() ==> (#[trigger] rows@[i]).1@ == goal_id@),
            (r matches Ok(rows) ==> forall|i: int, j: int|
                0 <= i < j < rows@.len() ==> rows@[i].8 <= rows@[j].8),
            (r matches Err(e) ==> e is Storage),
    {
        let sql = "SELECT id, goal_id, description, contract_receives, contract_produces, contract_verify, state, result_summary, created_at, updated_at, completed_at, tokens, elapsed_ms, retry_count FROM tasks WHERE goal_id = ?1 ORDER BY created_at ASC, rowid ASC";
        let run = || -> rusqlite::Result<Vec<TaskRow>> {
            let mut stmt = self.conn.prepare(sql)?;
            let rows = stmt.query_map((goal_id,), |row| TaskRow::try_from(row))?;
            rows.collect()
        };
        run().map_err(|_| EngineError::Storage)
    }

    /// Relies on rusqlite::Connection::execute: rewrites the descriptive
    /// fields of the task row whose primary key equals the given id. The
    /// state column is deliberately not touched: state moves only through
    /// the guarded updates.
    #[verifier::external_body]
    fn sql_update_task_fields(&mut self, t: &TaskRow) -> (r: Result<(), EngineError>)
        ensures
            (r matches Err(e) ==> e is Storage),
    {
        let sql = "UPDATE tasks SET description = ?2, contract_receives = ?3, contract_produces = ?4, contract_verify = ?5 WHERE id = ?1";
        match self.conn.execute(sql, (&t.0, &t.2, &t.3, &t.4, &t.5)) {
            Ok(_) => Ok(()),
            Err(_) => Err(EngineError::Storage),
        }
    }

    /// Relies on rusqlite::Connection::execute: one guarded update, `SET
    /// state, updated_at WHERE id AND state = from`. Returns whether a row
    /// was changed; `false` means the task was not in `from` at that moment.
    #[verifier::external_body]
    fn sql_cas_state(
        &mut self,
        id: &str,
        from: &str,
        to: &str,
        updated_at: i64,
    ) -> (r: Result<bool, EngineError>)
        ensures
            (r matches Err(e) ==> e is Storage),
    {
        let sql = "UPDATE tasks SET state = ?1, updated_at = ?2 WHERE id = ?3 AND state = ?4";
        match self.conn.execute(sql, (to, updated_at, id, from)) {
            Ok(n) => Ok(n > 0),
            Err(_) => Err(EngineError::Storage),
        }
    }

    /// Relies on rusqlite::Connection::execute: one guarded update accepting
    /// either of two prior states.
    #[verifier::external_body]
    fn sql_cas_state_either(
        &mut self,
        id: &str,
        from_a: &str,
        from_b: &str,
        to: &str,
        updated_at: i64,
    ) -> (r: Result<bool, EngineError>)
        ensures
            (r matches Err(e) ==> e is Storage),
    {
        let sql =
            "UPDATE tasks SET state = ?1, updated_at = ?2 WHERE id = ?3 AND state IN (?4, ?5)";
        match self.conn.execute(sql, (to, updated_at, id, from_a, from_b)) {
            Ok(n) => Ok(n > 0),
            Err(_) => Err(EngineError::Storage),
        }
    }

    /// Relies on rusqlite::Connection::execute: the guarded completion
    /// update, `WHERE id AND state = 'in_progress'`, writing the result
    /// summary, the counters and both stamps in the same atomic statement.
    #[verifier::external_body]
    fn sql_cas_complete(
        &mut self,
        id: &str,
        summary: &str,
        tokens: i64,
        elapsed_ms: i64,
        updated_at: i64,
        completed_at: i64,
    ) -> (r: Result<bool, EngineError>)
        ensures
            (r matches Err(e) ==> e is Storage),
    {
        let sql = "UPDATE tasks SET state = 'completed', result_summary = ?1, tokens = ?2, elapsed_ms = ?3, updated_at = ?4, completed_at = ?5 WHERE id = ?6 AND state = 'in_progress'";
        match self.conn.execute(sql, (summary, tokens, elapsed_ms, updated_at, completed_at, id)) {
            Ok(n) => Ok(n > 0),
            Err(_) => Err(EngineError::Storage),
        }
    }

    /// Relies on rusqlite::Connection::execute: the guarded retry update,
    /// `WHERE id AND state = 'failed'`, incrementing the retry counter in
    /// the same atomic statement.
    #[verifier::external_body]
    fn sql_cas_retry(&mut self, id: &str, updated_at: i64) -> (r: Result<bool, EngineError>)
        ensures
            (r matches Err(e) ==> e is Storage),
    {
        let sql = "UPDATE tasks SET state = 'in_progress', retry_count = retry_count + 1, updated_at = ?1 WHERE id = ?2 AND state = 'failed'";
        match self.conn.execute(sql, (updated_at, id)) {
            Ok(n) => Ok(n > 0),
            Err(_) => Err(EngineError::Storage),
        }
    }

    /// Relies on rusqlite::Connection::execute: appends one row to the
    /// ordered list of a task's blockers.
    #[verifier::external_body]
    fn sql_insert_blocker(
        &mut self,
        task_id: &str,
        idx: i64,
        blocker_id: &str,
    ) -> (r: Result<(), EngineError>)
        ensures
            (r matches Err(e) ==> e is Storage),
    {
        let sql = "INSERT INTO task_blockers (task_id, idx, blocker_id) VALUES (?1, ?2, ?3)";
        match self.conn.execute(sql, (task_id, idx, blocker_id)) {
            Ok(_) => Ok(()),
            Err(_) => Err(EngineError::Storage),
        }
    }

    /// Relies on rusqlite::Statement::query_map with `ORDER BY idx`: the
    /// stored blocker ids of a task, in their stored order.
    #[verifier::external_body]
    fn sql_list_blockers(&mut self, task_id: &str) -> (r: Result<Vec<String>, EngineError>)
        ensures
            (r matches Err(e) ==> e is Storage),
    {
        let sql = "SELECT blocker_id FROM task_blockers WHERE task_id = ?1 ORDER BY idx ASC";
        let run = || -> rusqlite::Result<Vec<String>> {
            let mut stmt = self.conn.prepare(sql)?;
            let rows = stmt.query_map((task_id,), |row| row.get(0))?;
            rows.collect()
        };
        run().map_err(|_| EngineError::Storage)
    }

    /// Relies on rusqlite::Connection::execute: removes a task's blocker rows.
    #[verifier::external_body]
    fn sql_delete_blockers(&mut self, task_id: &str) -> (r: Result<(), EngineError>)
        ensures
            (r matches Err(e) ==> e is Storage),
    {
        let sql = "DELETE FROM task_blockers WHERE task_id = ?1";
        match self.conn.execute(sql, (task_id,)) {
            Ok(_) => Ok(()),
            Err(_) => Err(EngineError::Storage),
        }
    }

    /// Relies on rusqlite::Connection::execute: appends one row to the
    /// ordered list of a task's result artifacts.
    #[verifier::external_body]
    fn sql_insert_artifact(
        &mut self,
        task_id: &str,
        idx: i64,
        artifact: &str,
    ) -> (r: Result<(), EngineError>)
        ensures
            (r matches Err(e) ==> e is Storage),
    {
        let sql = "INSERT INTO task_artifacts (task_id, idx, artifact) VALUES (?1, ?2, ?3)";
        match self.conn.execute(sql, (task_id, idx, artifact)) {
            Ok(_) => Ok(()),
            Err(_) => Err(EngineError::Storage),
        }
    }

    /// Relies on rusqlite::Statement::query_map with `ORDER BY idx`: the
    /// stored artifacts of a task, in their stored order.
    #[verifier::external_body]
    fn sql_list_artifacts(&mut self, task_id: &str) -> (r: Result<Vec<String>, EngineError>)
        ensures
            (r matches Err(e) ==> e is Storage),
    {
        let sql = "SELECT artifact FROM task_artifacts WHERE task_id = ?1 ORDER BY idx ASC";
        let run = || -> rusqlite::Result<Vec<String>> {
            let mut stmt = self.conn.prepare(sql)?;
            let rows = stmt.query_map((task_id,), |row| row.get(0))?;
            rows.collect()
        };
        run().map_err(|_| EngineError::Storage)
    }

    /// Relies on rusqlite::Connection::execute: removes the blocker and
    /// artifact rows of every task of the goal, then those tasks. Returns
    /// how many tasks were removed.
    #[verifier::external_body]
    fn sql_delete_tasks_of_goal(&mut self, goal_id: &str) -> (r: Result<usize, EngineError>)
        ensures
            (r matches Err(e) ==> e is Storage),
    {
        let run = || -> rusqlite::Result<usize> {
            self.conn.execute(
                "DELETE FROM task_blockers WHERE task_id IN (SELECT id FROM tasks WHERE goal_id = ?1)",
                (goal_id,),
            )?;
            self.conn.execute(
                "DELETE FROM task_artifacts WHERE task_id IN (SELECT id FROM tasks WHERE goal_id = ?1)",
                (goal_id,),
            )?;
            self.conn.execute("DELETE FROM tasks WHERE goal_id = ?1", (goal_id,))
        };
        run().map_err(|_| EngineError::Storage)
    }

    /// Relies on rusqlite::Connection::execute: removes the goal row itself.
    /// Returns whether a row was removed.
    #[verifier::external_body]
    fn sql_delete_goal(&mut self, goal_id: &str) -> (r: Result<bool, EngineError>)
        ensures
            (r matches Err(e) ==> e is Storage),
    {
        match self.conn.execute("DELETE FROM goals WHERE id = ?1", (goal_id,)) {
            Ok(n) => Ok(n > 0),
            Err(_) => Err(EngineError::Storage),
        }
    }
}

/// The goal a stored row stands for, or a storage error when the stored
/// state name is not one the library writes.
pub fn goal_from_row(row: GoalRow) -> (r: Result<Goal, EngineError>)
    ensures
        match r {
            Ok(g) => {
                &&& g@.id == row.0@
                &&& g@.parent_id == (match row.1 {
                    Some(p) => Some(p@),
                    None => None::<Seq<char>>,
                })
                &&& g@.description == row.2@
                &&& row.3@ == g@.state.name()
                &&& g@.created_at == row.4 as int
                &&& g@.updated_at == row.5 as int
                &&& g@.completed_at == (match row.6 {
                    Some(ts) => Some(ts as int),
                    None => None::<int>,
                })
            },
            Err(e) => e is Storage && (forall|st: GoalState| row.3@ != st.name()),
        },
{
    let (id, parent_id, description, state_name, created_at, updated_at, completed_at) = row;
    let state = match GoalState::from_str(state_name.as_str()) {
        Some(s) => s,
        None => {
            return Err(EngineError::Storage);
        },
    };
    Ok(Goal { id, parent_id, description, state, created_at, updated_at, completed_at })
}

/// The stored form of a goal.
pub fn goal_to_row(g: &Goal) -> (r: GoalRow)
    ensures
        r.0@ == g@.id,
        (match r.1 {
            Some(p) => Some(p@),
            None => None::<Seq<char>>,
        }) == g@.parent_id,
        r.2@ == g@.description,
        r.3@ == g@.state.name(),
        r.4 as int == g@.created_at,
        r.5 as int == g@.updated_at,
        (match r.6 {
            Some(ts) => Some(ts as int),
            None => None::<int>,
        }) == g@.completed_at,
{
    let parent_id = match &g.parent_id {
        Some(p) => Some(p.clone()),
        None => None,
    };
    let state_name = g.state.as_str();
    (
        g.id.clone(),
        parent_id,
        g.description.clone(),
        state_name.to_owned(),
        g.created_at,
        g.updated_at,
        g.completed_at,
    )
}

/// The task a stored row stands for, together with its stored blocker and
/// artifact lists. A contract exists when any contract column was set; a
/// result exists when the summary column was set; an empty blocker list
/// means no dependencies.
pub fn task_from_parts(
    row: TaskRow,
    blockers: Vec<String>,
    artifacts: Vec<String>,
) -> (r: Result<Task, EngineError>)
    ensures
        match r {
            Ok(t) => {
                &&& t@.id == row.0@
                &&& t@.goal_id == row.1@
                &&& t@.description == row.2@
                &&& t@.contract == (if (row.3 is Some) || (row.4 is Some) || (row.5 is Some) {
                    Some(crate::models::ContractV {
                        receives: (match row.3 {
                            Some(s) => s@,
                            None => Seq::<char>::empty(),
                        }),
                        produces: (match row.4 {
                            Some(s) => s@,
                            None => Seq::<char>::empty(),
                        }),
                        verify: (match row.5 {
                            Some(s) => s@,
                            None => Seq::<char>::empty(),
                        }),
                    })
                } else {
                    None
                })
                &&& row.6@ == t@.state.name()
                &&& t@.blocked_by == (if blockers@.len() > 0 {
                    Some(blockers.deep_view())
                } else {
                    None::<Seq<Seq<char>>>
                })
                &&& t@.result == (match row.7 {
                    Some(s) => Some(crate::models::OutcomeV {
                        summary: s@,
                        artifacts: artifacts.deep_view(),
                    }),
                    None => None::<crate::models::OutcomeV>,
                })
                &&& t@.created_at == row.8 as int
                &&& t@.updated_at == row.9 as int
                &&& t@.completed_at == (match row.10 {
                    Some(ts) => Some(ts as int),
                    None => None::<int>,
                })
                &&& t@.tokens == row.11 as int
                &&& t@.elapsed_ms == row.12 as int
                &&& t@.retry_count == row.13 as int
            },
            Err(e) => e is Storage && (forall|st: TaskState| row.6@ != st.name()),
        },
{
    let (
        id,
        goal_id,
        description,
        receives,
        produces,
        verify,
        state_name,
        summary,
        created_at,
        updated_at,
        completed_at,
        tokens,
        elapsed_ms,
        retry_count,
    ) = row;
    let state = match TaskState::from_str(state_name.as_str()) {
        Some(s) => s,
        None => {
            return Err(EngineError::Storage);
        },
    };
    let contract = if receives.is_some() || produces.is_some() || verify.is_some() {
        Some(
            Contract {
                receives: match receives {
                    Some(s) => s,
                    None => String::new(),
                },
                produces: match produces {
                    Some(s) => s,
                    None => String::new(),
                },
                verify: match verify {
                    Some(s) => s,
                    None => String::new(),
                },
            },
        )
    } else {
        None
    };
    let blocked_by = if blockers.len() > 0 {
        Some(blockers)
    } else {
        None
    };
    let result = match summary {
        Some(s) => Some(Outcome { summary: s, artifacts }),
        None => None,
    };
    Ok(
        Task {
            id,
            goal_id,
            description,
            contract,
            state,
            blocked_by,
            result,
            created_at,
            updated_at,
            completed_at,
            metrics: TaskMetrics { tokens, elapsed_ms, retry_count },
        },
    )
}

/// The stored form of a task: its row, its blocker list and its artifact
/// list.
pub fn task_to_parts(t: &Task) -> (r: (TaskRow, Vec<String>, Vec<String>))
    ensures
        r.0.0@ == t@.id,
        r.0.1@ == t@.goal_id,
        r.0.2@ == t@.description,
        (match t@.contract {
            Some(c) => (r.0.3 matches Some(s) && s@ == c.receives) && (r.0.4 matches Some(s2)
                && s2@ == c.produces) && (r.0.5 matches Some(s3) && s3@ == c.verify),
            None => (r.0.3 is None) && (r.0.4 is None) && (r.0.5 is None),
        }),
        r.0.6@ == t@.state.name(),
        (match t@.result {
            Some(o) => (r.0.7 matches Some(s) && s@ == o.summary) && r.2.deep_view()
                == o.artifacts,
            None => (r.0.7 is None) && r.2@.len() == 0,
        }),
        r.0.8 as int == t@.created_at,
        r.0.9 as int == t@.updated_at,
        (match r.0.10 {
            Some(ts) => Some(ts as int),
            None => None::<int>,
        }) == t@.completed_at,
        r.0.11 as int == t@.tokens,
        r.0.12 as int == t@.elapsed_ms,
        r.0.13 as int == t@.retry_count,
        r.1.deep_view() == t@.blockers(),
{
    let (receives, produces, verify) = match &t.contract {
        Some(c) => (Some(c.receives.clone()), Some(c.produces.clone()), Some(c.verify.clone())),
        None => (None, None, None),
    };
    let (summary, artifacts) = match &t.result {
        Some(o) => (Some(o.summary.clone()), clone_string_vec(&o.artifacts)),
        None => (None, Vec::new()),
    };
    let blockers = match &t.blocked_by {
        Some(v) => clone_string_vec(v),
        None => Vec::new(),
    };
    proof {
        assert(blockers.deep_view() =~= t@.blockers());
        if t@.result is Some {
            assert(artifacts.deep_view() =~= t@.result->Some_0.artifacts);
        }
    }
    let completed_at = t.completed_at;
    let row = (
        t.id.clone(),
        t.goal_id.clone(),
        t.description.clone(),
        receives,
        produces,
        verify,
        t.state.as_str().to_owned(),
        summary,
        t.created_at,
        t.updated_at,
        completed_at,
        t.metrics.tokens,
        t.metrics.elapsed_ms,
        t.metrics.retry_count,
    );
    (row, blockers, artifacts)
}

impl Database {
    /// Fetch the goal with the given id, if it exists.
    pub fn get_goal(&mut self, id: &str) -> (r: Result<Option<Goal>, EngineError>)
        ensures
            (r matches Ok(Some(g)) ==> g@.id == id@),
            (r matches Err(e) ==> e is Storage),
    {
        match self.sql_get_goal(id) {
            Ok(Some(row)) => match goal_from_row(row) {
                Ok(g) => Ok(Some(g)),
                Err(e) => Err(e),
            },
            Ok(None) => Ok(None),
            Err(e) => Err(e),
        }
    }

    /// Fetch the task with the given id, if it exists, together with its
    /// stored blocker and artifact lists.
    pub fn get_task(&mut self, id: &str) -> (r: Result<Option<Task>, EngineError>)
        ensures
            (r matches Ok(Some(t)) ==> t@.id == id@),
            (r matches Err(e) ==> e is Storage),
    {
        match self.sql_get_task(id) {
            Ok(Some(row)) => {
                let blockers = match self.sql_list_blockers(id) {
                    Ok(v) => v,
                    Err(e) => {
                        return Err(e);
                    },
                };
                let artifacts = match self.sql_list_artifacts(id) {
                    Ok(v) => v,
                    Err(e) => {
                        return Err(e);
                    },
                };
                match task_from_parts(row, blockers, artifacts) {
                    Ok(t) => Ok(Some(t)),
                    Err(e) => Err(e),
                }
            },
            Ok(None) => Ok(None),
            Err(e) => Err(e),
        }
    }

    /// All goals, newest creation stamp first.
    pub fn list_goals(&mut self) -> (r: Result<Vec<Goal>, EngineError>)
        ensures
            (r matches Ok(gs) ==> forall|i: int, j: int|
                0 <= i < j < gs@.len() ==> gs@[i]@.created_at >= gs@[j]@.created_at),
            (r matches Err(e) ==> e is Storage),
    {
        let rows = match self.sql_list_goals() {
            Ok(v) => v,
            Err(e) => {
                return Err(e);
            },
        };
        let ghost rowsv = rows@;
        let mut out: Vec<Goal> = Vec::new();
        let mut i: usize = 0;
        while i < rows.len()
            invariant
                i <= rows.len(),
                rowsv == rows@,
                out@.len() == i,
                forall|q: int| 0 <= q < i ==> out@[q]@.created_at == rowsv[q].4,
                forall|q1: int, q2: int| 0 <= q1 < q2 < rowsv.len() ==> rowsv[q1].4 >= rowsv[q2].4,
            decreases rows.len() - i,
        {
            let row = (
                rows[i].0.clone(),
                match &rows[i].1 {
                    Some(p) => Some(p.clone()),
                    None => None,
                },
                rows[i].2.clone(),
                rows[i].3.clone(),
                rows[i].4,
                rows[i].5,
                rows[i].6,
            );
            match goal_from_row(row) {
                Ok(g) => out.push(g),
                Err(e) => {
                    return Err(e);
                },
            }
            i += 1;
        }
        proof {
            assert forall|i: int, j: int| 0 <= i < j < out@.len() implies out@[i]@.created_at
                >= out@[j]@.created_at by {
                assert(out@[i]@.created_at == rowsv[i].4);
                assert(out@[j]@.created_at == rowsv[j].4);
            }
        }
        Ok(out)
    }

    /// The tasks of the given goal, in creation order, each with its stored
    /// blocker and artifact lists.
    pub fn list_tasks(&mut self, goal_id: &str) -> (r: Result<Vec<Task>, EngineError>)
        ensures
            (r matches Ok(ts) ==> forall|k: int|
                0 <= k < ts@.len() ==> (#[trigger] ts@[k])@.goal_id == goal_id@),
            (r matches Ok(ts) ==> forall|i: int, j: int|
                0 <= i < j < ts@.len() ==> ts@[i]@.created_at <= ts@[j]@.created_at),
            (r matches Err(e) ==> e is Storage),
    {
        let rows = match self.sql_list_tasks(goal_id) {
            Ok(v) => v,
            Err(e) => {
                return Err(e);
            },
        };
        let ghost rowsv = rows@;
        let mut out: Vec<Task> = Vec::new();
        let mut i: usize = 0;
        while i < rows.len()
            invariant
                i <= rows.len(),
                rowsv == rows@,
                out@.len() == i,
                forall|q: int| 0 <= q < i ==> (#[trigger] out@[q])@.goal_id == goal_id@,
                forall|q: int| 0 <= q < i ==> out@[q]@.created_at == rowsv[q].8,
                forall|q: int| 0 <= q < rowsv.len() ==> (#[trigger] rowsv[q]).1@ == goal_id@,
                forall|q1: int, q2: int| 0 <= q1 < q2 < rowsv.len() ==> rowsv[q1].8 <= rowsv[q2].8,
            decreases rows.len() - i,
        {
            let id = rows[i].0.clone();
            let row = (
                rows[i].0.clone(),
                rows[i].1.clone(),
                rows[i].2.clone(),
                match &rows[i].3 {
                    Some(s) => Some(s.clone()),
                    None => None,
                },
                match &rows[i].4 {
                    Some(s) => Some(s.clone()),
                    None => None,
                },
                match &rows[i].5 {
                    Some(s) => Some(s.clone()),
                    None => None,
                },
                rows[i].6.clone(),
                match &rows[i].7 {
                    Some(s) => Some(s.clone()),
                    None => None,
                },
                rows[i].8,
                rows[i].9,
                rows[i].10,
                rows[i].11,
                rows[i].12,
                rows[i].13,
            );
            let blockers = match self.sql_list_blockers(id.as_str()) {
                Ok(v) => v,
                Err(e) => {
                    return Err(e);
                },
            };
            let artifacts = match self.sql_list_artifacts(id.as_str()) {
                Ok(v) => v,
                Err(e) => {
                    return Err(e);
                },
            };
            match task_from_parts(row, blockers, artifacts) {
                Ok(t) => out.push(t),
                Err(e) => {
                    return Err(e);
                },
            }
            i += 1;
        }
        proof {
            assert forall|i: int, j: int| 0 <= i < j < out@.len() implies out@[i]@.created_at
                <= out@[j]@.created_at by {
                assert(out@[i]@.created_at == rowsv[i].8);
                assert(out@[j]@.created_at == rowsv[j].8);
            }
        }
        Ok(out)
    }

    /// Store a fresh goal. The id must be unused; a taken id is reported as
    /// a conflict.
    pub fn create_goal(&mut self, g: &Goal) -> (r: Result<(), EngineError>)
        ensures
            (r matches Err(e) ==> e is Storage || e is Conflict),
    {
        match self.get_goal(g.id.as_str()) {
            Ok(Some(_)) => {
                return Err(EngineError::Conflict);
            },
            Ok(None) => {},
            Err(e) => {
                return Err(e);
            },
        }
        let row = goal_to_row(g);
        self.sql_insert_goal(&row)
    }

    /// Rewrite a stored goal.
    pub fn update_goal(&mut self, g: &Goal) -> (r: Result<(), EngineError>)
        ensures
            (r matches Err(e) ==> e is Storage),
    {
        let row = goal_to_row(g);
        self.sql_update_goal(&row)
    }

    /// Store a fresh task with its blocker list. The id must be unused; a
    /// taken id is reported as a conflict.
    pub fn create_task(&mut self, t: &Task) -> (r: Result<(), EngineError>)
        requires
            t@.blockers().len() <= i64::MAX,
        ensures
            (r matches Err(e) ==> e is Storage || e is Conflict),
    {
        match self.get_task(t.id.as_str()) {
            Ok(Some(_)) => {
                return Err(EngineError::Conflict);
            },
            Ok(None) => {},
            Err(e) => {
                return Err(e);
            },
        }
        let (row, blockers, _artifacts) = task_to_parts(t);
        match self.sql_insert_task(&row) {
            Ok(()) => {},
            Err(e) => {
                return Err(e);
            },
        }
        let mut i: usize = 0;
        while i < blockers.len()
            invariant
                i <= blockers.len(),
                blockers@.len() <= i64::MAX,
            decreases blockers.len() - i,
        {
            match self.sql_insert_blocker(row.0.as_str(), i as i64, blockers[i].as_str()) {
                Ok(()) => {},
                Err(e) => {
                    return Err(e);
                },
            }
            i += 1;
        }
        Ok(())
    }

    /// Rewrite a task's descriptive fields (description and contract) and
    /// its blocker list. The lifecycle state is not touched.
    pub fn update_task_fields(&mut self, t: &Task) -> (r: Result<(), EngineError>)
        ensures
            (r matches Err(e) ==> e is Storage),
    {
        let (row, blockers, _artifacts) = task_to_parts(t);
        if blockers.len() as u64 > i64::MAX as u64 {
            return Err(EngineError::Storage);
        }
        match self.sql_update_task_fields(&row) {
            Ok(()) => {},
            Err(e) => {
                return Err(e);
            },
        }
        match self.sql_delete_blockers(row.0.as_str()) {
            Ok(()) => {},
            Err(e) => {
                return Err(e);
            },
        }
        let mut i: usize = 0;
        while i < blockers.len()
            invariant
                i <= blockers.len(),
                blockers@.len() <= i64::MAX,
            decreases blockers.len() - i,
        {
            match self.sql_insert_blocker(row.0.as_str(), i as i64, blockers[i].as_str()) {
                Ok(()) => {},
                Err(e) => {
                    return Err(e);
                },
            }
            i += 1;
        }
        Ok(())
    }

    /// Record the artifact list of a completed task.
    pub fn record_artifacts(&mut self, task_id: &str, artifacts: &Vec<String>) -> (r: Result<
        (),
        EngineError,
    >)
        requires
            artifacts@.len() <= i64::MAX,
        ensures
            (r matches Err(e) ==> e is Storage),
    {
        let mut i: usize = 0;
        while i < artifacts.len()
            invariant
                i <= artifacts.len(),
                artifacts@.len() <= i64::MAX,
            decreases artifacts.len() - i,
        {
            match self.sql_insert_artifact(task_id, i as i64, artifacts[i].as_str()) {
                Ok(()) => {},
                Err(e) => {
                    return Err(e);
                },
            }
            i += 1;
        }
        Ok(())
    }

    /// Atomically move a task from one expected state to another. `false`
    /// means the task was not in the expected state at that moment.
    pub fn transition_task_state(
        &mut self,
        id: &str,
        from: &TaskState,
        to: &TaskState,
        updated_at: i64,
    ) -> (r: Result<bool, EngineError>)
        ensures
            (r matches Err(e) ==> e is Storage),
    {
        self.sql_cas_state(id, from.as_str(), to.as_str(), updated_at)
    }

    /// Atomically move a task from either of two expected states to a new
    /// one. `false` means the task was in neither at that moment.
    pub fn transition_task_state_from_any(
        &mut self,
        id: &str,
        from_a: &TaskState,
        from_b: &TaskState,
        to: &TaskState,
        updated_at: i64,
    ) -> (r: Result<bool, EngineError>)
        ensures
            (r matches Err(e) ==> e is Storage),
    {
        self.sql_cas_state_either(id, from_a.as_str(), from_b.as_str(), to.as_str(), updated_at)
    }

    /// Atomically complete a task that is `InProgress`, recording its result
    /// summary, counters and stamps in the same guarded update, then its
    /// artifact list. `false` means the task was not `InProgress`.
    pub fn complete_task(
        &mut self,
        id: &str,
        result_summary: &str,
        artifacts: &Vec<String>,
        tokens: i64,
        elapsed_ms: i64,
        updated_at: i64,
        completed_at: i64,
    ) -> (r: Result<bool, EngineError>)
        requires
            artifacts@.len() <= i64::MAX,
        ensures
            (r matches Err(e) ==> e is Storage),
    {
        let won = match self.sql_cas_complete(
            id,
            result_summary,
            tokens,
            elapsed_ms,
            updated_at,
            completed_at,
        ) {
            Ok(b) => b,
            Err(e) => {
                return Err(e);
            },
        };
        if won {
            match self.record_artifacts(id, artifacts) {
                Ok(()) => {},
                Err(e) => {
                    return Err(e);
                },
            }
        }
        Ok(won)
    }

    /// Atomically retry a `Failed` task: back to `InProgress`, with the
    /// retry counter incremented in the same guarded update. `false` means
    /// the task was not `Failed`.
    pub fn retry_task(&mut self, id: &str, updated_at: i64) -> (r: Result<bool, EngineError>)
        ensures
            (r matches Err(e) ==> e is Storage),
    {
        self.sql_cas_retry(id, updated_at)
    }

    /// The derived rollup counters of a goal, recomputed from its stored
    /// tasks.
    pub fn compute_goal_metrics(&mut self, goal_id: &str) -> (r: Result<
        crate::models::Metrics,
        EngineError,
    >)
        ensures
            (r matches Ok(m) ==> 0 <= m.tasks_completed <= m.task_count && 0 <= m.tasks_failed
                <= m.task_count && m.task_count >= 0),
            (r matches Err(e) ==> e is Storage),
    {
        let tasks = match self.list_tasks(goal_id) {
            Ok(v) => v,
            Err(e) => {
                return Err(e);
            },
        };
        if tasks.len() as u64 > i64::MAX as u64 {
            return Err(EngineError::Storage);
        }
        let m = crate::engine::compute_goal_metrics(&tasks);
        proof {
            crate::engine::lemma_count_bounds(
                tasks.deep_view(),
                crate::engine::is_completed(),
                tasks@.len() as int,
            );
            crate::engine::lemma_count_bounds(
                tasks.deep_view(),
                crate::engine::is_failed(),
                tasks@.len() as int,
            );
        }
        Ok(m)
    }

    /// Remove a goal and everything under it: its tasks with their blocker
    /// and artifact rows, then the goal itself. Returns how many entities
    /// were removed (the tasks, plus the goal when it existed).
    pub fn delete_goal(&mut self, goal_id: &str) -> (r: Result<usize, EngineError>)
        ensures
            (r matches Err(e) ==> e is Storage),
    {
        let tasks_removed = match self.sql_delete_tasks_of_goal(goal_id) {
            Ok(n) => n,
            Err(e) => {
                return Err(e);
            },
        };
        let goal_removed = match self.sql_delete_goal(goal_id) {
            Ok(b) => b,
            Err(e) => {
                return Err(e);
            },
        };
        if goal_removed {
            Ok(tasks_removed.saturating_add(1))
        } else {
            Ok(tasks_removed)
        }
    }
}

} // verus!
