use radial::commands::{goal, task};
use radial::db::Database;
use radial::errors::EngineError;
use radial::state::{GoalState, TaskState};

fn fresh_db() -> Database {
    let mut db = Database::open(":memory:").expect("open in-memory store");
    db.init_schema().expect("schema");
    db
}

#[test]
fn creation_sets_initial_state_by_blockers() {
    let mut db = fresh_db();
    let g = goal::create(&mut db, "a goal".to_string()).unwrap();
    assert_eq!(g.state, GoalState::Pending);

    let free = task::create(&mut db, &g.id, "free".to_string(), None, None, None, None).unwrap();
    assert_eq!(free.state, TaskState::Pending);

    let blocked = task::create(
        &mut db,
        &g.id,
        "blocked".to_string(),
        None,
        None,
        None,
        Some(vec![free.id.clone()]),
    )
    .unwrap();
    assert_eq!(blocked.state, TaskState::Blocked);

    // an empty blocker list counts as absent
    let empty = task::create(
        &mut db,
        &g.id,
        "empty blockers".to_string(),
        None,
        None,
        None,
        Some(Vec::new()),
    )
    .unwrap();
    assert_eq!(empty.state, TaskState::Pending);

    // creating the first task moved the goal to in_progress
    let g2 = db.get_goal(&g.id).unwrap().unwrap();
    assert_eq!(g2.state, GoalState::InProgress);
}

#[test]
fn start_requires_contract_then_pending_state() {
    let mut db = fresh_db();
    let g = goal::create(&mut db, "g".to_string()).unwrap();
    let bare = task::create(&mut db, &g.id, "no contract".to_string(), None, None, None, None)
        .unwrap();

    // a contract-less task is refused before anything else
    match task::start(&mut db, &bare.id) {
        Err(EngineError::NeedsContract) => {}
        other => panic!("expected NeedsContract, got {:?}", other.map(|t| t.state)),
    }

    // a blocked task names its blockers
    let a = task::create(
        &mut db,
        &g.id,
        "a".to_string(),
        Some("r".to_string()),
        None,
        None,
        None,
    )
    .unwrap();
    let b = task::create(
        &mut db,
        &g.id,
        "b".to_string(),
        Some("r".to_string()),
        None,
        None,
        Some(vec![a.id.clone()]),
    )
    .unwrap();
    match task::start(&mut db, &b.id) {
        Err(EngineError::Blocked { blockers }) => assert_eq!(blockers, vec![a.id.clone()]),
        other => panic!("expected Blocked, got {:?}", other.map(|t| t.state)),
    }

    // a startable task starts
    let started = task::start(&mut db, &a.id).unwrap();
    assert_eq!(started.state, TaskState::InProgress);

    // starting again is a state error naming the current state
    match task::start(&mut db, &a.id) {
        Err(EngineError::InvalidState { current }) => assert_eq!(current, TaskState::InProgress),
        other => panic!("expected InvalidState, got {:?}", other.map(|t| t.state)),
    }
}

#[test]
fn simulated_race_one_winner_one_conflict() {
    let mut db = fresh_db();
    let g = goal::create(&mut db, "g".to_string()).unwrap();
    let t = task::create(
        &mut db,
        &g.id,
        "t".to_string(),
        Some("r".to_string()),
        None,
        None,
        None,
    )
    .unwrap();

    // two invocations fetch the same pending snapshot
    let snap1 = db.get_task(&t.id).unwrap().unwrap();
    let snap2 = db.get_task(&t.id).unwrap().unwrap();

    let first = task::start_from_snapshot(&mut db, &snap1);
    assert!(first.is_ok());
    match task::start_from_snapshot(&mut db, &snap2) {
        Err(EngineError::Conflict) => {}
        other => panic!("expected Conflict, got {:?}", other.map(|t| t.state)),
    }
}

#[test]
fn completing_sole_blocker_unblocks_dependent() {
    let mut db = fresh_db();
    let g = goal::create(&mut db, "g".to_string()).unwrap();
    let a = task::create(
        &mut db,
        &g.id,
        "a".to_string(),
        Some("r".to_string()),
        None,
        None,
        None,
    )
    .unwrap();
    let d = task::create(
        &mut db,
        &g.id,
        "d".to_string(),
        None,
        None,
        None,
        Some(vec![a.id.clone()]),
    )
    .unwrap();

    task::start(&mut db, &a.id).unwrap();
    let done = task::complete(&mut db, &a.id, "done".to_string(), None, None, None).unwrap();
    assert_eq!(done.unblocked, vec![d.id.clone()]);

    let d2 = db.get_task(&d.id).unwrap().unwrap();
    assert_eq!(d2.state, TaskState::Pending);
}

#[test]
fn dependent_with_unfinished_second_blocker_stays_blocked() {
    let mut db = fresh_db();
    let g = goal::create(&mut db, "g".to_string()).unwrap();
    let a = task::create(
        &mut db,
        &g.id,
        "a".to_string(),
        Some("r".to_string()),
        None,
        None,
        None,
    )
    .unwrap();
    let b = task::create(
        &mut db,
        &g.id,
        "b".to_string(),
        Some("r".to_string()),
        None,
        None,
        None,
    )
    .unwrap();
    let d = task::create(
        &mut db,
        &g.id,
        "d".to_string(),
        None,
        None,
        None,
        Some(vec![a.id.clone(), b.id.clone()]),
    )
    .unwrap();

    task::start(&mut db, &a.id).unwrap();
    let done = task::complete(&mut db, &a.id, "done".to_string(), None, None, None).unwrap();
    assert!(done.unblocked.is_empty());

    let d2 = db.get_task(&d.id).unwrap().unwrap();
    assert_eq!(d2.state, TaskState::Blocked);
}

#[test]
fn last_completion_completes_goal_and_rerun_is_noop() {
    let mut db = fresh_db();
    let g = goal::create(&mut db, "g".to_string()).unwrap();
    let t = task::create(
        &mut db,
        &g.id,
        "only".to_string(),
        Some("r".to_string()),
        None,
        None,
        None,
    )
    .unwrap();
    task::start(&mut db, &t.id).unwrap();
    let done = task::complete(&mut db, &t.id, "done".to_string(), None, None, None).unwrap();
    assert_eq!(done.goal.state, GoalState::Completed);
    assert!(done.goal.completed_at.is_some());

    let stored = db.get_goal(&g.id).unwrap().unwrap();
    assert_eq!(stored.state, GoalState::Completed);
    let stamp = stored.completed_at.expect("completion stamp");

    // re-running the cascade against the fully completed goal changes nothing
    let tasks = db.list_tasks(&g.id).unwrap();
    let (updated, unblocked) = radial::engine::unblock_pass(&tasks, &t.id, stamp + 1000);
    assert!(unblocked.is_empty());
    assert_eq!(updated.len(), tasks.len());
    let rolled = radial::engine::rollup_goal(&stored, &tasks, stamp + 1000);
    assert_eq!(rolled.state, GoalState::Completed);
    assert_eq!(rolled.completed_at, Some(stamp));
    assert_eq!(rolled.updated_at, stored.updated_at);
}

#[test]
fn failing_task_fails_goal_on_next_cascade() {
    let mut db = fresh_db();
    let g = goal::create(&mut db, "g".to_string()).unwrap();
    let a = task::create(
        &mut db,
        &g.id,
        "a".to_string(),
        Some("r".to_string()),
        None,
        None,
        None,
    )
    .unwrap();
    let b = task::create(
        &mut db,
        &g.id,
        "b".to_string(),
        Some("r".to_string()),
        None,
        None,
        None,
    )
    .unwrap();

    task::start(&mut db, &a.id).unwrap();
    task::fail(&mut db, &a.id).unwrap();
    task::start(&mut db, &b.id).unwrap();
    let done = task::complete(&mut db, &b.id, "done".to_string(), None, None, None).unwrap();
    assert_eq!(done.goal.state, GoalState::Failed);
    assert_eq!(done.goal.completed_at, None);
}

#[test]
fn retry_only_from_failed_and_increments_count() {
    let mut db = fresh_db();
    let g = goal::create(&mut db, "g".to_string()).unwrap();
    let t = task::create(
        &mut db,
        &g.id,
        "t".to_string(),
        Some("r".to_string()),
        None,
        None,
        None,
    )
    .unwrap();

    // retry from pending is a state error
    match task::retry(&mut db, &t.id) {
        Err(EngineError::InvalidState { current }) => assert_eq!(current, TaskState::Pending),
        other => panic!("expected InvalidState, got {:?}", other.map(|t| t.state)),
    }

    task::start(&mut db, &t.id).unwrap();
    task::fail(&mut db, &t.id).unwrap();
    let retried = task::retry(&mut db, &t.id).unwrap();
    assert_eq!(retried.state, TaskState::InProgress);
    assert_eq!(retried.metrics.retry_count, 1);

    task::fail(&mut db, &t.id).unwrap();
    let retried2 = task::retry(&mut db, &t.id).unwrap();
    assert_eq!(retried2.metrics.retry_count, 2);
}

#[test]
fn fail_only_from_in_progress_or_verifying() {
    let mut db = fresh_db();
    let g = goal::create(&mut db, "g".to_string()).unwrap();
    let t = task::create(
        &mut db,
        &g.id,
        "t".to_string(),
        Some("r".to_string()),
        None,
        None,
        None,
    )
    .unwrap();
    match task::fail(&mut db, &t.id) {
        Err(EngineError::InvalidState { current }) => assert_eq!(current, TaskState::Pending),
        other => panic!("expected InvalidState, got {:?}", other.map(|t| t.state)),
    }
}

#[test]
fn complete_only_from_in_progress() {
    let mut db = fresh_db();
    let g = goal::create(&mut db, "g".to_string()).unwrap();
    let t = task::create(
        &mut db,
        &g.id,
        "t".to_string(),
        Some("r".to_string()),
        None,
        None,
        None,
    )
    .unwrap();
    match task::complete(&mut db, &t.id, "done".to_string(), None, None, None) {
        Err(EngineError::InvalidState { current }) => assert_eq!(current, TaskState::Pending),
        other => panic!("expected InvalidState, got {:?}", other.map(|o| o.task.state)),
    }
}

#[test]
fn end_to_end_ship_v1() {
    let mut db = fresh_db();
    let g = goal::create(&mut db, "Ship v1".to_string()).unwrap();

    let write_tests =
        task::create(&mut db, &g.id, "write tests".to_string(), None, None, None, None).unwrap();
    let deploy = task::create(
        &mut db,
        &g.id,
        "deploy".to_string(),
        None,
        None,
        None,
        Some(vec![write_tests.id.clone()]),
    )
    .unwrap();
    assert_eq!(deploy.state, TaskState::Blocked);

    // starting before a contract is set is refused
    assert!(matches!(
        task::start(&mut db, &write_tests.id),
        Err(EngineError::NeedsContract)
    ));

    // set a contract, then start
    radial::commands::edit::task(
        &mut db,
        &write_tests.id,
        None,
        Some("spec".to_string()),
        Some("passing tests".to_string()),
        Some("cargo test".to_string()),
        None,
    )
    .unwrap();
    let started = task::start(&mut db, &write_tests.id).unwrap();
    assert_eq!(started.state, TaskState::InProgress);

    let done = task::complete(&mut db, &write_tests.id, "done".to_string(), None, None, None)
        .unwrap();
    assert_eq!(done.task.state, TaskState::Completed);
    assert_eq!(done.unblocked, vec![deploy.id.clone()]);

    let deploy2 = db.get_task(&deploy.id).unwrap().unwrap();
    assert_eq!(deploy2.state, TaskState::Pending);
}

#[test]
fn simulated_retry_race_one_winner_one_conflict() {
    let mut db = fresh_db();
    let g = goal::create(&mut db, "g".to_string()).unwrap();
    let t = task::create(
        &mut db,
        &g.id,
        "t".to_string(),
        Some("r".to_string()),
        None,
        None,
        None,
    )
    .unwrap();
    task::start(&mut db, &t.id).unwrap();
    task::fail(&mut db, &t.id).unwrap();

    // two invocations fetch the same failed snapshot
    let snap1 = db.get_task(&t.id).unwrap().unwrap();
    let snap2 = db.get_task(&t.id).unwrap().unwrap();

    let first = task::retry_from_snapshot(&mut db, &snap1).unwrap();
    assert_eq!(first.state, TaskState::InProgress);
    assert_eq!(first.metrics.retry_count, 1);
    match task::retry_from_snapshot(&mut db, &snap2) {
        Err(EngineError::Conflict) => {}
        other => panic!("expected Conflict, got {:?}", other.map(|t| t.state)),
    }
}
